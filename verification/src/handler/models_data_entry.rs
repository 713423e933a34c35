//! Submitted networks and devices, and the records built from them.

use crate::models;
use crate::models::network::new_id;
use crate::models::{Credential, Status};
use crate::net::{lemma_block_bounds, lemma_pow2_widths, Cidr, IpAddress};
use crate::type_net::vlan::Vlan;
use vstd::arithmetic::power2::*;
use vstd::prelude::*;
use vstd::std_specs::convert::FromSpecImpl;

verus! {

/// The name and password that a user signs in with.
#[derive(Debug)]
pub struct User {
    pub username: String,
    pub password: String,
}

/// A network as a caller submits it.
pub struct Network {
    pub network: Cidr,
    pub description: Option<String>,
    pub vlan: Option<Vlan>,
}

impl From<Network> for models::Network {
    /// The new network for a submitted one, under a fresh identifier.
    fn from(value: Network) -> (r: models::Network)
        ensures
            r.is_new(r.id, value.network),
            r.description == value.description,
            r.vlan == value.vlan,
    {
        models::Network::new(new_id(), value.network, value.description, value.vlan)
    }
}

impl FromSpecImpl<Network> for models::Network {
    /// The identifier is drawn at random, so the network is no function of
    /// what was submitted.
    open spec fn obeys_from_spec() -> bool {
        false
    }

    open spec fn from_spec(value: Network) -> models::Network {
        arbitrary()
    }
}

/// A device as a caller submits it.
#[derive(Debug)]
pub struct Device {
    pub ip: IpAddress,
    pub description: Option<String>,
    pub office_id: Option<uuid::Uuid>,
    pub rack: Option<String>,
    pub room: Option<String>,
    pub status: Option<Status>,
    pub network_id: uuid::Uuid,
    pub credential: Option<Credential>,
}

impl From<Device> for models::Device {
    /// The device to keep for a submitted one. Whatever status was submitted,
    /// the device starts as unknown.
    fn from(value: Device) -> (r: models::Device)
    {
        models::Device {
            status: Status::default(),
            ip: value.ip,
            description: value.description,
            office_id: value.office_id,
            rack: value.rack,
            room: value.room,
            network_id: value.network_id,
            credential: value.credential,
        }
    }
}

impl FromSpecImpl<Device> for models::Device {
    open spec fn obeys_from_spec() -> bool {
        true
    }

    open spec fn from_spec(value: Device) -> models::Device {
        models::Device {
            status: Status::Unknown,
            ip: value.ip,
            description: value.description,
            office_id: value.office_id,
            rack: value.rack,
            room: value.room,
            network_id: value.network_id,
            credential: value.credential,
        }
    }
}

/// One placeholder device for each assignable address of `network`, in
/// ascending address order, all owned by the network `id`; `None` where the
/// block has no assignable address.
pub fn create_all_devices(network: Cidr, id: uuid::Uuid) -> (r: Option<Vec<models::Device>>)
    ensures
        match r {
            Some(devices) => {
                &&& devices@.len() > 0
                &&& devices@.len() == network@.hosts().len()
                &&& forall|i: int|
                    0 <= i < devices@.len() ==> (#[trigger] devices@[i]).is_placeholder(
                        network@.family,
                        network@.hosts()[i],
                        id,
                    )
            },
            None => network@.hosts().len() == 0,
        },
{
    proof {
        use_type_invariant(&network);
        lemma_block_bounds(network@);
        lemma_pow2_widths();
        lemma2_to64();
    }
    let family = network.family();
    let host_bits = network.host_bits();
    if host_bits < 2 {
        return None;
    }
    proof {
        crate::net::lemma_pow2_monotone(2, host_bits as nat);
    }
    let first = network.network() + 1;
    let last = network.broadcast() - 1;
    let mut devices: Vec<models::Device> = Vec::new();
    let mut ip = first;
    loop
        invariant_except_break
            devices@.len() == ip - first,
        invariant
            first <= ip <= last,
            first == network@.network() + 1,
            last == network@.broadcast() - 1,
            last < pow2(family.bits()),
            family == network@.family,
            network@.size() >= 4,
            forall|i: int|
                0 <= i < devices@.len() ==> (#[trigger] devices@[i]).is_placeholder(
                    family,
                    network@.hosts()[i],
                    id,
                ),
        ensures
            devices@.len() == last - first + 1,
            forall|i: int|
                0 <= i < devices@.len() ==> (#[trigger] devices@[i]).is_placeholder(
                    family,
                    network@.hosts()[i],
                    id,
                ),
        decreases last - ip,
    {
        devices.push(models::Device::placeholder(IpAddress::new(family, ip), id));
        if ip == last {
            break;
        }
        ip = ip + 1;
    }
    Some(devices)
}

} // verus!
