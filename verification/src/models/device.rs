//! A device: the occupant of one address of a network.

use crate::net::{Family, IpAddress};
use vstd::prelude::*;

verus! {

#[verifier::external_type_specification]
#[verifier::external_body]
pub struct ExUuid(uuid::Uuid);

/// `Clone` of `uuid::Uuid`, which the crate derives for a `Copy` type: the
/// clone is the identifier itself.
pub assume_specification[ <uuid::Uuid as Clone>::clone ](id: &uuid::Uuid) -> (r: uuid::Uuid)
    ensures
        r == *id,
;

/// The account with which a device is reached.
#[derive(Debug, Clone, PartialEq)]
pub struct Credential {
    pub username: String,
    pub password: String,
}

/// What is known of a device's reachability.
#[derive(Debug, Clone, Copy, PartialEq, Eq, Structural)]
pub enum Status {
    Reserved,
    Unknown,
    Online,
    Offline,
}

impl Default for Status {
    fn default() -> (s: Status)
        ensures
            s == Status::Unknown,
    {
        Status::Unknown
    }
}

/// The fields of a device that a caller wants changed; the others stay.
#[derive(Debug)]
pub struct UpdateDevice {
    pub ip: Option<IpAddress>,
    pub description: Option<String>,
    pub office_id: Option<uuid::Uuid>,
    pub rack: Option<String>,
    pub room: Option<String>,
    pub status: Option<Status>,
    pub network_id: Option<uuid::Uuid>,
    pub credential: Option<Credential>,
}

/// A device and the network that it belongs to. The network is named by its
/// identifier; a device holds no network and a network holds no devices.
#[derive(Debug, Clone)]
pub struct Device {
    pub ip: IpAddress,
    pub description: Option<String>,
    pub office_id: Option<uuid::Uuid>,
    pub rack: Option<String>,
    pub room: Option<String>,
    pub status: Status,
    pub network_id: uuid::Uuid,
    pub credential: Option<Credential>,
}

impl Device {
    /// The device is the placeholder for the address `addr` of family `family`
    /// in network `network_id`: nothing is known of it but where it is.
    pub open spec fn is_placeholder(self, family: Family, addr: nat, network_id: uuid::Uuid) -> bool {
        &&& self.ip.family() == family
        &&& self.ip.value() == addr
        &&& self.description is None
        &&& self.office_id is None
        &&& self.rack is None
        &&& self.room is None
        &&& self.status == Status::Unknown
        &&& self.network_id == network_id
        &&& self.credential is None
    }

    /// The placeholder for address `ip` in network `network_id`.
    pub fn placeholder(ip: IpAddress, network_id: uuid::Uuid) -> (d: Device)
        ensures
            d.is_placeholder(ip.family(), ip.value(), network_id),
    {
        Device {
            ip,
            description: None,
            office_id: None,
            rack: None,
            room: None,
            status: Status::default(),
            network_id,
            credential: None,
        }
    }
}

} // verus!
