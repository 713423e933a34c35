//! A network: a block, its tag and its capacity counters.

use crate::net::Cidr;
use crate::type_net::host_count::{capacity, HostCount, Parts, Prefix};
use crate::type_net::vlan::Vlan;
use vstd::prelude::*;

verus! {

/// A network as it is kept: a block under an identifier, with the counters of
/// its addresses. The devices of a network name it by that identifier; the
/// network holds none of them.
///
/// Keeping `used`, `available` and `total` in step with the devices is the
/// work of whoever adds and removes devices.
pub struct Network {
    pub id: uuid::Uuid,
    pub network: Cidr,
    pub description: Option<String>,
    pub available: u32,
    pub used: u32,
    pub total: u32,
    pub vlan: Option<Vlan>,
}

impl Network {
    /// The network is new: it has the given identity and block, every host
    /// address of the block is available, and none is counted as used.
    pub open spec fn is_new(self, id: uuid::Uuid, network: Cidr) -> bool {
        &&& self.id == id
        &&& self.network == network
        &&& self.available == capacity(Parts::of(network@))
        &&& self.used == 0
        &&& self.total == 0
    }

    /// A new network for the block `network` under the identifier `id`.
    pub fn new(
        id: uuid::Uuid,
        network: Cidr,
        description: Option<String>,
        vlan: Option<Vlan>,
    ) -> (r: Network)
        ensures
            r.is_new(id, network),
            r.description == description,
            r.vlan == vlan,
    {
        let available = HostCount::new(Prefix::from(&network));
        Network { id, network, description, available: *available, used: 0, total: 0, vlan }
    }
}

/// `uuid::Uuid::new_v4`: a random identifier. Nothing is claimed of it: two
/// calls give two identifiers.
#[verifier::external_body]
pub(crate) fn new_id() -> uuid::Uuid {
    uuid::Uuid::new_v4()
}

} // verus!
