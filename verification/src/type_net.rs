//! The value types of a network: its prefix, its host capacity, its VLAN tag.

pub mod host_count;
pub mod vlan;
