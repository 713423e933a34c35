//! The records that the service keeps: devices, networks and users.

pub mod device;
pub mod network;
pub mod user;

pub use device::{Credential, Device, Status, UpdateDevice};
pub use network::Network;
pub use user::{Role, User};
