//! Wire protocol, gateway session core and device-side logic for a fleet of
//! edge devices that talk to gateways over mutually authenticated TLS.

pub mod catalog;
pub mod cbor;
pub mod codec;
pub mod device;
pub mod device_id;
pub mod frame;
pub mod identity;
pub mod item;
pub mod kubelet;
pub mod protocol;
pub mod registry;
pub mod server;
pub mod session;
pub mod table;
