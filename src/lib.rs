//! The L2 side of a two-layer greeter: cross-layer sender aliasing, inbound
//! authorization against the registered L1 counterpart, and construction of
//! outbound calls to that counterpart.

pub mod address;
pub mod calldata;
pub mod gateway;
