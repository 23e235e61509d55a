//! The messages of the protocol and their form on the wire.

pub mod buffer;
pub mod error;
pub mod frame;
pub mod json;
pub mod pool_errors;
pub mod response;
pub mod roundtrip;
pub mod rpc;
pub mod speed;
pub mod stratum;
