//! Wire protocol of a Stratum-style mining pool: the message model, the
//! line-delimited JSON-RPC codec, the error names carried in error replies,
//! the job identifier scheme, and the range of protocol versions served.

pub mod message;
pub mod utils;
pub mod version;
