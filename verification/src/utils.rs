//! Helpers around the opaque strings that messages carry.

pub mod convert;
pub mod hexstr;
pub mod job_id;
pub mod notify;
pub mod text;
