//! Data shapes of the service: the message catalog and, per API version,
//! the request descriptors and response records of every operation.

pub mod response;
pub mod status;
pub mod v3;
