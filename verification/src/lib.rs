//! A typed, verified client library for the Luarmor script-licensing API.
//!
//! The library builds the HTTP request of every API operation and decodes
//! every response through the service's uniform `{success, message, data}`
//! envelope into typed records or typed errors. It performs no I/O itself:
//! a caller supplies a transport by implementing [`client::Client`], and
//! the [`client::LuarmorClient`] facade drives it.

pub mod json;
pub mod models;
pub mod endpoint;
pub mod combinator;
pub mod client;

pub use client::{Client, HttpResponse, LuarmorClient};
pub use combinator::{ApiError, Luarmor, LuarmorResponse};
pub use endpoint::{Endpoint, Method, RequestParts};
