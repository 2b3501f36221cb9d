//! Endpoint descriptors.
//!
//! Every API operation is described by one value: its HTTP method, its URL
//! path (with path parameters substituted), its query parameters in a fixed
//! order, and its optional JSON body. [`RequestParts`] is the assembled,
//! transport-ready form of one request.

use vstd::prelude::*;
use crate::json::{Json, JVal};

verus! {

/// The HTTP method of an operation.
#[derive(Clone, Copy, Debug, PartialEq, Eq, Structural)]
pub enum Method {
    Get,
    Post,
    Patch,
    Put,
    Delete,
}

/// One assembled HTTP request: everything a transport needs to send it.
///
/// `body`, when present, is JSON text and is to be sent with a
/// `Content-Type: application/json` header. `authorization`, when present,
/// is the value of the `Authorization` header: the raw API key.
#[derive(Clone, Debug)]
pub struct RequestParts {
    pub method: Method,
    pub path: String,
    pub query: Vec<(String, String)>,
    pub body: Option<String>,
    pub authorization: Option<String>,
}

/// The character sequences of a list of query parameter pairs.
pub open spec fn pairs_view(q: Seq<(String, String)>) -> Seq<(Seq<char>, Seq<char>)> {
    Seq::new(q.len(), |i: int| (q[i].0@, q[i].1@))
}

/// The description of one API operation.
///
/// The `spec_` functions are the mathematical description; each executable
/// method returns exactly what its `spec_` counterpart says.
pub trait Endpoint {
    /// The HTTP method of the operation.
    spec fn spec_method(&self) -> Method;

    /// The URL path, with path parameters substituted.
    spec fn spec_path(&self) -> Seq<char>;

    /// The query parameters, in the documented order.
    spec fn spec_query(&self) -> Seq<(Seq<char>, Seq<char>)>;

    /// The JSON body, if the operation sends one.
    spec fn spec_body(&self) -> Option<JVal>;

    /// Whether a failing HTTP status with an empty body is passed over
    /// instead of being reported as an error.
    spec fn spec_ignore_errors(&self) -> bool;

    fn method(&self) -> (m: Method)
        ensures
            m == self.spec_method(),
    ;

    fn path(&self) -> (p: String)
        ensures
            p@ == self.spec_path(),
    ;

    fn query_params(&self) -> (q: Vec<(String, String)>)
        ensures
            pairs_view(q@) == self.spec_query(),
    ;

    fn body(&self) -> (b: Option<Json>)
        ensures
            match b {
                Some(j) => self.spec_body() == Some(j@),
                None => self.spec_body() is None,
            },
    ;

    fn ignore_errors(&self) -> (b: bool)
        ensures
            b == self.spec_ignore_errors(),
    ;
}

} // verus!
