//! The status probe.
//!
//! `GET /status` is the one operation whose response is not wrapped in the
//! `{success, message, ...}` envelope: its body is the status record itself,
//! and a failing HTTP status is rejected before the body is read.

use vstd::prelude::*;
use crate::combinator::{ApiError, ApiErrorV, res_view, spec_status_success};
use crate::endpoint::{Endpoint, Method, pairs_view};
use crate::json::{Json, JVal, json_of, spec_field};

verus! {

/// The version probe of the API.
#[derive(Clone, Copy, Debug, Default, PartialEq, Eq, Structural)]
pub struct ApiStatus;

impl Endpoint for ApiStatus {
    open spec fn spec_method(&self) -> Method {
        Method::Get
    }

    open spec fn spec_path(&self) -> Seq<char> {
        "/status"@
    }

    open spec fn spec_query(&self) -> Seq<(Seq<char>, Seq<char>)> {
        Seq::empty()
    }

    open spec fn spec_body(&self) -> Option<JVal> {
        None
    }

    open spec fn spec_ignore_errors(&self) -> bool {
        false
    }

    fn method(&self) -> (m: Method) {
        Method::Get
    }

    fn path(&self) -> (p: String) {
        "/status".to_owned()
    }

    fn query_params(&self) -> (q: Vec<(String, String)>) {
        let q: Vec<(String, String)> = Vec::new();
        proof {
            assert(pairs_view(q@) =~= Seq::<(Seq<char>, Seq<char>)>::empty());
        }
        q
    }

    fn body(&self) -> (b: Option<Json>) {
        None
    }

    fn ignore_errors(&self) -> (b: bool) {
        false
    }
}

/// What the status probe reports.
#[derive(Clone, Debug, PartialEq, Eq, PartialOrd, Ord, Hash)]
pub struct ApiStatusResponse {
    pub version: String,
    pub active: bool,
    pub message: String,
    pub warning: bool,
    pub warning_message: String,
}

/// The mathematical form of [`ApiStatusResponse`].
pub struct StatusV {
    pub version: Seq<char>,
    pub active: bool,
    pub message: Seq<char>,
    pub warning: bool,
    pub warning_message: Seq<char>,
}

impl View for ApiStatusResponse {
    type V = StatusV;

    open spec fn view(&self) -> StatusV {
        StatusV {
            version: self.version@,
            active: self.active,
            message: self.message@,
            warning: self.warning,
            warning_message: self.warning_message@,
        }
    }
}

/// The status record a response object decodes to, if it has every field
/// with its expected type.
pub open spec fn spec_status_of(j: JVal) -> Option<StatusV> {
    match (
        spec_field(j, "version"@),
        spec_field(j, "active"@),
        spec_field(j, "message"@),
        spec_field(j, "warning"@),
        spec_field(j, "warning_message"@),
    ) {
        (
            Some(JVal::Str(version)),
            Some(JVal::Bool(active)),
            Some(JVal::Str(message)),
            Some(JVal::Bool(warning)),
            Some(JVal::Str(warning_message)),
        ) => Some(StatusV { version, active, message, warning, warning_message }),
        _ => None,
    }
}

/// Decodes a status record from a response object.
pub fn decode_status(j: &Json) -> (r: Option<ApiStatusResponse>)
    ensures
        match r {
            Some(s) => spec_status_of(j@) == Some(s@),
            None => spec_status_of(j@) is None,
        },
{
    let version = match j.field("version") {
        Some(v) => match v.as_str() {
            Some(s) => Some(s.clone()),
            None => None,
        },
        None => None,
    };
    let active = match j.field("active") {
        Some(v) => v.as_bool(),
        None => None,
    };
    let message = match j.field("message") {
        Some(v) => match v.as_str() {
            Some(s) => Some(s.clone()),
            None => None,
        },
        None => None,
    };
    let warning = match j.field("warning") {
        Some(v) => v.as_bool(),
        None => None,
    };
    let warning_message = match j.field("warning_message") {
        Some(v) => match v.as_str() {
            Some(s) => Some(s.clone()),
            None => None,
        },
        None => None,
    };
    match (version, active, message, warning, warning_message) {
        (Some(version), Some(active), Some(message), Some(warning), Some(warning_message)) => Some(
            ApiStatusResponse { version, active, message, warning, warning_message },
        ),
        _ => None,
    }
}

/// What the status operation yields for a raw response: the response is
/// rejected with its raw content on a failing HTTP status, and otherwise
/// its body must be the status record itself — there is no envelope.
pub open spec fn spec_status_outcome(body: Seq<char>, status: u16) -> Result<StatusV, ApiErrorV> {
    if !spec_status_success(status) {
        Err(ApiErrorV::Response(status, body))
    } else {
        match json_of(body) {
            Some(j) => match spec_status_of(j) {
                Some(s) => Ok(s),
                None => Err(ApiErrorV::Decode(body)),
            },
            None => Err(ApiErrorV::Decode(body)),
        }
    }
}

/// Decodes the raw response of the status operation.
pub fn status_response(status: u16, body: &str) -> (r: Result<ApiStatusResponse, ApiError>)
    ensures
        res_view(r) == spec_status_outcome(body@, status),
{
    if !(200 <= status && status < 300) {
        return Err(ApiError::Response { status, body: body.to_owned() });
    }
    match crate::json::parse_json(body) {
        None => Err(ApiError::Decode { body: body.to_owned() }),
        Some(j) => match decode_status(&j) {
            Some(s) => Ok(s),
            None => Err(ApiError::Decode { body: body.to_owned() }),
        },
    }
}

} // verus!
