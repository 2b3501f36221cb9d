//! The response envelope and its unwrapping.
//!
//! Every response of the service (except the plain status probe) is a JSON
//! object `{"success": bool, "message": string, ...payload fields}`.
//! [`Luarmor`] wraps an endpoint descriptor and turns a raw response into
//! that envelope; [`LuarmorResponse::into_result`] then maps the envelope
//! onto a typed result. The order of the checks is part of the contract:
//! the empty-body test comes before any parsing, a `success: false` beats a
//! missing payload, and a missing payload under `success: true` is a
//! protocol violation, never a silent default.

use vstd::prelude::*;
use crate::endpoint::{Endpoint, RequestParts, pairs_view};
use crate::json::{Json, JVal, json_of, text_of, spec_field, emit_json, parse_json};
use crate::models::response::{LuarmorMessage, MessageV, message_of};

verus! {

/// An error of one API call.
#[derive(Clone, Debug, PartialEq, Eq)]
pub enum ApiError {
    /// The transport could not deliver the request; carries its report.
    Connection { reason: String },
    /// The server returned an error or violated the protocol; carries the
    /// raw response.
    Response { status: u16, body: String },
    /// The server answered `success: false`; carries the decoded message.
    Client { message: LuarmorMessage },
    /// The response body could not be read as the expected shape.
    Decode { body: String },
}

/// The mathematical form of [`ApiError`].
pub enum ApiErrorV {
    Connection(Seq<char>),
    Response(u16, Seq<char>),
    Client(MessageV),
    Decode(Seq<char>),
}

impl View for ApiError {
    type V = ApiErrorV;

    open spec fn view(&self) -> ApiErrorV {
        match self {
            ApiError::Connection { reason } => ApiErrorV::Connection(reason@),
            ApiError::Response { status, body } => ApiErrorV::Response(*status, body@),
            ApiError::Client { message } => ApiErrorV::Client(message@),
            ApiError::Decode { body } => ApiErrorV::Decode(body@),
        }
    }
}

/// A decoded response envelope, with the payload already typed.
///
/// `data` is `None` when the payload fields were absent or not of the
/// expected shape.
#[derive(Clone, Debug)]
pub struct LuarmorResponse<T> {
    pub success: bool,
    pub message: LuarmorMessage,
    pub data: Option<T>,
}

/// Whether an HTTP status reports success.
pub open spec fn spec_status_success(status: u16) -> bool {
    200 <= status < 300
}

/// The `success` and `message` fields of an envelope object, if both are
/// present with their expected types.
pub open spec fn spec_envelope_fields(j: JVal) -> Option<(bool, Seq<char>)> {
    match (spec_field(j, "success"@), spec_field(j, "message"@)) {
        (Some(JVal::Bool(b)), Some(JVal::Str(m))) => Some((b, m)),
        _ => None,
    }
}

/// What reading the envelope of a raw response yields: the success flag,
/// the decoded message and the whole response object — or the error that
/// the response is rejected with before any payload is looked at.
pub open spec fn spec_read_envelope(body: Seq<char>, status: u16, ignore_errors: bool) -> Result<
    (bool, MessageV, JVal),
    ApiErrorV,
> {
    if body.len() == 0 && !spec_status_success(status) && !ignore_errors {
        Err(ApiErrorV::Response(status, body))
    } else {
        match json_of(body) {
            Some(j) => match spec_envelope_fields(j) {
                Some((success, msg)) => Ok((success, message_of(msg), j)),
                None => Err(ApiErrorV::Decode(body)),
            },
            None => Err(ApiErrorV::Decode(body)),
        }
    }
}

/// What unwrapping a decoded envelope yields: the payload on success, the
/// decoded message as a client error on `success: false`, and the raw
/// response as a protocol violation when success is claimed but the payload
/// is missing.
pub open spec fn spec_unwrap<TV>(
    success: bool,
    message: MessageV,
    data: Option<TV>,
    status: u16,
    raw: Seq<char>,
) -> Result<TV, ApiErrorV> {
    if !success {
        Err(ApiErrorV::Client(message))
    } else {
        match data {
            Some(d) => Ok(d),
            None => Err(ApiErrorV::Response(status, raw)),
        }
    }
}

/// The view of an optional value.
pub open spec fn opt_view<T: View>(o: Option<T>) -> Option<T::V> {
    match o {
        Some(x) => Some(x@),
        None => None,
    }
}

impl<T: View> LuarmorResponse<T> {
    /// Unwraps the envelope: the payload, or the typed error.
    ///
    /// `status` and `raw` are the HTTP status and body the envelope was
    /// decoded from; a protocol violation carries them back to the caller.
    pub fn into_result(self, status: u16, raw: &str) -> (r: Result<T, ApiError>)
        ensures
            match r {
                Ok(d) => spec_unwrap(self.success, self.message@, opt_view(self.data), status, raw@)
                    == Ok::<T::V, ApiErrorV>(d@),
                Err(e) => spec_unwrap(
                    self.success,
                    self.message@,
                    opt_view(self.data),
                    status,
                    raw@,
                ) == Err::<T::V, ApiErrorV>(e@),
            },
    {
        if !self.success {
            Err(ApiError::Client { message: self.message })
        } else {
            match self.data {
                Some(d) => Ok(d),
                None => Err(ApiError::Response { status, body: raw.to_owned() }),
            }
        }
    }
}

/// Wraps an endpoint descriptor with the envelope protocol of the service.
pub struct Luarmor<E>(pub E);

impl<E: Endpoint> Luarmor<E> {
    /// Assembles the HTTP request of the endpoint. `authorization`, when
    /// given, becomes the `Authorization` header value.
    pub fn request_parts(&self, authorization: Option<String>) -> (r: RequestParts)
        ensures
            r.method == self.0.spec_method(),
            r.path@ == self.0.spec_path(),
            pairs_view(r.query@) == self.0.spec_query(),
            match (r.body, self.0.spec_body()) {
                (Some(text), Some(j)) => text@ == text_of(j),
                (None, None) => true,
                _ => false,
            },
            r.authorization == authorization,
    {
        let body = match self.0.body() {
            Some(j) => Some(emit_json(&j)),
            None => None,
        };
        RequestParts {
            method: self.0.method(),
            path: self.0.path(),
            query: self.0.query_params(),
            body,
            authorization,
        }
    }

    /// Reads the envelope of a raw response, honouring the endpoint's
    /// `ignore_errors` choice.
    pub fn finalise(&self, status: u16, body: &str) -> (r: Result<
        (bool, LuarmorMessage, Json),
        ApiError,
    >)
        ensures
            match r {
                Ok(env) => spec_read_envelope(body@, status, self.0.spec_ignore_errors())
                    matches Ok(ev) && ev.0 == env.0 && ev.1 == env.1@ && ev.2 == env.2@,
                Err(e) => spec_read_envelope(body@, status, self.0.spec_ignore_errors())
                    == Err::<(bool, MessageV, JVal), ApiErrorV>(e@),
            },
    {
        read_envelope(status, body, self.0.ignore_errors())
    }
}

/// Reads the envelope of a raw response.
///
/// An empty body under a failing HTTP status is rejected before any parsing
/// (unless the endpoint ignores errors); then the body must be a JSON object
/// carrying a boolean `success` and a string `message`. The returned object
/// still holds the payload fields.
pub fn read_envelope(status: u16, body: &str, ignore_errors: bool) -> (r: Result<
    (bool, LuarmorMessage, Json),
    ApiError,
>)
    ensures
        match r {
            Ok(env) => spec_read_envelope(body@, status, ignore_errors) matches Ok(ev) && ev.0
                == env.0 && ev.1 == env.1@ && ev.2 == env.2@,
            Err(e) => spec_read_envelope(body@, status, ignore_errors) == Err::<
                (bool, MessageV, JVal),
                ApiErrorV,
            >(e@),
        },
{
    if body.is_empty() && !(200 <= status && status < 300) && !ignore_errors {
        return Err(ApiError::Response { status, body: body.to_owned() });
    }
    match parse_json(body) {
        None => Err(ApiError::Decode { body: body.to_owned() }),
        Some(j) => {
            let success: Option<bool> = match j.field("success") {
                Some(v) => v.as_bool(),
                None => None,
            };
            let message_text: Option<String> = match j.field("message") {
                Some(v) => match v.as_str() {
                    Some(s) => Some(s.clone()),
                    None => None,
                },
                None => None,
            };
            match (success, message_text) {
                (Some(success), Some(text)) => Ok((
                    success,
                    LuarmorMessage::from_str(text.as_str()),
                    j,
                )),
                _ => Err(ApiError::Decode { body: body.to_owned() }),
            }
        },
    }
}

/// The view of a typed call result.
pub open spec fn res_view<T: View>(r: Result<T, ApiError>) -> Result<T::V, ApiErrorV> {
    match r {
        Ok(d) => Ok(d@),
        Err(e) => Err(e@),
    }
}

/// What an operation whose success carries no payload yields for a raw
/// response: the envelope alone decides.
pub open spec fn spec_unit_outcome(body: Seq<char>, status: u16) -> Result<(), ApiErrorV> {
    spec_outcome(body, status, false, |j: JVal| Some(()))
}

/// Decodes the raw response of an operation whose success carries no
/// payload.
pub fn unit_response(status: u16, body: &str) -> (r: Result<(), ApiError>)
    ensures
        res_view(r) == spec_unit_outcome(body@, status),
{
    match read_envelope(status, body, false) {
        Err(e) => Err(e),
        Ok((success, message, _obj)) => LuarmorResponse { success, message, data: Some(()) }
            .into_result(status, body),
    }
}

/// What one whole call yields for a given raw response, given the payload
/// decoder of the endpoint: the composition of reading the envelope and
/// unwrapping it.
pub open spec fn spec_outcome<TV>(
    body: Seq<char>,
    status: u16,
    ignore_errors: bool,
    decode: spec_fn(JVal) -> Option<TV>,
) -> Result<TV, ApiErrorV> {
    match spec_read_envelope(body, status, ignore_errors) {
        Ok(env) => spec_unwrap(env.0, env.1, decode(env.2), status, body),
        Err(e) => Err(e),
    }
}

/// An envelope that claims success and carries the expected payload yields
/// exactly that payload.
pub proof fn lemma_success_with_data<TV>(
    body: Seq<char>,
    status: u16,
    ignore_errors: bool,
    decode: spec_fn(JVal) -> Option<TV>,
    j: JVal,
    msg: Seq<char>,
    d: TV,
)
    requires
        body.len() != 0,
        json_of(body) == Some(j),
        spec_envelope_fields(j) == Some((true, msg)),
        decode(j) == Some(d),
    ensures
        spec_outcome(body, status, ignore_errors, decode) == Ok::<TV, ApiErrorV>(d),
{
}

/// An envelope that claims success but carries no readable payload is a
/// protocol violation: the raw response comes back as an error, never a
/// default value.
pub proof fn lemma_success_without_data<TV>(
    body: Seq<char>,
    status: u16,
    ignore_errors: bool,
    decode: spec_fn(JVal) -> Option<TV>,
    j: JVal,
    msg: Seq<char>,
)
    requires
        body.len() != 0,
        json_of(body) == Some(j),
        spec_envelope_fields(j) == Some((true, msg)),
        decode(j) is None,
    ensures
        spec_outcome(body, status, ignore_errors, decode) == Err::<TV, ApiErrorV>(
            ApiErrorV::Response(status, body),
        ),
{
}

/// An envelope with `success: false` yields a client error wrapping the
/// decoded message, whatever the HTTP status and whatever the payload.
pub proof fn lemma_failure_is_client_error<TV>(
    body: Seq<char>,
    status: u16,
    ignore_errors: bool,
    decode: spec_fn(JVal) -> Option<TV>,
    j: JVal,
    msg: Seq<char>,
)
    requires
        body.len() != 0,
        json_of(body) == Some(j),
        spec_envelope_fields(j) == Some((false, msg)),
    ensures
        spec_outcome(body, status, ignore_errors, decode) == Err::<TV, ApiErrorV>(
            ApiErrorV::Client(message_of(msg)),
        ),
{
}

/// An empty body under a failing HTTP status, for an endpoint that does not
/// ignore errors, is rejected with the raw response before any parsing.
pub proof fn lemma_empty_failure_is_response_error<TV>(
    status: u16,
    decode: spec_fn(JVal) -> Option<TV>,
)
    requires
        !spec_status_success(status),
    ensures
        spec_outcome(Seq::empty(), status, false, decode) == Err::<TV, ApiErrorV>(
            ApiErrorV::Response(status, Seq::empty()),
        ),
{
}

} // verus!
