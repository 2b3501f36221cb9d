//! The per-key client facade.
//!
//! [`LuarmorClient`] holds an API key and a transport and exposes one method
//! per API operation. Each method assembles the request of its endpoint
//! descriptor, attaches the `Authorization` header where the operation wants
//! one, hands the request to the transport, and decodes the raw response
//! through the verified envelope pipeline. The facade adds nothing else: no
//! retries, no caching, no timeouts.

use vstd::prelude::*;
use crate::combinator::{Luarmor, ApiError, res_view, spec_unit_outcome, unit_response};
use crate::endpoint::RequestParts;
use crate::models::status::{
    ApiStatus, ApiStatusResponse, spec_status_outcome, status_response,
};
use crate::models::v3::keys::details::{
    ApiKeyDetails, ApiKeyDetailsResponse, details_response, spec_details_outcome,
};
use crate::models::v3::keys::stats::{
    ApiKeyStats, ApiKeyStatsResponse, spec_stats_outcome, stats_response,
};
use crate::models::v3::projects::scripts::UpdateScript;
use crate::models::v3::projects::users::{
    BlacklistUser, CreateUser, DeleteUser, GetUsers, LinkDiscordId, ResetHwid, UnblacklistUser,
    UpdateUser, User, create_user_response, spec_create_user_outcome, spec_users_outcome,
    users_response,
};

verus! {

/// One raw HTTP response: its status code and its body text.
#[derive(Clone, Debug, PartialEq, Eq)]
pub struct HttpResponse {
    pub status: u16,
    pub body: String,
}

/// A transport that can send one assembled request.
///
/// The library performs no I/O: callers implement this trait over whatever
/// HTTP client they use, pointing it at the service's base URL. An `Err`
/// carries the transport's own report of why nothing came back.
pub trait Client {
    fn rest(&self, request: &RequestParts) -> Result<HttpResponse, String>;
}

/// The per-key facade: one method per API operation.
#[derive(Clone, Debug)]
pub struct LuarmorClient<C> {
    api_key: String,
    client: C,
}

impl<C> LuarmorClient<C> {
    /// The API key this client authenticates with.
    pub closed spec fn spec_api_key(&self) -> Seq<char> {
        self.api_key@
    }

    /// The transport this client sends its requests on.
    pub closed spec fn spec_client(&self) -> C {
        self.client
    }

    /// A client for the given API key over the given transport.
    pub fn new(api_key: String, client: C) -> (r: Self)
        ensures
            r.spec_api_key() == api_key@,
            r.spec_client() == client,
    {
        LuarmorClient { api_key, client }
    }
}

impl<C: Client> LuarmorClient<C> {
    /// The API status: version, liveness and warnings.
    ///
    /// Like every operation, the request carries the `Authorization`
    /// header. The result is the verified decoding of whatever response the
    /// transport produced; only a transport failure escapes that.
    pub fn status(&self) -> (r: Result<ApiStatusResponse, ApiError>)
        ensures
            (r matches Err(e) && e@ is Connection) || exists|status: u16, body: Seq<char>|
                res_view(r) == #[trigger] spec_status_outcome(body, status),
    {
        let parts = Luarmor(ApiStatus).request_parts(Some(self.api_key.clone()));
        match self.client.rest(&parts) {
            Err(reason) => Err(ApiError::Connection { reason }),
            Ok(resp) => {
                let r = status_response(resp.status, resp.body.as_str());
                proof {
                    assert(res_view(r) == spec_status_outcome(resp.body@, resp.status));
                }
                r
            },
        }
    }

    /// The details of this API key: its plan, lifetime and projects.
    pub fn details(&self) -> (r: Result<ApiKeyDetailsResponse, ApiError>)
        ensures
            (r matches Err(e) && e@ is Connection) || exists|status: u16, body: Seq<char>|
                res_view(r) == #[trigger] spec_details_outcome(body, status),
    {
        let parts = Luarmor(ApiKeyDetails::new(self.api_key.as_str())).request_parts(
            Some(self.api_key.clone()),
        );
        match self.client.rest(&parts) {
            Err(reason) => Err(ApiError::Connection { reason }),
            Ok(resp) => {
                let r = details_response(resp.status, resp.body.as_str());
                proof {
                    assert(res_view(r) == spec_details_outcome(resp.body@, resp.status));
                }
                r
            },
        }
    }

    /// The usage stats of this API key. With `no_users` the server leaves
    /// the user totals out, and this decoding of the answer fails as a
    /// protocol violation; ask with `no_users` only through an
    /// [`ApiKeyStats`] endpoint and [`stats_no_users_response`] decoding.
    ///
    /// [`stats_no_users_response`]: crate::models::v3::keys::stats::stats_no_users_response
    pub fn stats(&self, no_users: bool) -> (r: Result<ApiKeyStatsResponse, ApiError>)
        ensures
            (r matches Err(e) && e@ is Connection) || exists|status: u16, body: Seq<char>|
                res_view(r) == #[trigger] spec_stats_outcome(body, status),
    {
        let parts = Luarmor(ApiKeyStats::new(self.api_key.as_str(), no_users)).request_parts(
            Some(self.api_key.clone()),
        );
        match self.client.rest(&parts) {
            Err(reason) => Err(ApiError::Connection { reason }),
            Ok(resp) => {
                let r = stats_response(resp.status, resp.body.as_str());
                proof {
                    assert(res_view(r) == spec_stats_outcome(resp.body@, resp.status));
                }
                r
            },
        }
    }

    /// Uploads a new version of a script. Success carries no payload.
    pub fn update_script(&self, payload: UpdateScript<'_>) -> (r: Result<(), ApiError>)
        ensures
            (r matches Err(e) && e@ is Connection) || exists|status: u16, body: Seq<char>|
                res_view(r) == #[trigger] spec_unit_outcome(body, status),
    {
        self.unit_call(Luarmor(payload).request_parts(Some(self.api_key.clone())))
    }

    /// Blacklists a key, and with it any hardware id linked to it.
    pub fn blacklist(&self, payload: BlacklistUser<'_>) -> (r: Result<(), ApiError>)
        ensures
            (r matches Err(e) && e@ is Connection) || exists|status: u16, body: Seq<char>|
                res_view(r) == #[trigger] spec_unit_outcome(body, status),
    {
        self.unit_call(Luarmor(payload).request_parts(Some(self.api_key.clone())))
    }

    /// Creates a key and returns the newly generated key string.
    pub fn create_user(&self, payload: CreateUser<'_>) -> (r: Result<String, ApiError>)
        ensures
            (r matches Err(e) && e@ is Connection) || exists|status: u16, body: Seq<char>|
                match (r, #[trigger] spec_create_user_outcome(body, status)) {
                    (Ok(k), Ok(v)) => k@ == v.user_key,
                    (Err(e), Err(ev)) => e@ == ev,
                    _ => false,
                },
    {
        let parts = Luarmor(payload).request_parts(Some(self.api_key.clone()));
        match self.client.rest(&parts) {
            Err(reason) => Err(ApiError::Connection { reason }),
            Ok(resp) => {
                let r = create_user_response(resp.status, resp.body.as_str());
                let ghost gstatus = resp.status;
                let ghost gbody = resp.body@;
                match r {
                    Ok(d) => {
                        proof {
                            assert(match (
                                Ok::<String, ApiError>(d.user_key),
                                spec_create_user_outcome(gbody, gstatus),
                            ) {
                                (Ok(k), Ok(v)) => k@ == v.user_key,
                                (Err(e), Err(ev)) => e@ == ev,
                                _ => false,
                            });
                        }
                        Ok(d.user_key)
                    },
                    Err(e) => Err(e),
                }
            },
        }
    }

    /// Deletes a key: irreversible, the user bound to it loses access.
    pub fn delete_user(&self, project_id: &str, user_key: &str) -> (r: Result<(), ApiError>)
        ensures
            (r matches Err(e) && e@ is Connection) || exists|status: u16, body: Seq<char>|
                res_view(r) == #[trigger] spec_unit_outcome(body, status),
    {
        self.unit_call(
            Luarmor(DeleteUser::new(project_id, user_key)).request_parts(
                Some(self.api_key.clone()),
            ),
        )
    }

    /// Fetches the users of a project that match the payload's filters.
    pub fn users(&self, payload: GetUsers<'_>) -> (r: Result<Vec<User>, ApiError>)
        ensures
            (r matches Err(e) && e@ is Connection) || exists|status: u16, body: Seq<char>|
                match (r, #[trigger] spec_users_outcome(body, status)) {
                    (Ok(us), Ok(v)) => Seq::new(us@.len(), |k: int| us@[k]@) == v.users,
                    (Err(e), Err(ev)) => e@ == ev,
                    _ => false,
                },
    {
        let parts = Luarmor(payload).request_parts(Some(self.api_key.clone()));
        match self.client.rest(&parts) {
            Err(reason) => Err(ApiError::Connection { reason }),
            Ok(resp) => {
                let r = users_response(resp.status, resp.body.as_str());
                let ghost gstatus = resp.status;
                let ghost gbody = resp.body@;
                match r {
                    Ok(d) => {
                        proof {
                            assert(match (
                                Ok::<Vec<User>, ApiError>(d.users),
                                spec_users_outcome(gbody, gstatus),
                            ) {
                                (Ok(us), Ok(v)) => Seq::new(us@.len(), |k: int| us@[k]@)
                                    == v.users,
                                (Err(e), Err(ev)) => e@ == ev,
                                _ => false,
                            });
                        }
                        Ok(d.users)
                    },
                    Err(e) => Err(e),
                }
            },
        }
    }

    /// Links a Discord ID to a key.
    pub fn link_discord(&self, payload: LinkDiscordId<'_>) -> (r: Result<(), ApiError>)
        ensures
            (r matches Err(e) && e@ is Connection) || exists|status: u16, body: Seq<char>|
                res_view(r) == #[trigger] spec_unit_outcome(body, status),
    {
        self.unit_call(Luarmor(payload).request_parts(Some(self.api_key.clone())))
    }

    /// Resets the hardware id of a key.
    pub fn reset_hwid(&self, payload: ResetHwid<'_>) -> (r: Result<(), ApiError>)
        ensures
            (r matches Err(e) && e@ is Connection) || exists|status: u16, body: Seq<char>|
                res_view(r) == #[trigger] spec_unit_outcome(body, status),
    {
        self.unit_call(Luarmor(payload).request_parts(Some(self.api_key.clone())))
    }

    /// Unblacklists a key: the unban token names the blacklisted key, and
    /// the request carries the `Authorization` header like every other.
    pub fn unblacklist(&self, project_id: &str, unban_token: &str) -> (r: Result<(), ApiError>)
        ensures
            (r matches Err(e) && e@ is Connection) || exists|status: u16, body: Seq<char>|
                res_view(r) == #[trigger] spec_unit_outcome(body, status),
    {
        self.unit_call(
            Luarmor(UnblacklistUser::new(project_id, unban_token)).request_parts(
                Some(self.api_key.clone()),
            ),
        )
    }

    /// Edits fields of an existing key.
    pub fn update_user(&self, payload: UpdateUser<'_>) -> (r: Result<(), ApiError>)
        ensures
            (r matches Err(e) && e@ is Connection) || exists|status: u16, body: Seq<char>|
                res_view(r) == #[trigger] spec_unit_outcome(body, status),
    {
        self.unit_call(Luarmor(payload).request_parts(Some(self.api_key.clone())))
    }

    /// Sends an assembled request whose success carries no payload.
    fn unit_call(&self, parts: RequestParts) -> (r: Result<(), ApiError>)
        ensures
            (r matches Err(e) && e@ is Connection) || exists|status: u16, body: Seq<char>|
                res_view(r) == #[trigger] spec_unit_outcome(body, status),
    {
        match self.client.rest(&parts) {
            Err(reason) => Err(ApiError::Connection { reason }),
            Ok(resp) => {
                let r = unit_response(resp.status, resp.body.as_str());
                proof {
                    assert(res_view(r) == spec_unit_outcome(resp.body@, resp.status));
                }
                r
            },
        }
    }
}

} // verus!
