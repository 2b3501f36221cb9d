use std::cell::RefCell;
use std::rc::Rc;

use luarmor::client::HttpResponse;
use luarmor::models::response::LuarmorMessage;
use luarmor::models::v3::projects::scripts::UpdateScript;
use luarmor::models::v3::projects::users::{
    BlacklistUser, CreateUser, GetUsers, LinkDiscordId, ResetHwid, UpdateUser,
};
use luarmor::{ApiError, Client, LuarmorClient, Method, RequestParts};

/// A canned transport: answers every request with the same response and
/// records what it was asked to send.
struct Canned {
    response: Result<HttpResponse, String>,
    seen: Rc<RefCell<Vec<RequestParts>>>,
}

impl Canned {
    fn replying(status: u16, body: &str) -> (Self, Rc<RefCell<Vec<RequestParts>>>) {
        let seen = Rc::new(RefCell::new(Vec::new()));
        let transport = Canned {
            response: Ok(HttpResponse { status, body: body.to_string() }),
            seen: Rc::clone(&seen),
        };
        (transport, seen)
    }

    fn failing(reason: &str) -> Self {
        Canned { response: Err(reason.to_string()), seen: Rc::new(RefCell::new(Vec::new())) }
    }
}

impl Client for Canned {
    fn rest(&self, request: &RequestParts) -> Result<HttpResponse, String> {
        self.seen.borrow_mut().push(request.clone());
        self.response.clone()
    }
}

#[test]
fn create_user_returns_the_generated_key() {
    let (transport, _) = Canned::replying(
        200,
        r#"{"success":true,"message":"Success!","user_key":"abc123"}"#,
    );
    let client = LuarmorClient::new("API-KEY".to_string(), transport);
    let key = client.create_user(CreateUser::new("p1")).unwrap();
    assert_eq!(key, "abc123".to_string());
}

#[test]
fn authenticated_operations_carry_the_api_key() {
    let (transport, seen) = Canned::replying(200, r#"{"success":true,"message":"Success!"}"#);
    let client = LuarmorClient::new("API-KEY".to_string(), transport);
    client.blacklist(BlacklistUser::new("p1", "k1")).unwrap();
    client.reset_hwid(ResetHwid::new("p1", "k1")).unwrap();
    let requests = seen.borrow();
    assert_eq!(requests.len(), 2);
    assert_eq!(requests[0].authorization, Some("API-KEY".to_string()));
    assert_eq!(requests[0].path, "/v3/projects/p1/users/blacklist".to_string());
    assert_eq!(requests[1].authorization, Some("API-KEY".to_string()));
    assert_eq!(requests[1].path, "/v3/projects/p1/users/resethwid".to_string());
}

#[test]
fn unblacklist_carries_the_key_beside_the_token() {
    let (transport, seen) = Canned::replying(200, r#"{"success":true,"message":"Success!"}"#);
    let client = LuarmorClient::new("API-KEY".to_string(), transport);
    client.unblacklist("p1", "tok").unwrap();
    let requests = seen.borrow();
    assert_eq!(requests[0].authorization, Some("API-KEY".to_string()));
    assert_eq!(requests[0].method, Method::Get);
    assert_eq!(requests[0].path, "/v3/projects/p1/users/unban?unban_token=tok".to_string());
}

#[test]
fn user_query_request_carries_filter_and_body() {
    let (transport, seen) = Canned::replying(
        200,
        r#"{"success":true,"message":"Success!","users":[]}"#,
    );
    let client = LuarmorClient::new("API-KEY".to_string(), transport);
    let mut filter = GetUsers::new("p1");
    filter.user_key = Some("k");
    let users = client.users(filter).unwrap();
    assert!(users.is_empty());
    let requests = seen.borrow();
    assert_eq!(requests[0].method, Method::Get);
    assert_eq!(requests[0].path, "/v3/projects/p1/users".to_string());
    assert_eq!(requests[0].query, vec![("user_key".to_string(), "k".to_string())]);
    assert_eq!(requests[0].authorization, Some("API-KEY".to_string()));
}

#[test]
fn details_and_stats_carry_the_key_in_path_and_header() {
    let details_body = "{\"success\":true,\"message\":\"Success!\",\"email\":\"a@b.c\",\"discord_id\":\"\",\"expires_at\":0,\"registered_at\":0,\"enabled\":1,\"plan\":\"p\",\"projects\":[]}";
    let (transport, seen) = Canned::replying(200, details_body);
    let client = LuarmorClient::new("API-KEY".to_string(), transport);
    let d = client.details().unwrap();
    assert_eq!(d.email, "a@b.c".to_string());
    assert!(d.projects.is_empty());
    {
        let requests = seen.borrow();
        assert_eq!(requests[0].authorization, Some("API-KEY".to_string()));
        assert_eq!(requests[0].path, "/v3/keys/API-KEY/details".to_string());
    }

    let stats_body = "{\"success\":true,\"message\":\"Success!\",\"execution_data\":{\"frequency\":1,\"executions\":[]},\"stats\":{\"obfuscations\":0,\"scripts\":0,\"users\":0,\"attacks_blocked\":0,\"default\":{\"scripts\":0,\"users\":0,\"obfuscations\":0},\"reset_at\":0}}";
    let (transport, seen) = Canned::replying(200, stats_body);
    let client = LuarmorClient::new("API-KEY".to_string(), transport);
    let s = client.stats(false).unwrap();
    assert_eq!(s.execution_data.frequency, 1);
    let requests = seen.borrow();
    assert_eq!(requests[0].authorization, Some("API-KEY".to_string()));
    assert_eq!(requests[0].path, "/v3/keys/API-KEY/stats?noUsers=false".to_string());
}

#[test]
fn update_operations_post_their_bodies_through_the_facade() {
    let ok = "{\"success\":true,\"message\":\"Success!\"}";
    let (transport, seen) = Canned::replying(200, ok);
    let client = LuarmorClient::new("API-KEY".to_string(), transport);
    client.update_script(UpdateScript::new("p1", "s1", "print(1)")).unwrap();
    client.link_discord(LinkDiscordId::new("p1", "k1", "42")).unwrap();
    client.update_user(UpdateUser::new("p1", "k1")).unwrap();
    let requests = seen.borrow();
    assert_eq!(requests.len(), 3);
    assert_eq!(requests[0].method, Method::Put);
    assert_eq!(requests[0].path, "/v3/projects/p1/scripts/s1".to_string());
    assert!(requests[0].body.is_some());
    assert_eq!(requests[1].path, "/v3/projects/p1/users/linkdiscord".to_string());
    assert_eq!(requests[2].method, Method::Patch);
    assert_eq!(requests[2].authorization, Some("API-KEY".to_string()));
}

#[test]
fn failing_transport_surfaces_as_a_connection_error() {
    let transport = Canned::failing("no route to host");
    let client = LuarmorClient::new("API-KEY".to_string(), transport);
    let r = client.status();
    assert_eq!(
        r.unwrap_err(),
        ApiError::Connection { reason: "no route to host".to_string() },
    );
}

#[test]
fn status_decodes_through_the_facade() {
    let body = "{\"version\":\"2.0\",\"active\":true,\"message\":\"API is up and working!\",\"warning\":true,\"warning_message\":\"maintenance soon\"}";
    let (transport, seen) = Canned::replying(200, body);
    let client = LuarmorClient::new("API-KEY".to_string(), transport);
    let s = client.status().unwrap();
    assert_eq!(s.version, "2.0".to_string());
    assert!(s.warning);
    assert_eq!(s.warning_message, "maintenance soon".to_string());
    // The status probe carries the key like every other operation.
    assert_eq!(seen.borrow()[0].authorization, Some("API-KEY".to_string()));
    assert_eq!(seen.borrow()[0].path, "/status".to_string());
}

#[test]
fn server_refusal_decodes_to_a_client_error_through_the_facade() {
    let (transport, _) = Canned::replying(
        400,
        r#"{"success":false,"message":"User is on cooldown."}"#,
    );
    let client = LuarmorClient::new("API-KEY".to_string(), transport);
    let r = client.reset_hwid(ResetHwid::new("p1", "k1"));
    assert_eq!(r, Err(ApiError::Client { message: LuarmorMessage::UserCooldown }));
}

#[test]
fn empty_error_response_surfaces_raw_through_the_facade() {
    let (transport, seen) = Canned::replying(500, "");
    let client = LuarmorClient::new("API-KEY".to_string(), transport);
    let r = client.delete_user("p1", "k1");
    assert_eq!(r, Err(ApiError::Response { status: 500, body: String::new() }));
    let requests = seen.borrow();
    assert_eq!(requests[0].method, Method::Delete);
    assert_eq!(requests[0].path, "/v3/projects/p1/users?user_key=k1".to_string());
    assert_eq!(requests[0].body, None);
}
