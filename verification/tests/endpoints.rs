use luarmor::models::status::ApiStatus;
use luarmor::models::v3::keys::details::ApiKeyDetails;
use luarmor::models::v3::keys::stats::ApiKeyStats;
use luarmor::models::v3::projects::scripts::UpdateScript;
use luarmor::models::v3::projects::users::{
    BlacklistUser, CreateUser, DeleteUser, GetUsers, LinkDiscordId, ResetHwid, UnblacklistUser,
    UpdateUser,
};
use luarmor::{Endpoint, Luarmor, Method};

#[test]
fn status_is_a_bare_get() {
    assert_eq!(ApiStatus.method(), Method::Get);
    assert_eq!(ApiStatus.path(), "/status".to_string());
    assert!(ApiStatus.query_params().is_empty());
    assert!(ApiStatus.body().is_none());
    assert!(!ApiStatus.ignore_errors());
}

#[test]
fn details_path_embeds_the_api_key() {
    let ep = ApiKeyDetails::new("KEY-1");
    assert_eq!(ep.method(), Method::Get);
    assert_eq!(ep.path(), "/v3/keys/KEY-1/details".to_string());
    assert!(ep.body().is_none());
}

#[test]
fn stats_path_embeds_key_and_flag() {
    assert_eq!(
        ApiKeyStats::new("K", true).path(),
        "/v3/keys/K/stats?noUsers=true".to_string(),
    );
    assert_eq!(
        ApiKeyStats::new("K", false).path(),
        "/v3/keys/K/stats?noUsers=false".to_string(),
    );
}

#[test]
fn filter_on_user_key_alone_yields_exactly_one_query_parameter() {
    let mut ep = GetUsers::new("p1");
    ep.user_key = Some("key-9");
    let q = ep.query_params();
    assert_eq!(q, vec![("user_key".to_string(), "key-9".to_string())]);
}

#[test]
fn unfiltered_user_query_has_no_query_parameters() {
    let ep = GetUsers::new("p1");
    assert!(ep.query_params().is_empty());
    assert_eq!(ep.method(), Method::Get);
    assert_eq!(ep.path(), "/v3/projects/p1/users".to_string());
}

#[test]
fn query_parameters_keep_the_documented_order() {
    let mut ep = GetUsers::new("p1");
    ep.until = Some(30);
    ep.search = Some("alice");
    ep.from = Some(42);
    ep.user_key = Some("k");
    let q = ep.query_params();
    assert_eq!(
        q,
        vec![
            ("user_key".to_string(), "k".to_string()),
            ("search".to_string(), "alice".to_string()),
            ("from".to_string(), "42".to_string()),
            ("until".to_string(), "30".to_string()),
        ],
    );
}

#[test]
fn pagination_bounds_render_as_plain_decimal() {
    let mut ep = GetUsers::new("p1");
    ep.from = Some(0);
    ep.until = Some(4294967295);
    let q = ep.query_params();
    assert_eq!(
        q,
        vec![
            ("from".to_string(), "0".to_string()),
            ("until".to_string(), "4294967295".to_string()),
        ],
    );
}

#[test]
fn user_query_sends_its_filters_as_body_too() {
    let mut ep = GetUsers::new("p1");
    ep.user_key = Some("k");
    let parts = Luarmor(ep).request_parts(None);
    assert_eq!(
        parts.body,
        Some(
            "{\"discord_id\":null,\"from\":null,\"identifier\":null,\"search\":null,\"until\":null,\"user_key\":\"k\"}"
            .to_string(),
        ),
    );
}

#[test]
fn create_user_body_holds_every_field_with_null_for_absent() {
    let mut ep = CreateUser::new("p1");
    ep.identifier = Some("hw-id");
    let parts = Luarmor(ep).request_parts(Some("SECRET".to_string()));
    assert_eq!(ep.method(), Method::Post);
    assert_eq!(parts.path, "/v3/projects/p1/users".to_string());
    assert_eq!(parts.authorization, Some("SECRET".to_string()));
    assert_eq!(
        parts.body,
        Some(
            "{\"auth_expire\":null,\"discord_id\":null,\"identifier\":\"hw-id\",\"key_days\":null,\"note\":null}"
            .to_string(),
        ),
    );
}

#[test]
fn create_user_body_renders_timestamp_and_key_days() {
    let mut ep = CreateUser::new("p1");
    ep.auth_expire = Some(1800000000);
    ep.key_days = Some(30);
    let parts = Luarmor(ep).request_parts(None);
    assert_eq!(
        parts.body,
        Some(
            "{\"auth_expire\":1800000000,\"discord_id\":null,\"identifier\":null,\"key_days\":30,\"note\":null}"
            .to_string(),
        ),
    );
}

#[test]
fn update_user_is_a_patch_with_the_key_in_the_body() {
    let ep = UpdateUser::new("p1", "k1");
    assert_eq!(ep.method(), Method::Patch);
    assert_eq!(ep.path(), "/v3/projects/p1/users".to_string());
    let parts = Luarmor(ep).request_parts(None);
    assert_eq!(
        parts.body,
        Some(
            "{\"auth_expire\":null,\"discord_id\":null,\"identifier\":null,\"note\":null,\"user_key\":\"k1\"}"
            .to_string(),
        ),
    );
}

#[test]
fn delete_embeds_the_key_in_the_path_and_sends_no_body() {
    let ep = DeleteUser::new("p1", "k1");
    assert_eq!(ep.method(), Method::Delete);
    assert_eq!(ep.path(), "/v3/projects/p1/users?user_key=k1".to_string());
    assert!(ep.body().is_none());
}

#[test]
fn reset_hwid_posts_key_and_force_flag() {
    let mut ep = ResetHwid::new("p1", "k1");
    assert_eq!(ep.path(), "/v3/projects/p1/users/resethwid".to_string());
    let parts = Luarmor(ep).request_parts(None);
    assert_eq!(parts.body, Some(r#"{"force":null,"user_key":"k1"}"#.to_string()));
    ep.force = Some(true);
    let parts = Luarmor(ep).request_parts(None);
    assert_eq!(parts.body, Some(r#"{"force":true,"user_key":"k1"}"#.to_string()));
}

#[test]
fn link_discord_posts_key_id_and_force() {
    let ep = LinkDiscordId::new("p1", "k1", "12345");
    assert_eq!(ep.method(), Method::Post);
    assert_eq!(ep.path(), "/v3/projects/p1/users/linkdiscord".to_string());
    let parts = Luarmor(ep).request_parts(None);
    assert_eq!(
        parts.body,
        Some(r#"{"discord_id":"12345","force":null,"user_key":"k1"}"#.to_string()),
    );
}

#[test]
fn blacklist_posts_reason_and_expiry() {
    let mut ep = BlacklistUser::new("p1", "k1");
    ep.ban_reason = Some("cheating");
    ep.ban_expire = Some(-1);
    assert_eq!(ep.path(), "/v3/projects/p1/users/blacklist".to_string());
    let parts = Luarmor(ep).request_parts(None);
    assert_eq!(
        parts.body,
        Some(r#"{"ban_expire":-1,"ban_reason":"cheating","user_key":"k1"}"#.to_string()),
    );
}

#[test]
fn unblacklist_embeds_the_token_in_the_path() {
    let ep = UnblacklistUser::new("p1", "tok32");
    assert_eq!(ep.method(), Method::Get);
    assert_eq!(ep.path(), "/v3/projects/p1/users/unban?unban_token=tok32".to_string());
    assert!(ep.body().is_none());
}

#[test]
fn update_script_is_a_put_with_everything_in_the_body() {
    let ep = UpdateScript::new("p1", "s1", "print(1)");
    assert_eq!(ep.method(), Method::Put);
    assert_eq!(ep.path(), "/v3/projects/p1/scripts/s1".to_string());
    let parts = Luarmor(ep).request_parts(Some("KEY".to_string()));
    assert_eq!(
        parts.body,
        Some(
            "{\"ffa\":null,\"heartbeat\":true,\"lightning\":null,\"project_id\":\"p1\",\"script\":\"print(1)\",\"script_id\":\"s1\",\"silent\":null}"
            .to_string(),
        ),
    );
}

#[test]
fn emitted_bodies_escape_strings() {
    let ep = UpdateScript::new("p1", "s1", "print(\"hi\\n\")");
    let parts = Luarmor(ep).request_parts(None);
    let body = parts.body.unwrap();
    assert!(body.contains(r#""script":"print(\"hi\\n\")""#));
}
