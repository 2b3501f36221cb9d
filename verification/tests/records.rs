use luarmor::json::Json;
use luarmor::models::status::status_response;
use luarmor::models::v3::keys::details::{
    decode_plan, details_response, KeyPlan, ProjectPlatform, ResetHwidCooldown,
};
use luarmor::models::v3::keys::stats::{stats_no_users_response, stats_response};
use luarmor::models::v3::projects::users::{
    users_response, UserIdentifierType, UserStatus, UserExpiration,
};
use luarmor::ApiError;

fn user_json(discord_id: &str, auth_expire: i64) -> String {
    format!(
        "{{\"success\":true,\"message\":\"Success!\",\"users\":[{{\"user_key\":\"key1\",\"identifier\":\"hw-1\",\"identifier_type\":\"HWID\",\"discord_id\":\"{}\",\"status\":\"active\",\"last_reset\":1700000000,\"total_resets\":3,\"auth_expire\":{},\"banned\":0,\"ban_reason\":\"\",\"ban_expire\":0,\"unban_token\":\"\",\"total_executions\":42,\"note\":\"\",\"ban_ip\":\"\"}}]}}",
        discord_id, auth_expire,
    )
}

#[test]
fn empty_discord_id_decodes_to_absent() {
    let body = user_json("", 1700000001);
    let users = users_response(200, &body).unwrap().users;
    assert_eq!(users.len(), 1);
    assert_eq!(users[0].discord_id, None);
    assert_eq!(users[0].user_key, Some("key1".to_string()));
    assert_eq!(users[0].ban_reason, None);
    assert_eq!(users[0].note, None);
}

#[test]
fn nonempty_discord_id_is_kept() {
    let body = user_json("123456789", 1700000001);
    let users = users_response(200, &body).unwrap().users;
    assert_eq!(users[0].discord_id, Some("123456789".to_string()));
}

#[test]
fn negative_auth_expire_decodes_to_never() {
    let body = user_json("", -1);
    let users = users_response(200, &body).unwrap().users;
    assert_eq!(users[0].auth_expire, UserExpiration::Never);
}

#[test]
fn nonnegative_auth_expire_decodes_to_its_timestamp() {
    let body = user_json("", 1700000001);
    let users = users_response(200, &body).unwrap().users;
    assert_eq!(users[0].auth_expire, UserExpiration::Specified(1700000001));
}

#[test]
fn user_fields_decode_with_their_conventions() {
    let body = user_json("", 0);
    let users = users_response(200, &body).unwrap().users;
    let u = &users[0];
    assert_eq!(u.identifier_type, UserIdentifierType::HWID);
    assert_eq!(u.status, UserStatus::Active);
    assert!(!u.banned);
    assert_eq!(u.last_reset, 1_700_000_000);
    assert_eq!(u.total_resets, 3);
    assert_eq!(u.total_executions, 42);
    assert_eq!(u.unban_token, None);
    assert_eq!(u.ban_ip, None);
}

#[test]
fn malformed_user_record_is_a_response_error() {
    // A user record without its status field cannot be decoded: the
    // success envelope then carries no readable payload.
    let body = "{\"success\":true,\"message\":\"Success!\",\"users\":[{\"user_key\":\"key1\"}]}";
    let r = users_response(200, body);
    assert_eq!(r, Err(ApiError::Response { status: 200, body: body.to_string() }));
}

#[test]
fn empty_user_list_decodes_to_no_users() {
    let body = r#"{"success":true,"message":"Success!","users":[]}"#;
    let users = users_response(200, body).unwrap().users;
    assert!(users.is_empty());
}

#[test]
fn status_record_decodes_without_an_envelope() {
    let body = "{\"version\":\"1.2.3\",\"active\":true,\"message\":\"API is up and working!\",\"warning\":false,\"warning_message\":\"\"}";
    let s = status_response(200, body).unwrap();
    assert_eq!(s.version, "1.2.3".to_string());
    assert!(s.active);
    assert_eq!(s.message, "API is up and working!".to_string());
    assert!(!s.warning);
    assert_eq!(s.warning_message, String::new());
}

#[test]
fn status_under_failing_http_is_a_response_error() {
    let r = status_response(503, "");
    assert_eq!(r, Err(ApiError::Response { status: 503, body: String::new() }));
}

#[test]
fn plan_codes_decode_to_their_tiers() {
    let b = Json::Str("b".to_string());
    assert_eq!(decode_plan(&b), Some(KeyPlan::Basic));
    let p = Json::Str("p".to_string());
    assert_eq!(decode_plan(&p), Some(KeyPlan::Premium));
    let r = Json::Str("r".to_string());
    assert_eq!(decode_plan(&r), Some(KeyPlan::Pro));
    let x = Json::Str("x".to_string());
    assert_eq!(decode_plan(&x), Some(KeyPlan::Other('x')));
    let long = Json::Str("basic".to_string());
    assert_eq!(decode_plan(&long), None);
    let num = Json::Int(1);
    assert_eq!(decode_plan(&num), None);
}

#[test]
fn details_record_decodes_with_nested_projects() {
    let body = "{\"success\":true,\"message\":\"Success!\",\"email\":\"o@example.com\",\"discord_id\":\"987\",\"expires_at\":1800000000,\"registered_at\":1600000000,\"enabled\":1,\"plan\":\"b\",\"projects\":[{\"platform\":\"roblox\",\"id\":\"p1\",\"name\":\"My Hub\",\"settings\":{\"reset_hwid_cooldown\":-1},\"scripts\":[{\"script_name\":\"main\",\"script_id\":\"s1\",\"script_version\":\"v2\",\"ffa\":false,\"silent\":true}]}]}";
    let d = details_response(200, body).unwrap();
    assert_eq!(d.email, "o@example.com".to_string());
    assert_eq!(d.discord_id, "987".to_string());
    assert_eq!(d.expires_at, 1_800_000_000);
    assert_eq!(d.registered_at, 1_600_000_000);
    assert!(d.enabled);
    assert_eq!(d.plan, KeyPlan::Basic);
    assert_eq!(d.projects.len(), 1);
    let p = &d.projects[0];
    assert_eq!(p.platform, ProjectPlatform::Roblox);
    assert_eq!(p.id, "p1".to_string());
    assert_eq!(p.name, "My Hub".to_string());
    assert_eq!(p.settings.reset_hwid_cooldown, ResetHwidCooldown::Never);
    assert_eq!(p.scripts.len(), 1);
    let s = &p.scripts[0];
    assert_eq!(s.script_name, "main".to_string());
    assert_eq!(s.script_id, "s1".to_string());
    assert_eq!(s.script_version, "v2".to_string());
    assert!(!s.ffa);
    assert!(s.silent);
}

#[test]
fn cooldown_timestamp_is_kept_when_nonnegative() {
    let body = "{\"success\":true,\"message\":\"Success!\",\"email\":\"\",\"discord_id\":\"\",\"expires_at\":0,\"registered_at\":0,\"enabled\":0,\"plan\":\"r\",\"projects\":[{\"platform\":\"roblox\",\"id\":\"p\",\"name\":\"n\",\"settings\":{\"reset_hwid_cooldown\":3600},\"scripts\":[]}]}";
    let d = details_response(200, body).unwrap();
    assert!(!d.enabled);
    assert_eq!(
        d.projects[0].settings.reset_hwid_cooldown,
        ResetHwidCooldown::Specified(3600),
    );
}

#[test]
fn stats_record_decodes_fully() {
    let body = "{\"success\":true,\"message\":\"Success!\",\"execution_data\":{\"frequency\":60,\"executions\":[1,2,3]},\"stats\":{\"obfuscations\":5,\"scripts\":2,\"users\":100,\"attacks_blocked\":7,\"default\":{\"scripts\":1,\"users\":50,\"obfuscations\":3},\"reset_at\":1710000000}}";
    let s = stats_response(200, body).unwrap();
    assert_eq!(s.execution_data.frequency, 60);
    assert_eq!(s.execution_data.executions, vec![1, 2, 3]);
    assert_eq!(s.stats.obfuscations, 5);
    assert_eq!(s.stats.scripts, 2);
    assert_eq!(s.stats.users, 100);
    assert_eq!(s.stats.attacks_blocked, 7);
    assert_eq!(s.stats.default.scripts, 1);
    assert_eq!(s.stats.default.users, 50);
    assert_eq!(s.stats.default.obfuscations, 3);
    assert_eq!(s.stats.reset_at, 1_710_000_000);
}

#[test]
fn stats_without_user_totals_decode_through_their_own_record() {
    let body = "{\"success\":true,\"message\":\"Success!\",\"execution_data\":{\"frequency\":60,\"executions\":[]},\"stats\":{\"obfuscations\":5,\"scripts\":2,\"attacks_blocked\":7,\"default\":{\"scripts\":1,\"users\":50,\"obfuscations\":3},\"reset_at\":1710000000}}";
    // The record that expects user totals rejects this response...
    let r = stats_response(200, body);
    assert_eq!(r, Err(ApiError::Response { status: 200, body: body.to_string() }));
    // ...while the user-less record reads it.
    let s = stats_no_users_response(200, body).unwrap();
    assert_eq!(s.stats.obfuscations, 5);
    assert_eq!(s.execution_data.executions, Vec::<u32>::new());
}

#[test]
fn fractional_numbers_are_rejected_where_integers_are_expected() {
    let body = user_json("", 0).replace(r#""total_resets":3"#, r#""total_resets":3.5"#);
    let r = users_response(200, &body);
    assert_eq!(r, Err(ApiError::Response { status: 200, body: body.clone() }));
}
