use luarmor::models::response::LuarmorMessage;

#[test]
fn known_messages_decode_to_their_variants() {
    let cases = [
        ("API is up and working!", LuarmorMessage::APIWorking),
        (
            "Invalid API key! Visit https://luarmor.net/ to get access.",
            LuarmorMessage::IncorrectAPIKey,
        ),
        ("Wrong API key", LuarmorMessage::InvalidAPIKey),
        ("Success!", LuarmorMessage::Success),
        ("User has been deleted!", LuarmorMessage::UserDeleted),
        ("Key not found", LuarmorMessage::KeyNotFound),
        ("Project not found!", LuarmorMessage::ProjectNotFound),
        ("Project not found", LuarmorMessage::ProjectNotFound),
        ("Successfully reset!", LuarmorMessage::SuccessReset),
        ("User is on cooldown.", LuarmorMessage::UserCooldown),
        ("User key doesn't exist", LuarmorMessage::UserKeyNotFound),
        (
            "This key already has a discord linked to it",
            LuarmorMessage::DiscordAlreadyLinked,
        ),
        ("nothing to see here.", LuarmorMessage::NothingToSee),
        ("Identifier already exists.", LuarmorMessage::IdentifierAlreadyExists),
        ("Invalid discord_id", LuarmorMessage::InvalidDiscordId),
        ("Discord ID successfully linked!", LuarmorMessage::DiscordIdSuccess),
        (
            "Reset Hwid is disabled for this script",
            LuarmorMessage::ResetHWIDDisabled,
        ),
        ("User has been edited successfully!", LuarmorMessage::EditSuccess),
        ("Discord ID already exists", LuarmorMessage::DiscordAlreadyExists),
        ("Discord ID already exists.", LuarmorMessage::DiscordAlreadyExists),
        ("Discord ID already exist.", LuarmorMessage::DiscordAlreadyExists),
    ];
    for (text, expected) in cases {
        assert_eq!(LuarmorMessage::from_str(text), expected);
    }
}

#[test]
fn unknown_message_is_kept_verbatim() {
    let m = LuarmorMessage::from_str("Some new server text");
    assert_eq!(m, LuarmorMessage::Other("Some new server text".to_string()));
    // Case and punctuation matter: near misses are not in the catalog.
    let near = LuarmorMessage::from_str("key not found");
    assert_eq!(near, LuarmorMessage::Other("key not found".to_string()));
    let empty = LuarmorMessage::from_str("");
    assert_eq!(empty, LuarmorMessage::Other(String::new()));
}

#[test]
fn catalog_round_trips_through_canonical_text() {
    let variants = [
        LuarmorMessage::APIWorking,
        LuarmorMessage::IncorrectAPIKey,
        LuarmorMessage::InvalidAPIKey,
        LuarmorMessage::Success,
        LuarmorMessage::UserDeleted,
        LuarmorMessage::KeyNotFound,
        LuarmorMessage::ProjectNotFound,
        LuarmorMessage::SuccessReset,
        LuarmorMessage::UserCooldown,
        LuarmorMessage::UserKeyNotFound,
        LuarmorMessage::DiscordAlreadyLinked,
        LuarmorMessage::NothingToSee,
        LuarmorMessage::IdentifierAlreadyExists,
        LuarmorMessage::InvalidDiscordId,
        LuarmorMessage::DiscordIdSuccess,
        LuarmorMessage::ResetHWIDDisabled,
        LuarmorMessage::EditSuccess,
        LuarmorMessage::DiscordAlreadyExists,
    ];
    for m in variants {
        let text = m.message_text();
        assert_eq!(LuarmorMessage::from_str(text.as_str()), m);
    }
}

#[test]
fn fallback_message_text_is_the_captured_text() {
    let m = LuarmorMessage::Other("whatever".to_string());
    assert_eq!(m.message_text(), "whatever".to_string());
}
