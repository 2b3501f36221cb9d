//! The message catalog.
//!
//! Every response envelope carries a `message` string from a closed set of
//! known server texts. Decoding a message never fails: a string outside the
//! catalog is kept, unchanged, in the fallback variant
//! [`LuarmorMessage::Other`], so callers can still branch on it.

use vstd::prelude::*;
use crate::json::str_eq;

verus! {

/// A server message, decoded from its wire text.
///
/// The set of texts the server uses can change at any time; the fallback
/// variant [`LuarmorMessage::Other`] captures any text the catalog does not
/// know, carrying it verbatim.
#[derive(Clone, Eq, PartialEq, Ord, PartialOrd, Hash, Debug)]
pub enum LuarmorMessage {
    /// Success: the API is reachable.
    APIWorking,
    /// The API key is not valid.
    IncorrectAPIKey,
    /// The API key is wrong for this operation.
    InvalidAPIKey,
    /// Success.
    Success,
    /// The key has been deleted.
    UserDeleted,
    /// Wrong project id or user key.
    KeyNotFound,
    /// The project does not exist.
    ProjectNotFound,
    /// Success: the HWID was reset.
    SuccessReset,
    /// The user reset their HWID too recently; a `force` flag bypasses this.
    UserCooldown,
    /// The user key or the project does not exist.
    UserKeyNotFound,
    /// The key already has a Discord ID linked; a `force` flag overwrites it.
    DiscordAlreadyLinked,
    /// A filler answer the server sometimes gives.
    NothingToSee,
    /// A key with this identifier already exists.
    IdentifierAlreadyExists,
    /// The Discord ID is not valid.
    InvalidDiscordId,
    /// Success: the Discord ID was linked.
    DiscordIdSuccess,
    /// HWID resets are disabled for this script and `force` was not set.
    ResetHWIDDisabled,
    /// Success: the user was edited.
    EditSuccess,
    /// Another key is already linked to this Discord ID.
    DiscordAlreadyExists,
    /// Any text the catalog does not know, kept verbatim.
    Other(String),
}

/// The mathematical form of [`LuarmorMessage`].
pub enum MessageV {
    APIWorking,
    IncorrectAPIKey,
    InvalidAPIKey,
    Success,
    UserDeleted,
    KeyNotFound,
    ProjectNotFound,
    SuccessReset,
    UserCooldown,
    UserKeyNotFound,
    DiscordAlreadyLinked,
    NothingToSee,
    IdentifierAlreadyExists,
    InvalidDiscordId,
    DiscordIdSuccess,
    ResetHWIDDisabled,
    EditSuccess,
    DiscordAlreadyExists,
    Other(Seq<char>),
}

impl View for LuarmorMessage {
    type V = MessageV;

    open spec fn view(&self) -> MessageV {
        match self {
            LuarmorMessage::APIWorking => MessageV::APIWorking,
            LuarmorMessage::IncorrectAPIKey => MessageV::IncorrectAPIKey,
            LuarmorMessage::InvalidAPIKey => MessageV::InvalidAPIKey,
            LuarmorMessage::Success => MessageV::Success,
            LuarmorMessage::UserDeleted => MessageV::UserDeleted,
            LuarmorMessage::KeyNotFound => MessageV::KeyNotFound,
            LuarmorMessage::ProjectNotFound => MessageV::ProjectNotFound,
            LuarmorMessage::SuccessReset => MessageV::SuccessReset,
            LuarmorMessage::UserCooldown => MessageV::UserCooldown,
            LuarmorMessage::UserKeyNotFound => MessageV::UserKeyNotFound,
            LuarmorMessage::DiscordAlreadyLinked => MessageV::DiscordAlreadyLinked,
            LuarmorMessage::NothingToSee => MessageV::NothingToSee,
            LuarmorMessage::IdentifierAlreadyExists => MessageV::IdentifierAlreadyExists,
            LuarmorMessage::InvalidDiscordId => MessageV::InvalidDiscordId,
            LuarmorMessage::DiscordIdSuccess => MessageV::DiscordIdSuccess,
            LuarmorMessage::ResetHWIDDisabled => MessageV::ResetHWIDDisabled,
            LuarmorMessage::EditSuccess => MessageV::EditSuccess,
            LuarmorMessage::DiscordAlreadyExists => MessageV::DiscordAlreadyExists,
            LuarmorMessage::Other(s) => MessageV::Other(s@),
        }
    }
}

/// The message a given wire text decodes to: the matching catalog entry, or
/// the fallback carrying the text unchanged. A total function of the text.
pub open spec fn message_of(s: Seq<char>) -> MessageV {
    if s == "API is up and working!"@ {
        MessageV::APIWorking
    } else if s == "Invalid API key! Visit https://luarmor.net/ to get access."@ {
        MessageV::IncorrectAPIKey
    } else if s == "Wrong API key"@ {
        MessageV::InvalidAPIKey
    } else if s == "Success!"@ {
        MessageV::Success
    } else if s == "User has been deleted!"@ {
        MessageV::UserDeleted
    } else if s == "Key not found"@ {
        MessageV::KeyNotFound
    } else if s == "Project not found!"@ || s == "Project not found"@ {
        MessageV::ProjectNotFound
    } else if s == "Successfully reset!"@ {
        MessageV::SuccessReset
    } else if s == "User is on cooldown."@ {
        MessageV::UserCooldown
    } else if s == "User key doesn't exist"@ {
        MessageV::UserKeyNotFound
    } else if s == "This key already has a discord linked to it"@ {
        MessageV::DiscordAlreadyLinked
    } else if s == "nothing to see here."@ {
        MessageV::NothingToSee
    } else if s == "Identifier already exists."@ {
        MessageV::IdentifierAlreadyExists
    } else if s == "Invalid discord_id"@ {
        MessageV::InvalidDiscordId
    } else if s == "Discord ID successfully linked!"@ {
        MessageV::DiscordIdSuccess
    } else if s == "Reset Hwid is disabled for this script"@ {
        MessageV::ResetHWIDDisabled
    } else if s == "User has been edited successfully!"@ {
        MessageV::EditSuccess
    } else if s == "Discord ID already exists"@ || s == "Discord ID already exists."@ || s
        == "Discord ID already exist."@ {
        MessageV::DiscordAlreadyExists
    } else {
        MessageV::Other(s)
    }
}

/// Whether a wire text is one the catalog knows.
pub open spec fn in_catalog(s: Seq<char>) -> bool {
    !(message_of(s) is Other)
}

/// The canonical wire text of a message: the text the server uses for it.
/// For the fallback variant it is the captured text itself.
pub open spec fn spec_message_text(m: MessageV) -> Seq<char> {
    match m {
        MessageV::APIWorking => "API is up and working!"@,
        MessageV::IncorrectAPIKey => "Invalid API key! Visit https://luarmor.net/ to get access."@,
        MessageV::InvalidAPIKey => "Wrong API key"@,
        MessageV::Success => "Success!"@,
        MessageV::UserDeleted => "User has been deleted!"@,
        MessageV::KeyNotFound => "Key not found"@,
        MessageV::ProjectNotFound => "Project not found!"@,
        MessageV::SuccessReset => "Successfully reset!"@,
        MessageV::UserCooldown => "User is on cooldown."@,
        MessageV::UserKeyNotFound => "User key doesn't exist"@,
        MessageV::DiscordAlreadyLinked => "This key already has a discord linked to it"@,
        MessageV::NothingToSee => "nothing to see here."@,
        MessageV::IdentifierAlreadyExists => "Identifier already exists."@,
        MessageV::InvalidDiscordId => "Invalid discord_id"@,
        MessageV::DiscordIdSuccess => "Discord ID successfully linked!"@,
        MessageV::ResetHWIDDisabled => "Reset Hwid is disabled for this script"@,
        MessageV::EditSuccess => "User has been edited successfully!"@,
        MessageV::DiscordAlreadyExists => "Discord ID already exists"@,
        MessageV::Other(s) => s,
    }
}

impl LuarmorMessage {
    /// Decodes a wire text. Total: an unknown text comes back unchanged in
    /// [`LuarmorMessage::Other`].
    pub fn from_str(s: &str) -> (m: LuarmorMessage)
        ensures
            m@ == message_of(s@),
    {
        if str_eq(s, "API is up and working!") {
            LuarmorMessage::APIWorking
        } else if str_eq(s, "Invalid API key! Visit https://luarmor.net/ to get access.") {
            LuarmorMessage::IncorrectAPIKey
        } else if str_eq(s, "Wrong API key") {
            LuarmorMessage::InvalidAPIKey
        } else if str_eq(s, "Success!") {
            LuarmorMessage::Success
        } else if str_eq(s, "User has been deleted!") {
            LuarmorMessage::UserDeleted
        } else if str_eq(s, "Key not found") {
            LuarmorMessage::KeyNotFound
        } else if str_eq(s, "Project not found!") || str_eq(s, "Project not found") {
            LuarmorMessage::ProjectNotFound
        } else if str_eq(s, "Successfully reset!") {
            LuarmorMessage::SuccessReset
        } else if str_eq(s, "User is on cooldown.") {
            LuarmorMessage::UserCooldown
        } else if str_eq(s, "User key doesn't exist") {
            LuarmorMessage::UserKeyNotFound
        } else if str_eq(s, "This key already has a discord linked to it") {
            LuarmorMessage::DiscordAlreadyLinked
        } else if str_eq(s, "nothing to see here.") {
            LuarmorMessage::NothingToSee
        } else if str_eq(s, "Identifier already exists.") {
            LuarmorMessage::IdentifierAlreadyExists
        } else if str_eq(s, "Invalid discord_id") {
            LuarmorMessage::InvalidDiscordId
        } else if str_eq(s, "Discord ID successfully linked!") {
            LuarmorMessage::DiscordIdSuccess
        } else if str_eq(s, "Reset Hwid is disabled for this script") {
            LuarmorMessage::ResetHWIDDisabled
        } else if str_eq(s, "User has been edited successfully!") {
            LuarmorMessage::EditSuccess
        } else if str_eq(s, "Discord ID already exists") || str_eq(s, "Discord ID already exists.")
            || str_eq(s, "Discord ID already exist.") {
            LuarmorMessage::DiscordAlreadyExists
        } else {
            LuarmorMessage::Other(s.to_owned())
        }
    }

    /// The canonical wire text of this message.
    pub fn message_text(&self) -> (r: String)
        ensures
            r@ == spec_message_text(self@),
    {
        match self {
            LuarmorMessage::APIWorking => "API is up and working!".to_owned(),
            LuarmorMessage::IncorrectAPIKey => "Invalid API key! Visit https://luarmor.net/ to get access.".to_owned(),
            LuarmorMessage::InvalidAPIKey => "Wrong API key".to_owned(),
            LuarmorMessage::Success => "Success!".to_owned(),
            LuarmorMessage::UserDeleted => "User has been deleted!".to_owned(),
            LuarmorMessage::KeyNotFound => "Key not found".to_owned(),
            LuarmorMessage::ProjectNotFound => "Project not found!".to_owned(),
            LuarmorMessage::SuccessReset => "Successfully reset!".to_owned(),
            LuarmorMessage::UserCooldown => "User is on cooldown.".to_owned(),
            LuarmorMessage::UserKeyNotFound => "User key doesn't exist".to_owned(),
            LuarmorMessage::DiscordAlreadyLinked => "This key already has a discord linked to it".to_owned(),
            LuarmorMessage::NothingToSee => "nothing to see here.".to_owned(),
            LuarmorMessage::IdentifierAlreadyExists => "Identifier already exists.".to_owned(),
            LuarmorMessage::InvalidDiscordId => "Invalid discord_id".to_owned(),
            LuarmorMessage::DiscordIdSuccess => "Discord ID successfully linked!".to_owned(),
            LuarmorMessage::ResetHWIDDisabled => "Reset Hwid is disabled for this script".to_owned(),
            LuarmorMessage::EditSuccess => "User has been edited successfully!".to_owned(),
            LuarmorMessage::DiscordAlreadyExists => "Discord ID already exists".to_owned(),
            LuarmorMessage::Other(s) => s.clone(),
        }
    }
}

/// Decoding the canonical wire text of any known message yields exactly that
/// message back: the catalog is a closed set that round-trips.
#[verifier::rlimit(50)]
pub proof fn lemma_catalog_round_trip(m: MessageV)
    requires
        !(m is Other),
    ensures
        message_of(spec_message_text(m)) == m,
{
    reveal_strlit("API is up and working!");
    reveal_strlit("Invalid API key! Visit https://luarmor.net/ to get access.");
    reveal_strlit("Wrong API key");
    reveal_strlit("Success!");
    reveal_strlit("User has been deleted!");
    reveal_strlit("Key not found");
    reveal_strlit("Project not found!");
    reveal_strlit("Project not found");
    reveal_strlit("Successfully reset!");
    reveal_strlit("User is on cooldown.");
    reveal_strlit("User key doesn't exist");
    reveal_strlit("This key already has a discord linked to it");
    reveal_strlit("nothing to see here.");
    reveal_strlit("Identifier already exists.");
    reveal_strlit("Invalid discord_id");
    reveal_strlit("Discord ID successfully linked!");
    reveal_strlit("Reset Hwid is disabled for this script");
    reveal_strlit("User has been edited successfully!");
    reveal_strlit("Discord ID already exists");
    reveal_strlit("Discord ID already exists.");
    reveal_strlit("Discord ID already exist.");
    assert("API is up and working!"@.len() == 22);
    assert("Invalid API key! Visit https://luarmor.net/ to get access."@.len() == 58);
    assert("Wrong API key"@.len() == 13);
    assert("Success!"@.len() == 8);
    assert("User has been deleted!"@.len() == 22);
    assert("Key not found"@.len() == 13);
    assert("Project not found!"@.len() == 18);
    assert("Project not found"@.len() == 17);
    assert("Successfully reset!"@.len() == 19);
    assert("User is on cooldown."@.len() == 20);
    assert("User key doesn't exist"@.len() == 22);
    assert("This key already has a discord linked to it"@.len() == 43);
    assert("nothing to see here."@.len() == 20);
    assert("Identifier already exists."@.len() == 26);
    assert("Invalid discord_id"@.len() == 18);
    assert("Discord ID successfully linked!"@.len() == 31);
    assert("Reset Hwid is disabled for this script"@.len() == 38);
    assert("User has been edited successfully!"@.len() == 34);
    assert("Discord ID already exists"@.len() == 25);
    assert("Discord ID already exists."@.len() == 26);
    assert("Discord ID already exist."@.len() == 25);
    assert("API is up and working!"@[0] != "User has been deleted!"@[0]);
    assert("API is up and working!"@[0] != "User key doesn't exist"@[0]);
    assert("User has been deleted!"@[5] != "User key doesn't exist"@[5]);
    assert("Wrong API key"@[0] != "Key not found"@[0]);
    assert("User is on cooldown."@[0] != "nothing to see here."@[0]);
    assert("Project not found!"@[0] != "Invalid discord_id"@[0]);
    assert("Identifier already exists."@[0] != "Discord ID already exists."@[0]);
    assert("Discord ID already exists"@[24] != "Discord ID already exist."@[24]);
}

/// Decoding a text the catalog does not know yields the fallback carrying
/// the text unchanged: nothing is lost and nothing fails.
pub proof fn lemma_unknown_text_kept(s: Seq<char>)
    requires
        !in_catalog(s),
    ensures
        message_of(s) == MessageV::Other(s),
{
}

} // verus!
