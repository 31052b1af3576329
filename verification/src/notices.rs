//! The notices with which the relay talks to a client in its own name.

use crate::message::{notice, ChatMessage, SERVER_USERNAME};
use vstd::prelude::*;
use vstd::string::*;

verus! {

/// What a client is told when its connection is set up.
pub open spec fn welcome_text() -> Seq<char> {
    "Welcome! Please send your desired username as your first message (e.g., Bob)."@
}

/// What a client is told when the display name `name` is turned down.
pub open spec fn rejection_text(name: Seq<char>) -> Seq<char> {
    "Invalid username: '"@ + name + "'. Must not be empty, '"@ + SERVER_USERNAME@
        + "', or too long (max 20 chars)."@
}

/// What a client is told when the display name `name` is accepted.
pub open spec fn confirmation_text(name: Seq<char>) -> Seq<char> {
    "Username set to: "@ + name + ". You can now send messages."@
}

/// What a client is told when its payload could not be read.
pub open spec fn decode_failure_text() -> Seq<char> {
    "Error: Could not understand your message. "@
        + "Expected JSON like {\"content\": \"your text\"}."@
}

/// The notice that greets a new client.
pub fn welcome_notice() -> (r: ChatMessage)
    ensures
        r@ == notice(welcome_text()),
{
    ChatMessage::server_notice(
        "Welcome! Please send your desired username as your first message (e.g., Bob).".to_string(),
    )
}

/// The notice that turns the display name `name` down.
pub fn rejection_notice(name: &str) -> (r: ChatMessage)
    ensures
        r@ == notice(rejection_text(name@)),
{
    let mut content = "Invalid username: '".to_string();
    content.append(name);
    content.append("'. Must not be empty, '");
    content.append(SERVER_USERNAME);
    content.append("', or too long (max 20 chars).");
    ChatMessage::server_notice(content)
}

/// The notice that confirms the display name `name`.
pub fn confirmation_notice(name: &str) -> (r: ChatMessage)
    ensures
        r@ == notice(confirmation_text(name@)),
{
    let mut content = "Username set to: ".to_string();
    content.append(name);
    content.append(". You can now send messages.");
    ChatMessage::server_notice(content)
}

/// The notice that answers a payload which could not be read.
pub fn decode_failure_notice() -> (r: ChatMessage)
    ensures
        r@ == notice(decode_failure_text()),
{
    let mut content = "Error: Could not understand your message. ".to_string();
    content.append("Expected JSON like {\"content\": \"your text\"}.");
    ChatMessage::server_notice(content)
}

} // verus!
