//! The envelope that travels between sessions and over the wire.
//!
//! On the wire an envelope is a JSON object with the members `sender_addr`,
//! `username` and `content`, in that order. The first two are a text or
//! `null`; `content` is always a text.

use crate::error::DecodeError;
use crate::json::{
    distinct_names, entries_as_members, entries_view, find_member, first_named,
    json_object_members, json_object_text, members_view, parse_object, write_object, Member,
    MemberValue, MemberValueView, MemberView,
};
use vstd::prelude::*;

verus! {

/// Display name under which the relay itself speaks.
pub const SERVER_USERNAME: &'static str = "Server";

/// One chat envelope.
#[derive(Debug, PartialEq, Eq)]
pub struct ChatMessage {
    /// Connection the envelope came from; absent on notices of the relay.
    pub sender_addr: Option<String>,
    /// Display name of the sender.
    pub username: Option<String>,
    /// The text itself.
    pub content: String,
}

/// Mathematical model of a [`ChatMessage`].
pub struct ChatMessageView {
    pub sender_addr: Option<Seq<char>>,
    pub username: Option<Seq<char>>,
    pub content: Seq<char>,
}

/// The model of an optional text.
pub open spec fn optional_view(text: Option<String>) -> Option<Seq<char>> {
    match text {
        Some(s) => Some(s@),
        None => None,
    }
}

impl View for ChatMessage {
    type V = ChatMessageView;

    open spec fn view(&self) -> ChatMessageView {
        ChatMessageView {
            sender_addr: optional_view(self.sender_addr),
            username: optional_view(self.username),
            content: self.content@,
        }
    }
}

impl Clone for ChatMessage {
    fn clone(&self) -> (r: Self)
        ensures
            r@ == self@,
    {
        ChatMessage {
            sender_addr: clone_optional(&self.sender_addr),
            username: clone_optional(&self.username),
            content: self.content.clone(),
        }
    }
}

/// A copy of an optional text.
pub fn clone_optional(text: &Option<String>) -> (r: Option<String>)
    ensures
        optional_view(r) == optional_view(*text),
{
    match text {
        Some(s) => Some(s.clone()),
        None => None,
    }
}

/// The notice with which the relay itself says `content` to a client.
pub open spec fn notice(content: Seq<char>) -> ChatMessageView {
    ChatMessageView { sender_addr: None, username: Some(SERVER_USERNAME@), content }
}

/// The envelope of a chat message that the client on connection
/// `sender_addr`, registered as `username`, has sent.
pub open spec fn chat(
    sender_addr: Seq<char>,
    username: Seq<char>,
    content: Seq<char>,
) -> ChatMessageView {
    ChatMessageView { sender_addr: Some(sender_addr), username: Some(username), content }
}

/// The members that an envelope has on the wire, in order.
pub open spec fn wire_entries(m: ChatMessageView) -> Seq<(Seq<char>, Option<Seq<char>>)> {
    seq![("sender_addr"@, m.sender_addr), ("username"@, m.username), ("content"@, Some(m.content))]
}

/// The wire text of an envelope, if the JSON writer yields one.
pub open spec fn wire_text(m: ChatMessageView) -> Option<Seq<char>> {
    json_object_text(wire_entries(m))
}

/// What an optional member of an envelope holds.
pub open spec fn optional_member(members: Seq<MemberView>, name: Seq<char>) -> Result<
    Option<Seq<char>>,
    DecodeError,
> {
    match first_named(members, name) {
        None => Ok(None),
        Some(MemberValueView::Null) => Ok(None),
        Some(MemberValueView::Text(s)) => Ok(Some(s)),
        Some(MemberValueView::Other) => Err(DecodeError::FieldNotText),
    }
}

/// The text of the member `content`.
pub open spec fn content_member(members: Seq<MemberView>) -> Result<Seq<char>, DecodeError> {
    match first_named(members, "content"@) {
        None => Err(DecodeError::MissingContent),
        Some(MemberValueView::Text(s)) => Ok(s),
        Some(_) => Err(DecodeError::ContentNotText),
    }
}

/// The envelope that the members of a JSON object stand for. Members with
/// other names are ignored.
pub open spec fn envelope_of(members: Seq<MemberView>) -> Result<ChatMessageView, DecodeError> {
    match optional_member(members, "sender_addr"@) {
        Err(e) => Err(e),
        Ok(sender_addr) => match optional_member(members, "username"@) {
            Err(e) => Err(e),
            Ok(username) => match content_member(members) {
                Err(e) => Err(e),
                Ok(content) => Ok(ChatMessageView { sender_addr, username, content }),
            },
        },
    }
}

/// The envelope that a wire text stands for.
pub open spec fn decoded(text: Seq<char>) -> Result<ChatMessageView, DecodeError> {
    match json_object_members(text) {
        None => Err(DecodeError::Malformed),
        Some(members) => envelope_of(members),
    }
}

/// The text that a client payload carries: the member `content` of a JSON
/// object, whatever else the object holds.
pub open spec fn client_content(text: Seq<char>) -> Result<Seq<char>, DecodeError> {
    match json_object_members(text) {
        None => Err(DecodeError::Malformed),
        Some(members) => content_member(members),
    }
}

/// The three member names differ from one another.
proof fn lemma_member_names_differ()
    ensures
        "sender_addr"@ != "username"@,
        "sender_addr"@ != "content"@,
        "username"@ != "content"@,
{
    reveal_strlit("sender_addr");
    reveal_strlit("username");
    reveal_strlit("content");
    assert("sender_addr"@.len() == 11);
    assert("username"@.len() == 8);
    assert("content"@.len() == 7);
}

/// Reading back the members written for an envelope yields the envelope.
pub proof fn lemma_wire_entries_round_trip(m: ChatMessageView)
    ensures
        distinct_names(wire_entries(m)),
        envelope_of(entries_as_members(wire_entries(m))) == Ok::<ChatMessageView, DecodeError>(m),
        content_member(entries_as_members(wire_entries(m))) == Ok::<Seq<char>, DecodeError>(
            m.content,
        ),
{
    lemma_member_names_differ();
    let members = entries_as_members(wire_entries(m));
    let tail1 = members.drop_first();
    let tail2 = tail1.drop_first();
    assert(members.len() == 3);
    assert(members[0].name == "sender_addr"@);
    assert(tail1.first().name == "username"@);
    assert(tail2.first().name == "content"@);
    assert(tail2.first().value == MemberValueView::Text(m.content));
    reveal_with_fuel(first_named, 4);
}

impl ChatMessage {
    /// A notice of the relay itself, saying `content`.
    pub fn server_notice(content: String) -> (r: ChatMessage)
        ensures
            r@ == notice(content@),
    {
        ChatMessage { sender_addr: None, username: Some(SERVER_USERNAME.to_string()), content }
    }

    /// The wire text of the envelope, or `None` where the JSON writer fails.
    /// Decoding the text yields the envelope again, field for field, and
    /// reading it as a client payload yields its content.
    pub fn encode(&self) -> (r: Option<String>)
        ensures
            optional_view(r) == wire_text(self@),
            r matches Some(text) ==> {
                &&& decoded(text@) == Ok::<ChatMessageView, DecodeError>(self@)
                &&& client_content(text@) == Ok::<Seq<char>, DecodeError>(self@.content)
            },
    {
        let mut entries: Vec<(String, Option<String>)> = Vec::new();
        entries.push(("sender_addr".to_string(), clone_optional(&self.sender_addr)));
        entries.push(("username".to_string(), clone_optional(&self.username)));
        entries.push(("content".to_string(), Some(self.content.clone())));
        proof {
            assert(entries_view(entries@) =~= wire_entries(self@));
            lemma_wire_entries_round_trip(self@);
        }
        write_object(&entries)
    }

    /// The envelope that members read from a JSON object stand for.
    pub fn from_members(members: &Vec<Member>) -> (r: Result<ChatMessage, DecodeError>)
        ensures
            match r {
                Ok(m) => envelope_of(members_view(members@)) == Ok::<
                    ChatMessageView,
                    DecodeError,
                >(m@),
                Err(e) => envelope_of(members_view(members@)) == Err::<
                    ChatMessageView,
                    DecodeError,
                >(e),
            },
    {
        let sender_addr = match optional_text(members, "sender_addr") {
            Ok(text) => text,
            Err(e) => {
                return Err(e);
            },
        };
        let username = match optional_text(members, "username") {
            Ok(text) => text,
            Err(e) => {
                return Err(e);
            },
        };
        match content_from_members(members) {
            Ok(content) => Ok(ChatMessage { sender_addr, username, content }),
            Err(e) => Err(e),
        }
    }

    /// Reads a wire text as an envelope.
    pub fn decode(text: &str) -> (r: Result<ChatMessage, DecodeError>)
        ensures
            match r {
                Ok(m) => decoded(text@) == Ok::<ChatMessageView, DecodeError>(m@),
                Err(e) => decoded(text@) == Err::<ChatMessageView, DecodeError>(e),
            },
    {
        match parse_object(text) {
            Some(members) => ChatMessage::from_members(&members),
            None => Err(DecodeError::Malformed),
        }
    }
}

/// The text of the member `name` among members read from a JSON object,
/// where the member may be missing or `null`.
pub fn optional_text(members: &Vec<Member>, name: &str) -> (r: Result<Option<String>, DecodeError>)
    ensures
        match r {
            Ok(text) => optional_member(members_view(members@), name@) == Ok::<
                Option<Seq<char>>,
                DecodeError,
            >(optional_view(text)),
            Err(e) => optional_member(members_view(members@), name@) == Err::<
                Option<Seq<char>>,
                DecodeError,
            >(e),
        },
{
    match find_member(members, name) {
        None => Ok(None),
        Some(MemberValue::Null) => Ok(None),
        Some(MemberValue::Text(s)) => Ok(Some(s.clone())),
        Some(MemberValue::Other) => Err(DecodeError::FieldNotText),
    }
}

/// The text of the member `content` among members read from a JSON object.
pub fn content_from_members(members: &Vec<Member>) -> (r: Result<String, DecodeError>)
    ensures
        match r {
            Ok(s) => content_member(members_view(members@)) == Ok::<Seq<char>, DecodeError>(s@),
            Err(e) => content_member(members_view(members@)) == Err::<Seq<char>, DecodeError>(e),
        },
{
    match find_member(members, "content") {
        None => Err(DecodeError::MissingContent),
        Some(MemberValue::Text(s)) => Ok(s.clone()),
        Some(_) => Err(DecodeError::ContentNotText),
    }
}

/// Reads what a client has sent: a JSON object whose member `content` is the
/// text.
pub fn decode_client_payload(text: &str) -> (r: Result<String, DecodeError>)
    ensures
        match r {
            Ok(s) => client_content(text@) == Ok::<Seq<char>, DecodeError>(s@),
            Err(e) => client_content(text@) == Err::<Seq<char>, DecodeError>(e),
        },
{
    match parse_object(text) {
        Some(members) => content_from_members(&members),
        None => Err(DecodeError::Malformed),
    }
}

} // verus!
