use chat_relay::error::{ChatError, DecodeError};
use chat_relay::json::{find_member, Member, MemberValue};
use chat_relay::message::{
    clone_optional, content_from_members, decode_client_payload, optional_text, ChatMessage,
    SERVER_USERNAME,
};
use chat_relay::notices::{
    confirmation_notice, decode_failure_notice, rejection_notice, welcome_notice,
};

fn chat(sender: &str, name: &str, content: &str) -> ChatMessage {
    ChatMessage {
        sender_addr: Some(sender.to_string()),
        username: Some(name.to_string()),
        content: content.to_string(),
    }
}

#[test]
fn server_notice_has_no_sender_and_the_reserved_name() {
    let notice = ChatMessage::server_notice("hello".to_string());
    assert_eq!(notice.sender_addr, None);
    assert_eq!(notice.username, Some("Server".to_string()));
    assert_eq!(notice.content, "hello");
    assert_eq!(SERVER_USERNAME, "Server");
}

#[test]
fn encode_emits_all_three_members_in_order() {
    let text = chat("127.0.0.1:5000", "Bob", "hi").encode();
    assert_eq!(
        text,
        Some("{\"sender_addr\":\"127.0.0.1:5000\",\"username\":\"Bob\",\"content\":\"hi\"}".to_string())
    );
}

#[test]
fn encode_writes_null_for_an_absent_sender() {
    let text = ChatMessage::server_notice("x".to_string()).encode();
    assert_eq!(
        text,
        Some("{\"sender_addr\":null,\"username\":\"Server\",\"content\":\"x\"}".to_string())
    );
}

#[test]
fn encode_escapes_what_json_requires() {
    let text = chat("a", "b", "say \"hi\"\n\\ \u{1}").encode();
    assert_eq!(
        text,
        Some(
            "{\"sender_addr\":\"a\",\"username\":\"b\",\"content\":\"say \\\"hi\\\"\\n\\\\ \\u0001\"}"
                .to_string()
        )
    );
}

#[test]
fn encode_then_decode_gives_the_envelope_back() {
    let envelopes = vec![
        chat("127.0.0.1:5000", "Bob", "hi"),
        chat("[::1]:80", "Zoë", "tab\there \"quoted\" \\ back\u{0} \u{2028} 😀"),
        chat("", "", ""),
        ChatMessage::server_notice("Welcome".to_string()),
        ChatMessage { sender_addr: None, username: None, content: "bare".to_string() },
        ChatMessage {
            sender_addr: Some("only sender".to_string()),
            username: None,
            content: "{\"content\":\"nested\"}".to_string(),
        },
    ];
    for envelope in envelopes {
        let text = envelope.encode().unwrap();
        assert_eq!(ChatMessage::decode(&text), Ok(envelope));
    }
}

#[test]
fn decode_reads_a_client_payload_as_a_bare_envelope() {
    assert_eq!(
        ChatMessage::decode("{\"content\": \"hi\"}"),
        Ok(ChatMessage { sender_addr: None, username: None, content: "hi".to_string() })
    );
}

#[test]
fn decode_ignores_members_it_does_not_know() {
    assert_eq!(
        ChatMessage::decode("{\"extra\": [1, 2], \"content\": \"hi\", \"username\": \"Al\"}"),
        Ok(ChatMessage {
            sender_addr: None,
            username: Some("Al".to_string()),
            content: "hi".to_string()
        })
    );
}

#[test]
fn decode_rejects_what_is_not_an_object() {
    assert_eq!(ChatMessage::decode("not json"), Err(DecodeError::Malformed));
    assert_eq!(ChatMessage::decode(""), Err(DecodeError::Malformed));
    assert_eq!(ChatMessage::decode("\"hi\""), Err(DecodeError::Malformed));
    assert_eq!(ChatMessage::decode("[\"hi\"]"), Err(DecodeError::Malformed));
    assert_eq!(ChatMessage::decode("{\"content\": \"hi\"} trailing"), Err(DecodeError::Malformed));
}

#[test]
fn decode_requires_a_text_content() {
    assert_eq!(ChatMessage::decode("{}"), Err(DecodeError::MissingContent));
    assert_eq!(ChatMessage::decode("{\"text\": \"hi\"}"), Err(DecodeError::MissingContent));
    assert_eq!(ChatMessage::decode("{\"content\": 5}"), Err(DecodeError::ContentNotText));
    assert_eq!(ChatMessage::decode("{\"content\": null}"), Err(DecodeError::ContentNotText));
}

#[test]
fn decode_rejects_a_sender_or_name_that_is_not_text() {
    assert_eq!(
        ChatMessage::decode("{\"sender_addr\": 1, \"content\": \"hi\"}"),
        Err(DecodeError::FieldNotText)
    );
    assert_eq!(
        ChatMessage::decode("{\"username\": true, \"content\": \"hi\"}"),
        Err(DecodeError::FieldNotText)
    );
}

#[test]
fn client_payload_yields_its_content() {
    assert_eq!(decode_client_payload("{\"content\": \"hi\"}"), Ok("hi".to_string()));
    assert_eq!(decode_client_payload("{\"content\":\"a\\nb \\u00e9\"}"), Ok("a\nb é".to_string()));
    assert_eq!(
        decode_client_payload("  {\"username\": 7, \"content\": \"  padded  \"}  "),
        Ok("  padded  ".to_string())
    );
}

#[test]
fn client_payload_with_the_wrong_shape_is_refused() {
    assert_eq!(decode_client_payload("{\"text\": \"hi\"}"), Err(DecodeError::MissingContent));
    assert_eq!(decode_client_payload("{\"content\": 12}"), Err(DecodeError::ContentNotText));
    assert_eq!(decode_client_payload("{\"content\": {\"a\": 1}}"), Err(DecodeError::ContentNotText));
    assert_eq!(decode_client_payload("hi"), Err(DecodeError::Malformed));
    assert_eq!(decode_client_payload("[\"hi\"]"), Err(DecodeError::Malformed));
    assert_eq!(decode_client_payload("{\"content\": \"hi\""), Err(DecodeError::Malformed));
}

#[test]
fn find_member_takes_the_first_of_that_name() {
    let members = vec![
        Member { name: "a".to_string(), value: MemberValue::Null },
        Member { name: "b".to_string(), value: MemberValue::Text("one".to_string()) },
        Member { name: "b".to_string(), value: MemberValue::Other },
    ];
    assert_eq!(find_member(&members, "a"), Some(&MemberValue::Null));
    assert_eq!(find_member(&members, "b"), Some(&MemberValue::Text("one".to_string())));
    assert_eq!(find_member(&members, "c"), None);
    assert_eq!(find_member(&Vec::new(), "a"), None);
}

#[test]
fn members_decide_what_an_envelope_holds() {
    let members = vec![
        Member { name: "username".to_string(), value: MemberValue::Null },
        Member { name: "content".to_string(), value: MemberValue::Text("hi".to_string()) },
        Member { name: "sender_addr".to_string(), value: MemberValue::Text("s".to_string()) },
    ];
    assert_eq!(content_from_members(&members), Ok("hi".to_string()));
    assert_eq!(
        ChatMessage::from_members(&members),
        Ok(ChatMessage {
            sender_addr: Some("s".to_string()),
            username: None,
            content: "hi".to_string()
        })
    );
    let other = vec![Member { name: "content".to_string(), value: MemberValue::Other }];
    assert_eq!(content_from_members(&other), Err(DecodeError::ContentNotText));
    assert_eq!(ChatMessage::from_members(&other), Err(DecodeError::ContentNotText));
    assert_eq!(content_from_members(&Vec::new()), Err(DecodeError::MissingContent));
}

#[test]
fn clone_keeps_every_field() {
    let envelope = chat("1.2.3.4:5", "Bob", "hi");
    assert_eq!(envelope.clone(), envelope);
    let notice = ChatMessage::server_notice("n".to_string());
    assert_eq!(notice.clone(), notice);
}

#[test]
fn notices_say_what_they_should() {
    assert_eq!(
        welcome_notice(),
        ChatMessage::server_notice(
            "Welcome! Please send your desired username as your first message (e.g., Bob)."
                .to_string()
        )
    );
    assert_eq!(
        rejection_notice("server"),
        ChatMessage::server_notice(
            "Invalid username: 'server'. Must not be empty, 'Server', or too long (max 20 chars)."
                .to_string()
        )
    );
    assert_eq!(
        confirmation_notice("Bob"),
        ChatMessage::server_notice("Username set to: Bob. You can now send messages.".to_string())
    );
    assert_eq!(
        decode_failure_notice(),
        ChatMessage::server_notice(
            "Error: Could not understand your message. Expected JSON like {\"content\": \"your text\"}."
                .to_string()
        )
    );
}

#[test]
fn chat_error_describes_itself() {
    assert_eq!(ChatError::GenericError.message(), "An unspecified error occurred");
}

#[test]
fn optional_member_may_be_missing_or_null() {
    let members = vec![
        Member { name: "a".to_string(), value: MemberValue::Null },
        Member { name: "b".to_string(), value: MemberValue::Text("x".to_string()) },
        Member { name: "c".to_string(), value: MemberValue::Other },
    ];
    assert_eq!(optional_text(&members, "a"), Ok(None));
    assert_eq!(optional_text(&members, "b"), Ok(Some("x".to_string())));
    assert_eq!(optional_text(&members, "c"), Err(DecodeError::FieldNotText));
    assert_eq!(optional_text(&members, "d"), Ok(None));
}

#[test]
fn clone_optional_copies_the_text() {
    assert_eq!(clone_optional(&Some("x".to_string())), Some("x".to_string()));
    assert_eq!(clone_optional(&None), None);
}

#[test]
fn decode_takes_the_last_of_repeated_members() {
    assert_eq!(
        ChatMessage::decode("{\"content\": \"one\", \"content\": \"two\"}"),
        Ok(ChatMessage { sender_addr: None, username: None, content: "two".to_string() })
    );
}
