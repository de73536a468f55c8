use chat_view::chat::{Chat, Msg, Update};
use chat_view::wire::{printed, ChatMessage, Envelope, Event, MsgTypes, WireError};

#[test]
fn create_registers_the_user() {
    let (chat, frame) = Chat::create("alice");
    assert!(chat.participants().is_empty());
    assert!(chat.history().is_empty());
    let frame = frame.unwrap();
    assert_eq!(frame, r#"{"data":"alice","dataArray":null,"messageType":"register"}"#);
    assert_eq!(
        Envelope::decode(&frame),
        Ok(Envelope { kind: MsgTypes::Register, list: None, text: Some("alice".to_string()) })
    );
}

#[test]
fn create_escapes_the_name() {
    let name = "al\"ice\\ \n\u{e9}\u{1F600}";
    let (_, frame) = Chat::create(name);
    let frame = frame.unwrap();
    assert_ne!(frame, name);
    assert_eq!(Envelope::decode(&frame), Ok(Envelope::register(name)));
}

#[test]
fn submit_sends_the_input_and_clears_it() {
    let mut chat = Chat::new();
    chat.apply(Event::Users(vec!["alice".to_string()]));
    let before = chat.clone();
    let update = chat.update(Msg::SubmitMessage, Some("party.gif"));
    assert_eq!(
        update,
        Update {
            redraw: false,
            outbound: Some(
                r#"{"data":"party.gif","dataArray":null,"messageType":"message"}"#.to_string()
            ),
            clear_input: true,
            error: None,
        }
    );
    assert_eq!(chat, before);
    assert_eq!(
        Envelope::decode(&update.outbound.unwrap()),
        Ok(Envelope { kind: MsgTypes::Message, list: None, text: Some("party.gif".to_string()) })
    );
}

#[test]
fn submit_without_an_input_field_does_nothing() {
    let mut chat = Chat::new();
    let update = chat.update(Msg::SubmitMessage, None);
    assert_eq!(update, Update { redraw: false, outbound: None, clear_input: false, error: None });
    assert!(chat.participants().is_empty());
    assert!(chat.history().is_empty());
}

#[test]
fn submit_sends_an_empty_input_too() {
    let mut chat = Chat::new();
    let update = chat.update(Msg::SubmitMessage, Some(""));
    assert!(!update.redraw);
    assert!(update.clear_input);
    assert_eq!(update.error, None);
    assert_eq!(
        update.outbound,
        Some(r#"{"data":"","dataArray":null,"messageType":"message"}"#.to_string())
    );
}

#[test]
fn chat_message_survives_the_wire() {
    let message = ChatMessage { sender: "alice".to_string(), body: "hi".to_string() };
    let payload = message.encode().unwrap();
    assert_eq!(payload, r#"{"from":"alice","message":"hi"}"#);
    let frame = Envelope::message(&payload).encode().unwrap();
    assert_eq!(
        frame,
        r#"{"data":"{\"from\":\"alice\",\"message\":\"hi\"}","dataArray":null,"messageType":"message"}"#
    );
    assert_eq!(Event::decode(&frame), Ok(Event::Message(message.clone())));
    let envelope = Envelope::decode(&frame).unwrap();
    assert_eq!(envelope.kind, MsgTypes::Message);
    assert_eq!(envelope.list, None);
    assert_eq!(ChatMessage::decode(&envelope.text.unwrap()), Ok(message));
}

#[test]
fn chat_message_with_odd_characters_survives_the_wire() {
    let message = ChatMessage {
        sender: "\"quoted\" \\ name".to_string(),
        body: "line\nbreak\ttab \u{0} \u{2028} \u{1F389} {\"from\":1}".to_string(),
    };
    let frame = Envelope::message(&message.encode().unwrap()).encode().unwrap();
    assert_eq!(Event::decode(&frame), Ok(Event::Message(message)));
}

#[test]
fn envelope_with_a_list_is_printed_and_read_back() {
    let envelope = Envelope {
        kind: MsgTypes::Users,
        list: Some(vec!["bob".to_string(), "alice".to_string(), "bob".to_string()]),
        text: None,
    };
    let frame = envelope.encode().unwrap();
    assert_eq!(frame, r#"{"data":null,"dataArray":["bob","alice","bob"],"messageType":"users"}"#);
    assert_eq!(Envelope::decode(&frame), Ok(envelope));
    let empty = Envelope { kind: MsgTypes::Users, list: Some(Vec::new()), text: None };
    assert_eq!(empty.encode().unwrap(), r#"{"data":null,"dataArray":[],"messageType":"users"}"#);
    assert_eq!(Envelope::decode(&empty.encode().unwrap()), Ok(empty));
}

#[test]
fn envelope_to_json_builds_the_object() {
    let envelope = Envelope {
        kind: MsgTypes::Message,
        list: Some(vec!["x".to_string()]),
        text: Some("y".to_string()),
    };
    let expected: serde_json::Value =
        serde_json::from_str(r#"{"messageType":"message","dataArray":["x"],"data":"y"}"#).unwrap();
    assert_eq!(envelope.to_json(), expected);
    let bare = Envelope { kind: MsgTypes::Register, list: None, text: None };
    let expected: serde_json::Value =
        serde_json::from_str(r#"{"messageType":"register","dataArray":null,"data":null}"#)
            .unwrap();
    assert_eq!(bare.to_json(), expected);
    assert_eq!(Envelope::from_json(&bare.to_json()), Ok(bare));
}

#[test]
fn chat_message_to_json_builds_the_object() {
    let message = ChatMessage { sender: "alice".to_string(), body: "hi".to_string() };
    let expected: serde_json::Value =
        serde_json::from_str(r#"{"message":"hi","from":"alice"}"#).unwrap();
    assert_eq!(message.to_json(), expected);
    assert_eq!(ChatMessage::from_json(&expected), Some(message));
    let other: serde_json::Value = serde_json::from_str(r#"["alice","hi"]"#).unwrap();
    assert_eq!(ChatMessage::from_json(&other), None);
}

#[test]
fn printed_hands_the_text_on() {
    assert_eq!(printed(Ok("{}".to_string())), Ok("{}".to_string()));
    let failure = serde_json::from_str::<serde_json::Value>("{").unwrap_err();
    assert_eq!(printed(Err(failure)), Err(WireError::Unprintable));
}

#[test]
fn kinds_have_their_wire_names() {
    for (kind, name) in [
        (MsgTypes::Users, "users"),
        (MsgTypes::Register, "register"),
        (MsgTypes::Message, "message"),
    ] {
        assert_eq!(kind.name(), name);
        assert_eq!(MsgTypes::from_name(name), Some(kind));
    }
    assert_eq!(MsgTypes::from_name("Users"), None);
    assert_eq!(MsgTypes::from_name(""), None);
    assert_eq!(MsgTypes::from_name("users "), None);
}

#[test]
fn envelope_decode_tells_the_errors_apart() {
    assert_eq!(Envelope::decode("nope"), Err(WireError::Syntax));
    assert_eq!(Envelope::decode("3"), Err(WireError::Shape));
    assert_eq!(Envelope::decode(r#"{"messageType":"typing"}"#), Err(WireError::UnknownKind));
    assert_eq!(
        Envelope::decode(r#"{"messageType":"typing","data":3}"#),
        Err(WireError::UnknownKind)
    );
    assert_eq!(Envelope::decode(r#"{"messageType":"users","data":3}"#), Err(WireError::Shape));
    assert_eq!(
        Envelope::decode(r#"{"messageType":"message","extra":[1,2],"data":"x"}"#),
        Ok(Envelope::message("x"))
    );
}

#[test]
fn chat_message_decode_tells_the_errors_apart() {
    assert_eq!(ChatMessage::decode("hello"), Err(WireError::PayloadSyntax));
    assert_eq!(ChatMessage::decode("\"hello\""), Err(WireError::PayloadShape));
    assert_eq!(ChatMessage::decode(r#"{"from":"a"}"#), Err(WireError::PayloadShape));
    assert_eq!(
        ChatMessage::decode(r#"{"from":"a","message":"b"}"#),
        Ok(ChatMessage { sender: "a".to_string(), body: "b".to_string() })
    );
}

#[test]
fn a_name_with_a_quote_and_a_backslash_is_escaped() {
    let name = "a\"b\\c";
    assert_eq!(name.chars().count(), 5);
    let (chat, frame) = Chat::create(name);
    assert!(chat.participants().is_empty());
    assert!(chat.history().is_empty());
    let frame = frame.expect("a registration frame");
    assert_eq!(frame, r#"{"data":"a\"b\\c","dataArray":null,"messageType":"register"}"#);
    let document: serde_json::Value = serde_json::from_str(&frame).unwrap();
    assert_eq!(document.get("data").and_then(|data| data.as_str()), Some(name));
    assert_eq!(document.get("messageType").and_then(|kind| kind.as_str()), Some("register"));
    assert!(document.get("dataArray").unwrap().is_null());
    assert_eq!(document.as_object().unwrap().len(), 3);
}

#[test]
fn every_submit_with_an_input_hands_out_one_frame() {
    let mut chat = Chat::new();
    for input in ["party.gif", "", " ", "{\"from\":\"x\"}", "\u{0}\u{7f}\u{1F600}", "a\"b\\c"] {
        let update = chat.update(Msg::SubmitMessage, Some(input));
        assert!(!update.redraw);
        assert!(update.clear_input);
        assert_eq!(update.error, None);
        let frame = update.outbound.expect("a frame to send");
        assert_eq!(Envelope::decode(&frame), Ok(Envelope::message(input)));
        let document: serde_json::Value = serde_json::from_str(&frame).unwrap();
        assert_eq!(document.get("data").and_then(|data| data.as_str()), Some(input));
        assert_eq!(document.get("messageType").and_then(|kind| kind.as_str()), Some("message"));
        assert!(document.get("dataArray").unwrap().is_null());
    }
    assert!(chat.participants().is_empty());
    assert!(chat.history().is_empty());
}

#[test]
fn encoding_always_gives_a_text() {
    let lists = [None, Some(Vec::new()), Some(vec!["\"".to_string(), "\\".to_string()])];
    let texts = [None, Some(String::new()), Some("\u{0}\n\"\\\u{2028}".to_string())];
    for kind in [MsgTypes::Users, MsgTypes::Register, MsgTypes::Message] {
        for list in &lists {
            for text in &texts {
                let envelope = Envelope { kind, list: list.clone(), text: text.clone() };
                let frame = envelope.encode().expect("a frame");
                assert_eq!(Envelope::decode(&frame), Ok(envelope));
            }
        }
    }
    let message = ChatMessage { sender: String::new(), body: "\u{0}\"\\".to_string() };
    let payload = message.encode().expect("a payload");
    assert_eq!(ChatMessage::decode(&payload), Ok(message));
}
