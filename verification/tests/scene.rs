use chat_view::chat::{Chat, Msg};
use chat_view::scene::{find_avatar, is_image, Body, FeedEntry, ParticipantCard};
use chat_view::wire::{ChatMessage, Event};

const PLACEHOLDER: &str = "/joebiden.png";

fn said(sender: &str, body: &str) -> Event {
    Event::Message(ChatMessage { sender: sender.to_string(), body: body.to_string() })
}

#[test]
fn bodies_ending_in_gif_are_images() {
    assert!(is_image("party.gif"));
    assert!(is_image(".gif"));
    assert!(is_image("https://example.org/a/b.gif"));
    assert!(is_image("\u{e9}t\u{e9}\u{1F600}.gif"));
    assert!(!is_image(""));
    assert!(!is_image("gif"));
    assert!(!is_image("partygif"));
    assert!(!is_image("party.GIF"));
    assert!(!is_image("party.gif "));
    assert!(!is_image("party.gif?x"));
    assert!(!is_image("party.png"));
    assert!(!is_image(".gi"));
    assert!(!is_image("\u{1F600}gif"));
}

#[test]
fn the_scene_follows_the_state() {
    let mut chat = Chat::new();
    chat.apply(Event::Users(vec!["alice".to_string(), "bob".to_string()]));
    chat.apply(said("bob", "hello"));
    chat.apply(said("alice", "party.gif"));
    let scene = chat.view();
    assert_eq!(
        scene.participants,
        vec![
            ParticipantCard {
                name: "alice".to_string(),
                avatar: PLACEHOLDER.to_string(),
                status: "Hi there!".to_string(),
            },
            ParticipantCard {
                name: "bob".to_string(),
                avatar: PLACEHOLDER.to_string(),
                status: "Hi there!".to_string(),
            },
        ]
    );
    assert_eq!(
        scene.feed,
        vec![
            FeedEntry {
                avatar: PLACEHOLDER.to_string(),
                sender: "bob".to_string(),
                body: Body::Text("hello".to_string()),
            },
            FeedEntry {
                avatar: PLACEHOLDER.to_string(),
                sender: "alice".to_string(),
                body: Body::Image("party.gif".to_string()),
            },
        ]
    );
}

#[test]
fn the_scene_of_a_new_client_is_empty() {
    let scene = Chat::new().view();
    assert!(scene.participants.is_empty());
    assert!(scene.feed.is_empty());
}

#[test]
fn a_sender_who_is_not_present_gets_the_fallback_avatar() {
    let mut chat = Chat::new();
    chat.apply(Event::Users(vec!["alice".to_string()]));
    let update = chat.update(
        Msg::HandleMsg(
            r#"{"messageType":"message","data":"{\"from\":\"mallory\",\"message\":\"boo\"}"}"#
                .to_string(),
        ),
        None,
    );
    assert!(update.redraw);
    assert_eq!(chat.avatar("mallory"), None);
    assert_eq!(chat.avatar("alice"), Some(PLACEHOLDER.to_string()));
    assert_eq!(
        chat.view().feed,
        vec![FeedEntry {
            avatar: PLACEHOLDER.to_string(),
            sender: "mallory".to_string(),
            body: Body::Text("boo".to_string()),
        }]
    );
}

#[test]
fn a_message_before_any_list_gets_the_fallback_avatar() {
    let mut chat = Chat::new();
    chat.apply(said("alice", "early.gif"));
    assert_eq!(chat.avatar("alice"), None);
    assert_eq!(
        chat.view().feed,
        vec![FeedEntry {
            avatar: PLACEHOLDER.to_string(),
            sender: "alice".to_string(),
            body: Body::Image("early.gif".to_string()),
        }]
    );
}

#[test]
fn the_first_participant_of_a_name_is_found() {
    let mut chat = Chat::new();
    chat.apply(Event::Users(vec!["alice".to_string()]));
    let mut participants = chat.participants().clone();
    participants[0].avatar_url = "/first.png".to_string();
    let mut second = participants[0].clone();
    second.avatar_url = "/second.png".to_string();
    participants.push(second);
    let mut other = participants[0].clone();
    other.display_name = "bob".to_string();
    other.avatar_url = "/bob.png".to_string();
    participants.push(other);
    assert_eq!(find_avatar(&participants, "alice"), Some("/first.png".to_string()));
    assert_eq!(find_avatar(&participants, "bob"), Some("/bob.png".to_string()));
    assert_eq!(find_avatar(&participants, "Alice"), None);
    assert_eq!(find_avatar(&participants, ""), None);
    assert_eq!(find_avatar(&Vec::new(), "alice"), None);
}
