use bridge_daemon::account::Account;
use bridge_daemon::backend::{server_of, Event, RoomMessage};
use bridge_daemon::message::Message;

fn room_message(joined: bool, text: Option<&str>) -> RoomMessage {
    RoomMessage {
        joined,
        room: "!room:example.org".into(),
        timestamp: 1700000000,
        sender: "@bob:example.org".into(),
        text: text.map(|text| text.to_string()),
    }
}

#[test]
fn a_text_in_a_joined_room_is_a_chat_message() {
    assert_eq!(
        Event::incoming(3, room_message(true, Some("hello there"))),
        Some(Event::Message(Message::ChatMessage {
            account_id: "3".into(),
            chat: "!room:example.org".into(),
            timestamp: "1700000000".into(),
            sender: "@bob:example.org".into(),
            message: "hello there".into(),
        }))
    );
}

#[test]
fn a_message_in_a_room_that_is_not_joined_is_no_event() {
    assert_eq!(Event::incoming(3, room_message(false, Some("hello"))), None);
    assert_eq!(Event::incoming(3, room_message(false, None)), None);
}

#[test]
fn a_message_that_is_no_text_is_no_event() {
    assert_eq!(Event::incoming(3, room_message(true, None)), None);
}

#[test]
fn the_command_to_send_a_chat_message_gives_room_and_text() {
    let event = Event::Message(Message::ChatMessageSend {
        account_id: "3".into(),
        chat: "!room:example.org".into(),
        message: "hello there".into(),
    });
    assert_eq!(
        event.chat_text(),
        Some(("!room:example.org".to_string(), "hello there".to_string()))
    );
}

#[test]
fn any_other_event_gives_nothing_to_send() {
    assert_eq!(Event::Message(Message::Help).chat_text(), None);
    let event = Event::Message(Message::MessageSend {
        account_id: "3".into(),
        destination: "bob".into(),
        message: "hi".into(),
    });
    assert_eq!(event.chat_text(), None);
}

#[test]
fn a_matrix_account_with_a_server_gets_a_session() {
    let account = |protocol: &str, user: &str| {
        Account::new(0, protocol.into(), user.into(), "secret".into())
    };
    assert_eq!(
        server_of(&account("matrix", "bob@example.org")),
        Some("example.org".to_string())
    );
    assert_eq!(
        server_of(&account("matrix", "bob@home@example.org")),
        Some("example.org".to_string())
    );
    assert_eq!(server_of(&account("matrix", "bob@")), Some("".to_string()));
    assert_eq!(server_of(&account("matrix", "bob")), None);
    assert_eq!(server_of(&account("matrix", "")), None);
    assert_eq!(server_of(&account("xmpp", "bob@example.org")), None);
    assert_eq!(server_of(&account("Matrix", "bob@example.org")), None);
}
