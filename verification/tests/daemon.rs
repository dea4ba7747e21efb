use bridge_daemon::account::Account;
use bridge_daemon::backend::Event;
use bridge_daemon::daemon::{Action, Daemon};
use bridge_daemon::grammar::parse;
use bridge_daemon::message::Message;

/// A daemon whose clients and channels are plain names.
fn daemon() -> Daemon<&'static str, &'static str> {
    Daemon::new()
}

/// The messages that wait for the client, taken by a client that is attached
/// for the purpose where none is.
fn pending(daemon: &mut Daemon<&'static str, &'static str>) -> Vec<Message> {
    let attached = daemon.queue.has_client();
    if !attached {
        daemon.queue.set_client(Some("reader"));
    }
    let mut taken = Vec::new();
    while let Some(message) = daemon.queue.take_next() {
        taken.push(message);
    }
    if !attached {
        daemon.queue.set_client(None);
    }
    taken
}

fn info(text: &str) -> Message {
    Message::Info { message: text.into() }
}

#[test]
fn a_new_daemon_holds_nothing() {
    let mut daemon = daemon();
    assert!(!daemon.done);
    assert!(!daemon.queue.has_client());
    assert_eq!(daemon.queue.len(), 0);
    assert_eq!(daemon.accounts.list(), vec![]);
    assert!(daemon.channels.is_empty());
    assert_eq!(pending(&mut daemon), vec![]);
}

#[test]
fn the_first_connection_is_greeted_and_attached() {
    let mut daemon = daemon();
    assert_eq!(daemon.greeting(), Message::info_welcome());
    assert!(daemon.attach("client 1", true));
    assert!(daemon.queue.has_client());
    assert_eq!(daemon.queue.client_mut().copied(), Some("client 1"));
}

#[test]
fn a_connection_that_the_greeting_did_not_reach_is_dropped() {
    let mut daemon = daemon();
    assert!(!daemon.attach("client 1", false));
    assert!(!daemon.queue.has_client());
    assert_eq!(daemon.greeting(), Message::info_welcome());
}

#[test]
fn a_second_connection_is_told_that_a_client_is_connected_and_dropped() {
    let mut daemon = daemon();
    assert!(daemon.attach("client 1", true));
    daemon.queue.send(info("waiting"));

    // the second connection gets the refusal
    assert_eq!(daemon.greeting(), Message::info_already_connected());
    assert_eq!(
        daemon.greeting(),
        info("Another client is already connected.")
    );
    assert!(!daemon.attach("client 2", true));

    // the first client is still attached, and nothing was queued for it
    assert_eq!(daemon.queue.client_mut().copied(), Some("client 1"));
    assert_eq!(daemon.queue.len(), 1);
    assert_eq!(pending(&mut daemon), vec![info("waiting")]);
}

#[test]
fn a_client_whose_stream_ended_is_detached_and_its_messages_stay() {
    let mut daemon = daemon();
    daemon.attach("client 1", true);
    daemon.queue.send(info("waiting"));
    daemon.client_closed();
    assert!(!daemon.queue.has_client());
    assert_eq!(daemon.queue.len(), 1);
    assert_eq!(daemon.greeting(), Message::info_welcome());
    assert!(daemon.attach("client 2", true));
    assert_eq!(pending(&mut daemon), vec![info("waiting")]);
}

#[test]
fn help_and_version_are_answered() {
    let mut daemon = daemon();
    daemon.attach("client", true);
    assert_eq!(daemon.handle_message(Message::Help), Action::Nothing);
    assert_eq!(daemon.handle_message(Message::Version), Action::Nothing);
    assert_eq!(
        pending(&mut daemon),
        vec![Message::info_help(), Message::info_version()]
    );
    assert_eq!(
        Message::info_version(),
        info("version: bridge-daemon v0.1.0")
    );
    assert!(!daemon.done);
}

#[test]
fn bye_detaches_the_client_and_does_not_stop_the_daemon() {
    let mut daemon = daemon();
    daemon.attach("client", true);
    assert_eq!(daemon.handle_message(Message::Bye), Action::Nothing);
    assert!(!daemon.queue.has_client());
    assert!(!daemon.done);
}

#[test]
fn quit_stops_the_daemon() {
    let mut daemon = daemon();
    daemon.attach("client", true);
    assert_eq!(daemon.handle_message(Message::Quit), Action::Nothing);
    assert!(daemon.done);
    assert!(daemon.queue.has_client());
}

#[test]
fn an_unparseable_line_changes_nothing_and_the_next_line_is_answered() {
    let mut daemon = daemon();
    daemon.attach("client", true);

    // the line matches no rule: there is no message to handle
    assert_eq!(parse("this is not a command\r\n"), None);
    assert!(daemon.queue.has_client());
    assert_eq!(daemon.queue.len(), 0);

    // the next line is answered
    let message = parse("version\r\n").unwrap();
    assert_eq!(daemon.handle_message(message), Action::Nothing);
    assert!(daemon.queue.has_client());
    assert_eq!(pending(&mut daemon), vec![Message::info_version()]);
}

#[test]
fn account_add_registers_under_the_smallest_free_id_and_asks_to_save() {
    let mut daemon = daemon();
    let add = |user: &str| Message::AccountAdd {
        protocol: "matrix".into(),
        user: user.into(),
        password: "secret".into(),
    };
    assert_eq!(daemon.handle_message(add("a")), Action::Save);
    assert_eq!(daemon.handle_message(add("b")), Action::Save);
    assert_eq!(
        daemon.handle_message(Message::AccountDelete { id: "0".into() }),
        Action::Save
    );
    assert_eq!(daemon.handle_message(add("c")), Action::Save);
    assert_eq!(
        daemon.accounts.list(),
        vec![
            Account::new(0, "matrix".into(), "c".into(), "secret".into()),
            Account::new(1, "matrix".into(), "b".into(), "secret".into()),
        ]
    );
    assert_eq!(daemon.queue.len(), 0);
}

#[test]
fn account_delete_with_an_id_that_is_no_number_does_nothing() {
    let mut daemon = daemon();
    daemon.accounts.add("matrix".into(), "a".into(), "secret".into());
    for id in ["", "x", "-1", "0 ", "4294967296"] {
        assert_eq!(
            daemon.handle_message(Message::AccountDelete { id: id.into() }),
            Action::Nothing
        );
    }
    assert_eq!(daemon.accounts.list().len(), 1);
    // an id of no account is a number all the same
    assert_eq!(
        daemon.handle_message(Message::AccountDelete { id: "5".into() }),
        Action::Save
    );
    assert_eq!(daemon.accounts.list().len(), 1);
}

#[test]
fn account_list_is_answered_with_one_notice_for_each_account() {
    let mut daemon = daemon();
    daemon.accounts.load(vec![
        Account::new(12, "matrix".into(), "twelve@example.org".into(), "p".into()),
        Account::new(3, "xmpp".into(), "three@example.org".into(), "q".into()),
    ]);
    daemon.queue.send(info("earlier"));
    assert_eq!(daemon.handle_message(Message::AccountList), Action::Nothing);
    assert_eq!(
        pending(&mut daemon),
        vec![
            info("earlier"),
            Message::Account {
                id: "3".into(),
                name: "()".into(),
                protocol: "xmpp".into(),
                user: "three@example.org".into(),
                status: "offline".into(),
            },
            Message::Account {
                id: "12".into(),
                name: "()".into(),
                protocol: "matrix".into(),
                user: "twelve@example.org".into(),
                status: "offline".into(),
            },
        ]
    );
}

#[test]
fn account_list_of_an_empty_registry_is_answered_with_nothing() {
    let mut daemon = daemon();
    assert_eq!(daemon.handle_message(Message::AccountList), Action::Nothing);
    assert_eq!(daemon.queue.len(), 0);
}

#[test]
fn a_command_for_an_account_with_a_channel_is_forwarded() {
    let mut daemon = daemon();
    daemon.open_channel(2, "channel 2");
    let send = Message::ChatMessageSend {
        account_id: "2".into(),
        chat: "room".into(),
        message: "hello".into(),
    };
    assert_eq!(
        daemon.handle_message(send.clone()),
        Action::Forward { account_id: 2, event: Event::Message(send) }
    );
    let buddies = Message::BuddyList { account_id: "2".into(), status: "".into() };
    assert_eq!(
        daemon.handle_message(buddies.clone()),
        Action::Forward { account_id: 2, event: Event::Message(buddies) }
    );
    let join = Message::ChatJoin { account_id: "+02".into(), chat: "room".into() };
    assert_eq!(
        daemon.handle_message(join.clone()),
        Action::Forward { account_id: 2, event: Event::Message(join) }
    );
    assert_eq!(daemon.queue.len(), 0);
    assert_eq!(daemon.channels.get(&2), Some(&"channel 2"));
}

#[test]
fn a_command_for_an_account_without_a_channel_is_dropped() {
    let mut daemon = daemon();
    daemon.open_channel(2, "channel 2");
    for id in ["1", "3", "two", "", "2 "] {
        let message = Message::ChatMessageSend {
            account_id: id.into(),
            chat: "room".into(),
            message: "hello".into(),
        };
        assert_eq!(daemon.handle_message(message), Action::Nothing);
    }
    daemon.close_channel(2);
    let message = Message::StatusGet { account_id: "2".into() };
    assert_eq!(daemon.handle_message(message), Action::Nothing);
    assert_eq!(daemon.queue.len(), 0);
}

#[test]
fn a_notification_is_handed_on_to_the_client_unchanged() {
    let mut daemon = daemon();
    let notices = vec![
        info("text"),
        Message::Status { account_id: "1".into(), status: "away".into() },
        Message::Buddy {
            account_id: "1".into(),
            status: "online".into(),
            name: "bob".into(),
            alias: "".into(),
        },
    ];
    for notice in &notices {
        assert_eq!(daemon.handle_message(notice.clone()), Action::Nothing);
    }
    assert_eq!(pending(&mut daemon), notices);
}

#[test]
fn an_event_of_a_session_is_queued_for_the_client() {
    let mut daemon = daemon();
    let message = Message::ChatMessage {
        account_id: "1".into(),
        chat: "room".into(),
        timestamp: "1700000000".into(),
        sender: "bob".into(),
        message: "hello".into(),
    };
    daemon.handle_event(Event::Message(message.clone()));
    assert!(!daemon.queue.has_client());
    daemon.attach("client", true);
    assert_eq!(pending(&mut daemon), vec![message]);
}

#[test]
fn the_notice_of_an_account_crosses_the_wire() {
    let mut daemon = daemon();
    daemon.accounts.add("matrix".into(), "bob@example.org".into(), "secret".into());
    daemon.handle_message(Message::AccountList);
    for notice in pending(&mut daemon) {
        assert_eq!(notice.to_string().parse(), Ok(notice));
    }
}
