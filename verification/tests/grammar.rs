use bridge_daemon::grammar::{
    parse, parse_account, parse_account_command, parse_buddy, parse_chat, parse_info,
    parse_message, parse_status,
};
use bridge_daemon::message::Message;

fn words(line: &str) -> Vec<String> {
    line.split(' ').map(|word| word.to_string()).collect()
}

#[test]
fn a_line_without_terminator_is_no_message() {
    assert_eq!(parse("help"), None);
    assert_eq!(parse("help\n"), None);
    assert_eq!(parse("help\n\n"), None);
    assert_eq!(parse("help\r"), None);
    assert_eq!(parse(""), None);
    assert_eq!(parse("\r"), None);
}

#[test]
fn the_plain_commands_are_read() {
    assert_eq!(parse("help\r\n"), Some(Message::Help));
    assert_eq!(parse("version\r\n"), Some(Message::Version));
    assert_eq!(parse("bye\r\n"), Some(Message::Bye));
    assert_eq!(parse("quit\r\n"), Some(Message::Quit));
    assert_eq!(parse("account list\r\n"), Some(Message::AccountList));
}

#[test]
fn words_after_a_plain_command_are_ignored() {
    assert_eq!(parse("help me please\r\n"), Some(Message::Help));
    assert_eq!(parse("account list all\r\n"), Some(Message::AccountList));
    assert_eq!(
        parse("account 3 delete now\r\n"),
        Some(Message::AccountDelete { id: "3".into() })
    );
}

#[test]
fn an_unknown_first_word_is_no_message() {
    assert_eq!(parse("\r\n"), None);
    assert_eq!(parse("hello\r\n"), None);
    assert_eq!(parse("Help\r\n"), None);
    assert_eq!(parse(" help\r\n"), None);
    assert_eq!(parse("info\r\n"), None);
    assert_eq!(parse("accounts list\r\n"), None);
}

#[test]
fn a_rule_with_too_few_words_is_no_message() {
    assert_eq!(parse("info:\r\n"), None);
    assert_eq!(parse("account\r\n"), None);
    assert_eq!(parse("account add matrix user\r\n"), None);
    assert_eq!(parse("account 1\r\n"), None);
    assert_eq!(parse("account 1 send bob\r\n"), None);
    assert_eq!(parse("account 1 status\r\n"), None);
    assert_eq!(parse("account 1 status set\r\n"), None);
    assert_eq!(parse("account 1 status clear\r\n"), None);
    assert_eq!(parse("account 1 chat\r\n"), None);
    assert_eq!(parse("account 1 chat join\r\n"), None);
    assert_eq!(parse("account 1 chat part\r\n"), None);
    assert_eq!(parse("account 1 chat send room\r\n"), None);
    assert_eq!(parse("account 1 chat users\r\n"), None);
    assert_eq!(parse("account 1 chat invite room\r\n"), None);
    assert_eq!(parse("account 1 chat leave room\r\n"), None);
    assert_eq!(parse("account 1 unknown\r\n"), None);
    assert_eq!(parse("account: 1 name matrix user\r\n"), None);
    assert_eq!(parse("buddy: 1 status: online name: bob\r\n"), None);
    assert_eq!(parse("message: 1 bob 1700000000 alice\r\n"), None);
    assert_eq!(parse("status: account 1 status:\r\n"), None);
    assert_eq!(parse("chat: list: 1 room alias\r\n"), None);
    assert_eq!(parse("chat: msg: 1 room 1700000000 bob\r\n"), None);
    assert_eq!(parse("chat: user: 1 room bob alias\r\n"), None);
    assert_eq!(parse("chat: topic: 1 room some topic here\r\n"), None);
}

#[test]
fn a_free_text_keeps_its_spaces() {
    assert_eq!(
        parse("info: hello  big   world \r\n"),
        Some(Message::Info {
            message: "hello  big   world ".into()
        })
    );
    assert_eq!(
        parse("account 1 send bob  two  spaces\r\n"),
        Some(Message::MessageSend {
            account_id: "1".into(),
            destination: "bob".into(),
            message: " two  spaces".into(),
        })
    );
    assert_eq!(
        parse("account 7 chat send room a b c\r\n"),
        Some(Message::ChatMessageSend {
            account_id: "7".into(),
            chat: "room".into(),
            message: "a b c".into(),
        })
    );
}

#[test]
fn a_free_text_may_hold_line_ends() {
    assert_eq!(
        parse("info: one\r\ntwo\r\n"),
        Some(Message::Info {
            message: "one\r\ntwo".into()
        })
    );
}

#[test]
fn a_missing_status_or_alias_is_empty() {
    assert_eq!(
        parse("account 1 buddies\r\n"),
        Some(Message::BuddyList {
            account_id: "1".into(),
            status: "".into(),
        })
    );
    assert_eq!(
        parse("account 1 buddies online\r\n"),
        Some(Message::BuddyList {
            account_id: "1".into(),
            status: "online".into(),
        })
    );
    assert_eq!(
        parse("buddy: 1 status: online name: bob alias:\r\n"),
        Some(Message::Buddy {
            account_id: "1".into(),
            status: "online".into(),
            name: "bob".into(),
            alias: "".into(),
        })
    );
    assert_eq!(
        parse("buddy: 1 status: online name: bob alias: bobby\r\n"),
        Some(Message::Buddy {
            account_id: "1".into(),
            status: "online".into(),
            name: "bob".into(),
            alias: "bobby".into(),
        })
    );
}

#[test]
fn the_notifications_are_read_by_position() {
    assert_eq!(
        parse("status: account 4 status: away\r\n"),
        Some(Message::Status {
            account_id: "4".into(),
            status: "away".into(),
        })
    );
    assert_eq!(
        parse("status: x 4 y away\r\n"),
        Some(Message::Status {
            account_id: "4".into(),
            status: "away".into(),
        })
    );
    assert_eq!(
        parse("chat: user: 1 room bob bobby online\r\n"),
        Some(Message::ChatUser {
            account_id: "1".into(),
            chat: "room".into(),
            user: "bob".into(),
            alias: "bobby".into(),
            status: "online".into(),
        })
    );
    assert_eq!(
        parse("chat: list: 1 room alias nick\r\n"),
        Some(Message::Chat {
            account_id: "1".into(),
            chat: "room".into(),
            alias: "alias".into(),
            nick: "nick".into(),
        })
    );
}

#[test]
fn list_and_add_in_place_of_an_id_are_read_as_subcommands() {
    assert_eq!(parse("account list delete\r\n"), Some(Message::AccountList));
    assert_eq!(parse("account add delete\r\n"), None);
    assert_eq!(
        parse("account add send bob hi\r\n"),
        Some(Message::AccountAdd {
            protocol: "send".into(),
            user: "bob".into(),
            password: "hi".into(),
        })
    );
}

#[test]
fn the_rules_read_the_words_they_are_given() {
    assert_eq!(
        parse_info(&words("info: a b")),
        Some(Message::Info { message: "a b".into() })
    );
    assert_eq!(parse_info(&words("info:")), None);
    assert_eq!(
        parse_account(&words("account: 1 () matrix bob offline")),
        Some(Message::Account {
            id: "1".into(),
            name: "()".into(),
            protocol: "matrix".into(),
            user: "bob".into(),
            status: "offline".into(),
        })
    );
    assert_eq!(
        parse_account_command(&words("account 2 collect")),
        Some(Message::MessageCollect { account_id: "2".into() })
    );
    assert_eq!(
        parse_account_command(&words("account 2 status get")),
        Some(Message::StatusGet { account_id: "2".into() })
    );
    assert_eq!(
        parse_account_command(&words("account 2 chat list")),
        Some(Message::ChatList { account_id: "2".into() })
    );
    assert_eq!(parse_account_command(&words("account")), None);
    assert_eq!(
        parse_buddy(&words("buddy: 1 status: on name: bob")),
        None
    );
    assert_eq!(
        parse_message(&words("message: 1 bob 17 alice hi there")),
        Some(Message::Message {
            account_id: "1".into(),
            destination: "bob".into(),
            timestamp: "17".into(),
            sender: "alice".into(),
            message: "hi there".into(),
        })
    );
    assert_eq!(
        parse_status(&words("status: account 1 status: on")),
        Some(Message::Status {
            account_id: "1".into(),
            status: "on".into(),
        })
    );
    assert_eq!(
        parse_chat(&words("chat: msg: 1 room 17 bob hi  there")),
        Some(Message::ChatMessage {
            account_id: "1".into(),
            chat: "room".into(),
            timestamp: "17".into(),
            sender: "bob".into(),
            message: "hi  there".into(),
        })
    );
}

#[test]
fn from_str_agrees_with_parse() {
    assert_eq!("quit\r\n".parse::<Message>(), Ok(Message::Quit));
    assert_eq!("quit".parse::<Message>(), Err(()));
    assert_eq!("nonsense\r\n".parse::<Message>(), Err(()));
}
