//! The round trip of a message over the wire.
//!
//! Rendering a message and parsing the line gives the message back exactly
//! when each field that the grammar reads as a single word is one, and when
//! the account id of a command is not one of the two words that the grammar
//! reads in its place. A free text at the end of a line is never a hindrance:
//! whatever it holds is split at its spaces and joined again unchanged.

use crate::grammar::{message_from_line, message_from_words};
use crate::message::{command_id, line_of, words_of, MessageView};
use crate::text::{
    all_free_of, free_of, join, lemma_join_split, lemma_split_join, lemma_split_join_tail,
    lemma_split_nonempty, lemma_split_pieces_free, split, SPACE,
};
use vstd::prelude::*;

verus! {

/// The fields of `m` that take one word each on the wire, in the order of the
/// line.
pub open spec fn word_fields(m: MessageView) -> Seq<Seq<char>> {
    match m {
        MessageView::Info { .. } => Seq::<Seq<char>>::empty(),
        MessageView::Account { id, name, protocol, user, status } => seq![
            id,
            name,
            protocol,
            user,
            status,
        ],
        MessageView::AccountList => Seq::<Seq<char>>::empty(),
        MessageView::AccountAdd { protocol, user, password } => seq![protocol, user, password],
        MessageView::AccountDelete { id } => seq![id],
        MessageView::Buddy { account_id, status, name, alias } => seq![
            account_id,
            status,
            name,
            alias,
        ],
        MessageView::BuddyList { account_id, status } => seq![account_id, status],
        MessageView::Message { account_id, destination, timestamp, sender, .. } => seq![
            account_id,
            destination,
            timestamp,
            sender,
        ],
        MessageView::MessageCollect { account_id } => seq![account_id],
        MessageView::MessageSend { account_id, destination, .. } => seq![account_id, destination],
        MessageView::Status { account_id, status } => seq![account_id, status],
        MessageView::StatusGet { account_id } => seq![account_id],
        MessageView::StatusSet { account_id, status } => seq![account_id, status],
        MessageView::Chat { account_id, chat, alias, nick } => seq![account_id, chat, alias, nick],
        MessageView::ChatList { account_id } => seq![account_id],
        MessageView::ChatJoin { account_id, chat } => seq![account_id, chat],
        MessageView::ChatLeave { account_id, chat } => seq![account_id, chat],
        MessageView::ChatMessage { account_id, chat, timestamp, sender, .. } => seq![
            account_id,
            chat,
            timestamp,
            sender,
        ],
        MessageView::ChatMessageSend { account_id, chat, .. } => seq![account_id, chat],
        MessageView::ChatUser { account_id, chat, user, alias, status } => seq![
            account_id,
            chat,
            user,
            alias,
            status,
        ],
        MessageView::ChatUserList { account_id, chat } => seq![account_id, chat],
        MessageView::ChatUserInvite { account_id, chat, user } => seq![account_id, chat, user],
        MessageView::Version => Seq::<Seq<char>>::empty(),
        MessageView::Bye => Seq::<Seq<char>>::empty(),
        MessageView::Quit => Seq::<Seq<char>>::empty(),
        MessageView::Help => Seq::<Seq<char>>::empty(),
    }
}

/// The free text at the end of the line of `m`, where it has one.
pub open spec fn free_text(m: MessageView) -> Option<Seq<char>> {
    match m {
        MessageView::Info { message } => Some(message),
        MessageView::Message { message, .. } => Some(message),
        MessageView::MessageSend { message, .. } => Some(message),
        MessageView::ChatMessage { message, .. } => Some(message),
        MessageView::ChatMessageSend { message, .. } => Some(message),
        _ => None,
    }
}

/// The words that the grammar reads in place of the account id of a command.
pub open spec fn is_subcommand(word: Seq<char>) -> bool {
    word == "list"@ || word == "add"@
}

/// `m` can cross the wire: each of its single-word fields holds no space, and
/// where it is a command with an account id, the id is neither `list` nor
/// `add`.
pub open spec fn representable(m: MessageView) -> bool {
    &&& all_free_of(word_fields(m), SPACE)
    &&& command_id(m) matches Some(id) ==> !is_subcommand(id)
}

/// The words of the line of `m` but for its free text.
spec fn fixed_words(m: MessageView) -> Seq<Seq<char>> {
    match m {
        MessageView::Info { .. } => seq!["info:"@],
        MessageView::Account { id, name, protocol, user, status } => seq![
            "account:"@,
            id,
            name,
            protocol,
            user,
            status,
        ],
        MessageView::AccountList => seq!["account"@, "list"@],
        MessageView::AccountAdd { protocol, user, password } => seq![
            "account"@,
            "add"@,
            protocol,
            user,
            password,
        ],
        MessageView::AccountDelete { id } => seq!["account"@, id, "delete"@],
        MessageView::Buddy { account_id, status, name, alias } => seq![
            "buddy:"@,
            account_id,
            "status:"@,
            status,
            "name:"@,
            name,
            "alias:"@,
            alias,
        ],
        MessageView::BuddyList { account_id, status } => seq![
            "account"@,
            account_id,
            "buddies"@,
            status,
        ],
        MessageView::Message { account_id, destination, timestamp, sender, .. } => seq![
            "message:"@,
            account_id,
            destination,
            timestamp,
            sender,
        ],
        MessageView::MessageCollect { account_id } => seq!["account"@, account_id, "collect"@],
        MessageView::MessageSend { account_id, destination, .. } => seq![
            "account"@,
            account_id,
            "send"@,
            destination,
        ],
        MessageView::Status { account_id, status } => seq![
            "status:"@,
            "account"@,
            account_id,
            "status:"@,
            status,
        ],
        MessageView::StatusGet { account_id } => seq!["account"@, account_id, "status"@, "get"@],
        MessageView::StatusSet { account_id, status } => seq![
            "account"@,
            account_id,
            "status"@,
            "set"@,
            status,
        ],
        MessageView::Chat { account_id, chat, alias, nick } => seq![
            "chat:"@,
            "list:"@,
            account_id,
            chat,
            alias,
            nick,
        ],
        MessageView::ChatList { account_id } => seq!["account"@, account_id, "chat"@, "list"@],
        MessageView::ChatJoin { account_id, chat } => seq![
            "account"@,
            account_id,
            "chat"@,
            "join"@,
            chat,
        ],
        MessageView::ChatLeave { account_id, chat } => seq![
            "account"@,
            account_id,
            "chat"@,
            "part"@,
            chat,
        ],
        MessageView::ChatMessage { account_id, chat, timestamp, sender, .. } => seq![
            "chat:"@,
            "msg:"@,
            account_id,
            chat,
            timestamp,
            sender,
        ],
        MessageView::ChatMessageSend { account_id, chat, .. } => seq![
            "account"@,
            account_id,
            "chat"@,
            "send"@,
            chat,
        ],
        MessageView::ChatUser { account_id, chat, user, alias, status } => seq![
            "chat:"@,
            "user:"@,
            account_id,
            chat,
            user,
            alias,
            status,
        ],
        MessageView::ChatUserList { account_id, chat } => seq![
            "account"@,
            account_id,
            "chat"@,
            "users"@,
            chat,
        ],
        MessageView::ChatUserInvite { account_id, chat, user } => seq![
            "account"@,
            account_id,
            "chat"@,
            "invite"@,
            chat,
            user,
        ],
        MessageView::Version => seq!["version"@],
        MessageView::Bye => seq!["bye"@],
        MessageView::Quit => seq!["quit"@],
        MessageView::Help => seq!["help"@],
    }
}

/// What splitting the line of `m` yields where its single-word fields hold no
/// space: its fixed words, then the pieces of its free text.
spec fn pieces_of(m: MessageView) -> Seq<Seq<char>> {
    match free_text(m) {
        Some(text) => fixed_words(m) + split(text, SPACE),
        None => fixed_words(m),
    }
}

/// The words of a line are its fixed words, then its free text.
proof fn lemma_words_of(m: MessageView)
    ensures
        words_of(m) == match free_text(m) {
            Some(text) => fixed_words(m).push(text),
            None => fixed_words(m),
        },
        fixed_words(m).len() >= 1,
{
    match free_text(m) {
        Some(text) => assert(words_of(m) =~= fixed_words(m).push(text)),
        None => assert(words_of(m) =~= fixed_words(m)),
    }
}

/// The keywords of the protocol: none holds a space, and those that the
/// grammar tells apart differ in their length or in their first character.
proof fn lemma_keywords()
    ensures
        free_of("info:"@, SPACE) && "info:"@.len() == 5 && "info:"@[0] == 'i',
        free_of("account:"@, SPACE) && "account:"@.len() == 8 && "account:"@[0] == 'a',
        free_of("account"@, SPACE) && "account"@.len() == 7 && "account"@[0] == 'a',
        free_of("list"@, SPACE) && "list"@.len() == 4 && "list"@[0] == 'l',
        free_of("add"@, SPACE) && "add"@.len() == 3 && "add"@[0] == 'a',
        free_of("delete"@, SPACE) && "delete"@.len() == 6 && "delete"@[0] == 'd',
        free_of("buddy:"@, SPACE) && "buddy:"@.len() == 6 && "buddy:"@[0] == 'b',
        free_of("status:"@, SPACE) && "status:"@.len() == 7 && "status:"@[0] == 's',
        free_of("name:"@, SPACE) && "name:"@.len() == 5 && "name:"@[0] == 'n',
        free_of("alias:"@, SPACE) && "alias:"@.len() == 6 && "alias:"@[0] == 'a',
        free_of("buddies"@, SPACE) && "buddies"@.len() == 7 && "buddies"@[0] == 'b',
        free_of("message:"@, SPACE) && "message:"@.len() == 8 && "message:"@[0] == 'm',
        free_of("collect"@, SPACE) && "collect"@.len() == 7 && "collect"@[0] == 'c',
        free_of("send"@, SPACE) && "send"@.len() == 4 && "send"@[0] == 's',
        free_of("status"@, SPACE) && "status"@.len() == 6 && "status"@[0] == 's',
        free_of("get"@, SPACE) && "get"@.len() == 3 && "get"@[0] == 'g',
        free_of("set"@, SPACE) && "set"@.len() == 3 && "set"@[0] == 's',
        free_of("chat:"@, SPACE) && "chat:"@.len() == 5 && "chat:"@[0] == 'c',
        free_of("list:"@, SPACE) && "list:"@.len() == 5 && "list:"@[0] == 'l',
        free_of("chat"@, SPACE) && "chat"@.len() == 4 && "chat"@[0] == 'c',
        free_of("join"@, SPACE) && "join"@.len() == 4 && "join"@[0] == 'j',
        free_of("part"@, SPACE) && "part"@.len() == 4 && "part"@[0] == 'p',
        free_of("msg:"@, SPACE) && "msg:"@.len() == 4 && "msg:"@[0] == 'm',
        free_of("user:"@, SPACE) && "user:"@.len() == 5 && "user:"@[0] == 'u',
        free_of("users"@, SPACE) && "users"@.len() == 5 && "users"@[0] == 'u',
        free_of("invite"@, SPACE) && "invite"@.len() == 6 && "invite"@[0] == 'i',
        free_of("version"@, SPACE) && "version"@.len() == 7 && "version"@[0] == 'v',
        free_of("bye"@, SPACE) && "bye"@.len() == 3 && "bye"@[0] == 'b',
        free_of("quit"@, SPACE) && "quit"@.len() == 4 && "quit"@[0] == 'q',
        free_of("help"@, SPACE) && "help"@.len() == 4 && "help"@[0] == 'h',
{
    reveal_strlit("info:");
    reveal_strlit("account:");
    reveal_strlit("account");
    reveal_strlit("list");
    reveal_strlit("add");
    reveal_strlit("delete");
    reveal_strlit("buddy:");
    reveal_strlit("status:");
    reveal_strlit("name:");
    reveal_strlit("alias:");
    reveal_strlit("buddies");
    reveal_strlit("message:");
    reveal_strlit("collect");
    reveal_strlit("send");
    reveal_strlit("status");
    reveal_strlit("get");
    reveal_strlit("set");
    reveal_strlit("chat:");
    reveal_strlit("list:");
    reveal_strlit("chat");
    reveal_strlit("join");
    reveal_strlit("part");
    reveal_strlit("msg:");
    reveal_strlit("user:");
    reveal_strlit("users");
    reveal_strlit("invite");
    reveal_strlit("version");
    reveal_strlit("bye");
    reveal_strlit("quit");
    reveal_strlit("help");
}

/// The fixed words of a line hold no space where its single-word fields hold
/// none: no keyword does.
proof fn lemma_fixed_words_free(m: MessageView)
    requires
        all_free_of(word_fields(m), SPACE),
    ensures
        all_free_of(fixed_words(m), SPACE),
{
    lemma_keywords();
    let fields = word_fields(m);
    assert forall|j: int| 0 <= j < fields.len() implies free_of(fields[j], SPACE) by {
        assert(free_of(fields[j], SPACE));
    }
    match m {
        MessageView::Info { .. } => {},
        MessageView::Account { id, name, protocol, user, status } => {
            assert(fields[0] == id);
            assert(fields[1] == name);
            assert(fields[2] == protocol);
            assert(fields[3] == user);
            assert(fields[4] == status);
        },
        MessageView::AccountList => {},
        MessageView::AccountAdd { protocol, user, password } => {
            assert(fields[0] == protocol);
            assert(fields[1] == user);
            assert(fields[2] == password);
        },
        MessageView::AccountDelete { id } => {
            assert(fields[0] == id);
        },
        MessageView::Buddy { account_id, status, name, alias } => {
            assert(fields[0] == account_id);
            assert(fields[1] == status);
            assert(fields[2] == name);
            assert(fields[3] == alias);
        },
        MessageView::BuddyList { account_id, status } => {
            assert(fields[0] == account_id);
            assert(fields[1] == status);
        },
        MessageView::Message { account_id, destination, timestamp, sender, .. } => {
            assert(fields[0] == account_id);
            assert(fields[1] == destination);
            assert(fields[2] == timestamp);
            assert(fields[3] == sender);
        },
        MessageView::MessageCollect { account_id } => {
            assert(fields[0] == account_id);
        },
        MessageView::MessageSend { account_id, destination, .. } => {
            assert(fields[0] == account_id);
            assert(fields[1] == destination);
        },
        MessageView::Status { account_id, status } => {
            assert(fields[0] == account_id);
            assert(fields[1] == status);
        },
        MessageView::StatusGet { account_id } => {
            assert(fields[0] == account_id);
        },
        MessageView::StatusSet { account_id, status } => {
            assert(fields[0] == account_id);
            assert(fields[1] == status);
        },
        MessageView::Chat { account_id, chat, alias, nick } => {
            assert(fields[0] == account_id);
            assert(fields[1] == chat);
            assert(fields[2] == alias);
            assert(fields[3] == nick);
        },
        MessageView::ChatList { account_id } => {
            assert(fields[0] == account_id);
        },
        MessageView::ChatJoin { account_id, chat } => {
            assert(fields[0] == account_id);
            assert(fields[1] == chat);
        },
        MessageView::ChatLeave { account_id, chat } => {
            assert(fields[0] == account_id);
            assert(fields[1] == chat);
        },
        MessageView::ChatMessage { account_id, chat, timestamp, sender, .. } => {
            assert(fields[0] == account_id);
            assert(fields[1] == chat);
            assert(fields[2] == timestamp);
            assert(fields[3] == sender);
        },
        MessageView::ChatMessageSend { account_id, chat, .. } => {
            assert(fields[0] == account_id);
            assert(fields[1] == chat);
        },
        MessageView::ChatUser { account_id, chat, user, alias, status } => {
            assert(fields[0] == account_id);
            assert(fields[1] == chat);
            assert(fields[2] == user);
            assert(fields[3] == alias);
            assert(fields[4] == status);
        },
        MessageView::ChatUserList { account_id, chat } => {
            assert(fields[0] == account_id);
            assert(fields[1] == chat);
        },
        MessageView::ChatUserInvite { account_id, chat, user } => {
            assert(fields[0] == account_id);
            assert(fields[1] == chat);
            assert(fields[2] == user);
        },
        MessageView::Version => {},
        MessageView::Bye => {},
        MessageView::Quit => {},
        MessageView::Help => {},
    }
}

/// Splitting the rendered words of `m` yields its pieces.
proof fn lemma_split_rendered(m: MessageView)
    requires
        all_free_of(word_fields(m), SPACE),
    ensures
        split(join(words_of(m), SPACE), SPACE) == pieces_of(m),
{
    lemma_words_of(m);
    lemma_fixed_words_free(m);
    match free_text(m) {
        Some(text) => lemma_split_join_tail(fixed_words(m), text, SPACE),
        None => lemma_split_join(fixed_words(m), SPACE),
    }
}

/// Parsing the pieces of a representable message gives the message.
proof fn lemma_parse_pieces(m: MessageView)
    requires
        representable(m),
    ensures
        message_from_words(pieces_of(m)) == Some(m),
{
    lemma_keywords();
    let pieces = pieces_of(m);
    let fixed = fixed_words(m);
    match free_text(m) {
        Some(text) => {
            lemma_split_nonempty(text, SPACE);
            lemma_join_split(text, SPACE);
            assert(pieces.skip(fixed.len() as int) =~= split(text, SPACE));
        },
        None => {},
    }
    match m {
        MessageView::Info { .. } => assert(message_from_words(pieces) == Some(m)),
        MessageView::Account { .. } => assert(message_from_words(pieces) == Some(m)),
        MessageView::AccountList => assert(message_from_words(pieces) == Some(m)),
        MessageView::AccountAdd { .. } => assert(message_from_words(pieces) == Some(m)),
        MessageView::AccountDelete { .. } => assert(message_from_words(pieces) == Some(m)),
        MessageView::Buddy { .. } => assert(message_from_words(pieces) == Some(m)),
        MessageView::BuddyList { .. } => assert(message_from_words(pieces) == Some(m)),
        MessageView::Message { .. } => assert(message_from_words(pieces) == Some(m)),
        MessageView::MessageCollect { .. } => assert(message_from_words(pieces) == Some(m)),
        MessageView::MessageSend { .. } => assert(message_from_words(pieces) == Some(m)),
        MessageView::Status { .. } => assert(message_from_words(pieces) == Some(m)),
        MessageView::StatusGet { .. } => assert(message_from_words(pieces) == Some(m)),
        MessageView::StatusSet { .. } => assert(message_from_words(pieces) == Some(m)),
        MessageView::Chat { .. } => assert(message_from_words(pieces) == Some(m)),
        MessageView::ChatList { .. } => assert(message_from_words(pieces) == Some(m)),
        MessageView::ChatJoin { .. } => assert(message_from_words(pieces) == Some(m)),
        MessageView::ChatLeave { .. } => assert(message_from_words(pieces) == Some(m)),
        MessageView::ChatMessage { .. } => assert(message_from_words(pieces) == Some(m)),
        MessageView::ChatMessageSend { .. } => assert(message_from_words(pieces) == Some(m)),
        MessageView::ChatUser { .. } => assert(message_from_words(pieces) == Some(m)),
        MessageView::ChatUserList { .. } => assert(message_from_words(pieces) == Some(m)),
        MessageView::ChatUserInvite { .. } => assert(message_from_words(pieces) == Some(m)),
        MessageView::Version => assert(message_from_words(pieces) == Some(m)),
        MessageView::Bye => assert(message_from_words(pieces) == Some(m)),
        MessageView::Quit => assert(message_from_words(pieces) == Some(m)),
        MessageView::Help => assert(message_from_words(pieces) == Some(m)),
    }
}

/// The fields that the grammar takes from single words hold no space.
proof fn lemma_parsed_fields_free(w: Seq<Seq<char>>)
    requires
        all_free_of(w, SPACE),
    ensures
        message_from_words(w) matches Some(m) ==> all_free_of(word_fields(m), SPACE),
{
    assert(free_of(Seq::<char>::empty(), SPACE));
    assert forall|i: int| 0 <= i < w.len() implies free_of(w[i], SPACE) by {
        assert(free_of(w[i], SPACE));
    }
}

/// A command whose account id is `list` or `add` is read as another message.
proof fn lemma_parse_subcommand_id(m: MessageView)
    requires
        command_id(m) matches Some(id) && is_subcommand(id),
    ensures
        message_from_words(pieces_of(m)) != Some(m),
{
    lemma_keywords();
    let pieces = pieces_of(m);
    match free_text(m) {
        Some(text) => lemma_split_nonempty(text, SPACE),
        None => {},
    }
    assert(pieces[0] == "account"@);
    assert(is_subcommand(pieces[1]));
}

/// Parsing the rendered line of a message gives the message back if and only
/// if the message is representable.
pub proof fn lemma_round_trip(m: MessageView)
    ensures
        message_from_line(line_of(m)) == Some(m) <==> representable(m),
{
    let body = join(words_of(m), SPACE);
    let line = line_of(m);
    assert(line.take(line.len() - 2) =~= body);
    if all_free_of(word_fields(m), SPACE) {
        lemma_split_rendered(m);
        if representable(m) {
            lemma_parse_pieces(m);
        } else {
            lemma_parse_subcommand_id(m);
        }
    } else {
        lemma_split_pieces_free(body, SPACE);
        lemma_parsed_fields_free(split(body, SPACE));
    }
}

/// Every representable message survives the wire: parsing its rendered line
/// gives it back.
pub proof fn lemma_parse_rendered(m: MessageView)
    requires
        representable(m),
    ensures
        message_from_line(line_of(m)) == Some(m),
{
    lemma_round_trip(m);
}

} // verus!
