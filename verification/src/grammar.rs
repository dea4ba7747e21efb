//! The grammar of the bridge protocol: from a line to the message it stands for.
//!
//! A line is stripped of its terminator and split at every single space. The
//! first word, for notifications about chats the first two, selects the rule.
//! A rule checks that the line has enough words for its fields and takes each
//! field from a fixed position; a free text is the rest of the line, that is
//! all remaining words joined by single spaces. Words beyond those that a rule
//! reads are ignored. A line that no rule accepts stands for no message.

use crate::message::{Message, MessageView};
use crate::text::{chars_of, join, join_from, same_text, split, split_chars, views, SPACE};
use vstd::prelude::*;

verus! {

/// The content of a parse result.
pub open spec fn view_of(r: Option<Message>) -> Option<MessageView> {
    match r {
        Some(m) => Some(m@),
        None => None,
    }
}

/// The word at position `i`, or the empty text where the line has no such word.
pub open spec fn word_or_empty(w: Seq<Seq<char>>, i: int) -> Seq<char> {
    if 0 <= i < w.len() {
        w[i]
    } else {
        Seq::<char>::empty()
    }
}

/// `info: <msg>`
pub open spec fn info_from(w: Seq<Seq<char>>) -> Option<MessageView> {
    if w.len() < 2 {
        None
    } else {
        Some(MessageView::Info { message: join(w.skip(1), SPACE) })
    }
}

/// `message: <id> <dest> <ts> <sender> <msg>`
pub open spec fn message_from(w: Seq<Seq<char>>) -> Option<MessageView> {
    if w.len() < 6 {
        None
    } else {
        Some(
            MessageView::Message {
                account_id: w[1],
                destination: w[2],
                timestamp: w[3],
                sender: w[4],
                message: join(w.skip(5), SPACE),
            },
        )
    }
}

/// `status: account <id> status: <status>`
pub open spec fn status_from(w: Seq<Seq<char>>) -> Option<MessageView> {
    if w.len() < 5 {
        None
    } else {
        Some(MessageView::Status { account_id: w[2], status: w[4] })
    }
}

/// `account: <id> <name> <protocol> <user> <status>`
pub open spec fn account_from(w: Seq<Seq<char>>) -> Option<MessageView> {
    if w.len() < 6 {
        None
    } else {
        Some(
            MessageView::Account {
                id: w[1],
                name: w[2],
                protocol: w[3],
                user: w[4],
                status: w[5],
            },
        )
    }
}

/// `account <id> status get` and `account <id> status set <status>`
pub open spec fn status_command_from(w: Seq<Seq<char>>) -> Option<MessageView> {
    if w.len() < 4 {
        None
    } else if w[3] == "get"@ {
        Some(MessageView::StatusGet { account_id: w[1] })
    } else if w[3] == "set"@ {
        if w.len() < 5 {
            None
        } else {
            Some(MessageView::StatusSet { account_id: w[1], status: w[4] })
        }
    } else {
        None
    }
}

/// `account <id> chat list`, `join <chat>`, `part <chat>`, `send <chat> <msg>`,
/// `users <chat>` and `invite <chat> <user>`
pub open spec fn chat_command_from(w: Seq<Seq<char>>) -> Option<MessageView> {
    if w.len() < 4 {
        None
    } else if w[3] == "list"@ {
        Some(MessageView::ChatList { account_id: w[1] })
    } else if w[3] == "join"@ {
        if w.len() < 5 {
            None
        } else {
            Some(MessageView::ChatJoin { account_id: w[1], chat: w[4] })
        }
    } else if w[3] == "part"@ {
        if w.len() < 5 {
            None
        } else {
            Some(MessageView::ChatLeave { account_id: w[1], chat: w[4] })
        }
    } else if w[3] == "send"@ {
        if w.len() < 6 {
            None
        } else {
            Some(
                MessageView::ChatMessageSend {
                    account_id: w[1],
                    chat: w[4],
                    message: join(w.skip(5), SPACE),
                },
            )
        }
    } else if w[3] == "users"@ {
        if w.len() < 5 {
            None
        } else {
            Some(MessageView::ChatUserList { account_id: w[1], chat: w[4] })
        }
    } else if w[3] == "invite"@ {
        if w.len() < 6 {
            None
        } else {
            Some(MessageView::ChatUserInvite { account_id: w[1], chat: w[4], user: w[5] })
        }
    } else {
        None
    }
}

/// The commands that start with `account`: `list` and `add` take no account
/// id; in all others the second word is the id and the third the command.
pub open spec fn account_command_from(w: Seq<Seq<char>>) -> Option<MessageView> {
    if w.len() < 2 {
        None
    } else if w[1] == "list"@ {
        Some(MessageView::AccountList)
    } else if w[1] == "add"@ {
        if w.len() < 5 {
            None
        } else {
            Some(MessageView::AccountAdd { protocol: w[2], user: w[3], password: w[4] })
        }
    } else if w.len() < 3 {
        None
    } else if w[2] == "delete"@ {
        Some(MessageView::AccountDelete { id: w[1] })
    } else if w[2] == "buddies"@ {
        Some(MessageView::BuddyList { account_id: w[1], status: word_or_empty(w, 3) })
    } else if w[2] == "collect"@ {
        Some(MessageView::MessageCollect { account_id: w[1] })
    } else if w[2] == "send"@ {
        if w.len() < 5 {
            None
        } else {
            Some(
                MessageView::MessageSend {
                    account_id: w[1],
                    destination: w[3],
                    message: join(w.skip(4), SPACE),
                },
            )
        }
    } else if w[2] == "status"@ {
        status_command_from(w)
    } else if w[2] == "chat"@ {
        chat_command_from(w)
    } else {
        None
    }
}

/// `buddy: <id> status: <status> name: <name> alias: [<alias>]`
pub open spec fn buddy_from(w: Seq<Seq<char>>) -> Option<MessageView> {
    if w.len() < 7 {
        None
    } else {
        Some(
            MessageView::Buddy {
                account_id: w[1],
                status: w[3],
                name: w[5],
                alias: word_or_empty(w, 7),
            },
        )
    }
}

/// `chat: msg: <id> <chat> <ts> <sender> <msg>`, `chat: list: <id> <chat>
/// <alias> <nick>` and `chat: user: <id> <chat> <user> <alias> <status>`
pub open spec fn chat_from(w: Seq<Seq<char>>) -> Option<MessageView> {
    if w.len() < 6 {
        None
    } else if w[1] == "msg:"@ {
        if w.len() < 7 {
            None
        } else {
            Some(
                MessageView::ChatMessage {
                    account_id: w[2],
                    chat: w[3],
                    timestamp: w[4],
                    sender: w[5],
                    message: join(w.skip(6), SPACE),
                },
            )
        }
    } else if w[1] == "list:"@ {
        Some(MessageView::Chat { account_id: w[2], chat: w[3], alias: w[4], nick: w[5] })
    } else if w[1] == "user:"@ {
        if w.len() < 7 {
            None
        } else {
            Some(
                MessageView::ChatUser {
                    account_id: w[2],
                    chat: w[3],
                    user: w[4],
                    alias: w[5],
                    status: w[6],
                },
            )
        }
    } else {
        None
    }
}

/// The message that the words of a line stand for: the first word selects the
/// rule.
pub open spec fn message_from_words(w: Seq<Seq<char>>) -> Option<MessageView> {
    if w.len() == 0 {
        None
    } else if w[0] == "info:"@ {
        info_from(w)
    } else if w[0] == "account:"@ {
        account_from(w)
    } else if w[0] == "account"@ {
        account_command_from(w)
    } else if w[0] == "buddy:"@ {
        buddy_from(w)
    } else if w[0] == "message:"@ {
        message_from(w)
    } else if w[0] == "status:"@ {
        status_from(w)
    } else if w[0] == "chat:"@ {
        chat_from(w)
    } else if w[0] == "version"@ {
        Some(MessageView::Version)
    } else if w[0] == "bye"@ {
        Some(MessageView::Bye)
    } else if w[0] == "quit"@ {
        Some(MessageView::Quit)
    } else if w[0] == "help"@ {
        Some(MessageView::Help)
    } else {
        None
    }
}

/// The line ends with a carriage return and a line feed.
pub open spec fn has_line_end(line: Seq<char>) -> bool {
    &&& line.len() >= 2
    &&& line[line.len() - 2] == '\r'
    &&& line[line.len() - 1] == '\n'
}

/// The message that a line stands for. A line without the terminator stands
/// for none.
pub open spec fn message_from_line(line: Seq<char>) -> Option<MessageView> {
    if has_line_end(line) {
        message_from_words(split(line.take(line.len() - 2), SPACE))
    } else {
        None
    }
}

/// Parses one line, terminator included.
pub fn parse(s: &str) -> (r: Option<Message>)
    ensures
        view_of(r) == message_from_line(s@),
{
    let chars = chars_of(s);
    let n = chars.len();
    if n < 2 || chars[n - 2] != '\r' || chars[n - 1] != '\n' {
        return None;
    }
    let s = split_chars(&chars, n - 2, SPACE);
    if s.len() == 0 {
        return None;
    }
    let first = s[0].as_str();
    if same_text(first, "info:") {
        parse_info(&s)
    } else if same_text(first, "account:") {
        parse_account(&s)
    } else if same_text(first, "account") {
        parse_account_command(&s)
    } else if same_text(first, "buddy:") {
        parse_buddy(&s)
    } else if same_text(first, "message:") {
        parse_message(&s)
    } else if same_text(first, "status:") {
        parse_status(&s)
    } else if same_text(first, "chat:") {
        parse_chat(&s)
    } else if same_text(first, "version") {
        Some(Message::Version)
    } else if same_text(first, "bye") {
        Some(Message::Bye)
    } else if same_text(first, "quit") {
        Some(Message::Quit)
    } else if same_text(first, "help") {
        Some(Message::Help)
    } else {
        None
    }
}

/// Parses the words of `message: <id> <dest> <ts> <sender> <msg>`.
pub fn parse_message(s: &Vec<String>) -> (r: Option<Message>)
    ensures
        view_of(r) == message_from(views(s@)),
{
    if s.len() < 6 {
        return None;
    }
    Some(
        Message::Message {
            account_id: s[1].clone(),
            destination: s[2].clone(),
            timestamp: s[3].clone(),
            sender: s[4].clone(),
            message: join_from(s, 5, SPACE),
        },
    )
}

/// Parses the words of `status: account <id> status: <status>`.
pub fn parse_status(s: &Vec<String>) -> (r: Option<Message>)
    ensures
        view_of(r) == status_from(views(s@)),
{
    if s.len() < 5 {
        return None;
    }
    Some(Message::Status { account_id: s[2].clone(), status: s[4].clone() })
}

/// Parses the words of `account: <id> <name> <protocol> <user> <status>`.
pub fn parse_account(s: &Vec<String>) -> (r: Option<Message>)
    ensures
        view_of(r) == account_from(views(s@)),
{
    if s.len() < 6 {
        return None;
    }
    Some(
        Message::Account {
            id: s[1].clone(),
            name: s[2].clone(),
            protocol: s[3].clone(),
            user: s[4].clone(),
            status: s[5].clone(),
        },
    )
}

/// Parses the words of a command that starts with `account`.
pub fn parse_account_command(s: &Vec<String>) -> (r: Option<Message>)
    ensures
        view_of(r) == account_command_from(views(s@)),
{
    if s.len() < 2 {
        return None;
    }
    // account list
    // account add <protocol> <user> <password>
    let second = s[1].as_str();
    if same_text(second, "list") {
        return Some(Message::AccountList);
    }
    if same_text(second, "add") {
        if s.len() < 5 {
            return None;
        }
        return Some(
            Message::AccountAdd {
                protocol: s[2].clone(),
                user: s[3].clone(),
                password: s[4].clone(),
            },
        );
    }
    if s.len() < 3 {
        return None;
    }
    let third = s[2].as_str();

    // account <id> delete
    if same_text(third, "delete") {
        return Some(Message::AccountDelete { id: s[1].clone() });
    }
    // account <id> buddies [<status>]

    if same_text(third, "buddies") {
        let status = if s.len() > 3 {
            s[3].clone()
        } else {
            String::new()
        };
        return Some(Message::BuddyList { account_id: s[1].clone(), status });
    }
    // account <id> collect

    if same_text(third, "collect") {
        return Some(Message::MessageCollect { account_id: s[1].clone() });
    }
    // account <id> send <dest> <msg>

    if same_text(third, "send") {
        if s.len() < 5 {
            return None;
        }
        return Some(
            Message::MessageSend {
                account_id: s[1].clone(),
                destination: s[3].clone(),
                message: join_from(s, 4, SPACE),
            },
        );
    }
    // account <id> status get
    // account <id> status set <status>

    if same_text(third, "status") {
        if s.len() < 4 {
            return None;
        }
        let fourth = s[3].as_str();
        if same_text(fourth, "get") {
            return Some(Message::StatusGet { account_id: s[1].clone() });
        }
        if same_text(fourth, "set") {
            if s.len() < 5 {
                return None;
            }
            return Some(Message::StatusSet { account_id: s[1].clone(), status: s[4].clone() });
        }
        return None;
    }
    // account <id> chat list
    // account <id> chat join <chat>
    // account <id> chat part <chat>
    // account <id> chat send <chat> <msg>
    // account <id> chat users <chat>
    // account <id> chat invite <chat> <user>

    if same_text(third, "chat") {
        if s.len() < 4 {
            return None;
        }
        let fourth = s[3].as_str();
        if same_text(fourth, "list") {
            return Some(Message::ChatList { account_id: s[1].clone() });
        }
        if same_text(fourth, "join") {
            if s.len() < 5 {
                return None;
            }
            return Some(Message::ChatJoin { account_id: s[1].clone(), chat: s[4].clone() });
        }
        if same_text(fourth, "part") {
            if s.len() < 5 {
                return None;
            }
            return Some(Message::ChatLeave { account_id: s[1].clone(), chat: s[4].clone() });
        }
        if same_text(fourth, "send") {
            if s.len() < 6 {
                return None;
            }
            return Some(
                Message::ChatMessageSend {
                    account_id: s[1].clone(),
                    chat: s[4].clone(),
                    message: join_from(s, 5, SPACE),
                },
            );
        }
        if same_text(fourth, "users") {
            if s.len() < 5 {
                return None;
            }
            return Some(Message::ChatUserList { account_id: s[1].clone(), chat: s[4].clone() });
        }
        if same_text(fourth, "invite") {
            if s.len() < 6 {
                return None;
            }
            return Some(
                Message::ChatUserInvite {
                    account_id: s[1].clone(),
                    chat: s[4].clone(),
                    user: s[5].clone(),
                },
            );
        }
        return None;
    }
    None
}

/// Parses the words of `buddy: <id> status: <status> name: <name> alias:
/// [<alias>]`.
pub fn parse_buddy(s: &Vec<String>) -> (r: Option<Message>)
    ensures
        view_of(r) == buddy_from(views(s@)),
{
    if s.len() < 7 {
        return None;
    }
    let alias = if s.len() > 7 {
        s[7].clone()
    } else {
        String::new()
    };
    Some(
        Message::Buddy {
            account_id: s[1].clone(),
            status: s[3].clone(),
            name: s[5].clone(),
            alias,
        },
    )
}

/// Parses the words of a notification that starts with `chat:`.
pub fn parse_chat(s: &Vec<String>) -> (r: Option<Message>)
    ensures
        view_of(r) == chat_from(views(s@)),
{
    if s.len() < 6 {
        return None;
    }
    let second = s[1].as_str();
    if same_text(second, "msg:") {
        if s.len() < 7 {
            return None;
        }
        Some(
            Message::ChatMessage {
                account_id: s[2].clone(),
                chat: s[3].clone(),
                timestamp: s[4].clone(),
                sender: s[5].clone(),
                message: join_from(s, 6, SPACE),
            },
        )
    } else if same_text(second, "list:") {
        Some(
            Message::Chat {
                account_id: s[2].clone(),
                chat: s[3].clone(),
                alias: s[4].clone(),
                nick: s[5].clone(),
            },
        )
    } else if same_text(second, "user:") {
        if s.len() < 7 {
            return None;
        }
        Some(
            Message::ChatUser {
                account_id: s[2].clone(),
                chat: s[3].clone(),
                user: s[4].clone(),
                alias: s[5].clone(),
                status: s[6].clone(),
            },
        )
    } else {
        None
    }
}

/// Parses the words of `info: <msg>`.
pub fn parse_info(s: &Vec<String>) -> (r: Option<Message>)
    ensures
        view_of(r) == info_from(views(s@)),
{
    if s.len() < 2 {
        return None;
    }
    Some(Message::Info { message: join_from(s, 1, SPACE) })
}

impl std::str::FromStr for Message {
    type Err = ();

    fn from_str(s: &str) -> (r: Result<Self, Self::Err>)
        ensures
            match r {
                Ok(message) => message_from_line(s@) == Some(message@),
                Err(_) => message_from_line(s@) is None,
            },
    {
        match parse(s) {
            Some(message) => Ok(message),
            None => Err(()),
        }
    }
}

} // verus!
