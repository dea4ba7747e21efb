//! The messages of the bridge protocol and their lines on the wire.
//!
//! A line is made of words separated by single spaces and ends with a carriage
//! return and a line feed. Commands of the client start with a plain keyword,
//! notifications of the daemon with a keyword that ends in a colon. A free
//! text, where a message has one, is its last field and may hold spaces.

use crate::text::{join, join_words, slice_views, SPACE};
use vstd::prelude::*;

verus! {

/// A message of the bridge protocol.
#[derive(Debug, PartialEq, Eq)]
pub enum Message {
    /// Informational text: `info: <msg>`.
    Info {
        message: String,
    },
    /// An account: `account: <id> <name> <protocol> <user> <status>`.
    Account {
        id: String,
        name: String,
        protocol: String,
        user: String,
        status: String,
    },
    /// List the accounts: `account list`.
    AccountList,
    /// Add an account: `account add <protocol> <user> <password>`.
    AccountAdd {
        protocol: String,
        user: String,
        password: String,
    },
    /// Delete an account: `account <id> delete`.
    AccountDelete {
        id: String,
    },
    /// A buddy: `buddy: <id> status: <status> name: <name> alias: [<alias>]`.
    Buddy {
        account_id: String,
        status: String,
        name: String,
        alias: String,
    },
    /// List the buddies: `account <id> buddies [<status>]`.
    BuddyList {
        account_id: String,
        status: String,
    },
    /// A delivered message: `message: <id> <dest> <ts> <sender> <msg>`.
    Message {
        account_id: String,
        destination: String,
        timestamp: String,
        sender: String,
        message: String,
    },
    /// Collect old messages: `account <id> collect`.
    MessageCollect {
        account_id: String,
    },
    /// Send a message: `account <id> send <dest> <msg>`.
    MessageSend {
        account_id: String,
        destination: String,
        message: String,
    },
    /// A status: `status: account <id> status: <status>`.
    Status {
        account_id: String,
        status: String,
    },
    /// Get the status: `account <id> status get`.
    StatusGet {
        account_id: String,
    },
    /// Set the status: `account <id> status set <status>`.
    StatusSet {
        account_id: String,
        status: String,
    },
    /// A chat: `chat: list: <id> <chat> <alias> <nick>`.
    Chat {
        account_id: String,
        chat: String,
        alias: String,
        nick: String,
    },
    /// List the chats: `account <id> chat list`.
    ChatList {
        account_id: String,
    },
    /// Join a chat: `account <id> chat join <chat>`.
    ChatJoin {
        account_id: String,
        chat: String,
    },
    /// Leave a chat: `account <id> chat part <chat>`.
    ChatLeave {
        account_id: String,
        chat: String,
    },
    /// A chat message: `chat: msg: <id> <chat> <ts> <sender> <msg>`.
    ChatMessage {
        account_id: String,
        chat: String,
        timestamp: String,
        sender: String,
        message: String,
    },
    /// Send a chat message: `account <id> chat send <chat> <msg>`.
    ChatMessageSend {
        account_id: String,
        chat: String,
        message: String,
    },
    /// A chat user: `chat: user: <id> <chat> <user> <alias> <status>`.
    ChatUser {
        account_id: String,
        chat: String,
        user: String,
        alias: String,
        status: String,
    },
    /// List the users of a chat: `account <id> chat users <chat>`.
    ChatUserList {
        account_id: String,
        chat: String,
    },
    /// Invite a user to a chat: `account <id> chat invite <chat> <user>`.
    ChatUserInvite {
        account_id: String,
        chat: String,
        user: String,
    },
    /// Ask for the version: `version`.
    Version,
    /// Disconnect: `bye`.
    Bye,
    /// Shut the daemon down: `quit`.
    Quit,
    /// Ask for help: `help`.
    Help,
}

/// The mathematical content of a [`Message`]: the same variants, with each
/// field as a sequence of characters.
pub ghost enum MessageView {
    /// Informational text: `info: <msg>`.
    Info {
        message: Seq<char>,
    },
    /// An account: `account: <id> <name> <protocol> <user> <status>`.
    Account {
        id: Seq<char>,
        name: Seq<char>,
        protocol: Seq<char>,
        user: Seq<char>,
        status: Seq<char>,
    },
    /// List the accounts: `account list`.
    AccountList,
    /// Add an account: `account add <protocol> <user> <password>`.
    AccountAdd {
        protocol: Seq<char>,
        user: Seq<char>,
        password: Seq<char>,
    },
    /// Delete an account: `account <id> delete`.
    AccountDelete {
        id: Seq<char>,
    },
    /// A buddy: `buddy: <id> status: <status> name: <name> alias: [<alias>]`.
    Buddy {
        account_id: Seq<char>,
        status: Seq<char>,
        name: Seq<char>,
        alias: Seq<char>,
    },
    /// List the buddies: `account <id> buddies [<status>]`.
    BuddyList {
        account_id: Seq<char>,
        status: Seq<char>,
    },
    /// A delivered message: `message: <id> <dest> <ts> <sender> <msg>`.
    Message {
        account_id: Seq<char>,
        destination: Seq<char>,
        timestamp: Seq<char>,
        sender: Seq<char>,
        message: Seq<char>,
    },
    /// Collect old messages: `account <id> collect`.
    MessageCollect {
        account_id: Seq<char>,
    },
    /// Send a message: `account <id> send <dest> <msg>`.
    MessageSend {
        account_id: Seq<char>,
        destination: Seq<char>,
        message: Seq<char>,
    },
    /// A status: `status: account <id> status: <status>`.
    Status {
        account_id: Seq<char>,
        status: Seq<char>,
    },
    /// Get the status: `account <id> status get`.
    StatusGet {
        account_id: Seq<char>,
    },
    /// Set the status: `account <id> status set <status>`.
    StatusSet {
        account_id: Seq<char>,
        status: Seq<char>,
    },
    /// A chat: `chat: list: <id> <chat> <alias> <nick>`.
    Chat {
        account_id: Seq<char>,
        chat: Seq<char>,
        alias: Seq<char>,
        nick: Seq<char>,
    },
    /// List the chats: `account <id> chat list`.
    ChatList {
        account_id: Seq<char>,
    },
    /// Join a chat: `account <id> chat join <chat>`.
    ChatJoin {
        account_id: Seq<char>,
        chat: Seq<char>,
    },
    /// Leave a chat: `account <id> chat part <chat>`.
    ChatLeave {
        account_id: Seq<char>,
        chat: Seq<char>,
    },
    /// A chat message: `chat: msg: <id> <chat> <ts> <sender> <msg>`.
    ChatMessage {
        account_id: Seq<char>,
        chat: Seq<char>,
        timestamp: Seq<char>,
        sender: Seq<char>,
        message: Seq<char>,
    },
    /// Send a chat message: `account <id> chat send <chat> <msg>`.
    ChatMessageSend {
        account_id: Seq<char>,
        chat: Seq<char>,
        message: Seq<char>,
    },
    /// A chat user: `chat: user: <id> <chat> <user> <alias> <status>`.
    ChatUser {
        account_id: Seq<char>,
        chat: Seq<char>,
        user: Seq<char>,
        alias: Seq<char>,
        status: Seq<char>,
    },
    /// List the users of a chat: `account <id> chat users <chat>`.
    ChatUserList {
        account_id: Seq<char>,
        chat: Seq<char>,
    },
    /// Invite a user to a chat: `account <id> chat invite <chat> <user>`.
    ChatUserInvite {
        account_id: Seq<char>,
        chat: Seq<char>,
        user: Seq<char>,
    },
    /// Ask for the version: `version`.
    Version,
    /// Disconnect: `bye`.
    Bye,
    /// Shut the daemon down: `quit`.
    Quit,
    /// Ask for help: `help`.
    Help,
}

impl View for Message {
    type V = MessageView;

    open spec fn view(&self) -> MessageView {
        match self {
            Message::Info { message } => MessageView::Info { message: message@ },
            Message::Account { id, name, protocol, user, status } => MessageView::Account {
                id: id@,
                name: name@,
                protocol: protocol@,
                user: user@,
                status: status@,
            },
            Message::AccountList => MessageView::AccountList,
            Message::AccountAdd { protocol, user, password } => MessageView::AccountAdd {
                protocol: protocol@,
                user: user@,
                password: password@,
            },
            Message::AccountDelete { id } => MessageView::AccountDelete { id: id@ },
            Message::Buddy { account_id, status, name, alias } => MessageView::Buddy {
                account_id: account_id@,
                status: status@,
                name: name@,
                alias: alias@,
            },
            Message::BuddyList { account_id, status } => MessageView::BuddyList {
                account_id: account_id@,
                status: status@,
            },
            Message::Message {
                account_id,
                destination,
                timestamp,
                sender,
                message,
            } => MessageView::Message {
                account_id: account_id@,
                destination: destination@,
                timestamp: timestamp@,
                sender: sender@,
                message: message@,
            },
            Message::MessageCollect { account_id } => MessageView::MessageCollect {
                account_id: account_id@,
            },
            Message::MessageSend { account_id, destination, message } => MessageView::MessageSend {
                account_id: account_id@,
                destination: destination@,
                message: message@,
            },
            Message::Status { account_id, status } => MessageView::Status {
                account_id: account_id@,
                status: status@,
            },
            Message::StatusGet { account_id } => MessageView::StatusGet { account_id: account_id@ },
            Message::StatusSet { account_id, status } => MessageView::StatusSet {
                account_id: account_id@,
                status: status@,
            },
            Message::Chat { account_id, chat, alias, nick } => MessageView::Chat {
                account_id: account_id@,
                chat: chat@,
                alias: alias@,
                nick: nick@,
            },
            Message::ChatList { account_id } => MessageView::ChatList { account_id: account_id@ },
            Message::ChatJoin { account_id, chat } => MessageView::ChatJoin {
                account_id: account_id@,
                chat: chat@,
            },
            Message::ChatLeave { account_id, chat } => MessageView::ChatLeave {
                account_id: account_id@,
                chat: chat@,
            },
            Message::ChatMessage {
                account_id,
                chat,
                timestamp,
                sender,
                message,
            } => MessageView::ChatMessage {
                account_id: account_id@,
                chat: chat@,
                timestamp: timestamp@,
                sender: sender@,
                message: message@,
            },
            Message::ChatMessageSend { account_id, chat, message } => MessageView::ChatMessageSend {
                account_id: account_id@,
                chat: chat@,
                message: message@,
            },
            Message::ChatUser { account_id, chat, user, alias, status } => MessageView::ChatUser {
                account_id: account_id@,
                chat: chat@,
                user: user@,
                alias: alias@,
                status: status@,
            },
            Message::ChatUserList { account_id, chat } => MessageView::ChatUserList {
                account_id: account_id@,
                chat: chat@,
            },
            Message::ChatUserInvite { account_id, chat, user } => MessageView::ChatUserInvite {
                account_id: account_id@,
                chat: chat@,
                user: user@,
            },
            Message::Version => MessageView::Version,
            Message::Bye => MessageView::Bye,
            Message::Quit => MessageView::Quit,
            Message::Help => MessageView::Help,
        }
    }
}

impl Clone for Message {
    fn clone(&self) -> (copy: Self)
        ensures
            copy@ == self@,
    {
        match self {
            Message::Info { message } => Message::Info { message: message.clone() },
            Message::Account { id, name, protocol, user, status } => Message::Account {
                id: id.clone(),
                name: name.clone(),
                protocol: protocol.clone(),
                user: user.clone(),
                status: status.clone(),
            },
            Message::AccountList => Message::AccountList,
            Message::AccountAdd { protocol, user, password } => Message::AccountAdd {
                protocol: protocol.clone(),
                user: user.clone(),
                password: password.clone(),
            },
            Message::AccountDelete { id } => Message::AccountDelete { id: id.clone() },
            Message::Buddy { account_id, status, name, alias } => Message::Buddy {
                account_id: account_id.clone(),
                status: status.clone(),
                name: name.clone(),
                alias: alias.clone(),
            },
            Message::BuddyList { account_id, status } => Message::BuddyList {
                account_id: account_id.clone(),
                status: status.clone(),
            },
            Message::Message {
                account_id,
                destination,
                timestamp,
                sender,
                message,
            } => Message::Message {
                account_id: account_id.clone(),
                destination: destination.clone(),
                timestamp: timestamp.clone(),
                sender: sender.clone(),
                message: message.clone(),
            },
            Message::MessageCollect { account_id } => Message::MessageCollect {
                account_id: account_id.clone(),
            },
            Message::MessageSend { account_id, destination, message } => Message::MessageSend {
                account_id: account_id.clone(),
                destination: destination.clone(),
                message: message.clone(),
            },
            Message::Status { account_id, status } => Message::Status {
                account_id: account_id.clone(),
                status: status.clone(),
            },
            Message::StatusGet { account_id } => Message::StatusGet {
                account_id: account_id.clone(),
            },
            Message::StatusSet { account_id, status } => Message::StatusSet {
                account_id: account_id.clone(),
                status: status.clone(),
            },
            Message::Chat { account_id, chat, alias, nick } => Message::Chat {
                account_id: account_id.clone(),
                chat: chat.clone(),
                alias: alias.clone(),
                nick: nick.clone(),
            },
            Message::ChatList { account_id } => Message::ChatList {
                account_id: account_id.clone(),
            },
            Message::ChatJoin { account_id, chat } => Message::ChatJoin {
                account_id: account_id.clone(),
                chat: chat.clone(),
            },
            Message::ChatLeave { account_id, chat } => Message::ChatLeave {
                account_id: account_id.clone(),
                chat: chat.clone(),
            },
            Message::ChatMessage {
                account_id,
                chat,
                timestamp,
                sender,
                message,
            } => Message::ChatMessage {
                account_id: account_id.clone(),
                chat: chat.clone(),
                timestamp: timestamp.clone(),
                sender: sender.clone(),
                message: message.clone(),
            },
            Message::ChatMessageSend { account_id, chat, message } => Message::ChatMessageSend {
                account_id: account_id.clone(),
                chat: chat.clone(),
                message: message.clone(),
            },
            Message::ChatUser { account_id, chat, user, alias, status } => Message::ChatUser {
                account_id: account_id.clone(),
                chat: chat.clone(),
                user: user.clone(),
                alias: alias.clone(),
                status: status.clone(),
            },
            Message::ChatUserList { account_id, chat } => Message::ChatUserList {
                account_id: account_id.clone(),
                chat: chat.clone(),
            },
            Message::ChatUserInvite { account_id, chat, user } => Message::ChatUserInvite {
                account_id: account_id.clone(),
                chat: chat.clone(),
                user: user.clone(),
            },
            Message::Version => Message::Version,
            Message::Bye => Message::Bye,
            Message::Quit => Message::Quit,
            Message::Help => Message::Help,
        }
    }
}

/// The end of every line: a carriage return and a line feed.
pub open spec fn line_end() -> Seq<char> {
    seq!['\r', '\n']
}

/// The words of the canonical line of `m`: its keywords and its fields in the
/// order of the wire format. A free text is the last word and may hold spaces.
pub open spec fn words_of(m: MessageView) -> Seq<Seq<char>> {
    match m {
        MessageView::Info { message } => seq!["info:"@, message],
        MessageView::Account { id, name, protocol, user, status } => seq![
            "account:"@,
            id,
            name,
            protocol,
            user,
            status,
        ],
        MessageView::AccountList => seq!["account"@, "list"@],
        MessageView::AccountAdd { protocol, user, password } => seq![
            "account"@,
            "add"@,
            protocol,
            user,
            password,
        ],
        MessageView::AccountDelete { id } => seq!["account"@, id, "delete"@],
        MessageView::Buddy { account_id, status, name, alias } => seq![
            "buddy:"@,
            account_id,
            "status:"@,
            status,
            "name:"@,
            name,
            "alias:"@,
            alias,
        ],
        MessageView::BuddyList { account_id, status } => seq![
            "account"@,
            account_id,
            "buddies"@,
            status,
        ],
        MessageView::Message {
            account_id,
            destination,
            timestamp,
            sender,
            message,
        } => seq![
            "message:"@,
            account_id,
            destination,
            timestamp,
            sender,
            message,
        ],
        MessageView::MessageCollect { account_id } => seq!["account"@, account_id, "collect"@],
        MessageView::MessageSend {
            account_id,
            destination,
            message,
        } => seq![
            "account"@,
            account_id,
            "send"@,
            destination,
            message,
        ],
        MessageView::Status { account_id, status } => seq![
            "status:"@,
            "account"@,
            account_id,
            "status:"@,
            status,
        ],
        MessageView::StatusGet { account_id } => seq!["account"@, account_id, "status"@, "get"@],
        MessageView::StatusSet { account_id, status } => seq![
            "account"@,
            account_id,
            "status"@,
            "set"@,
            status,
        ],
        MessageView::Chat { account_id, chat, alias, nick } => seq![
            "chat:"@,
            "list:"@,
            account_id,
            chat,
            alias,
            nick,
        ],
        MessageView::ChatList { account_id } => seq!["account"@, account_id, "chat"@, "list"@],
        MessageView::ChatJoin { account_id, chat } => seq![
            "account"@,
            account_id,
            "chat"@,
            "join"@,
            chat,
        ],
        MessageView::ChatLeave { account_id, chat } => seq![
            "account"@,
            account_id,
            "chat"@,
            "part"@,
            chat,
        ],
        MessageView::ChatMessage {
            account_id,
            chat,
            timestamp,
            sender,
            message,
        } => seq![
            "chat:"@,
            "msg:"@,
            account_id,
            chat,
            timestamp,
            sender,
            message,
        ],
        MessageView::ChatMessageSend { account_id, chat, message } => seq![
            "account"@,
            account_id,
            "chat"@,
            "send"@,
            chat,
            message,
        ],
        MessageView::ChatUser {
            account_id,
            chat,
            user,
            alias,
            status,
        } => seq![
            "chat:"@,
            "user:"@,
            account_id,
            chat,
            user,
            alias,
            status,
        ],
        MessageView::ChatUserList { account_id, chat } => seq![
            "account"@,
            account_id,
            "chat"@,
            "users"@,
            chat,
        ],
        MessageView::ChatUserInvite { account_id, chat, user } => seq![
            "account"@,
            account_id,
            "chat"@,
            "invite"@,
            chat,
            user,
        ],
        MessageView::Version => seq!["version"@],
        MessageView::Bye => seq!["bye"@],
        MessageView::Quit => seq!["quit"@],
        MessageView::Help => seq!["help"@],
    }
}

/// The account id of a command that is addressed to one account.
pub open spec fn command_id(m: MessageView) -> Option<Seq<char>> {
    match m {
        MessageView::AccountDelete { id } => Some(id),
        MessageView::BuddyList { account_id, .. } => Some(account_id),
        MessageView::MessageCollect { account_id } => Some(account_id),
        MessageView::MessageSend { account_id, .. } => Some(account_id),
        MessageView::StatusGet { account_id } => Some(account_id),
        MessageView::StatusSet { account_id, .. } => Some(account_id),
        MessageView::ChatList { account_id } => Some(account_id),
        MessageView::ChatJoin { account_id, .. } => Some(account_id),
        MessageView::ChatLeave { account_id, .. } => Some(account_id),
        MessageView::ChatMessageSend { account_id, .. } => Some(account_id),
        MessageView::ChatUserList { account_id, .. } => Some(account_id),
        MessageView::ChatUserInvite { account_id, .. } => Some(account_id),
        _ => None,
    }
}

/// The canonical line of `m`: its words joined by single spaces, then the end
/// of the line.
pub open spec fn line_of(m: MessageView) -> Seq<char> {
    join(words_of(m), SPACE) + line_end()
}

/// The text of the notification that greets a client.
pub const WELCOME_TEXT: &'static str = "Welcome! Enter \"help\" for the list of commands.";

/// The text of the notification for a client that connects while another is
/// being served.
pub const ALREADY_CONNECTED_TEXT: &'static str = "Another client is already connected.";

/// The text of the notification that answers `version`.
pub const VERSION_TEXT: &'static str = "version: bridge-daemon v0.1.0";

/// The text of the notification that answers `help`.
pub const HELP_TEXT: &'static str =
    "Commands: account list | account add <protocol> <user> <password> | account <id> delete | account <id> buddies [<status>] | account <id> collect | account <id> send <user> <msg> | account <id> status get | account <id> status set <status> | account <id> chat list | account <id> chat join <chat> | account <id> chat part <chat> | account <id> chat send <chat> <msg> | account <id> chat users <chat> | account <id> chat invite <chat> <user> | version | bye | quit | help";

impl Message {
    /// The notification that greets a client.
    pub fn info_welcome() -> (message: Message)
        ensures
            message@ == (MessageView::Info { message: WELCOME_TEXT@ }),
    {
        Message::Info { message: String::from_str(WELCOME_TEXT) }
    }

    /// The notification for a client that connects while another is being
    /// served.
    pub fn info_already_connected() -> (message: Message)
        ensures
            message@ == (MessageView::Info { message: ALREADY_CONNECTED_TEXT@ }),
    {
        Message::Info { message: String::from_str(ALREADY_CONNECTED_TEXT) }
    }

    /// The notification that answers `version`.
    pub fn info_version() -> (message: Message)
        ensures
            message@ == (MessageView::Info { message: VERSION_TEXT@ }),
    {
        Message::Info { message: String::from_str(VERSION_TEXT) }
    }

    /// The notification that answers `help`.
    pub fn info_help() -> (message: Message)
        ensures
            message@ == (MessageView::Info { message: HELP_TEXT@ }),
    {
        Message::Info { message: String::from_str(HELP_TEXT) }
    }

    /// The account id of a command that is addressed to one account.
    pub fn command_id(&self) -> (id: Option<&str>)
        ensures
            match id {
                Some(id) => command_id(self@) == Some(id@),
                None => command_id(self@) is None,
            },
    {
        match self {
            Message::AccountDelete { id } => Some(id.as_str()),
            Message::BuddyList { account_id, .. } => Some(account_id.as_str()),
            Message::MessageCollect { account_id } => Some(account_id.as_str()),
            Message::MessageSend { account_id, .. } => Some(account_id.as_str()),
            Message::StatusGet { account_id } => Some(account_id.as_str()),
            Message::StatusSet { account_id, .. } => Some(account_id.as_str()),
            Message::ChatList { account_id } => Some(account_id.as_str()),
            Message::ChatJoin { account_id, .. } => Some(account_id.as_str()),
            Message::ChatLeave { account_id, .. } => Some(account_id.as_str()),
            Message::ChatMessageSend { account_id, .. } => Some(account_id.as_str()),
            Message::ChatUserList { account_id, .. } => Some(account_id.as_str()),
            Message::ChatUserInvite { account_id, .. } => Some(account_id.as_str()),
            _ => None,
        }
    }

    /// The words of the canonical line of this message.
    fn words(&self) -> (words: Vec<&str>)
        ensures
            slice_views(words@) == words_of(self@),
    {
        let words = match self {
            Message::Info { message } => vec!["info:", message.as_str()],
            Message::Account { id, name, protocol, user, status } => vec![
                "account:",
                id.as_str(),
                name.as_str(),
                protocol.as_str(),
                user.as_str(),
                status.as_str(),
            ],
            Message::AccountList => vec!["account", "list"],
            Message::AccountAdd { protocol, user, password } => vec![
                "account",
                "add",
                protocol.as_str(),
                user.as_str(),
                password.as_str(),
            ],
            Message::AccountDelete { id } => vec!["account", id.as_str(), "delete"],
            Message::Buddy { account_id, status, name, alias } => vec![
                "buddy:",
                account_id.as_str(),
                "status:",
                status.as_str(),
                "name:",
                name.as_str(),
                "alias:",
                alias.as_str(),
            ],
            Message::BuddyList { account_id, status } => vec![
                "account",
                account_id.as_str(),
                "buddies",
                status.as_str(),
            ],
            Message::Message {
                account_id,
                destination,
                timestamp,
                sender,
                message,
            } => vec![
                "message:",
                account_id.as_str(),
                destination.as_str(),
                timestamp.as_str(),
                sender.as_str(),
                message.as_str(),
            ],
            Message::MessageCollect { account_id } => vec![
                "account",
                account_id.as_str(),
                "collect",
            ],
            Message::MessageSend { account_id, destination, message } => vec![
                "account",
                account_id.as_str(),
                "send",
                destination.as_str(),
                message.as_str(),
            ],
            Message::Status { account_id, status } => vec![
                "status:",
                "account",
                account_id.as_str(),
                "status:",
                status.as_str(),
            ],
            Message::StatusGet { account_id } => vec![
                "account",
                account_id.as_str(),
                "status",
                "get",
            ],
            Message::StatusSet { account_id, status } => vec![
                "account",
                account_id.as_str(),
                "status",
                "set",
                status.as_str(),
            ],
            Message::Chat { account_id, chat, alias, nick } => vec![
                "chat:",
                "list:",
                account_id.as_str(),
                chat.as_str(),
                alias.as_str(),
                nick.as_str(),
            ],
            Message::ChatList { account_id } => vec![
                "account",
                account_id.as_str(),
                "chat",
                "list",
            ],
            Message::ChatJoin { account_id, chat } => vec![
                "account",
                account_id.as_str(),
                "chat",
                "join",
                chat.as_str(),
            ],
            Message::ChatLeave { account_id, chat } => vec![
                "account",
                account_id.as_str(),
                "chat",
                "part",
                chat.as_str(),
            ],
            Message::ChatMessage {
                account_id,
                chat,
                timestamp,
                sender,
                message,
            } => vec![
                "chat:",
                "msg:",
                account_id.as_str(),
                chat.as_str(),
                timestamp.as_str(),
                sender.as_str(),
                message.as_str(),
            ],
            Message::ChatMessageSend { account_id, chat, message } => vec![
                "account",
                account_id.as_str(),
                "chat",
                "send",
                chat.as_str(),
                message.as_str(),
            ],
            Message::ChatUser { account_id, chat, user, alias, status } => vec![
                "chat:",
                "user:",
                account_id.as_str(),
                chat.as_str(),
                user.as_str(),
                alias.as_str(),
                status.as_str(),
            ],
            Message::ChatUserList { account_id, chat } => vec![
                "account",
                account_id.as_str(),
                "chat",
                "users",
                chat.as_str(),
            ],
            Message::ChatUserInvite { account_id, chat, user } => vec![
                "account",
                account_id.as_str(),
                "chat",
                "invite",
                chat.as_str(),
                user.as_str(),
            ],
            Message::Version => vec!["version"],
            Message::Bye => vec!["bye"],
            Message::Quit => vec!["quit"],
            Message::Help => vec!["help"],
        };
        assert(slice_views(words@) =~= words_of(self@));
        words
    }

    /// Renders the message as its canonical line, terminator included.
    pub fn to_string(&self) -> (line: String)
        ensures
            line@ == line_of(self@),
    {
        let words = self.words();
        let mut line = join_words(&words, SPACE);
        line.push('\r');
        line.push('\n');
        assert(line@ =~= line_of(self@));
        line
    }
}

} // verus!
