//! What the daemon and the session of a backend account say to each other.
//!
//! A session reports what happens on its account as events, and the daemon
//! hands it the commands of the client as events. Today an event is a message
//! of the bridge protocol: a chat message that came in, or the command to send
//! one.

use crate::account::{Account, AccountView};
use crate::decimal::{decimal, to_decimal};
use crate::message::{Message, MessageView};
use crate::text::{same_text, split, split_text};
use vstd::prelude::*;

verus! {

/// The protocol of the accounts that get a session.
pub const MATRIX: &'static str = "matrix";

/// The character that parts the name of a user from the server.
pub const AT: char = '@';

/// The server of an account that gets a session: what follows the last `@` of
/// its user, where its protocol is the supported one and its user holds an
/// `@`. Any other account gets no session.
pub open spec fn session_server(account: AccountView) -> Option<Seq<char>> {
    let parts = split(account.user, AT);
    if account.protocol == MATRIX@ && parts.len() >= 2 {
        Some(parts.last())
    } else {
        None
    }
}

/// The server on which the session of the account is started, if the account
/// gets a session.
pub fn server_of(account: &Account) -> (server: Option<String>)
    ensures
        match server {
            Some(server) => session_server(account@) == Some(server@),
            None => session_server(account@) is None,
        },
{
    if !same_text(account.protocol.as_str(), MATRIX) {
        return None;
    }
    let parts = split_text(account.user.as_str(), AT);
    if parts.len() < 2 {
        return None;
    }
    Some(parts[parts.len() - 1].clone())
}

/// An event between the daemon and the session of an account.
#[derive(Debug, PartialEq, Eq)]
pub enum Event {
    Message(Message),
}

/// The mathematical content of an [`Event`].
pub ghost enum EventView {
    Message(MessageView),
}

impl View for Event {
    type V = EventView;

    open spec fn view(&self) -> EventView {
        match self {
            Event::Message(message) => EventView::Message(message@),
        }
    }
}

/// A message that came in in a room of the backend, as far as the daemon
/// looks at it.
pub struct RoomMessage {
    /// Whether the account has joined the room.
    pub joined: bool,
    /// The id of the room.
    pub room: String,
    /// The time at which the server got the message, in seconds.
    pub timestamp: u64,
    /// The sender of the message.
    pub sender: String,
    /// The text of the message; `None` for a message that is no text.
    pub text: Option<String>,
}

/// The event that a message in a room makes on the account `account_id`: a
/// chat message, where the account has joined the room and the message is a
/// text; none otherwise.
pub open spec fn event_of(account_id: u32, message: RoomMessage) -> Option<EventView> {
    match message.text {
        Some(text) if message.joined => Some(
            EventView::Message(
                MessageView::ChatMessage {
                    account_id: decimal(account_id as nat),
                    chat: message.room@,
                    timestamp: decimal(message.timestamp as nat),
                    sender: message.sender@,
                    message: text@,
                },
            ),
        ),
        _ => None,
    }
}

/// What a session has to send for an event of the daemon: the room and the
/// text, where the event is the command to send a chat message.
pub open spec fn chat_text_of(event: EventView) -> Option<(Seq<char>, Seq<char>)> {
    match event {
        EventView::Message(MessageView::ChatMessageSend { chat, message, .. }) => Some(
            (chat, message),
        ),
        _ => None,
    }
}

impl Event {
    /// The event that a message in a room makes on the account `account_id`.
    pub fn incoming(account_id: u32, message: RoomMessage) -> (event: Option<Event>)
        ensures
            match event {
                Some(event) => event_of(account_id, message) == Some(event@),
                None => event_of(account_id, message) is None,
            },
    {
        if !message.joined {
            return None;
        }
        match message.text {
            Some(text) => Some(
                Event::Message(
                    Message::ChatMessage {
                        account_id: to_decimal(account_id as u64),
                        chat: message.room,
                        timestamp: to_decimal(message.timestamp),
                        sender: message.sender,
                        message: text,
                    },
                ),
            ),
            None => None,
        }
    }

    /// The room and the text of the chat message that this event asks to
    /// send.
    pub fn chat_text(&self) -> (outgoing: Option<(String, String)>)
        ensures
            match outgoing {
                Some((room, text)) => chat_text_of(self@) == Some((room@, text@)),
                None => chat_text_of(self@) is None,
            },
    {
        match self {
            Event::Message(Message::ChatMessageSend { chat, message, .. }) => Some(
                (chat.clone(), message.clone()),
            ),
            _ => None,
        }
    }
}

} // verus!
