//! The daemon: what it holds and how it reacts.
//!
//! The daemon serves one client at a time. It holds the delivery queue with
//! that client, the registry of accounts, the channels to the sessions of the
//! accounts, and a flag that ends it. Each thing that happens, a connection
//! that comes in, a message of the client, an event of a session, changes
//! this state and may leave work that the daemon cannot do itself: to write
//! the accounts to their file, or to hand an event to a channel. The functions
//! here make the change and say what work is left; the loop around them waits
//! for the next thing and does the work.

use crate::account::{
    account_views, is_listing, is_smallest_free, lemma_listing_unique,
    lemma_smallest_free_unique, AccountView, Accounts, UNKNOWN_STATUS,
};
use crate::backend::{Event, EventView};
use crate::decimal::{decimal, id_from, lemma_decimal_digits, parse_id, to_decimal};
use crate::grammar::message_from_line;
use crate::message::{
    command_id, line_of, Message, MessageView, ALREADY_CONNECTED_TEXT, HELP_TEXT, VERSION_TEXT,
    WELCOME_TEXT,
};
use crate::queue::{after_send, Queue, QueueView};
use crate::roundtrip::{lemma_parse_rendered, word_fields};
use crate::text::{free_of, SPACE};
use std::collections::HashMap;
use vstd::prelude::*;

verus! {

broadcast use vstd::std_specs::hash::group_hash_axioms;

/// The name under which every account is shown to the client.
pub const ACCOUNT_NAME: &'static str = "()";

/// The state of the daemon, for clients of type `C` and channels of type `B`.
pub struct Daemon<C, B> {
    /// The messages for the client, and the client.
    pub queue: Queue<C>,
    /// The registry of accounts.
    pub accounts: Accounts,
    /// The channel to the session of each account that has one.
    pub channels: HashMap<u32, B>,
    /// Whether the daemon has been told to stop.
    pub done: bool,
}

/// The mathematical content of a [`Daemon`].
pub ghost struct DaemonView<C, B> {
    pub queue: QueueView<C>,
    pub accounts: Map<u32, AccountView>,
    pub channels: Map<u32, B>,
    pub done: bool,
}

impl<C, B> View for Daemon<C, B> {
    type V = DaemonView<C, B>;

    open spec fn view(&self) -> DaemonView<C, B> {
        DaemonView {
            queue: self.queue@,
            accounts: self.accounts@,
            channels: self.channels@,
            done: self.done,
        }
    }
}

/// The work that is left after the daemon has handled a message.
#[derive(Debug, PartialEq, Eq)]
pub enum Action {
    /// Nothing is left to do.
    Nothing,
    /// The registry has changed: it is to be written to its file.
    Save,
    /// The event is to be handed to the channel of the account.
    Forward { account_id: u32, event: Event },
}

/// The mathematical content of an [`Action`].
pub ghost enum ActionView {
    Nothing,
    Save,
    Forward { account_id: u32, event: EventView },
}

impl View for Action {
    type V = ActionView;

    open spec fn view(&self) -> ActionView {
        match self {
            Action::Nothing => ActionView::Nothing,
            Action::Save => ActionView::Save,
            Action::Forward { account_id, event } => ActionView::Forward {
                account_id: *account_id,
                event: event@,
            },
        }
    }
}

/// The listing of a registry.
pub open spec fn listing_of(accounts: Map<u32, AccountView>) -> Seq<AccountView> {
    choose|s: Seq<AccountView>| is_listing(accounts, s)
}

/// The smallest id that is not in `used`.
pub open spec fn smallest_free(used: Set<u32>) -> u32 {
    choose|id: u32| is_smallest_free(used, id)
}

/// The notification that describes an account to the client.
pub open spec fn account_notice(account: AccountView) -> MessageView {
    MessageView::Account {
        id: decimal(account.id as nat),
        name: ACCOUNT_NAME@,
        protocol: account.protocol,
        user: account.user,
        status: UNKNOWN_STATUS@,
    }
}

/// The notifications that describe the given accounts, in their order.
pub open spec fn account_notices(accounts: Seq<AccountView>) -> Seq<MessageView> {
    Seq::new(accounts.len(), |i: int| account_notice(accounts[i]))
}

/// The state of the queue with `m` put at its end.
pub open spec fn queued<C, B>(d: DaemonView<C, B>, m: MessageView) -> DaemonView<C, B> {
    DaemonView { queue: after_send(d.queue, m), ..d }
}

/// The state of the daemon after it has handled the message `m` of its
/// client.
///
/// `help` and `version` are answered with a notification. `bye` detaches the
/// client. `quit` sets the flag that ends the daemon. `account list` is
/// answered with one notification for each account, in the order of the ids.
/// `account add` registers an account under the smallest free id, `account
/// <id> delete` removes the account of that id where the id is a number. Any
/// other command that is addressed to an account leaves the state as it is.
/// Every other message is handed on to the client as it is.
pub open spec fn handled<C, B>(d: DaemonView<C, B>, m: MessageView) -> DaemonView<C, B> {
    match m {
        MessageView::Help => queued(d, MessageView::Info { message: HELP_TEXT@ }),
        MessageView::Version => queued(d, MessageView::Info { message: VERSION_TEXT@ }),
        MessageView::Bye => DaemonView {
            queue: QueueView { pending: d.queue.pending, client: None },
            ..d
        },
        MessageView::Quit => DaemonView { done: true, ..d },
        MessageView::AccountList => DaemonView {
            queue: QueueView {
                pending: d.queue.pending + account_notices(listing_of(d.accounts)),
                ..d.queue
            },
            ..d
        },
        MessageView::AccountAdd { protocol, user, password } => {
            let id = smallest_free(d.accounts.dom());
            DaemonView {
                accounts: d.accounts.insert(id, AccountView { id, protocol, user, password }),
                ..d
            }
        },
        MessageView::AccountDelete { id } => match id_from(id) {
            Some(id) => DaemonView { accounts: d.accounts.remove(id), ..d },
            None => d,
        },
        _ => if command_id(m) is Some {
            d
        } else {
            queued(d, m)
        },
    }
}

/// The work that is left after the daemon in the state `d` has handled the
/// message `m` of its client.
///
/// After `account add`, and after an `account <id> delete` whose id is a
/// number, the registry is to be saved. Any other command that is addressed
/// to an account is forwarded to the channel of that account, where the id is
/// a number and the account has a channel, and is dropped otherwise.
pub open spec fn action_for<C, B>(d: DaemonView<C, B>, m: MessageView) -> ActionView {
    match m {
        MessageView::AccountAdd { .. } => ActionView::Save,
        MessageView::AccountDelete { id } => if id_from(id) is Some {
            ActionView::Save
        } else {
            ActionView::Nothing
        },
        _ => match command_id(m) {
            Some(id) => match id_from(id) {
                Some(account_id) if d.channels.contains_key(account_id) => ActionView::Forward {
                    account_id,
                    event: EventView::Message(m),
                },
                _ => ActionView::Nothing,
            },
            None => ActionView::Nothing,
        },
    }
}

/// The notification for a connection that comes in: the greeting where no
/// client is attached, the refusal where one is.
pub open spec fn greeting_in<C, B>(d: DaemonView<C, B>) -> MessageView {
    if d.queue.attached() {
        MessageView::Info { message: ALREADY_CONNECTED_TEXT@ }
    } else {
        MessageView::Info { message: WELCOME_TEXT@ }
    }
}

/// The notification that describes an account crosses the wire unchanged,
/// where neither the protocol nor the user of the account holds a space.
pub proof fn lemma_account_notice_crosses(account: AccountView)
    requires
        free_of(account.protocol, SPACE),
        free_of(account.user, SPACE),
    ensures
        message_from_line(line_of(account_notice(account))) == Some(account_notice(account)),
{
    let notice = account_notice(account);
    let fields = word_fields(notice);
    lemma_decimal_digits(account.id as nat);
    reveal_strlit("()");
    reveal_strlit("offline");
    assert(free_of(fields[0], SPACE));
    assert(free_of(fields[1], SPACE));
    assert(free_of(fields[4], SPACE));
    lemma_parse_rendered(notice);
}

/// The listing that [`Accounts::list`] gives is the listing of the registry.
proof fn lemma_listing_of(accounts: Map<u32, AccountView>, s: Seq<AccountView>)
    requires
        is_listing(accounts, s),
    ensures
        listing_of(accounts) == s,
{
    lemma_listing_unique(accounts, listing_of(accounts), s);
}

/// The id that [`Accounts::add`] gives is the smallest free id.
proof fn lemma_smallest_free(used: Set<u32>, id: u32)
    requires
        is_smallest_free(used, id),
    ensures
        smallest_free(used) == id,
{
    lemma_smallest_free_unique(used, smallest_free(used), id);
}

impl<C, B> Daemon<C, B> {
    /// The daemon at its start: nothing queued, no client, no account, no
    /// channel, and not told to stop.
    pub fn new() -> (daemon: Self)
        ensures
            daemon@.queue.pending == Seq::<MessageView>::empty(),
            daemon@.queue.client is None,
            daemon@.accounts == Map::<u32, AccountView>::empty(),
            daemon@.channels == Map::<u32, B>::empty(),
            !daemon@.done,
    {
        let daemon = Daemon {
            queue: Queue::new(),
            accounts: Accounts::new(),
            channels: HashMap::new(),
            done: false,
        };
        daemon
    }

    /// The notification to send to a connection that comes in.
    pub fn greeting(&self) -> (message: Message)
        ensures
            message@ == greeting_in(self@),
    {
        if self.queue.has_client() {
            Message::info_already_connected()
        } else {
            Message::info_welcome()
        }
    }

    /// Takes in a connection that has come in, where no client is attached
    /// and the greeting has reached it. Otherwise the connection is dropped
    /// and the daemon stays as it is. Says whether the connection is now the
    /// client.
    pub fn attach(&mut self, client: C, greeted: bool) -> (attached: bool)
        ensures
            attached == (greeted && !old(self)@.queue.attached()),
            attached ==> final(self)@ == (DaemonView {
                queue: QueueView { pending: old(self)@.queue.pending, client: Some(client) },
                ..old(self)@
            }),
            !attached ==> final(self)@ == old(self)@,
    {
        if self.queue.has_client() || !greeted {
            return false;
        }
        self.queue.set_client(Some(client));
        true
    }

    /// Detaches the client, whose stream has ended. The pending messages
    /// stay for the next client.
    pub fn client_closed(&mut self)
        ensures
            final(self)@ == (DaemonView {
                queue: QueueView { pending: old(self)@.queue.pending, client: None },
                ..old(self)@
            }),
    {
        self.queue.set_client(None);
    }

    /// Takes an event of the session of an account: its message is put into
    /// the queue for the client.
    pub fn handle_event(&mut self, event: Event)
        ensures
            final(self)@ == match event@ {
                EventView::Message(message) => queued(old(self)@, message),
            },
    {
        match event {
            Event::Message(message) => self.queue.send(message),
        }
    }

    /// Handles a message of the client and says what work is left.
    pub fn handle_message(&mut self, msg: Message) -> (action: Action)
        ensures
            final(self)@ == handled(old(self)@, msg@),
            action@ == action_for(old(self)@, msg@),
    {
        match msg {
            Message::Help => {
                self.queue.send(Message::info_help());
                Action::Nothing
            },
            Message::Bye => {
                self.queue.set_client(None);
                Action::Nothing
            },
            Message::Quit => {
                self.done = true;
                Action::Nothing
            },
            Message::Version => {
                self.queue.send(Message::info_version());
                Action::Nothing
            },
            Message::AccountList => {
                self.send_account_list();
                Action::Nothing
            },
            Message::AccountAdd { protocol, user, password } => {
                let id = self.accounts.add(protocol, user, password);
                proof {
                    lemma_smallest_free(old(self)@.accounts.dom(), id);
                }
                Action::Save
            },
            Message::AccountDelete { id } => {
                match parse_id(id.as_str()) {
                    Some(id) => {
                        self.accounts.remove(&id);
                        Action::Save
                    },
                    None => Action::Nothing,
                }
            },
            _ => {
                let addressed = match msg.command_id() {
                    Some(id) => Some(parse_id(id)),
                    None => None,
                };
                match addressed {
                    Some(Some(account_id)) => {
                        if self.channels.contains_key(&account_id) {
                            Action::Forward { account_id, event: Event::Message(msg) }
                        } else {
                            Action::Nothing
                        }
                    },
                    Some(None) => Action::Nothing,
                    None => {
                        self.queue.send(msg);
                        Action::Nothing
                    },
                }
            },
        }
    }

    /// Puts one notification for each account into the queue, in the order of
    /// the ids.
    fn send_account_list(&mut self)
        ensures
            final(self)@ == (DaemonView {
                queue: QueueView {
                    pending: old(self)@.queue.pending + account_notices(
                        listing_of(old(self)@.accounts),
                    ),
                    ..old(self)@.queue
                },
                ..old(self)@
            }),
    {
        let accounts = self.accounts.list();
        let ghost listing = account_views(accounts@);
        proof {
            lemma_listing_of(self@.accounts, listing);
        }
        let ghost before = self@;
        let mut i: usize = 0;
        assert(before.queue.pending + account_notices(listing.take(0)) =~= before.queue.pending);
        while i < accounts.len()
            invariant
                i <= accounts.len(),
                listing == account_views(accounts@),
                self@ == (DaemonView {
                    queue: QueueView {
                        pending: before.queue.pending + account_notices(listing.take(i as int)),
                        ..before.queue
                    },
                    ..before
                }),
            decreases accounts.len() - i,
        {
            let account = &accounts[i];
            let notice = Message::Account {
                id: to_decimal(account.id as u64),
                name: String::from_str(ACCOUNT_NAME),
                protocol: account.protocol.clone(),
                user: account.user.clone(),
                status: account.get_status(),
            };
            assert(notice@ == account_notice(listing[i as int]));
            self.queue.send(notice);
            assert((before.queue.pending + account_notices(listing.take(i as int))).push(
                account_notice(listing[i as int]),
            ) =~= before.queue.pending + account_notices(listing.take(i + 1)));
            i += 1;
        }
        assert(listing.take(accounts.len() as int) =~= listing);
    }

    /// Gives the account `account_id` the channel to its session, in place of
    /// the one it has.
    pub fn open_channel(&mut self, account_id: u32, channel: B)
        ensures
            final(self)@ == (DaemonView {
                channels: old(self)@.channels.insert(account_id, channel),
                ..old(self)@
            }),
    {
        self.channels.insert(account_id, channel);
    }

    /// Takes the channel from the account `account_id`, whose session has
    /// ended.
    pub fn close_channel(&mut self, account_id: u32)
        ensures
            final(self)@ == (DaemonView {
                channels: old(self)@.channels.remove(account_id),
                ..old(self)@
            }),
    {
        self.channels.remove(&account_id);
    }
}

} // verus!
