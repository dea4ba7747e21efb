//! The delivery queue: the messages that wait for the client, and the client.
//!
//! Messages for the client are put into the queue whether a client is attached
//! or not. While a client is attached the messages are taken from the front,
//! one at a time, and handed to it. A message that could not be handed over
//! goes back to the front, and the client is dropped: the message is then the
//! first that the next client gets.
//!
//! The queue holds the client but never talks to it. Its user takes a message
//! with [`Queue::take_next`], hands it to the client that [`Queue::client_mut`]
//! lends, and calls [`Queue::requeue`] where that failed.

use crate::message::{Message, MessageView};
use std::collections::VecDeque;
use vstd::prelude::*;

verus! {

/// The mathematical content of a [`Queue`].
pub ghost struct QueueView<C> {
    /// The messages that wait, the next to deliver first.
    pub pending: Seq<MessageView>,
    /// The client that is attached, if one is.
    pub client: Option<C>,
}

impl<C> QueueView<C> {
    /// Whether a client is attached.
    pub open spec fn attached(self) -> bool {
        self.client is Some
    }
}

/// The queue of messages for a client of type `C`, with at most one client
/// attached.
pub struct Queue<C> {
    q: VecDeque<Message>,
    client: Option<C>,
}

impl<C> View for Queue<C> {
    type V = QueueView<C>;

    closed spec fn view(&self) -> QueueView<C> {
        QueueView { pending: Seq::new(self.q@.len(), |i: int| self.q@[i]@), client: self.client }
    }
}

/// What [`Queue::take_next`] hands out in the state `q`: the first pending
/// message where a client is attached and a message waits.
pub open spec fn next_of<C>(q: QueueView<C>) -> Option<MessageView> {
    if q.attached() && q.pending.len() > 0 {
        Some(q.pending[0])
    } else {
        None
    }
}

/// The state after [`Queue::take_next`] in the state `q`.
pub open spec fn after_take<C>(q: QueueView<C>) -> QueueView<C> {
    if q.attached() && q.pending.len() > 0 {
        QueueView { pending: q.pending.skip(1), ..q }
    } else {
        q
    }
}

/// The state after [`Queue::requeue`] of `m` in the state `q`.
pub open spec fn after_requeue<C>(q: QueueView<C>, m: MessageView) -> QueueView<C> {
    QueueView { pending: seq![m] + q.pending, client: None }
}

/// The state after [`Queue::send`] of `m` in the state `q`.
pub open spec fn after_send<C>(q: QueueView<C>, m: MessageView) -> QueueView<C> {
    QueueView { pending: q.pending.push(m), ..q }
}

/// The messages that a client gets that takes `n` messages in a row from the
/// state `q`, all of them delivered.
pub open spec fn delivered<C>(q: QueueView<C>, n: nat) -> Seq<MessageView>
    decreases n,
{
    if n == 0 {
        Seq::<MessageView>::empty()
    } else {
        match next_of(q) {
            Some(m) => seq![m] + delivered(after_take(q), (n - 1) as nat),
            None => Seq::<MessageView>::empty(),
        }
    }
}

/// A message that was taken and put back is pending again at the front, so the
/// order of the pending messages is as it was before.
pub proof fn lemma_requeue_restores<C>(q: QueueView<C>)
    requires
        next_of(q) is Some,
    ensures
        after_requeue(after_take(q), next_of(q)->0).pending == q.pending,
{
    assert(seq![q.pending[0]] + q.pending.skip(1) =~= q.pending);
}

/// A client that is attached takes the pending messages in the order in which
/// they were put into the queue, each of them once.
pub proof fn lemma_delivery_in_order<C>(q: QueueView<C>, n: nat)
    requires
        q.attached(),
        n <= q.pending.len(),
    ensures
        delivered(q, n) == q.pending.take(n as int),
    decreases n,
{
    if n == 0 {
        assert(q.pending.take(0) =~= Seq::<MessageView>::empty());
    } else {
        lemma_delivery_in_order(after_take(q), (n - 1) as nat);
        assert(seq![q.pending[0]] + q.pending.skip(1).take(n - 1) =~= q.pending.take(n as int));
    }
}

/// A message that is put into the queue is delivered after all that were
/// pending before it.
pub proof fn lemma_send_keeps_order<C>(q: QueueView<C>, m: MessageView)
    requires
        q.attached(),
    ensures
        delivered(after_send(q, m), q.pending.len() + 1) == delivered(q, q.pending.len()).push(m),
{
    let grown = after_send(q, m);
    lemma_delivery_in_order(q, q.pending.len());
    lemma_delivery_in_order(grown, q.pending.len() + 1);
    let n = q.pending.len() as int;
    assert(grown.pending.take(n + 1) =~= q.pending.take(n).push(m));
}

impl<C> Queue<C> {
    /// The empty queue, without a client.
    pub fn new() -> (queue: Self)
        ensures
            queue@.pending == Seq::<MessageView>::empty(),
            queue@.client is None,
    {
        let queue = Queue { q: VecDeque::new(), client: None };
        assert(queue@.pending =~= Seq::<MessageView>::empty());
        queue
    }

    /// Attaches the given client in place of the one that is attached, or
    /// detaches the client where none is given. The pending messages stay.
    pub fn set_client(&mut self, client: Option<C>)
        ensures
            final(self)@ == (QueueView { pending: old(self)@.pending, client }),
    {
        self.client = client;
    }

    /// Whether a client is attached.
    pub fn has_client(&self) -> (attached: bool)
        ensures
            attached == self@.attached(),
    {
        self.client.is_some()
    }

    /// The client that is attached, to work with. What is done to it is done
    /// to the client in the queue; the pending messages stay.
    pub fn client_mut(&mut self) -> (client: Option<&mut C>)
        ensures
            match client {
                Some(client) => old(self)@.client == Some(*client) && final(self)@ == (QueueView {
                    pending: old(self)@.pending,
                    client: Some(*final(client)),
                }),
                None => old(self)@.client is None && final(self)@ == old(self)@,
            },
    {
        self.client.as_mut()
    }

    /// Puts a message at the end of the queue.
    pub fn send(&mut self, message: Message)
        ensures
            final(self)@ == after_send(old(self)@, message@),
    {
        self.q.push_back(message);
        assert(self@.pending =~= old(self)@.pending.push(message@));
    }

    /// Takes the next message to hand to the client: the first that is
    /// pending, where a client is attached. Without a client, or with nothing
    /// pending, there is none and the queue stays as it is.
    pub fn take_next(&mut self) -> (next: Option<Message>)
        ensures
            final(self)@ == after_take(old(self)@),
            match next {
                Some(message) => next_of(old(self)@) == Some(message@),
                None => next_of(old(self)@) is None,
            },
    {
        if self.client.is_none() {
            return None;
        }
        let next = self.q.pop_front();
        if next.is_some() {
            assert(self@.pending =~= old(self)@.pending.skip(1));
        } else {
            assert(self@.pending =~= old(self)@.pending);
        }
        next
    }

    /// Puts a message that the client did not take back at the front of the
    /// queue and drops the client.
    pub fn requeue(&mut self, message: Message)
        ensures
            final(self)@ == after_requeue(old(self)@, message@),
    {
        self.q.push_front(message);
        self.client = None;
        assert(self@.pending =~= seq![message@] + old(self)@.pending);
    }

    /// The number of messages that wait.
    pub fn len(&self) -> (n: usize)
        ensures
            n == self@.pending.len(),
    {
        self.q.len()
    }
}

} // verus!
