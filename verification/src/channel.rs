//! The transport channel: a bounded first-in, first-out queue of messages
//! with a sending side and a receiving side, each of which can be closed.
//!
//! The queue never waits. Where a thread would have to wait (the queue is
//! full, or it is empty while the sending side is open) the operation says so
//! and leaves the queue as it was; the caller waits and asks again.

use std::collections::VecDeque;
use vstd::prelude::*;

verus! {

/// A channel as contracts see it.
pub struct ChannelState {
    /// The messages accepted and not yet received, oldest first.
    pub pending: Seq<Seq<char>>,
    /// The largest number of messages that may be pending.
    pub capacity: nat,
    /// Whether the sending side is still there.
    pub sender_open: bool,
    /// Whether the receiving side is still there.
    pub receiver_open: bool,
}

impl ChannelState {
    /// The capacity is at least one and is never exceeded.
    pub open spec fn wf(self) -> bool {
        1 <= self.capacity && self.pending.len() <= self.capacity
    }

    /// An empty channel with both sides open.
    pub open spec fn fresh(capacity: nat) -> Self {
        ChannelState {
            pending: Seq::empty(),
            capacity,
            sender_open: true,
            receiver_open: true,
        }
    }

    /// No room is left.
    pub open spec fn is_full(self) -> bool {
        self.pending.len() >= self.capacity
    }

    /// Nothing is pending.
    pub open spec fn is_empty(self) -> bool {
        self.pending.len() == 0
    }

    /// Both sides are still there.
    pub open spec fn is_connected(self) -> bool {
        self.sender_open && self.receiver_open
    }

    /// A send is accepted when both sides are there and there is room.
    pub open spec fn accepts(self) -> bool {
        self.is_connected() && !self.is_full()
    }

    /// A receive delivers when the receiving side is there and a message
    /// is pending.
    pub open spec fn delivers(self) -> bool {
        self.receiver_open && !self.is_empty()
    }

    /// The channel after `msg` was offered: it joins the back of the queue
    /// if the send is accepted, and nothing changes otherwise.
    pub open spec fn after_send(self, msg: Seq<char>) -> Self {
        if self.accepts() {
            ChannelState { pending: self.pending.push(msg), ..self }
        } else {
            self
        }
    }

    /// The channel after one receive: the oldest message has left if the
    /// receive delivers, and nothing changes otherwise.
    pub open spec fn after_receive(self) -> Self {
        if self.delivers() {
            ChannelState { pending: self.pending.drop_first(), ..self }
        } else {
            self
        }
    }

    /// The receiver's signal to stop: nothing is pending and nothing can come.
    pub open spec fn is_closed(self) -> bool {
        self.is_empty() && !self.sender_open
    }

    /// The channel after its sending side was closed.
    pub open spec fn after_close(self) -> Self {
        ChannelState { sender_open: false, ..self }
    }

    /// The channel after its receiving side was closed.
    pub open spec fn after_hang_up(self) -> Self {
        ChannelState { receiver_open: false, ..self }
    }
}

/// What became of a message handed to `send`.
pub enum SendOutcome {
    /// The message is in the queue.
    Sent,
    /// The queue is full: the message comes back, to be sent again once
    /// the receiver has taken one out.
    Full(String),
    /// One side of the channel is gone for good: the message comes back.
    Disconnected(String),
}

/// What `receive` found.
pub enum RecvOutcome {
    /// The oldest pending message.
    Message(String),
    /// Nothing is pending, but the sending side is open: more may come.
    Empty,
    /// Nothing will be received any more: nothing is pending and the
    /// sending side is closed, or the receiving side itself is gone.
    Closed,
}

/// A bounded queue of messages, oldest first.
pub struct Channel {
    items: VecDeque<String>,
    capacity: usize,
    sender_open: bool,
    receiver_open: bool,
}

impl View for Channel {
    type V = ChannelState;

    closed spec fn view(&self) -> ChannelState {
        ChannelState {
            pending: self.items@.map_values(|s: String| s@),
            capacity: self.capacity as nat,
            sender_open: self.sender_open,
            receiver_open: self.receiver_open,
        }
    }
}

impl Channel {
    /// A channel for up to `capacity` pending messages, or nothing for a
    /// capacity of zero.
    pub fn new(capacity: usize) -> (made: Option<Channel>)
        ensures
            capacity == 0 <==> made is None,
            made matches Some(c) ==> c@ == ChannelState::fresh(capacity as nat) && c@.wf(),
    {
        if capacity == 0 {
            return None;
        }
        let c = Channel {
            items: VecDeque::new(),
            capacity,
            sender_open: true,
            receiver_open: true,
        };
        assert(c@.pending =~= Seq::empty());
        Some(c)
    }

    /// The largest number of messages that may be pending.
    pub fn capacity(&self) -> (n: usize)
        ensures
            n == self@.capacity,
    {
        self.capacity
    }

    /// The number of pending messages.
    pub fn len(&self) -> (n: usize)
        ensures
            n == self@.pending.len(),
    {
        self.items.len()
    }

    /// Whether no room is left.
    pub fn is_full(&self) -> (full: bool)
        ensures
            full == self@.is_full(),
    {
        self.items.len() >= self.capacity
    }

    /// Whether nothing is pending.
    pub fn is_empty(&self) -> (empty: bool)
        ensures
            empty == self@.is_empty(),
    {
        self.items.len() == 0
    }

    /// Whether the sending side is still there.
    pub fn sender_open(&self) -> (open: bool)
        ensures
            open == self@.sender_open,
    {
        self.sender_open
    }

    /// Whether the receiving side is still there.
    pub fn receiver_open(&self) -> (open: bool)
        ensures
            open == self@.receiver_open,
    {
        self.receiver_open
    }

    /// Offers `msg` to the queue. A missing side is reported before a
    /// full queue is.
    pub fn send(&mut self, msg: String) -> (outcome: SendOutcome)
        requires
            old(self)@.wf(),
        ensures
            final(self)@ == old(self)@.after_send(msg@),
            final(self)@.wf(),
            match outcome {
                SendOutcome::Sent => old(self)@.accepts(),
                SendOutcome::Full(back) => {
                    old(self)@.is_connected() && old(self)@.is_full() && back@ == msg@
                },
                SendOutcome::Disconnected(back) => !old(self)@.is_connected() && back@ == msg@,
            },
    {
        if !self.sender_open || !self.receiver_open {
            return SendOutcome::Disconnected(msg);
        }
        if self.items.len() >= self.capacity {
            return SendOutcome::Full(msg);
        }
        let ghost text = msg@;
        self.items.push_back(msg);
        assert(self@.pending =~= old(self)@.pending.push(text));
        SendOutcome::Sent
    }

    /// Takes the oldest pending message out. What is pending when the
    /// sending side closes is still delivered, oldest first.
    pub fn receive(&mut self) -> (outcome: RecvOutcome)
        requires
            old(self)@.wf(),
        ensures
            final(self)@ == old(self)@.after_receive(),
            final(self)@.wf(),
            match outcome {
                RecvOutcome::Message(msg) => {
                    old(self)@.delivers() && msg@ == old(self)@.pending.first()
                },
                RecvOutcome::Empty => {
                    old(self)@.is_connected() && old(self)@.is_empty()
                },
                RecvOutcome::Closed => !old(self)@.receiver_open || old(self)@.is_closed(),
            },
    {
        if !self.receiver_open {
            return RecvOutcome::Closed;
        }
        match self.items.pop_front() {
            Some(msg) => {
                assert(self@.pending =~= old(self)@.pending.drop_first());
                RecvOutcome::Message(msg)
            },
            None => {
                if self.sender_open {
                    RecvOutcome::Empty
                } else {
                    RecvOutcome::Closed
                }
            },
        }
    }

    /// Closes the sending side. What is pending stays to be received.
    pub fn close(&mut self)
        ensures
            final(self)@ == old(self)@.after_close(),
    {
        self.sender_open = false;
    }

    /// Closes the receiving side. What is pending is never received.
    pub fn hang_up(&mut self)
        ensures
            final(self)@ == old(self)@.after_hang_up(),
    {
        self.receiver_open = false;
    }
}

} // verus!
