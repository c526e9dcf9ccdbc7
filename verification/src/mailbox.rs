//! The bounded, ordered mailbox connecting a background forwarding task to
//! its synchronous counterpart.
//!
//! One side produces, the other consumes; items leave in the order they
//! entered.  A mailbox is closed exactly once, at queue teardown: afterwards
//! nothing new is admitted, while items already queued can still be drained.
//!
//! Two admission disciplines exist, matching the two directions of the
//! bridge: [`Mailbox::push_or_drop`] (receive path — a full mailbox discards
//! the incoming item rather than stalling the broker) and [`Mailbox::offer`]
//! (send path — a full mailbox refuses the item so the caller can wait and
//! retry; nothing outbound is ever dropped).

use vstd::prelude::*;

use crate::message::Message;

verus! {

/// What became of an item pushed on the receive path.
pub enum PushOutcome {
    /// The item was appended to the pending queue.
    Accepted,
    /// The mailbox was full; the incoming item was discarded.
    Dropped,
    /// The mailbox is closed; the forwarding task should stop.
    Refused,
}

/// What became of an item offered on the send path.
pub enum OfferOutcome {
    /// The item was appended to the pending queue.
    Accepted,
    /// The mailbox is full; the item comes back so the caller can wait for
    /// room and offer it again.
    Full(Message),
    /// The mailbox is closed; the item comes back and will never be taken.
    Refused(Message),
}

/// The next item, or the reason there is none.
pub enum TakeOutcome {
    /// The oldest pending item.
    Item(Message),
    /// Nothing pending right now, but the mailbox is still open.
    Pending,
    /// Nothing pending and the mailbox is closed: no item will ever come.
    Ended,
}

/// A bounded FIFO buffer with a close flag.
pub struct Mailbox {
    /// Pending items, oldest first.
    pub items: Vec<Message>,
    /// How many items may be pending at once.
    pub capacity: usize,
    /// Once set, no new item is admitted; pending items can still drain.
    pub closed: bool,
}

impl Mailbox {
    /// A mailbox never holds more than its capacity, which is positive.
    pub open spec fn wf(&self) -> bool {
        &&& self.capacity >= 1
        &&& self.items@.len() <= self.capacity
    }

    /// An empty, open mailbox with the given bound.
    pub fn new(capacity: usize) -> (mb: Mailbox)
        requires
            capacity >= 1,
        ensures
            mb.wf(),
            mb.items@ == Seq::<Message>::empty(),
            mb.capacity == capacity,
            !mb.closed,
    {
        Mailbox { items: Vec::new(), capacity, closed: false }
    }

    /// Receive-path admission: append if there is room, discard the incoming
    /// item if not, refuse once closed.
    pub fn push_or_drop(&mut self, m: Message) -> (r: PushOutcome)
        requires
            old(self).wf(),
        ensures
            final(self).wf(),
            final(self).capacity == old(self).capacity,
            final(self).closed == old(self).closed,
            old(self).closed ==> (r is Refused && final(self).items@ == old(self).items@),
            (!old(self).closed && old(self).items@.len() < old(self).capacity) ==> (r is Accepted
                && final(self).items@ == old(self).items@.push(m)),
            (!old(self).closed && old(self).items@.len() == old(self).capacity) ==> (r is Dropped
                && final(self).items@ == old(self).items@),
    {
        if self.closed {
            PushOutcome::Refused
        } else if self.items.len() < self.capacity {
            self.items.push(m);
            PushOutcome::Accepted
        } else {
            PushOutcome::Dropped
        }
    }

    /// Send-path admission: append if there is room; a full or closed mailbox
    /// hands the item back untouched.
    pub fn offer(&mut self, m: Message) -> (r: OfferOutcome)
        requires
            old(self).wf(),
        ensures
            final(self).wf(),
            final(self).capacity == old(self).capacity,
            final(self).closed == old(self).closed,
            old(self).closed ==> (r == OfferOutcome::Refused(m) && final(self).items@ == old(self).items@),
            (!old(self).closed && old(self).items@.len() < old(self).capacity) ==> (r is Accepted
                && final(self).items@ == old(self).items@.push(m)),
            (!old(self).closed && old(self).items@.len() == old(self).capacity) ==> (r
                == OfferOutcome::Full(m) && final(self).items@ == old(self).items@),
    {
        if self.closed {
            OfferOutcome::Refused(m)
        } else if self.items.len() < self.capacity {
            self.items.push(m);
            OfferOutcome::Accepted
        } else {
            OfferOutcome::Full(m)
        }
    }

    /// Takes the oldest pending item; says whether more may come when there
    /// is none.
    pub fn take(&mut self) -> (r: TakeOutcome)
        requires
            old(self).wf(),
        ensures
            final(self).wf(),
            final(self).capacity == old(self).capacity,
            final(self).closed == old(self).closed,
            old(self).items@.len() > 0 ==> (r == TakeOutcome::Item(old(self).items@.first())
                && final(self).items@ == old(self).items@.drop_first()),
            (old(self).items@.len() == 0 && !old(self).closed) ==> (r is Pending && final(self).items@ == old(self).items@),
            (old(self).items@.len() == 0 && old(self).closed) ==> (r is Ended && final(self).items@
                == old(self).items@),
    {
        if self.items.len() > 0 {
            let m = self.items.remove(0);
            assert(self.items@ =~= old(self).items@.drop_first());
            TakeOutcome::Item(m)
        } else if self.closed {
            TakeOutcome::Ended
        } else {
            TakeOutcome::Pending
        }
    }

    /// Closes the mailbox; pending items stay drainable.
    pub fn close(&mut self)
        requires
            old(self).wf(),
        ensures
            final(self).wf(),
            final(self).items@ == old(self).items@,
            final(self).capacity == old(self).capacity,
            final(self).closed,
    {
        self.closed = true;
    }
}

} // verus!
