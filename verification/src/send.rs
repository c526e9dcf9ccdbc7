//! The outbound queue: models the caller that submits messages into a small
//! bounded mailbox and the background task that forwards each one to a
//! broker publish-handle.
//!
//! Unlike the receive path, nothing is ever dropped here while the queue is
//! running: a full mailbox pushes back on the caller, who waits for room.
//! The ghost histories record that the publish-handle receives exactly the
//! submitted messages, in submission order.

use vstd::prelude::*;

use crate::mailbox::{Mailbox, OfferOutcome, TakeOutcome};
use crate::message::Message;
use crate::order::{is_subseq_of, lemma_prefix_subseq};

verus! {

/// What the forwarding task does after consulting the mailbox.
pub enum ForwardStep {
    /// Hand this message to the publish-handle.
    Forward(Message),
    /// Nothing to do right now; wait for the caller to submit more.
    Idle,
    /// The mailbox is closed and drained; the task ends.
    Ended,
}

/// The send-direction queue: a bounded mailbox plus the ghost history of the
/// task that drains it towards the broker.
pub struct SendQueue {
    /// The topic the publish-handle was opened for.
    pub topic: String,
    /// The bounded buffer between the caller and the task.
    pub mailbox: Mailbox,
    /// The messages callers submitted, in order of acceptance.
    pub submitted: Ghost<Seq<Message>>,
    /// The messages handed to the publish-handle, in order.
    pub forwarded: Ghost<Seq<Message>>,
}

impl SendQueue {
    /// Everything forwarded plus everything pending is exactly what was
    /// submitted: the send path loses nothing and reorders nothing.
    pub open spec fn wf(&self) -> bool {
        &&& self.mailbox.wf()
        &&& self.forwarded@ + self.mailbox.items@ == self.submitted@
    }

    /// A fresh queue for `topic` with an empty, open mailbox.
    pub fn new(topic: String, capacity: usize) -> (q: SendQueue)
        requires
            capacity >= 1,
        ensures
            q.wf(),
            q.topic == topic,
            q.mailbox.items@ == Seq::<Message>::empty(),
            q.mailbox.capacity == capacity,
            !q.mailbox.closed,
            q.submitted@ == Seq::<Message>::empty(),
            q.forwarded@ == Seq::<Message>::empty(),
    {
        let q = SendQueue {
            topic,
            mailbox: Mailbox::new(capacity),
            submitted: Ghost(Seq::empty()),
            forwarded: Ghost(Seq::empty()),
        };
        assert(q.forwarded@ + q.mailbox.items@ =~= q.submitted@);
        q
    }

    /// The caller side: submits a message.  A full mailbox hands it back so
    /// the caller can wait for room — outbound data is never discarded; a
    /// closed mailbox refuses it for good.
    pub fn send(&mut self, m: Message) -> (r: OfferOutcome)
        requires
            old(self).wf(),
        ensures
            final(self).wf(),
            final(self).topic == old(self).topic,
            final(self).mailbox.capacity == old(self).mailbox.capacity,
            final(self).mailbox.closed == old(self).mailbox.closed,
            final(self).forwarded@ == old(self).forwarded@,
            old(self).mailbox.closed ==> (r == OfferOutcome::Refused(m) && final(self).mailbox.items@ == old(self).mailbox.items@ && final(self).submitted@ == old(self).submitted@),
            (!old(self).mailbox.closed && old(self).mailbox.items@.len() < old(self).mailbox.capacity) ==> (r is Accepted && final(self).mailbox.items@ == old(self).mailbox.items@.push(m) && final(self).submitted@ == old(self).submitted@.push(m)),
            (!old(self).mailbox.closed && old(self).mailbox.items@.len() == old(self).mailbox.capacity) ==> (r == OfferOutcome::Full(m) && final(self).mailbox.items@
                == old(self).mailbox.items@ && final(self).submitted@ == old(self).submitted@),
    {
        let ghost message = m;
        let outcome = self.mailbox.offer(m);
        match outcome {
            OfferOutcome::Accepted => {
                self.submitted = Ghost(self.submitted@.push(message));
                proof {
                    assert(self.forwarded@ + self.mailbox.items@ =~= self.submitted@);
                }
                OfferOutcome::Accepted
            },
            OfferOutcome::Full(m) => OfferOutcome::Full(m),
            OfferOutcome::Refused(m) => OfferOutcome::Refused(m),
        }
    }

    /// The task side: takes the oldest pending message for the
    /// publish-handle, or reports why there is none.
    pub fn next_to_forward(&mut self) -> (step: ForwardStep)
        requires
            old(self).wf(),
        ensures
            final(self).wf(),
            final(self).topic == old(self).topic,
            final(self).mailbox.capacity == old(self).mailbox.capacity,
            final(self).mailbox.closed == old(self).mailbox.closed,
            final(self).submitted@ == old(self).submitted@,
            old(self).mailbox.items@.len() > 0 ==> (step == ForwardStep::Forward(
                old(self).mailbox.items@.first(),
            ) && final(self).mailbox.items@ == old(self).mailbox.items@.drop_first() && final(self).forwarded@ == old(self).forwarded@.push(old(self).mailbox.items@.first())),
            old(self).mailbox.items@.len() == 0 ==> (final(self).mailbox.items@ == old(self).mailbox.items@ && final(self).forwarded@ == old(self).forwarded@),
            (old(self).mailbox.items@.len() == 0 && !old(self).mailbox.closed) ==> step is Idle,
            (old(self).mailbox.items@.len() == 0 && old(self).mailbox.closed) ==> step is Ended,
    {
        let outcome = self.mailbox.take();
        match outcome {
            TakeOutcome::Item(m) => {
                let ghost message = m;
                self.forwarded = Ghost(self.forwarded@.push(message));
                proof {
                    assert(self.forwarded@ + self.mailbox.items@ =~= self.submitted@);
                }
                ForwardStep::Forward(m)
            },
            TakeOutcome::Pending => ForwardStep::Idle,
            TakeOutcome::Ended => ForwardStep::Ended,
        }
    }

    /// Teardown: closes the mailbox.  Messages still pending are discarded
    /// with the queue — the task is aborted rather than drained.
    pub fn close(&mut self)
        requires
            old(self).wf(),
        ensures
            final(self).wf(),
            final(self).topic == old(self).topic,
            final(self).mailbox.items@ == old(self).mailbox.items@,
            final(self).mailbox.capacity == old(self).mailbox.capacity,
            final(self).mailbox.closed,
            final(self).submitted@ == old(self).submitted@,
            final(self).forwarded@ == old(self).forwarded@,
    {
        self.mailbox.close();
    }
}

/// Law: the send path preserves order and loses nothing while running.
///
/// What has reached the publish-handle is exactly the first part of what the
/// callers submitted, in submission order; the rest is still pending, within
/// the mailbox bound.
pub proof fn lemma_send_order_preserved(q: SendQueue)
    requires
        q.wf(),
    ensures
        q.forwarded@ == q.submitted@.take(q.forwarded@.len() as int),
        is_subseq_of(q.forwarded@, q.submitted@),
        q.forwarded@.len() + q.mailbox.items@.len() == q.submitted@.len(),
        q.mailbox.items@.len() <= q.mailbox.capacity,
{
    assert(q.submitted@.take(q.forwarded@.len() as int) =~= q.forwarded@);
    lemma_prefix_subseq(q.forwarded@, q.mailbox.items@);
}

} // verus!
