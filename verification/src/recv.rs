//! The inbound queue: models the background task that pumps messages from a
//! broker subscribe-handle into a bounded mailbox, and the consumer that
//! drains that mailbox.
//!
//! The task favours freshness over completeness: when the mailbox is full the
//! incoming message is discarded rather than stalling the broker read loop.
//! Loss is the only permitted deviation — the ghost histories record that
//! what reaches the consumer is a subsequence of what the broker delivered.

use vstd::prelude::*;

use crate::mailbox::{Mailbox, PushOutcome, TakeOutcome};
use crate::message::Message;
use crate::order::{is_subseq_of, lemma_prefix_subseq, lemma_subseq_push_both,
    lemma_subseq_push_right, lemma_subseq_trans};

verus! {

/// One outcome of a blocking read on the subscribe-handle.
pub enum BrokerEvent {
    /// A message arrived.
    Data(Message),
    /// The subscribe stream ended.
    EndOfStream,
    /// A per-message read error; absorbed, the read retries.
    TransientError,
}

/// Whether the forwarding task keeps running after a step.
pub enum TaskFlow {
    Continue,
    Stop,
}

/// The receive-direction queue: a bounded mailbox plus the ghost history of
/// the forwarding task that fills it.
pub struct RecvQueue {
    /// The topic the subscribe-handle was opened for.
    pub topic: String,
    /// The bounded buffer between the task and the consumer.
    pub mailbox: Mailbox,
    /// Every message the broker handed to the task, in delivery order.
    pub produced: Ghost<Seq<Message>>,
    /// The messages that entered the mailbox, in delivery order.
    pub accepted: Ghost<Seq<Message>>,
    /// The messages the consumer has taken, in delivery order.
    pub delivered: Ghost<Seq<Message>>,
}

impl RecvQueue {
    /// Everything taken plus everything pending is exactly what was admitted,
    /// and what was admitted is what the broker delivered, minus losses.
    pub open spec fn wf(&self) -> bool {
        &&& self.mailbox.wf()
        &&& self.delivered@ + self.mailbox.items@ == self.accepted@
        &&& is_subseq_of(self.accepted@, self.produced@)
    }

    /// A fresh queue for `topic` with an empty, open mailbox.
    pub fn new(topic: String, capacity: usize) -> (q: RecvQueue)
        requires
            capacity >= 1,
        ensures
            q.wf(),
            q.topic == topic,
            q.mailbox.items@ == Seq::<Message>::empty(),
            q.mailbox.capacity == capacity,
            !q.mailbox.closed,
            q.produced@ == Seq::<Message>::empty(),
            q.accepted@ == Seq::<Message>::empty(),
            q.delivered@ == Seq::<Message>::empty(),
    {
        let q = RecvQueue {
            topic,
            mailbox: Mailbox::new(capacity),
            produced: Ghost(Seq::empty()),
            accepted: Ghost(Seq::empty()),
            delivered: Ghost(Seq::empty()),
        };
        assert(q.delivered@ + q.mailbox.items@ =~= q.accepted@);
        q
    }

    /// One step of the forwarding task: reacts to what the blocking read on
    /// the subscribe-handle returned.
    ///
    /// Data is admitted if there is room and discarded if not; the end of the
    /// stream closes the mailbox and stops the task; a transient read error
    /// changes nothing and the read retries.
    pub fn on_broker_event(&mut self, ev: BrokerEvent) -> (flow: TaskFlow)
        requires
            old(self).wf(),
        ensures
            final(self).wf(),
            final(self).topic == old(self).topic,
            final(self).mailbox.capacity == old(self).mailbox.capacity,
            final(self).delivered@ == old(self).delivered@,
            ev matches BrokerEvent::Data(m) ==> {
                &&& final(self).produced@ == old(self).produced@.push(m)
                &&& old(self).mailbox.closed ==> (flow is Stop && final(self).mailbox.items@ == old(self).mailbox.items@ && final(self).mailbox.closed && final(self).accepted@ == old(self).accepted@)
                &&& (!old(self).mailbox.closed && old(self).mailbox.items@.len() < old(self).mailbox.capacity) ==> (flow is Continue && final(self).accepted@ == old(self).accepted@.push(m) && final(self).mailbox.items@ == old(self).mailbox.items@.push(
                    m,
                ) && !final(self).mailbox.closed)
                &&& (!old(self).mailbox.closed && old(self).mailbox.items@.len() == old(self).mailbox.capacity) ==> (flow is Continue && final(self).mailbox.items@ == old(self).mailbox.items@ && !final(self).mailbox.closed && final(self).accepted@ == old(self).accepted@)
            },
            ev is EndOfStream ==> (flow is Stop && final(self).mailbox.closed && final(self).mailbox.items@ == old(self).mailbox.items@ && final(self).produced@ == old(self).produced@ && final(self).accepted@ == old(self).accepted@),
            ev is TransientError ==> (flow is Continue && final(self).mailbox.items@ == old(self).mailbox.items@ && final(self).mailbox.closed == old(self).mailbox.closed && final(self).produced@ == old(self).produced@ && final(self).accepted@ == old(self).accepted@),
    {
        match ev {
            BrokerEvent::Data(m) => {
                let ghost message = m;
                self.produced = Ghost(self.produced@.push(message));
                let outcome = self.mailbox.push_or_drop(m);
                match outcome {
                    PushOutcome::Accepted => {
                        self.accepted = Ghost(self.accepted@.push(message));
                        proof {
                            assert(self.delivered@ + self.mailbox.items@ =~= self.accepted@);
                            lemma_subseq_push_both(
                                old(self).accepted@,
                                old(self).produced@,
                                message,
                            );
                        }
                        TaskFlow::Continue
                    },
                    PushOutcome::Dropped => {
                        proof {
                            lemma_subseq_push_right(
                                old(self).accepted@,
                                old(self).produced@,
                                message,
                            );
                        }
                        TaskFlow::Continue
                    },
                    PushOutcome::Refused => {
                        proof {
                            lemma_subseq_push_right(
                                old(self).accepted@,
                                old(self).produced@,
                                message,
                            );
                        }
                        TaskFlow::Stop
                    },
                }
            },
            BrokerEvent::EndOfStream => {
                self.mailbox.close();
                TaskFlow::Stop
            },
            BrokerEvent::TransientError => TaskFlow::Continue,
        }
    }

    /// The consumer side: takes the oldest pending message, or reports
    /// whether more may come.
    pub fn poll(&mut self) -> (r: TakeOutcome)
        requires
            old(self).wf(),
        ensures
            final(self).wf(),
            final(self).topic == old(self).topic,
            final(self).mailbox.capacity == old(self).mailbox.capacity,
            final(self).mailbox.closed == old(self).mailbox.closed,
            final(self).produced@ == old(self).produced@,
            final(self).accepted@ == old(self).accepted@,
            old(self).mailbox.items@.len() > 0 ==> (r == TakeOutcome::Item(
                old(self).mailbox.items@.first(),
            ) && final(self).mailbox.items@ == old(self).mailbox.items@.drop_first() && final(self).delivered@ == old(self).delivered@.push(old(self).mailbox.items@.first())),
            old(self).mailbox.items@.len() == 0 ==> (final(self).mailbox.items@ == old(self).mailbox.items@ && final(self).delivered@ == old(self).delivered@),
            (old(self).mailbox.items@.len() == 0 && !old(self).mailbox.closed) ==> r is Pending,
            (old(self).mailbox.items@.len() == 0 && old(self).mailbox.closed) ==> r is Ended,
    {
        let outcome = self.mailbox.take();
        match outcome {
            TakeOutcome::Item(m) => {
                let ghost message = m;
                self.delivered = Ghost(self.delivered@.push(message));
                proof {
                    assert(self.delivered@ + self.mailbox.items@ =~= self.accepted@);
                }
                TakeOutcome::Item(m)
            },
            TakeOutcome::Pending => TakeOutcome::Pending,
            TakeOutcome::Ended => TakeOutcome::Ended,
        }
    }

    /// Consumer-side close, the first step of teardown: wakes a waiting
    /// reader and makes the forwarding task stop at its next push.
    pub fn close(&mut self)
        requires
            old(self).wf(),
        ensures
            final(self).wf(),
            final(self).topic == old(self).topic,
            final(self).mailbox.items@ == old(self).mailbox.items@,
            final(self).mailbox.capacity == old(self).mailbox.capacity,
            final(self).mailbox.closed,
            final(self).produced@ == old(self).produced@,
            final(self).accepted@ == old(self).accepted@,
            final(self).delivered@ == old(self).delivered@,
    {
        self.mailbox.close();
    }
}

/// Law: the receive path drops under backpressure but never reorders.
///
/// What the consumer has taken is exactly the first part of what was
/// admitted; what was admitted — and hence what the consumer takes — is a
/// subsequence of what the broker delivered; and no more messages than the
/// mailbox capacity are ever pending.
pub proof fn lemma_recv_order_preserved(q: RecvQueue)
    requires
        q.wf(),
    ensures
        q.delivered@ == q.accepted@.take(q.delivered@.len() as int),
        is_subseq_of(q.accepted@, q.produced@),
        is_subseq_of(q.delivered@, q.produced@),
        q.mailbox.items@.len() <= q.mailbox.capacity,
{
    assert(q.accepted@.take(q.delivered@.len() as int) =~= q.delivered@);
    lemma_prefix_subseq(q.delivered@, q.mailbox.items@);
    lemma_subseq_trans(q.delivered@, q.accepted@, q.produced@);
}

} // verus!
