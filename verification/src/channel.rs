//! The top-level bridge: owns the configuration, the lazily attached broker
//! client and the two directional queues, and decides every step of their
//! lifecycle.
//!
//! The broker itself is asynchronous and lives outside this crate.  The
//! surrounding runtime therefore drives a small protocol: it asks the
//! channel what to do ([`Channel::ensure_recv`] / [`Channel::ensure_send`]
//! return an [`EnsureAction`]), performs the broker call the action names,
//! and reports how it went ([`Channel::ensure_recv_complete`] /
//! [`Channel::ensure_send_complete`]).  Every decision — when to connect,
//! when to open a handle, what each caller operation returns, what teardown
//! must touch — is taken and verified here.
//!
//! Concurrency note: the runtime serializes access per direction (one lock
//! for the receive slot, one for the send slot), so each decide/perform/
//! report round is atomic with respect to its own direction.  Under that
//! discipline the contracts below make double-checked lazy initialization
//! exact: a second caller finds the slot filled and is told `Ready`, so at
//! most one broker handle is ever opened per direction.

use vstd::prelude::*;

use crate::mailbox::{OfferOutcome, TakeOutcome};
use crate::message::Message;
use crate::recv::RecvQueue;
use crate::send::SendQueue;

verus! {

/// Bound of the receive mailbox: how many inbound messages may wait for the
/// consumer before the forwarding task starts discarding new ones.
pub const RECV_MAILBOX_CAPACITY: usize = 4;

/// Bound of the send mailbox: how many outbound messages may wait for the
/// forwarding task before callers are pushed back on.
pub const SEND_MAILBOX_CAPACITY: usize = 2;

/// How a channel operation can fail.
#[derive(Clone, Copy, Debug, PartialEq, Eq, Structural)]
pub enum ChannelError {
    /// The broker was unreachable or rejected the connection at configure
    /// time.  Fatal to start, but retryable: no partial state is kept.
    ConnectionFailed,
    /// An operation needed the client before configuration succeeded.
    NotConfigured,
    /// Opening a broker handle failed — bad topic or broker refusal.  The
    /// slot stays empty, so the next use may retry.
    QueueInitFailed,
    /// Sending is unavailable: no queue was ever built, or the queue is
    /// already stopped.  An end-of-stream signal, not a hard fault.
    DeliveryUnavailable,
}

/// The immutable configuration a channel is (re)armed with: the model name,
/// which doubles as the broker topic, and the telemetry toggle.
#[derive(Clone, Debug)]
pub struct ChannelBuilder {
    pub model: String,
    pub otlp: bool,
}

/// What a caller of `ensure_recv` / `ensure_send` must do next.
#[derive(Debug)]
pub enum EnsureAction {
    /// The queue for this direction already exists: reuse it.
    Ready,
    /// No broker client is attached: the channel was never configured.
    /// A signal, not an error — "never started" stays distinguishable from
    /// "failed to start".
    NotConfigured,
    /// Open a broker handle for this topic, then report the outcome through
    /// the matching `*_complete` call.
    Open(String),
}

/// How opening a broker handle went, as the runtime reports it back.
#[derive(Clone, Copy, Debug, PartialEq, Eq, Structural)]
pub enum OpenOutcome {
    /// The handle was opened; the queue may start.
    Opened,
    /// The topic did not parse as a broker topic identifier.
    TopicInvalid,
    /// The broker rejected the subscribe/publish setup.
    Rejected,
}

/// What `stop` leaves for the runtime to do: which background tasks exist
/// and must be torn down (close + await for receive, abort for send).
#[derive(Clone, Copy, Debug, PartialEq, Eq, Structural)]
pub struct StopActions {
    pub stop_recv: bool,
    pub stop_send: bool,
}

/// The bridge state.  `C` is the broker client handle; the channel never
/// looks inside it, it only owns it between configure and stop.
pub struct Channel<C> {
    /// Present from the first successful `ChannelBuilder::build` until stop.
    pub config: Option<ChannelBuilder>,
    /// The connected broker client; attached once, shared by both queues.
    pub client: Option<C>,
    /// The inbound queue; built lazily on first use.
    pub recv_queue: Option<RecvQueue>,
    /// The outbound queue; built lazily on first use.
    pub send_queue: Option<SendQueue>,
}

impl ChannelBuilder {
    /// Starts a configuration for the given model (topic) name; telemetry
    /// defaults to off.
    pub fn new(model: String) -> (b: ChannelBuilder)
        ensures
            b.model == model,
            !b.otlp,
    {
        ChannelBuilder { model, otlp: false }
    }

    /// Sets the telemetry toggle.
    pub fn otlp(self, value: bool) -> (b: ChannelBuilder)
        ensures
            b.model == self.model,
            b.otlp == value,
    {
        ChannelBuilder { otlp: value, ..self }
    }

    /// Stores this configuration in the channel and says whether a broker
    /// client must still be connected.
    ///
    /// Always overwrites the stored configuration — a later queue build uses
    /// the newest settings — but never touches an already attached client:
    /// reconfiguring does not reconnect.  When a client is still needed the
    /// runtime connects and reports through [`Channel::configure_complete`].
    pub fn build<C>(self, channel: &mut Channel<C>) -> (needs_client: bool)
        ensures
            *final(channel) == old(channel).configured_spec(self),
            final(channel).config == Some(self),
            needs_client == (old(channel).client is None),
            old(channel).wf() ==> final(channel).wf(),
    {
        let needs_client = channel.client.is_none();
        channel.config = Some(self);
        needs_client
    }
}

impl<C> Channel<C> {
    /// Nothing configured, nothing connected, no queue: valid.
    pub open spec fn wf(&self) -> bool {
        &&& self.client is Some ==> self.config is Some
        &&& self.recv_queue is Some ==> self.client is Some
        &&& self.send_queue is Some ==> self.client is Some
        &&& self.recv_queue matches Some(q) ==> q.wf()
        &&& self.send_queue matches Some(q) ==> q.wf()
    }

    /// The state after a configuration was stored: only `config` changes.
    pub open spec fn configured_spec(self, b: ChannelBuilder) -> Channel<C> {
        Channel { config: Some(b), ..self }
    }

    /// The state `stop` leaves behind: everything released.
    pub open spec fn stop_spec(self) -> Channel<C> {
        Channel { config: None, client: None, recv_queue: None, send_queue: None }
    }

    /// The decision `ensure_recv` takes.
    pub open spec fn ensure_recv_spec(&self) -> EnsureAction {
        if self.recv_queue is Some {
            EnsureAction::Ready
        } else if self.client is None {
            EnsureAction::NotConfigured
        } else {
            EnsureAction::Open(self.config->Some_0.model)
        }
    }

    /// The decision `ensure_send` takes.
    pub open spec fn ensure_send_spec(&self) -> EnsureAction {
        if self.send_queue is Some {
            EnsureAction::Ready
        } else if self.client is None {
            EnsureAction::NotConfigured
        } else {
            EnsureAction::Open(self.config->Some_0.model)
        }
    }

    /// A fresh, unconfigured channel.
    pub fn new() -> (c: Channel<C>)
        ensures
            c.wf(),
            c.config is None,
            c.client is None,
            c.recv_queue is None,
            c.send_queue is None,
    {
        Channel { config: None, client: None, recv_queue: None, send_queue: None }
    }

    /// Finishes configuration: attaches the client the runtime connected, or
    /// records that connecting failed.
    ///
    /// On failure nothing is retained — the client slot stays empty, so a
    /// later configure may retry.
    pub fn configure_complete(&mut self, connection: Option<C>) -> (r: Result<(), ChannelError>)
        requires
            old(self).wf(),
            old(self).config is Some,
            old(self).client is None,
        ensures
            final(self).wf(),
            final(self).config == old(self).config,
            final(self).recv_queue == old(self).recv_queue,
            final(self).send_queue == old(self).send_queue,
            connection matches Some(c) ==> (r == Ok::<(), ChannelError>(()) && final(self).client
                == Some(c)),
            connection is None ==> (r == Err::<(), ChannelError>(ChannelError::ConnectionFailed)
                && final(self).client is None),
    {
        match connection {
            Some(client) => {
                self.client = Some(client);
                Ok(())
            },
            None => Err(ChannelError::ConnectionFailed),
        }
    }

    /// Decides how a receive queue is obtained: reuse the existing one,
    /// signal that the channel was never configured, or tell the runtime
    /// which topic to subscribe to.
    pub fn ensure_recv(&self) -> (a: EnsureAction)
        requires
            self.wf(),
        ensures
            a == self.ensure_recv_spec(),
    {
        if self.recv_queue.is_some() {
            EnsureAction::Ready
        } else {
            match (&self.client, &self.config) {
                (Some(_), Some(cfg)) => EnsureAction::Open(cfg.model.clone()),
                _ => EnsureAction::NotConfigured,
            }
        }
    }

    /// Records how the subscribe the runtime performed went: installs the
    /// fresh receive queue, or leaves the slot empty so a later call can
    /// retry once the broker recovers.
    pub fn ensure_recv_complete(&mut self, outcome: OpenOutcome) -> (r: Result<(), ChannelError>)
        requires
            old(self).wf(),
            old(self).client is Some,
            old(self).recv_queue is None,
        ensures
            final(self).wf(),
            final(self).config == old(self).config,
            final(self).client == old(self).client,
            final(self).send_queue == old(self).send_queue,
            outcome is Opened ==> (r == Ok::<(), ChannelError>(()) && (final(self).recv_queue matches Some(q) && q.topic == old(self).config->Some_0.model
                && q.mailbox.capacity == RECV_MAILBOX_CAPACITY && q.mailbox.items@ == Seq::<
                Message,
            >::empty() && !q.mailbox.closed && q.produced@ == Seq::<Message>::empty()
                && q.accepted@ == Seq::<Message>::empty() && q.delivered@ == Seq::<
                Message,
            >::empty())),
            !(outcome is Opened) ==> (r == Err::<(), ChannelError>(ChannelError::QueueInitFailed)
                && final(self).recv_queue is None),
    {
        match outcome {
            OpenOutcome::Opened => {
                let topic = match &self.config {
                    Some(cfg) => cfg.model.clone(),
                    None => vstd::pervasive::unreached(),
                };
                self.recv_queue = Some(RecvQueue::new(topic, RECV_MAILBOX_CAPACITY));
                Ok(())
            },
            OpenOutcome::TopicInvalid => Err(ChannelError::QueueInitFailed),
            OpenOutcome::Rejected => Err(ChannelError::QueueInitFailed),
        }
    }

    /// Decides how a send queue is obtained; the send-direction twin of
    /// [`Channel::ensure_recv`].
    pub fn ensure_send(&self) -> (a: EnsureAction)
        requires
            self.wf(),
        ensures
            a == self.ensure_send_spec(),
    {
        if self.send_queue.is_some() {
            EnsureAction::Ready
        } else {
            match (&self.client, &self.config) {
                (Some(_), Some(cfg)) => EnsureAction::Open(cfg.model.clone()),
                _ => EnsureAction::NotConfigured,
            }
        }
    }

    /// Records how the publish setup went; the send-direction twin of
    /// [`Channel::ensure_recv_complete`].
    pub fn ensure_send_complete(&mut self, outcome: OpenOutcome) -> (r: Result<(), ChannelError>)
        requires
            old(self).wf(),
            old(self).client is Some,
            old(self).send_queue is None,
        ensures
            final(self).wf(),
            final(self).config == old(self).config,
            final(self).client == old(self).client,
            final(self).recv_queue == old(self).recv_queue,
            outcome is Opened ==> (r == Ok::<(), ChannelError>(()) && (final(self).send_queue matches Some(q) && q.topic == old(self).config->Some_0.model
                && q.mailbox.capacity == SEND_MAILBOX_CAPACITY && q.mailbox.items@ == Seq::<
                Message,
            >::empty() && !q.mailbox.closed && q.submitted@ == Seq::<Message>::empty()
                && q.forwarded@ == Seq::<Message>::empty())),
            !(outcome is Opened) ==> (r == Err::<(), ChannelError>(ChannelError::QueueInitFailed)
                && final(self).send_queue is None),
    {
        match outcome {
            OpenOutcome::Opened => {
                let topic = match &self.config {
                    Some(cfg) => cfg.model.clone(),
                    None => vstd::pervasive::unreached(),
                };
                self.send_queue = Some(SendQueue::new(topic, SEND_MAILBOX_CAPACITY));
                Ok(())
            },
            OpenOutcome::TopicInvalid => Err(ChannelError::QueueInitFailed),
            OpenOutcome::Rejected => Err(ChannelError::QueueInitFailed),
        }
    }

    /// The caller-side read: delegates to the receive queue.  On a channel
    /// that was never asked to receive it reports the end of the stream at
    /// once — "no data", not an error.
    pub fn recv(&mut self) -> (r: TakeOutcome)
        requires
            old(self).wf(),
        ensures
            final(self).wf(),
            final(self).config == old(self).config,
            final(self).client == old(self).client,
            final(self).send_queue == old(self).send_queue,
            old(self).recv_queue is None ==> (r is Ended && final(self).recv_queue is None),
            old(self).recv_queue matches Some(q) ==> {
                &&& final(self).recv_queue matches Some(p)
                &&& p.topic == q.topic
                &&& p.mailbox.capacity == q.mailbox.capacity
                &&& p.mailbox.closed == q.mailbox.closed
                &&& p.produced@ == q.produced@
                &&& p.accepted@ == q.accepted@
                &&& q.mailbox.items@.len() > 0 ==> (r == TakeOutcome::Item(
                    q.mailbox.items@.first(),
                ) && p.mailbox.items@ == q.mailbox.items@.drop_first() && p.delivered@
                    == q.delivered@.push(q.mailbox.items@.first()))
                &&& q.mailbox.items@.len() == 0 ==> (p.mailbox.items@ == q.mailbox.items@
                    && p.delivered@ == q.delivered@)
                &&& (q.mailbox.items@.len() == 0 && !q.mailbox.closed) ==> r is Pending
                &&& (q.mailbox.items@.len() == 0 && q.mailbox.closed) ==> r is Ended
            },
    {
        match &mut self.recv_queue {
            Some(queue) => queue.poll(),
            None => TakeOutcome::Ended,
        }
    }

    /// The caller-side write: delegates to the send queue.  With no queue
    /// ever built, or a queue already stopped, the message comes back with
    /// an end-of-stream signal; a full mailbox hands it back so the caller
    /// can wait for room — it is never dropped.
    pub fn send(&mut self, m: Message) -> (r: SendOutcome)
        requires
            old(self).wf(),
        ensures
            final(self).wf(),
            final(self).config == old(self).config,
            final(self).client == old(self).client,
            final(self).recv_queue == old(self).recv_queue,
            old(self).send_queue is None ==> (r == SendOutcome::Unavailable(m) && final(self).send_queue is None),
            old(self).send_queue matches Some(q) ==> {
                &&& final(self).send_queue matches Some(p)
                &&& p.topic == q.topic
                &&& p.mailbox.capacity == q.mailbox.capacity
                &&& p.mailbox.closed == q.mailbox.closed
                &&& p.forwarded@ == q.forwarded@
                &&& q.mailbox.closed ==> (r == SendOutcome::Unavailable(m) && p.mailbox.items@
                    == q.mailbox.items@ && p.submitted@ == q.submitted@)
                &&& (!q.mailbox.closed && q.mailbox.items@.len() < q.mailbox.capacity) ==> (
                r is Accepted && p.mailbox.items@ == q.mailbox.items@.push(m) && p.submitted@
                    == q.submitted@.push(m))
                &&& (!q.mailbox.closed && q.mailbox.items@.len() == q.mailbox.capacity) ==> (r
                    == SendOutcome::Full(m) && p.mailbox.items@ == q.mailbox.items@
                    && p.submitted@ == q.submitted@)
            },
    {
        match &mut self.send_queue {
            Some(queue) => match queue.send(m) {
                OfferOutcome::Accepted => SendOutcome::Accepted,
                OfferOutcome::Full(m) => SendOutcome::Full(m),
                OfferOutcome::Refused(m) => SendOutcome::Unavailable(m),
            },
            None => SendOutcome::Unavailable(m),
        }
    }

    /// Tears the bridge down: releases both queues, the client and the
    /// configuration, and tells the runtime which background tasks to end.
    ///
    /// Total — no precondition: safe on a channel that was never configured,
    /// never used, or already stopped, and idempotent
    /// (see [`lemma_stop_idempotent`]).
    pub fn stop(&mut self) -> (r: StopActions)
        ensures
            *final(self) == old(self).stop_spec(),
            final(self).wf(),
            r.stop_recv == (old(self).recv_queue is Some),
            r.stop_send == (old(self).send_queue is Some),
    {
        let stop_recv = self.recv_queue.is_some();
        let stop_send = self.send_queue.is_some();
        self.recv_queue = None;
        self.send_queue = None;
        self.client = None;
        self.config = None;
        StopActions { stop_recv, stop_send }
    }
}

/// What became of a message handed to [`Channel::send`].
pub enum SendOutcome {
    /// Queued for the forwarding task.
    Accepted,
    /// The mailbox is full; here is the message back — wait for the task to
    /// drain, then send it again.
    Full(Message),
    /// No send queue exists (never built, or stopped): end of stream.
    Unavailable(Message),
}

/// Law: the configuration stored last wins.  Configuring twice before any
/// queue is built makes both directions open their broker handle for the
/// second topic.
pub proof fn lemma_reconfigure_uses_latest<C>(
    c: Channel<C>,
    first: ChannelBuilder,
    second: ChannelBuilder,
)
    requires
        c.wf(),
        c.client is Some,
        c.recv_queue is None,
        c.send_queue is None,
    ensures
        c.configured_spec(first).configured_spec(second).ensure_recv_spec()
            == EnsureAction::Open(second.model),
        c.configured_spec(first).configured_spec(second).ensure_send_spec()
            == EnsureAction::Open(second.model),
{
}

/// Law: at most one broker handle per direction.  A filled slot always
/// decides `Ready`, and an `Open` decision is only ever taken on an empty
/// slot — so, with each direction's decide/perform/report round serialized
/// by its lock, a second concurrent caller reuses the first caller's queue
/// instead of opening another handle.
pub proof fn lemma_ensure_opens_at_most_once<C>(c: Channel<C>)
    requires
        c.wf(),
    ensures
        c.recv_queue is Some ==> c.ensure_recv_spec() == EnsureAction::Ready,
        c.ensure_recv_spec() matches EnsureAction::Open(t) ==> c.recv_queue is None,
        c.send_queue is Some ==> c.ensure_send_spec() == EnsureAction::Ready,
        c.ensure_send_spec() matches EnsureAction::Open(t) ==> c.send_queue is None,
{
}

/// Law: stop is idempotent.  Stopping an already stopped channel changes
/// nothing and leaves nothing to tear down; and `Channel::stop` itself has
/// no precondition, so it is safe however little of the lifecycle ran.
pub proof fn lemma_stop_idempotent<C>(c: Channel<C>)
    ensures
        c.stop_spec().stop_spec() == c.stop_spec(),
        c.stop_spec().wf(),
        c.stop_spec().recv_queue is None,
        c.stop_spec().send_queue is None,
{
}

} // verus!

