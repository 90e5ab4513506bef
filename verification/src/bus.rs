//! The bus: one broadcast channel that carries every message, a sender that stamps each
//! message with its actor's id, and a receiver that stops when its actor is told to.

use crate::message::FlighthookMessage;
use std::sync::atomic::AtomicBool;
use std::sync::Arc;
use tokio::sync::broadcast::{Receiver, Sender};
use vstd::prelude::*;

verus! {

/// The sending half of a `tokio` broadcast channel. Nothing of its inside is known here.
#[verifier::external_type_specification]
#[verifier::external_body]
#[verifier::reject_recursive_types(T)]
pub struct ExSender<T>(Sender<T>);

/// The receiving half of a `tokio` broadcast channel. Nothing of its inside is known here.
#[verifier::external_type_specification]
#[verifier::external_body]
#[verifier::reject_recursive_types(T)]
pub struct ExReceiver<T>(Receiver<T>);

/// How often a receiver that has fallen behind tries again within one poll.
pub const MAX_LAG_RETRIES: u32 = 1024;

/// Why a poll gave no message and will give none: the actor was told to stop, or the bus is
/// closed.
#[derive(Debug, Clone, Copy, PartialEq, Eq, Structural)]
pub enum PollError {
    Shutdown,
}

/// What the channel gave when it was asked for the next message.
#[derive(Debug, Clone)]
pub enum Received {
    /// The next message.
    Message(FlighthookMessage),
    /// Nothing, for now.
    Empty,
    /// Nothing, ever: every sender is gone.
    Closed,
    /// The receiver fell behind and this many messages are lost to it; it goes on with the
    /// oldest message that the channel still holds.
    Lagged(u64),
}

/// What a poll does with what the channel gave.
#[derive(Debug, Clone)]
pub enum PollStep {
    /// Hand the message to the actor.
    Deliver(FlighthookMessage),
    /// Tell the actor that there is nothing for now.
    Empty,
    /// Tell the actor to stop.
    Shutdown,
    /// Ask the channel again.
    Retry,
}

/// What a poll does with what the channel gave: a message is handed on, an empty channel is
/// reported as empty, a closed channel stops the actor, and a receiver that fell behind asks
/// again.
pub open spec fn spec_poll_step(received: Received) -> PollStep {
    match received {
        Received::Message(m) => PollStep::Deliver(m),
        Received::Empty => PollStep::Empty,
        Received::Closed => PollStep::Shutdown,
        Received::Lagged(_) => PollStep::Retry,
    }
}

/// Decides what a poll does with what the channel gave.
pub fn poll_step(received: Received) -> (step: PollStep)
    ensures
        step == spec_poll_step(received),
{
    match received {
        Received::Message(m) => PollStep::Deliver(m),
        Received::Empty => PollStep::Empty,
        Received::Closed => PollStep::Shutdown,
        Received::Lagged(_) => PollStep::Retry,
    }
}

/// What a poll does before it asks the channel: it stops where the actor was told to stop,
/// whatever the channel holds.
pub open spec fn spec_poll_gate(stop: bool) -> Option<PollError> {
    if stop {
        Some(PollError::Shutdown)
    } else {
        None
    }
}

/// Decides from the shutdown flag's value whether a poll ends before the channel is asked.
pub fn poll_gate(stop: bool) -> (r: Option<PollError>)
    ensures
        r == spec_poll_gate(stop),
{
    if stop {
        Some(PollError::Shutdown)
    } else {
        None
    }
}

/// How a poll goes on after one answer of the channel.
#[derive(Debug)]
pub enum PollNext {
    /// The poll ends with this result.
    Done(Result<Option<FlighthookMessage>, PollError>),
    /// The channel is asked again; so many answers said that the receiver fell behind.
    Again(u32),
}

/// How a poll goes on after the channel's answer `received`, when `tries` answers before it
/// said that the receiver fell behind. A message ends the poll with that message, an empty
/// channel with nothing, a closed channel with `Shutdown`. A receiver that fell behind asks
/// again; after `MAX_LAG_RETRIES` such answers in a row the poll ends with nothing.
pub open spec fn spec_poll_next(tries: u32, received: Received) -> PollNext {
    match spec_poll_step(received) {
        PollStep::Deliver(m) => PollNext::Done(Ok(Some(m))),
        PollStep::Empty => PollNext::Done(Ok(None)),
        PollStep::Shutdown => PollNext::Done(Err(PollError::Shutdown)),
        PollStep::Retry => if tries < MAX_LAG_RETRIES {
            PollNext::Again((tries + 1) as u32)
        } else {
            PollNext::Done(Ok(None))
        },
    }
}

/// Decides how a poll goes on after one answer of the channel.
pub fn poll_next(tries: u32, received: Received) -> (next: PollNext)
    ensures
        next == spec_poll_next(tries, received),
{
    match poll_step(received) {
        PollStep::Deliver(m) => PollNext::Done(Ok(Some(m))),
        PollStep::Empty => PollNext::Done(Ok(None)),
        PollStep::Shutdown => PollNext::Done(Err(PollError::Shutdown)),
        PollStep::Retry => if tries < MAX_LAG_RETRIES {
            PollNext::Again(tries + 1)
        } else {
            PollNext::Done(Ok(None))
        },
    }
}

/// A receiver that fell behind is never stopped for it, however many messages it lost.
pub proof fn lemma_lag_is_survived(lost: u64)
    ensures
        spec_poll_step(Received::Lagged(lost)) == PollStep::Retry,
{
}

/// Hands a message to `tokio::sync::broadcast::Sender::send`. A message that no receiver is
/// there for is dropped.
///
/// Trusted, and nothing is claimed: the call returns nothing that the library uses.
#[verifier::external_body]
fn channel_send(tx: &Sender<FlighthookMessage>, message: FlighthookMessage) {
    let _ = tx.send(message);
}

/// Calls `tokio::sync::broadcast::Sender::subscribe`.
///
/// Trusted, and nothing is claimed of the receiver that comes back.
#[verifier::external_body]
fn channel_subscribe(tx: &Sender<FlighthookMessage>) -> (rx: Receiver<FlighthookMessage>) {
    tx.subscribe()
}

/// Calls `Clone::clone` of `tokio::sync::broadcast::Sender`.
///
/// Trusted, and nothing is claimed of the sender that comes back.
#[verifier::external_body]
fn channel_clone(tx: &Sender<FlighthookMessage>) -> (copy: Sender<FlighthookMessage>) {
    tx.clone()
}

/// Calls `tokio::sync::broadcast::Receiver::try_recv` and tells its four outcomes apart.
///
/// Trusted, and nothing is claimed: what comes back depends on what other threads have sent.
#[verifier::external_body]
fn channel_try_recv(rx: &mut Receiver<FlighthookMessage>) -> (received: Received) {
    match rx.try_recv() {
        Ok(message) => Received::Message(message),
        Err(tokio::sync::broadcast::error::TryRecvError::Empty) => Received::Empty,
        Err(tokio::sync::broadcast::error::TryRecvError::Closed) => Received::Closed,
        Err(tokio::sync::broadcast::error::TryRecvError::Lagged(n)) => Received::Lagged(n),
    }
}

/// A sender for one actor. Every message that goes through it carries the actor's id as its
/// source.
pub struct BusSender {
    actor_id: String,
    inner: Sender<FlighthookMessage>,
    shutdown: Arc<AtomicBool>,
}

/// A receiver for one actor, with the flag that tells the actor to stop.
pub struct BusReceiver {
    inner: Receiver<FlighthookMessage>,
    shutdown: Arc<AtomicBool>,
}

impl BusSender {
    /// The id of the actor, as plain text.
    pub closed spec fn spec_actor_id(&self) -> Seq<char> {
        self.actor_id@
    }

    /// The channel that the sender sends on.
    pub closed spec fn spec_channel(&self) -> Sender<FlighthookMessage> {
        self.inner
    }

    /// The flag that tells the actor to stop.
    pub closed spec fn spec_flag(&self) -> Arc<AtomicBool> {
        self.shutdown
    }

    /// A sender for the actor `actor_id` on the channel `inner`, with the actor's shutdown
    /// flag.
    pub fn new(actor_id: String, inner: Sender<FlighthookMessage>, shutdown: Arc<AtomicBool>) -> (s:
        BusSender)
        ensures
            s.spec_actor_id() == actor_id@,
            s.spec_channel() == inner,
            s.spec_flag() == shutdown,
    {
        BusSender { actor_id, inner, shutdown }
    }

    /// The id of the actor.
    pub fn actor_id(&self) -> (id: &str)
        ensures
            id@ == self.spec_actor_id(),
    {
        self.actor_id.as_str()
    }

    /// The channel itself: the one that the sender was made on.
    pub fn raw_sender(&self) -> (tx: &Sender<FlighthookMessage>)
        ensures
            *tx == self.spec_channel(),
    {
        &self.inner
    }

    /// The message as it goes out: with the actor's id as its source, and its time, payload
    /// and event as they were.
    pub fn stamp(&self, message: FlighthookMessage) -> (out: FlighthookMessage)
        ensures
            out.source@ == self.spec_actor_id(),
            out.timestamp == message.timestamp,
            out.raw_payload == message.raw_payload,
            out.event == message.event,
    {
        FlighthookMessage {
            source: self.actor_id.clone(),
            timestamp: message.timestamp,
            raw_payload: message.raw_payload,
            event: message.event,
        }
    }

    /// Stamps the message with the actor's id and sends it. The call never waits; a message
    /// that nobody listens for is dropped.
    pub fn send(&self, message: FlighthookMessage) {
        let out = self.stamp(message);
        channel_send(&self.inner, out);
    }

    /// A new receiver on the bus, which shares this sender's shutdown flag. It sees the
    /// messages that are sent from now on.
    pub fn subscribe(&self) -> (rx: BusReceiver)
        ensures
            rx.spec_flag() == self.spec_flag(),
    {
        BusReceiver { inner: channel_subscribe(&self.inner), shutdown: self.shutdown.clone() }
    }

    /// Another sender for the same actor on the same channel.
    pub fn duplicate(&self) -> (s: BusSender)
        ensures
            s.spec_actor_id() == self.spec_actor_id(),
            s.spec_flag() == self.spec_flag(),
    {
        BusSender {
            actor_id: self.actor_id.clone(),
            inner: channel_clone(&self.inner),
            shutdown: self.shutdown.clone(),
        }
    }
}

impl BusReceiver {
    /// The receiving end of the channel that the receiver reads.
    pub closed spec fn spec_channel(&self) -> Receiver<FlighthookMessage> {
        self.inner
    }

    /// The flag that tells the actor to stop.
    pub closed spec fn spec_flag(&self) -> Arc<AtomicBool> {
        self.shutdown
    }

    /// A receiver on `inner` with a shutdown flag of its own, which nobody else can set.
    pub fn from_receiver(inner: Receiver<FlighthookMessage>) -> (rx: BusReceiver)
        ensures
            rx.spec_channel() == inner,
    {
        BusReceiver { inner, shutdown: Arc::new(AtomicBool::new(false)) }
    }

    /// Whether the actor has been told to stop.
    pub fn is_shutdown(&self) -> (stop: bool) {
        self.shutdown.load(std::sync::atomic::Ordering::Relaxed)
    }

    /// Asks for the next message without waiting. `Ok(None)` says that there is none for now;
    /// `Err` says that the actor was told to stop or that the bus is closed. The flag is read
    /// first and `poll_gate` decides on it; then the channel is asked and `poll_next` decides
    /// on each of its answers, so that a receiver that fell behind asks again, up to
    /// `MAX_LAG_RETRIES` times.
    pub fn poll(&mut self) -> (r: Result<Option<FlighthookMessage>, PollError>)
        ensures
            final(self).spec_flag() == old(self).spec_flag(),
    {
        match poll_gate(self.is_shutdown()) {
            Some(stop) => {
                return Err(stop);
            },
            None => {},
        }
        let mut tries: u32 = 0;
        loop
            invariant
                tries <= MAX_LAG_RETRIES,
                self.spec_flag() == old(self).spec_flag(),
            decreases MAX_LAG_RETRIES - tries,
        {
            match poll_next(tries, channel_try_recv(&mut self.inner)) {
                PollNext::Done(result) => {
                    return result;
                },
                PollNext::Again(more) => {
                    tries = more;
                },
            }
        }
    }
}

/// A message that went through a sender whose actor has a name carries a source that is not
/// empty.
pub proof fn lemma_stamped_source(actor_id: Seq<char>, stamped: FlighthookMessage)
    requires
        actor_id.len() > 0,
        stamped.source@ == actor_id,
    ensures
        stamped.source@.len() > 0,
{
}

} // verus!
