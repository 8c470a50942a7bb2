//! A one-shot channel: a slot for one message, handed from a sender to a
//! receiver through two atomic flags.
//!
//! `in_use` is set by the first send and stays set; `ready` is set once the
//! message is in the slot and cleared by the receive that takes it. The slot
//! is read only under a `ready` that was found set, and written only by the
//! send that found `in_use` clear.

use crate::atomic::{AtomicFlag, MemoryOrder};
use vstd::prelude::*;

verus! {

/// A misuse of a channel, reported to the call that commits it.
#[derive(Clone, Copy, Debug, PartialEq, Eq, Structural)]
pub enum ProtocolViolation {
    /// A message was sent on a channel that had already been sent on.
    AlreadySent,
    /// A message was asked for while none was waiting.
    NoMessage,
}

impl ProtocolViolation {
    /// The complaint in words.
    pub fn message(&self) -> (text: &'static str)
        ensures
            text@ == (match *self {
                ProtocolViolation::AlreadySent => "can't send more than one message"@,
                ProtocolViolation::NoMessage => "no message available!"@,
            }),
    {
        match self {
            ProtocolViolation::AlreadySent => "can't send more than one message",
            ProtocolViolation::NoMessage => "no message available!",
        }
    }
}

/// Where a channel stands in its life.
#[derive(Clone, Copy, Debug, PartialEq, Eq, Structural)]
pub enum Phase {
    /// Nothing has been sent.
    Empty,
    /// A message waits in the slot.
    Occupied,
    /// The message has been taken.
    Consumed,
}

/// What a channel holds.
pub struct ChannelState<T> {
    /// The message waiting in the slot, if there is one.
    pub message: Option<T>,
    /// Whether a send has claimed the slot.
    pub in_use: bool,
    /// Whether the slot has been published to the receiver.
    pub ready: bool,
    /// How often the channel has been split.
    pub generation: nat,
}

impl<T> ChannelState<T> {
    /// A channel that nothing has been sent on.
    pub open spec fn empty(generation: nat) -> Self {
        ChannelState { message: None, in_use: false, ready: false, generation }
    }

    /// What holds of a channel between any two operations: a message is in
    /// the slot exactly while `ready` is set, and only a channel that was
    /// sent on is ever ready.
    pub open spec fn wf(self) -> bool {
        &&& self.ready <==> self.message is Some
        &&& self.ready ==> self.in_use
    }

    /// Where the channel stands.
    pub open spec fn phase(self) -> Phase {
        if !self.in_use {
            Phase::Empty
        } else if self.ready {
            Phase::Occupied
        } else {
            Phase::Consumed
        }
    }

    /// The channel claimed by a send.
    pub open spec fn claim(self) -> Self {
        ChannelState { in_use: true, ..self }
    }

    /// `message` written to the slot.
    pub open spec fn write(self, message: T) -> Self {
        ChannelState { message: Some(message), ..self }
    }

    /// The slot published to the receiver.
    pub open spec fn publish(self) -> Self {
        ChannelState { ready: true, ..self }
    }

    /// The publication taken by a receive.
    pub open spec fn take(self) -> Self {
        ChannelState { ready: false, ..self }
    }

    /// The slot emptied.
    pub open spec fn read(self) -> Self {
        ChannelState { message: None, ..self }
    }

    /// The channel after an undisturbed attempt to send `message`: the first
    /// send on a channel claims it, writes the slot and publishes it, a
    /// later one changes nothing.
    pub open spec fn send(self, message: T) -> Self {
        if self.in_use {
            self
        } else {
            self.claim().write(message).publish()
        }
    }

    /// The channel after an undisturbed attempt to receive: where a message
    /// waits, the publication is taken and the slot emptied; where none
    /// does, nothing changes.
    pub open spec fn receive(self) -> Self {
        if self.ready {
            self.take().read()
        } else {
            self
        }
    }
}

/// The shared state of a one-shot channel.
pub struct Channel<T> {
    message: Option<T>,
    in_use: AtomicFlag,
    ready: AtomicFlag,
    generation: Ghost<nat>,
}

/// The right to send on one generation of a channel.
pub struct Sender<T> {
    generation: Ghost<nat>,
    message: core::marker::PhantomData<T>,
}

/// The right to receive from one generation of a channel.
pub struct Receiver<T> {
    generation: Ghost<nat>,
    message: core::marker::PhantomData<T>,
}

impl<T> View for Channel<T> {
    type V = ChannelState<T>;

    closed spec fn view(&self) -> ChannelState<T> {
        ChannelState {
            message: self.message,
            in_use: self.in_use@,
            ready: self.ready@,
            generation: self.generation@,
        }
    }
}

impl<T> Channel<T> {
    /// An empty channel.
    pub fn new() -> (channel: Self)
        ensures
            channel@ == ChannelState::<T>::empty(0),
            channel@.wf(),
    {
        Channel {
            message: None,
            in_use: AtomicFlag::new(false),
            ready: AtomicFlag::new(false),
            generation: Ghost(0),
        }
    }

    /// Sets `in_use`, and tells whether this send is the first.
    fn claim(&mut self) -> (first: bool)
        ensures
            first == !old(self)@.in_use,
            final(self)@ == old(self)@.claim(),
    {
        !self.in_use.swap(true, MemoryOrder::Relaxed)
    }

    /// Writes the slot.
    fn write(&mut self, message: T)
        ensures
            final(self)@ == old(self)@.write(message),
    {
        self.message = Some(message);
    }

    /// Sets `ready`. Who finds it set finds the slot written.
    fn publish(&mut self)
        ensures
            final(self)@ == old(self)@.publish(),
    {
        self.ready.store(true, MemoryOrder::Release);
    }

    /// Clears `ready`, and tells whether it was set. Who found it set has
    /// the slot as the send left it.
    fn take(&mut self) -> (taken: bool)
        ensures
            taken == old(self)@.ready,
            final(self)@ == old(self)@.take(),
    {
        self.ready.swap(false, MemoryOrder::Acquire)
    }

    /// Empties the slot.
    fn read(&mut self) -> (message: T)
        requires
            old(self)@.message is Some,
        ensures
            old(self)@.message == Some(message),
            final(self)@ == old(self)@.read(),
    {
        self.message.take().unwrap()
    }

    /// Puts `message` in the slot and marks it ready. On a channel that was
    /// sent on before, the message is refused and nothing changes.
    pub fn send(&mut self, message: T) -> (outcome: Result<(), ProtocolViolation>)
        requires
            old(self)@.wf(),
        ensures
            final(self)@.wf(),
            final(self)@ == old(self)@.send(message),
            outcome == (if old(self)@.in_use {
                Err::<(), ProtocolViolation>(ProtocolViolation::AlreadySent)
            } else {
                Ok::<(), ProtocolViolation>(())
            }),
    {
        if !self.claim() {
            return Err(ProtocolViolation::AlreadySent);
        }
        self.write(message);
        self.publish();
        Ok(())
    }

    /// Whether a message waits. The answer takes nothing from the slot.
    pub fn is_ready(&self) -> (ready: bool)
        ensures
            ready == self@.ready,
    {
        self.ready.load(MemoryOrder::Relaxed)
    }

    /// Where the channel stands.
    pub fn phase(&self) -> (phase: Phase)
        ensures
            phase == self@.phase(),
    {
        if !self.in_use.load(MemoryOrder::Relaxed) {
            Phase::Empty
        } else if self.ready.load(MemoryOrder::Relaxed) {
            Phase::Occupied
        } else {
            Phase::Consumed
        }
    }

    /// Takes the message out of the slot. Where none waits, nothing changes
    /// and the call is refused.
    pub fn receive(&mut self) -> (outcome: Result<T, ProtocolViolation>)
        requires
            old(self)@.wf(),
        ensures
            final(self)@.wf(),
            final(self)@ == old(self)@.receive(),
            outcome == (match old(self)@.message {
                Some(message) => Ok::<T, ProtocolViolation>(message),
                None => Err::<T, ProtocolViolation>(ProtocolViolation::NoMessage),
            }),
    {
        if !self.take() {
            return Err(ProtocolViolation::NoMessage);
        }
        Ok(self.read())
    }

    /// Starts the channel over, empty, and hands out the two ends of the new
    /// generation. A message still waiting is destroyed. The ends of earlier
    /// generations are void from here on.
    pub fn split(&mut self) -> (ends: (Sender<T>, Receiver<T>))
        ensures
            final(self)@.wf(),
            final(self)@ == ChannelState::<T>::empty(old(self)@.generation + 1),
            ends.0.generation() == final(self)@.generation,
            ends.1.generation() == final(self)@.generation,
    {
        let ghost generation = self.generation@ + 1;
        *self = Channel {
            message: None,
            in_use: AtomicFlag::new(false),
            ready: AtomicFlag::new(false),
            generation: Ghost(generation),
        };
        (
            Sender { generation: Ghost(generation), message: core::marker::PhantomData },
            Receiver { generation: Ghost(generation), message: core::marker::PhantomData },
        )
    }
}

/// A new channel and its two ends.
pub fn channel<T>() -> (parts: (Channel<T>, Sender<T>, Receiver<T>))
    ensures
        parts.0@.wf(),
        parts.0@ == ChannelState::<T>::empty(0),
        parts.1.generation() == 0,
        parts.2.generation() == 0,
{
    (
        Channel::new(),
        Sender { generation: Ghost(0), message: core::marker::PhantomData },
        Receiver { generation: Ghost(0), message: core::marker::PhantomData },
    )
}

impl<T> Sender<T> {
    /// The generation of the channel that this end belongs to.
    pub closed spec fn generation(&self) -> nat {
        self.generation@
    }

    /// Sends `message` and uses up the sender. See [`Channel::send`].
    pub fn send(self, channel: &mut Channel<T>, message: T) -> (outcome: Result<
        (),
        ProtocolViolation,
    >)
        requires
            old(channel)@.wf(),
            self.generation() == old(channel)@.generation,
        ensures
            final(channel)@.wf(),
            final(channel)@ == old(channel)@.send(message),
            outcome == (if old(channel)@.in_use {
                Err::<(), ProtocolViolation>(ProtocolViolation::AlreadySent)
            } else {
                Ok::<(), ProtocolViolation>(())
            }),
    {
        channel.send(message)
    }
}

impl<T> Receiver<T> {
    /// The generation of the channel that this end belongs to.
    pub closed spec fn generation(&self) -> nat {
        self.generation@
    }

    /// Whether a message waits. See [`Channel::is_ready`].
    pub fn is_ready(&self, channel: &Channel<T>) -> (ready: bool)
        requires
            self.generation() == channel@.generation,
        ensures
            ready == channel@.ready,
    {
        channel.is_ready()
    }

    /// Takes the message out of the slot. See [`Channel::receive`].
    pub fn receive(&self, channel: &mut Channel<T>) -> (outcome: Result<T, ProtocolViolation>)
        requires
            old(channel)@.wf(),
            self.generation() == old(channel)@.generation,
        ensures
            final(channel)@.wf(),
            final(channel)@ == old(channel)@.receive(),
            outcome == (match old(channel)@.message {
                Some(message) => Ok::<T, ProtocolViolation>(message),
                None => Err::<T, ProtocolViolation>(ProtocolViolation::NoMessage),
            }),
    {
        channel.receive()
    }
}

} // verus!
