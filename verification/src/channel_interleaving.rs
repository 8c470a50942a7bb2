//! The one-shot channel of [`crate::channel`] under interleaving.
//!
//! A send is three atomic steps: claim the channel, write the slot, publish
//! it. A receive is two: take the publication, read the slot. Any number of
//! parties may attempt either, and their steps come in any order. What is
//! followed beside the channel is which party has the slot in hand, and what
//! went in and what came out.

use crate::channel::ChannelState;
use vstd::prelude::*;

verus! {

/// How far the send that claimed the channel has come.
pub enum Sending {
    /// No send has the slot in hand.
    Idle,
    /// The channel is claimed; the slot has yet to be written.
    Claimed,
    /// The slot is written; it has yet to be published.
    Written,
}

/// How far the receive that took the publication has come.
pub enum Receiving {
    /// No receive has the slot in hand.
    Idle,
    /// The publication is taken; the slot has yet to be read.
    Taken,
}

/// One atomic step of one party.
pub enum Step<T> {
    /// A send sets `in_use`. If it was set before, the send is refused.
    Claim,
    /// The send that claimed the channel writes the slot.
    Write { message: T },
    /// The send that wrote the slot sets `ready`.
    Publish,
    /// A receive clears `ready`. If it was clear before, the receive is
    /// refused.
    Take,
    /// The receive that took the publication empties the slot.
    Read,
    /// Somebody looks at `ready`.
    Peek,
}

/// A channel of one generation and the parties around it.
pub struct Handoff<T> {
    /// The channel.
    pub channel: ChannelState<T>,
    /// The send that has the slot in hand.
    pub sending: Sending,
    /// The receive that has the slot in hand.
    pub receiving: Receiving,
    /// What has been written to the slot, first to last.
    pub accepted: Seq<T>,
    /// What has been read from the slot, first to last.
    pub delivered: Seq<T>,
}

impl<T> Handoff<T> {
    /// A channel as [`crate::channel::Channel::new`] or
    /// [`crate::channel::Channel::split`] leaves it.
    pub open spec fn empty(generation: nat) -> Self {
        Handoff {
            channel: ChannelState::empty(generation),
            sending: Sending::Idle,
            receiving: Receiving::Idle,
            accepted: Seq::empty(),
            delivered: Seq::empty(),
        }
    }

    /// Whether somebody is entitled to take `step`. Anybody may attempt a
    /// send or a receive; the slot is touched only by who has it in hand.
    pub open spec fn enabled(self, step: Step<T>) -> bool {
        match step {
            Step::Claim => true,
            Step::Write { message } => self.sending is Claimed,
            Step::Publish => self.sending is Written,
            Step::Take => true,
            Step::Read => self.receiving is Taken && self.channel.message is Some,
            Step::Peek => true,
        }
    }

    /// The state after `step`.
    pub open spec fn apply(self, step: Step<T>) -> Self {
        match step {
            Step::Claim => if self.channel.in_use {
                self
            } else {
                Handoff { channel: self.channel.claim(), sending: Sending::Claimed, ..self }
            },
            Step::Write { message } => Handoff {
                channel: self.channel.write(message),
                sending: Sending::Written,
                accepted: self.accepted.push(message),
                ..self
            },
            Step::Publish => Handoff {
                channel: self.channel.publish(),
                sending: Sending::Idle,
                ..self
            },
            Step::Take => if self.channel.ready {
                Handoff { channel: self.channel.take(), receiving: Receiving::Taken, ..self }
            } else {
                self
            },
            Step::Read => Handoff {
                channel: self.channel.read(),
                receiving: Receiving::Idle,
                delivered: self.delivered.push(self.channel.message->0),
                ..self
            },
            Step::Peek => self,
        }
    }

    /// Whether each of `steps` is enabled where it is taken.
    pub open spec fn admits(self, steps: Seq<Step<T>>) -> bool
        decreases steps.len(),
    {
        if steps.len() == 0 {
            true
        } else {
            self.admits(steps.drop_last()) && self.after(steps.drop_last()).enabled(steps.last())
        }
    }

    /// The state after `steps`, taken one after the other.
    pub open spec fn after(self, steps: Seq<Step<T>>) -> Self
        decreases steps.len(),
    {
        if steps.len() == 0 {
            self
        } else {
            self.after(steps.drop_last()).apply(steps.last())
        }
    }

    /// Whether no party has the slot in hand.
    pub open spec fn quiescent(self) -> bool {
        self.sending is Idle && self.receiving is Idle
    }

    /// The channel moves one way through its life, and the slot is in one
    /// hand at a time.
    pub open spec fn inv(self) -> bool {
        if !self.channel.in_use {
            // nothing sent
            &&& self.quiescent()
            &&& !self.channel.ready
            &&& self.channel.message is None
            &&& self.accepted.len() == 0
            &&& self.delivered.len() == 0
        } else if self.sending is Claimed {
            &&& self.receiving is Idle
            &&& !self.channel.ready
            &&& self.accepted.len() == 0
            &&& self.delivered.len() == 0
        } else if self.sending is Written || self.channel.ready || self.receiving is Taken {
            // the message is in the slot, with the sender, in the open, or
            // with the receiver
            &&& self.sending is Written ==> !self.channel.ready && self.receiving is Idle
            &&& self.channel.ready ==> self.quiescent()
            &&& self.receiving is Taken ==> !self.channel.ready && self.sending is Idle
            &&& self.accepted.len() == 1
            &&& self.channel.message == Some(self.accepted[0])
            &&& self.delivered.len() == 0
        } else {
            // the message is out
            &&& self.channel.message is None
            &&& self.accepted.len() == 1
            &&& self.delivered == self.accepted
        }
    }

    /// Every step that somebody is entitled to keeps the invariant.
    pub proof fn lemma_step_keeps_invariant(self, step: Step<T>)
        requires
            self.inv(),
            self.enabled(step),
        ensures
            self.apply(step).inv(),
    {
        match step {
            Step::Read => {
                assert(self.apply(step).delivered =~= self.accepted);
            },
            _ => {},
        }
    }

    /// The invariant holds all along every interleaving.
    pub proof fn lemma_interleaving_keeps_invariant(generation: nat, steps: Seq<Step<T>>)
        requires
            Self::empty(generation).admits(steps),
        ensures
            Self::empty(generation).after(steps).inv(),
        decreases steps.len(),
    {
        if steps.len() > 0 {
            Self::lemma_interleaving_keeps_invariant(generation, steps.drop_last());
            Self::empty(generation).after(steps.drop_last()).lemma_step_keeps_invariant(
                steps.last(),
            );
        }
    }

    /// Between operations, a channel is well formed.
    pub proof fn law_quiescent_is_well_formed(self)
        requires
            self.inv(),
            self.quiescent(),
        ensures
            self.channel.wf(),
    {
    }
}

/// Under every interleaving of attempts to send and to receive, at most one
/// message goes into the slot and at most one comes out, and what comes out
/// is what went in.
pub proof fn law_handed_over_at_most_once<T>(generation: nat, steps: Seq<Step<T>>)
    requires
        Handoff::<T>::empty(generation).admits(steps),
    ensures
        ({
            let now = Handoff::<T>::empty(generation).after(steps);
            &&& now.accepted.len() <= 1
            &&& now.delivered.len() <= now.accepted.len()
            &&& now.delivered.len() == 1 ==> now.delivered[0] == now.accepted[0]
        }),
{
    Handoff::<T>::lemma_interleaving_keeps_invariant(generation, steps);
}

/// Under every interleaving the slot is in one hand at a time: no read
/// meets a write, the read that is due finds the message in the slot, and a
/// message is in the open only with nobody's hand on the slot.
pub proof fn law_slot_is_in_one_hand<T>(generation: nat, steps: Seq<Step<T>>)
    requires
        Handoff::<T>::empty(generation).admits(steps),
    ensures
        ({
            let now = Handoff::<T>::empty(generation).after(steps);
            &&& now.sending is Idle || now.receiving is Idle
            &&& now.receiving is Taken ==> now.enabled(Step::Read)
            &&& now.channel.ready ==> now.quiescent() && now.channel.message is Some
        }),
{
    Handoff::<T>::lemma_interleaving_keeps_invariant(generation, steps);
}

/// An undisturbed send is [`ChannelState::send`]: on a channel between
/// operations, its steps leave the channel as the contract of
/// [`crate::channel::Channel::send`] says, and a refused send is one whose
/// claim found the channel in use.
pub proof fn law_send_is_its_steps<T>(now: Handoff<T>, message: T)
    requires
        now.inv(),
        now.quiescent(),
    ensures
        ({
            let claimed = now.apply(Step::Claim);
            let written = claimed.apply(Step::Write { message });
            let published = written.apply(Step::Publish);
            &&& now.channel.in_use ==> claimed == now && now.channel.send(message) == now.channel
            &&& !now.channel.in_use ==> claimed.enabled(Step::Write { message })
                && written.enabled(Step::Publish) && published.quiescent() && published.channel
                == now.channel.send(message)
        }),
{
}

/// An undisturbed receive is [`ChannelState::receive`].
pub proof fn law_receive_is_its_steps<T>(now: Handoff<T>)
    requires
        now.inv(),
        now.quiescent(),
    ensures
        ({
            let taken = now.apply(Step::Take);
            let read = taken.apply(Step::Read);
            &&& !now.channel.ready ==> taken == now && now.channel.receive() == now.channel
            &&& now.channel.ready ==> taken.enabled(Step::Read) && read.quiescent() && read.channel
                == now.channel.receive() && read.delivered == now.delivered.push(
                now.channel.message->0,
            )
        }),
{
}

} // verus!
