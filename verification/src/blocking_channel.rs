use core::marker::PhantomData;
use vstd::prelude::*;

use crate::slot::Slot;

verus! {

/// The blocking one-shot channel: the two-state machine split into one
/// `Sender` and one `Receiver` handle.
///
/// The channel itself is a scope-local value; `split` hands out exactly one
/// handle of each kind, and each handle is consumed by its one operation,
/// so a second send or a second receive is ruled out before the program
/// runs. In this variant the receiver waits for readiness instead of
/// failing: the embedding program suspends the receiving thread until the
/// sender's wake arrives, and `receive` itself only runs once a value is
/// ready — which is exactly its precondition here. `is_ready` is the
/// advisory poll the embedding may use before suspending.
pub struct Channel<T> {
    pub slot: Slot<T>,
    pub ready: bool,
}

/// The sending half: the single-use right to fill the channel it was split
/// from. Consumed by `send`.
pub struct Sender<T> {
    _message: PhantomData<T>,
}

/// The receiving half: the single-use right to take the channel's value.
/// Consumed by `receive`.
pub struct Receiver<T> {
    _message: PhantomData<T>,
}

impl<T> Channel<T> {
    /// The channel invariant: the slot holds a value exactly when the flag
    /// says one is ready.
    pub open spec fn wf(self) -> bool {
        self.slot.is_init() <==> self.ready
    }

    /// A send may go ahead: the channel holds no value.
    pub open spec fn can_send(self) -> bool {
        !self.ready
    }

    /// A receive may go ahead: a value is ready and not yet consumed.
    pub open spec fn can_receive(self) -> bool {
        self.ready
    }

    /// The channel state after a send of `v`.
    pub open spec fn sent_state(self, v: T) -> Self {
        Channel { slot: Slot { value: Some(v) }, ready: true }
    }

    /// The channel state after a receive: consumed, slot empty.
    pub open spec fn consumed_state(self) -> Self {
        Channel { slot: Slot { value: None }, ready: false }
    }

    /// A fresh channel: empty slot, nothing ready.
    pub fn new() -> (c: Self)
        ensures
            c.wf(),
            c.can_send(),
            !c.slot.is_init(),
    {
        Channel { slot: Slot::empty(), ready: false }
    }

    /// Reset the channel and hand out its one `Sender` and one `Receiver`.
    ///
    /// Any value still sitting in the channel from an earlier round is
    /// dropped by the reset, so its cleanup runs exactly once. The handles
    /// are each consumed by their one operation, which is what makes the
    /// channel single-use per split.
    pub fn split(&mut self) -> (handles: (Sender<T>, Receiver<T>))
        ensures
            final(self).wf(),
            final(self).can_send(),
            !final(self).slot.is_init(),
    {
        *self = Channel::new();
        (Sender { _message: PhantomData }, Receiver { _message: PhantomData })
    }
}

impl<T> Sender<T> {
    /// Hand `message` to the channel this handle was split from: fill the
    /// slot, then mark it ready. Consuming the handle makes this the one
    /// send; the embedding then wakes the waiting receiver.
    pub fn send(self, channel: &mut Channel<T>, message: T)
        requires
            old(channel).wf(),
            old(channel).can_send(),
        ensures
            final(channel).wf(),
            *final(channel) == old(channel).sent_state(message),
    {
        channel.slot.write(message);
        channel.ready = true;
    }
}

impl<T> Receiver<T> {
    /// Advisory poll: is a value ready to be received? The embedding may
    /// use it to skip suspending, but only `receive` takes the value.
    pub fn is_ready(&self, channel: &Channel<T>) -> (r: bool)
        ensures
            r == channel.can_receive(),
    {
        channel.ready
    }

    /// Take the value out of the channel this handle was split from.
    ///
    /// A value must be ready: this variant never reports failure, the
    /// embedding instead waits — suspending the receiving thread until the
    /// sender's wake — and calls `receive` once readiness is observed.
    pub fn receive(self, channel: &mut Channel<T>) -> (message: T)
        requires
            old(channel).wf(),
            old(channel).can_receive(),
        ensures
            final(channel).wf(),
            old(channel).slot.value == Some(message),
            *final(channel) == old(channel).consumed_state(),
    {
        channel.ready = false;
        channel.slot.read()
    }
}

/// Exactly-once delivery for the blocking channel: after the one send the
/// channel is ready and holds exactly the sent value — so the one receive
/// yields it — and after that receive nothing is ready and the slot owns
/// nothing, so there is nothing left to deliver or to reclaim.
pub proof fn lemma_exactly_once_delivery<T>(c: Channel<T>, v: T)
    requires
        c.wf(),
        c.can_send(),
    ensures
        ({
            let c1 = c.sent_state(v);
            &&& c1.wf()
            &&& c1.can_receive()
            &&& c1.slot.value == Some(v)
            &&& !c1.consumed_state().can_receive()
            &&& !c1.consumed_state().slot.is_init()
        }),
{
}

} // verus!
