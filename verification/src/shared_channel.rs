use core::marker::PhantomData;
use vstd::prelude::*;

use crate::progress::ChannelError;
use crate::slot::Slot;

verus! {

/// The shared, fail-fast one-shot channel: a `Sender`/`Receiver` pair over
/// the two-state machine, where a receive that finds nothing reports
/// `NotReady` instead of waiting.
///
/// `channel` makes the fresh channel state together with its one `Sender`
/// and one `Receiver`. The sender handle is consumed by its one `send`;
/// the receiver handle stays usable, but the flag is lowered together with
/// the read, so only its first successful `receive` yields the value.
pub struct Sender<T> {
    _message: PhantomData<T>,
}

pub struct Receiver<T> {
    _message: PhantomData<T>,
}

/// The state shared by the pair of handles.
pub struct Channel<T> {
    pub slot: Slot<T>,
    pub ready: bool,
}

impl<T> Channel<T> {
    /// The channel invariant: the slot holds a value exactly when the flag
    /// says one is ready.
    pub open spec fn wf(self) -> bool {
        self.slot.is_init() <==> self.ready
    }

    /// A send may go ahead: the channel holds no value.
    pub open spec fn can_send(self) -> bool {
        !self.ready
    }

    /// A receive may go ahead: a value is ready and not yet consumed.
    pub open spec fn can_receive(self) -> bool {
        self.ready
    }

    /// The channel state after the one send of `v`.
    pub open spec fn sent_state(self, v: T) -> Self {
        Channel { slot: Slot { value: Some(v) }, ready: true }
    }

    /// The channel state after a successful receive: consumed, slot empty.
    pub open spec fn consumed_state(self) -> Self {
        Channel { slot: Slot { value: None }, ready: false }
    }

    /// What `receive` does to the state: consumes the ready value when
    /// there is one, and leaves the channel untouched otherwise.
    pub open spec fn after_receive(self) -> Self {
        if self.can_receive() {
            self.consumed_state()
        } else {
            self
        }
    }

    /// What `receive` reports: the ready value, or `NotReady`.
    pub open spec fn receive_outcome(self) -> Result<T, ChannelError> {
        if self.can_receive() {
            Ok(self.slot.value->0)
        } else {
            Err(ChannelError::NotReady)
        }
    }
}

/// Make a fresh channel with its one `Sender` and one `Receiver`.
///
/// The channel state is returned alongside the handles and is passed to
/// each operation; a value abandoned in it is reclaimed, exactly once,
/// when the state itself is dropped.
pub fn channel<T>() -> (r: (Channel<T>, Sender<T>, Receiver<T>))
    ensures
        r.0.wf(),
        r.0.can_send(),
        !r.0.slot.is_init(),
{
    (
        Channel { slot: Slot::empty(), ready: false },
        Sender { _message: PhantomData },
        Receiver { _message: PhantomData },
    )
}

impl<T> Sender<T> {
    /// Hand `message` to the channel this handle was made with: fill the
    /// slot, then mark it ready. Consuming the handle makes this the one
    /// send, so the channel still holds no value when it runs.
    pub fn send(self, channel: &mut Channel<T>, message: T)
        requires
            old(channel).wf(),
            old(channel).can_send(),
        ensures
            final(channel).wf(),
            *final(channel) == old(channel).sent_state(message),
    {
        channel.slot.write(message);
        channel.ready = true;
    }
}

impl<T> Receiver<T> {
    /// Advisory poll: is a value ready to be received?
    pub fn is_ready(&self, channel: &Channel<T>) -> (r: bool)
        ensures
            r == channel.can_receive(),
    {
        channel.ready
    }

    /// Take the value out of the channel, if one is ready.
    ///
    /// Fail-fast: lowering the flag and reading happen together, so the
    /// first call after the send yields the value, and a call finding the
    /// flag down — before the send, or after the value was consumed — is
    /// refused with `NotReady` and changes nothing.
    pub fn receive(&self, channel: &mut Channel<T>) -> (r: Result<T, ChannelError>)
        requires
            old(channel).wf(),
        ensures
            final(channel).wf(),
            r == old(channel).receive_outcome(),
            *final(channel) == old(channel).after_receive(),
    {
        if !channel.ready {
            return Err(ChannelError::NotReady);
        }
        channel.ready = false;
        Ok(channel.slot.read())
    }
}

/// Exactly-once delivery for the shared channel: after the one send the
/// first receive yields exactly the sent value, and a second receive is
/// refused with `NotReady`.
pub proof fn lemma_exactly_once_delivery<T>(c: Channel<T>, v: T)
    requires
        c.wf(),
        c.can_send(),
    ensures
        ({
            let c1 = c.sent_state(v);
            &&& c1.receive_outcome() == Ok::<T, ChannelError>(v)
            &&& c1.after_receive().receive_outcome() == Err::<T, ChannelError>(
                ChannelError::NotReady,
            )
        }),
{
}

/// No premature receive: on the fresh channel, before the send, a receive
/// is refused with `NotReady` and the channel is unchanged.
pub proof fn lemma_no_premature_receive<T>(c: Channel<T>)
    requires
        c.wf(),
        c.can_send(),
    ensures
        c.receive_outcome() == Err::<T, ChannelError>(ChannelError::NotReady),
        c.after_receive() == c,
{
}

} // verus!
