use vstd::prelude::*;

use crate::progress::{ChannelError, Progress};
use crate::slot::Slot;

verus! {

/// The misuse-detecting one-shot channel.
///
/// A full four-state machine guards the slot: `send` claims the write by
/// moving `Empty → Writing`, fills the slot, and publishes it with
/// `Writing → Ready`; `receive` claims the read by moving `Ready → Reading`
/// and takes the value out, leaving `Reading` as the terminal, consumed
/// state. A second `send`, or a `receive` that finds no ready value, is
/// refused with an explicit error and leaves the channel untouched.
pub struct Channel<T> {
    pub slot: Slot<T>,
    pub progress: Progress,
}

impl<T> Channel<T> {
    /// The channel invariant: the slot holds a value exactly when the
    /// progress state says one is ready to be read.
    pub open spec fn wf(self) -> bool {
        self.slot.is_init() <==> self.progress is Ready
    }

    /// A send may go ahead: nothing was ever sent on this channel.
    pub open spec fn can_send(self) -> bool {
        self.progress is Empty
    }

    /// A receive may go ahead: a value is ready and not yet consumed.
    pub open spec fn can_receive(self) -> bool {
        self.progress is Ready
    }

    /// The channel state after a successful send of `v`.
    pub open spec fn sent(self, v: T) -> Self {
        Channel { slot: Slot { value: Some(v) }, progress: Progress::Ready }
    }

    /// The channel state after a successful receive: consumed, slot empty.
    pub open spec fn consumed(self) -> Self {
        Channel { slot: Slot { value: None }, progress: Progress::Reading }
    }

    /// What `send` does to the state: fills the slot when allowed, and
    /// leaves the channel untouched otherwise.
    pub open spec fn after_send(self, v: T) -> Self {
        if self.can_send() {
            self.sent(v)
        } else {
            self
        }
    }

    /// What `send` reports: `Ok` exactly when nothing was sent before.
    pub open spec fn send_outcome(self) -> Result<(), ChannelError> {
        if self.can_send() {
            Ok(())
        } else {
            Err(ChannelError::ProtocolViolation)
        }
    }

    /// What `receive` does to the state: consumes the ready value when
    /// there is one, and leaves the channel untouched otherwise.
    pub open spec fn after_receive(self) -> Self {
        if self.can_receive() {
            self.consumed()
        } else {
            self
        }
    }

    /// What `receive` reports: the ready value, or `NotReady`.
    pub open spec fn receive_outcome(self) -> Result<T, ChannelError> {
        if self.can_receive() {
            Ok(self.slot.value->0)
        } else {
            Err(ChannelError::NotReady)
        }
    }

    /// A fresh channel: empty slot, nothing sent.
    pub fn new() -> (c: Self)
        ensures
            c.wf(),
            c.can_send(),
            !c.slot.is_init(),
    {
        Channel { slot: Slot::empty(), progress: Progress::Empty }
    }

    /// Hand `message` to the channel.
    ///
    /// Succeeds exactly once per channel: the first call stores the value
    /// and marks it ready; any later call is refused with
    /// `ProtocolViolation` and changes nothing — the first value included.
    pub fn send(&mut self, message: T) -> (r: Result<(), ChannelError>)
        requires
            old(self).wf(),
        ensures
            final(self).wf(),
            r == old(self).send_outcome(),
            *final(self) == old(self).after_send(message),
    {
        if !(self.progress == Progress::Empty) {
            return Err(ChannelError::ProtocolViolation);
        }
        self.progress = Progress::Writing;
        self.slot.write(message);
        self.progress = Progress::Ready;
        Ok(())
    }

    /// Advisory check: is a value ready to be received?
    pub fn is_ready(&self) -> (r: bool)
        ensures
            r == self.can_receive(),
    {
        self.progress == Progress::Ready
    }

    /// Take the value out of the channel.
    ///
    /// Succeeds exactly once, and only after the one `send`: the first call
    /// after a send moves the value out and marks the channel consumed; a
    /// call before any send, or after the value was already consumed, is
    /// refused with `NotReady` and changes nothing.
    pub fn receive(&mut self) -> (r: Result<T, ChannelError>)
        requires
            old(self).wf(),
        ensures
            final(self).wf(),
            r == old(self).receive_outcome(),
            *final(self) == old(self).after_receive(),
    {
        if !(self.progress == Progress::Ready) {
            return Err(ChannelError::NotReady);
        }
        self.progress = Progress::Reading;
        let v = self.slot.read();
        Ok(v)
    }
}

/// Exactly-once delivery: on a fresh channel the one send is accepted, the
/// first receive afterwards yields exactly the sent value, and nothing is
/// left for a second receive.
pub proof fn lemma_exactly_once_delivery<T>(c: Channel<T>, v: T)
    requires
        c.wf(),
        c.can_send(),
    ensures
        ({
            let c1 = c.after_send(v);
            &&& c.send_outcome() is Ok
            &&& c1.receive_outcome() == Ok::<T, ChannelError>(v)
            &&& c1.after_receive().receive_outcome() == Err::<T, ChannelError>(
                ChannelError::NotReady,
            )
        }),
{
}

/// No double-send: once a value was sent, every further send is refused
/// with `ProtocolViolation` and the channel — the first value included —
/// is unaffected.
pub proof fn lemma_no_double_send<T>(c: Channel<T>, v: T, w: T)
    requires
        c.wf(),
        c.can_send(),
    ensures
        ({
            let c1 = c.after_send(v);
            &&& c1.send_outcome() == Err::<(), ChannelError>(ChannelError::ProtocolViolation)
            &&& c1.after_send(w) == c1
            &&& c1.after_send(w).slot.value == Some(v)
        }),
{
}

/// No premature receive: before any send, a receive is refused with
/// `NotReady` and the channel is unchanged.
pub proof fn lemma_no_premature_receive<T>(c: Channel<T>)
    requires
        c.wf(),
        c.can_send(),
    ensures
        c.receive_outcome() == Err::<T, ChannelError>(ChannelError::NotReady),
        c.after_receive() == c,
{
}

/// No double-receive: a ready channel yields its value on the first
/// receive; the second receive is refused with `NotReady`, and further
/// receives change nothing.
pub proof fn lemma_no_double_receive<T>(c: Channel<T>)
    requires
        c.wf(),
        c.can_receive(),
    ensures
        c.receive_outcome() == Ok::<T, ChannelError>(c.slot.value->0),
        c.after_receive().receive_outcome() == Err::<T, ChannelError>(ChannelError::NotReady),
        c.after_receive().after_receive() == c.after_receive(),
{
}

/// Abandonment: a sent value stays in the slot until it is received, so a
/// channel destroyed after a send without a receive still owns exactly that
/// value and reclaims it once; before any send the slot owns nothing, so
/// destroying the channel reclaims nothing.
pub proof fn lemma_abandonment<T>(c: Channel<T>, v: T)
    requires
        c.wf(),
        c.can_send(),
    ensures
        !c.slot.is_init(),
        c.after_send(v).slot.value == Some(v),
        !c.after_send(v).after_receive().slot.is_init(),
{
}

} // verus!
