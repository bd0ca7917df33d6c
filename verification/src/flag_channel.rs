use vstd::prelude::*;

use crate::progress::ChannelError;
use crate::slot::Slot;

verus! {

/// The minimal two-state one-shot channel: a single ready flag over the
/// slot, with no misuse detection on the sending side.
///
/// `send` fills the slot and raises the flag; `receive` lowers the flag
/// and takes the value in one step, so a second receive cannot also
/// believe a value is ready. With only one bit of state the channel cannot
/// itself detect a second send — after a receive the flag looks just as it
/// did before the first send — so single use of `send` is a precondition
/// here, recorded in the ghost `sent` mark, rather than a runtime check.
pub struct Channel<T> {
    pub slot: Slot<T>,
    pub ready: bool,
    /// Whether a send ever happened on this channel; ghost, since the
    /// running code keeps no such record.
    pub sent: Ghost<bool>,
}

impl<T> Channel<T> {
    /// The channel invariant: the slot holds a value exactly when the flag
    /// is raised, and the flag is only ever raised by a send.
    pub open spec fn wf(self) -> bool {
        &&& self.slot.is_init() <==> self.ready
        &&& self.ready ==> self.sent@
    }

    /// A send may go ahead: nothing was ever sent on this channel.
    pub open spec fn can_send(self) -> bool {
        !self.sent@
    }

    /// A receive may go ahead: a value is ready and not yet consumed.
    pub open spec fn can_receive(self) -> bool {
        self.ready
    }

    /// The channel state after the one send of `v`.
    pub open spec fn sent_state(self, v: T) -> Self {
        Channel { slot: Slot { value: Some(v) }, ready: true, sent: Ghost(true) }
    }

    /// The channel state after a successful receive: consumed, slot empty.
    pub open spec fn consumed_state(self) -> Self {
        Channel { slot: Slot { value: None }, ready: false, sent: self.sent }
    }

    /// What `receive` does to the state: consumes the ready value when
    /// there is one, and leaves the channel untouched otherwise.
    pub open spec fn after_receive(self) -> Self {
        if self.can_receive() {
            self.consumed_state()
        } else {
            self
        }
    }

    /// What `receive` reports: the ready value, or `NotReady`.
    pub open spec fn receive_outcome(self) -> Result<T, ChannelError> {
        if self.can_receive() {
            Ok(self.slot.value->0)
        } else {
            Err(ChannelError::NotReady)
        }
    }

    /// A fresh channel: empty slot, flag down, nothing sent.
    pub fn new() -> (c: Self)
        ensures
            c.wf(),
            c.can_send(),
            !c.slot.is_init(),
    {
        Channel { slot: Slot::empty(), ready: false, sent: Ghost(false) }
    }

    /// Hand `message` to the channel: fill the slot, then raise the flag.
    ///
    /// The channel must never have been sent on; a second send would
    /// overwrite the slot, which this variant cannot detect at run time.
    pub fn send(&mut self, message: T)
        requires
            old(self).wf(),
            old(self).can_send(),
        ensures
            final(self).wf(),
            *final(self) == old(self).sent_state(message),
    {
        self.sent = Ghost(true);
        self.slot.write(message);
        self.ready = true;
    }

    /// Take the value out of the channel, if one is ready.
    ///
    /// Lowering the flag and reading happen together: the first call after
    /// a send yields the value, and any call finding the flag down — before
    /// the send, or after the value was consumed — is refused with
    /// `NotReady` and changes nothing.
    pub fn receive(&mut self) -> (r: Result<T, ChannelError>)
        requires
            old(self).wf(),
        ensures
            final(self).wf(),
            r == old(self).receive_outcome(),
            *final(self) == old(self).after_receive(),
    {
        if !self.ready {
            return Err(ChannelError::NotReady);
        }
        self.ready = false;
        Ok(self.slot.read())
    }
}

/// Exactly-once delivery for the flag channel: after the one send the
/// first receive yields exactly the sent value; a second receive finds
/// nothing, and no further send is ever allowed.
pub proof fn lemma_exactly_once_delivery<T>(c: Channel<T>, v: T)
    requires
        c.wf(),
        c.can_send(),
    ensures
        ({
            let c1 = c.sent_state(v);
            &&& c1.receive_outcome() == Ok::<T, ChannelError>(v)
            &&& c1.after_receive().receive_outcome() == Err::<T, ChannelError>(
                ChannelError::NotReady,
            )
            &&& !c1.after_receive().can_send()
        }),
{
}

/// No premature receive: while nothing was sent the flag is down, so a
/// receive is refused with `NotReady` and the channel is unchanged.
pub proof fn lemma_no_premature_receive<T>(c: Channel<T>)
    requires
        c.wf(),
        c.can_send(),
    ensures
        c.receive_outcome() == Err::<T, ChannelError>(ChannelError::NotReady),
        c.after_receive() == c,
{
}

} // verus!
