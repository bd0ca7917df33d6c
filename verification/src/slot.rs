use vstd::prelude::*;

verus! {

/// Storage for at most one value of type `T`, with explicit tracking of
/// whether a value is currently present.
///
/// This is the leaf of every channel variant. Its operations carry the
/// cell discipline as preconditions: `write` demands an empty slot (so no
/// earlier value is silently lost), `read` demands a full one (so no value
/// is invented). The channel state machines built on top discharge these
/// obligations from their own invariants, and an abandoned value — written
/// but never read — is still owned by the slot, so it is reclaimed exactly
/// once when the slot itself is dropped.
pub struct Slot<T> {
    pub value: Option<T>,
}

impl<T> Slot<T> {
    /// True when the slot currently holds a value.
    pub open spec fn is_init(self) -> bool {
        self.value is Some
    }

    /// A slot holding nothing.
    pub fn empty() -> (s: Self)
        ensures
            !s.is_init(),
    {
        Slot { value: None }
    }

    /// Store `v` in an empty slot.
    pub fn write(&mut self, v: T)
        requires
            !old(self).is_init(),
        ensures
            final(self).value == Some(v),
    {
        self.value = Some(v);
    }

    /// Move the value out of a full slot, leaving it empty.
    pub fn read(&mut self) -> (v: T)
        requires
            old(self).is_init(),
        ensures
            old(self).value == Some(v),
            !final(self).is_init(),
    {
        self.value.take().unwrap()
    }
}

} // verus!
