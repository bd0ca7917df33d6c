//! A verified single-use, single-value handoff primitive: one-shot channels.
//!
//! Exactly one producer hands ownership of exactly one value to exactly one
//! consumer. Two verified building blocks — a storage slot for at most one
//! value ([`slot`]) and a small progress state machine ([`progress`]) — are
//! shared by a family of channel variants built on top of them:
//!
//! * [`oneshot_channel`]: a four-state, misuse-detecting channel; a second
//!   `send` or a premature `receive` is refused with an explicit error.
//! * [`flag_channel`]: the minimal two-state channel, a single ready flag
//!   over the slot.
//! * [`blocking_channel`]: a channel split into one `Sender` and one
//!   `Receiver`, where `receive` hands the value over once it is ready; the
//!   embedding program waits for readiness before receiving.
//! * [`shared_channel`]: a `Sender`/`Receiver` pair with a fail-fast
//!   `receive` that reports `NotReady` instead of waiting.
//!
//! Every operation is specified as a transition of the channel state, and the
//! central invariant — the slot holds a value exactly when the progress state
//! says one is ready — is stated once per variant and proved preserved by
//! every transition. Delivery, misuse and abandonment laws are stated as
//! public proof functions next to each variant.

pub mod blocking_channel;
pub mod flag_channel;
pub mod oneshot_channel;
pub mod progress;
pub mod shared_channel;
pub mod slot;
