use vstd::prelude::*;

verus! {

/// How far the single-value transfer has advanced.
///
/// The misuse-detecting channel walks `Empty → Writing → Ready → Reading`;
/// `Writing` and `Reading` mark a claimed but not yet finished write or
/// read, and `Reading` doubles as the terminal, consumed state. The
/// two-state variants collapse this to a single ready flag.
#[derive(Clone, Copy, Debug, PartialEq, Eq, Structural)]
pub enum Progress {
    /// No value has been written; nothing may be read.
    Empty,
    /// The producer has claimed the right to write.
    Writing,
    /// A value is fully written; it may be read exactly once.
    Ready,
    /// The consumer has claimed the value; nothing is left to read.
    Reading,
}

/// Why a non-blocking channel operation was refused.
///
/// Misuse of the single-use contract is reported loudly rather than
/// recovered from: the channel itself never retries.
#[derive(Clone, Copy, Debug, PartialEq, Eq, Structural)]
pub enum ChannelError {
    /// A second `send` was attempted on a channel that already accepted one.
    ProtocolViolation,
    /// `receive` found no value: none was sent yet, or it was already consumed.
    NotReady,
}

} // verus!
