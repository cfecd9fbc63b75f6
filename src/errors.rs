use vstd::prelude::*;

verus! {

/// Which bounded quantity an `OutOfRange` error is about.
#[derive(Clone, Copy, Debug, PartialEq, Eq, Structural)]
pub enum RangeField {
    Index,
    Timestamp,
}

/// The failures that the core reports to its callers.
#[derive(Clone, Copy, Debug, PartialEq, Eq, Structural)]
pub enum ParrotError {
    /// The queue is empty, but the operation needs a current track.
    NothingPlaying,
    /// A clear was asked for with nothing pending.
    QueueEmpty,
    /// A positional argument outside `[min, max]`.
    OutOfRange { field: RangeField, value: u64, min: u64, max: u64 },
    /// The operation makes no sense on the queue as it stands.
    InvalidOperation,
    /// A track source could not be resolved.
    ResolutionFailed,
    /// The audio engine rejected a control request.
    OperationFailed,
    /// The settings store failed to persist.
    PersistError,
    /// A whole-playlist mode was asked for a keyword search.
    PlayAllFailed,
    /// The minutes of a timestamp are not a number.
    MinutesParse,
    /// The seconds of a timestamp are missing or not a number.
    SecondsParse,
}

} // verus!
