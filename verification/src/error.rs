use vstd::prelude::*;

verus! {

/// Every validation failure of the library, by cause.  A handler returns an
/// error before any storage mutation is described, so an `Err` always means
/// "change nothing".
#[derive(Clone, Copy, Debug, PartialEq, Eq, Structural)]
pub enum FlashLoanError {
    /// Payload or record bytes too short, or a bad discriminant.
    MalformedInput,
    /// Identity or count mismatch between the loan ledger and the supplied
    /// balance records.
    RecordMismatch,
    /// A balance record holds less than the ledger requires.
    InsufficientFunds,
    /// The signer is not the stored admin.
    Unauthorized,
    /// The circuit breaker forbids the request: paused, frozen, or over
    /// the mode's limit.
    OperationDenied,
}

} // verus!
