use vstd::prelude::*;

verus! {

/// Why an escrow instruction was rejected.
///
/// Every rejected precondition aborts the whole operation: no balance moves
/// and the record is returned unchanged.  Each failing predicate has its own
/// variant, so a caller learns exactly which check rejected the instruction.
#[derive(Clone, Copy, Debug, PartialEq, Eq, Structural)]
pub enum EscrowError {
    /// A zero or mismatched amount was supplied.
    AmountInvalid,
    /// Fixed-width arithmetic would overflow.
    AmountOverflow,
    /// Settlement was attempted before the unlock time.
    TooEarly,
    /// Settlement was attempted at or after the timeout time.
    Expired,
    /// The requested operation is not defined for the record's current state.
    IllegalStateTransition,
    /// A supplied vault or authority address does not match its derivation.
    AuthorityMismatch,
    /// The account required to approve this instruction did not sign it.
    SignerMissing,
    /// An account's recorded owner does not match the expected identity.
    OwnerMismatch,
    /// The counterparty supplied is not acceptable (for instance, it is the
    /// depositor itself).
    CounterpartyInvalid,
    /// The declared position does not oppose the existing one.
    PositionInvalid,
    /// The descriptive metadata is empty, blank, or over the maximum length.
    MetadataInvalid,
    /// The unlock time does not precede the timeout time.
    WindowInvalid,
    /// The paying account holds less than the requested amount.
    InsufficientFunds,
    /// The configuration record was already initialized.
    AlreadyInitialized,
    /// The configuration record has not been initialized.
    NotInitialized,
}

} // verus!
