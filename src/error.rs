use vstd::prelude::*;

verus! {

/// Why an operation was refused. A refused operation changes nothing.
#[derive(Clone, Copy, Debug, PartialEq, Eq, Structural)]
pub enum EscrowError {
    /// The caller does not hold the role that the operation asks for.
    Unauthorized,
    /// A token account handed in does not belong to the party it pays, or
    /// holds another currency than the escrow.
    AccountMismatch,
    /// The record is not in a state that admits the operation: an unpaid
    /// milestone is missing, the dispute flag is the wrong way, the deposit
    /// does not cover the milestones, or the fees exceed the whole.
    InvariantViolation,
    /// A balance does not cover a transfer.
    InsufficientFunds,
    /// The record to be created exists already.
    DuplicateRecord,
    /// No program-controlled address could be derived for the vault.
    AddressUnavailable,
}

} // verus!
