use vstd::prelude::*;

use crate::error::EscrowError;
use crate::escrow::{
    approve_accounts_ok, approve_authorized, approve_error, dispute_error, disputed,
    milestone_cleared, milestones_cleared, refund_error, resolve_accounts_ok, resolve_authorized,
    resolve_error, Approve, Dispute, Refund, Resolve,
};
use crate::state::EscrowState;

verus! {

/// A milestone is paid at most once. Once `approve` has paid milestone
/// `idx`, a later `approve` or `resolve` of the same milestone is refused;
/// where the caller holds the role and hands in the right accounts, the
/// refusal is for the record's state.
pub proof fn lemma_milestone_paid_once(
    first: Approve,
    idx: u64,
    paid: EscrowState,
    again: Approve,
    settle: Resolve,
)
    requires
        approve_error(first, idx) is None,
        milestone_cleared(first.escrow_state, paid, idx as int),
        again.escrow_state == paid,
        settle.escrow_state == paid,
    ensures
        approve_error(again, idx) is Some,
        resolve_error(settle, idx) is Some,
        approve_authorized(again) && approve_accounts_ok(again) ==> approve_error(again, idx)
            == Some(EscrowError::InvariantViolation),
        resolve_authorized(settle) && resolve_accounts_ok(settle) ==> resolve_error(settle, idx)
            == Some(EscrowError::InvariantViolation),
{
    assert(paid.initializer_amount@[idx as int] == 0);
}

/// Raising the dispute flag twice is the same as raising it once: the
/// second call is accepted too, and the flag stays raised.
pub proof fn lemma_dispute_idempotent(ctx: Dispute)
    requires
        dispute_error(ctx) is None,
    ensures
        dispute_error(Dispute { escrow_state: disputed(ctx.escrow_state), ..ctx }) is None,
        disputed(disputed(ctx.escrow_state)) == disputed(ctx.escrow_state),
        disputed(ctx.escrow_state).dispute_status,
{
}

/// The dispute flag decides which settlement is open: `approve` and
/// `refund` are refused on a disputed record, `resolve` on one that is not.
pub proof fn lemma_dispute_gates(approval: Approve, idx: u64, refund: Refund, settle: Resolve)
    ensures
        approval.escrow_state.dispute_status ==> approve_error(approval, idx) is Some,
        refund.escrow_state.dispute_status ==> refund_error(refund) is Some,
        !settle.escrow_state.dispute_status ==> resolve_error(settle, idx) is Some,
{
}

/// What a record still holds only goes down: paying one milestone takes
/// exactly that milestone's amount off.
pub proof fn lemma_payout_shrinks(before: EscrowState, after: EscrowState, idx: int)
    requires
        0 <= idx < 5,
        milestone_cleared(before, after, idx),
    ensures
        after.outstanding() == before.outstanding() - before.initializer_amount@[idx],
        after.outstanding() <= before.outstanding(),
{
}

/// A refund leaves the record holding nothing.
pub proof fn lemma_refund_empties(before: EscrowState, after: EscrowState)
    requires
        milestones_cleared(before, after),
    ensures
        after.outstanding() == 0,
{
    assert(after.initializer_amount@[0] == 0 && after.initializer_amount@[1] == 0
        && after.initializer_amount@[2] == 0 && after.initializer_amount@[3] == 0
        && after.initializer_amount@[4] == 0);
}

} // verus!
