use vstd::prelude::*;

use crate::address::Address;
use crate::error::EscrowError;
use crate::state::AdminState;

verus! {

/// Inputs of `init_admin`: the three identities, the slot that will hold
/// the admin record, and the bump byte of its address.
#[derive(Clone, Copy, Debug)]
pub struct InitAdmin {
    /// The caller; becomes the first administrator.
    pub admin1: Address,
    pub admin2: Address,
    pub resolver: Address,
    /// The admin record, where one exists.
    pub admin_state: Option<AdminState>,
    pub admin_state_bump: u8,
}

/// The admin record that `init_admin` creates from `ctx`: no fees yet.
pub open spec fn initial_admin(ctx: InitAdmin) -> AdminState {
    AdminState {
        bump: ctx.admin_state_bump,
        admin_fee: 0,
        resolver_fee: 0,
        admin1: ctx.admin1,
        admin2: ctx.admin2,
        resolver: ctx.resolver,
    }
}

/// Creates the admin record. Refused when one exists already.
pub fn init_admin(ctx: &mut InitAdmin) -> (r: Result<(), EscrowError>)
    ensures
        if old(ctx).admin_state is Some {
            r == Err::<(), EscrowError>(EscrowError::DuplicateRecord) && *final(ctx) == *old(ctx)
        } else {
            r is Ok && *final(ctx) == (InitAdmin {
                admin_state: Some(initial_admin(*old(ctx))),
                ..*old(ctx)
            })
        },
{
    if ctx.admin_state.is_some() {
        return Err(EscrowError::DuplicateRecord);
    }
    ctx.admin_state = Some(
        AdminState {
            bump: ctx.admin_state_bump,
            admin_fee: 0,
            resolver_fee: 0,
            admin1: ctx.admin1,
            admin2: ctx.admin2,
            resolver: ctx.resolver,
        },
    );
    Ok(())
}

/// Inputs of `change_admin`: the caller and the identities that replace
/// the current ones.
#[derive(Clone, Copy, Debug)]
pub struct ChangeAdmin {
    /// The caller; must be the current first administrator.
    pub admin1: Address,
    pub new_admin1: Address,
    pub new_admin2: Address,
    pub new_resolver: Address,
    pub admin_state: AdminState,
}

/// Replaces both administrators and the resolver; fees stay. Only the
/// current first administrator may do so.
pub fn change_admin(ctx: &mut ChangeAdmin) -> (r: Result<(), EscrowError>)
    ensures
        if old(ctx).admin1@ != old(ctx).admin_state.admin1@ {
            r == Err::<(), EscrowError>(EscrowError::Unauthorized) && *final(ctx) == *old(ctx)
        } else {
            r is Ok && *final(ctx) == (ChangeAdmin {
                admin_state: AdminState {
                    admin1: old(ctx).new_admin1,
                    admin2: old(ctx).new_admin2,
                    resolver: old(ctx).new_resolver,
                    ..old(ctx).admin_state
                },
                ..*old(ctx)
            })
        },
{
    if !ctx.admin1.same(&ctx.admin_state.admin1) {
        return Err(EscrowError::Unauthorized);
    }
    ctx.admin_state.admin1 = ctx.new_admin1;
    ctx.admin_state.admin2 = ctx.new_admin2;
    ctx.admin_state.resolver = ctx.new_resolver;
    Ok(())
}

/// Inputs of `set_fee`: the caller and the admin record.
#[derive(Clone, Copy, Debug)]
pub struct SetFee {
    /// The caller; must be the current first administrator.
    pub admin1: Address,
    pub admin_state: AdminState,
}

/// Why `set_fee` refuses, if it does.
pub open spec fn set_fee_error(ctx: SetFee, admin_fee: u64, resolver_fee: u64) -> Option<
    EscrowError,
> {
    if ctx.admin1@ != ctx.admin_state.admin1@ {
        Some(EscrowError::Unauthorized)
    } else if admin_fee + resolver_fee > 100 {
        Some(EscrowError::InvariantViolation)
    } else {
        None
    }
}

/// Sets both fee percentages. Only the current first administrator may do
/// so, and the two together may not exceed the whole payout.
pub fn set_fee(ctx: &mut SetFee, admin_fee: u64, resolver_fee: u64) -> (r: Result<(), EscrowError>)
    ensures
        match set_fee_error(*old(ctx), admin_fee, resolver_fee) {
            Some(e) => r == Err::<(), EscrowError>(e) && *final(ctx) == *old(ctx),
            None => r is Ok && *final(ctx) == (SetFee {
                admin_state: AdminState { admin_fee, resolver_fee, ..old(ctx).admin_state },
                ..*old(ctx)
            }),
        },
{
    if !ctx.admin1.same(&ctx.admin_state.admin1) {
        return Err(EscrowError::Unauthorized);
    }
    if admin_fee > 100 || resolver_fee > 100 - admin_fee {
        return Err(EscrowError::InvariantViolation);
    }
    ctx.admin_state.admin_fee = admin_fee;
    ctx.admin_state.resolver_fee = resolver_fee;
    Ok(())
}

} // verus!
