//! The emergency path: withdrawals under the emergency authority, and the
//! handing over of that authority. The authority that adds and distributes
//! profits has no part in either.

use crate::address::Address;
use crate::meta_treasury::accounts::{UpdateMultisig, WithdrawEmergency};
use crate::meta_treasury::events::{EmergencyWithdrawal, MultisigUpdated};
use crate::meta_treasury::state::{MetaTreasuryError, TreasuryState};
use vstd::prelude::*;

verus! {

/// Why the withdrawal is refused, if it is. The caller must be the emergency
/// authority; the treasury must be set up; the amount must not be zero and
/// must be covered by the books; and the two balances must have room for the
/// movement.
pub open spec fn withdraw_rejection(ctx: WithdrawEmergency, amount: u64) -> Option<
    MetaTreasuryError,
> {
    if ctx.multisig != ctx.treasury.emergency_multisig {
        Some(MetaTreasuryError::Unauthorized)
    } else if !ctx.treasury.is_initialized {
        Some(MetaTreasuryError::NotInitialized)
    } else if amount == 0 || amount > ctx.treasury.total_sol {
        Some(MetaTreasuryError::InsufficientFunds)
    } else if amount > ctx.treasury_lamports || ctx.destination_lamports + amount > u64::MAX {
        Some(MetaTreasuryError::ArithmeticFault)
    } else {
        None
    }
}

/// The accounts after the withdrawal: the amount has left the books and the
/// treasury's balance, and has reached the destination's balance. The profit
/// pool is as it was.
pub open spec fn withdrawn(ctx: WithdrawEmergency, amount: u64) -> WithdrawEmergency {
    WithdrawEmergency {
        treasury: TreasuryState {
            total_sol: (ctx.treasury.total_sol - amount) as u64,
            ..ctx.treasury
        },
        treasury_lamports: (ctx.treasury_lamports - amount) as u64,
        destination_lamports: (ctx.destination_lamports + amount) as u64,
        ..ctx
    }
}

/// Moves `amount` out of the treasury to the destination, under the emergency
/// authority alone.
///
/// It succeeds only for the caller who holds the emergency authority. The
/// profit pool is not touched, so it stays part of the books exactly when what
/// is left on the books covers it. On failure nothing has changed.
pub fn withdraw_emergency(ctx: &mut WithdrawEmergency, amount: u64, timestamp: i64) -> (result:
    Result<EmergencyWithdrawal, MetaTreasuryError>)
    ensures
        match withdraw_rejection(*old(ctx), amount) {
            Some(error) => {
                &&& result == Err::<EmergencyWithdrawal, MetaTreasuryError>(error)
                &&& *final(ctx) == *old(ctx)
            },
            None => {
                &&& result == Ok::<EmergencyWithdrawal, MetaTreasuryError>(
                    EmergencyWithdrawal {
                        multisig: old(ctx).multisig,
                        destination: old(ctx).destination,
                        amount,
                        remaining: (old(ctx).treasury.total_sol - amount) as u64,
                        timestamp,
                    },
                )
                &&& *final(ctx) == withdrawn(*old(ctx), amount)
            },
        },
        result is Ok ==> old(ctx).multisig == old(ctx).treasury.emergency_multisig,
        final(ctx).treasury.profit_pool == old(ctx).treasury.profit_pool,
        final(ctx).treasury_lamports + final(ctx).destination_lamports
            == old(ctx).treasury_lamports + old(ctx).destination_lamports,
{
    if ctx.multisig != ctx.treasury.emergency_multisig {
        return Err(MetaTreasuryError::Unauthorized);
    }
    if !ctx.treasury.is_initialized {
        return Err(MetaTreasuryError::NotInitialized);
    }
    if amount == 0 || amount > ctx.treasury.total_sol {
        return Err(MetaTreasuryError::InsufficientFunds);
    }
    let treasury_lamports: u64 = match ctx.treasury_lamports.checked_sub(amount) {
        Some(lamports) => lamports,
        None => {
            return Err(MetaTreasuryError::ArithmeticFault);
        },
    };
    let destination_lamports: u64 = match ctx.destination_lamports.checked_add(amount) {
        Some(lamports) => lamports,
        None => {
            return Err(MetaTreasuryError::ArithmeticFault);
        },
    };
    let remaining: u64 = ctx.treasury.total_sol - amount;
    ctx.treasury_lamports = treasury_lamports;
    ctx.destination_lamports = destination_lamports;
    ctx.treasury.total_sol = remaining;
    Ok(
        EmergencyWithdrawal {
            multisig: ctx.multisig,
            destination: ctx.destination,
            amount,
            remaining,
            timestamp,
        },
    )
}

/// Why the handing over is refused, if it is. The caller must be the
/// emergency authority, and the treasury must be set up.
pub open spec fn update_multisig_rejection(ctx: UpdateMultisig) -> Option<MetaTreasuryError> {
    if ctx.multisig != ctx.treasury.emergency_multisig {
        Some(MetaTreasuryError::Unauthorized)
    } else if !ctx.treasury.is_initialized {
        Some(MetaTreasuryError::NotInitialized)
    } else {
        None
    }
}

/// The accounts after the handing over: `new_multisig` holds the emergency
/// authority.
pub open spec fn multisig_updated(ctx: UpdateMultisig, new_multisig: Address) -> UpdateMultisig {
    UpdateMultisig {
        treasury: TreasuryState { emergency_multisig: new_multisig, ..ctx.treasury },
        ..ctx
    }
}

/// Hands the emergency authority over to `new_multisig`.
///
/// Only the holder of the emergency authority can do so. The notification
/// names the old holder and the new one. On failure nothing has changed.
pub fn update_multisig(ctx: &mut UpdateMultisig, new_multisig: Address, timestamp: i64) -> (result:
    Result<MultisigUpdated, MetaTreasuryError>)
    ensures
        match update_multisig_rejection(*old(ctx)) {
            Some(error) => {
                &&& result == Err::<MultisigUpdated, MetaTreasuryError>(error)
                &&& *final(ctx) == *old(ctx)
            },
            None => {
                &&& result == Ok::<MultisigUpdated, MetaTreasuryError>(
                    MultisigUpdated {
                        old_multisig: old(ctx).treasury.emergency_multisig,
                        new_multisig,
                        timestamp,
                    },
                )
                &&& *final(ctx) == multisig_updated(*old(ctx), new_multisig)
            },
        },
{
    if ctx.multisig != ctx.treasury.emergency_multisig {
        return Err(MetaTreasuryError::Unauthorized);
    }
    if !ctx.treasury.is_initialized {
        return Err(MetaTreasuryError::NotInitialized);
    }
    let old_multisig = ctx.treasury.emergency_multisig;
    ctx.treasury.emergency_multisig = new_multisig;
    Ok(MultisigUpdated { old_multisig, new_multisig, timestamp })
}

} // verus!
