//! Setting the treasury up, and paying profits into it.

use crate::meta_treasury::accounts::{AddProfits, InitializeTreasury};
use crate::meta_treasury::events::{ProfitsAdded, TreasuryInitialized};
use crate::meta_treasury::state::{MetaTreasuryError, TreasuryState};
use crate::transfer::LamportTransfer;
use vstd::prelude::*;

verus! {

/// The treasury as it is set up: the caller is its authority, the given
/// identity its emergency authority, the deposit is all of its funds and the
/// profit pool is empty.
pub open spec fn initial_treasury(ctx: InitializeTreasury, amount: u64) -> TreasuryState {
    TreasuryState {
        authority: ctx.authority,
        emergency_multisig: ctx.multisig,
        total_sol: amount,
        profit_pool: 0,
        is_initialized: true,
        bump: ctx.bump,
    }
}

/// The deposit that comes with setting the treasury up: none for an amount of
/// zero, else the amount, from the caller to the treasury.
pub open spec fn initial_deposit(ctx: InitializeTreasury, amount: u64) -> Option<LamportTransfer> {
    if amount > 0 {
        Some(LamportTransfer { from: ctx.authority, to: ctx.treasury_address, lamports: amount })
    } else {
        None
    }
}

/// Sets the treasury up, once.
///
/// Where the treasury exists already, nothing changes. Else the record is
/// created, and the ledger is asked to move the deposit, if there is one.
pub fn initialize_treasury(ctx: &mut InitializeTreasury, amount: u64, timestamp: i64) -> (result:
    Result<(Option<LamportTransfer>, TreasuryInitialized), MetaTreasuryError>)
    ensures
        old(ctx).treasury is Some ==> {
            &&& result == Err::<(Option<LamportTransfer>, TreasuryInitialized), MetaTreasuryError>(
                MetaTreasuryError::DuplicateCreation,
            )
            &&& *final(ctx) == *old(ctx)
        },
        old(ctx).treasury is None ==> {
            &&& result == Ok::<(Option<LamportTransfer>, TreasuryInitialized), MetaTreasuryError>(
                (
                    initial_deposit(*old(ctx), amount),
                    TreasuryInitialized {
                        authority: old(ctx).authority,
                        initial_amount: amount,
                        timestamp,
                    },
                ),
            )
            &&& *final(ctx) == (InitializeTreasury {
                treasury: Some(initial_treasury(*old(ctx), amount)),
                ..*old(ctx)
            })
        },
        old(ctx).treasury is None ==> final(ctx).treasury == Some(
            initial_treasury(*old(ctx), amount),
        ) && initial_treasury(*old(ctx), amount).wf(),
{
    if ctx.treasury.is_some() {
        return Err(MetaTreasuryError::DuplicateCreation);
    }
    ctx.treasury = Some(
        TreasuryState {
            authority: ctx.authority,
            emergency_multisig: ctx.multisig,
            total_sol: amount,
            profit_pool: 0,
            is_initialized: true,
            bump: ctx.bump,
        },
    );
    let deposit = if amount > 0 {
        Some(LamportTransfer { from: ctx.authority, to: ctx.treasury_address, lamports: amount })
    } else {
        None
    };
    Ok((deposit, TreasuryInitialized { authority: ctx.authority, initial_amount: amount, timestamp }))
}

/// Why the payment is refused, if it is. The caller must be the authority;
/// the treasury must be set up; the amount must not be zero; and the books
/// must have room for it.
pub open spec fn add_profits_rejection(ctx: AddProfits, amount: u64) -> Option<MetaTreasuryError> {
    if ctx.authority != ctx.treasury.authority {
        Some(MetaTreasuryError::Unauthorized)
    } else if !ctx.treasury.is_initialized {
        Some(MetaTreasuryError::NotInitialized)
    } else if amount == 0 {
        Some(MetaTreasuryError::InvalidAmount)
    } else if ctx.treasury.total_sol + amount > u64::MAX || ctx.treasury.profit_pool + amount
        > u64::MAX {
        Some(MetaTreasuryError::ArithmeticFault)
    } else {
        None
    }
}

/// The accounts after the payment: the books and the profit pool are up by the
/// amount.
pub open spec fn profits_added(ctx: AddProfits, amount: u64) -> AddProfits {
    AddProfits {
        treasury: TreasuryState {
            total_sol: (ctx.treasury.total_sol + amount) as u64,
            profit_pool: (ctx.treasury.profit_pool + amount) as u64,
            ..ctx.treasury
        },
        ..ctx
    }
}

/// Pays `amount` into the treasury as profit.
///
/// The books and the profit pool go up by the amount, and the ledger is asked
/// to move it from the caller to the treasury. A pool that was part of the
/// books before is part of them after. On failure nothing has changed.
pub fn add_profits(ctx: &mut AddProfits, amount: u64, timestamp: i64) -> (result: Result<
    (LamportTransfer, ProfitsAdded),
    MetaTreasuryError,
>)
    ensures
        match add_profits_rejection(*old(ctx), amount) {
            Some(error) => {
                &&& result == Err::<(LamportTransfer, ProfitsAdded), MetaTreasuryError>(error)
                &&& *final(ctx) == *old(ctx)
            },
            None => {
                &&& result == Ok::<(LamportTransfer, ProfitsAdded), MetaTreasuryError>(
                    (
                        LamportTransfer {
                            from: old(ctx).authority,
                            to: old(ctx).treasury_address,
                            lamports: amount,
                        },
                        ProfitsAdded {
                            amount,
                            new_total: (old(ctx).treasury.total_sol + amount) as u64,
                            new_profit_pool: (old(ctx).treasury.profit_pool + amount) as u64,
                            timestamp,
                        },
                    ),
                )
                &&& *final(ctx) == profits_added(*old(ctx), amount)
            },
        },
        old(ctx).treasury.wf() ==> final(ctx).treasury.wf(),
{
    if ctx.authority != ctx.treasury.authority {
        return Err(MetaTreasuryError::Unauthorized);
    }
    if !ctx.treasury.is_initialized {
        return Err(MetaTreasuryError::NotInitialized);
    }
    if amount == 0 {
        return Err(MetaTreasuryError::InvalidAmount);
    }
    let new_total: u64 = match ctx.treasury.total_sol.checked_add(amount) {
        Some(total) => total,
        None => {
            return Err(MetaTreasuryError::ArithmeticFault);
        },
    };
    let new_profit_pool: u64 = match ctx.treasury.profit_pool.checked_add(amount) {
        Some(pool) => pool,
        None => {
            return Err(MetaTreasuryError::ArithmeticFault);
        },
    };
    ctx.treasury.total_sol = new_total;
    ctx.treasury.profit_pool = new_profit_pool;
    Ok(
        (
            LamportTransfer { from: ctx.authority, to: ctx.treasury_address, lamports: amount },
            ProfitsAdded { amount, new_total, new_profit_pool, timestamp },
        ),
    )
}

} // verus!
