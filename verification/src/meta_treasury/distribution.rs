//! Paying a share of the profit pool to a holder.

use crate::meta_treasury::accounts::DistributeProfits;
use crate::meta_treasury::events::ProfitsDistributed;
use crate::meta_treasury::state::{MetaTreasuryError, TreasuryState, BASIS_POINTS};
use vstd::prelude::*;

verus! {

/// The share of `profit_pool` that `holder_share_bps` basis points come to,
/// rounded down.
pub open spec fn share_of(profit_pool: u64, holder_share_bps: u16) -> int {
    (profit_pool * holder_share_bps) / 10000
}

/// A share of at most the whole is at most the pool, and the whole is the
/// pool.
pub proof fn lemma_share_within_pool(profit_pool: u64, holder_share_bps: u16)
    requires
        holder_share_bps <= 10000,
    ensures
        0 <= share_of(profit_pool, holder_share_bps) <= profit_pool,
        holder_share_bps == 10000 ==> share_of(profit_pool, holder_share_bps) == profit_pool,
{
    let pool = profit_pool as int;
    let bps = holder_share_bps as int;
    assert(0 <= pool * bps <= pool * 10000) by (nonlinear_arith)
        requires
            0 <= pool,
            0 <= bps <= 10000,
    ;
    assert((pool * bps) / 10000 <= (pool * 10000) / 10000) by (nonlinear_arith)
        requires
            pool * bps <= pool * 10000,
    ;
    assert((pool * 10000) / 10000 == pool) by (nonlinear_arith);
    assert(0 <= (pool * bps) / 10000) by (nonlinear_arith)
        requires
            0 <= pool * bps,
    ;
}

/// The share of the pool, computed in 128 bits so that the product has room.
fn compute_share(profit_pool: u64, holder_share_bps: u16) -> (share: u64)
    requires
        holder_share_bps <= 10000,
    ensures
        share == share_of(profit_pool, holder_share_bps),
        share <= profit_pool,
{
    proof {
        lemma_share_within_pool(profit_pool, holder_share_bps);
        assert(profit_pool * holder_share_bps <= 0xffff_ffff_ffff_ffff * 10000) by (nonlinear_arith)
            requires
                0 <= profit_pool <= 0xffff_ffff_ffff_ffff,
                0 <= holder_share_bps <= 10000,
        ;
    }
    let wide: u128 = (profit_pool as u128) * (holder_share_bps as u128) / (BASIS_POINTS as u128);
    wide as u64
}

/// Why the distribution is refused, if it is. The caller must be the
/// authority; the treasury must be set up; the pool must hold something; the
/// share must be in range and come to something; and the books and the two
/// balances must have room for the movement.
pub open spec fn distribute_rejection(ctx: DistributeProfits, holder_share_bps: u16) -> Option<
    MetaTreasuryError,
> {
    let amount = share_of(ctx.treasury.profit_pool, holder_share_bps);
    if ctx.authority != ctx.treasury.authority {
        Some(MetaTreasuryError::Unauthorized)
    } else if !ctx.treasury.is_initialized {
        Some(MetaTreasuryError::NotInitialized)
    } else if ctx.treasury.profit_pool == 0 {
        Some(MetaTreasuryError::NoProfits)
    } else if holder_share_bps == 0 || holder_share_bps > 10000 {
        Some(MetaTreasuryError::InvalidShare)
    } else if amount == 0 {
        Some(MetaTreasuryError::InvalidAmount)
    } else if amount > ctx.treasury.total_sol || amount > ctx.treasury_lamports
        || ctx.holder_lamports + amount > u64::MAX {
        Some(MetaTreasuryError::ArithmeticFault)
    } else {
        None
    }
}

/// The accounts after the distribution: the share has left the pool, the books
/// and the treasury's balance, and has reached the holder's balance.
pub open spec fn distributed(ctx: DistributeProfits, holder_share_bps: u16) -> DistributeProfits {
    let amount = share_of(ctx.treasury.profit_pool, holder_share_bps);
    DistributeProfits {
        treasury: TreasuryState {
            profit_pool: (ctx.treasury.profit_pool - amount) as u64,
            total_sol: (ctx.treasury.total_sol - amount) as u64,
            ..ctx.treasury
        },
        treasury_lamports: (ctx.treasury_lamports - amount) as u64,
        holder_lamports: (ctx.holder_lamports + amount) as u64,
        ..ctx
    }
}

/// The notification of the distribution: the holder, the amount paid, the
/// share asked for and what is left in the pool.
pub open spec fn distribution_notification(
    ctx: DistributeProfits,
    holder_share_bps: u16,
    timestamp: i64,
) -> ProfitsDistributed {
    let amount = share_of(ctx.treasury.profit_pool, holder_share_bps);
    ProfitsDistributed {
        holder: ctx.holder,
        amount: amount as u64,
        share_bps: holder_share_bps,
        remaining_pool: (ctx.treasury.profit_pool - amount) as u64,
        timestamp,
    }
}

/// Pays `holder_share_bps` basis points of the profit pool to the holder.
///
/// The amount leaves the treasury's balance and reaches the holder's; the pool
/// and the books go down by it. Whatever the share, a pool that was part of
/// the books before is part of them after. On failure nothing has changed.
pub fn distribute_profits(
    ctx: &mut DistributeProfits,
    holder_share_bps: u16,
    timestamp: i64,
) -> (result: Result<ProfitsDistributed, MetaTreasuryError>)
    ensures
        match distribute_rejection(*old(ctx), holder_share_bps) {
            Some(error) => {
                &&& result == Err::<ProfitsDistributed, MetaTreasuryError>(error)
                &&& *final(ctx) == *old(ctx)
            },
            None => {
                &&& result == Ok::<ProfitsDistributed, MetaTreasuryError>(
                    distribution_notification(*old(ctx), holder_share_bps, timestamp),
                )
                &&& *final(ctx) == distributed(*old(ctx), holder_share_bps)
            },
        },
        old(ctx).authority == old(ctx).treasury.authority && old(ctx).treasury.is_initialized
            && old(ctx).treasury.profit_pool > 0 && (holder_share_bps == 0 || holder_share_bps
            > 10000) ==> {
            &&& result == Err::<ProfitsDistributed, MetaTreasuryError>(
                MetaTreasuryError::InvalidShare,
            )
            &&& *final(ctx) == *old(ctx)
        },
        old(ctx).treasury.wf() ==> final(ctx).treasury.wf(),
        final(ctx).treasury.profit_pool <= old(ctx).treasury.profit_pool,
        final(ctx).treasury.total_sol <= old(ctx).treasury.total_sol,
        final(ctx).treasury_lamports + final(ctx).holder_lamports == old(ctx).treasury_lamports
            + old(ctx).holder_lamports,
{
    if ctx.authority != ctx.treasury.authority {
        return Err(MetaTreasuryError::Unauthorized);
    }
    if !ctx.treasury.is_initialized {
        return Err(MetaTreasuryError::NotInitialized);
    }
    if ctx.treasury.profit_pool == 0 {
        return Err(MetaTreasuryError::NoProfits);
    }
    if holder_share_bps == 0 || holder_share_bps > BASIS_POINTS {
        return Err(MetaTreasuryError::InvalidShare);
    }
    let amount: u64 = compute_share(ctx.treasury.profit_pool, holder_share_bps);
    if amount == 0 {
        return Err(MetaTreasuryError::InvalidAmount);
    }
    // A share in range never exceeds the pool; the test stays as a second
    // line of defence.
    if amount > ctx.treasury.profit_pool {
        return Err(MetaTreasuryError::InsufficientFunds);
    }
    let remaining_pool: u64 = ctx.treasury.profit_pool - amount;
    let remaining_total: u64 = match ctx.treasury.total_sol.checked_sub(amount) {
        Some(total) => total,
        None => {
            return Err(MetaTreasuryError::ArithmeticFault);
        },
    };
    let treasury_lamports: u64 = match ctx.treasury_lamports.checked_sub(amount) {
        Some(lamports) => lamports,
        None => {
            return Err(MetaTreasuryError::ArithmeticFault);
        },
    };
    let holder_lamports: u64 = match ctx.holder_lamports.checked_add(amount) {
        Some(lamports) => lamports,
        None => {
            return Err(MetaTreasuryError::ArithmeticFault);
        },
    };
    ctx.treasury_lamports = treasury_lamports;
    ctx.holder_lamports = holder_lamports;
    ctx.treasury.profit_pool = remaining_pool;
    ctx.treasury.total_sol = remaining_total;
    Ok(
        ProfitsDistributed {
            holder: ctx.holder,
            amount,
            share_bps: holder_share_bps,
            remaining_pool,
            timestamp,
        },
    )
}

} // verus!
