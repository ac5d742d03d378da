//! What holds of the treasury program over more than one transition.

use crate::address::Address;
use crate::meta_treasury::accounts::{AddProfits, DistributeProfits, UpdateMultisig, WithdrawEmergency};
use crate::meta_treasury::distribution::{distribute_rejection, distributed, lemma_share_within_pool};
use crate::meta_treasury::emergency::{multisig_updated, update_multisig_rejection, withdraw_rejection};
use crate::meta_treasury::funding::{add_profits_rejection, profits_added};
use crate::meta_treasury::state::MetaTreasuryError;
use vstd::prelude::*;

verus! {

/// A distribution never takes more than the pool holds, so a pool that is
/// part of the books stays part of them, and neither goes below zero.
pub proof fn lemma_distribution_keeps_pool_within_books(
    ctx: DistributeProfits,
    holder_share_bps: u16,
)
    requires
        ctx.treasury.wf(),
        distribute_rejection(ctx, holder_share_bps) is None,
    ensures
        distributed(ctx, holder_share_bps).treasury.wf(),
        0 <= distributed(ctx, holder_share_bps).treasury.profit_pool <= ctx.treasury.profit_pool,
        ctx.treasury.total_sol - distributed(ctx, holder_share_bps).treasury.total_sol
            == ctx.treasury.profit_pool - distributed(ctx, holder_share_bps).treasury.profit_pool,
{
    lemma_share_within_pool(ctx.treasury.profit_pool, holder_share_bps);
}

/// Paying profits in and then distributing the whole share empties the pool:
/// the holder receives all of it, and the books go down by exactly that
/// amount. The balances of the treasury and of the holder must have room for
/// the movement.
pub proof fn lemma_full_share_drains_pool(deposit: AddProfits, amount: u64, payout: DistributeProfits)
    requires
        deposit.treasury.wf(),
        add_profits_rejection(deposit, amount) is None,
        payout.treasury == profits_added(deposit, amount).treasury,
        payout.authority == deposit.authority,
        payout.treasury.profit_pool <= payout.treasury_lamports,
        payout.holder_lamports + payout.treasury.profit_pool <= u64::MAX,
    ensures
        distribute_rejection(payout, 10000) is None,
        distributed(payout, 10000).treasury.profit_pool == 0,
        distributed(payout, 10000).treasury.total_sol == payout.treasury.total_sol
            - payout.treasury.profit_pool,
        distributed(payout, 10000).holder_lamports == payout.holder_lamports
            + payout.treasury.profit_pool,
        payout.treasury.profit_pool == deposit.treasury.profit_pool + amount,
{
    lemma_share_within_pool(payout.treasury.profit_pool, 10000);
}

/// Once the emergency authority has gone to another identity, a withdrawal
/// that the old holder could make before is refused to it as unauthorized, and
/// the same withdrawal by the new holder goes through.
pub proof fn lemma_emergency_authority_moves(
    handover: UpdateMultisig,
    new_multisig: Address,
    attempt: WithdrawEmergency,
    amount: u64,
)
    requires
        update_multisig_rejection(handover) is None,
        new_multisig != handover.treasury.emergency_multisig,
        attempt.treasury == handover.treasury,
        attempt.multisig == handover.multisig,
        withdraw_rejection(attempt, amount) is None,
    ensures
        ({
            let treasury = multisig_updated(handover, new_multisig).treasury;
            &&& withdraw_rejection(WithdrawEmergency { treasury, ..attempt }, amount) == Some(
                MetaTreasuryError::Unauthorized,
            )
            &&& withdraw_rejection(
                WithdrawEmergency { treasury, multisig: new_multisig, ..attempt },
                amount,
            ) is None
        }),
{
}

/// The two authorities are separate trust roots. Where they are held by
/// different identities, the authority over profits cannot withdraw, and the
/// emergency authority cannot distribute.
pub proof fn lemma_authorities_are_separate(
    withdrawal: WithdrawEmergency,
    amount: u64,
    payout: DistributeProfits,
    holder_share_bps: u16,
)
    requires
        withdrawal.treasury.authority != withdrawal.treasury.emergency_multisig,
        withdrawal.multisig == withdrawal.treasury.authority,
        payout.treasury.authority != payout.treasury.emergency_multisig,
        payout.authority == payout.treasury.emergency_multisig,
    ensures
        withdraw_rejection(withdrawal, amount) == Some(MetaTreasuryError::Unauthorized),
        distribute_rejection(payout, holder_share_bps) == Some(MetaTreasuryError::Unauthorized),
{
}

} // verus!
