//! Notifications of the treasury program. Each transition that succeeds hands
//! one back for the ledger to publish.

use crate::address::Address;
use vstd::prelude::*;

verus! {

/// The treasury was set up.
#[derive(Clone, Copy, Debug, PartialEq, Eq)]
pub struct TreasuryInitialized {
    pub authority: Address,
    pub initial_amount: u64,
    pub timestamp: i64,
}

/// Profits came in.
#[derive(Clone, Copy, Debug, PartialEq, Eq)]
pub struct ProfitsAdded {
    pub amount: u64,
    pub new_total: u64,
    pub new_profit_pool: u64,
    pub timestamp: i64,
}

/// A share of the profit pool went to a holder.
#[derive(Clone, Copy, Debug, PartialEq, Eq)]
pub struct ProfitsDistributed {
    pub holder: Address,
    pub amount: u64,
    pub share_bps: u16,
    pub remaining_pool: u64,
    pub timestamp: i64,
}

/// Funds left by the emergency path.
#[derive(Clone, Copy, Debug, PartialEq, Eq)]
pub struct EmergencyWithdrawal {
    pub multisig: Address,
    pub destination: Address,
    pub amount: u64,
    pub remaining: u64,
    pub timestamp: i64,
}

/// The emergency authority went to another identity.
#[derive(Clone, Copy, Debug, PartialEq, Eq)]
pub struct MultisigUpdated {
    pub old_multisig: Address,
    pub new_multisig: Address,
    pub timestamp: i64,
}

} // verus!
