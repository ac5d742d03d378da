//! The accounts that each transition of the treasury program works on, as the
//! ledger hands them over.
//!
//! Where a transition moves funds out of the treasury it adjusts the balances
//! itself, so its accounts hold the balance that the ledger keeps for the
//! treasury and for the receiver.
//!
//! The treasury lives at the address derived for the program. `resolve` takes
//! the address that a caller names and makes the accounts of a transition out
//! of it only where it is the derived one.

use crate::address::{
    is_treasury_authority, nonce_at, program_address, treasury_label, treasury_nonce, Address,
};
use crate::meta_treasury::state::TreasuryState;
use vstd::prelude::*;

verus! {

/// Accounts of `initialize_treasury`.
#[derive(Clone, Copy, Debug, PartialEq, Eq)]
pub struct InitializeTreasury {
    /// What the ledger holds at the address of the treasury: nothing, before
    /// the treasury is set up.
    pub treasury: Option<TreasuryState>,
    /// The address of the treasury.
    pub treasury_address: Address,
    /// Nonce of that address.
    pub bump: u8,
    /// The caller, who signs and makes the first deposit.
    pub authority: Address,
    /// The identity that is to hold the emergency authority.
    pub multisig: Address,
}

impl InitializeTreasury {
    /// The accounts of a call that names `treasury_address` as the place of
    /// the treasury, holding `treasury`: `None` unless that is where the
    /// treasury of the program lives.
    pub fn resolve(
        program_id: &Address,
        treasury_address: &Address,
        treasury: Option<TreasuryState>,
        authority: Address,
        multisig: Address,
    ) -> (resolved: Option<InitializeTreasury>)
        ensures
            resolved == (match nonce_at(seq![treasury_label()], program_id@, treasury_address@) {
                Some(bump) => Some(
                    InitializeTreasury {
                        treasury,
                        treasury_address: *treasury_address,
                        bump,
                        authority,
                        multisig,
                    },
                ),
                None => None,
            }),
    {
        match treasury_nonce(treasury_address, program_id) {
            Some(bump) => Some(
                InitializeTreasury {
                    treasury,
                    treasury_address: *treasury_address,
                    bump,
                    authority,
                    multisig,
                },
            ),
            None => None,
        }
    }
}

/// `claimed` is the identity that the treasury signs as.
pub open spec fn is_treasury(treasury: TreasuryState, claimed: Address, program_id: Address) -> bool {
    program_address(seq![treasury_label(), seq![treasury.bump]], program_id@) == Some(claimed@)
}

/// Accounts of `add_profits`.
#[derive(Clone, Copy, Debug, PartialEq, Eq)]
pub struct AddProfits {
    pub treasury: TreasuryState,
    /// The address of the treasury.
    pub treasury_address: Address,
    /// The caller, who signs and pays in.
    pub authority: Address,
}

impl AddProfits {
    /// The accounts of a payment: `None` unless `treasury_address` is the
    /// identity that the treasury signs as.
    pub fn resolve(
        program_id: &Address,
        treasury_address: &Address,
        treasury: TreasuryState,
        authority: Address,
    ) -> (resolved: Option<AddProfits>)
        ensures
            resolved == (if is_treasury(treasury, *treasury_address, *program_id) {
                Some(AddProfits { treasury, treasury_address: *treasury_address, authority })
            } else {
                None
            }),
    {
        if is_treasury_authority(treasury_address, treasury.bump, program_id) {
            Some(AddProfits { treasury, treasury_address: *treasury_address, authority })
        } else {
            None
        }
    }
}

/// Accounts of `distribute_profits`.
#[derive(Clone, Copy, Debug, PartialEq, Eq)]
pub struct DistributeProfits {
    pub treasury: TreasuryState,
    /// Balance that the ledger keeps for the treasury.
    pub treasury_lamports: u64,
    /// The caller, who signs.
    pub authority: Address,
    /// Who receives the share.
    pub holder: Address,
    /// Balance that the ledger keeps for the holder.
    pub holder_lamports: u64,
}

impl DistributeProfits {
    /// The accounts of a distribution: `None` unless `treasury_address` is the
    /// identity that the treasury signs as.
    pub fn resolve(
        program_id: &Address,
        treasury_address: &Address,
        treasury: TreasuryState,
        treasury_lamports: u64,
        authority: Address,
        holder: Address,
        holder_lamports: u64,
    ) -> (resolved: Option<DistributeProfits>)
        ensures
            resolved == (if is_treasury(treasury, *treasury_address, *program_id) {
                Some(
                    DistributeProfits {
                        treasury,
                        treasury_lamports,
                        authority,
                        holder,
                        holder_lamports,
                    },
                )
            } else {
                None
            }),
    {
        if is_treasury_authority(treasury_address, treasury.bump, program_id) {
            Some(
                DistributeProfits { treasury, treasury_lamports, authority, holder, holder_lamports },
            )
        } else {
            None
        }
    }
}

/// Accounts of `withdraw_emergency`.
#[derive(Clone, Copy, Debug, PartialEq, Eq)]
pub struct WithdrawEmergency {
    pub treasury: TreasuryState,
    /// Balance that the ledger keeps for the treasury.
    pub treasury_lamports: u64,
    /// The caller, who signs.
    pub multisig: Address,
    /// Who receives the funds.
    pub destination: Address,
    /// Balance that the ledger keeps for the destination.
    pub destination_lamports: u64,
}

impl WithdrawEmergency {
    /// The accounts of a withdrawal: `None` unless `treasury_address` is the
    /// identity that the treasury signs as.
    pub fn resolve(
        program_id: &Address,
        treasury_address: &Address,
        treasury: TreasuryState,
        treasury_lamports: u64,
        multisig: Address,
        destination: Address,
        destination_lamports: u64,
    ) -> (resolved: Option<WithdrawEmergency>)
        ensures
            resolved == (if is_treasury(treasury, *treasury_address, *program_id) {
                Some(
                    WithdrawEmergency {
                        treasury,
                        treasury_lamports,
                        multisig,
                        destination,
                        destination_lamports,
                    },
                )
            } else {
                None
            }),
    {
        if is_treasury_authority(treasury_address, treasury.bump, program_id) {
            Some(
                WithdrawEmergency {
                    treasury,
                    treasury_lamports,
                    multisig,
                    destination,
                    destination_lamports,
                },
            )
        } else {
            None
        }
    }
}

/// Accounts of `update_multisig`.
#[derive(Clone, Copy, Debug, PartialEq, Eq)]
pub struct UpdateMultisig {
    pub treasury: TreasuryState,
    /// The caller, who signs.
    pub multisig: Address,
}

impl UpdateMultisig {
    /// The accounts of a handing over: `None` unless `treasury_address` is the
    /// identity that the treasury signs as.
    pub fn resolve(
        program_id: &Address,
        treasury_address: &Address,
        treasury: TreasuryState,
        multisig: Address,
    ) -> (resolved: Option<UpdateMultisig>)
        ensures
            resolved == (if is_treasury(treasury, *treasury_address, *program_id) {
                Some(UpdateMultisig { treasury, multisig })
            } else {
                None
            }),
    {
        if is_treasury_authority(treasury_address, treasury.bump, program_id) {
            Some(UpdateMultisig { treasury, multisig })
        } else {
            None
        }
    }
}

} // verus!
