//! The record of the treasury program, and the ways its transitions fail.

use crate::address::Address;
use vstd::prelude::*;

verus! {

/// Basis points that make up the whole.
pub const BASIS_POINTS: u16 = 10000;

/// Why a transition of the treasury program did not take place.
#[derive(Clone, Copy, Debug, PartialEq, Eq, Structural)]
pub enum MetaTreasuryError {
    /// The treasury has not been set up.
    NotInitialized,
    /// The amount is zero, or the share comes to nothing.
    InvalidAmount,
    /// The profit pool is empty.
    NoProfits,
    /// The share is not in the range from 1 to 10000 basis points.
    InvalidShare,
    /// The balance does not cover the amount.
    InsufficientFunds,
    /// The caller is not the authority that the transition asks for.
    Unauthorized,
    /// The record to create exists already.
    DuplicateCreation,
    /// A balance would have left its range.
    ArithmeticFault,
}

impl MetaTreasuryError {
    /// The text shown for the error.
    pub fn message(&self) -> (text: &'static str)
        ensures
            text@ == (match *self {
                MetaTreasuryError::NotInitialized => "Treasury not initialized"@,
                MetaTreasuryError::InvalidAmount => "Invalid amount"@,
                MetaTreasuryError::NoProfits => "No profits available for distribution"@,
                MetaTreasuryError::InvalidShare => "Invalid share percentage"@,
                MetaTreasuryError::InsufficientFunds => "Insufficient funds in treasury"@,
                MetaTreasuryError::Unauthorized => "Unauthorized"@,
                MetaTreasuryError::DuplicateCreation => "Record already exists"@,
                MetaTreasuryError::ArithmeticFault => "Arithmetic overflow"@,
            }),
    {
        match self {
            MetaTreasuryError::NotInitialized => "Treasury not initialized",
            MetaTreasuryError::InvalidAmount => "Invalid amount",
            MetaTreasuryError::NoProfits => "No profits available for distribution",
            MetaTreasuryError::InvalidShare => "Invalid share percentage",
            MetaTreasuryError::InsufficientFunds => "Insufficient funds in treasury",
            MetaTreasuryError::Unauthorized => "Unauthorized",
            MetaTreasuryError::DuplicateCreation => "Record already exists",
            MetaTreasuryError::ArithmeticFault => "Arithmetic overflow",
        }
    }
}

/// The books of the treasury: one per program.
#[derive(Clone, Copy, Debug, PartialEq, Eq)]
pub struct TreasuryState {
    /// Who may add and distribute profits.
    pub authority: Address,
    /// Who may withdraw in an emergency: a trust root of its own, meant to be
    /// held by several parties.
    pub emergency_multisig: Address,
    /// Funds on the books, in the smallest unit of the native token.
    pub total_sol: u64,
    /// The part of the funds that is set aside for distribution.
    pub profit_pool: u64,
    /// Every transition but the first is refused while this is false.
    pub is_initialized: bool,
    /// Nonce by which the record signs for itself.
    pub bump: u8,
}

impl TreasuryState {
    /// The profit pool is part of the funds on the books.
    pub open spec fn wf(&self) -> bool {
        self.profit_pool <= self.total_sol
    }

    /// Whether the profit pool is part of the funds on the books.
    pub fn is_well_formed(&self) -> (holds: bool)
        ensures
            holds == self.wf(),
    {
        self.profit_pool <= self.total_sol
    }
}

} // verus!
