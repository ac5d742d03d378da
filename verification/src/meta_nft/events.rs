//! Notifications of the minting program. Each transition that succeeds hands
//! one back for the ledger to publish.

use crate::address::Address;
use vstd::prelude::*;

verus! {

/// The collection was set up.
#[derive(Clone, Debug, PartialEq, Eq)]
pub struct CollectionInitialized {
    pub authority: Address,
    pub name: String,
    pub symbol: String,
    pub timestamp: i64,
}

/// What a `CollectionInitialized` holds.
pub struct CollectionInitializedView {
    pub authority: Address,
    pub name: Seq<char>,
    pub symbol: Seq<char>,
    pub timestamp: i64,
}

impl View for CollectionInitialized {
    type V = CollectionInitializedView;

    open spec fn view(&self) -> CollectionInitializedView {
        CollectionInitializedView {
            authority: self.authority,
            name: self.name@,
            symbol: self.symbol@,
            timestamp: self.timestamp,
        }
    }
}

/// A strategy record was minted.
#[derive(Clone, Debug, PartialEq, Eq)]
pub struct StrategyNftMinted {
    pub mint: Address,
    pub owner: Address,
    pub strategy_id: String,
    pub genes_hash: String,
    pub archetype: String,
    pub generation: u32,
    pub fitness_score: u64,
    pub total_pnl: i64,
    pub win_rate: u64,
    pub trades_executed: u32,
    pub mint_price: u64,
    pub timestamp: i64,
}

/// What a `StrategyNftMinted` holds.
pub struct StrategyNftMintedView {
    pub mint: Address,
    pub owner: Address,
    pub strategy_id: Seq<char>,
    pub genes_hash: Seq<char>,
    pub archetype: Seq<char>,
    pub generation: u32,
    pub fitness_score: u64,
    pub total_pnl: i64,
    pub win_rate: u64,
    pub trades_executed: u32,
    pub mint_price: u64,
    pub timestamp: i64,
}

impl View for StrategyNftMinted {
    type V = StrategyNftMintedView;

    open spec fn view(&self) -> StrategyNftMintedView {
        StrategyNftMintedView {
            mint: self.mint,
            owner: self.owner,
            strategy_id: self.strategy_id@,
            genes_hash: self.genes_hash@,
            archetype: self.archetype@,
            generation: self.generation,
            fitness_score: self.fitness_score,
            total_pnl: self.total_pnl,
            win_rate: self.win_rate,
            trades_executed: self.trades_executed,
            mint_price: self.mint_price,
            timestamp: self.timestamp,
        }
    }
}

/// The fee of a mint was changed.
#[derive(Clone, Copy, Debug, PartialEq, Eq)]
pub struct MintPriceUpdated {
    pub old_price: u64,
    pub new_price: u64,
    pub timestamp: i64,
}

/// Minting was switched on or off.
#[derive(Clone, Copy, Debug, PartialEq, Eq)]
pub struct MintingToggled {
    /// The switch before the change.
    pub was_active: bool,
    /// The switch after the change.
    pub is_active: bool,
    pub timestamp: i64,
}

/// The authority over the collection went to another identity.
#[derive(Clone, Copy, Debug, PartialEq, Eq)]
pub struct AuthorityTransferred {
    pub old_authority: Address,
    pub new_authority: Address,
    pub timestamp: i64,
}

} // verus!
