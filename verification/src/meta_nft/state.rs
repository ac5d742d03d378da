//! The records of the minting program, and the ways its transitions fail.

use crate::address::Address;
use vstd::prelude::*;
use vstd::utf8::encode_utf8;

verus! {

/// Fee of a mint, in the smallest unit of the native token, until the
/// authority sets another.
pub const DEFAULT_MINT_PRICE_LAMPORTS: u64 = 100_000_000;

/// Most bytes that a strategy identifier may have.
pub const MAX_STRATEGY_ID_LEN: usize = 64;

/// Most bytes that the content hash of a strategy's genes may have.
pub const MAX_GENES_HASH_LEN: usize = 64;

/// Most bytes that an archetype tag may have.
pub const MAX_ARCHETYPE_LEN: usize = 32;

/// Why a transition of the minting program did not take place.
#[derive(Clone, Copy, Debug, PartialEq, Eq, Structural)]
pub enum MetaNftError {
    /// Minting is switched off.
    MintingPaused,
    /// The caller is not the authority of the collection.
    Unauthorized,
    /// An attribute of the strategy is longer than a record can hold.
    InvalidStrategyData,
    /// The record to create exists already.
    DuplicateCreation,
    /// A counter would have left its range.
    ArithmeticFault,
}

impl MetaNftError {
    /// The text shown for the error.
    pub fn message(&self) -> (text: &'static str)
        ensures
            text@ == (match *self {
                MetaNftError::MintingPaused => "Minting is currently paused"@,
                MetaNftError::Unauthorized => "Unauthorized"@,
                MetaNftError::InvalidStrategyData => "Invalid strategy data"@,
                MetaNftError::DuplicateCreation => "Record already exists"@,
                MetaNftError::ArithmeticFault => "Arithmetic overflow"@,
            }),
    {
        match self {
            MetaNftError::MintingPaused => "Minting is currently paused",
            MetaNftError::Unauthorized => "Unauthorized",
            MetaNftError::InvalidStrategyData => "Invalid strategy data",
            MetaNftError::DuplicateCreation => "Record already exists",
            MetaNftError::ArithmeticFault => "Arithmetic overflow",
        }
    }
}

/// Configuration of the collection: one per program.
#[derive(Clone, Copy, Debug, PartialEq, Eq)]
pub struct CollectionConfig {
    /// Who may change the configuration.
    pub authority: Address,
    /// Number of strategy records minted so far. It never decreases.
    pub total_minted: u64,
    /// Current fee of a mint.
    pub mint_price_lamports: u64,
    /// Minting is refused while this is false.
    pub is_active: bool,
    /// Nonce by which the record signs for itself.
    pub bump: u8,
}

/// Number of bytes that a text takes in a record.
pub open spec fn byte_len(text: Seq<char>) -> nat {
    encode_utf8(text).len()
}

/// The attributes of one minted strategy. Written once, at mint time.
#[derive(Clone, Debug, PartialEq, Eq)]
pub struct StrategyNftData {
    /// The token-unit that stands for the strategy.
    pub mint: Address,
    pub strategy_id: String,
    /// Content hash of the strategy's genetic encoding.
    pub genes_hash: String,
    pub owner: Address,
    /// When the record was created.
    pub minted_at: i64,
    /// Fee paid for the mint.
    pub mint_price: u64,
    pub archetype: String,
    pub generation: u32,
    pub fitness_score: u64,
    /// Cumulative profit or loss.
    pub total_pnl: i64,
    pub win_rate: u64,
    pub trades_executed: u32,
    /// Nonce of the record's address.
    pub bump: u8,
}

/// What a strategy record holds.
pub struct StrategyRecord {
    pub mint: Address,
    pub strategy_id: Seq<char>,
    pub genes_hash: Seq<char>,
    pub owner: Address,
    pub minted_at: i64,
    pub mint_price: u64,
    pub archetype: Seq<char>,
    pub generation: u32,
    pub fitness_score: u64,
    pub total_pnl: i64,
    pub win_rate: u64,
    pub trades_executed: u32,
    pub bump: u8,
}

impl View for StrategyNftData {
    type V = StrategyRecord;

    open spec fn view(&self) -> StrategyRecord {
        StrategyRecord {
            mint: self.mint,
            strategy_id: self.strategy_id@,
            genes_hash: self.genes_hash@,
            owner: self.owner,
            minted_at: self.minted_at,
            mint_price: self.mint_price,
            archetype: self.archetype@,
            generation: self.generation,
            fitness_score: self.fitness_score,
            total_pnl: self.total_pnl,
            win_rate: self.win_rate,
            trades_executed: self.trades_executed,
            bump: self.bump,
        }
    }
}

impl StrategyRecord {
    /// The texts fit the space that a record has for them.
    pub open spec fn within_bounds(self) -> bool {
        strategy_texts_fit(self.strategy_id, self.genes_hash, self.archetype)
    }
}

/// The three texts of a strategy fit the space that a record has for them.
pub open spec fn strategy_texts_fit(
    strategy_id: Seq<char>,
    genes_hash: Seq<char>,
    archetype: Seq<char>,
) -> bool {
    &&& byte_len(strategy_id) <= 64
    &&& byte_len(genes_hash) <= 64
    &&& byte_len(archetype) <= 32
}

impl StrategyNftData {
    /// The texts fit the space that a record has for them.
    pub open spec fn wf(&self) -> bool {
        self@.within_bounds()
    }

    /// Whether the texts fit the space that a record has for them.
    pub fn is_well_formed(&self) -> (fits: bool)
        ensures
            fits == self.wf(),
    {
        texts_fit(&self.strategy_id, &self.genes_hash, &self.archetype)
    }
}

/// Number of bytes that a text takes in a record.
pub fn text_len(text: &String) -> (len: usize)
    ensures
        len == byte_len(text@),
{
    text.as_str().as_bytes().len()
}

/// Whether the three texts of a strategy fit the space that a record has for
/// them.
pub fn texts_fit(strategy_id: &String, genes_hash: &String, archetype: &String) -> (fits: bool)
    ensures
        fits == strategy_texts_fit(strategy_id@, genes_hash@, archetype@),
{
    text_len(strategy_id) <= MAX_STRATEGY_ID_LEN && text_len(genes_hash) <= MAX_GENES_HASH_LEN
        && text_len(archetype) <= MAX_ARCHETYPE_LEN
}

} // verus!
