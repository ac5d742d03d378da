//! What a mint asks of the ledger and of the metadata service.

use crate::address::Address;
use crate::meta_nft::events::StrategyNftMinted;
use crate::transfer::LamportTransfer;
use vstd::prelude::*;

verus! {

/// Resale royalty of a minted strategy, in basis points: five percent.
pub const SELLER_FEE_BASIS_POINTS: u16 = 500;

/// Share of the royalties that goes to the one creator, in percent.
pub const CREATOR_SHARE: u8 = 100;

/// Decimal places of a token-unit: none.
pub const TOKEN_DECIMALS: u8 = 0;

/// Units issued of each token-unit.
pub const TOKEN_SUPPLY: u64 = 1;

/// Further editions that can be printed of a minted strategy: none.
pub const MAX_EDITION_SUPPLY: u64 = 0;

/// One creator of a token-unit, as the metadata service records it.
#[derive(Clone, Copy, Debug, PartialEq, Eq)]
pub struct Creator {
    pub address: Address,
    pub verified: bool,
    /// Share of the royalties, in percent.
    pub share: u8,
}

/// The collection that a token-unit is grouped under, as the metadata service
/// records it.
#[derive(Clone, Copy, Debug, PartialEq, Eq)]
pub struct CollectionGroup {
    pub verified: bool,
    pub key: Address,
}

/// How a use of a token-unit is counted.
#[derive(Clone, Copy, Debug, PartialEq, Eq)]
pub enum UseMethod {
    Burn,
    Multiple,
    Single,
}

/// A limit on the uses of a token-unit, as the metadata service records it.
#[derive(Clone, Copy, Debug, PartialEq, Eq)]
pub struct UseLimit {
    pub use_method: UseMethod,
    pub remaining: u64,
    pub total: u64,
}

/// The display data that the metadata service keeps for a token-unit.
#[derive(Clone, Debug, PartialEq, Eq)]
pub struct TokenMetadata {
    pub name: String,
    pub symbol: String,
    pub uri: String,
    pub seller_fee_basis_points: u16,
    pub creators: Option<Vec<Creator>>,
    pub collection: Option<CollectionGroup>,
    pub uses: Option<UseLimit>,
}

/// What a `TokenMetadata` holds.
pub struct TokenMetadataView {
    pub name: Seq<char>,
    pub symbol: Seq<char>,
    pub uri: Seq<char>,
    pub seller_fee_basis_points: u16,
    pub creators: Option<Seq<Creator>>,
    pub collection: Option<CollectionGroup>,
    pub uses: Option<UseLimit>,
}

impl View for TokenMetadata {
    type V = TokenMetadataView;

    open spec fn view(&self) -> TokenMetadataView {
        TokenMetadataView {
            name: self.name@,
            symbol: self.symbol@,
            uri: self.uri@,
            seller_fee_basis_points: self.seller_fee_basis_points,
            creators: match self.creators {
                Some(creators) => Some(creators@),
                None => None,
            },
            collection: self.collection,
            uses: self.uses,
        }
    }
}

/// One step that the ledger takes for a mint. The `authority` of a step is the
/// identity of the collection configuration; the steps taken in its name, from
/// the issuing on, are signed with its seeds.
#[derive(Clone, Debug, PartialEq, Eq)]
pub enum MintInstruction {
    /// Move the fee from the payer to the treasury.
    TransferFee(LamportTransfer),
    /// Create the token-unit.
    CreateTokenUnit {
        mint: Address,
        decimals: u8,
        authority: Address,
        freeze_authority: Option<Address>,
    },
    /// Issue units of the token-unit into the holding account that `owner`
    /// has for it.
    IssueToken { mint: Address, to: Address, owner: Address, authority: Address, amount: u64 },
    /// Register the display data with the metadata service.
    RegisterMetadata {
        metadata: Address,
        mint: Address,
        authority: Address,
        data: TokenMetadata,
        is_mutable: bool,
        update_authority_is_signer: bool,
    },
    /// Make the token-unit a non-fungible record of which at most `max_supply`
    /// further editions can be printed.
    CreateMasterEdition {
        edition: Address,
        mint: Address,
        authority: Address,
        max_supply: Option<u64>,
    },
}

/// What a mint that succeeded hands back.
#[derive(Clone, Debug, PartialEq, Eq)]
pub struct MintReceipt {
    /// The steps to take, in this order. If one of them fails, none of the
    /// mint has happened.
    pub instructions: Vec<MintInstruction>,
    /// The seeds by which the collection configuration signs.
    pub signer_seeds: Vec<Vec<u8>>,
    /// The notification to publish.
    pub event: StrategyNftMinted,
}

} // verus!
