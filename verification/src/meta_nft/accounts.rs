//! The accounts that each transition of the minting program works on, as the
//! ledger hands them over.
//!
//! The records of the program live at addresses derived for it. `resolve`
//! takes the addresses that a caller names and makes the accounts of a
//! transition out of them only where they are the derived ones.

use crate::address::{
    collection_label, collection_nonce, is_collection_authority, nonce_at, program_address,
    strategy_label, strategy_nonce, Address,
};
use crate::meta_nft::state::{CollectionConfig, StrategyNftData, StrategyRecord};
use vstd::prelude::*;
use vstd::string::StringSliceAdditionalSpecFns;

verus! {

/// Accounts of `initialize_collection`.
#[derive(Clone, Copy, Debug, PartialEq, Eq)]
pub struct InitializeCollection {
    /// What the ledger holds at the address of the collection configuration:
    /// nothing, before the collection is set up.
    pub collection_config: Option<CollectionConfig>,
    /// Nonce of that address.
    pub bump: u8,
    /// The caller, who signs.
    pub authority: Address,
}

/// `claimed` is the identity that the collection configuration signs as.
pub open spec fn is_collection(
    collection_config: CollectionConfig,
    claimed: Address,
    program_id: Address,
) -> bool {
    program_address(seq![collection_label(), seq![collection_config.bump]], program_id@) == Some(
        claimed@,
    )
}

impl InitializeCollection {
    /// The accounts of a call that names `collection_config_address` as the
    /// place of the collection configuration, holding `collection_config`:
    /// `None` unless that is where the configuration of the program lives.
    pub fn resolve(
        program_id: &Address,
        collection_config_address: &Address,
        collection_config: Option<CollectionConfig>,
        authority: Address,
    ) -> (resolved: Option<InitializeCollection>)
        ensures
            resolved == (match nonce_at(
                seq![collection_label()],
                program_id@,
                collection_config_address@,
            ) {
                Some(bump) => Some(InitializeCollection { collection_config, bump, authority }),
                None => None,
            }),
    {
        match collection_nonce(collection_config_address, program_id) {
            Some(bump) => Some(InitializeCollection { collection_config, bump, authority }),
            None => None,
        }
    }
}

/// Accounts of `mint_strategy_nft`.
#[derive(Clone, Debug, PartialEq, Eq)]
pub struct MintStrategyNft {
    pub collection_config: CollectionConfig,
    /// The identity that the collection configuration signs as: its address.
    pub collection_authority: Address,
    /// What the ledger holds at the address derived from the strategy
    /// identifier: nothing, unless that strategy was minted before.
    pub strategy_nft: Option<StrategyNftData>,
    /// Nonce of that address.
    pub strategy_nft_bump: u8,
    /// The token-unit to create.
    pub mint: Address,
    /// The payer's holding account for the token-unit.
    pub token_account: Address,
    /// Where the metadata service keeps the display data.
    pub metadata: Address,
    /// Where the metadata service keeps the edition record.
    pub master_edition: Address,
    /// Who receives the fee.
    pub treasury: Address,
    /// The caller, who signs and pays.
    pub payer: Address,
}

/// What the accounts of `mint_strategy_nft` hold.
pub struct MintAccounts {
    pub collection_config: CollectionConfig,
    pub collection_authority: Address,
    pub strategy_nft: Option<StrategyRecord>,
    pub strategy_nft_bump: u8,
    pub mint: Address,
    pub token_account: Address,
    pub metadata: Address,
    pub master_edition: Address,
    pub treasury: Address,
    pub payer: Address,
}

impl View for MintStrategyNft {
    type V = MintAccounts;

    open spec fn view(&self) -> MintAccounts {
        MintAccounts {
            collection_config: self.collection_config,
            collection_authority: self.collection_authority,
            strategy_nft: match self.strategy_nft {
                Some(record) => Some(record@),
                None => None,
            },
            strategy_nft_bump: self.strategy_nft_bump,
            mint: self.mint,
            token_account: self.token_account,
            metadata: self.metadata,
            master_edition: self.master_edition,
            treasury: self.treasury,
            payer: self.payer,
        }
    }
}

impl MintStrategyNft {
    /// The accounts of a mint of `strategy_id`: `None` unless
    /// `collection_config_address` is the identity that the configuration
    /// signs as, and `strategy_nft_address` is where the record of the
    /// strategy lives.
    pub fn resolve(
        program_id: &Address,
        strategy_id: &str,
        collection_config_address: &Address,
        collection_config: CollectionConfig,
        strategy_nft_address: &Address,
        strategy_nft: Option<StrategyNftData>,
        mint: Address,
        token_account: Address,
        metadata: Address,
        master_edition: Address,
        treasury: Address,
        payer: Address,
    ) -> (resolved: Option<MintStrategyNft>)
        ensures
            resolved == (match nonce_at(
                seq![strategy_label(), strategy_id.spec_bytes()],
                program_id@,
                strategy_nft_address@,
            ) {
                Some(strategy_nft_bump) => if is_collection(
                    collection_config,
                    *collection_config_address,
                    *program_id,
                ) {
                    Some(
                        MintStrategyNft {
                            collection_config,
                            collection_authority: *collection_config_address,
                            strategy_nft,
                            strategy_nft_bump,
                            mint,
                            token_account,
                            metadata,
                            master_edition,
                            treasury,
                            payer,
                        },
                    )
                } else {
                    None
                },
                None => None,
            }),
    {
        if !is_collection_authority(collection_config_address, collection_config.bump, program_id) {
            return None;
        }
        match strategy_nonce(strategy_nft_address, strategy_id, program_id) {
            Some(strategy_nft_bump) => Some(
                MintStrategyNft {
                    collection_config,
                    collection_authority: *collection_config_address,
                    strategy_nft,
                    strategy_nft_bump,
                    mint,
                    token_account,
                    metadata,
                    master_edition,
                    treasury,
                    payer,
                },
            ),
            None => None,
        }
    }
}

/// Accounts of the transitions that change the configuration.
#[derive(Clone, Copy, Debug, PartialEq, Eq)]
pub struct UpdateConfig {
    pub collection_config: CollectionConfig,
    /// The caller, who signs.
    pub authority: Address,
}

impl UpdateConfig {
    /// The accounts of a change of configuration: `None` unless
    /// `collection_config_address` is the identity that the configuration
    /// signs as.
    pub fn resolve(
        program_id: &Address,
        collection_config_address: &Address,
        collection_config: CollectionConfig,
        authority: Address,
    ) -> (resolved: Option<UpdateConfig>)
        ensures
            resolved == (if is_collection(
                collection_config,
                *collection_config_address,
                *program_id,
            ) {
                Some(UpdateConfig { collection_config, authority })
            } else {
                None
            }),
    {
        if is_collection_authority(collection_config_address, collection_config.bump, program_id) {
            Some(UpdateConfig { collection_config, authority })
        } else {
            None
        }
    }
}

} // verus!
