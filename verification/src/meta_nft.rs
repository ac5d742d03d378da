//! The minting program: a collection configuration and one record per minted
//! strategy.

pub mod accounts;
pub mod admin;
pub mod effects;
pub mod events;
pub mod ledger;
pub mod mint;
pub mod state;

pub use accounts::{InitializeCollection, MintStrategyNft, UpdateConfig};
pub use admin::{initialize_collection, toggle_minting, transfer_authority, update_mint_price};
pub use effects::{MintInstruction, MintReceipt, TokenMetadata};
pub use events::{
    AuthorityTransferred, CollectionInitialized, MintPriceUpdated, MintingToggled,
    StrategyNftMinted,
};
pub use mint::mint_strategy_nft;
pub use state::{CollectionConfig, MetaNftError, StrategyNftData};
