//! Setting the collection up, and changing its configuration.
//!
//! Only the authority of the collection can change the configuration. Each
//! change writes one field and names, in its notification, the value before
//! and the value after. No bounds are set on the fee.

use crate::address::Address;
use crate::meta_nft::accounts::{InitializeCollection, UpdateConfig};
use crate::meta_nft::events::{
    AuthorityTransferred, CollectionInitialized, CollectionInitializedView, MintPriceUpdated,
    MintingToggled,
};
use crate::meta_nft::state::{CollectionConfig, MetaNftError, DEFAULT_MINT_PRICE_LAMPORTS};
use vstd::prelude::*;

verus! {

/// The configuration as the collection is set up: the caller is its
/// authority, nothing is minted, the fee is the default and minting is
/// switched on.
pub open spec fn initial_config(ctx: InitializeCollection) -> CollectionConfig {
    CollectionConfig {
        authority: ctx.authority,
        total_minted: 0,
        mint_price_lamports: 100_000_000,
        is_active: true,
        bump: ctx.bump,
    }
}

/// Sets the collection up, once.
///
/// Where the configuration exists already, nothing changes. Else it is
/// created. Name and symbol go into the notification; the pointer to the
/// metadata is taken and not kept. No funds move.
pub fn initialize_collection(
    ctx: &mut InitializeCollection,
    name: String,
    symbol: String,
    uri: String,
    timestamp: i64,
) -> (result: Result<CollectionInitialized, MetaNftError>)
    ensures
        old(ctx).collection_config is Some ==> {
            &&& result == Err::<CollectionInitialized, MetaNftError>(
                MetaNftError::DuplicateCreation,
            )
            &&& *final(ctx) == *old(ctx)
        },
        old(ctx).collection_config is None ==> {
            &&& result matches Ok(event)
            &&& event@ == (CollectionInitializedView {
                authority: old(ctx).authority,
                name: name@,
                symbol: symbol@,
                timestamp,
            })
            &&& *final(ctx) == (InitializeCollection {
                collection_config: Some(initial_config(*old(ctx))),
                ..*old(ctx)
            })
        },
{
    if ctx.collection_config.is_some() {
        return Err(MetaNftError::DuplicateCreation);
    }
    ctx.collection_config = Some(
        CollectionConfig {
            authority: ctx.authority,
            total_minted: 0,
            mint_price_lamports: DEFAULT_MINT_PRICE_LAMPORTS,
            is_active: true,
            bump: ctx.bump,
        },
    );
    Ok(CollectionInitialized { authority: ctx.authority, name, symbol, timestamp })
}

/// The caller of a change of configuration is the authority of the
/// collection.
pub open spec fn is_authorized(ctx: UpdateConfig) -> bool {
    ctx.authority == ctx.collection_config.authority
}

/// Sets the fee of a mint to `new_price`.
///
/// A caller other than the authority is refused, and nothing changes.
pub fn update_mint_price(ctx: &mut UpdateConfig, new_price: u64, timestamp: i64) -> (result: Result<
    MintPriceUpdated,
    MetaNftError,
>)
    ensures
        !is_authorized(*old(ctx)) ==> {
            &&& result == Err::<MintPriceUpdated, MetaNftError>(MetaNftError::Unauthorized)
            &&& *final(ctx) == *old(ctx)
        },
        is_authorized(*old(ctx)) ==> {
            &&& result == Ok::<MintPriceUpdated, MetaNftError>(
                MintPriceUpdated {
                    old_price: old(ctx).collection_config.mint_price_lamports,
                    new_price,
                    timestamp,
                },
            )
            &&& *final(ctx) == (UpdateConfig {
                collection_config: CollectionConfig {
                    mint_price_lamports: new_price,
                    ..old(ctx).collection_config
                },
                ..*old(ctx)
            })
        },
{
    if ctx.authority != ctx.collection_config.authority {
        return Err(MetaNftError::Unauthorized);
    }
    let old_price: u64 = ctx.collection_config.mint_price_lamports;
    ctx.collection_config.mint_price_lamports = new_price;
    Ok(MintPriceUpdated { old_price, new_price, timestamp })
}

/// Switches minting on or off.
///
/// A caller other than the authority is refused, and nothing changes.
pub fn toggle_minting(ctx: &mut UpdateConfig, is_active: bool, timestamp: i64) -> (result: Result<
    MintingToggled,
    MetaNftError,
>)
    ensures
        !is_authorized(*old(ctx)) ==> {
            &&& result == Err::<MintingToggled, MetaNftError>(MetaNftError::Unauthorized)
            &&& *final(ctx) == *old(ctx)
        },
        is_authorized(*old(ctx)) ==> {
            &&& result == Ok::<MintingToggled, MetaNftError>(
                MintingToggled {
                    was_active: old(ctx).collection_config.is_active,
                    is_active,
                    timestamp,
                },
            )
            &&& *final(ctx) == (UpdateConfig {
                collection_config: CollectionConfig { is_active, ..old(ctx).collection_config },
                ..*old(ctx)
            })
        },
{
    if ctx.authority != ctx.collection_config.authority {
        return Err(MetaNftError::Unauthorized);
    }
    let was_active: bool = ctx.collection_config.is_active;
    ctx.collection_config.is_active = is_active;
    Ok(MintingToggled { was_active, is_active, timestamp })
}

/// Hands the authority over the collection to `new_authority`.
///
/// A caller other than the authority is refused, and nothing changes.
pub fn transfer_authority(
    ctx: &mut UpdateConfig,
    new_authority: Address,
    timestamp: i64,
) -> (result: Result<AuthorityTransferred, MetaNftError>)
    ensures
        !is_authorized(*old(ctx)) ==> {
            &&& result == Err::<AuthorityTransferred, MetaNftError>(MetaNftError::Unauthorized)
            &&& *final(ctx) == *old(ctx)
        },
        is_authorized(*old(ctx)) ==> {
            &&& result == Ok::<AuthorityTransferred, MetaNftError>(
                AuthorityTransferred {
                    old_authority: old(ctx).collection_config.authority,
                    new_authority,
                    timestamp,
                },
            )
            &&& *final(ctx) == (UpdateConfig {
                collection_config: CollectionConfig {
                    authority: new_authority,
                    ..old(ctx).collection_config
                },
                ..*old(ctx)
            })
        },
{
    if ctx.authority != ctx.collection_config.authority {
        return Err(MetaNftError::Unauthorized);
    }
    let old_authority = ctx.collection_config.authority;
    ctx.collection_config.authority = new_authority;
    Ok(AuthorityTransferred { old_authority, new_authority, timestamp })
}

} // verus!
