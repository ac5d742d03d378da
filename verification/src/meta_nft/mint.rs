//! Minting one strategy record.
//!
//! A mint charges the current fee, creates a token-unit of which exactly one
//! unit exists, has the metadata service register it as a one-of-one record,
//! stores the strategy's attributes and counts the mint. The transition decides
//! all of this at once: it hands back the steps for the ledger to take, in
//! order, together with the records as they are once every step has succeeded.
//! The ledger applies all of it or none.

use crate::address::{collection_label, collection_signer_seeds, seeds_view};
use crate::meta_nft::accounts::{MintAccounts, MintStrategyNft};
use crate::meta_nft::effects::{
    Creator, MintInstruction, MintReceipt, TokenMetadata, TokenMetadataView, CREATOR_SHARE,
    MAX_EDITION_SUPPLY, SELLER_FEE_BASIS_POINTS, TOKEN_DECIMALS, TOKEN_SUPPLY,
};
use crate::meta_nft::events::{StrategyNftMinted, StrategyNftMintedView};
use crate::meta_nft::state::{
    strategy_texts_fit, texts_fit, CollectionConfig, MetaNftError, StrategyNftData, StrategyRecord,
};
use crate::transfer::LamportTransfer;
use vstd::prelude::*;

verus! {

/// What the caller of a mint supplies, and the time of the call.
pub struct MintRequest {
    pub strategy_id: Seq<char>,
    pub genes_hash: Seq<char>,
    pub name: Seq<char>,
    pub symbol: Seq<char>,
    pub uri: Seq<char>,
    pub archetype: Seq<char>,
    pub generation: u32,
    pub fitness_score: u64,
    pub total_pnl: i64,
    pub win_rate: u64,
    pub trades_executed: u32,
    pub timestamp: i64,
}

/// Why the mint is refused, if it is. Minting must be switched on; the
/// strategy must not have a record yet; its texts must fit a record; and the
/// count of mints must have room for one more.
pub open spec fn mint_rejection(ctx: MintAccounts, request: MintRequest) -> Option<MetaNftError> {
    if !ctx.collection_config.is_active {
        Some(MetaNftError::MintingPaused)
    } else if ctx.strategy_nft is Some {
        Some(MetaNftError::DuplicateCreation)
    } else if !strategy_texts_fit(request.strategy_id, request.genes_hash, request.archetype) {
        Some(MetaNftError::InvalidStrategyData)
    } else if ctx.collection_config.total_minted == u64::MAX {
        Some(MetaNftError::ArithmeticFault)
    } else {
        None
    }
}

/// The record that the mint stores: the attributes supplied, the token-unit,
/// the payer as owner, the time of the call and the fee charged.
pub open spec fn minted_record(ctx: MintAccounts, request: MintRequest) -> StrategyRecord {
    StrategyRecord {
        mint: ctx.mint,
        strategy_id: request.strategy_id,
        genes_hash: request.genes_hash,
        owner: ctx.payer,
        minted_at: request.timestamp,
        mint_price: ctx.collection_config.mint_price_lamports,
        archetype: request.archetype,
        generation: request.generation,
        fitness_score: request.fitness_score,
        total_pnl: request.total_pnl,
        win_rate: request.win_rate,
        trades_executed: request.trades_executed,
        bump: ctx.strategy_nft_bump,
    }
}

/// The accounts after the mint: the count of mints is one higher, the record
/// of the strategy exists, and nothing else has changed.
pub open spec fn minted(ctx: MintAccounts, request: MintRequest) -> MintAccounts {
    MintAccounts {
        collection_config: CollectionConfig {
            total_minted: (ctx.collection_config.total_minted + 1) as u64,
            ..ctx.collection_config
        },
        strategy_nft: Some(minted_record(ctx, request)),
        ..ctx
    }
}

/// The notification of the mint: the attributes of the new record.
pub open spec fn mint_notification(ctx: MintAccounts, request: MintRequest) -> StrategyNftMintedView {
    StrategyNftMintedView {
        mint: ctx.mint,
        owner: ctx.payer,
        strategy_id: request.strategy_id,
        genes_hash: request.genes_hash,
        archetype: request.archetype,
        generation: request.generation,
        fitness_score: request.fitness_score,
        total_pnl: request.total_pnl,
        win_rate: request.win_rate,
        trades_executed: request.trades_executed,
        mint_price: ctx.collection_config.mint_price_lamports,
        timestamp: request.timestamp,
    }
}

/// The display data registered for the mint: the name, symbol and pointer
/// supplied, a royalty of five percent, the collection configuration as the
/// one creator, verified and with the whole share, no grouping and no limit
/// of uses.
pub open spec fn mint_metadata(ctx: MintAccounts, request: MintRequest) -> TokenMetadataView {
    TokenMetadataView {
        name: request.name,
        symbol: request.symbol,
        uri: request.uri,
        seller_fee_basis_points: 500,
        creators: Some(
            seq![Creator { address: ctx.collection_authority, verified: true, share: 100 }],
        ),
        collection: None,
        uses: None,
    }
}

/// The steps of the mint are these five, in this order: the fee goes from the
/// payer to the treasury; the token-unit is created without decimal places
/// under the authority of the collection configuration, which may also freeze
/// it; one unit of it is issued to the payer's holding account; the display
/// data is registered, open to later change by the collection configuration,
/// which signs; the token-unit becomes a one-of-one record.
pub open spec fn mint_steps(
    ctx: MintAccounts,
    request: MintRequest,
    steps: Seq<MintInstruction>,
) -> bool {
    &&& steps.len() == 5
    &&& steps[0] == MintInstruction::TransferFee(
        LamportTransfer {
            from: ctx.payer,
            to: ctx.treasury,
            lamports: ctx.collection_config.mint_price_lamports,
        },
    )
    &&& steps[1] == (MintInstruction::CreateTokenUnit {
        mint: ctx.mint,
        decimals: 0,
        authority: ctx.collection_authority,
        freeze_authority: Some(ctx.collection_authority),
    })
    &&& steps[2] == (MintInstruction::IssueToken {
        mint: ctx.mint,
        to: ctx.token_account,
        owner: ctx.payer,
        authority: ctx.collection_authority,
        amount: 1,
    })
    &&& steps[3] matches MintInstruction::RegisterMetadata {
        metadata,
        mint,
        authority,
        data,
        is_mutable,
        update_authority_is_signer,
    }
    &&& metadata == ctx.metadata
    &&& mint == ctx.mint
    &&& authority == ctx.collection_authority
    &&& data@ == mint_metadata(ctx, request)
    &&& is_mutable
    &&& update_authority_is_signer
    &&& steps[4] == (MintInstruction::CreateMasterEdition {
        edition: ctx.master_edition,
        mint: ctx.mint,
        authority: ctx.collection_authority,
        max_supply: Some(0u64),
    })
}

/// What the mint hands back: its steps, the seeds by which the collection
/// configuration signs them, and its notification.
pub open spec fn mint_receipt(ctx: MintAccounts, request: MintRequest, receipt: MintReceipt) -> bool {
    &&& mint_steps(ctx, request, receipt.instructions@)
    &&& seeds_view(receipt.signer_seeds) == seq![
        collection_label(),
        seq![ctx.collection_config.bump],
    ]
    &&& receipt.event@ == mint_notification(ctx, request)
}

/// Mints the record of one strategy.
///
/// On success the accounts hold the new record and the new count, and the
/// receipt lists the steps for the ledger to take. On failure nothing has
/// changed and nothing is to be done: in particular, while minting is switched
/// off, no fee moves, no token-unit is created and no record is stored.
pub fn mint_strategy_nft(
    ctx: &mut MintStrategyNft,
    strategy_id: String,
    genes_hash: String,
    name: String,
    symbol: String,
    uri: String,
    archetype: String,
    generation: u32,
    fitness_score: u64,
    total_pnl: i64,
    win_rate: u64,
    trades_executed: u32,
    timestamp: i64,
) -> (result: Result<MintReceipt, MetaNftError>)
    ensures
        ({
            let request = MintRequest {
                strategy_id: strategy_id@,
                genes_hash: genes_hash@,
                name: name@,
                symbol: symbol@,
                uri: uri@,
                archetype: archetype@,
                generation,
                fitness_score,
                total_pnl,
                win_rate,
                trades_executed,
                timestamp,
            };
            match mint_rejection(old(ctx)@, request) {
                Some(error) => {
                    &&& result == Err::<MintReceipt, MetaNftError>(error)
                    &&& *final(ctx) == *old(ctx)
                },
                None => {
                    &&& result matches Ok(receipt)
                    &&& mint_receipt(old(ctx)@, request, receipt)
                    &&& final(ctx)@ == minted(old(ctx)@, request)
                },
            }
        }),
        !old(ctx).collection_config.is_active ==> {
            &&& result == Err::<MintReceipt, MetaNftError>(MetaNftError::MintingPaused)
            &&& *final(ctx) == *old(ctx)
        },
        result is Ok ==> {
            &&& final(ctx).strategy_nft matches Some(record)
            &&& record.wf()
        },
{
    if !ctx.collection_config.is_active {
        return Err(MetaNftError::MintingPaused);
    }
    if ctx.strategy_nft.is_some() {
        return Err(MetaNftError::DuplicateCreation);
    }
    if !texts_fit(&strategy_id, &genes_hash, &archetype) {
        return Err(MetaNftError::InvalidStrategyData);
    }
    let minted: u64 = match ctx.collection_config.total_minted.checked_add(1) {
        Some(count) => count,
        None => {
            return Err(MetaNftError::ArithmeticFault);
        },
    };
    let fee: u64 = ctx.collection_config.mint_price_lamports;
    let authority = ctx.collection_authority;

    let mut creators: Vec<Creator> = Vec::new();
    creators.push(Creator { address: authority, verified: true, share: CREATOR_SHARE });
    let data = TokenMetadata {
        name,
        symbol,
        uri,
        seller_fee_basis_points: SELLER_FEE_BASIS_POINTS,
        creators: Some(creators),
        collection: None,
        uses: None,
    };

    let mut instructions: Vec<MintInstruction> = Vec::new();
    instructions.push(
        MintInstruction::TransferFee(
            LamportTransfer { from: ctx.payer, to: ctx.treasury, lamports: fee },
        ),
    );
    instructions.push(
        MintInstruction::CreateTokenUnit {
            mint: ctx.mint,
            decimals: TOKEN_DECIMALS,
            authority,
            freeze_authority: Some(authority),
        },
    );
    instructions.push(
        MintInstruction::IssueToken {
            mint: ctx.mint,
            to: ctx.token_account,
            owner: ctx.payer,
            authority,
            amount: TOKEN_SUPPLY,
        },
    );
    instructions.push(
        MintInstruction::RegisterMetadata {
            metadata: ctx.metadata,
            mint: ctx.mint,
            authority,
            data,
            is_mutable: true,
            update_authority_is_signer: true,
        },
    );
    instructions.push(
        MintInstruction::CreateMasterEdition {
            edition: ctx.master_edition,
            mint: ctx.mint,
            authority,
            max_supply: Some(MAX_EDITION_SUPPLY),
        },
    );

    let event = StrategyNftMinted {
        mint: ctx.mint,
        owner: ctx.payer,
        strategy_id: strategy_id.clone(),
        genes_hash: genes_hash.clone(),
        archetype: archetype.clone(),
        generation,
        fitness_score,
        total_pnl,
        win_rate,
        trades_executed,
        mint_price: fee,
        timestamp,
    };
    let signer_seeds = collection_signer_seeds(ctx.collection_config.bump);

    ctx.strategy_nft = Some(
        StrategyNftData {
            mint: ctx.mint,
            strategy_id,
            genes_hash,
            owner: ctx.payer,
            minted_at: timestamp,
            mint_price: fee,
            archetype,
            generation,
            fitness_score,
            total_pnl,
            win_rate,
            trades_executed,
            bump: ctx.strategy_nft_bump,
        },
    );
    ctx.collection_config.total_minted = minted;

    Ok(MintReceipt { instructions, signer_seeds, event })
}

} // verus!
