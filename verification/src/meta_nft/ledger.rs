//! What holds of the minting program over any number of mints.
//!
//! The ledger keeps each strategy record at the address derived from the
//! strategy identifier. A mint works on what the ledger holds there, so the
//! ledger as a whole is a configuration and a map from addresses to records.
//! The laws below follow from the contract of a single mint.

use crate::address::{canonical_address, strategy_label, Address};
use crate::meta_nft::accounts::{InitializeCollection, MintAccounts};
use crate::meta_nft::admin::initial_config;
use crate::meta_nft::mint::{mint_rejection, minted, MintRequest};
use crate::meta_nft::state::{CollectionConfig, MetaNftError, StrategyRecord};
use vstd::prelude::*;
use vstd::utf8::encode_utf8;

verus! {

/// What the ledger holds for the minting program `program_id`: the
/// configuration, and the strategy records by their addresses.
pub struct CollectionLedger {
    pub program_id: Seq<u8>,
    pub config: CollectionConfig,
    pub records: Map<Seq<u8>, StrategyRecord>,
}

/// One call of the mint: what the caller supplies, and the accounts named.
pub struct MintCall {
    pub request: MintRequest,
    pub collection_authority: Address,
    pub mint: Address,
    pub token_account: Address,
    pub metadata: Address,
    pub master_edition: Address,
    pub treasury: Address,
    pub payer: Address,
}

/// Where the record of a strategy lives, with the nonce of that address.
pub open spec fn record_address(program_id: Seq<u8>, strategy_id: Seq<char>) -> Option<
    (Seq<u8>, u8),
> {
    canonical_address(seq![strategy_label(), encode_utf8(strategy_id)], program_id)
}

/// The accounts that the ledger hands to the mint for a call whose record
/// lives at `address`.
pub open spec fn accounts_of(
    ledger: CollectionLedger,
    call: MintCall,
    address: Seq<u8>,
    bump: u8,
) -> MintAccounts {
    MintAccounts {
        collection_config: ledger.config,
        collection_authority: call.collection_authority,
        strategy_nft: if ledger.records.contains_key(address) {
            Some(ledger.records[address])
        } else {
            None
        },
        strategy_nft_bump: bump,
        mint: call.mint,
        token_account: call.token_account,
        metadata: call.metadata,
        master_edition: call.master_edition,
        treasury: call.treasury,
        payer: call.payer,
    }
}

/// The call leads to a mint: the strategy has an address, and the mint is not
/// refused on what the ledger holds there.
pub open spec fn mint_succeeds(ledger: CollectionLedger, call: MintCall) -> bool {
    record_address(ledger.program_id, call.request.strategy_id) matches Some((address, bump))
        && mint_rejection(accounts_of(ledger, call, address, bump), call.request) is None
}

/// The ledger after the call: after a mint, the configuration and the record
/// are as the mint leaves them; else the ledger is as it was.
pub open spec fn after_mint(ledger: CollectionLedger, call: MintCall) -> CollectionLedger {
    if mint_succeeds(ledger, call) {
        let (address, bump) = record_address(ledger.program_id, call.request.strategy_id).unwrap();
        let after = minted(accounts_of(ledger, call, address, bump), call.request);
        CollectionLedger {
            config: after.collection_config,
            records: ledger.records.insert(address, after.strategy_nft.unwrap()),
            ..ledger
        }
    } else {
        ledger
    }
}

/// The ledger after the calls, one after the other.
pub open spec fn after_mints(ledger: CollectionLedger, calls: Seq<MintCall>) -> CollectionLedger
    decreases calls.len(),
{
    if calls.len() == 0 {
        ledger
    } else {
        after_mint(after_mints(ledger, calls.drop_last()), calls.last())
    }
}

/// The ledger of a collection that was just set up: no records.
pub open spec fn fresh_ledger(program_id: Seq<u8>, ctx: InitializeCollection) -> CollectionLedger {
    CollectionLedger { program_id, config: initial_config(ctx), records: Map::empty() }
}

/// The count of mints is the number of records, and each record lives at the
/// address derived from its strategy identifier.
pub open spec fn consistent(ledger: CollectionLedger) -> bool {
    &&& ledger.records.dom().finite()
    &&& ledger.config.total_minted == ledger.records.len()
    &&& forall|address: Seq<u8>| #[trigger]
        ledger.records.contains_key(address) ==> record_address(
            ledger.program_id,
            ledger.records[address].strategy_id,
        ) == Some((address, ledger.records[address].bump))
}

/// A collection that was just set up has counted as many mints as it has
/// records: none.
pub proof fn lemma_fresh_ledger_is_consistent(program_id: Seq<u8>, ctx: InitializeCollection)
    ensures
        consistent(fresh_ledger(program_id, ctx)),
{
}

/// A call keeps the count of mints equal to the number of records. A mint adds
/// one to both; a call that does not lead to a mint changes nothing. The count
/// never goes down.
pub proof fn lemma_mint_keeps_count(ledger: CollectionLedger, call: MintCall)
    requires
        consistent(ledger),
    ensures
        consistent(after_mint(ledger, call)),
        mint_succeeds(ledger, call) ==> after_mint(ledger, call).config.total_minted
            == ledger.config.total_minted + 1 && after_mint(ledger, call).records.len()
            == ledger.records.len() + 1,
        !mint_succeeds(ledger, call) ==> after_mint(ledger, call) == ledger,
        after_mint(ledger, call).config.total_minted >= ledger.config.total_minted,
{
    if mint_succeeds(ledger, call) {
        let (address, bump) = record_address(ledger.program_id, call.request.strategy_id).unwrap();
        let after = after_mint(ledger, call);
        assert(!ledger.records.contains_key(address));
        assert(after.records.dom() =~= ledger.records.dom().insert(address));
        assert forall|other: Seq<u8>| #[trigger] after.records.contains_key(other) implies
            record_address(after.program_id, after.records[other].strategy_id) == Some(
            (other, after.records[other].bump),
        ) by {
            if other != address {
                assert(ledger.records.contains_key(other));
            }
        }
    }
}

/// Over any sequence of calls, the count of mints stays equal to the number
/// of records created.
pub proof fn lemma_total_minted_counts_records(ledger: CollectionLedger, calls: Seq<MintCall>)
    requires
        consistent(ledger),
    ensures
        consistent(after_mints(ledger, calls)),
        after_mints(ledger, calls).config.total_minted == after_mints(ledger, calls).records.len(),
        after_mints(ledger, calls).config.total_minted >= ledger.config.total_minted,
    decreases calls.len(),
{
    if calls.len() > 0 {
        lemma_total_minted_counts_records(ledger, calls.drop_last());
        lemma_mint_keeps_count(after_mints(ledger, calls.drop_last()), calls.last());
    }
}

/// No two records are of the same strategy: a strategy identifier has one
/// address.
pub proof fn lemma_one_record_per_strategy(
    ledger: CollectionLedger,
    first: Seq<u8>,
    second: Seq<u8>,
)
    requires
        consistent(ledger),
        ledger.records.contains_key(first),
        ledger.records.contains_key(second),
        ledger.records[first].strategy_id == ledger.records[second].strategy_id,
    ensures
        first == second,
{
}

/// Once a strategy is minted, a second mint of the same identifier is refused
/// as a duplicate, whatever else the call supplies, and leaves the ledger as
/// the first mint left it.
pub proof fn lemma_second_mint_is_refused(
    ledger: CollectionLedger,
    first: MintCall,
    second: MintCall,
)
    requires
        mint_succeeds(ledger, first),
        second.request.strategy_id == first.request.strategy_id,
    ensures
        !mint_succeeds(after_mint(ledger, first), second),
        after_mint(after_mint(ledger, first), second) == after_mint(ledger, first),
        ({
            let (address, bump) = record_address(
                ledger.program_id,
                first.request.strategy_id,
            ).unwrap();
            mint_rejection(
                accounts_of(after_mint(ledger, first), second, address, bump),
                second.request,
            ) == Some(MetaNftError::DuplicateCreation)
        }),
{
}

} // verus!
