//! Identities and derived addresses.
//!
//! Every persistent record lives at an address that is derived from a fixed
//! label, for strategy records also from the strategy identifier, and from the
//! identity of the owning program. A record proves its own signing authority by
//! the seeds that lead to its address: the label followed by the stored nonce.
//! No secret key exists for such an address.
//!
//! The hashing itself is done by the ledger's own key type; this module fixes
//! the seeds and states what the derivation returns.

use anchor_lang::prelude::Pubkey;
use vstd::prelude::*;
use vstd::std_specs::cmp::PartialEqSpecImpl;
use vstd::string::StringSliceAdditionalSpecFns;

verus! {

/// Longest seed, in bytes, that an address can be derived from.
pub const MAX_SEED_LEN: usize = 32;

/// The identity of an account, a signer or a program: 32 bytes.
#[derive(Clone, Copy, Debug, Hash)]
pub struct Address {
    pub bytes: [u8; 32],
}

impl View for Address {
    type V = Seq<u8>;

    open spec fn view(&self) -> Seq<u8> {
        self.bytes@
    }
}

impl PartialEq for Address {
    fn eq(&self, other: &Self) -> (same: bool) {
        let mut i: usize = 0;
        while i < 32
            invariant
                i <= 32,
                forall|j: int| 0 <= j < i ==> self.bytes@[j] == other.bytes@[j],
            decreases 32 - i,
        {
            if self.bytes[i] != other.bytes[i] {
                return false;
            }
            i += 1;
        }
        proof {
            assert(self.bytes@ =~= other.bytes@);
            assert(self.bytes =~= other.bytes);
        }
        true
    }
}

impl Eq for Address {

}

impl PartialEqSpecImpl for Address {
    open spec fn obeys_eq_spec() -> bool {
        true
    }

    open spec fn eq_spec(&self, other: &Self) -> bool {
        *self == *other
    }
}

impl Address {
    /// The identity made of the given bytes.
    pub fn new(bytes: [u8; 32]) -> (address: Address)
        ensures
            address.bytes == bytes,
    {
        Address { bytes }
    }

    /// Two identities are the same exactly when their bytes are.
    pub proof fn lemma_equal_by_bytes(a: Address, b: Address)
        ensures
            (a@ == b@) <==> (a == b),
    {
        if a@ == b@ {
            assert(a.bytes =~= b.bytes);
        }
    }
}

/// Label of the collection configuration record.
pub open spec fn collection_label() -> Seq<u8> {
    "collection".spec_bytes()
}

/// Label of the strategy records.
pub open spec fn strategy_label() -> Seq<u8> {
    "strategy_nft".spec_bytes()
}

/// Label of the treasury record.
pub open spec fn treasury_label() -> Seq<u8> {
    "treasury".spec_bytes()
}

/// The seeds as a sequence of byte strings.
pub open spec fn seeds_view(seeds: Vec<Vec<u8>>) -> Seq<Seq<u8>> {
    Seq::new(seeds@.len(), |i: int| seeds@[i]@)
}

/// One of the seeds is longer than a seed may be.
pub open spec fn has_long_seed(seeds: Seq<Seq<u8>>) -> bool {
    exists|i: int| 0 <= i < seeds.len() && (#[trigger] seeds[i]).len() > MAX_SEED_LEN
}

/// The address that the ledger's key type creates from `seeds`, the nonce
/// among them, for the program `program_id`; `None` where it creates none.
pub uninterp spec fn program_address(seeds: Seq<Seq<u8>>, program_id: Seq<u8>) -> Option<Seq<u8>>;

/// The address and nonce that the ledger's key type finds for `seeds` and the
/// program `program_id`; `None` where it finds none.
pub uninterp spec fn canonical_address(seeds: Seq<Seq<u8>>, program_id: Seq<u8>) -> Option<
    (Seq<u8>, u8),
>;

/// The bytes of an address that may be missing.
pub open spec fn address_bytes(address: Option<Address>) -> Option<Seq<u8>> {
    match address {
        Some(a) => Some(a@),
        None => None,
    }
}

/// The bytes of an address that was found with its nonce, if one was.
pub open spec fn located_bytes(located: Option<(Address, u8)>) -> Option<(Seq<u8>, u8)> {
    match located {
        Some((a, bump)) => Some((a@, bump)),
        None => None,
    }
}

/// Calls `Pubkey::create_program_address`. Not proved: the result is the named
/// `program_address` of the seeds and the program, `None` standing for each of
/// its errors.
#[verifier::external_body]
fn create_program_address(seeds: &Vec<Vec<u8>>, program_id: &Address) -> (created: Option<Address>)
    ensures
        address_bytes(created) == program_address(seeds_view(*seeds), program_id@),
{
    let parts: Vec<&[u8]> = seeds.iter().map(|seed| seed.as_slice()).collect();
    match Pubkey::create_program_address(&parts, &Pubkey::new_from_array(program_id.bytes)) {
        Ok(key) => Some(Address { bytes: key.to_bytes() }),
        Err(_) => None,
    }
}

/// Calls `Pubkey::try_find_program_address`. Not proved: the result is the
/// named `canonical_address` of the seeds and the program; the address found is
/// the one created from the same seeds followed by the nonce found; and none is
/// found where a seed is longer than 32 bytes.
#[verifier::external_body]
fn find_program_address(seeds: &Vec<Vec<u8>>, program_id: &Address) -> (found: Option<
    (Address, u8),
>)
    ensures
        located_bytes(found) == canonical_address(seeds_view(*seeds), program_id@),
        found matches Some((address, bump)) ==> program_address(
            seeds_view(*seeds).push(seq![bump]),
            program_id@,
        ) == Some(address@),
        has_long_seed(seeds_view(*seeds)) ==> found is None,
{
    let parts: Vec<&[u8]> = seeds.iter().map(|seed| seed.as_slice()).collect();
    match Pubkey::try_find_program_address(&parts, &Pubkey::new_from_array(program_id.bytes)) {
        Some((key, bump)) => Some((Address { bytes: key.to_bytes() }, bump)),
        None => None,
    }
}

/// A copy of the bytes.
fn bytes_of(source: &[u8]) -> (bytes: Vec<u8>)
    ensures
        bytes@ == source@,
{
    let mut bytes: Vec<u8> = Vec::new();
    let mut i: usize = 0;
    while i < source.len()
        invariant
            i <= source.len(),
            bytes@ == source@.subrange(0, i as int),
        decreases source.len() - i,
    {
        bytes.push(source[i]);
        proof {
            assert(source@.subrange(0, i + 1) =~= source@.subrange(0, i as int).push(
                source@[i as int],
            ));
        }
        i += 1;
    }
    proof {
        assert(source@.subrange(0, source@.len() as int) =~= source@);
    }
    bytes
}

/// Seeds of the collection configuration record: its label.
pub fn collection_seeds() -> (seeds: Vec<Vec<u8>>)
    ensures
        seeds_view(seeds) == seq![collection_label()],
{
    let mut seeds: Vec<Vec<u8>> = Vec::new();
    seeds.push(bytes_of("collection".as_bytes()));
    proof {
        assert(seeds_view(seeds) =~= seq![collection_label()]);
    }
    seeds
}

/// Seeds of the treasury record: its label.
pub fn treasury_seeds() -> (seeds: Vec<Vec<u8>>)
    ensures
        seeds_view(seeds) == seq![treasury_label()],
{
    let mut seeds: Vec<Vec<u8>> = Vec::new();
    seeds.push(bytes_of("treasury".as_bytes()));
    proof {
        assert(seeds_view(seeds) =~= seq![treasury_label()]);
    }
    seeds
}

/// Seeds of the record of one strategy: the label, then the identifier.
pub fn strategy_seeds(strategy_id: &str) -> (seeds: Vec<Vec<u8>>)
    ensures
        seeds_view(seeds) == seq![strategy_label(), strategy_id.spec_bytes()],
{
    let mut seeds: Vec<Vec<u8>> = Vec::new();
    seeds.push(bytes_of("strategy_nft".as_bytes()));
    seeds.push(bytes_of(strategy_id.as_bytes()));
    proof {
        assert(seeds_view(seeds) =~= seq![strategy_label(), strategy_id.spec_bytes()]);
    }
    seeds
}

/// The seeds by which a record signs: its own seeds, then its nonce.
pub fn signer_seeds(seeds: Vec<Vec<u8>>, bump: u8) -> (signing: Vec<Vec<u8>>)
    ensures
        seeds_view(signing) == seeds_view(seeds).push(seq![bump]),
{
    let mut signing = seeds;
    let mut nonce: Vec<u8> = Vec::new();
    nonce.push(bump);
    signing.push(nonce);
    proof {
        assert(nonce@ =~= seq![bump]);
        assert(seeds_view(signing) =~= seeds_view(seeds).push(seq![bump]));
    }
    signing
}

/// The seeds by which the collection configuration signs.
pub fn collection_signer_seeds(bump: u8) -> (signing: Vec<Vec<u8>>)
    ensures
        seeds_view(signing) == seq![collection_label(), seq![bump]],
{
    let signing = signer_seeds(collection_seeds(), bump);
    proof {
        assert(seeds_view(signing) =~= seq![collection_label(), seq![bump]]);
    }
    signing
}

/// The seeds by which the treasury signs.
pub fn treasury_signer_seeds(bump: u8) -> (signing: Vec<Vec<u8>>)
    ensures
        seeds_view(signing) == seq![treasury_label(), seq![bump]],
{
    let signing = signer_seeds(treasury_seeds(), bump);
    proof {
        assert(seeds_view(signing) =~= seq![treasury_label(), seq![bump]]);
    }
    signing
}

/// Where the collection configuration of a program lives, with its nonce.
pub fn collection_address(program_id: &Address) -> (located: Option<(Address, u8)>)
    ensures
        located_bytes(located) == canonical_address(seq![collection_label()], program_id@),
        located matches Some((address, bump)) ==> program_address(
            seq![collection_label(), seq![bump]],
            program_id@,
        ) == Some(address@),
{
    let seeds = collection_seeds();
    let located = find_program_address(&seeds, program_id);
    proof {
        if let Some((address, bump)) = located {
            assert(seeds_view(seeds).push(seq![bump]) =~= seq![collection_label(), seq![bump]]);
        }
    }
    located
}

/// Where the treasury of a program lives, with its nonce.
pub fn treasury_address(program_id: &Address) -> (located: Option<(Address, u8)>)
    ensures
        located_bytes(located) == canonical_address(seq![treasury_label()], program_id@),
        located matches Some((address, bump)) ==> program_address(
            seq![treasury_label(), seq![bump]],
            program_id@,
        ) == Some(address@),
{
    let seeds = treasury_seeds();
    let located = find_program_address(&seeds, program_id);
    proof {
        if let Some((address, bump)) = located {
            assert(seeds_view(seeds).push(seq![bump]) =~= seq![treasury_label(), seq![bump]]);
        }
    }
    located
}

/// Where the record of a strategy lives, with its nonce: a function of the
/// identifier and the program alone. An identifier of more than 32 bytes has
/// no address.
pub fn strategy_address(strategy_id: &str, program_id: &Address) -> (located: Option<
    (Address, u8),
>)
    ensures
        located_bytes(located) == canonical_address(
            seq![strategy_label(), strategy_id.spec_bytes()],
            program_id@,
        ),
        located matches Some((address, bump)) ==> program_address(
            seq![strategy_label(), strategy_id.spec_bytes(), seq![bump]],
            program_id@,
        ) == Some(address@),
        strategy_id.spec_bytes().len() > MAX_SEED_LEN ==> located is None,
{
    let seeds = strategy_seeds(strategy_id);
    let located = find_program_address(&seeds, program_id);
    proof {
        if let Some((address, bump)) = located {
            assert(seeds_view(seeds).push(seq![bump]) =~= seq![
                strategy_label(),
                strategy_id.spec_bytes(),
                seq![bump],
            ]);
        }
        if strategy_id.spec_bytes().len() > MAX_SEED_LEN {
            assert(seeds_view(seeds)[1].len() > MAX_SEED_LEN);
        }
    }
    located
}

/// The nonce of the address found for `seeds`, where that address is
/// `claimed`.
pub open spec fn nonce_at(seeds: Seq<Seq<u8>>, program_id: Seq<u8>, claimed: Seq<u8>) -> Option<u8> {
    match canonical_address(seeds, program_id) {
        Some((derived, bump)) => if derived == claimed {
            Some(bump)
        } else {
            None
        },
        None => None,
    }
}

/// The nonce that comes with `located`, where the address located is
/// `claimed`.
fn nonce_if_at(located: Option<(Address, u8)>, claimed: &Address) -> (nonce: Option<u8>)
    ensures
        nonce == (match located {
            Some((derived, bump)) => if derived@ == claimed@ {
                Some(bump)
            } else {
                None
            },
            None => None,
        }),
{
    match located {
        Some((derived, bump)) => {
            proof {
                Address::lemma_equal_by_bytes(derived, *claimed);
            }
            if derived == *claimed {
                Some(bump)
            } else {
                None
            }
        },
        None => None,
    }
}

/// The nonce of the collection configuration, if `claimed` is where the
/// collection configuration of the program lives.
pub fn collection_nonce(claimed: &Address, program_id: &Address) -> (nonce: Option<u8>)
    ensures
        nonce == nonce_at(seq![collection_label()], program_id@, claimed@),
{
    nonce_if_at(collection_address(program_id), claimed)
}

/// The nonce of the treasury, if `claimed` is where the treasury of the
/// program lives.
pub fn treasury_nonce(claimed: &Address, program_id: &Address) -> (nonce: Option<u8>)
    ensures
        nonce == nonce_at(seq![treasury_label()], program_id@, claimed@),
{
    nonce_if_at(treasury_address(program_id), claimed)
}

/// The nonce of the record of a strategy, if `claimed` is where that record
/// lives.
pub fn strategy_nonce(claimed: &Address, strategy_id: &str, program_id: &Address) -> (nonce:
    Option<u8>)
    ensures
        nonce == nonce_at(
            seq![strategy_label(), strategy_id.spec_bytes()],
            program_id@,
            claimed@,
        ),
        strategy_id.spec_bytes().len() > MAX_SEED_LEN ==> nonce is None,
{
    nonce_if_at(strategy_address(strategy_id, program_id), claimed)
}

/// Whether `claimed` is the identity that the collection configuration with
/// the nonce `bump` signs as.
pub fn is_collection_authority(claimed: &Address, bump: u8, program_id: &Address) -> (proven: bool)
    ensures
        proven == (program_address(seq![collection_label(), seq![bump]], program_id@) == Some(
            claimed@,
        )),
{
    let signing = collection_signer_seeds(bump);
    match create_program_address(&signing, program_id) {
        Some(address) => {
            proof {
                Address::lemma_equal_by_bytes(address, *claimed);
            }
            address == *claimed
        },
        None => false,
    }
}

/// Whether `claimed` is the identity that the treasury with the nonce `bump`
/// signs as.
pub fn is_treasury_authority(claimed: &Address, bump: u8, program_id: &Address) -> (proven: bool)
    ensures
        proven == (program_address(seq![treasury_label(), seq![bump]], program_id@) == Some(
            claimed@,
        )),
{
    let signing = treasury_signer_seeds(bump);
    match create_program_address(&signing, program_id) {
        Some(address) => {
            proof {
                Address::lemma_equal_by_bytes(address, *claimed);
            }
            address == *claimed
        },
        None => false,
    }
}

} // verus!
