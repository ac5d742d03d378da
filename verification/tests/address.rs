use anchor_lang::prelude::Pubkey;
use meta_programs::address::{
    collection_address, collection_nonce, collection_seeds, collection_signer_seeds,
    is_collection_authority, is_treasury_authority, signer_seeds, strategy_address,
    strategy_nonce, strategy_seeds, treasury_address, treasury_nonce, treasury_seeds,
    treasury_signer_seeds, Address,
};

fn program(tag: u8) -> Address {
    let mut bytes = [tag; 32];
    bytes[0] = 7;
    bytes[31] = 200;
    Address::new(bytes)
}

fn native(address: &Address) -> Pubkey {
    Pubkey::new_from_array(address.bytes)
}

#[test]
fn addresses_compare_by_their_bytes() {
    let mut bytes = [5u8; 32];
    let a = Address::new(bytes);
    assert_eq!(a, Address { bytes });
    assert_eq!(a.bytes, bytes);
    bytes[31] = 6;
    assert_ne!(a, Address::new(bytes));
    bytes[31] = 5;
    bytes[0] = 6;
    assert_ne!(a, Address::new(bytes));
}

#[test]
fn seeds_are_the_labels() {
    assert_eq!(collection_seeds(), vec![b"collection".to_vec()]);
    assert_eq!(treasury_seeds(), vec![b"treasury".to_vec()]);
    assert_eq!(strategy_seeds("alpha-7"), vec![b"strategy_nft".to_vec(), b"alpha-7".to_vec()]);
    assert_eq!(strategy_seeds(""), vec![b"strategy_nft".to_vec(), Vec::new()]);
    assert_eq!(
        strategy_seeds("é"),
        vec![b"strategy_nft".to_vec(), vec![0xc3, 0xa9]]
    );
}

#[test]
fn signer_seeds_end_with_the_nonce() {
    assert_eq!(collection_signer_seeds(254), vec![b"collection".to_vec(), vec![254]]);
    assert_eq!(treasury_signer_seeds(0), vec![b"treasury".to_vec(), vec![0]]);
    assert_eq!(
        signer_seeds(strategy_seeds("s1"), 9),
        vec![b"strategy_nft".to_vec(), b"s1".to_vec(), vec![9]]
    );
    assert_eq!(signer_seeds(Vec::new(), 3), vec![vec![3]]);
}

#[test]
fn collection_address_is_the_one_the_ledger_finds() {
    for tag in [0u8, 1, 99, 255] {
        let program_id = program(tag);
        let (expected, bump) =
            Pubkey::find_program_address(&[b"collection"], &native(&program_id));
        let (address, nonce) = collection_address(&program_id).unwrap();
        assert_eq!(address.bytes, expected.to_bytes());
        assert_eq!(nonce, bump);
        assert_ne!(address, program_id);
    }
}

#[test]
fn treasury_address_is_the_one_the_ledger_finds() {
    let program_id = program(3);
    let (expected, bump) = Pubkey::find_program_address(&[b"treasury"], &native(&program_id));
    let (address, nonce) = treasury_address(&program_id).unwrap();
    assert_eq!(address.bytes, expected.to_bytes());
    assert_eq!(nonce, bump);
    assert_ne!(Some((address, nonce)), collection_address(&program_id));
}

#[test]
fn strategy_address_is_the_one_the_ledger_finds() {
    let program_id = program(4);
    for id in ["alpha-7", "", "0123456789abcdef0123456789abcdef", "é"] {
        let (expected, bump) = Pubkey::find_program_address(
            &[b"strategy_nft", id.as_bytes()],
            &native(&program_id),
        );
        let (address, nonce) = strategy_address(id, &program_id).unwrap();
        assert_eq!(address.bytes, expected.to_bytes());
        assert_eq!(nonce, bump);
    }
}

#[test]
fn strategy_address_depends_on_identifier_and_program() {
    let one = strategy_address("alpha", &program(4)).unwrap();
    assert_eq!(strategy_address("alpha", &program(4)), Some(one));
    assert_ne!(strategy_address("beta", &program(4)), Some(one));
    assert_ne!(strategy_address("alpha", &program(5)), Some(one));
}

#[test]
fn an_identifier_of_more_than_32_bytes_has_no_address() {
    let program_id = program(4);
    let longest = "a".repeat(32);
    let too_long = "a".repeat(33);
    assert!(strategy_address(&longest, &program_id).is_some());
    assert_eq!(strategy_address(&too_long, &program_id), None);
    assert_eq!(strategy_address(&"a".repeat(64), &program_id), None);
    // 17 characters of two bytes each
    assert_eq!(strategy_address(&"é".repeat(17), &program_id), None);
    assert!(strategy_address(&"é".repeat(16), &program_id).is_some());
}

#[test]
fn the_found_nonce_proves_the_authority() {
    let program_id = program(6);
    let (address, bump) = collection_address(&program_id).unwrap();
    assert!(is_collection_authority(&address, bump, &program_id));
    assert!(!is_collection_authority(&program_id, bump, &program_id));
    assert!(!is_collection_authority(&address, bump, &program(7)));
    assert!(!is_treasury_authority(&address, bump, &program_id));
    let created = Pubkey::create_program_address(
        &[b"collection", &[bump]],
        &native(&program_id),
    )
    .unwrap();
    assert_eq!(created.to_bytes(), address.bytes);

    let (vault, nonce) = treasury_address(&program_id).unwrap();
    assert!(is_treasury_authority(&vault, nonce, &program_id));
    assert!(!is_treasury_authority(&address, nonce, &program_id));
}

#[test]
fn another_nonce_proves_nothing() {
    let program_id = program(6);
    let (address, bump) = collection_address(&program_id).unwrap();
    let mut others = 0;
    for nonce in 0..=255u8 {
        if nonce != bump {
            assert!(!is_collection_authority(&address, nonce, &program_id));
            others += 1;
        }
    }
    assert_eq!(others, 255);
}

#[test]
fn the_nonce_is_given_only_at_the_derived_address() {
    let program_id = program(8);
    let (collection, c) = collection_address(&program_id).unwrap();
    let (treasury, t) = treasury_address(&program_id).unwrap();
    let (strategy, s) = strategy_address("alpha", &program_id).unwrap();
    assert_eq!(collection_nonce(&collection, &program_id), Some(c));
    assert_eq!(treasury_nonce(&treasury, &program_id), Some(t));
    assert_eq!(strategy_nonce(&strategy, "alpha", &program_id), Some(s));
    assert_eq!(collection_nonce(&treasury, &program_id), None);
    assert_eq!(treasury_nonce(&collection, &program_id), None);
    assert_eq!(strategy_nonce(&strategy, "beta", &program_id), None);
    assert_eq!(strategy_nonce(&strategy, "alpha", &program(9)), None);
    assert_eq!(collection_nonce(&collection, &program(9)), None);
    assert_eq!(strategy_nonce(&strategy, &"a".repeat(33), &program_id), None);
}
