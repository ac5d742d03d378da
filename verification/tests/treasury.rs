use meta_programs::address::{collection_address, treasury_address, Address};
use meta_programs::meta_treasury::accounts::{
    AddProfits, DistributeProfits, InitializeTreasury, UpdateMultisig, WithdrawEmergency,
};
use meta_programs::meta_treasury::distribution::distribute_profits;
use meta_programs::meta_treasury::emergency::{update_multisig, withdraw_emergency};
use meta_programs::meta_treasury::events::{
    EmergencyWithdrawal, MultisigUpdated, ProfitsAdded, ProfitsDistributed, TreasuryInitialized,
};
use meta_programs::meta_treasury::funding::{add_profits, initialize_treasury};
use meta_programs::meta_treasury::state::{MetaTreasuryError, TreasuryState};
use meta_programs::transfer::LamportTransfer;

fn key(tag: u8) -> Address {
    Address::new([tag; 32])
}

const AUTHORITY: u8 = 1;
const MULTISIG: u8 = 2;
const HOLDER: u8 = 3;
const TREASURY: u8 = 9;

fn treasury(total_sol: u64, profit_pool: u64) -> TreasuryState {
    TreasuryState {
        authority: key(AUTHORITY),
        emergency_multisig: key(MULTISIG),
        total_sol,
        profit_pool,
        is_initialized: true,
        bump: 254,
    }
}

fn payout(total_sol: u64, profit_pool: u64) -> DistributeProfits {
    DistributeProfits {
        treasury: treasury(total_sol, profit_pool),
        treasury_lamports: total_sol,
        authority: key(AUTHORITY),
        holder: key(HOLDER),
        holder_lamports: 10,
    }
}

fn withdrawal(total_sol: u64, profit_pool: u64) -> WithdrawEmergency {
    WithdrawEmergency {
        treasury: treasury(total_sol, profit_pool),
        treasury_lamports: total_sol,
        multisig: key(MULTISIG),
        destination: key(HOLDER),
        destination_lamports: 0,
    }
}

#[test]
fn initialize_treasury_creates_the_record_and_asks_for_the_deposit() {
    let mut ctx = InitializeTreasury {
        treasury: None,
        treasury_address: key(TREASURY),
        bump: 251,
        authority: key(AUTHORITY),
        multisig: key(MULTISIG),
    };
    let (deposit, event) = initialize_treasury(&mut ctx, 5_000, 1_700_000_000).unwrap();
    assert_eq!(
        deposit,
        Some(LamportTransfer { from: key(AUTHORITY), to: key(TREASURY), lamports: 5_000 })
    );
    assert_eq!(
        event,
        TreasuryInitialized {
            authority: key(AUTHORITY),
            initial_amount: 5_000,
            timestamp: 1_700_000_000,
        }
    );
    assert_eq!(
        ctx.treasury,
        Some(TreasuryState {
            authority: key(AUTHORITY),
            emergency_multisig: key(MULTISIG),
            total_sol: 5_000,
            profit_pool: 0,
            is_initialized: true,
            bump: 251,
        })
    );
    assert!(ctx.treasury.unwrap().is_well_formed());
}

#[test]
fn initialize_treasury_with_nothing_moves_nothing() {
    let mut ctx = InitializeTreasury {
        treasury: None,
        treasury_address: key(TREASURY),
        bump: 255,
        authority: key(AUTHORITY),
        multisig: key(MULTISIG),
    };
    let (deposit, event) = initialize_treasury(&mut ctx, 0, 5).unwrap();
    assert_eq!(deposit, None);
    assert_eq!(event.initial_amount, 0);
    let state = ctx.treasury.unwrap();
    assert_eq!(state.total_sol, 0);
    assert_eq!(state.profit_pool, 0);
    assert!(state.is_initialized);
}

#[test]
fn initialize_treasury_twice_is_a_duplicate() {
    let mut ctx = InitializeTreasury {
        treasury: None,
        treasury_address: key(TREASURY),
        bump: 255,
        authority: key(AUTHORITY),
        multisig: key(MULTISIG),
    };
    initialize_treasury(&mut ctx, 700, 1).unwrap();
    let first = ctx;
    ctx.authority = key(77);
    ctx.multisig = key(78);
    let before = ctx;
    assert_eq!(initialize_treasury(&mut ctx, 900, 2), Err(MetaTreasuryError::DuplicateCreation));
    assert_eq!(ctx, before);
    assert_eq!(ctx.treasury, first.treasury);
}

#[test]
fn add_profits_raises_books_and_pool() {
    let mut ctx = AddProfits {
        treasury: treasury(5_000, 1_000),
        treasury_address: key(TREASURY),
        authority: key(AUTHORITY),
    };
    let (transfer, event) = add_profits(&mut ctx, 250, 42).unwrap();
    assert_eq!(
        transfer,
        LamportTransfer { from: key(AUTHORITY), to: key(TREASURY), lamports: 250 }
    );
    assert_eq!(
        event,
        ProfitsAdded { amount: 250, new_total: 5_250, new_profit_pool: 1_250, timestamp: 42 }
    );
    assert_eq!(ctx.treasury, treasury(5_250, 1_250));
}

#[test]
fn add_profits_of_nothing_is_an_invalid_amount() {
    let mut ctx = AddProfits {
        treasury: treasury(5_000, 1_000),
        treasury_address: key(TREASURY),
        authority: key(AUTHORITY),
    };
    let before = ctx;
    assert_eq!(add_profits(&mut ctx, 0, 42), Err(MetaTreasuryError::InvalidAmount));
    assert_eq!(ctx, before);
}

#[test]
fn add_profits_by_a_stranger_is_unauthorized() {
    let mut ctx = AddProfits {
        treasury: treasury(5_000, 1_000),
        treasury_address: key(TREASURY),
        authority: key(MULTISIG),
    };
    let before = ctx;
    assert_eq!(add_profits(&mut ctx, 10, 42), Err(MetaTreasuryError::Unauthorized));
    assert_eq!(ctx, before);
}

#[test]
fn add_profits_before_setup_is_not_initialized() {
    let mut state = treasury(0, 0);
    state.is_initialized = false;
    let mut ctx =
        AddProfits { treasury: state, treasury_address: key(TREASURY), authority: key(AUTHORITY) };
    assert_eq!(add_profits(&mut ctx, 10, 42), Err(MetaTreasuryError::NotInitialized));
    assert_eq!(ctx.treasury, state);
}

#[test]
fn add_profits_beyond_the_range_is_an_arithmetic_fault() {
    let mut ctx = AddProfits {
        treasury: treasury(u64::MAX - 5, 100),
        treasury_address: key(TREASURY),
        authority: key(AUTHORITY),
    };
    let before = ctx;
    assert_eq!(add_profits(&mut ctx, 6, 42), Err(MetaTreasuryError::ArithmeticFault));
    assert_eq!(ctx, before);
    let (_, event) = add_profits(&mut ctx, 5, 43).unwrap();
    assert_eq!(event.new_total, u64::MAX);
    assert_eq!(event.new_profit_pool, 105);
}

#[test]
fn add_profits_checks_the_pool_too() {
    // A pool above the books cannot come about through these transitions, but
    // the addition to it is checked all the same.
    let mut ctx = AddProfits {
        treasury: treasury(10, u64::MAX),
        treasury_address: key(TREASURY),
        authority: key(AUTHORITY),
    };
    let before = ctx;
    assert_eq!(add_profits(&mut ctx, 1, 42), Err(MetaTreasuryError::ArithmeticFault));
    assert_eq!(ctx, before);
}

#[test]
fn distributing_a_quarter_of_a_thousand_pays_250() {
    let mut ctx = payout(5_000, 1_000);
    let event = distribute_profits(&mut ctx, 2_500, 77).unwrap();
    assert_eq!(
        event,
        ProfitsDistributed {
            holder: key(HOLDER),
            amount: 250,
            share_bps: 2_500,
            remaining_pool: 750,
            timestamp: 77,
        }
    );
    assert_eq!(ctx.treasury.profit_pool, 750);
    assert_eq!(ctx.treasury.total_sol, 4_750);
    assert_eq!(ctx.treasury_lamports, 4_750);
    assert_eq!(ctx.holder_lamports, 260);
    assert!(ctx.treasury.is_well_formed());
}

fn share_paid(profit_pool: u64, bps: u16) -> Result<u64, MetaTreasuryError> {
    let mut ctx = payout(u64::MAX, profit_pool);
    ctx.holder_lamports = 0;
    distribute_profits(&mut ctx, bps, 0).map(|event| event.amount)
}

#[test]
fn share_is_rounded_down() {
    assert_eq!(share_paid(1_000, 2_500), Ok(250));
    assert_eq!(share_paid(999, 3_333), Ok(332));
    assert_eq!(share_paid(10_000, 1), Ok(1));
    assert_eq!(share_paid(19_999, 1), Ok(1));
    assert_eq!(share_paid(3, 6_667), Ok(2));
    assert_eq!(share_paid(2, 9_999), Ok(1));
    assert_eq!(share_paid(1, 10_000), Ok(1));
    assert_eq!(share_paid(u64::MAX, 10_000), Ok(u64::MAX));
    assert_eq!(share_paid(u64::MAX, 5_000), Ok(u64::MAX / 2));
    assert_eq!(share_paid(u64::MAX, 1), Ok(1_844_674_407_370_955));
    assert_eq!(share_paid(u64::MAX, 9_999), Ok(18_444_899_399_302_180_659));
}

#[test]
fn share_below_one_unit_pays_nothing() {
    assert_eq!(share_paid(1, 9_999), Err(MetaTreasuryError::InvalidAmount));
    assert_eq!(share_paid(9_999, 1), Err(MetaTreasuryError::InvalidAmount));
}

#[test]
fn distributing_the_widest_pool_does_not_overflow() {
    let mut ctx = payout(u64::MAX, u64::MAX);
    ctx.holder_lamports = 0;
    let event = distribute_profits(&mut ctx, 10_000, 1).unwrap();
    assert_eq!(event.amount, u64::MAX);
    assert_eq!(ctx.treasury.profit_pool, 0);
    assert_eq!(ctx.treasury.total_sol, 0);
    assert_eq!(ctx.holder_lamports, u64::MAX);
}

#[test]
fn share_of_zero_or_above_the_whole_is_invalid() {
    for bps in [0u16, 10_001, u16::MAX] {
        let mut ctx = payout(5_000, 1_000);
        let before = ctx;
        assert_eq!(distribute_profits(&mut ctx, bps, 77), Err(MetaTreasuryError::InvalidShare));
        assert_eq!(ctx, before);
    }
}

#[test]
fn the_whole_share_and_the_smallest_share_are_valid() {
    let mut ctx = payout(50_000, 20_000);
    assert_eq!(distribute_profits(&mut ctx, 1, 1).unwrap().amount, 2);
    assert_eq!(distribute_profits(&mut ctx, 10_000, 2).unwrap().amount, 19_998);
    assert_eq!(ctx.treasury.profit_pool, 0);
}

#[test]
fn an_empty_pool_is_reported_before_the_share_is_looked_at() {
    let mut ctx = payout(5_000, 0);
    let before = ctx;
    assert_eq!(distribute_profits(&mut ctx, 0, 77), Err(MetaTreasuryError::NoProfits));
    assert_eq!(distribute_profits(&mut ctx, 2_500, 77), Err(MetaTreasuryError::NoProfits));
    assert_eq!(ctx, before);
}

#[test]
fn a_share_that_comes_to_nothing_is_an_invalid_amount() {
    let mut ctx = payout(5_000, 3);
    let before = ctx;
    assert_eq!(distribute_profits(&mut ctx, 2_500, 77), Err(MetaTreasuryError::InvalidAmount));
    assert_eq!(ctx, before);
}

#[test]
fn distribution_by_a_stranger_is_unauthorized() {
    let mut ctx = payout(5_000, 1_000);
    ctx.authority = key(MULTISIG);
    let before = ctx;
    assert_eq!(distribute_profits(&mut ctx, 2_500, 77), Err(MetaTreasuryError::Unauthorized));
    assert_eq!(ctx, before);
}

#[test]
fn distribution_before_setup_is_not_initialized() {
    let mut ctx = payout(5_000, 1_000);
    ctx.treasury.is_initialized = false;
    let before = ctx;
    assert_eq!(distribute_profits(&mut ctx, 2_500, 77), Err(MetaTreasuryError::NotInitialized));
    assert_eq!(ctx, before);
}

#[test]
fn distribution_checks_the_balances() {
    let mut short = payout(5_000, 1_000);
    short.treasury_lamports = 249;
    let before = short;
    assert_eq!(distribute_profits(&mut short, 2_500, 77), Err(MetaTreasuryError::ArithmeticFault));
    assert_eq!(short, before);

    let mut full = payout(5_000, 1_000);
    full.holder_lamports = u64::MAX - 249;
    let before = full;
    assert_eq!(distribute_profits(&mut full, 2_500, 77), Err(MetaTreasuryError::ArithmeticFault));
    assert_eq!(full, before);

    let mut exact = payout(5_000, 1_000);
    exact.treasury_lamports = 250;
    exact.holder_lamports = u64::MAX - 250;
    distribute_profits(&mut exact, 2_500, 77).unwrap();
    assert_eq!(exact.treasury_lamports, 0);
    assert_eq!(exact.holder_lamports, u64::MAX);
}

#[test]
fn distribution_checks_the_books() {
    // After an emergency withdrawal the books may hold less than the pool.
    let mut ctx = payout(100, 1_000);
    ctx.treasury_lamports = 10_000;
    let before = ctx;
    assert_eq!(distribute_profits(&mut ctx, 2_500, 77), Err(MetaTreasuryError::ArithmeticFault));
    assert_eq!(ctx, before);
}

#[test]
fn repeated_distributions_keep_the_pool_within_the_books() {
    let mut ctx = payout(1_000_000, 123_457);
    for (round, bps) in [1u16, 9_999, 5_000, 10_000, 3_333, 2].into_iter().enumerate() {
        let pool = ctx.treasury.profit_pool;
        let total = ctx.treasury.total_sol;
        let funds = ctx.treasury_lamports + ctx.holder_lamports;
        let _ = distribute_profits(&mut ctx, bps, round as i64);
        assert!(ctx.treasury.profit_pool <= ctx.treasury.total_sol);
        assert!(ctx.treasury.profit_pool <= pool);
        assert_eq!(total - ctx.treasury.total_sol, pool - ctx.treasury.profit_pool);
        assert_eq!(ctx.treasury_lamports + ctx.holder_lamports, funds);
    }
}

#[test]
fn add_profits_then_the_whole_share_drains_the_pool() {
    let mut deposit = AddProfits {
        treasury: treasury(8_000, 300),
        treasury_address: key(TREASURY),
        authority: key(AUTHORITY),
    };
    add_profits(&mut deposit, 700, 1).unwrap();
    let mut ctx = DistributeProfits {
        treasury: deposit.treasury,
        treasury_lamports: 8_700,
        authority: key(AUTHORITY),
        holder: key(HOLDER),
        holder_lamports: 5,
    };
    let event = distribute_profits(&mut ctx, 10_000, 2).unwrap();
    assert_eq!(event.amount, 1_000);
    assert_eq!(event.remaining_pool, 0);
    assert_eq!(ctx.treasury.profit_pool, 0);
    assert_eq!(ctx.treasury.total_sol, 7_700);
    assert_eq!(ctx.treasury_lamports, 7_700);
    assert_eq!(ctx.holder_lamports, 1_005);
    assert_eq!(distribute_profits(&mut ctx, 10_000, 3), Err(MetaTreasuryError::NoProfits));
}

#[test]
fn emergency_withdrawal_takes_from_the_books_only() {
    let mut ctx = withdrawal(5_000, 1_000);
    let event = withdraw_emergency(&mut ctx, 1_500, 9).unwrap();
    assert_eq!(
        event,
        EmergencyWithdrawal {
            multisig: key(MULTISIG),
            destination: key(HOLDER),
            amount: 1_500,
            remaining: 3_500,
            timestamp: 9,
        }
    );
    assert_eq!(ctx.treasury.total_sol, 3_500);
    assert_eq!(ctx.treasury.profit_pool, 1_000);
    assert_eq!(ctx.treasury_lamports, 3_500);
    assert_eq!(ctx.destination_lamports, 1_500);
}

#[test]
fn emergency_withdrawal_can_take_everything() {
    let mut ctx = withdrawal(5_000, 1_000);
    withdraw_emergency(&mut ctx, 5_000, 9).unwrap();
    assert_eq!(ctx.treasury.total_sol, 0);
    assert_eq!(ctx.treasury.profit_pool, 1_000);
    assert!(!ctx.treasury.is_well_formed());
}

#[test]
fn emergency_withdrawal_of_nothing_or_too_much_is_insufficient() {
    for amount in [0u64, 5_001, u64::MAX] {
        let mut ctx = withdrawal(5_000, 1_000);
        ctx.treasury_lamports = u64::MAX;
        let before = ctx;
        assert_eq!(
            withdraw_emergency(&mut ctx, amount, 9),
            Err(MetaTreasuryError::InsufficientFunds)
        );
        assert_eq!(ctx, before);
    }
}

#[test]
fn emergency_withdrawal_by_the_normal_authority_is_unauthorized() {
    let mut ctx = withdrawal(5_000, 1_000);
    ctx.multisig = key(AUTHORITY);
    let before = ctx;
    assert_eq!(withdraw_emergency(&mut ctx, 100, 9), Err(MetaTreasuryError::Unauthorized));
    assert_eq!(ctx, before);
}

#[test]
fn emergency_withdrawal_before_setup_is_not_initialized() {
    let mut ctx = withdrawal(5_000, 1_000);
    ctx.treasury.is_initialized = false;
    let before = ctx;
    assert_eq!(withdraw_emergency(&mut ctx, 100, 9), Err(MetaTreasuryError::NotInitialized));
    assert_eq!(ctx, before);
}

#[test]
fn emergency_withdrawal_checks_the_balances() {
    let mut short = withdrawal(5_000, 1_000);
    short.treasury_lamports = 99;
    let before = short;
    assert_eq!(withdraw_emergency(&mut short, 100, 9), Err(MetaTreasuryError::ArithmeticFault));
    assert_eq!(short, before);

    let mut full = withdrawal(5_000, 1_000);
    full.destination_lamports = u64::MAX - 99;
    let before = full;
    assert_eq!(withdraw_emergency(&mut full, 100, 9), Err(MetaTreasuryError::ArithmeticFault));
    assert_eq!(full, before);
}

#[test]
fn update_multisig_names_old_and_new() {
    let mut ctx = UpdateMultisig { treasury: treasury(5_000, 1_000), multisig: key(MULTISIG) };
    let event = update_multisig(&mut ctx, key(40), 11).unwrap();
    assert_eq!(
        event,
        MultisigUpdated { old_multisig: key(MULTISIG), new_multisig: key(40), timestamp: 11 }
    );
    assert_eq!(ctx.treasury.emergency_multisig, key(40));
    assert_eq!(ctx.treasury.authority, key(AUTHORITY));
    assert_eq!(ctx.treasury.total_sol, 5_000);
    assert_eq!(ctx.treasury.profit_pool, 1_000);
}

#[test]
fn update_multisig_by_anyone_else_is_unauthorized() {
    for caller in [AUTHORITY, HOLDER] {
        let mut ctx = UpdateMultisig { treasury: treasury(5_000, 1_000), multisig: key(caller) };
        let before = ctx;
        assert_eq!(update_multisig(&mut ctx, key(40), 11), Err(MetaTreasuryError::Unauthorized));
        assert_eq!(ctx, before);
    }
}

#[test]
fn update_multisig_before_setup_is_not_initialized() {
    let mut state = treasury(0, 0);
    state.is_initialized = false;
    let mut ctx = UpdateMultisig { treasury: state, multisig: key(MULTISIG) };
    assert_eq!(update_multisig(&mut ctx, key(40), 11), Err(MetaTreasuryError::NotInitialized));
    assert_eq!(ctx.treasury, state);
}

#[test]
fn after_update_multisig_only_the_new_authority_withdraws() {
    let mut handover = UpdateMultisig { treasury: treasury(5_000, 1_000), multisig: key(MULTISIG) };
    update_multisig(&mut handover, key(40), 11).unwrap();

    let mut by_old = WithdrawEmergency {
        treasury: handover.treasury,
        treasury_lamports: 5_000,
        multisig: key(MULTISIG),
        destination: key(HOLDER),
        destination_lamports: 0,
    };
    let before = by_old;
    assert_eq!(withdraw_emergency(&mut by_old, 100, 12), Err(MetaTreasuryError::Unauthorized));
    assert_eq!(by_old, before);

    let mut by_new = WithdrawEmergency { multisig: key(40), ..before };
    let event = withdraw_emergency(&mut by_new, 100, 12).unwrap();
    assert_eq!(event.multisig, key(40));
    assert_eq!(by_new.treasury.total_sol, 4_900);
    assert_eq!(by_new.destination_lamports, 100);
}

#[test]
fn treasury_errors_have_their_texts() {
    assert_eq!(MetaTreasuryError::NotInitialized.message(), "Treasury not initialized");
    assert_eq!(MetaTreasuryError::InvalidAmount.message(), "Invalid amount");
    assert_eq!(MetaTreasuryError::NoProfits.message(), "No profits available for distribution");
    assert_eq!(MetaTreasuryError::InvalidShare.message(), "Invalid share percentage");
    assert_eq!(MetaTreasuryError::InsufficientFunds.message(), "Insufficient funds in treasury");
    assert_eq!(MetaTreasuryError::Unauthorized.message(), "Unauthorized");
    assert_eq!(MetaTreasuryError::DuplicateCreation.message(), "Record already exists");
    assert_eq!(MetaTreasuryError::ArithmeticFault.message(), "Arithmetic overflow");
}

#[test]
fn accounts_resolve_only_at_the_derived_address() {
    let program_id = key(200);
    let (home, bump) = treasury_address(&program_id).unwrap();
    let (elsewhere, _) = collection_address(&program_id).unwrap();
    let stored = TreasuryState { bump, ..treasury(5_000, 1_000) };

    assert_eq!(
        InitializeTreasury::resolve(&program_id, &home, None, key(AUTHORITY), key(MULTISIG)),
        Some(InitializeTreasury {
            treasury: None,
            treasury_address: home,
            bump,
            authority: key(AUTHORITY),
            multisig: key(MULTISIG),
        })
    );
    assert_eq!(
        InitializeTreasury::resolve(&program_id, &elsewhere, None, key(AUTHORITY), key(MULTISIG)),
        None
    );
    assert_eq!(
        AddProfits::resolve(&program_id, &home, stored, key(AUTHORITY)),
        Some(AddProfits { treasury: stored, treasury_address: home, authority: key(AUTHORITY) })
    );
    assert_eq!(AddProfits::resolve(&program_id, &elsewhere, stored, key(AUTHORITY)), None);
    assert_eq!(
        DistributeProfits::resolve(&program_id, &home, stored, 9, key(AUTHORITY), key(HOLDER), 4),
        Some(DistributeProfits {
            treasury: stored,
            treasury_lamports: 9,
            authority: key(AUTHORITY),
            holder: key(HOLDER),
            holder_lamports: 4,
        })
    );
    assert_eq!(
        DistributeProfits::resolve(&key(201), &home, stored, 9, key(AUTHORITY), key(HOLDER), 4),
        None
    );
    assert_eq!(
        WithdrawEmergency::resolve(&program_id, &home, stored, 9, key(MULTISIG), key(HOLDER), 4),
        Some(WithdrawEmergency {
            treasury: stored,
            treasury_lamports: 9,
            multisig: key(MULTISIG),
            destination: key(HOLDER),
            destination_lamports: 4,
        })
    );
    let other_nonce = TreasuryState { bump: bump.wrapping_sub(1), ..stored };
    assert_eq!(
        WithdrawEmergency::resolve(&program_id, &home, other_nonce, 9, key(1), key(2), 4),
        None
    );
    assert_eq!(
        UpdateMultisig::resolve(&program_id, &home, stored, key(MULTISIG)),
        Some(UpdateMultisig { treasury: stored, multisig: key(MULTISIG) })
    );
    assert_eq!(UpdateMultisig::resolve(&program_id, &elsewhere, stored, key(MULTISIG)), None);
}
