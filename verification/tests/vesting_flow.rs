use anchor_lang::prelude::Pubkey;
use vesting::{
    claim_tokens, claim_tokens_at, create_employee_vesting, create_vesting_account, ClaimError,
    ErrorCode,
};

fn key(byte: u8) -> Pubkey {
    Pubkey::new_from_array([byte; 32])
}

#[test]
fn test_vesting_flow() {
    let owner = key(1);
    let employee = key(2);
    let mint = key(3);
    let vesting_pda = key(4);
    let treasury_pda = key(5);

    let company_name = "TestCompany".to_string();
    let vesting_account =
        create_vesting_account(owner, mint, treasury_pda, 254, 255, company_name.clone()).unwrap();
    assert_eq!(vesting_account.company_name, company_name);
    assert_eq!(vesting_account.owner, owner);

    let total_amount: u64 = 1_000_000;
    let start_time: i64 = 0;
    let end_time = start_time + 100;
    let cliff_time = start_time + 10;
    let mut employee_account = create_employee_vesting(
        employee,
        vesting_pda,
        253,
        start_time,
        end_time,
        total_amount,
        cliff_time,
    )
    .unwrap();

    // Before the cliff the claim fails.
    let result = claim_tokens_at(&mut employee_account, start_time);
    assert!(result.is_err(), "Should fail before cliff");

    // Halfway through: half the tokens.
    let mut balance: u64 = 0;
    balance += claim_tokens_at(&mut employee_account, start_time + 50).unwrap();
    assert_eq!(balance, 500_000);

    // After the end: everything.
    balance += claim_tokens_at(&mut employee_account, end_time + 1).unwrap();
    assert_eq!(balance, 1_000_000);
}

#[test]
fn claim_before_cliff_is_refused_and_changes_nothing() {
    let mut e = create_employee_vesting(key(2), key(4), 1, 0, 100, 1_000_000, 10).unwrap();
    assert_eq!(claim_tokens_at(&mut e, 9), Err(ErrorCode::ClaimNotAvailableYet));
    assert_eq!(e.total_withdrawn, 0);
    assert_eq!(claim_tokens_at(&mut e, 10), Ok(100_000));
    assert_eq!(e.total_withdrawn, 100_000);
}

#[test]
fn claim_before_start_is_refused_when_cliff_precedes_start() {
    let mut e = create_employee_vesting(key(2), key(4), 1, 100, 200, 1_000, 50).unwrap();
    assert_eq!(claim_tokens_at(&mut e, 60), Err(ErrorCode::ClaimNotAvailableYet));
    assert_eq!(claim_tokens_at(&mut e, 99), Err(ErrorCode::ClaimNotAvailableYet));
    // At the start nothing has vested yet.
    assert_eq!(claim_tokens_at(&mut e, 100), Err(ErrorCode::NothingToClaim));
    assert_eq!(claim_tokens_at(&mut e, 150), Ok(500));
}

#[test]
fn repeated_claim_at_same_time_has_nothing_to_claim() {
    let mut e = create_employee_vesting(key(2), key(4), 1, 0, 100, 1_000, 0).unwrap();
    assert_eq!(claim_tokens_at(&mut e, 30), Ok(300));
    assert_eq!(claim_tokens_at(&mut e, 30), Err(ErrorCode::NothingToClaim));
    assert_eq!(e.total_withdrawn, 300);
}

#[test]
fn vested_amount_rounds_down() {
    let mut e = create_employee_vesting(key(2), key(4), 1, 0, 3, 10, 0).unwrap();
    // 10 * 1 / 3 = 3
    assert_eq!(claim_tokens_at(&mut e, 1), Ok(3));
    // 10 * 2 / 3 = 6
    assert_eq!(claim_tokens_at(&mut e, 2), Ok(3));
    assert_eq!(claim_tokens_at(&mut e, 3), Ok(4));
    assert_eq!(e.total_withdrawn, 10);
    assert_eq!(claim_tokens_at(&mut e, 1_000), Err(ErrorCode::NothingToClaim));
}

#[test]
fn claims_in_instalments_release_what_one_claim_would() {
    let mut split = create_employee_vesting(key(2), key(4), 1, 0, 7, 1_000, 0).unwrap();
    let mut once = split;
    let a = claim_tokens_at(&mut split, 3).unwrap();
    let b = claim_tokens_at(&mut split, 5).unwrap();
    let c = claim_tokens_at(&mut once, 5).unwrap();
    assert_eq!(a, 428);
    assert_eq!(a + b, c);
    assert_eq!(c, 714);
    assert_eq!(split.total_withdrawn, once.total_withdrawn);
}

#[test]
fn huge_amounts_and_times_do_not_overflow() {
    let mut e =
        create_employee_vesting(key(2), key(4), 1, i64::MIN, i64::MAX, u64::MAX, i64::MIN).unwrap();
    // The schedule length saturates at i64::MAX; at -2 the elapsed time is i64::MAX - 1.
    let expected =
        ((u64::MAX as u128) * (i64::MAX as u128 - 1) / (i64::MAX as u128)) as u64;
    assert_eq!(claim_tokens_at(&mut e, -2), Ok(expected));
    assert_eq!(claim_tokens_at(&mut e, i64::MAX), Ok(u64::MAX - expected));
    assert_eq!(e.total_withdrawn, u64::MAX);
}

#[test]
fn saturated_elapsed_time_vests_everything_before_end() {
    let mut e =
        create_employee_vesting(key(2), key(4), 1, i64::MIN, i64::MAX, 1_000, i64::MIN).unwrap();
    assert_eq!(claim_tokens_at(&mut e, -2), Ok(999));
    // From -1 on the elapsed time saturates at the schedule length.
    assert_eq!(claim_tokens_at(&mut e, 5), Ok(1));
    assert_eq!(e.total_withdrawn, 1_000);
}

#[test]
fn claim_without_cluster_clock_changes_nothing() {
    // Off the cluster the clock sysvar cannot be read.
    let mut e = create_employee_vesting(key(2), key(4), 1, 0, 100, 1_000, 0).unwrap();
    assert_eq!(claim_tokens(&mut e), Err(ClaimError::ClockUnavailable));
    assert_eq!(e.total_withdrawn, 0);
}
