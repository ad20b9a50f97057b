use final_project::constants::{DEFAULT_TOKEN_RESERVES, PERCENTAGE_DENOMINATOR};
use final_project::errors::Error;
use final_project::pubkey::Pubkey;
use final_project::utils::{calc_out_token_amount, withdraw_sol};

#[test]
fn calc_out_token_amount_without_slippage() {
    assert_eq!(calc_out_token_amount(1_000_000_000, 0), 34_612_903_225_806);
}

#[test]
fn calc_out_token_amount_with_slippage() {
    assert_eq!(calc_out_token_amount(1_000_000_000, 500), 32_882_258_064_516);
    assert_eq!(calc_out_token_amount(29_000_000_000, 100), 522_132_711_864_406);
}

#[test]
fn calc_out_token_amount_edges() {
    assert_eq!(calc_out_token_amount(0, 10_000), 0);
    assert_eq!(calc_out_token_amount(u64::MAX, PERCENTAGE_DENOMINATOR), 0);
    let all = calc_out_token_amount(u64::MAX, 0);
    assert_eq!(all, 1_072_999_998_254_976);
    assert!(all < DEFAULT_TOKEN_RESERVES);
}

#[test]
fn calc_out_token_amount_is_monotone() {
    let mut prev = 0;
    for a in [0u64, 1, 10, 1_000, 1_000_000, 30_000_000_000, 1 << 40, u64::MAX] {
        let out = calc_out_token_amount(a, 250);
        assert!(out >= prev);
        prev = out;
    }
    assert!(calc_out_token_amount(5_000_000_000, 100) >= calc_out_token_amount(5_000_000_000, 900));
}

#[test]
fn withdraw_sol_moves_lamports() {
    let mut from = 100u64;
    let mut to = 5u64;
    assert_eq!(withdraw_sol(&mut from, &mut to, 40), Ok(()));
    assert_eq!((from, to), (60, 45));
}

#[test]
fn withdraw_sol_rejects_overdraft() {
    let mut from = 10u64;
    let mut to = 5u64;
    assert_eq!(withdraw_sol(&mut from, &mut to, 11), Err(Error::ArithmeticOverflow));
    assert_eq!((from, to), (10, 5));
}

#[test]
fn withdraw_sol_rejects_credit_overflow() {
    let mut from = 10u64;
    let mut to = u64::MAX - 3;
    assert_eq!(withdraw_sol(&mut from, &mut to, 4), Err(Error::ArithmeticOverflow));
    assert_eq!((from, to), (6, u64::MAX - 3));
}

#[test]
fn pubkey_equality_and_default() {
    let a = Pubkey::new_from_array([7u8; 32]);
    let b = Pubkey::new_from_array([7u8; 32]);
    let mut bytes = [7u8; 32];
    bytes[31] = 8;
    let c = Pubkey::new_from_array(bytes);
    assert!(a == b);
    assert!(a != c);
    assert!(Pubkey::default().is_default());
    assert!(!a.is_default());
    assert_eq!(c.to_bytes(), bytes);
}

#[test]
fn le_bytes_match_std() {
    for x in [0u64, 1, 255, 256, 0x0102_0304_0506_0708, u64::MAX] {
        assert_eq!(final_project::pda::to_le_bytes(x), x.to_le_bytes().to_vec());
    }
}

#[test]
fn derived_address_check() {
    let program = Pubkey::new_from_array([200u8; 32]);
    let owner = Pubkey::new_from_array([3u8; 32]);
    let id = anchor_lang::prelude::Pubkey::new_from_array(program.to_bytes());
    let (address, bump) = anchor_lang::prelude::Pubkey::find_program_address(
        &[b"creator", &owner.to_bytes()],
        &id,
    );
    let address = Pubkey::new_from_array(address.to_bytes());
    let seeds = final_project::pda::creator_record_seeds(&owner, bump);
    assert!(final_project::pda::is_derived_address(&seeds, &program, &address));
    assert!(!final_project::pda::is_derived_address(&seeds, &program, &owner));
    let other = final_project::pda::creator_record_seeds(&owner, bump.wrapping_sub(1));
    assert!(!final_project::pda::is_derived_address(&other, &program, &address));
}
