use final_project::constants::INITIAL_DEPOSIT_AMOUNT;
use final_project::errors::{CustomError, Error};
use final_project::instructions::{
    claim_campaign_token, claim_fund_raised, complete_create_campaign_token,
    complete_sell_campaign_token, create_campaign_token, donate_fund, init, init_campaign,
    init_creator, sell_campaign_token, update_admin, update_claimable_token_amount, update_fee,
    update_operator, withdraw_campaign_token, withdraw_sol_fee,
};
use final_project::pubkey::Pubkey;
use final_project::state::{Campaign, Config, Creator, Treasury};

const RENT: u64 = 2_874_480;

fn key(b: u8) -> Pubkey {
    Pubkey::new_from_array([b; 32])
}

fn admin() -> Pubkey {
    key(1)
}

fn operator() -> Pubkey {
    key(2)
}

fn creator() -> Pubkey {
    key(3)
}

fn mint() -> Pubkey {
    key(4)
}

fn program() -> Pubkey {
    key(200)
}

fn derived(seeds: &[&[u8]]) -> (Pubkey, u8) {
    let id = anchor_lang::prelude::Pubkey::new_from_array(program().to_bytes());
    let (address, bump) = anchor_lang::prelude::Pubkey::find_program_address(seeds, &id);
    (Pubkey::new_from_array(address.to_bytes()), bump)
}

fn campaign_address(owner: &Pubkey, index: u64) -> (Pubkey, u8) {
    derived(&[b"campaign", &owner.to_bytes(), &index.to_le_bytes()])
}

fn creator_address(owner: &Pubkey) -> (Pubkey, u8) {
    derived(&[b"creator", &owner.to_bytes()])
}

fn addr() -> Pubkey {
    campaign_address(&creator(), 0).0
}

fn config(fee: u16, tip: u16) -> Config {
    Config {
        bump: 255,
        admin: admin(),
        operator: operator(),
        initial_deposit_amount: INITIAL_DEPOSIT_AMOUNT,
        protocol_fee_percentage: fee,
        tip_percentage: tip,
    }
}

fn campaign() -> Campaign {
    Campaign {
        bump: campaign_address(&creator(), 0).1,
        creator: creator(),
        mint: Pubkey::default(),
        index: 0,
        name: "Save the reef".to_string(),
        symbol: "REEF".to_string(),
        uri: "https://example.org/reef.json".to_string(),
        deposit_deadline: 1_000,
        trade_deadline: 2_000,
        donation_goal: 10_000_000_000,
        total_token_bought: 0,
        claimable_amount: 0,
        total_claimed: 0,
        is_claimed_fund: false,
        is_sell_all: false,
    }
}

#[test]
fn init_sets_config_and_treasury() {
    let mut cfg = config(0, 0);
    let mut treasury = Treasury { bump: 0 };
    assert_eq!(init(&mut cfg, &mut treasury, key(9), 7, 8, key(10), 250, 100), Ok(()));
    assert!(cfg.admin == key(9));
    assert!(cfg.operator == key(10));
    assert_eq!(cfg.bump, 7);
    assert_eq!(cfg.initial_deposit_amount, 1_000_000_000);
    assert_eq!(cfg.protocol_fee_percentage, 250);
    assert_eq!(cfg.tip_percentage, 100);
    assert_eq!(treasury.bump, 8);
}

#[test]
fn init_creator_starts_at_index_zero() {
    let mut rec = Creator { bump: 0, creator: key(0), last_campaign_index: 9 };
    assert_eq!(init_creator(&mut rec, creator(), 3), Ok(()));
    assert!(rec.creator == creator());
    assert_eq!(rec.bump, 3);
    assert_eq!(rec.last_campaign_index, 0);
}

#[test]
fn init_campaign_opens_campaigns_in_sequence() {
    let cfg = config(100, 100);
    let mut rec = Creator { bump: creator_address(&creator()).1, creator: creator(), last_campaign_index: 0 };
    let mut first = campaign();
    first.total_token_bought = 5;
    let opened = init_campaign(&cfg, &mut rec, &mut first, program(), creator_address(&creator()).0, creator(), 500, 9,
        "A".to_string(), "AA".to_string(), "u".to_string(), 1_000, 2_000, 77,
    ).unwrap();
    assert_eq!(first.index, 0);
    assert_eq!(first.total_token_bought, 0);
    assert!(first.mint.is_default());
    assert_eq!(first.name, "A");
    assert_eq!(first.donation_goal, 77);
    assert_eq!(rec.last_campaign_index, 1);
    assert_eq!(opened.initial_deposit, 1_000_000_000);
    assert_eq!(opened.event.campaign_index, 1);
    assert_eq!(opened.event.symbol, "AA");
    assert_eq!(opened.event.timestamp, 500);

    let mut second = campaign();
    init_campaign(&cfg, &mut rec, &mut second, program(), creator_address(&creator()).0, creator(), 600, 9,
        "B".to_string(), "BB".to_string(), "v".to_string(), 0, 0, 1,
    ).unwrap();
    assert_eq!(second.index, 1);
    assert_eq!(rec.last_campaign_index, 2);
}

#[test]
fn init_campaign_rejects_bad_deadlines_and_signer() {
    let cfg = config(100, 100);
    let mut rec = Creator { bump: creator_address(&creator()).1, creator: creator(), last_campaign_index: 4 };
    let mut c = campaign();
    let r = init_campaign(&cfg, &mut rec, &mut c, program(), creator_address(&creator()).0, key(77), 10, 1, "n".to_string(), "s".to_string(), "u".to_string(), 0, 0, 1);
    assert_eq!(r.err(), Some(Error::ConstraintSeeds));
    let mut other = Creator { bump: creator_address(&creator()).1, creator: key(77), last_campaign_index: 4 };
    let r = init_campaign(&cfg, &mut other, &mut c, program(), creator_address(&creator()).0, creator(), 10, 1, "n".to_string(), "s".to_string(), "u".to_string(), 0, 0, 1);
    assert_eq!(r.err(), Some(Error::ConstraintHasOne));
    let r = init_campaign(&cfg, &mut rec, &mut c, program(), creator_address(&creator()).0, creator(), 1_000, 1, "n".to_string(), "s".to_string(), "u".to_string(), 1_000, 0, 1);
    assert_eq!(r.err(), Some(Error::Custom(CustomError::DepositDeadlineMustBeInTheFuture)));
    let r = init_campaign(&cfg, &mut rec, &mut c, program(), creator_address(&creator()).0, creator(), 10, 1, "n".to_string(), "s".to_string(), "u".to_string(), 1_000, 1_000, 1);
    assert_eq!(r.err(), Some(Error::Custom(CustomError::TradeDeadlineMustBeAfterDepositDeadline)));
    assert_eq!(rec.last_campaign_index, 4);
    assert_eq!(c.name, "Save the reef");
}

#[test]
fn donate_fund_accepts_until_goal_and_deadline() {
    let c = campaign();
    let ev = donate_fund(&c, program(), addr(), creator(), 0, 500, 999, RENT + 9_999_999_999, RENT).unwrap();
    assert_eq!(ev.campaign_index, 0);
    assert_eq!(ev.donated_amount, 500);
    assert_eq!(ev.timestamp, 999);
}

#[test]
fn donate_fund_errors() {
    let c = campaign();
    assert_eq!(donate_fund(&c, program(), addr(), key(9), 0, 1, 0, RENT, RENT).err(), Some(Error::ConstraintSeeds));
    assert_eq!(donate_fund(&c, program(), addr(), creator(), 1, 1, 0, RENT, RENT).err(), Some(Error::ConstraintSeeds));
    let mut stored_other = campaign();
    stored_other.creator = key(9);
    assert_eq!(donate_fund(&stored_other, program(), addr(), creator(), 0, 1, 0, RENT, RENT).err(), Some(Error::Custom(CustomError::CampaignCreatorNotMatch)));
    let mut stored_index = campaign();
    stored_index.index = 5;
    assert_eq!(donate_fund(&stored_index, program(), addr(), creator(), 0, 1, 0, RENT, RENT).err(), Some(Error::Custom(CustomError::CampaignIndexNotMatch)));
    assert_eq!(donate_fund(&c, program(), addr(), creator(), 0, 1, 0, RENT + 10_000_000_000, RENT).err(), Some(Error::Custom(CustomError::CampaignReachedGoal)));
    assert_eq!(donate_fund(&c, program(), addr(), creator(), 0, 1, 1_000, RENT, RENT).err(), Some(Error::Custom(CustomError::CampaignDepositDeadlinePassed)));
    let mut open_ended = campaign();
    open_ended.deposit_deadline = 0;
    assert!(donate_fund(&open_ended, program(), addr(), creator(), 0, 1, i64::MAX, RENT, RENT).is_ok());
}

#[test]
fn claim_fund_raised_pays_creator_and_treasury() {
    let cfg = config(500, 0);
    let mut c = campaign();
    let (mut camp, mut cre, mut tre) = (RENT + 2_000_000_000, 10, 20);
    let ev = claim_fund_raised(&cfg, &mut c, program(), addr(), creator(), 1_001, &mut camp, &mut cre, &mut tre, RENT).unwrap();
    assert_eq!(ev.claimed_amount, 1_900_000_000);
    assert_eq!(ev.campaign_index, 0);
    assert!(ev.creator == creator());
    assert_eq!(camp, RENT);
    assert_eq!(cre, 1_900_000_010);
    assert_eq!(tre, 100_000_020);
    assert!(c.is_claimed_fund);
    // a second claim is refused
    let r = claim_fund_raised(&cfg, &mut c, program(), addr(), creator(), 1_002, &mut camp, &mut cre, &mut tre, RENT);
    assert_eq!(r.err(), Some(Error::Custom(CustomError::CampaignAlreadyClaimed)));
}

#[test]
fn claim_fund_raised_errors() {
    let cfg = config(500, 0);
    let mut c = campaign();
    let (mut camp, mut cre, mut tre) = (RENT + 5, 0, 0);
    assert_eq!(claim_fund_raised(&cfg, &mut c, program(), addr(), key(9), 2_000, &mut camp, &mut cre, &mut tre, RENT).err(), Some(Error::ConstraintSeeds));
    let mut stored_other = campaign();
    stored_other.creator = key(9);
    assert_eq!(claim_fund_raised(&cfg, &mut stored_other, program(), addr(), creator(), 2_000, &mut camp, &mut cre, &mut tre, RENT).err(), Some(Error::ConstraintHasOne));
    assert_eq!(claim_fund_raised(&cfg, &mut c, program(), addr(), creator(), 1_000, &mut camp, &mut cre, &mut tre, RENT).err(), Some(Error::Custom(CustomError::CampaignDepositDeadlineNotPassed)));
    c.mint = mint();
    assert_eq!(claim_fund_raised(&cfg, &mut c, program(), addr(), creator(), 2_000, &mut camp, &mut cre, &mut tre, RENT).err(), Some(Error::Custom(CustomError::TokenAlreadyCreated)));
    assert!(!c.is_claimed_fund);
    assert_eq!((camp, cre, tre), (RENT + 5, 0, 0));
    let mut c = campaign();
    let mut cre = u64::MAX;
    assert_eq!(claim_fund_raised(&cfg, &mut c, program(), addr(), creator(), 2_000, &mut camp, &mut cre, &mut tre, RENT).err(), Some(Error::ArithmeticOverflow));
}

#[test]
fn create_campaign_token_flow() {
    let cfg = config(1_000, 0);
    let mut c = campaign();
    let lamports = RENT + 10_000_000_000;
    let launch = create_campaign_token(&cfg, &c, program(), addr(), operator(), creator(), lamports, RENT).unwrap();
    let deposited = launch.deposited_balance;
    assert_eq!(deposited, 10_000_000_000);
    assert_eq!((launch.name.as_str(), launch.symbol.as_str()), ("Save the reef", "REEF"));
    assert_eq!(launch.uri, "https://example.org/reef.json");
    assert!(launch.creator == creator());
    let (mut camp, mut tre, mut op) = (lamports, 0, 7);
    let ev = complete_create_campaign_token(&cfg, &mut c, mint(), deposited, 100, 42, &mut camp, &mut tre, &mut op).unwrap();
    assert!(ev.mint == mint());
    assert_eq!(ev.bought_amount, 0);
    assert_eq!(ev.timestamp, 42);
    assert!(c.mint == mint());
    // 9 SOL after the 10% fee, 1% slippage
    assert_eq!(c.total_token_bought, 245_139_230_769_231);
    assert_eq!(camp, RENT);
    assert_eq!(tre, 1_000_000_000);
    assert_eq!(op, 9_000_000_007);
    // the token exists now: no second token, no fund claim
    assert_eq!(create_campaign_token(&cfg, &c, program(), addr(), operator(), creator(), lamports, RENT).err(), Some(Error::Custom(CustomError::TokenAlreadyCreated)));
    let (mut a, mut b, mut d) = (camp, 0, 0);
    assert_eq!(claim_fund_raised(&cfg, &mut c, program(), addr(), creator(), 5_000, &mut a, &mut b, &mut d, RENT).err(), Some(Error::Custom(CustomError::TokenAlreadyCreated)));
}

#[test]
fn create_campaign_token_errors() {
    let cfg = config(1_000, 0);
    let mut c = campaign();
    let lamports = RENT + 10_000_000_000;
    assert_eq!(create_campaign_token(&cfg, &c, program(), addr(), key(9), creator(), lamports, RENT).err(), Some(Error::ConstraintHasOne));
    assert_eq!(create_campaign_token(&cfg, &c, program(), addr(), operator(), key(9), lamports, RENT).err(), Some(Error::ConstraintSeeds));
    assert_eq!(create_campaign_token(&cfg, &c, program(), key(11), operator(), creator(), lamports, RENT).err(), Some(Error::ConstraintSeeds));
    assert_eq!(create_campaign_token(&cfg, &c, program(), addr(), operator(), creator(), lamports - 1, RENT).err(), Some(Error::Custom(CustomError::CampaignDonationGoalNotReached)));
    c.is_claimed_fund = true;
    assert_eq!(create_campaign_token(&cfg, &c, program(), addr(), operator(), creator(), lamports, RENT).err(), Some(Error::Custom(CustomError::CampaignAlreadyClaimed)));
}

#[test]
fn update_and_claim_campaign_tokens() {
    let cfg = config(0, 200);
    let mut c = campaign();
    c.mint = mint();
    c.total_token_bought = 1_000;
    let ev = update_claimable_token_amount(&cfg, &mut c, program(), addr(), operator(), creator(), mint(), 9, 600).unwrap();
    assert_eq!(ev.new_amount, 600);
    assert_eq!(c.claimable_amount, 600);
    let claim = claim_campaign_token(&cfg, &mut c, program(), addr(), creator(), mint(), 10).unwrap();
    assert_eq!(claim.event.claimed_amount, 600);
    assert_eq!(claim.treasury_amount, 12);
    assert_eq!(claim.creator_amount, 588);
    let seeds: Vec<&[u8]> = claim.signer_seeds.iter().map(|v| v.as_slice()).collect();
    assert_eq!(derived(&seeds[..3]).0, addr());
    assert_eq!(c.claimable_amount, 0);
    assert_eq!(c.total_claimed, 600);
    assert_eq!(
        update_claimable_token_amount(&cfg, &mut c, program(), addr(), operator(), creator(), mint(), 11, 401).err(),
        Some(Error::Custom(CustomError::ExceedsTotalTokenBought))
    );
    assert_eq!(update_claimable_token_amount(&cfg, &mut c, program(), addr(), key(9), creator(), mint(), 11, 1).err(), Some(Error::ConstraintHasOne));
    assert_eq!(update_claimable_token_amount(&cfg, &mut c, program(), addr(), operator(), creator(), key(9), 11, 1).err(), Some(Error::ConstraintHasOne));
    assert_eq!(c.claimable_amount, 0);
}

#[test]
fn claim_campaign_token_rejects_over_claim() {
    let cfg = config(0, 200);
    let mut c = campaign();
    c.mint = mint();
    c.total_token_bought = 100;
    c.total_claimed = 60;
    c.claimable_amount = 41;
    assert_eq!(claim_campaign_token(&cfg, &mut c, program(), addr(), creator(), mint(), 0).err(), Some(Error::Custom(CustomError::ExceedsTotalTokenBought)));
    assert_eq!(claim_campaign_token(&cfg, &mut c, program(), addr(), key(8), mint(), 0).err(), Some(Error::ConstraintSeeds));
    assert_eq!(claim_campaign_token(&cfg, &mut c, program(), addr(), creator(), key(8), 0).err(), Some(Error::ConstraintHasOne));
    assert_eq!(c.total_claimed, 60);
}

#[test]
fn sell_campaign_token_flow() {
    let mut c = campaign();
    c.mint = mint();
    assert_eq!(sell_campaign_token(&mut c, program(), addr(), creator(), mint(), 2_000, 5).err(), Some(Error::Custom(CustomError::CampaignTradeDeadlineNotPassed)));
    assert_eq!(sell_campaign_token(&mut c, program(), addr(), creator(), key(8), 2_001, 5).err(), Some(Error::ConstraintHasOne));
    let sale = sell_campaign_token(&mut c, program(), addr(), creator(), mint(), 2_001, 5).unwrap();
    assert_eq!(sale.amount, 5);
    let seeds: Vec<&[u8]> = sale.signer_seeds.iter().map(|v| v.as_slice()).collect();
    let bump = [c.bump];
    let owner = creator().bytes;
    let index = 0u64.to_le_bytes();
    let expected: Vec<&[u8]> = vec![b"campaign", &owner, &index, &bump];
    assert_eq!(seeds, expected);
    assert!(c.is_sell_all);
    assert_eq!(sell_campaign_token(&mut c, program(), addr(), creator(), mint(), 2_002, 5).err(), Some(Error::Custom(CustomError::CampaignAlreadySoldAllToken)));
    let (mut camp, mut cre) = (RENT + 3_000, 4);
    let ev = complete_sell_campaign_token(&c, mint(), 2_003, &mut camp, &mut cre, RENT).unwrap();
    assert_eq!(ev.timestamp, 2_003);
    assert!(ev.creator == creator());
    assert_eq!((camp, cre), (RENT, 3_004));
}

#[test]
fn admin_updates() {
    let mut cfg = config(0, 0);
    assert_eq!(update_admin(&mut cfg, key(9), key(5)), Err(Error::ConstraintHasOne));
    assert_eq!(update_admin(&mut cfg, admin(), admin()), Err(Error::Custom(CustomError::AdminIsSame)));
    assert_eq!(update_operator(&mut cfg, admin(), operator()), Err(Error::Custom(CustomError::OperatorIsSame)));
    assert_eq!(update_fee(&mut cfg, admin(), 10_001, 0), Err(Error::Custom(CustomError::InvalidProtocolFeePercentage)));
    assert_eq!(update_fee(&mut cfg, admin(), 10_000, 10_001), Err(Error::Custom(CustomError::InvalidTipPercentage)));
    assert_eq!(update_fee(&mut cfg, admin(), 300, 10_000), Ok(()));
    assert_eq!((cfg.protocol_fee_percentage, cfg.tip_percentage), (300, 10_000));
    assert_eq!(update_operator(&mut cfg, admin(), key(6)), Ok(()));
    assert!(cfg.operator == key(6));
    assert_eq!(update_admin(&mut cfg, admin(), key(5)), Ok(()));
    assert!(cfg.admin == key(5));
    assert_eq!(update_fee(&mut cfg, admin(), 1, 1), Err(Error::ConstraintHasOne));
}

#[test]
fn withdraw_fees() {
    let cfg = config(0, 0);
    let (mut tre, mut adm) = (RENT + 1_000, 0);
    assert_eq!(withdraw_sol_fee(&cfg, key(9), 10, &mut tre, &mut adm, RENT), Err(Error::ConstraintHasOne));
    assert_eq!(withdraw_sol_fee(&cfg, admin(), 400, &mut tre, &mut adm, RENT), Ok(()));
    assert_eq!((tre, adm), (RENT + 600, 400));
    assert_eq!(withdraw_sol_fee(&cfg, admin(), 5_000, &mut tre, &mut adm, RENT), Ok(()));
    assert_eq!((tre, adm), (RENT, 1_000));
    assert_eq!(withdraw_campaign_token(&cfg, admin(), 50, 30), Ok(30));
    assert_eq!(withdraw_campaign_token(&cfg, admin(), 20, 30), Ok(20));
    assert_eq!(withdraw_campaign_token(&cfg, key(9), 20, 30), Err(Error::ConstraintHasOne));
}

#[test]
fn campaign_indices_are_never_reused() {
    let cfg = config(0, 0);
    let mut rec = Creator { bump: creator_address(&creator()).1, creator: creator(), last_campaign_index: 40 };
    let mut seen = Vec::new();
    for t in 0..5i64 {
        let mut c = campaign();
        init_campaign(&cfg, &mut rec, &mut c, program(), creator_address(&creator()).0, creator(), t, 1, "n".to_string(), "s".to_string(), "u".to_string(), 0, 0, 1).unwrap();
        assert!(!seen.contains(&c.index));
        seen.push(c.index);
    }
    assert_eq!(seen, vec![40, 41, 42, 43, 44]);
    assert_eq!(rec.last_campaign_index, 45);
}

#[test]
fn claim_campaign_token_keeps_claimed_plus_claimable() {
    let cfg = config(0, 1_000);
    let mut c = campaign();
    c.mint = mint();
    c.total_token_bought = 500;
    c.total_claimed = 100;
    c.claimable_amount = 250;
    let claim = claim_campaign_token(&cfg, &mut c, program(), addr(), creator(), mint(), 1).unwrap();
    assert_eq!(c.total_claimed + c.claimable_amount, 350);
    assert!(c.total_claimed <= c.total_token_bought);
    assert_eq!((claim.creator_amount, claim.treasury_amount), (225, 25));
}
