//! When the campaign instructions succeed, stated directly over their inputs.
use vstd::prelude::*;

use crate::errors::{CustomError, Error};
use crate::instructions::claim_campaign_token::claim_campaign_token_check;
use crate::instructions::claim_fund_raised::claim_fund_raised_check;
use crate::instructions::create_campaign_token::create_campaign_token_check;
use crate::instructions::donate_fund::donate_fund_check;
use crate::instructions::sell_campaign_token::sell_campaign_token_check;
use crate::pda::{campaign_derived_at, campaign_seeds, derives};
use crate::pubkey::Pubkey;
use crate::state::{Campaign, Config};

verus! {

/// The token launch spends every lamport the campaign holds above its rent-exempt
/// minimum, however far donations overshot the goal: the goal only decides whether
/// the launch may happen.
pub proof fn lemma_launch_spends_all_deposits(
    config: Config,
    campaign: Campaign,
    program_id: Pubkey,
    campaign_address: Pubkey,
    operator: Pubkey,
    creator: Pubkey,
    campaign_lamports: u64,
    minimum_rent_exemption: u64,
)
    requires
        minimum_rent_exemption <= campaign_lamports,
    ensures
        create_campaign_token_check(
            config,
            campaign,
            program_id,
            campaign_address,
            operator,
            creator,
            campaign_lamports,
            minimum_rent_exemption,
        ) is Ok ==> create_campaign_token_check(
            config,
            campaign,
            program_id,
            campaign_address,
            operator,
            creator,
            campaign_lamports,
            minimum_rent_exemption,
        )->Ok_0 == campaign_lamports - minimum_rent_exemption,
        config.operator == operator && campaign_derived_at(campaign, creator, program_id, campaign_address)
            && campaign.creator == creator && campaign.mint.is_unset() && !campaign.is_claimed_fund
            && campaign_lamports - minimum_rent_exemption >= campaign.donation_goal
            ==> create_campaign_token_check(
            config,
            campaign,
            program_id,
            campaign_address,
            operator,
            creator,
            campaign_lamports,
            minimum_rent_exemption,
        ) == Ok::<u64, Error>((campaign_lamports - minimum_rent_exemption) as u64),
{
}

/// A campaign without a deposit deadline (zero or less) can have its funds claimed
/// by its creator at any time, as long as no token exists and nothing was claimed;
/// with a deadline, only after it.
pub proof fn lemma_claim_fund_deadline(
    campaign: Campaign,
    program_id: Pubkey,
    campaign_address: Pubkey,
    creator: Pubkey,
    now: i64,
)
    requires
        campaign_derived_at(campaign, creator, program_id, campaign_address),
        campaign.creator == creator,
        campaign.mint.is_unset(),
        !campaign.is_claimed_fund,
    ensures
        campaign.deposit_deadline <= 0 ==> claim_fund_raised_check(
            campaign,
            program_id,
            campaign_address,
            creator,
            now,
        ) is Ok,
        claim_fund_raised_check(campaign, program_id, campaign_address, creator, now) is Ok <==> (
        campaign.deposit_deadline <= 0 || now > campaign.deposit_deadline),
{
}

/// The creator may claim every bought token: a claim passes exactly when the tokens
/// already claimed plus the claimable ones do not exceed the tokens bought, and is
/// otherwise refused as exceeding them.
pub proof fn lemma_claim_tokens_up_to_purchase(
    campaign: Campaign,
    program_id: Pubkey,
    campaign_address: Pubkey,
    creator: Pubkey,
    mint: Pubkey,
)
    requires
        campaign_derived_at(campaign, creator, program_id, campaign_address),
        campaign.creator == creator,
        campaign.mint == mint,
    ensures
        campaign.total_claimed + campaign.claimable_amount <= campaign.total_token_bought
            ==> claim_campaign_token_check(campaign, program_id, campaign_address, creator, mint) is Ok,
        campaign.total_claimed + campaign.claimable_amount > campaign.total_token_bought
            ==> claim_campaign_token_check(campaign, program_id, campaign_address, creator, mint)
            == Err::<(), Error>(Error::Custom(CustomError::ExceedsTotalTokenBought)),
{
}

/// A campaign without a trade deadline (zero or less) can sell its tokens at any
/// time; with one, only after it; and only while not yet sold.
pub proof fn lemma_sell_deadline(
    campaign: Campaign,
    program_id: Pubkey,
    campaign_address: Pubkey,
    creator: Pubkey,
    mint: Pubkey,
    now: i64,
)
    requires
        campaign_derived_at(campaign, creator, program_id, campaign_address),
        campaign.creator == creator,
        campaign.mint == mint,
        !campaign.is_sell_all,
    ensures
        campaign.trade_deadline <= 0 ==> sell_campaign_token_check(
            campaign,
            program_id,
            campaign_address,
            creator,
            mint,
            now,
        ) is Ok,
        sell_campaign_token_check(campaign, program_id, campaign_address, creator, mint, now) is Ok
            <==> (campaign.trade_deadline <= 0 || now > campaign.trade_deadline),
{
}

/// Donations stop once the lamports above the rent-exempt minimum reach the goal,
/// whether or not the campaign has a deposit deadline; below the goal they are
/// accepted until the deadline, or always when there is none.
pub proof fn lemma_donations_stop_at_goal(
    campaign: Campaign,
    program_id: Pubkey,
    campaign_address: Pubkey,
    creator: Pubkey,
    campaign_index: u64,
    now: i64,
    campaign_lamports: u64,
    minimum_rent_exemption: u64,
)
    requires
        derives(campaign_seeds(creator, campaign_index, campaign.bump), program_id, campaign_address),
        campaign.creator == creator,
        campaign.index == campaign_index,
    ensures
        campaign_lamports - minimum_rent_exemption >= campaign.donation_goal ==> donate_fund_check(
            campaign,
            program_id,
            campaign_address,
            creator,
            campaign_index,
            now,
            campaign_lamports,
            minimum_rent_exemption,
        ) == Err::<(), Error>(Error::Custom(CustomError::CampaignReachedGoal)),
        campaign_lamports - minimum_rent_exemption < campaign.donation_goal ==> (donate_fund_check(
            campaign,
            program_id,
            campaign_address,
            creator,
            campaign_index,
            now,
            campaign_lamports,
            minimum_rent_exemption,
        ) is Ok <==> (campaign.deposit_deadline <= 0 || now < campaign.deposit_deadline)),
{
}

} // verus!
