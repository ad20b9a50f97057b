use vstd::prelude::*;

use crate::pubkey::Pubkey;

verus! {

/// Logged when a campaign is opened.
#[derive(Debug)]
pub struct CreatedCampaignEvent {
    pub creator: Pubkey,
    pub campaign_index: u64,
    pub name: String,
    pub symbol: String,
    pub uri: String,
    pub deposit_deadline: i64,
    pub trade_deadline: i64,
    pub donation_goal: u64,
    pub timestamp: i64,
}

/// Logged when a creator claims the raised funds.
#[derive(Clone, Copy, Debug)]
pub struct ClaimedFundEvent {
    pub creator: Pubkey,
    pub campaign_index: u64,
    pub claimed_amount: u64,
    pub timestamp: i64,
}

/// Logged when a donation is accepted.
#[derive(Clone, Copy, Debug)]
pub struct DonatedFundEvent {
    pub campaign_index: u64,
    pub donated_amount: u64,
    pub timestamp: i64,
}

/// Logged when a campaign's token is created.
#[derive(Clone, Copy, Debug)]
pub struct CreatedCampaignTokenEvent {
    pub creator: Pubkey,
    pub campaign_index: u64,
    pub mint: Pubkey,
    pub bought_amount: u64,
    pub timestamp: i64,
}

/// Logged when a creator claims campaign tokens.
#[derive(Clone, Copy, Debug)]
pub struct ClaimedTokenEvent {
    pub creator: Pubkey,
    pub campaign_index: u64,
    pub claimed_amount: u64,
    pub mint: Pubkey,
    pub timestamp: i64,
}

/// Logged when a campaign's tokens are sold.
#[derive(Clone, Copy, Debug)]
pub struct SoldCampaignTokenEvent {
    pub creator: Pubkey,
    pub campaign_index: u64,
    pub mint: Pubkey,
    pub timestamp: i64,
}

/// Logged when the operator adds to a campaign's claimable tokens.
#[derive(Clone, Copy, Debug)]
pub struct ClaimableTokenAmountUpdatedEvent {
    pub creator: Pubkey,
    pub campaign_index: u64,
    pub mint: Pubkey,
    pub new_amount: u64,
    pub timestamp: i64,
}

} // verus!
