//! How the instructions constrain one another over a campaign's life.
use vstd::prelude::*;

use crate::errors::{CustomError, Error};
use crate::instructions::claim_fund_raised::claim_fund_raised_check;
use crate::instructions::create_campaign_token::create_campaign_token_check;
use crate::instructions::init_campaign::campaign_opened;
use crate::instructions::sell_campaign_token::sell_campaign_token_check;
use crate::pubkey::Pubkey;
use crate::state::{Campaign, Config, Creator};

verus! {

/// The raised funds can be claimed at most once: once a claim has gone through,
/// every later claim is refused, whoever signs it and whichever account is given,
/// and the creator's own claim at the same time or later is refused as already
/// claimed.
pub proof fn lemma_claim_fund_at_most_once(
    campaign: Campaign,
    program_id: Pubkey,
    campaign_address: Pubkey,
    creator: Pubkey,
    now: i64,
    other_address: Pubkey,
    other_signer: Pubkey,
    later: i64,
)
    requires
        claim_fund_raised_check(campaign, program_id, campaign_address, creator, now) is Ok,
    ensures
        claim_fund_raised_check(
            Campaign { is_claimed_fund: true, ..campaign },
            program_id,
            other_address,
            other_signer,
            later,
        ) is Err,
        now <= later ==> claim_fund_raised_check(
            Campaign { is_claimed_fund: true, ..campaign },
            program_id,
            campaign_address,
            creator,
            later,
        ) == Err::<(), Error>(Error::Custom(CustomError::CampaignAlreadyClaimed)),
{
}

/// Claiming the raised funds and creating the campaign token exclude each other:
/// after the funds are claimed no token can be created.
pub proof fn lemma_claimed_campaign_gets_no_token(
    config: Config,
    campaign: Campaign,
    program_id: Pubkey,
    campaign_address: Pubkey,
    operator: Pubkey,
    creator: Pubkey,
    campaign_lamports: u64,
    minimum_rent_exemption: u64,
)
    requires
        campaign.is_claimed_fund,
    ensures
        create_campaign_token_check(
            config,
            campaign,
            program_id,
            campaign_address,
            operator,
            creator,
            campaign_lamports,
            minimum_rent_exemption,
        ) is Err,
{
}

/// Once a campaign token exists (its mint is recorded and is not the all-zero
/// address), the raised funds can no longer be claimed and no second token can be
/// created.
pub proof fn lemma_token_campaign_is_final(
    config: Config,
    campaign: Campaign,
    mint: Pubkey,
    program_id: Pubkey,
    campaign_address: Pubkey,
    operator: Pubkey,
    creator: Pubkey,
    now: i64,
    campaign_lamports: u64,
    minimum_rent_exemption: u64,
)
    requires
        !mint.is_unset(),
    ensures
        claim_fund_raised_check(
            Campaign { mint: mint, ..campaign },
            program_id,
            campaign_address,
            creator,
            now,
        ) is Err,
        create_campaign_token_check(
            config,
            Campaign { mint: mint, ..campaign },
            program_id,
            campaign_address,
            operator,
            creator,
            campaign_lamports,
            minimum_rent_exemption,
        ) is Err,
{
}

/// The campaign's tokens can be sold at most once: after a sale every later sale is
/// refused, whoever signs it and whichever accounts are given, and the creator's own
/// sale at the same time or later is refused as already sold.
pub proof fn lemma_sell_at_most_once(
    campaign: Campaign,
    program_id: Pubkey,
    campaign_address: Pubkey,
    creator: Pubkey,
    mint: Pubkey,
    now: i64,
    other_address: Pubkey,
    other_signer: Pubkey,
    other_mint: Pubkey,
    later: i64,
)
    requires
        sell_campaign_token_check(campaign, program_id, campaign_address, creator, mint, now) is Ok,
    ensures
        sell_campaign_token_check(
            Campaign { is_sell_all: true, ..campaign },
            program_id,
            other_address,
            other_signer,
            other_mint,
            later,
        ) is Err,
        now <= later ==> sell_campaign_token_check(
            Campaign { is_sell_all: true, ..campaign },
            program_id,
            campaign_address,
            creator,
            mint,
            later,
        ) == Err::<(), Error>(Error::Custom(CustomError::CampaignAlreadySoldAllToken)),
{
}

/// A campaign index is never reused: when a creator opens `campaigns.len()`
/// campaigns one after another, starting from a record whose next index is `k`, the
/// campaigns get the indices `k, k + 1, ...` in order, pairwise distinct, and the
/// record ends at `k + campaigns.len()`.
pub proof fn lemma_campaign_indices_never_reused(records: Seq<Creator>, campaigns: Seq<Campaign>)
    requires
        records.len() == campaigns.len() + 1,
        records[0].last_campaign_index + campaigns.len() <= u64::MAX,
        forall|i: int|
            0 <= i < campaigns.len() ==> campaign_opened(
                #[trigger] records[i],
                records[i + 1],
                campaigns[i],
            ),
    ensures
        forall|i: int|
            0 <= i < campaigns.len() ==> #[trigger] campaigns[i].index == records[0].last_campaign_index + i,
        forall|i: int, j: int|
            0 <= i < j < campaigns.len() ==> #[trigger] campaigns[i].index < #[trigger] campaigns[j].index,
        records[campaigns.len() as int].last_campaign_index == records[0].last_campaign_index
            + campaigns.len(),
    decreases campaigns.len(),
{
    if campaigns.len() > 0 {
        let n = campaigns.len() - 1;
        let rs = records.take(n + 1);
        let cs = campaigns.take(n);
        assert forall|i: int| 0 <= i < cs.len() implies campaign_opened(
            #[trigger] rs[i],
            rs[i + 1],
            cs[i],
        ) by {
            assert(campaign_opened(records[i], records[i + 1], campaigns[i]));
        }
        lemma_campaign_indices_never_reused(rs, cs);
        assert(campaign_opened(records[n], records[n + 1], campaigns[n]));
        assert forall|i: int| 0 <= i < campaigns.len() implies #[trigger] campaigns[i].index
            == records[0].last_campaign_index + i by {
            if i < n {
                assert(cs[i] == campaigns[i]);
            }
        }
    }
}

} // verus!
