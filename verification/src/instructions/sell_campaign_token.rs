use vstd::prelude::*;

use crate::errors::{CustomError, Error};
use crate::events::SoldCampaignTokenEvent;
use crate::pda::{campaign_derived_at, campaign_seeds, campaign_signer_seeds, is_campaign_address};
use crate::pubkey::Pubkey;
use crate::state::Campaign;
use crate::utils::helper::{withdraw_sol, withdraw_sol_outcome};

verus! {

/// What the sale hands to the pump.fun program.
#[derive(Debug)]
pub struct TokenSale {
    /// Tokens to sell: the campaign's whole token balance.
    pub amount: u64,
    /// The seeds with which the campaign account signs the sale.
    pub signer_seeds: Vec<Vec<u8>>,
}

/// The checks made before the sale, in the order they are made: the campaign
/// account must sit at the address derived from the signer's key and the campaign's
/// index and bump, the signer must be the campaign's creator, the mint account the campaign's mint, the trade deadline
/// (if any) must have passed and the tokens must not have been sold already.
pub open spec fn sell_campaign_token_check(
    campaign: Campaign,
    program_id: Pubkey,
    campaign_address: Pubkey,
    creator: Pubkey,
    mint: Pubkey,
    now: i64,
) -> Result<(), Error> {
    if !campaign_derived_at(campaign, creator, program_id, campaign_address) {
        Err(Error::ConstraintSeeds)
    } else if campaign.creator != creator {
        Err(Error::ConstraintHasOne)
    } else if campaign.mint != mint {
        Err(Error::ConstraintHasOne)
    } else if campaign.trade_deadline > 0 && now <= campaign.trade_deadline {
        Err(Error::Custom(CustomError::CampaignTradeDeadlineNotPassed))
    } else if campaign.is_sell_all {
        Err(Error::Custom(CustomError::CampaignAlreadySoldAllToken))
    } else {
        Ok(())
    }
}

/// Decides whether the creator may sell all of the campaign's tokens (the sale
/// itself goes through the pump.fun program in between this step and
/// `complete_sell_campaign_token`); on success marks the campaign as sold out and
/// gives the number of tokens to sell, which is the campaign's whole token balance,
/// with the seeds the campaign signs the sale with.
pub fn sell_campaign_token(
    campaign_account: &mut Campaign,
    program_id: Pubkey,
    campaign_address: Pubkey,
    creator: Pubkey,
    mint: Pubkey,
    now: i64,
    campaign_token_balance: u64,
) -> (r: Result<TokenSale, Error>)
    ensures
        sell_campaign_token_check(*old(campaign_account), program_id, campaign_address, creator, mint, now) is Err ==> {
            &&& r == Err::<TokenSale, Error>(
                sell_campaign_token_check(*old(campaign_account), program_id, campaign_address, creator, mint, now)->Err_0,
            )
            &&& *final(campaign_account) == *old(campaign_account)
        },
        sell_campaign_token_check(*old(campaign_account), program_id, campaign_address, creator, mint, now) is Ok ==> {
            &&& r is Ok
            &&& r->Ok_0.amount == campaign_token_balance
            &&& r->Ok_0.signer_seeds.deep_view() == campaign_seeds(
                old(campaign_account).creator,
                old(campaign_account).index,
                old(campaign_account).bump,
            )
            &&& *final(campaign_account) == (Campaign { is_sell_all: true, ..*old(campaign_account) })
        },
        old(campaign_account).claims_within_purchase() ==> final(campaign_account).claims_within_purchase(),
        r == Err::<TokenSale, Error>(Error::Custom(CustomError::CampaignTradeDeadlineNotPassed))
            ==> old(campaign_account).trade_deadline > 0 && now <= old(campaign_account).trade_deadline,
        r is Ok ==> old(campaign_account).trade_deadline <= 0 || now > old(campaign_account).trade_deadline,
        r is Ok ==> !old(campaign_account).is_sell_all && final(campaign_account).is_sell_all,
        campaign_derived_at(*old(campaign_account), creator, program_id, campaign_address)
            && old(campaign_account).creator == creator && old(campaign_account).mint == mint
            && (old(campaign_account).trade_deadline <= 0 || now > old(campaign_account).trade_deadline)
            && !old(campaign_account).is_sell_all ==> {
            &&& r is Ok
            &&& r->Ok_0.amount == campaign_token_balance
            &&& final(campaign_account).is_sell_all
        },
{
    if !is_campaign_address(campaign_account, &creator, &program_id, &campaign_address) {
        return Err(Error::ConstraintSeeds);
    }
    if campaign_account.creator != creator {
        return Err(Error::ConstraintHasOne);
    }
    if campaign_account.mint != mint {
        return Err(Error::ConstraintHasOne);
    }
    if campaign_account.trade_deadline > 0 {
        if !(now > campaign_account.trade_deadline) {
            return Err(Error::Custom(CustomError::CampaignTradeDeadlineNotPassed));
        }
    }
    if campaign_account.is_sell_all {
        return Err(Error::Custom(CustomError::CampaignAlreadySoldAllToken));
    }
    let _ = campaign_account.sell_all_token();
    Ok(
        TokenSale {
            amount: campaign_token_balance,
            signer_seeds: campaign_signer_seeds(
                &campaign_account.creator,
                campaign_account.index,
                campaign_account.bump,
            ),
        },
    )
}

/// After the sale: every lamport of the campaign above the rent-exempt minimum goes
/// to the creator.
pub fn complete_sell_campaign_token(
    campaign_account: &Campaign,
    mint: Pubkey,
    now: i64,
    campaign_lamports: &mut u64,
    creator_lamports: &mut u64,
    minimum_rent_exemption: u64,
) -> (r: Result<SoldCampaignTokenEvent, Error>)
    requires
        minimum_rent_exemption <= *old(campaign_lamports),
    ensures
        ({
            let available = (*old(campaign_lamports) - minimum_rent_exemption) as u64;
            let (c, to_creator, ok) = withdraw_sol_outcome(*old(campaign_lamports), *old(creator_lamports), available);
            &&& *final(campaign_lamports) == c
            &&& *final(creator_lamports) == to_creator
            &&& !ok ==> r == Err::<SoldCampaignTokenEvent, Error>(Error::ArithmeticOverflow)
            &&& ok ==> r == Ok::<SoldCampaignTokenEvent, Error>(
                SoldCampaignTokenEvent {
                    creator: campaign_account.creator,
                    campaign_index: campaign_account.index,
                    mint,
                    timestamp: now,
                },
            )
        }),
        *final(campaign_lamports) == minimum_rent_exemption,
        r is Ok ==> *final(campaign_lamports) + *final(creator_lamports) == *old(campaign_lamports)
            + *old(creator_lamports),
{
    let available_balance = *campaign_lamports - minimum_rent_exemption;
    withdraw_sol(campaign_lamports, creator_lamports, available_balance)?;
    Ok(
        SoldCampaignTokenEvent {
            creator: campaign_account.creator,
            campaign_index: campaign_account.index,
            mint,
            timestamp: now,
        },
    )
}

} // verus!
