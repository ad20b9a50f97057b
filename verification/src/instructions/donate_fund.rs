use vstd::prelude::*;

use crate::errors::{CustomError, Error};
use crate::events::DonatedFundEvent;
use crate::pda::{campaign_seeds, campaign_signer_seeds, derives, is_derived_address};
use crate::pubkey::Pubkey;
use crate::state::Campaign;

verus! {

/// Whether a donation is accepted, in the order the checks are made: the campaign
/// account must sit at the address derived from `creator`, `campaign_index` and the
/// campaign's bump; the campaign must belong to `creator` and have index `campaign_index`, the lamports above the
/// rent-exempt minimum must still be below the donation goal, and the deposit
/// deadline (if any) must not have been reached.
pub open spec fn donate_fund_check(
    campaign: Campaign,
    program_id: Pubkey,
    campaign_address: Pubkey,
    creator: Pubkey,
    campaign_index: u64,
    now: i64,
    campaign_lamports: u64,
    minimum_rent_exemption: u64,
) -> Result<(), Error> {
    if !derives(campaign_seeds(creator, campaign_index, campaign.bump), program_id, campaign_address) {
        Err(Error::ConstraintSeeds)
    } else if campaign.creator != creator {
        Err(Error::Custom(CustomError::CampaignCreatorNotMatch))
    } else if campaign.index != campaign_index {
        Err(Error::Custom(CustomError::CampaignIndexNotMatch))
    } else if campaign_lamports - minimum_rent_exemption >= campaign.donation_goal {
        Err(Error::Custom(CustomError::CampaignReachedGoal))
    } else if campaign.deposit_deadline > 0 && now >= campaign.deposit_deadline {
        Err(Error::Custom(CustomError::CampaignDepositDeadlinePassed))
    } else {
        Ok(())
    }
}

/// Decides whether `amount` lamports may be donated to the campaign; on success the
/// donor's `amount` lamports are then transferred to the campaign account.
pub fn donate_fund(
    campaign_account: &Campaign,
    program_id: Pubkey,
    campaign_address: Pubkey,
    creator: Pubkey,
    campaign_index: u64,
    amount: u64,
    now: i64,
    campaign_lamports: u64,
    minimum_rent_exemption: u64,
) -> (r: Result<DonatedFundEvent, Error>)
    requires
        derives(campaign_seeds(creator, campaign_index, campaign_account.bump), program_id, campaign_address)
            && campaign_account.creator == creator && campaign_account.index == campaign_index
            ==> minimum_rent_exemption <= campaign_lamports,
    ensures
        donate_fund_check(
            *campaign_account,
            program_id,
            campaign_address,
            creator,
            campaign_index,
            now,
            campaign_lamports,
            minimum_rent_exemption,
        ) is Err ==> r == Err::<DonatedFundEvent, Error>(
            donate_fund_check(
                *campaign_account,
                program_id,
                campaign_address,
                creator,
                campaign_index,
                now,
                campaign_lamports,
                minimum_rent_exemption,
            )->Err_0,
        ),
        donate_fund_check(
            *campaign_account,
            program_id,
            campaign_address,
            creator,
            campaign_index,
            now,
            campaign_lamports,
            minimum_rent_exemption,
        ) is Ok ==> r == Ok::<DonatedFundEvent, Error>(
            DonatedFundEvent { campaign_index, donated_amount: amount, timestamp: now },
        ),
        derives(campaign_seeds(creator, campaign_index, campaign_account.bump), program_id, campaign_address)
            && campaign_account.creator == creator && campaign_account.index == campaign_index
            && campaign_lamports - minimum_rent_exemption >= campaign_account.donation_goal ==> r
            == Err::<DonatedFundEvent, Error>(Error::Custom(CustomError::CampaignReachedGoal)),
        r is Ok ==> campaign_lamports - minimum_rent_exemption < campaign_account.donation_goal,
        r is Ok ==> campaign_account.deposit_deadline <= 0 || now < campaign_account.deposit_deadline,
        r is Ok ==> r->Ok_0.donated_amount == amount && r->Ok_0.campaign_index == campaign_index,
        derives(campaign_seeds(creator, campaign_index, campaign_account.bump), program_id, campaign_address)
            && campaign_account.creator == creator && campaign_account.index == campaign_index
            && campaign_lamports - minimum_rent_exemption < campaign_account.donation_goal
            && (campaign_account.deposit_deadline <= 0 || now < campaign_account.deposit_deadline) ==> r is Ok,
{
    let seeds = campaign_signer_seeds(&creator, campaign_index, campaign_account.bump);
    if !is_derived_address(&seeds, &program_id, &campaign_address) {
        return Err(Error::ConstraintSeeds);
    }
    if campaign_account.creator != creator {
        return Err(Error::Custom(CustomError::CampaignCreatorNotMatch));
    }
    if campaign_account.index != campaign_index {
        return Err(Error::Custom(CustomError::CampaignIndexNotMatch));
    }
    let deposited_balance = campaign_lamports - minimum_rent_exemption;
    if !(deposited_balance < campaign_account.donation_goal) {
        return Err(Error::Custom(CustomError::CampaignReachedGoal));
    }
    if campaign_account.deposit_deadline > 0 {
        if !(now < campaign_account.deposit_deadline) {
            return Err(Error::Custom(CustomError::CampaignDepositDeadlinePassed));
        }
    }
    Ok(DonatedFundEvent { campaign_index, donated_amount: amount, timestamp: now })
}

} // verus!
