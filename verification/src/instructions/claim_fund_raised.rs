use vstd::prelude::*;

use crate::errors::{CustomError, Error};
use crate::events::ClaimedFundEvent;
use crate::pda::{campaign_derived_at, is_campaign_address};
use crate::pubkey::Pubkey;
use crate::state::{Campaign, Config};
use crate::utils::helper::{percentage, percentage_defined, percentage_of, withdraw_sol, withdraw_sol_outcome};

verus! {

/// The checks made before any state changes, in the order they are made: the
/// campaign account must sit at the address derived from the signer's key and the
/// campaign's index and bump, the signer must be the campaign's creator, the deposit deadline (if any) must have passed,
/// no token may have been created and the funds must not have been claimed yet.
pub open spec fn claim_fund_raised_check(
    campaign: Campaign,
    program_id: Pubkey,
    campaign_address: Pubkey,
    creator: Pubkey,
    now: i64,
) -> Result<(), Error> {
    if !campaign_derived_at(campaign, creator, program_id, campaign_address) {
        Err(Error::ConstraintSeeds)
    } else if campaign.creator != creator {
        Err(Error::ConstraintHasOne)
    } else if campaign.deposit_deadline > 0 && now <= campaign.deposit_deadline {
        Err(Error::Custom(CustomError::CampaignDepositDeadlineNotPassed))
    } else if !campaign.mint.is_unset() {
        Err(Error::Custom(CustomError::TokenAlreadyCreated))
    } else if campaign.is_claimed_fund {
        Err(Error::Custom(CustomError::CampaignAlreadyClaimed))
    } else {
        Ok(())
    }
}

/// The creator takes the raised funds: every lamport above the rent-exempt minimum
/// leaves the campaign, the protocol fee to the treasury and the rest to the creator.
#[allow(clippy::too_many_arguments)]
pub fn claim_fund_raised(
    config: &Config,
    campaign_account: &mut Campaign,
    program_id: Pubkey,
    campaign_address: Pubkey,
    creator: Pubkey,
    now: i64,
    campaign_lamports: &mut u64,
    creator_lamports: &mut u64,
    treasury_lamports: &mut u64,
    minimum_rent_exemption: u64,
) -> (r: Result<ClaimedFundEvent, Error>)
    requires
        claim_fund_raised_check(*old(campaign_account), program_id, campaign_address, creator, now) is Ok ==> {
            &&& minimum_rent_exemption <= *old(campaign_lamports)
            &&& percentage_defined(
                *old(campaign_lamports) - minimum_rent_exemption,
                config.protocol_fee_percentage as int,
            )
        },
    ensures
        claim_fund_raised_check(*old(campaign_account), program_id, campaign_address, creator, now) is Err ==> {
            &&& r == Err::<ClaimedFundEvent, Error>(
                claim_fund_raised_check(*old(campaign_account), program_id, campaign_address, creator, now)->Err_0,
            )
            &&& *final(campaign_account) == *old(campaign_account)
            &&& *final(campaign_lamports) == *old(campaign_lamports)
            &&& *final(creator_lamports) == *old(creator_lamports)
            &&& *final(treasury_lamports) == *old(treasury_lamports)
        },
        claim_fund_raised_check(*old(campaign_account), program_id, campaign_address, creator, now) is Ok ==> {
            let deposited = (*old(campaign_lamports) - minimum_rent_exemption) as u64;
            let fee = percentage_of(deposited as int, config.protocol_fee_percentage as int) as u64;
            let net = (deposited - fee) as u64;
            let (c1, to_creator, ok1) = withdraw_sol_outcome(*old(campaign_lamports), *old(creator_lamports), net);
            let (c2, to_treasury, ok2) = withdraw_sol_outcome(c1, *old(treasury_lamports), fee);
            &&& *final(campaign_account) == (Campaign { is_claimed_fund: true, ..*old(campaign_account) })
            &&& *final(creator_lamports) == to_creator
            &&& !ok1 ==> {
                &&& r == Err::<ClaimedFundEvent, Error>(Error::ArithmeticOverflow)
                &&& *final(campaign_lamports) == c1
                &&& *final(treasury_lamports) == *old(treasury_lamports)
            }
            &&& ok1 ==> *final(campaign_lamports) == c2 && *final(treasury_lamports) == to_treasury
            &&& ok1 && !ok2 ==> r == Err::<ClaimedFundEvent, Error>(Error::ArithmeticOverflow)
            &&& ok1 && ok2 ==> r == Ok::<ClaimedFundEvent, Error>(
                ClaimedFundEvent {
                    creator,
                    campaign_index: old(campaign_account).index,
                    claimed_amount: net,
                    timestamp: now,
                },
            )
        },
        r is Ok ==> {
            &&& *final(campaign_lamports) == minimum_rent_exemption
            &&& *final(campaign_lamports) + *final(creator_lamports) + *final(treasury_lamports)
                == *old(campaign_lamports) + *old(creator_lamports) + *old(treasury_lamports)
        },
        old(campaign_account).claims_within_purchase() ==> final(campaign_account).claims_within_purchase(),
        r == Err::<ClaimedFundEvent, Error>(Error::Custom(CustomError::CampaignDepositDeadlineNotPassed))
            ==> old(campaign_account).deposit_deadline > 0 && now <= old(campaign_account).deposit_deadline,
        r is Ok ==> old(campaign_account).deposit_deadline <= 0 || now > old(campaign_account).deposit_deadline,
        ({
            let deposited = *old(campaign_lamports) - minimum_rent_exemption;
            let fee = percentage_of(deposited, config.protocol_fee_percentage as int);
            campaign_derived_at(*old(campaign_account), creator, program_id, campaign_address)
                && old(campaign_account).creator == creator
                && (old(campaign_account).deposit_deadline <= 0 || now > old(campaign_account).deposit_deadline)
                && old(campaign_account).mint.is_unset() && !old(campaign_account).is_claimed_fund
                && *old(creator_lamports) + (deposited - fee) <= u64::MAX
                && *old(treasury_lamports) + fee <= u64::MAX ==> {
                &&& r is Ok
                &&& r->Ok_0.claimed_amount == deposited - fee
                &&& *final(creator_lamports) == *old(creator_lamports) + (deposited - fee)
                &&& *final(treasury_lamports) == *old(treasury_lamports) + fee
                &&& *final(campaign_lamports) == minimum_rent_exemption
                &&& final(campaign_account).is_claimed_fund
            }
        }),
{
    if !is_campaign_address(campaign_account, &creator, &program_id, &campaign_address) {
        return Err(Error::ConstraintSeeds);
    }
    if campaign_account.creator != creator {
        return Err(Error::ConstraintHasOne);
    }
    if campaign_account.deposit_deadline > 0 {
        if !(now > campaign_account.deposit_deadline) {
            return Err(Error::Custom(CustomError::CampaignDepositDeadlineNotPassed));
        }
    }
    if !campaign_account.mint.is_default() {
        return Err(Error::Custom(CustomError::TokenAlreadyCreated));
    }
    if campaign_account.is_claimed_fund {
        return Err(Error::Custom(CustomError::CampaignAlreadyClaimed));
    }

    let _ = campaign_account.claim_fund();

    let deposited_balance = *campaign_lamports - minimum_rent_exemption;
    let fee = percentage(deposited_balance, config.protocol_fee_percentage);
    let claimed = deposited_balance - fee;

    withdraw_sol(campaign_lamports, creator_lamports, claimed)?;
    withdraw_sol(campaign_lamports, treasury_lamports, fee)?;

    Ok(
        ClaimedFundEvent {
            creator,
            campaign_index: campaign_account.index,
            claimed_amount: claimed,
            timestamp: now,
        },
    )
}

} // verus!
