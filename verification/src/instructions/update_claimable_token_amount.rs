use vstd::prelude::*;

use crate::errors::{CustomError, Error};
use crate::events::ClaimableTokenAmountUpdatedEvent;
use crate::pda::{campaign_derived_at, is_campaign_address};
use crate::pubkey::Pubkey;
use crate::state::{Campaign, Config};

verus! {

/// The checks made before any state changes, in the order they are made: the signer
/// must be the configured operator, the campaign account must sit at the address
/// derived from the creator account's key and the campaign's index and bump, the
/// creator and mint accounts must be the campaign's, and the tokens already claimed plus `new_amount` must not exceed the
/// tokens bought.
pub open spec fn update_claimable_token_amount_check(
    config: Config,
    campaign: Campaign,
    program_id: Pubkey,
    campaign_address: Pubkey,
    operator: Pubkey,
    creator: Pubkey,
    mint: Pubkey,
    new_amount: u64,
) -> Result<(), Error> {
    if config.operator != operator {
        Err(Error::ConstraintHasOne)
    } else if !campaign_derived_at(campaign, creator, program_id, campaign_address) {
        Err(Error::ConstraintSeeds)
    } else if campaign.creator != creator {
        Err(Error::ConstraintHasOne)
    } else if campaign.mint != mint {
        Err(Error::ConstraintHasOne)
    } else if campaign.total_claimed + new_amount > campaign.total_token_bought {
        Err(Error::Custom(CustomError::ExceedsTotalTokenBought))
    } else {
        Ok(())
    }
}

/// The operator adds `new_amount` to the tokens the creator may claim.
#[allow(clippy::too_many_arguments)]
pub fn update_claimable_token_amount(
    config: &Config,
    campaign_account: &mut Campaign,
    program_id: Pubkey,
    campaign_address: Pubkey,
    operator: Pubkey,
    creator: Pubkey,
    mint: Pubkey,
    now: i64,
    new_amount: u64,
) -> (r: Result<ClaimableTokenAmountUpdatedEvent, Error>)
    requires
        config.operator == operator && campaign_derived_at(
            *old(campaign_account),
            creator,
            program_id,
            campaign_address,
        ) && old(campaign_account).creator == creator
            && old(campaign_account).mint == mint ==> old(campaign_account).total_claimed
            + new_amount <= u64::MAX,
        update_claimable_token_amount_check(
            *config,
            *old(campaign_account),
            program_id,
            campaign_address,
            operator,
            creator,
            mint,
            new_amount,
        ) is Ok ==> old(campaign_account).claimable_amount + new_amount <= u64::MAX,
    ensures
        update_claimable_token_amount_check(
            *config,
            *old(campaign_account),
            program_id,
            campaign_address,
            operator,
            creator,
            mint,
            new_amount,
        ) is Err ==> {
            &&& r == Err::<ClaimableTokenAmountUpdatedEvent, Error>(
                update_claimable_token_amount_check(
                    *config,
                    *old(campaign_account),
                    program_id,
                    campaign_address,
                    operator,
                    creator,
                    mint,
                    new_amount,
                )->Err_0,
            )
            &&& *final(campaign_account) == *old(campaign_account)
        },
        update_claimable_token_amount_check(
            *config,
            *old(campaign_account),
            program_id,
            campaign_address,
            operator,
            creator,
            mint,
            new_amount,
        ) is Ok ==> {
            &&& *final(campaign_account) == (Campaign {
                claimable_amount: (old(campaign_account).claimable_amount + new_amount) as u64,
                ..*old(campaign_account)
            })
            &&& r == Ok::<ClaimableTokenAmountUpdatedEvent, Error>(
                ClaimableTokenAmountUpdatedEvent {
                    creator,
                    campaign_index: old(campaign_account).index,
                    mint,
                    new_amount,
                    timestamp: now,
                },
            )
        },
        old(campaign_account).claims_within_purchase() ==> final(campaign_account).claims_within_purchase(),
        r == Err::<ClaimableTokenAmountUpdatedEvent, Error>(
            Error::Custom(CustomError::ExceedsTotalTokenBought),
        ) ==> old(campaign_account).total_claimed + new_amount > old(campaign_account).total_token_bought,
        config.operator == operator && campaign_derived_at(
            *old(campaign_account),
            creator,
            program_id,
            campaign_address,
        ) && old(campaign_account).creator == creator && old(campaign_account).mint == mint
            && old(campaign_account).total_claimed + new_amount <= old(campaign_account).total_token_bought
            ==> r is Ok && final(campaign_account).claimable_amount == old(campaign_account).claimable_amount
            + new_amount,
{
    if config.operator != operator {
        return Err(Error::ConstraintHasOne);
    }
    if !is_campaign_address(campaign_account, &creator, &program_id, &campaign_address) {
        return Err(Error::ConstraintSeeds);
    }
    if campaign_account.creator != creator {
        return Err(Error::ConstraintHasOne);
    }
    if campaign_account.mint != mint {
        return Err(Error::ConstraintHasOne);
    }
    if !(campaign_account.total_claimed + new_amount <= campaign_account.total_token_bought) {
        return Err(Error::Custom(CustomError::ExceedsTotalTokenBought));
    }

    let _ = campaign_account.increase_claimable_amount(new_amount);

    Ok(
        ClaimableTokenAmountUpdatedEvent {
            creator,
            campaign_index: campaign_account.index,
            mint,
            new_amount,
            timestamp: now,
        },
    )
}

} // verus!
