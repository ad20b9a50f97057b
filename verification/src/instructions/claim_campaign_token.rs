use vstd::prelude::*;

use crate::errors::{CustomError, Error};
use crate::events::ClaimedTokenEvent;
use crate::pda::{campaign_derived_at, campaign_seeds, campaign_signer_seeds, is_campaign_address};
use crate::pubkey::Pubkey;
use crate::state::{Campaign, Config};
use crate::utils::helper::{percentage, percentage_defined, percentage_of};

verus! {

/// The token transfers a claim makes and the event it logs.
#[derive(Debug)]
pub struct TokenClaim {
    /// Tokens sent from the campaign's token account to the creator's.
    pub creator_amount: u64,
    /// Tokens sent from the campaign's token account to the treasury's, as the tip.
    pub treasury_amount: u64,
    /// The seeds with which the campaign account signs both transfers.
    pub signer_seeds: Vec<Vec<u8>>,
    pub event: ClaimedTokenEvent,
}

/// The checks made before any state changes, in the order they are made: the
/// campaign account must sit at the address derived from the signer's key and the
/// campaign's index and bump, the signer must be the campaign's creator, the mint account the campaign's mint, and the
/// claimable tokens added to those already claimed must not exceed the tokens bought.
pub open spec fn claim_campaign_token_check(
    campaign: Campaign,
    program_id: Pubkey,
    campaign_address: Pubkey,
    creator: Pubkey,
    mint: Pubkey,
) -> Result<(), Error> {
    if !campaign_derived_at(campaign, creator, program_id, campaign_address) {
        Err(Error::ConstraintSeeds)
    } else if campaign.creator != creator {
        Err(Error::ConstraintHasOne)
    } else if campaign.mint != mint {
        Err(Error::ConstraintHasOne)
    } else if campaign.total_claimed + campaign.claimable_amount > campaign.total_token_bought {
        Err(Error::Custom(CustomError::ExceedsTotalTokenBought))
    } else {
        Ok(())
    }
}

/// The creator claims the campaign's claimable tokens: they are counted as claimed,
/// the tip share goes to the treasury and the rest to the creator.
pub fn claim_campaign_token(
    config: &Config,
    campaign_account: &mut Campaign,
    program_id: Pubkey,
    campaign_address: Pubkey,
    creator: Pubkey,
    mint: Pubkey,
    now: i64,
) -> (r: Result<TokenClaim, Error>)
    requires
        campaign_derived_at(*old(campaign_account), creator, program_id, campaign_address)
            && old(campaign_account).creator == creator && old(campaign_account).mint == mint
            ==> old(campaign_account).total_claimed + old(campaign_account).claimable_amount
            <= u64::MAX,
        claim_campaign_token_check(*old(campaign_account), program_id, campaign_address, creator, mint) is Ok ==> percentage_defined(
            old(campaign_account).claimable_amount as int,
            config.tip_percentage as int,
        ),
    ensures
        claim_campaign_token_check(*old(campaign_account), program_id, campaign_address, creator, mint) is Err ==> {
            &&& r == Err::<TokenClaim, Error>(
                claim_campaign_token_check(*old(campaign_account), program_id, campaign_address, creator, mint)->Err_0,
            )
            &&& *final(campaign_account) == *old(campaign_account)
        },
        claim_campaign_token_check(*old(campaign_account), program_id, campaign_address, creator, mint) is Ok ==> {
            let claim = old(campaign_account).claimable_amount;
            let tip = percentage_of(claim as int, config.tip_percentage as int) as u64;
            &&& *final(campaign_account) == (Campaign {
                claimable_amount: 0,
                total_claimed: (old(campaign_account).total_claimed + claim) as u64,
                ..*old(campaign_account)
            })
            &&& r is Ok
            &&& r->Ok_0.creator_amount == (claim - tip) as u64
            &&& r->Ok_0.treasury_amount == tip
            &&& r->Ok_0.signer_seeds.deep_view() == campaign_seeds(
                old(campaign_account).creator,
                old(campaign_account).index,
                old(campaign_account).bump,
            )
            &&& r->Ok_0.event == (ClaimedTokenEvent {
                creator,
                campaign_index: old(campaign_account).index,
                claimed_amount: claim,
                mint,
                timestamp: now,
            })
        },
        r is Ok ==> r->Ok_0.creator_amount + r->Ok_0.treasury_amount == r->Ok_0.event.claimed_amount,
        r is Ok ==> final(campaign_account).claims_within_purchase(),
        r is Ok ==> final(campaign_account).total_claimed + final(campaign_account).claimable_amount
            == old(campaign_account).total_claimed + old(campaign_account).claimable_amount,
        old(campaign_account).claims_within_purchase() ==> final(campaign_account).claims_within_purchase(),
        r == Err::<TokenClaim, Error>(Error::Custom(CustomError::ExceedsTotalTokenBought)) ==> old(
            campaign_account,
        ).total_claimed + old(campaign_account).claimable_amount > old(campaign_account).total_token_bought,
        campaign_derived_at(*old(campaign_account), creator, program_id, campaign_address)
            && old(campaign_account).creator == creator && old(campaign_account).mint == mint
            && old(campaign_account).total_claimed + old(campaign_account).claimable_amount
            <= old(campaign_account).total_token_bought ==> {
            &&& r is Ok
            &&& r->Ok_0.creator_amount + r->Ok_0.treasury_amount == old(campaign_account).claimable_amount
            &&& r->Ok_0.treasury_amount == percentage_of(
                old(campaign_account).claimable_amount as int,
                config.tip_percentage as int,
            )
            &&& final(campaign_account).total_claimed == old(campaign_account).total_claimed
                + old(campaign_account).claimable_amount
            &&& final(campaign_account).claimable_amount == 0
        },
        campaign_derived_at(*old(campaign_account), creator, program_id, campaign_address)
            && old(campaign_account).creator == creator && old(campaign_account).mint == mint
            && old(campaign_account).total_claimed + old(campaign_account).claimable_amount
            > old(campaign_account).total_token_bought ==> r == Err::<TokenClaim, Error>(
            Error::Custom(CustomError::ExceedsTotalTokenBought),
        ),
{
    if !is_campaign_address(campaign_account, &creator, &program_id, &campaign_address) {
        return Err(Error::ConstraintSeeds);
    }
    if campaign_account.creator != creator {
        return Err(Error::ConstraintHasOne);
    }
    if campaign_account.mint != mint {
        return Err(Error::ConstraintHasOne);
    }
    let claim_amount = campaign_account.claimable_amount;
    if !(campaign_account.total_claimed + claim_amount <= campaign_account.total_token_bought) {
        return Err(Error::Custom(CustomError::ExceedsTotalTokenBought));
    }

    let _ = campaign_account.increase_total_claimed(claim_amount);

    let tip_amount = percentage(claim_amount, config.tip_percentage);

    Ok(
        TokenClaim {
            creator_amount: claim_amount - tip_amount,
            treasury_amount: tip_amount,
            signer_seeds: campaign_signer_seeds(
                &campaign_account.creator,
                campaign_account.index,
                campaign_account.bump,
            ),
            event: ClaimedTokenEvent {
                creator,
                campaign_index: campaign_account.index,
                claimed_amount: claim_amount,
                mint,
                timestamp: now,
            },
        },
    )
}

} // verus!
