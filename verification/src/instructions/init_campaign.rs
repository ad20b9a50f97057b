use vstd::prelude::*;

use crate::errors::{CustomError, Error};
use crate::events::CreatedCampaignEvent;
use crate::pda::{creator_record_seeds, creator_seeds, derives, is_derived_address};
use crate::pubkey::Pubkey;
use crate::state::{Campaign, Config, Creator};

verus! {

/// The deposit a new campaign receives from its creator and the event it logs.
#[derive(Debug)]
pub struct CampaignOpening {
    /// Lamports transferred from the creator to the new campaign account.
    pub initial_deposit: u64,
    pub event: CreatedCampaignEvent,
}

/// The checks made before any state changes, in the order they are made: the
/// creator record must sit at the address derived from the signer's key and the
/// record's bump, the creator record must belong to the signer, a deposit deadline (if any) must lie in
/// the future, and a trade deadline (if any) must come after the deposit deadline.
pub open spec fn init_campaign_check(
    creator_account: Creator,
    program_id: Pubkey,
    creator_address: Pubkey,
    creator: Pubkey,
    now: i64,
    deposit_deadline: i64,
    trade_deadline: i64,
) -> Result<(), Error> {
    if !derives(creator_seeds(creator, creator_account.bump), program_id, creator_address) {
        Err(Error::ConstraintSeeds)
    } else if creator_account.creator != creator {
        Err(Error::ConstraintHasOne)
    } else if deposit_deadline > 0 && now >= deposit_deadline {
        Err(Error::Custom(CustomError::DepositDeadlineMustBeInTheFuture))
    } else if trade_deadline > 0 && trade_deadline <= deposit_deadline {
        Err(Error::Custom(CustomError::TradeDeadlineMustBeAfterDepositDeadline))
    } else {
        Ok(())
    }
}

/// How a successful opening moves a creator record from `before` to `after`: the new
/// campaign takes the record's next index and the record advances by one.
pub open spec fn campaign_opened(before: Creator, after: Creator, campaign: Campaign) -> bool {
    &&& campaign.index == before.last_campaign_index
    &&& after == (Creator { last_campaign_index: (before.last_campaign_index + 1) as u64, ..before })
}

/// Opens the creator's next campaign: it takes the creator's next index, which then
/// advances, and receives the configured initial deposit from the creator.
#[allow(clippy::too_many_arguments)]
pub fn init_campaign(
    config: &Config,
    creator_account: &mut Creator,
    campaign_account: &mut Campaign,
    program_id: Pubkey,
    creator_address: Pubkey,
    creator: Pubkey,
    now: i64,
    bump: u8,
    name: String,
    symbol: String,
    uri: String,
    deposit_deadline: i64,
    trade_deadline: i64,
    donation_goal: u64,
) -> (r: Result<CampaignOpening, Error>)
    requires
        init_campaign_check(*old(creator_account), program_id, creator_address, creator, now, deposit_deadline, trade_deadline) is Ok
            ==> old(creator_account).last_campaign_index < u64::MAX,
    ensures
        init_campaign_check(*old(creator_account), program_id, creator_address, creator, now, deposit_deadline, trade_deadline) is Err
            ==> {
            &&& r is Err
            &&& r->Err_0 == init_campaign_check(
                *old(creator_account),
                program_id,
                creator_address,
                creator,
                now,
                deposit_deadline,
                trade_deadline,
            )->Err_0
            &&& *final(creator_account) == *old(creator_account)
            &&& *final(campaign_account) == *old(campaign_account)
        },
        init_campaign_check(*old(creator_account), program_id, creator_address, creator, now, deposit_deadline, trade_deadline) is Ok
            ==> {
            &&& final(campaign_account).is_fresh(
                bump,
                creator,
                old(creator_account).last_campaign_index,
                name,
                symbol,
                uri,
                deposit_deadline,
                trade_deadline,
                donation_goal,
            )
            &&& *final(creator_account) == (Creator {
                last_campaign_index: (old(creator_account).last_campaign_index + 1) as u64,
                ..*old(creator_account)
            })
            &&& r is Ok
            &&& r->Ok_0.initial_deposit == config.initial_deposit_amount
            &&& r->Ok_0.event == (CreatedCampaignEvent {
                creator,
                campaign_index: final(creator_account).last_campaign_index,
                name,
                symbol,
                uri,
                deposit_deadline,
                trade_deadline,
                donation_goal,
                timestamp: now,
            })
        },
        r is Ok ==> final(campaign_account).claims_within_purchase(),
        r is Ok ==> final(campaign_account).index < final(creator_account).last_campaign_index,
        r is Ok ==> campaign_opened(*old(creator_account), *final(creator_account), *final(campaign_account)),
        r == Err::<CampaignOpening, Error>(Error::Custom(CustomError::DepositDeadlineMustBeInTheFuture))
            ==> deposit_deadline > 0 && now >= deposit_deadline,
        r == Err::<CampaignOpening, Error>(
            Error::Custom(CustomError::TradeDeadlineMustBeAfterDepositDeadline),
        ) ==> trade_deadline > 0 && trade_deadline <= deposit_deadline,
        derives(creator_seeds(creator, old(creator_account).bump), program_id, creator_address)
            && old(creator_account).creator == creator && deposit_deadline <= 0 && trade_deadline <= 0
            ==> r is Ok,
        r is Ok ==> final(campaign_account).index == old(creator_account).last_campaign_index
            && final(creator_account).last_campaign_index == old(creator_account).last_campaign_index + 1,
{
    let seeds = creator_record_seeds(&creator, creator_account.bump);
    if !is_derived_address(&seeds, &program_id, &creator_address) {
        return Err(Error::ConstraintSeeds);
    }
    if creator_account.creator != creator {
        return Err(Error::ConstraintHasOne);
    }
    if deposit_deadline > 0 {
        if !(now < deposit_deadline) {
            return Err(Error::Custom(CustomError::DepositDeadlineMustBeInTheFuture));
        }
    }
    if trade_deadline > 0 {
        if !(trade_deadline > deposit_deadline) {
            return Err(Error::Custom(CustomError::TradeDeadlineMustBeAfterDepositDeadline));
        }
    }

    let _ = campaign_account.init(
        bump,
        creator,
        creator_account.last_campaign_index,
        name.clone(),
        symbol.clone(),
        uri.clone(),
        deposit_deadline,
        trade_deadline,
        donation_goal,
    );
    let _ = creator_account.increment_last_campaign_index();

    Ok(
        CampaignOpening {
            initial_deposit: config.initial_deposit_amount,
            event: CreatedCampaignEvent {
                creator,
                campaign_index: creator_account.last_campaign_index,
                name,
                symbol,
                uri,
                deposit_deadline,
                trade_deadline,
                donation_goal,
                timestamp: now,
            },
        },
    )
}

} // verus!
