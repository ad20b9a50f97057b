use vstd::prelude::*;

use crate::errors::{CustomError, Error};
use crate::events::CreatedCampaignTokenEvent;
use crate::pda::{campaign_derived_at, is_campaign_address};
use crate::pubkey::Pubkey;
use crate::state::{Campaign, Config};
use crate::utils::helper::{
    calc_out_token_amount, out_token_amount, out_token_amount_defined, percentage,
    percentage_defined, percentage_of, withdraw_sol, withdraw_sol_outcome,
};

verus! {

/// What the token creation hands to the pump.fun program, and the deposited balance
/// the purchase is later paid from.
#[derive(Debug)]
pub struct TokenLaunch {
    pub deposited_balance: u64,
    /// Token name, symbol and metadata URI: the campaign's own.
    pub name: String,
    pub symbol: String,
    pub uri: String,
    /// The token's creator: the campaign's creator.
    pub creator: Pubkey,
}

/// The checks made before the token is created, in the order they are made: the
/// signer must be the configured operator, the campaign account must sit at the
/// address derived from the creator account's key and the campaign's index and bump,
/// the creator account must be the campaign's creator, no token may exist yet, the lamports above the rent-exempt
/// minimum must reach the donation goal and the funds must not have been claimed.
/// On success it gives the deposited balance the purchase is paid from.
pub open spec fn create_campaign_token_check(
    config: Config,
    campaign: Campaign,
    program_id: Pubkey,
    campaign_address: Pubkey,
    operator: Pubkey,
    creator: Pubkey,
    campaign_lamports: u64,
    minimum_rent_exemption: u64,
) -> Result<u64, Error> {
    if config.operator != operator {
        Err(Error::ConstraintHasOne)
    } else if !campaign_derived_at(campaign, creator, program_id, campaign_address) {
        Err(Error::ConstraintSeeds)
    } else if campaign.creator != creator {
        Err(Error::ConstraintHasOne)
    } else if !campaign.mint.is_unset() {
        Err(Error::Custom(CustomError::TokenAlreadyCreated))
    } else if campaign_lamports - minimum_rent_exemption < campaign.donation_goal {
        Err(Error::Custom(CustomError::CampaignDonationGoalNotReached))
    } else if campaign.is_claimed_fund {
        Err(Error::Custom(CustomError::CampaignAlreadyClaimed))
    } else {
        Ok((campaign_lamports - minimum_rent_exemption) as u64)
    }
}

/// Decides whether the operator may create the campaign's token (the token itself
/// is created by the pump.fun program in between this step and
/// `complete_create_campaign_token`); on success gives the deposited balance and the
/// arguments of the token creation.
pub fn create_campaign_token(
    config: &Config,
    campaign_account: &Campaign,
    program_id: Pubkey,
    campaign_address: Pubkey,
    operator: Pubkey,
    creator: Pubkey,
    campaign_lamports: u64,
    minimum_rent_exemption: u64,
) -> (r: Result<TokenLaunch, Error>)
    requires
        config.operator == operator && campaign_derived_at(
            *campaign_account,
            creator,
            program_id,
            campaign_address,
        ) && campaign_account.creator == creator && campaign_account.mint.is_unset()
            ==> minimum_rent_exemption <= campaign_lamports,
    ensures
        ({
            let check = create_campaign_token_check(
                *config,
                *campaign_account,
                program_id,
                campaign_address,
                operator,
                creator,
                campaign_lamports,
                minimum_rent_exemption,
            );
            &&& check is Err ==> r == Err::<TokenLaunch, Error>(check->Err_0)
            &&& check is Ok ==> {
                &&& r is Ok
                &&& r->Ok_0.deposited_balance == check->Ok_0
                &&& r->Ok_0.name == campaign_account.name
                &&& r->Ok_0.symbol == campaign_account.symbol
                &&& r->Ok_0.uri == campaign_account.uri
                &&& r->Ok_0.creator == creator
            }
        }),
        r is Ok ==> r->Ok_0.deposited_balance == campaign_lamports - minimum_rent_exemption,
        r is Ok ==> campaign_lamports - minimum_rent_exemption >= campaign_account.donation_goal,
        config.operator == operator && campaign_derived_at(
            *campaign_account,
            creator,
            program_id,
            campaign_address,
        ) && campaign_account.creator == creator && campaign_account.mint.is_unset()
            && campaign_lamports - minimum_rent_exemption >= campaign_account.donation_goal
            && !campaign_account.is_claimed_fund ==> {
            &&& r is Ok
            &&& r->Ok_0.deposited_balance == campaign_lamports - minimum_rent_exemption
        },
{
    if config.operator != operator {
        return Err(Error::ConstraintHasOne);
    }
    if !is_campaign_address(campaign_account, &creator, &program_id, &campaign_address) {
        return Err(Error::ConstraintSeeds);
    }
    if campaign_account.creator != creator {
        return Err(Error::ConstraintHasOne);
    }
    if !campaign_account.mint.is_default() {
        return Err(Error::Custom(CustomError::TokenAlreadyCreated));
    }
    let deposited_balance = campaign_lamports - minimum_rent_exemption;
    if !(deposited_balance >= campaign_account.donation_goal) {
        return Err(Error::Custom(CustomError::CampaignDonationGoalNotReached));
    }
    if campaign_account.is_claimed_fund {
        return Err(Error::Custom(CustomError::CampaignAlreadyClaimed));
    }
    Ok(
        TokenLaunch {
            deposited_balance,
            name: campaign_account.name.clone(),
            symbol: campaign_account.symbol.clone(),
            uri: campaign_account.uri.clone(),
            creator,
        },
    )
}

/// Tokens the campaign is credited with for a deposited balance: the balance less
/// the protocol fee, run through the bonding-curve estimate.
pub open spec fn campaign_token_purchase(
    deposited_balance: u64,
    protocol_fee_percentage: u16,
    slippage: u16,
) -> int {
    let fee = percentage_of(deposited_balance as int, protocol_fee_percentage as int);
    out_token_amount(deposited_balance - fee, slippage as int)
}

/// Once the token exists: records its mint, credits the campaign with the tokens
/// its funds buy, and pays the protocol fee to the treasury and the rest of the
/// deposited balance to the operator, who buys the tokens.
#[allow(clippy::too_many_arguments)]
pub fn complete_create_campaign_token(
    config: &Config,
    campaign_account: &mut Campaign,
    mint: Pubkey,
    deposited_balance: u64,
    slippage: u16,
    now: i64,
    campaign_lamports: &mut u64,
    treasury_lamports: &mut u64,
    operator_lamports: &mut u64,
) -> (r: Result<CreatedCampaignTokenEvent, Error>)
    requires
        percentage_defined(deposited_balance as int, config.protocol_fee_percentage as int),
        out_token_amount_defined(
            deposited_balance - percentage_of(
                deposited_balance as int,
                config.protocol_fee_percentage as int,
            ),
            slippage as int,
        ),
        old(campaign_account).total_token_bought + campaign_token_purchase(
            deposited_balance,
            config.protocol_fee_percentage,
            slippage,
        ) <= u64::MAX,
    ensures
        ({
            let fee = percentage_of(deposited_balance as int, config.protocol_fee_percentage as int) as u64;
            let max_sol_cost = (deposited_balance - fee) as u64;
            let bought = campaign_token_purchase(
                deposited_balance,
                config.protocol_fee_percentage,
                slippage,
            );
            let (c1, to_treasury, ok1) = withdraw_sol_outcome(*old(campaign_lamports), *old(treasury_lamports), fee);
            let (c2, to_operator, ok2) = withdraw_sol_outcome(c1, *old(operator_lamports), max_sol_cost);
            &&& *final(campaign_account) == (Campaign {
                mint: mint,
                total_token_bought: (old(campaign_account).total_token_bought + bought) as u64,
                ..*old(campaign_account)
            })
            &&& *final(treasury_lamports) == to_treasury
            &&& !ok1 ==> {
                &&& r == Err::<CreatedCampaignTokenEvent, Error>(Error::ArithmeticOverflow)
                &&& *final(campaign_lamports) == c1
                &&& *final(operator_lamports) == *old(operator_lamports)
            }
            &&& ok1 ==> *final(campaign_lamports) == c2 && *final(operator_lamports) == to_operator
            &&& ok1 && !ok2 ==> r == Err::<CreatedCampaignTokenEvent, Error>(Error::ArithmeticOverflow)
            &&& ok1 && ok2 ==> r == Ok::<CreatedCampaignTokenEvent, Error>(
                CreatedCampaignTokenEvent {
                    creator: old(campaign_account).creator,
                    campaign_index: old(campaign_account).index,
                    mint,
                    bought_amount: 0,
                    timestamp: now,
                },
            )
        }),
        r is Ok ==> {
            &&& *final(campaign_lamports) + *final(treasury_lamports) + *final(operator_lamports)
                == *old(campaign_lamports) + *old(treasury_lamports) + *old(operator_lamports)
            &&& *final(campaign_lamports) == *old(campaign_lamports) - deposited_balance
        },
        old(campaign_account).claims_within_purchase() ==> final(campaign_account).claims_within_purchase(),
{
    let _ = campaign_account.set_mint(mint);

    let event = CreatedCampaignTokenEvent {
        creator: campaign_account.creator,
        campaign_index: campaign_account.index,
        mint,
        bought_amount: 0,
        timestamp: now,
    };

    let fee = percentage(deposited_balance, config.protocol_fee_percentage);
    let max_sol_cost = deposited_balance - fee;
    let token_amount = calc_out_token_amount(max_sol_cost, slippage);

    let _ = campaign_account.buy_token(token_amount);

    withdraw_sol(campaign_lamports, treasury_lamports, fee)?;
    withdraw_sol(campaign_lamports, operator_lamports, max_sol_cost)?;

    Ok(event)
}

} // verus!
