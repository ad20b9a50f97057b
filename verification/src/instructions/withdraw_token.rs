use vstd::prelude::*;

use crate::errors::Error;
use crate::pubkey::Pubkey;
use crate::state::Config;

verus! {

/// Decides how many campaign tokens the admin takes from the treasury's token
/// account: the amount asked for, capped at the account's balance. The tokens are
/// then transferred with the treasury as signer.
pub fn withdraw_campaign_token(
    config: &Config,
    admin: Pubkey,
    amount: u64,
    treasury_token_balance: u64,
) -> (r: Result<u64, Error>)
    ensures
        config.admin != admin ==> r == Err::<u64, Error>(Error::ConstraintHasOne),
        config.admin == admin ==> r == Ok::<u64, Error>(
            if amount > treasury_token_balance {
                treasury_token_balance
            } else {
                amount
            },
        ),
        r is Ok ==> r->Ok_0 <= amount && r->Ok_0 <= treasury_token_balance,
{
    if config.admin != admin {
        return Err(Error::ConstraintHasOne);
    }
    let withdraw_amount = if amount > treasury_token_balance {
        treasury_token_balance
    } else {
        amount
    };
    Ok(withdraw_amount)
}

} // verus!
