use vstd::prelude::*;

use crate::errors::Error;
use crate::pubkey::Pubkey;
use crate::state::Config;
use crate::utils::helper::{withdraw_sol, withdraw_sol_outcome};

verus! {

/// The lamports a fee withdrawal moves: the amount asked for, capped at what the
/// treasury holds above its rent-exempt minimum.
pub open spec fn sol_fee_withdrawal(amount: u64, treasury_lamports: u64, minimum_rent_exemption: u64) -> u64 {
    let available = (treasury_lamports - minimum_rent_exemption) as u64;
    if amount > available {
        available
    } else {
        amount
    }
}

/// The admin takes up to `amount` lamports of collected fees from the treasury,
/// never touching its rent-exempt minimum.
pub fn withdraw_sol_fee(
    config: &Config,
    admin: Pubkey,
    amount: u64,
    treasury_lamports: &mut u64,
    admin_lamports: &mut u64,
    minimum_rent_exemption: u64,
) -> (r: Result<(), Error>)
    requires
        config.admin == admin ==> minimum_rent_exemption <= *old(treasury_lamports),
    ensures
        config.admin != admin ==> {
            &&& r == Err::<(), Error>(Error::ConstraintHasOne)
            &&& *final(treasury_lamports) == *old(treasury_lamports)
            &&& *final(admin_lamports) == *old(admin_lamports)
        },
        config.admin == admin ==> {
            let moved = sol_fee_withdrawal(amount, *old(treasury_lamports), minimum_rent_exemption);
            let (t, a, ok) = withdraw_sol_outcome(*old(treasury_lamports), *old(admin_lamports), moved);
            &&& *final(treasury_lamports) == t
            &&& *final(admin_lamports) == a
            &&& ok ==> r == Ok::<(), Error>(())
            &&& !ok ==> r == Err::<(), Error>(Error::ArithmeticOverflow)
            &&& *final(treasury_lamports) >= minimum_rent_exemption
        },
        r is Ok ==> *final(treasury_lamports) + *final(admin_lamports) == *old(treasury_lamports)
            + *old(admin_lamports),
        r is Ok ==> {
            &&& *final(admin_lamports) >= *old(admin_lamports)
            &&& *final(admin_lamports) - *old(admin_lamports) <= amount
            &&& *final(admin_lamports) - *old(admin_lamports) == amount || *final(treasury_lamports)
                == minimum_rent_exemption
        },
        config.admin == admin && amount <= *old(treasury_lamports) - minimum_rent_exemption
            && *old(admin_lamports) + amount <= u64::MAX ==> r is Ok && *final(admin_lamports)
            == *old(admin_lamports) + amount,
{
    if config.admin != admin {
        return Err(Error::ConstraintHasOne);
    }
    let available_balance = *treasury_lamports - minimum_rent_exemption;
    let withdraw_amount = if amount > available_balance {
        available_balance
    } else {
        amount
    };
    withdraw_sol(treasury_lamports, admin_lamports, withdraw_amount)
}

} // verus!
