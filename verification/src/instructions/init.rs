use vstd::prelude::*;

use crate::constants::INITIAL_DEPOSIT_AMOUNT;
use crate::errors::Error;
use crate::pubkey::Pubkey;
use crate::state::{Config, Treasury};

verus! {

/// Sets up the program: the signer becomes the admin, and the config and treasury
/// accounts get their settings. The fee percentages are stored as given.
pub fn init(
    config: &mut Config,
    treasury: &mut Treasury,
    admin: Pubkey,
    bump: u8,
    treasury_bump: u8,
    operator: Pubkey,
    protocal_fee_percentage: u16,
    tip_percentage: u16,
) -> (r: Result<(), Error>)
    ensures
        r == Ok::<(), Error>(()),
        *final(config) == (Config {
            bump,
            admin,
            operator,
            initial_deposit_amount: INITIAL_DEPOSIT_AMOUNT,
            protocol_fee_percentage: protocal_fee_percentage,
            tip_percentage,
        }),
        *final(treasury) == (Treasury { bump: treasury_bump }),
{
    let _ = config.init(bump, admin, operator, protocal_fee_percentage, tip_percentage);
    treasury.init(treasury_bump)
}

} // verus!
