use vstd::prelude::*;

use crate::constants::PERCENTAGE_DENOMINATOR;
use crate::errors::{CustomError, Error};
use crate::pubkey::Pubkey;
use crate::state::Config;

verus! {

/// The admin sets both fee percentages; each must be at most 100% (10000 basis points).
pub fn update_fee(
    config: &mut Config,
    admin: Pubkey,
    new_protocol_fee_percentage: u16,
    new_tip_percentage: u16,
) -> (r: Result<(), Error>)
    ensures
        old(config).admin != admin ==> r == Err::<(), Error>(Error::ConstraintHasOne),
        old(config).admin == admin && new_protocol_fee_percentage > PERCENTAGE_DENOMINATOR ==> r
            == Err::<(), Error>(Error::Custom(CustomError::InvalidProtocolFeePercentage)),
        old(config).admin == admin && new_protocol_fee_percentage <= PERCENTAGE_DENOMINATOR
            && new_tip_percentage > PERCENTAGE_DENOMINATOR ==> r == Err::<(), Error>(
            Error::Custom(CustomError::InvalidTipPercentage),
        ),
        old(config).admin == admin && new_protocol_fee_percentage <= PERCENTAGE_DENOMINATOR
            && new_tip_percentage <= PERCENTAGE_DENOMINATOR ==> r == Ok::<(), Error>(()),
        r is Ok ==> *final(config) == (Config {
            protocol_fee_percentage: new_protocol_fee_percentage,
            tip_percentage: new_tip_percentage,
            ..*old(config)
        }),
        r is Err ==> *final(config) == *old(config),
        r is Ok ==> final(config).protocol_fee_percentage <= PERCENTAGE_DENOMINATOR
            && final(config).tip_percentage <= PERCENTAGE_DENOMINATOR,
{
    if config.admin != admin {
        return Err(Error::ConstraintHasOne);
    }
    if !(new_protocol_fee_percentage <= PERCENTAGE_DENOMINATOR) {
        return Err(Error::Custom(CustomError::InvalidProtocolFeePercentage));
    }
    if !(new_tip_percentage <= PERCENTAGE_DENOMINATOR) {
        return Err(Error::Custom(CustomError::InvalidTipPercentage));
    }
    config.protocol_fee_percentage = new_protocol_fee_percentage;
    config.tip_percentage = new_tip_percentage;
    Ok(())
}

} // verus!
