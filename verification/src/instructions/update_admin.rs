use vstd::prelude::*;

use crate::errors::{CustomError, Error};
use crate::pubkey::Pubkey;
use crate::state::Config;

verus! {

/// The admin hands the admin role to `new_admin`, which must differ from the
/// current admin.
pub fn update_admin(config: &mut Config, admin: Pubkey, new_admin: Pubkey) -> (r: Result<(), Error>)
    ensures
        old(config).admin != admin ==> r == Err::<(), Error>(Error::ConstraintHasOne),
        old(config).admin == admin && new_admin == admin ==> r == Err::<(), Error>(
            Error::Custom(CustomError::AdminIsSame),
        ),
        old(config).admin == admin && new_admin != admin ==> r == Ok::<(), Error>(()),
        r is Ok ==> *final(config) == (Config { admin: new_admin, ..*old(config) }),
        r is Err ==> *final(config) == *old(config),
{
    if config.admin != admin {
        return Err(Error::ConstraintHasOne);
    }
    if !(new_admin != config.admin) {
        return Err(Error::Custom(CustomError::AdminIsSame));
    }
    config.admin = new_admin;
    Ok(())
}

} // verus!
