use vstd::prelude::*;

use crate::errors::{CustomError, Error};
use crate::pubkey::Pubkey;
use crate::state::Config;

verus! {

/// The admin replaces the operator with `new_operator`, which must differ from the
/// current operator.
pub fn update_operator(config: &mut Config, admin: Pubkey, new_operator: Pubkey) -> (r: Result<
    (),
    Error,
>)
    ensures
        old(config).admin != admin ==> r == Err::<(), Error>(Error::ConstraintHasOne),
        old(config).admin == admin && new_operator == old(config).operator ==> r == Err::<
            (),
            Error,
        >(Error::Custom(CustomError::OperatorIsSame)),
        old(config).admin == admin && new_operator != old(config).operator ==> r == Ok::<
            (),
            Error,
        >(()),
        r is Ok ==> *final(config) == (Config { operator: new_operator, ..*old(config) }),
        r is Err ==> *final(config) == *old(config),
{
    if config.admin != admin {
        return Err(Error::ConstraintHasOne);
    }
    if !(new_operator != config.operator) {
        return Err(Error::Custom(CustomError::OperatorIsSame));
    }
    config.operator = new_operator;
    Ok(())
}

} // verus!
