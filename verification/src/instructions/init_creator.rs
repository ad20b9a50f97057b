use vstd::prelude::*;

use crate::errors::Error;
use crate::pubkey::Pubkey;
use crate::state::Creator;

verus! {

/// Registers the signer as a creator; its first campaign will have index 0.
pub fn init_creator(creator_account: &mut Creator, creator: Pubkey, bump: u8) -> (r: Result<
    (),
    Error,
>)
    ensures
        r == Ok::<(), Error>(()),
        *final(creator_account) == (Creator { bump, creator, last_campaign_index: 0 }),
{
    creator_account.init(bump, creator)
}

} // verus!
