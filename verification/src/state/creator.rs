use vstd::prelude::*;

use crate::constants::{DISCRIMINATOR, PUBKEY_SIZE, U64_SIZE, U8_SIZE};
use crate::errors::Error;
use crate::pubkey::Pubkey;

verus! {

/// Per-creator record; `last_campaign_index` is the index the next campaign gets.
#[derive(Clone, Copy, Debug)]
pub struct Creator {
    pub bump: u8,
    pub creator: Pubkey,
    pub last_campaign_index: u64,
}

impl Creator {
    /// Account size: 8 + 1 + 32 + 8 = 49.
    pub const LEN: usize = DISCRIMINATOR + U8_SIZE + PUBKEY_SIZE + U64_SIZE;

    /// Sets every field of a newly allocated creator record.
    pub fn init(&mut self, bump: u8, creator: Pubkey) -> (r: Result<(), Error>)
        ensures
            r == Ok::<(), Error>(()),
            *final(self) == (Creator { bump, creator, last_campaign_index: 0 }),
    {
        self.bump = bump;
        self.creator = creator;
        self.last_campaign_index = 0;
        Ok(())
    }

    /// Advances the index the next campaign gets.
    pub fn increment_last_campaign_index(&mut self) -> (r: Result<(), Error>)
        requires
            old(self).last_campaign_index < u64::MAX,
        ensures
            r == Ok::<(), Error>(()),
            *final(self) == (Creator {
                last_campaign_index: (old(self).last_campaign_index + 1) as u64,
                ..*old(self)
            }),
    {
        self.last_campaign_index = self.last_campaign_index + 1;
        Ok(())
    }
}

} // verus!
