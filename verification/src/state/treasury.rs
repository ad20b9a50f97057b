use vstd::prelude::*;

use crate::constants::{DISCRIMINATOR, U8_SIZE};
use crate::errors::Error;

verus! {

/// The account that collects protocol fees and token tips.
#[derive(Clone, Copy, Debug)]
pub struct Treasury {
    pub bump: u8,
}

impl Treasury {
    /// Account size: 8 + 1 = 9.
    pub const LEN: usize = DISCRIMINATOR + U8_SIZE;

    /// Sets the treasury's bump seed.
    pub fn init(&mut self, bump: u8) -> (r: Result<(), Error>)
        ensures
            r == Ok::<(), Error>(()),
            *final(self) == (Treasury { bump }),
    {
        self.bump = bump;
        Ok(())
    }
}

} // verus!
