use vstd::prelude::*;

use crate::constants::{DISCRIMINATOR, INITIAL_DEPOSIT_AMOUNT, PUBKEY_SIZE, U16_SIZE, U64_SIZE, U8_SIZE};
use crate::errors::Error;
use crate::pubkey::Pubkey;

verus! {

/// The program's global settings.
#[derive(Clone, Copy, Debug)]
pub struct Config {
    pub bump: u8,
    pub admin: Pubkey,
    pub operator: Pubkey,
    /// Lamports a creator deposits when opening a campaign.
    pub initial_deposit_amount: u64,
    /// Share of raised funds kept by the protocol, in basis points.
    pub protocol_fee_percentage: u16,
    /// Share of claimed tokens kept by the treasury, in basis points.
    pub tip_percentage: u16,
}

impl Config {
    /// Account size: 8 + 1 + 32 + 32 + 8 + 2 + 2 = 85.
    pub const LEN: usize = DISCRIMINATOR + U8_SIZE + PUBKEY_SIZE * 2 + U64_SIZE + U16_SIZE * 2;

    /// Sets every field of a newly allocated config; the initial deposit is 1 SOL.
    pub fn init(
        &mut self,
        bump: u8,
        admin: Pubkey,
        operator: Pubkey,
        protocol_fee_percentage: u16,
        tip_percentage: u16,
    ) -> (r: Result<(), Error>)
        ensures
            r == Ok::<(), Error>(()),
            *final(self) == (Config {
                bump,
                admin,
                operator,
                initial_deposit_amount: INITIAL_DEPOSIT_AMOUNT,
                protocol_fee_percentage,
                tip_percentage,
            }),
    {
        self.bump = bump;
        self.admin = admin;
        self.operator = operator;
        self.initial_deposit_amount = INITIAL_DEPOSIT_AMOUNT;
        self.protocol_fee_percentage = protocol_fee_percentage;
        self.tip_percentage = tip_percentage;
        Ok(())
    }

    /// Replaces the admin.
    pub fn set_admin(&mut self, admin: Pubkey) -> (r: Result<(), Error>)
        ensures
            r == Ok::<(), Error>(()),
            *final(self) == (Config { admin: admin, ..*old(self) }),
    {
        self.admin = admin;
        Ok(())
    }

    /// Replaces the operator.
    pub fn set_operator(&mut self, operator: Pubkey) -> (r: Result<(), Error>)
        ensures
            r == Ok::<(), Error>(()),
            *final(self) == (Config { operator: operator, ..*old(self) }),
    {
        self.operator = operator;
        Ok(())
    }

    /// Replaces the lamports a creator deposits when opening a campaign.
    pub fn set_initial_deposit_amount(&mut self, initial_deposit_amount: u64) -> (r: Result<
        (),
        Error,
    >)
        ensures
            r == Ok::<(), Error>(()),
            *final(self) == (Config { initial_deposit_amount: initial_deposit_amount, ..*old(self) }),
    {
        self.initial_deposit_amount = initial_deposit_amount;
        Ok(())
    }

    /// Replaces both fee percentages.
    pub fn set_fee(&mut self, protocol_fee_percentage: u16, tip_percentage: u16) -> (r: Result<
        (),
        Error,
    >)
        ensures
            r == Ok::<(), Error>(()),
            *final(self) == (Config {
                protocol_fee_percentage: protocol_fee_percentage,
                tip_percentage: tip_percentage,
                ..*old(self)
            }),
    {
        self.protocol_fee_percentage = protocol_fee_percentage;
        self.tip_percentage = tip_percentage;
        Ok(())
    }
}

} // verus!
