use vstd::prelude::*;

use crate::constants::{
    BOOL_SIZE, DISCRIMINATOR, I64_SIZE, PUBKEY_SIZE, STRING_MAX_100_CHAR_SIZE,
    STRING_MAX_10_CHAR_SIZE, STRING_MAX_32_CHAR_SIZE, U64_SIZE, U8_SIZE,
};
use crate::errors::Error;
use crate::pubkey::Pubkey;

verus! {

/// A crowdfunding campaign opened by a creator.
#[derive(Debug)]
pub struct Campaign {
    pub bump: u8,
    pub creator: Pubkey,
    /// The campaign token's mint; all zeros until the token is created.
    pub mint: Pubkey,
    pub index: u64,
    pub name: String,
    pub symbol: String,
    pub uri: String,
    /// Donations close at this time; zero or less means no deadline.
    pub deposit_deadline: i64,
    /// Selling the token opens after this time; zero or less means no deadline.
    pub trade_deadline: i64,
    pub donation_goal: u64,
    pub total_token_bought: u64,
    pub claimable_amount: u64,
    pub total_claimed: u64,
    pub is_claimed_fund: bool,
    pub is_sell_all: bool,
}

impl Campaign {
    /// Account size: 8 + 1 + 32 * 2 + (4 + 32) + (4 + 10) + (4 + 100) + 8 * 2 + 8 * 5 + 1 * 2 = 285.
    pub const LEN: usize = DISCRIMINATOR + U8_SIZE + PUBKEY_SIZE * 2 + STRING_MAX_32_CHAR_SIZE
        + STRING_MAX_10_CHAR_SIZE + STRING_MAX_100_CHAR_SIZE + I64_SIZE * 2 + U64_SIZE * 5
        + BOOL_SIZE * 2;

    /// The creator never receives more campaign tokens than the campaign bought.
    pub open spec fn claims_within_purchase(&self) -> bool {
        self.total_claimed <= self.total_token_bought
    }

    /// A campaign as `init` leaves it.
    pub open spec fn is_fresh(
        &self,
        bump: u8,
        creator: Pubkey,
        index: u64,
        name: String,
        symbol: String,
        uri: String,
        deposit_deadline: i64,
        trade_deadline: i64,
        donation_goal: u64,
    ) -> bool {
        &&& self.bump == bump
        &&& self.creator == creator
        &&& self.mint.is_unset()
        &&& self.index == index
        &&& self.name == name
        &&& self.symbol == symbol
        &&& self.uri == uri
        &&& self.deposit_deadline == deposit_deadline
        &&& self.trade_deadline == trade_deadline
        &&& self.donation_goal == donation_goal
        &&& self.total_token_bought == 0
        &&& self.claimable_amount == 0
        &&& self.total_claimed == 0
        &&& !self.is_claimed_fund
        &&& !self.is_sell_all
    }

    /// Sets every field of a newly allocated campaign.
    #[allow(clippy::too_many_arguments)]
    pub fn init(
        &mut self,
        bump: u8,
        creator: Pubkey,
        index: u64,
        name: String,
        symbol: String,
        uri: String,
        deposit_deadline: i64,
        trade_deadline: i64,
        donation_goal: u64,
    ) -> (r: Result<(), Error>)
        ensures
            r == Ok::<(), Error>(()),
            final(self).is_fresh(
                bump,
                creator,
                index,
                name,
                symbol,
                uri,
                deposit_deadline,
                trade_deadline,
                donation_goal,
            ),
    {
        self.bump = bump;
        self.creator = creator;
        self.mint = Pubkey::default();
        self.index = index;
        self.name = name;
        self.symbol = symbol;
        self.uri = uri;
        self.deposit_deadline = deposit_deadline;
        self.trade_deadline = trade_deadline;
        self.donation_goal = donation_goal;
        self.total_token_bought = 0;
        self.claimable_amount = 0;
        self.total_claimed = 0;
        self.is_claimed_fund = false;
        self.is_sell_all = false;
        Ok(())
    }

    /// Records the mint of the campaign token.
    pub fn set_mint(&mut self, mint: Pubkey) -> (r: Result<(), Error>)
        ensures
            r == Ok::<(), Error>(()),
            *final(self) == (Campaign { mint: mint, ..*old(self) }),
    {
        self.mint = mint;
        Ok(())
    }

    /// Marks the raised funds as claimed.
    pub fn claim_fund(&mut self) -> (r: Result<(), Error>)
        ensures
            r == Ok::<(), Error>(()),
            *final(self) == (Campaign { is_claimed_fund: true, ..*old(self) }),
    {
        self.is_claimed_fund = true;
        Ok(())
    }

    /// Marks all campaign tokens as sold.
    pub fn is_sell_all(&mut self) -> (r: Result<(), Error>)
        ensures
            r == Ok::<(), Error>(()),
            *final(self) == (Campaign { is_sell_all: true, ..*old(self) }),
    {
        self.is_sell_all = true;
        Ok(())
    }

    /// Marks all campaign tokens as sold.
    pub fn sell_all_token(&mut self) -> (r: Result<(), Error>)
        ensures
            r == Ok::<(), Error>(()),
            *final(self) == (Campaign { is_sell_all: true, ..*old(self) }),
    {
        self.is_sell_all = true;
        Ok(())
    }

    /// Adds `amount` to the tokens bought for the campaign.
    pub fn buy_token(&mut self, amount: u64) -> (r: Result<(), Error>)
        requires
            old(self).total_token_bought + amount <= u64::MAX,
        ensures
            r == Ok::<(), Error>(()),
            *final(self) == (Campaign {
                total_token_bought: (old(self).total_token_bought + amount) as u64,
                ..*old(self)
            }),
    {
        self.total_token_bought = self.total_token_bought + amount;
        Ok(())
    }

    /// Adds `amount` to the tokens the creator may claim.
    pub fn increase_claimable_amount(&mut self, amount: u64) -> (r: Result<(), Error>)
        requires
            old(self).claimable_amount + amount <= u64::MAX,
        ensures
            r == Ok::<(), Error>(()),
            *final(self) == (Campaign {
                claimable_amount: (old(self).claimable_amount + amount) as u64,
                ..*old(self)
            }),
    {
        self.claimable_amount = self.claimable_amount + amount;
        Ok(())
    }

    /// Moves `amount` from the claimable tokens to the claimed ones.
    pub fn increase_total_claimed(&mut self, amount: u64) -> (r: Result<(), Error>)
        requires
            amount <= old(self).claimable_amount,
            old(self).total_claimed + amount <= u64::MAX,
        ensures
            r == Ok::<(), Error>(()),
            *final(self) == (Campaign {
                claimable_amount: (old(self).claimable_amount - amount) as u64,
                total_claimed: (old(self).total_claimed + amount) as u64,
                ..*old(self)
            }),
    {
        self.claimable_amount = self.claimable_amount - amount;
        self.total_claimed = self.total_claimed + amount;
        Ok(())
    }
}

} // verus!
