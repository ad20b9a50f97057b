//! A crowdfunding program: creators open campaigns, donors send lamports until a
//! goal is reached, and the raised funds are either claimed by the creator or used
//! to launch a campaign token whose proceeds are later claimed or sold.
//!
//! Every instruction is a verified function from the accounts' plain state (and the
//! values the runtime supplies: signer keys, the clock, lamport balances, the
//! rent-exempt minimum) to the next state, the amounts to move and the event to log.
pub mod constants;
pub mod errors;
pub mod events;
pub mod instructions;
pub mod lifecycle;
pub mod outcomes;
pub mod pda;
pub mod pubkey;
pub mod state;
pub mod utils;
