pub mod helper;

pub use helper::{calc_out_token_amount, calc_out_token_amount_checked, withdraw_sol};
