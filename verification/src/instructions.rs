pub mod claim_campaign_token;
pub mod claim_fund_raised;
pub mod create_campaign_token;
pub mod donate_fund;
pub mod init;
pub mod init_campaign;
pub mod init_creator;
pub mod sell_campaign_token;
pub mod update_admin;
pub mod update_claimable_token_amount;
pub mod update_fee;
pub mod update_operator;
pub mod withdraw_sol_fee;
pub mod withdraw_token;

pub use claim_campaign_token::{claim_campaign_token, TokenClaim};
pub use claim_fund_raised::claim_fund_raised;
pub use create_campaign_token::{complete_create_campaign_token, create_campaign_token, TokenLaunch};
pub use donate_fund::donate_fund;
pub use init::init;
pub use init_campaign::{init_campaign, CampaignOpening};
pub use init_creator::init_creator;
pub use sell_campaign_token::{complete_sell_campaign_token, sell_campaign_token, TokenSale};
pub use update_admin::update_admin;
pub use update_claimable_token_amount::update_claimable_token_amount;
pub use update_fee::update_fee;
pub use update_operator::update_operator;
pub use withdraw_sol_fee::withdraw_sol_fee;
pub use withdraw_token::withdraw_campaign_token;
