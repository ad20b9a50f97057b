pub mod campaign;
pub mod config;
pub mod creator;
pub mod treasury;

pub use campaign::Campaign;
pub use config::Config;
pub use creator::Creator;
pub use treasury::Treasury;
