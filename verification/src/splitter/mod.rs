//! The fee splitter: one payment divided across four fixed shares.

pub mod error;
pub mod instructions;
pub mod splitter_config;

pub use error::PaymentSplitterError;
pub use instructions::{initialize, process_payment, update_config, withdraw_treasury, PaymentSplit};
pub use splitter_config::SplitterConfig;
