//! A custodial staking ledger: positions that lock tokens in escrow, earn
//! simple interest, and pay out after a requested withdrawal has waited out
//! its unbonding period.

pub mod accounts;
pub mod address;
pub mod custody;
pub mod errors;
pub mod history;
pub mod instructions;
pub mod staking;
pub mod state;
pub mod token;
pub mod utils;

pub use errors::ErrorCode;
pub use instructions::{
    deposit_funds_handler, initialize_handler, is_not_expired, withdraw_funds_handler,
    withdrawal_request_handler, Deposit, Initialize, Opening, Settlement, Withdraw,
    WithdrawalRequest,
};
pub use state::State;
pub use utils::calculate_rewards;
