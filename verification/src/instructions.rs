//! The four operations on a position.

pub mod deposit_funds;
pub mod initialize;
pub mod withdraw_funds;
pub mod withdrawal_request;

pub use deposit_funds::{
    check_deposit, deposit_check, deposit_funds_handler, deposit_outcome, deposit_stored,
    deposit_transfer, deposits, Deposit,
};
pub use initialize::{
    initialize_check, initialize_handler, initializes, opens, Initialize, Opening,
};
pub use withdraw_funds::{
    check_withdraw, is_not_expired, settles, withdraw_check, withdraw_funds_handler,
    withdraw_outcome, withdraw_stored, withdraws, Settlement, Withdraw,
};
pub use withdrawal_request::{
    check_request, request_check, request_stored, requests, withdrawal_request_handler,
    WithdrawalRequest,
};
