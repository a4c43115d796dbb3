//! The reasons for which a staking operation is refused.

use vstd::prelude::*;

verus! {

/// Why an operation was refused. A refused operation changes nothing.
#[derive(Clone, Copy, Debug, PartialEq, Eq, Structural)]
pub enum ErrorCode {
    /// The withdrawal was requested, but the unbonding period has not yet run out.
    UnboundingPeriod,
    /// No withdrawal has been requested for the position.
    NoWithdrawalRequest,
    /// The caller did not sign, is not the owner recorded on the position, or
    /// presented a token account that is not their own in the position's asset.
    Unauthorized,
    /// An account does not sit at the address that the position's key derives,
    /// or the escrow presented is not the one the position has custody of.
    AddressMismatch,
    /// The address at which a position or its escrow is to be created is taken.
    AlreadyExists,
    /// A timestamp lies before the one it is measured from, or an amount does
    /// not fit in 64 bits.
    ArithmeticError,
}

impl ErrorCode {
    /// The text of each error.
    pub open spec fn message_text(self) -> Seq<char> {
        match self {
            ErrorCode::UnboundingPeriod =>
                "You are still in unbounding period. Please wait for your unbounding period to get over before withdrawing the funds."@,
            ErrorCode::NoWithdrawalRequest =>
                "You have not requested for withdrawal. You have to request for withdrawal before withdrawing the funds."@,
            ErrorCode::Unauthorized =>
                "You are not authorized to operate on this position with these accounts."@,
            ErrorCode::AddressMismatch =>
                "An account is not at the address derived for this position."@,
            ErrorCode::AlreadyExists => "The position already exists."@,
            ErrorCode::ArithmeticError =>
                "A timestamp is out of order or an amount is out of range."@,
        }
    }

    /// The text shown to the caller for this error.
    pub fn message(&self) -> (text: &'static str)
        ensures
            text@ == self.message_text(),
    {
        match self {
            ErrorCode::UnboundingPeriod =>
                "You are still in unbounding period. Please wait for your unbounding period to get over before withdrawing the funds.",
            ErrorCode::NoWithdrawalRequest =>
                "You have not requested for withdrawal. You have to request for withdrawal before withdrawing the funds.",
            ErrorCode::Unauthorized =>
                "You are not authorized to operate on this position with these accounts.",
            ErrorCode::AddressMismatch =>
                "An account is not at the address derived for this position.",
            ErrorCode::AlreadyExists => "The position already exists.",
            ErrorCode::ArithmeticError =>
                "A timestamp is out of order or an amount is out of range.",
        }
    }
}

} // verus!
