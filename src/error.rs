use vstd::prelude::*;

verus! {

/// Why an operation on a wager was refused.
#[derive(Clone, Copy, Debug, PartialEq, Eq, Structural)]
pub enum ErrorCode {
    /// The caller does not hold the role the operation needs.
    InvalidCaller,
    /// Resolution was attempted before both acceptances.
    WagerNotReady,
    /// Acceptance came after the expiration date.
    WagerExpired,
    /// Reserved: the event has not ended yet.
    WagerNotEnded,
    /// The expiration date is not in the future.
    InvalidExpirationDate,
    /// The end date is not after the expiration date.
    InvalidEndDate,
    /// The opponent has already committed to the wager.
    WagerAlreadyAccepted,
    /// A refund was asked for before the expiration date had passed.
    WagerNotExpired,
    /// The odds are outside 1:100 to 100:1, or a term is zero or too large.
    InvalidOdds,
    /// Reserved: the deposit does not cover the stake.
    InsufficientDeposit,
    /// Reserved: an amount could not be computed.
    CalculationError,
    /// Someone other than the fixed opponent tried to accept.
    InvalidOpponent,
    /// No wager is held under the given key (never created, or destroyed).
    WagerNotFound,
    /// A wager is already held under the given key.
    WagerAlreadyExists,
}

impl ErrorCode {
    /// The human-readable message for this error.
    pub fn message(&self) -> (r: &'static str) {
        match self {
            ErrorCode::InvalidCaller => "No access",
            ErrorCode::WagerNotReady => "Wager not ready",
            ErrorCode::WagerExpired => "Wager has expired",
            ErrorCode::WagerNotEnded => "Wager has not ended yet",
            ErrorCode::InvalidExpirationDate => "Invalid expiration date",
            ErrorCode::InvalidEndDate => "Invalid end date",
            ErrorCode::WagerAlreadyAccepted => "Wager has already been accepted",
            ErrorCode::WagerNotExpired => "Wager has not expired yet",
            ErrorCode::InvalidOdds => "Invalid odds",
            ErrorCode::InsufficientDeposit => "Insufficient deposit",
            ErrorCode::CalculationError => "Calculation error",
            ErrorCode::InvalidOpponent => "Invalid opponent",
            ErrorCode::WagerNotFound => "Wager not found",
            ErrorCode::WagerAlreadyExists => "Wager already exists",
        }
    }
}

} // verus!
