use vstd::prelude::*;

verus! {

/// The ways in which an instruction of the vesting program can be refused.
#[derive(Clone, Copy, Debug, PartialEq, Eq, Structural)]
pub enum ErrorCode {
    ClaimNotAvailableYet,
    NothingToClaim,
    InvalidVestingPeriod,
    InvalidAmount,
    CompanyNameTooLong,
    CalculationOverflow,
}

/// Why a claim made at the cluster's current time did not go through.
#[derive(Clone, Copy, Debug, PartialEq, Eq, Structural)]
pub enum ClaimError {
    /// The claim was refused for the reason given.
    Refused(ErrorCode),
    /// The cluster's clock could not be read.
    ClockUnavailable,
}

/// The text that goes with each error.
pub open spec fn error_message(e: ErrorCode) -> Seq<char> {
    match e {
        ErrorCode::ClaimNotAvailableYet => "Claiming is not available yet."@,
        ErrorCode::NothingToClaim => "There is nothing to claim."@,
        ErrorCode::InvalidVestingPeriod =>
            "The start time must be before the end time and cliff time must be valid."@,
        ErrorCode::InvalidAmount => "The total amount must be greater than zero."@,
        ErrorCode::CompanyNameTooLong => "The company name must not exceed 50 characters."@,
        ErrorCode::CalculationOverflow => "Math calculation overflowed."@,
    }
}

impl ErrorCode {
    /// The human-readable message of this error.
    pub fn message(&self) -> (s: &'static str)
        ensures
            s@ == error_message(*self),
    {
        match self {
            ErrorCode::ClaimNotAvailableYet => "Claiming is not available yet.",
            ErrorCode::NothingToClaim => "There is nothing to claim.",
            ErrorCode::InvalidVestingPeriod =>
                "The start time must be before the end time and cliff time must be valid.",
            ErrorCode::InvalidAmount => "The total amount must be greater than zero.",
            ErrorCode::CompanyNameTooLong => "The company name must not exceed 50 characters.",
            ErrorCode::CalculationOverflow => "Math calculation overflowed.",
        }
    }
}

} // verus!
