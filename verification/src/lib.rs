//! Token vesting: companies lock tokens in a treasury and employees claim
//! them linearly over a schedule with a cliff.
//!
//! The library holds the program's state records, the checks that every
//! instruction makes on its arguments, and the vesting arithmetic that
//! decides how many tokens a claim releases. Reading the cluster clock,
//! validating accounts and moving tokens are left to the caller.

mod clock;
mod error;
mod laws;
mod program;
mod state;

pub use error::{error_message, ClaimError, ErrorCode};
pub use laws::{
    claims_over, lemma_claim_after_end, lemma_claim_during_schedule, lemma_claim_preserves_wf,
    lemma_claim_refused_before_cliff, lemma_claim_refused_before_start,
    lemma_claim_releases_difference, lemma_vesting_is_linear_from_start,
    lemma_claims_complete_after_end, lemma_claims_in_instalments, lemma_claims_keep_schedule,
    lemma_claims_never_exceed_total, lemma_fully_vested_after_end, lemma_releases_add_up,
    lemma_repeated_claim_refused, lemma_vested_monotonic, released, released_over,
};
pub use program::{
    account_after_claim, claim_available, claim_outcome, claim_tokens, claim_tokens_at, create_employee_vesting,
    create_vesting_account, lemma_vested_within_total, saturating_difference, time_since_start,
    vested_at, vesting_duration, MAX_COMPANY_NAME_LEN,
};
pub use state::{EmployeeAccount, VestingAccount};
