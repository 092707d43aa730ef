use vstd::prelude::*;

use anchor_lang::prelude::{Clock, ProgramError, SolanaSysvar};

verus! {

/// The error that the cluster runtime reports.
#[verifier::external_type_specification]
#[verifier::external_body]
pub struct ExProgramError(ProgramError);

/// `Clock::get()`, keeping the clock's `unix_timestamp`: the cluster's
/// current time in seconds, or the runtime's error when the clock sysvar
/// cannot be read. Nothing is claimed of the time it reads.
#[verifier::external_body]
pub(crate) fn current_unix_timestamp() -> (r: Result<i64, ProgramError>) {
    Clock::get().map(|clock| clock.unix_timestamp)
}

} // verus!
