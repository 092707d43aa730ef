use vstd::prelude::*;

use anchor_lang::prelude::Pubkey;

verus! {

/// The address of an account on the cluster. The library only carries it
/// from the instruction's accounts into the records it writes.
#[verifier::external_type_specification]
#[verifier::external_body]
pub struct ExPubkey(Pubkey);

/// Global vesting account storing configuration for a company's vesting program.
pub struct VestingAccount {
    /// Administrator / owner of the vesting program
    pub owner: Pubkey,
    /// Token mint
    pub mint: Pubkey,
    /// Vault account holding the tokens
    pub treasury_token_account: Pubkey,
    /// Company name, at most 50 characters
    pub company_name: String,
    pub treasury_bump: u8,
    pub bump: u8,
}

/// Employee-specific vesting schedule state.
#[derive(Clone, Copy)]
pub struct EmployeeAccount {
    /// Address of the employee
    pub beneficiary: Pubkey,
    /// When the vesting schedule begins (unix timestamp)
    pub start_time: i64,
    /// When the vesting schedule ends (unix timestamp)
    pub end_time: i64,
    /// Total number of tokens to be vested over the period
    pub total_amount: u64,
    /// Number of tokens already claimed
    pub total_withdrawn: u64,
    /// When the first portion of tokens becomes claimable
    pub cliff_time: i64,
    /// Reference to the global vesting account
    pub vesting_account: Pubkey,
    pub bump: u8,
}

impl EmployeeAccount {
    /// The schedule is one that `create_employee_vesting` accepts, and no
    /// more has been withdrawn than the schedule ever releases.
    pub open spec fn wf(self) -> bool {
        &&& self.start_time < self.end_time
        &&& self.cliff_time <= self.end_time
        &&& self.total_amount > 0
        &&& self.total_withdrawn <= self.total_amount
    }
}

} // verus!
