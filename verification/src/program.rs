use vstd::prelude::*;

use anchor_lang::prelude::Pubkey;

use crate::clock::current_unix_timestamp;
use crate::error::{ClaimError, ErrorCode};
use crate::laws::{
    lemma_claim_after_end, lemma_claim_during_schedule, lemma_claim_refused_before_cliff,
    lemma_claim_refused_before_start,
};
use crate::state::{EmployeeAccount, VestingAccount};

verus! {

/// The longest company name, in characters, that a vesting account holds.
pub const MAX_COMPANY_NAME_LEN: usize = 50;

/// `a - b` clamped to the range of `i64`, as `i64::saturating_sub` computes it.
pub open spec fn saturating_difference(a: i64, b: i64) -> int {
    if a - b > i64::MAX {
        i64::MAX as int
    } else if a - b < i64::MIN {
        i64::MIN as int
    } else {
        a - b
    }
}

/// The length of the whole schedule, in seconds.
pub open spec fn vesting_duration(e: EmployeeAccount) -> int {
    saturating_difference(e.end_time, e.start_time)
}

/// The time that has passed since the schedule started, in seconds.
pub open spec fn time_since_start(e: EmployeeAccount, now: i64) -> int {
    saturating_difference(now, e.start_time)
}

/// The tokens that have vested at `now`: all of them from the end of the
/// schedule on, before that the share of `total_amount` that the elapsed
/// part of the schedule stands for, rounded down.
pub open spec fn vested_at(e: EmployeeAccount, now: i64) -> int {
    if now >= e.end_time {
        e.total_amount as int
    } else {
        (e.total_amount as int * time_since_start(e, now)) / vesting_duration(e)
    }
}

/// A claim may be made at `now`: the cliff has passed and the schedule has begun.
pub open spec fn claim_available(e: EmployeeAccount, now: i64) -> bool {
    now >= e.cliff_time && now >= e.start_time
}

/// What a claim at `now` answers: a refusal, or the number of tokens it releases.
pub open spec fn claim_outcome(e: EmployeeAccount, now: i64) -> Result<u64, ErrorCode> {
    if !claim_available(e, now) {
        Err(ErrorCode::ClaimNotAvailableYet)
    } else if vested_at(e, now) <= e.total_withdrawn {
        Err(ErrorCode::NothingToClaim)
    } else {
        Ok((vested_at(e, now) - e.total_withdrawn) as u64)
    }
}

/// The employee record after a claim at `now`: a granted claim brings the
/// withdrawn total up to what has vested, a refused one changes nothing.
pub open spec fn account_after_claim(e: EmployeeAccount, now: i64) -> EmployeeAccount {
    match claim_outcome(e, now) {
        Ok(_) => EmployeeAccount { total_withdrawn: vested_at(e, now) as u64, ..e },
        Err(_) => e,
    }
}

/// `a.saturating_sub(b)` on `i64`.
fn saturating_sub_i64(a: i64, b: i64) -> (r: i64)
    ensures
        r == saturating_difference(a, b),
{
    match a.checked_sub(b) {
        Some(d) => d,
        None => if b < 0 {
            i64::MAX
        } else {
            i64::MIN
        },
    }
}

proof fn lemma_saturating_difference_monotonic(a1: i64, a2: i64, b: i64)
    requires
        a1 <= a2,
    ensures
        saturating_difference(a1, b) <= saturating_difference(a2, b),
{
}

proof fn lemma_scaled_share_bounds(total: int, part: int, whole: int)
    requires
        0 <= total,
        0 <= part <= whole,
        0 < whole,
    ensures
        0 <= (total * part) / whole <= total,
{
    assert(0 <= total * part <= total * whole) by (nonlinear_arith)
        requires
            0 <= total,
            0 <= part <= whole,
    ;
    assert((total * whole) / whole == total) by (nonlinear_arith)
        requires
            0 < whole,
    ;
    vstd::arithmetic::div_mod::lemma_div_is_ordered(total * part, total * whole, whole);
    vstd::arithmetic::div_mod::lemma_div_pos_is_pos(total * part, whole);
}

/// Once the schedule has begun, what has vested lies between nothing and
/// `total_amount`.
pub proof fn lemma_vested_within_total(e: EmployeeAccount, now: i64)
    requires
        now >= e.start_time,
    ensures
        0 <= vested_at(e, now) <= e.total_amount,
{
    if now < e.end_time {
        lemma_saturating_difference_monotonic(now, e.end_time, e.start_time);
        lemma_scaled_share_bounds(
            e.total_amount as int,
            time_since_start(e, now),
            vesting_duration(e),
        );
    }
}

/// The tokens vested at `now`; the schedule has begun by `now`.
fn vested_amount(e: &EmployeeAccount, now: i64) -> (r: Result<u64, ErrorCode>)
    requires
        now >= e.start_time,
    ensures
        r == Ok::<u64, ErrorCode>(vested_at(*e, now) as u64),
        0 <= vested_at(*e, now) <= e.total_amount,
{
    proof {
        lemma_vested_within_total(*e, now);
    }
    let total_vesting_time = saturating_sub_i64(e.end_time, e.start_time);
    let elapsed = saturating_sub_i64(now, e.start_time);
    if now >= e.end_time {
        Ok(e.total_amount)
    } else {
        proof {
            lemma_saturating_difference_monotonic(now, e.end_time, e.start_time);
            assert(0 <= elapsed <= total_vesting_time);
            assert(0 < total_vesting_time);
            assert((e.total_amount as int) * (elapsed as int) <= (u64::MAX as int) * (i64::MAX as int))
                by (nonlinear_arith)
                requires
                    0 <= elapsed <= i64::MAX,
                    e.total_amount <= u64::MAX,
            ;
        }
        let product = match (e.total_amount as u128).checked_mul(elapsed as u128) {
            Some(p) => p,
            None => return Err(ErrorCode::CalculationOverflow),
        };
        let vested = match product.checked_div(total_vesting_time as u128) {
            Some(v) => v,
            None => return Err(ErrorCode::CalculationOverflow),
        };
        Ok(vested as u64)
    }
}

/// Creates a new vesting account record to manage a company's token vesting
/// schedules. The company name may hold at most 50 characters.
pub fn create_vesting_account(
    owner: Pubkey,
    mint: Pubkey,
    treasury_token_account: Pubkey,
    treasury_bump: u8,
    bump: u8,
    company_name: String,
) -> (r: Result<VestingAccount, ErrorCode>)
    ensures
        company_name@.len() > MAX_COMPANY_NAME_LEN ==> r == Err::<
            VestingAccount,
            ErrorCode,
        >(ErrorCode::CompanyNameTooLong),
        company_name@.len() <= MAX_COMPANY_NAME_LEN ==> r is Ok,
        r matches Ok(a) ==> {
            &&& a.owner == owner
            &&& a.mint == mint
            &&& a.treasury_token_account == treasury_token_account
            &&& a.company_name@ == company_name@
            &&& a.treasury_bump == treasury_bump
            &&& a.bump == bump
        },
{
    if company_name.as_str().unicode_len() > MAX_COMPANY_NAME_LEN {
        return Err(ErrorCode::CompanyNameTooLong);
    }
    Ok(VestingAccount { owner, mint, treasury_token_account, company_name, treasury_bump, bump })
}

/// Creates a vesting schedule for a specific employee (beneficiary): the
/// schedule must start before it ends, its cliff may not lie after its end,
/// and it must release at least one token.
pub fn create_employee_vesting(
    beneficiary: Pubkey,
    vesting_account: Pubkey,
    bump: u8,
    start_time: i64,
    end_time: i64,
    total_amount: u64,
    cliff_time: i64,
) -> (r: Result<EmployeeAccount, ErrorCode>)
    ensures
        !(start_time < end_time && cliff_time <= end_time) ==> r == Err::<
            EmployeeAccount,
            ErrorCode,
        >(ErrorCode::InvalidVestingPeriod),
        start_time < end_time && cliff_time <= end_time && total_amount == 0 ==> r == Err::<
            EmployeeAccount,
            ErrorCode,
        >(ErrorCode::InvalidAmount),
        start_time < end_time && cliff_time <= end_time && total_amount > 0 ==> r is Ok,
        r matches Ok(a) ==> {
            &&& a.beneficiary == beneficiary
            &&& a.start_time == start_time
            &&& a.end_time == end_time
            &&& a.total_amount == total_amount
            &&& a.total_withdrawn == 0
            &&& a.cliff_time == cliff_time
            &&& a.vesting_account == vesting_account
            &&& a.bump == bump
            &&& a.wf()
        },
{
    if !(start_time < end_time) {
        return Err(ErrorCode::InvalidVestingPeriod);
    }
    if !(cliff_time <= end_time) {
        return Err(ErrorCode::InvalidVestingPeriod);
    }
    if !(total_amount > 0) {
        return Err(ErrorCode::InvalidAmount);
    }
    Ok(
        EmployeeAccount {
            beneficiary,
            start_time,
            end_time,
            total_amount,
            total_withdrawn: 0,
            cliff_time,
            vesting_account,
            bump,
        },
    )
}

/// Lets an employee claim the tokens vested at `now`: returns how many
/// tokens the claim releases and records them as withdrawn. The caller
/// moves that many tokens from the treasury to the employee.
pub fn claim_tokens_at(employee_account: &mut EmployeeAccount, now: i64) -> (r: Result<
    u64,
    ErrorCode,
>)
    ensures
        r == claim_outcome(*old(employee_account), now),
        *final(employee_account) == account_after_claim(*old(employee_account), now),
        !claim_available(*old(employee_account), now) ==> r == Err::<u64, ErrorCode>(
            ErrorCode::ClaimNotAvailableYet,
        ),
        r is Err ==> *final(employee_account) == *old(employee_account),
        r != Err::<u64, ErrorCode>(ErrorCode::CalculationOverflow),
        now < old(employee_account).cliff_time || now < old(employee_account).start_time ==> r
            == Err::<u64, ErrorCode>(ErrorCode::ClaimNotAvailableYet) && *final(employee_account)
            == *old(employee_account),
        ({
            let e = *old(employee_account);
            e.cliff_time <= now && e.start_time <= now < e.end_time && e.end_time - e.start_time
                <= i64::MAX ==> {
                let share = (e.total_amount as int * (now - e.start_time)) / (e.end_time
                    - e.start_time);
                &&& share <= e.total_withdrawn ==> r == Err::<u64, ErrorCode>(
                    ErrorCode::NothingToClaim,
                ) && *final(employee_account) == e
                &&& share > e.total_withdrawn ==> r == Ok::<u64, ErrorCode>(
                    (share - e.total_withdrawn) as u64,
                ) && final(employee_account).total_withdrawn == share
            }
        }),
        ({
            let e = *old(employee_account);
            e.cliff_time <= now && e.start_time <= now && e.end_time <= now ==> {
                &&& e.total_amount <= e.total_withdrawn ==> r == Err::<u64, ErrorCode>(
                    ErrorCode::NothingToClaim,
                ) && *final(employee_account) == e
                &&& e.total_amount > e.total_withdrawn ==> r == Ok::<u64, ErrorCode>(
                    (e.total_amount - e.total_withdrawn) as u64,
                ) && final(employee_account).total_withdrawn == e.total_amount
            }
        }),
        r matches Ok(amount) ==> {
            &&& amount > 0
            &&& final(employee_account).total_withdrawn == old(employee_account).total_withdrawn
                + amount
            &&& final(employee_account).total_withdrawn == vested_at(*old(employee_account), now)
        },
{
    proof {
        let e = *employee_account;
        if now < e.cliff_time {
            lemma_claim_refused_before_cliff(e, now);
        } else if now < e.start_time {
            lemma_claim_refused_before_start(e, now);
        } else if now >= e.end_time {
            lemma_claim_after_end(e, now);
        } else if e.end_time - e.start_time <= i64::MAX {
            lemma_claim_during_schedule(e, now);
        }
    }
    if now < employee_account.cliff_time {
        return Err(ErrorCode::ClaimNotAvailableYet);
    }
    if now < employee_account.start_time {
        return Err(ErrorCode::ClaimNotAvailableYet);
    }
    let vested = match vested_amount(employee_account, now) {
        Ok(v) => v,
        Err(e) => return Err(e),
    };
    let claimable = vested.saturating_sub(employee_account.total_withdrawn);
    if claimable == 0 {
        return Err(ErrorCode::NothingToClaim);
    }
    employee_account.total_withdrawn = employee_account.total_withdrawn.saturating_add(claimable);
    Ok(claimable)
}

/// Lets an employee claim the tokens vested at the cluster's current time,
/// as `claim_tokens_at` does at that time. When the clock cannot be read
/// nothing changes.
pub fn claim_tokens(employee_account: &mut EmployeeAccount) -> (r: Result<u64, ClaimError>)
    ensures
        r == Err::<u64, ClaimError>(ClaimError::ClockUnavailable) ==> *final(employee_account)
            == *old(employee_account),
        r matches Err(ClaimError::Refused(code)) ==> {
            &&& *final(employee_account) == *old(employee_account)
            &&& exists|now: i64|
                #[trigger] claim_outcome(*old(employee_account), now) == Err::<u64, ErrorCode>(
                    code,
                )
        },
        r matches Ok(amount) ==> exists|now: i64|
            {
                &&& #[trigger] claim_outcome(*old(employee_account), now) == Ok::<u64, ErrorCode>(
                    amount,
                )
                &&& *final(employee_account) == account_after_claim(*old(employee_account), now)
            },
{
    let now = match current_unix_timestamp() {
        Ok(now) => now,
        Err(_) => return Err(ClaimError::ClockUnavailable),
    };
    match claim_tokens_at(employee_account, now) {
        Ok(amount) => Ok(amount),
        Err(code) => Err(ClaimError::Refused(code)),
    }
}

} // verus!
