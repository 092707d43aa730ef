use vstd::prelude::*;

use crate::error::ErrorCode;
use crate::program::saturating_difference;
use crate::program::{
    account_after_claim, claim_available, claim_outcome, lemma_vested_within_total,
    time_since_start, vested_at, vesting_duration,
};
use crate::state::EmployeeAccount;

verus! {

/// The tokens that a claim at `now` releases: what it grants, or none when
/// it is refused.
pub open spec fn released(e: EmployeeAccount, now: i64) -> int {
    match claim_outcome(e, now) {
        Ok(amount) => amount as int,
        Err(_) => 0,
    }
}

/// The employee record after one claim at each of `times`, in that order.
pub open spec fn claims_over(e: EmployeeAccount, times: Seq<i64>) -> EmployeeAccount
    decreases times.len(),
{
    if times.len() == 0 {
        e
    } else {
        account_after_claim(claims_over(e, times.drop_last()), times.last())
    }
}

/// The tokens released by one claim at each of `times`, in that order.
pub open spec fn released_over(e: EmployeeAccount, times: Seq<i64>) -> int
    decreases times.len(),
{
    if times.len() == 0 {
        0
    } else {
        released_over(e, times.drop_last()) + released(
            claims_over(e, times.drop_last()),
            times.last(),
        )
    }
}

/// From the end of the schedule on, everything has vested.
pub proof fn lemma_fully_vested_after_end(e: EmployeeAccount, now: i64)
    requires
        now >= e.end_time,
    ensures
        vested_at(e, now) == e.total_amount,
{
}

/// Vesting never goes backwards: once the schedule has begun, a later time
/// has at least as many tokens vested as an earlier one.
pub proof fn lemma_vested_monotonic(e: EmployeeAccount, t1: i64, t2: i64)
    requires
        e.start_time <= t1 <= t2,
    ensures
        vested_at(e, t1) <= vested_at(e, t2),
{
    lemma_vested_within_total(e, t1);
    if t2 < e.end_time {
        let total = e.total_amount as int;
        let d1 = time_since_start(e, t1);
        let d2 = time_since_start(e, t2);
        assert(0 <= d1 <= d2);
        assert(total * d1 <= total * d2) by (nonlinear_arith)
            requires
                0 <= total,
                d1 <= d2,
        ;
        assert(vesting_duration(e) > 0);
        vstd::arithmetic::div_mod::lemma_div_is_ordered(total * d1, total * d2, vesting_duration(e));
    }
}

/// A claim grants exactly what separates the withdrawn total before and after it.
pub proof fn lemma_claim_releases_difference(e: EmployeeAccount, now: i64)
    ensures
        account_after_claim(e, now).total_withdrawn == e.total_withdrawn + released(e, now),
        released(e, now) >= 0,
{
    if claim_available(e, now) {
        lemma_vested_within_total(e, now);
    }
}

/// A claim keeps a well-formed record well-formed: nothing but the withdrawn
/// total changes, and it never rises above `total_amount`.
pub proof fn lemma_claim_preserves_wf(e: EmployeeAccount, now: i64)
    requires
        e.wf(),
    ensures
        account_after_claim(e, now).wf(),
        account_after_claim(e, now).total_withdrawn >= e.total_withdrawn,
{
    lemma_claim_releases_difference(e, now);
    if claim_available(e, now) {
        lemma_vested_within_total(e, now);
    }
}

/// A second claim at the same moment is refused: the first one has already
/// released everything that had vested.
pub proof fn lemma_repeated_claim_refused(e: EmployeeAccount, now: i64)
    ensures
        claim_outcome(account_after_claim(e, now), now) == if claim_available(e, now) {
            Err::<u64, ErrorCode>(ErrorCode::NothingToClaim)
        } else {
            Err::<u64, ErrorCode>(ErrorCode::ClaimNotAvailableYet)
        },
{
    if claim_available(e, now) {
        lemma_vested_within_total(e, now);
    }
}

/// Claiming at `t1` and again at a later `t2` leaves the same record, and
/// releases as many tokens in all, as a single claim at `t2`.
pub proof fn lemma_claims_in_instalments(e: EmployeeAccount, t1: i64, t2: i64)
    requires
        t1 <= t2,
    ensures
        account_after_claim(account_after_claim(e, t1), t2) == account_after_claim(e, t2),
        released(e, t1) + released(account_after_claim(e, t1), t2) == released(e, t2),
{
    let mid = account_after_claim(e, t1);
    lemma_claim_releases_difference(e, t1);
    lemma_claim_releases_difference(mid, t2);
    lemma_claim_releases_difference(e, t2);
    if claim_available(e, t1) {
        lemma_vested_monotonic(e, t1, t2);
        lemma_vested_within_total(e, t2);
        assert(vested_at(mid, t2) == vested_at(e, t2));
    }
}

/// Claims change nothing in a record but its withdrawn total.
pub proof fn lemma_claims_keep_schedule(e: EmployeeAccount, times: Seq<i64>)
    ensures
        claims_over(e, times) == (EmployeeAccount {
            total_withdrawn: claims_over(e, times).total_withdrawn,
            ..e
        }),
    decreases times.len(),
{
    if times.len() > 0 {
        lemma_claims_keep_schedule(e, times.drop_last());
    }
}

/// Over any run of claims, the tokens released add up to the growth of the
/// withdrawn total.
pub proof fn lemma_releases_add_up(e: EmployeeAccount, times: Seq<i64>)
    ensures
        released_over(e, times) == claims_over(e, times).total_withdrawn - e.total_withdrawn,
    decreases times.len(),
{
    if times.len() > 0 {
        lemma_releases_add_up(e, times.drop_last());
        lemma_claim_releases_difference(claims_over(e, times.drop_last()), times.last());
    }
}

/// Over any run of claims, at any times in any order, a well-formed record
/// stays well-formed: no more than `total_amount` is ever withdrawn.
pub proof fn lemma_claims_never_exceed_total(e: EmployeeAccount, times: Seq<i64>)
    requires
        e.wf(),
    ensures
        claims_over(e, times).wf(),
        released_over(e, times) <= e.total_amount - e.total_withdrawn,
    decreases times.len(),
{
    lemma_releases_add_up(e, times);
    lemma_claims_keep_schedule(e, times);
    if times.len() > 0 {
        lemma_claims_never_exceed_total(e, times.drop_last());
        lemma_claim_preserves_wf(claims_over(e, times.drop_last()), times.last());
    }
}

/// A run of claims whose last one comes at or after the end of the schedule
/// has withdrawn exactly `total_amount`: the employee gets every token, once.
pub proof fn lemma_claims_complete_after_end(e: EmployeeAccount, times: Seq<i64>)
    requires
        e.wf(),
        times.len() > 0,
        times.last() >= e.end_time,
    ensures
        claims_over(e, times).total_withdrawn == e.total_amount,
        released_over(e, times) == e.total_amount - e.total_withdrawn,
{
    lemma_releases_add_up(e, times);
    lemma_claims_never_exceed_total(e, times.drop_last());
    lemma_claims_keep_schedule(e, times.drop_last());
    let before = claims_over(e, times.drop_last());
    lemma_fully_vested_after_end(before, times.last());
}

/// A claim before the cliff is refused as not yet available, and leaves the
/// record as it was, whatever the rest of the schedule says.
pub proof fn lemma_claim_refused_before_cliff(e: EmployeeAccount, now: i64)
    requires
        now < e.cliff_time,
    ensures
        claim_outcome(e, now) == Err::<u64, ErrorCode>(ErrorCode::ClaimNotAvailableYet),
        account_after_claim(e, now) == e,
{
}

/// A claim before the schedule starts is refused as not yet available, and
/// leaves the record as it was, even where the cliff lies before the start.
pub proof fn lemma_claim_refused_before_start(e: EmployeeAccount, now: i64)
    requires
        now < e.start_time,
    ensures
        claim_outcome(e, now) == Err::<u64, ErrorCode>(ErrorCode::ClaimNotAvailableYet),
        account_after_claim(e, now) == e,
{
}

/// Between the start and the end of a schedule whose length fits in `i64`,
/// the vested amount is the elapsed share of `total_amount`, measured from
/// `start_time` and rounded down, whatever `cliff_time` is.
pub proof fn lemma_vesting_is_linear_from_start(e: EmployeeAccount, now: i64)
    requires
        e.start_time <= now < e.end_time,
        e.end_time - e.start_time <= i64::MAX,
    ensures
        vested_at(e, now) == (e.total_amount as int * (now - e.start_time)) / (e.end_time
            - e.start_time),
{
    assert(saturating_difference(e.end_time, e.start_time) == e.end_time - e.start_time);
    assert(saturating_difference(now, e.start_time) == now - e.start_time);
}

/// A claim after the cliff and before the end of a schedule whose length
/// fits in `i64` releases the linear share vested since `start_time` less
/// what was already withdrawn, and is refused as having nothing to claim
/// exactly when that share has all been withdrawn.
pub proof fn lemma_claim_during_schedule(e: EmployeeAccount, now: i64)
    requires
        e.cliff_time <= now,
        e.start_time <= now < e.end_time,
        e.end_time - e.start_time <= i64::MAX,
    ensures
        ({
            let share = (e.total_amount as int * (now - e.start_time)) / (e.end_time
                - e.start_time);
            &&& share <= e.total_withdrawn ==> claim_outcome(e, now) == Err::<u64, ErrorCode>(
                ErrorCode::NothingToClaim,
            ) && account_after_claim(e, now) == e
            &&& share > e.total_withdrawn ==> claim_outcome(e, now) == Ok::<u64, ErrorCode>(
                (share - e.total_withdrawn) as u64,
            ) && account_after_claim(e, now).total_withdrawn == share
        }),
{
    lemma_vesting_is_linear_from_start(e, now);
    lemma_vested_within_total(e, now);
}

/// A claim at or after the end of the schedule, once the cliff has passed,
/// releases everything not yet withdrawn, and is refused as having nothing
/// to claim exactly when all of `total_amount` has been withdrawn.
pub proof fn lemma_claim_after_end(e: EmployeeAccount, now: i64)
    requires
        e.cliff_time <= now,
        e.start_time <= now,
        e.end_time <= now,
    ensures
        e.total_amount <= e.total_withdrawn ==> claim_outcome(e, now) == Err::<u64, ErrorCode>(
            ErrorCode::NothingToClaim,
        ) && account_after_claim(e, now) == e,
        e.total_amount > e.total_withdrawn ==> claim_outcome(e, now) == Ok::<u64, ErrorCode>(
            (e.total_amount - e.total_withdrawn) as u64,
        ) && account_after_claim(e, now).total_withdrawn == e.total_amount,
{
}

} // verus!
