//! The reward accrual engine: interest on a stake over elapsed time.

use crate::constants::BPS_DENOMINATOR;
use crate::constants::SECONDS_PER_YEAR;
use crate::error::SkillStakeError;
use crate::state::StakeAccount;
use crate::state::StakeRecord;
use vstd::prelude::*;

verus! {

/// The divisor of the interest formula: basis points in a whole times seconds in a year.
pub open spec fn interest_divisor() -> nat {
    (BPS_DENOMINATOR * SECONDS_PER_YEAR) as nat
}

/// The divisor written out.
pub proof fn lemma_interest_divisor()
    ensures
        interest_divisor() == 315_360_000_000,
{
    let bps: int = BPS_DENOMINATOR as int;
    let year: int = SECONDS_PER_YEAR as int;
    assert(bps * year == 315_360_000_000) by (nonlinear_arith)
        requires
            bps == 10_000,
            year == 31_536_000,
    ;
}

/// The seconds from `last` to `now` as a signed 64-bit clock tells them: their
/// difference where it fits in 64 bits, else zero.
pub open spec fn elapsed_seconds(last: int, now: int) -> int {
    if i64::MIN <= now - last <= i64::MAX {
        now - last
    } else {
        0
    }
}

/// The interest on `amount_staked` at `apr_bps` basis points a year over
/// `elapsed` seconds, rounded down.
pub open spec fn accrued_interest(amount_staked: nat, apr_bps: nat, elapsed: nat) -> nat {
    (amount_staked * apr_bps * elapsed) / interest_divisor()
}

/// The interest that an accrual pass at `now` adds to a record: none where no
/// time has passed, the clock went back, or nothing is staked.
pub open spec fn interest_due(record: StakeRecord, apr_bps: nat, now: int) -> nat {
    let elapsed = elapsed_seconds(record.last_accrued_ts, now);
    if elapsed <= 0 || record.amount_staked == 0 {
        0
    } else {
        accrued_interest(record.amount_staked, apr_bps, elapsed as nat)
    }
}

/// Whether the pending rewards would leave 64 bits in an accrual pass at `now`.
pub open spec fn accrual_overflows(record: StakeRecord, apr_bps: nat, now: int) -> bool {
    record.pending_rewards + interest_due(record, apr_bps, now) > u64::MAX
}

/// The record after an accrual pass at `now`: the interest due is added to
/// the pending rewards and the pass is dated `now`.
pub open spec fn accrued(record: StakeRecord, apr_bps: nat, now: int) -> StakeRecord {
    StakeRecord {
        pending_rewards: record.pending_rewards + interest_due(record, apr_bps, now),
        last_accrued_ts: now,
        ..record
    }
}

/// What `accrue_rewards` leaves of a record: the record after the pass, or
/// the record as it was where the pass is refused.
pub open spec fn after_accrual(record: StakeRecord, apr_bps: nat, now: int) -> StakeRecord {
    if accrual_overflows(record, apr_bps, now) {
        record
    } else {
        accrued(record, apr_bps, now)
    }
}

/// Computes the pending rewards that an accrual pass at `now_ts` leaves,
/// without touching the record.
pub fn pending_after_accrual(account: &StakeAccount, apr_bps: u64, now_ts: i64) -> (pending: Result<
    u64,
    SkillStakeError,
>)
    ensures
        accrual_overflows(account@, apr_bps as nat, now_ts as int) ==> pending == Err::<
            u64,
            SkillStakeError,
        >(SkillStakeError::MathOverflow),
        !accrual_overflows(account@, apr_bps as nat, now_ts as int) ==> pending is Ok
            && pending->Ok_0 == account@.pending_rewards + interest_due(
            account@,
            apr_bps as nat,
            now_ts as int,
        ),
{
    let elapsed: i64 = match now_ts.checked_sub(account.last_accrued_ts) {
        Some(e) => e,
        None => 0,
    };
    if elapsed <= 0 || account.amount_staked == 0 {
        return Ok(account.pending_rewards);
    }
    proof {
        lemma_interest_divisor();
    }
    let stake_amount: u128 = account.amount_staked as u128;
    let apr: u128 = apr_bps as u128;
    let elapsed_u: u128 = elapsed as u128;
    assert(stake_amount * apr <= 0xffff_ffff_ffff_ffff * 0xffff_ffff_ffff_ffff) by (nonlinear_arith)
        requires
            stake_amount <= 0xffff_ffff_ffff_ffff,
            apr <= 0xffff_ffff_ffff_ffff,
    ;
    let weighted: u128 = match stake_amount.checked_mul(apr) {
        Some(w) => w,
        None => { return Err(SkillStakeError::MathOverflow); },
    };
    let numerator: u128 = match weighted.checked_mul(elapsed_u) {
        Some(n) => n,
        None => { return Err(SkillStakeError::MathOverflow); },
    };
    let denominator: u128 = match (BPS_DENOMINATOR as u128).checked_mul(SECONDS_PER_YEAR as u128) {
        Some(d) => d,
        None => { return Err(SkillStakeError::MathOverflow); },
    };
    let newly_accrued: u128 = match numerator.checked_div(denominator) {
        Some(q) => q,
        None => { return Err(SkillStakeError::MathOverflow); },
    };
    if newly_accrued > u64::MAX as u128 {
        return Err(SkillStakeError::MathOverflow);
    }
    match account.pending_rewards.checked_add(newly_accrued as u64) {
        Some(p) => Ok(p),
        None => Err(SkillStakeError::MathOverflow),
    }
}

/// Brings the pending rewards of a record current as of `now_ts`.
///
/// A clock that did not advance is tolerated: the pass is dated and nothing is
/// added. Where the rewards would leave 64 bits the pass is refused and the
/// record stays as it was.
pub fn accrue_rewards(stake_account: &mut StakeAccount, apr_bps: u64, now_ts: i64) -> (done: Result<
    (),
    SkillStakeError,
>)
    ensures
        accrual_overflows(old(stake_account)@, apr_bps as nat, now_ts as int) ==> done == Err::<
            (),
            SkillStakeError,
        >(SkillStakeError::MathOverflow) && final(stake_account)@ == old(stake_account)@,
        !accrual_overflows(old(stake_account)@, apr_bps as nat, now_ts as int) ==> done == Ok::<
            (),
            SkillStakeError,
        >(()) && final(stake_account)@ == accrued(
            old(stake_account)@,
            apr_bps as nat,
            now_ts as int,
        ),
        final(stake_account)@ == after_accrual(old(stake_account)@, apr_bps as nat, now_ts as int),
{
    match pending_after_accrual(stake_account, apr_bps, now_ts) {
        Ok(pending) => {
            stake_account.pending_rewards = pending;
            stake_account.last_accrued_ts = now_ts;
            Ok(())
        },
        Err(e) => Err(e),
    }
}

} // verus!
