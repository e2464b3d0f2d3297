//! Laws of the ledger: what holds of every call and of every run of calls.

use crate::accrual::accrual_overflows;
use crate::accrual::accrued;
use crate::accrual::after_accrual;
use crate::accrual::elapsed_seconds;
use crate::accrual::interest_due;
use crate::error::SkillStakeError;
use crate::ledger::claim_outcome;
use crate::ledger::claim_refusal;
use crate::ledger::claimable;
use crate::ledger::faucet_outcome;
use crate::ledger::faucet_refusal;
use crate::ledger::stake_outcome;
use crate::ledger::stake_refusal;
use crate::ledger::unstake_outcome;
use crate::ledger::unstake_refusal;
use crate::ledger::ClaimView;
use crate::ledger::Faucet;
use crate::ledger::FaucetView;
use crate::ledger::StakeView;
use crate::ledger::UnstakeView;
use crate::policy::initial_policy;
use crate::policy::set_pow_config_refusal;
use crate::policy::InitializeView;
use crate::policy::OracleUpdateView;
use crate::pow::proof_encoding;
use crate::pow::proof_outcome;
use crate::pow::proof_refusal;
use crate::pow::RecordProofView;
use crate::state::PolicyRecord;
use crate::state::StakeRecord;
use vstd::bytes::lemma_auto_spec_u64_to_from_le_bytes;
use vstd::prelude::*;

verus! {

/// What all the given participants have staked together.
pub open spec fn sum_staked(records: Seq<StakeRecord>) -> nat
    decreases records.len(),
{
    if records.len() == 0 {
        0
    } else {
        sum_staked(records.drop_last()) + records.last().amount_staked
    }
}

/// Replacing one record changes the sum by the difference of the two stakes.
pub proof fn lemma_sum_after_update(records: Seq<StakeRecord>, i: int, record: StakeRecord)
    requires
        0 <= i < records.len(),
    ensures
        sum_staked(records.update(i, record)) + records[i].amount_staked == sum_staked(records)
            + record.amount_staked,
    decreases records.len(),
{
    let updated = records.update(i, record);
    if i == records.len() - 1 {
        assert(updated.drop_last() =~= records.drop_last());
    } else {
        lemma_sum_after_update(records.drop_last(), i, record);
        assert(updated.drop_last() =~= records.drop_last().update(i, record));
    }
}

/// A call that moves stake: in or out, of some amount, at some time.
pub enum Movement {
    Stake { amount: nat, now: int },
    Unstake { amount: nat, now: int },
}

/// The policy and a participant's record after one movement by that
/// participant. A refused movement leaves both as they were.
pub open spec fn after_movement(
    caller: Seq<u8>,
    token: Seq<u8>,
    bump: nat,
    policy: PolicyRecord,
    record: StakeRecord,
    call: Movement,
) -> (PolicyRecord, StakeRecord) {
    match call {
        Movement::Stake { amount, now } => {
            let pre = StakeView {
                user: caller,
                mint: token,
                state: policy,
                stake_account: record,
                stake_account_bump: bump,
            };
            if stake_refusal(pre, amount, now) is None {
                (stake_outcome(pre, amount, now).state, stake_outcome(pre, amount, now).stake_account)
            } else {
                (policy, record)
            }
        },
        Movement::Unstake { amount, now } => {
            let pre = UnstakeView { user: caller, mint: token, state: policy, stake_account: record };
            if unstake_refusal(pre, amount, now) is None {
                (
                    unstake_outcome(pre, amount, now).state,
                    unstake_outcome(pre, amount, now).stake_account,
                )
            } else {
                (policy, record)
            }
        },
    }
}

/// The policy and a participant's record after a run of movements by that
/// participant, in order.
pub open spec fn after_movements(
    caller: Seq<u8>,
    token: Seq<u8>,
    bump: nat,
    policy: PolicyRecord,
    record: StakeRecord,
    calls: Seq<Movement>,
) -> (PolicyRecord, StakeRecord)
    decreases calls.len(),
{
    if calls.len() == 0 {
        (policy, record)
    } else {
        let before = after_movements(caller, token, bump, policy, record, calls.drop_last());
        after_movement(caller, token, bump, before.0, before.1, calls.last())
    }
}

/// One movement changes the policy's total by exactly what it changes the
/// participant's stake by.
pub proof fn law_movement_keeps_balance(
    caller: Seq<u8>,
    token: Seq<u8>,
    bump: nat,
    policy: PolicyRecord,
    record: StakeRecord,
    call: Movement,
)
    ensures
        ({
            let after = after_movement(caller, token, bump, policy, record, call);
            after.0.total_staked + record.amount_staked == policy.total_staked
                + after.1.amount_staked
        }),
{
}

/// Where the policy's total is the sum of what all participants have staked,
/// it still is after any run of stake and unstake calls by one of them.
pub proof fn law_total_staked_is_sum(
    records: Seq<StakeRecord>,
    i: int,
    caller: Seq<u8>,
    token: Seq<u8>,
    bump: nat,
    policy: PolicyRecord,
    calls: Seq<Movement>,
)
    requires
        0 <= i < records.len(),
        policy.total_staked == sum_staked(records),
    ensures
        ({
            let after = after_movements(caller, token, bump, policy, records[i], calls);
            after.0.total_staked == sum_staked(records.update(i, after.1))
        }),
    decreases calls.len(),
{
    if calls.len() == 0 {
        assert(records.update(i, records[i]) =~= records);
    } else {
        let before = after_movements(caller, token, bump, policy, records[i], calls.drop_last());
        let after = after_movement(caller, token, bump, before.0, before.1, calls.last());
        law_total_staked_is_sum(records, i, caller, token, bump, policy, calls.drop_last());
        law_movement_keeps_balance(caller, token, bump, before.0, before.1, calls.last());
        lemma_sum_after_update(records, i, before.1);
        lemma_sum_after_update(records, i, after.1);
    }
}

/// A new policy has nothing staked, which is the sum over no participants.
pub proof fn law_new_policy_is_balanced(
    deployment: InitializeView,
    apr_bps: nat,
    faucet_cap: nat,
    pow_reward: nat,
    pow_difficulty: nat,
    oracle_authority: Seq<u8>,
)
    ensures
        initial_policy(
            deployment,
            apr_bps,
            faucet_cap,
            pow_reward,
            pow_difficulty,
            oracle_authority,
        ).total_staked == sum_staked(Seq::empty()),
{
}

/// A participant who joins with nothing staked leaves the sum as it was.
pub proof fn law_new_participant_keeps_balance(records: Seq<StakeRecord>, record: StakeRecord)
    requires
        record.amount_staked == 0,
    ensures
        sum_staked(records.push(record)) == sum_staked(records),
{
    assert(records.push(record).drop_last() =~= records);
}

/// Claims, faucet calls and proofs move no stake: they leave the policy and
/// what the participant has staked as they were.
pub proof fn law_other_calls_move_no_stake(
    claiming: ClaimView,
    drawing: FaucetView,
    proving: RecordProofView,
    amount: nat,
    task_id: u64,
    nonce: u64,
    hash: Seq<u8>,
    now: int,
)
    ensures
        claim_outcome(claiming, now).state == claiming.state,
        claim_outcome(claiming, now).stake_account.amount_staked
            == claiming.stake_account.amount_staked,
        faucet_outcome(drawing, amount).state == drawing.state,
        faucet_outcome(drawing, amount).stake_account.amount_staked
            == drawing.stake_account.amount_staked,
        proof_outcome(proving, task_id, nonce, hash, now).state == proving.state,
        proof_outcome(proving, task_id, nonce, hash, now).stake_account.amount_staked
            == proving.stake_account.amount_staked,
{
}

/// An accrual pass at the time of the last one changes nothing: of two
/// calls of `accrue_rewards` with the same `now`, the second leaves the record
/// as the first left it. After an accepted pass this holds of a second pass
/// at any rate, which is always accepted.
pub proof fn law_accrual_is_idempotent(record: StakeRecord, apr_bps: nat, rate_again: nat, now: int)
    ensures
        after_accrual(after_accrual(record, apr_bps, now), apr_bps, now) == after_accrual(
            record,
            apr_bps,
            now,
        ),
        !accrual_overflows(record, apr_bps, now) ==> !accrual_overflows(
            accrued(record, apr_bps, now),
            rate_again,
            now,
        ) && accrued(accrued(record, apr_bps, now), rate_again, now) == accrued(
            record,
            apr_bps,
            now,
        ),
{
    if !accrual_overflows(record, apr_bps, now) {
        let once = accrued(record, apr_bps, now);
        assert(elapsed_seconds(once.last_accrued_ts, now) == 0);
        assert(interest_due(once, rate_again, now) == 0);
        assert(interest_due(once, apr_bps, now) == 0);
    }
}

/// A proof for a task that is not above the last accepted one is refused,
/// whatever its hash, and so whatever its nonce.
pub proof fn law_replayed_task_is_refused(pre: RecordProofView, task_id: u64, hash: Seq<u8>, now: int)
    requires
        task_id <= pre.stake_account.last_task_id,
    ensures
        proof_refusal(pre, task_id, hash, now) == Some(
            if pre.stake_account.owner != pre.user {
                SkillStakeError::Unauthorized
            } else {
                SkillStakeError::ProofTaskReplay
            },
        ),
{
}

/// The task of an accepted proof is above the last accepted one and becomes
/// the last: the task identifiers on a record only increase.
pub proof fn law_task_ids_increase(
    pre: RecordProofView,
    task_id: u64,
    nonce: u64,
    hash: Seq<u8>,
    now: int,
)
    requires
        proof_refusal(pre, task_id, hash, now) is None,
    ensures
        proof_outcome(pre, task_id, nonce, hash, now).stake_account.last_task_id
            > pre.stake_account.last_task_id,
        proof_outcome(pre, task_id, nonce, hash, now).stake_account.last_task_id == task_id,
{
}

/// A faucet call that would take what the faucet has issued to the
/// participant beyond the cap is refused, whoever calls and whatever else
/// holds.
pub proof fn law_faucet_refuses_beyond_cap(pre: FaucetView, amount: nat)
    requires
        pre.stake_account.faucet_claimed + amount > pre.state.faucet_cap,
    ensures
        faucet_refusal(pre, amount) is Some,
{
}

/// A faucet call by the record's participant, for a positive amount of the
/// policy's token type, is accepted exactly where what the faucet has issued
/// to the participant stays within the cap, the cap itself included.
pub proof fn law_faucet_accepts_up_to_cap(ctx: Faucet, amount: u64)
    requires
        amount > 0,
        ctx@.state.token_ref == ctx@.mint,
        ctx@.stake_account.is_uninitialized() || ctx@.stake_account.owner == ctx@.user,
    ensures
        faucet_refusal(ctx@, amount as nat) is None <==> ctx@.stake_account.faucet_claimed + amount
            <= ctx@.state.faucet_cap,
        faucet_refusal(ctx@, amount as nat) is None ==> faucet_outcome(
            ctx@,
            amount as nat,
        ).stake_account.faucet_claimed <= ctx@.state.faucet_cap,
{
}

/// What a claim pays out is what was pending plus the interest due, and an
/// accepted claim leaves nothing pending.
pub proof fn law_claim_pays_pending_and_interest(pre: ClaimView, now: int)
    requires
        claim_refusal(pre, now) is None,
    ensures
        claimable(pre, now) == pre.stake_account.pending_rewards + interest_due(
            pre.stake_account,
            pre.state.apr_bps,
            now,
        ),
        claimable(pre, now) > 0,
        claim_outcome(pre, now).stake_account.pending_rewards == 0,
{
}

/// The stored form of a proof takes 48 bytes, so it always fits the audit
/// trail: no attempt is refused for its size, and an accepted one leaves a
/// record within its bounds.
pub proof fn law_proof_fits_the_trail(
    pre: RecordProofView,
    task_id: u64,
    nonce: u64,
    hash: Seq<u8>,
    now: int,
)
    requires
        hash.len() == 32,
    ensures
        proof_encoding(task_id, nonce, hash).len() == 48,
        proof_refusal(pre, task_id, hash, now) != Some(SkillStakeError::ProofTooLarge),
        proof_outcome(pre, task_id, nonce, hash, now).stake_account.wf(),
{
    lemma_auto_spec_u64_to_from_le_bytes();
}

/// An accepted proof adds exactly the policy's bonus to what is pending
/// after accrual.
pub proof fn law_proof_pays_bonus(
    pre: RecordProofView,
    task_id: u64,
    nonce: u64,
    hash: Seq<u8>,
    now: int,
)
    requires
        proof_refusal(pre, task_id, hash, now) is None,
    ensures
        proof_outcome(pre, task_id, nonce, hash, now).stake_account.pending_rewards
            == pre.stake_account.pending_rewards + interest_due(
            pre.stake_account,
            pre.state.apr_bps,
            now,
        ) + pre.state.pow_reward,
{
}

/// The call to `stake` that follows an accepted proof by the same participant.
pub open spec fn stake_after_proof(
    proving: RecordProofView,
    task_id: u64,
    nonce: u64,
    hash: Seq<u8>,
    proved_at: int,
    token: Seq<u8>,
    bump: nat,
) -> StakeView {
    StakeView {
        user: proving.user,
        mint: token,
        state: proving.state,
        stake_account: proof_outcome(proving, task_id, nonce, hash, proved_at).stake_account,
        stake_account_bump: bump,
    }
}

/// The call to `claim` that follows an accepted call to `stake`.
pub open spec fn claim_after_stake(staking: StakeView, amount: nat, staked_at: int) -> ClaimView {
    ClaimView {
        user: staking.user,
        mint: staking.mint,
        state: stake_outcome(staking, amount, staked_at).state,
        stake_account: stake_outcome(staking, amount, staked_at).stake_account,
    }
}

/// A claim that follows an accepted proof and an accepted stake pays out
/// what was pending before them, the interest of each of the three accrual
/// passes and the bonus of the proof, and leaves nothing pending. Refused
/// attempts in between leave no trace and so change none of it.
pub proof fn law_claim_collects_interest_and_bonus(
    proving: RecordProofView,
    task_id: u64,
    nonce: u64,
    hash: Seq<u8>,
    proved_at: int,
    token: Seq<u8>,
    bump: nat,
    amount: nat,
    staked_at: int,
    claimed_at: int,
)
    requires
        !proving.stake_account.is_uninitialized(),
        proof_refusal(proving, task_id, hash, proved_at) is None,
        stake_refusal(
            stake_after_proof(proving, task_id, nonce, hash, proved_at, token, bump),
            amount,
            staked_at,
        ) is None,
        claim_refusal(
            claim_after_stake(
                stake_after_proof(proving, task_id, nonce, hash, proved_at, token, bump),
                amount,
                staked_at,
            ),
            claimed_at,
        ) is None,
    ensures
        ({
            let rate = proving.state.apr_bps;
            let staking = stake_after_proof(proving, task_id, nonce, hash, proved_at, token, bump);
            let claiming = claim_after_stake(staking, amount, staked_at);
            &&& claimable(claiming, claimed_at) == proving.stake_account.pending_rewards
                + interest_due(proving.stake_account, rate, proved_at) + proving.state.pow_reward
                + interest_due(staking.stake_account, rate, staked_at) + interest_due(
                claiming.stake_account,
                rate,
                claimed_at,
            )
            &&& claim_outcome(claiming, claimed_at).stake_account.pending_rewards == 0
        }),
{
}

/// An oracle update whose nonce is not above the stored one is refused,
/// whoever sends it and whatever it asks for.
pub proof fn law_stale_oracle_update_is_refused(
    pre: OracleUpdateView,
    pow_difficulty: nat,
    oracle_nonce: nat,
)
    requires
        oracle_nonce <= pre.state.oracle_nonce,
    ensures
        set_pow_config_refusal(pre, pow_difficulty, oracle_nonce) is Some,
{
}

/// Once a record has an owner it keeps that owner: no accepted call of the
/// ledger hands a record to another participant.
pub proof fn law_owner_is_immutable(
    staking: StakeView,
    unstaking: UnstakeView,
    claiming: ClaimView,
    drawing: FaucetView,
    proving: RecordProofView,
    amount: nat,
    task_id: u64,
    nonce: u64,
    hash: Seq<u8>,
    now: int,
)
    ensures
        !staking.stake_account.is_uninitialized() && stake_refusal(staking, amount, now) is None
            ==> stake_outcome(staking, amount, now).stake_account.owner
            == staking.stake_account.owner,
        staking.stake_account.is_uninitialized() && stake_refusal(staking, amount, now) is None
            ==> stake_outcome(staking, amount, now).stake_account.owner == staking.user,
        unstake_outcome(unstaking, amount, now).stake_account.owner
            == unstaking.stake_account.owner,
        claim_outcome(claiming, now).stake_account.owner == claiming.stake_account.owner,
        !drawing.stake_account.is_uninitialized() && faucet_refusal(drawing, amount) is None
            ==> faucet_outcome(drawing, amount).stake_account.owner == drawing.stake_account.owner,
        drawing.stake_account.is_uninitialized() && faucet_refusal(drawing, amount) is None
            ==> faucet_outcome(drawing, amount).stake_account.owner == drawing.user,
        proof_outcome(proving, task_id, nonce, hash, now).stake_account.owner
            == proving.stake_account.owner,
{
}

} // verus!
