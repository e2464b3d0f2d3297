//! The proof-of-work gate: the hash of an attempt and the difficulty test.

use crate::accrual::accrual_overflows;
use crate::accrual::accrued;
use crate::accrual::pending_after_accrual;
use crate::constants::MAX_PROOF_STORAGE;
use crate::constants::POW_DOMAIN;
use crate::error::SkillStakeError;
use crate::identity::Identity;
use crate::state::GlobalState;
use crate::state::PolicyRecord;
use crate::state::StakeAccount;
use crate::state::StakeRecord;
use vstd::bytes::lemma_auto_spec_u64_to_from_le_bytes;
use vstd::bytes::spec_u64_to_le_bytes;
use vstd::bytes::u64_from_le_bytes;
use vstd::bytes::u64_to_le_bytes;
use vstd::prelude::*;
use vstd::slice::slice_subrange;
use vstd::slice::slice_to_vec;
use vstd::std_specs::bits::axiom_u8_leading_zeros;
use vstd::std_specs::bits::u8_leading_zeros;

verus! {

/// The number of zero bits before the first one bit of a byte, 8 for the zero byte.
pub open spec fn byte_leading_zeros(b: u8) -> nat {
    if b >= 128 {
        0
    } else if b >= 64 {
        1
    } else if b >= 32 {
        2
    } else if b >= 16 {
        3
    } else if b >= 8 {
        4
    } else if b >= 4 {
        5
    } else if b >= 2 {
        6
    } else if b >= 1 {
        7
    } else {
        8
    }
}

/// The number of zero bits before the first one bit of a byte string read
/// from its first byte on, each byte from its highest bit on.
pub open spec fn leading_zero_bits(bytes: Seq<u8>) -> nat
    decreases bytes.len(),
{
    if bytes.len() == 0 {
        0
    } else if bytes[0] == 0 {
        8 + leading_zero_bits(bytes.skip(1))
    } else {
        byte_leading_zeros(bytes[0])
    }
}

/// The count that `u8::leading_zeros` returns is the one defined here.
pub proof fn lemma_byte_leading_zeros(b: u8)
    ensures
        u8_leading_zeros(b) == byte_leading_zeros(b),
{
    axiom_u8_leading_zeros(b);
    let z: u8 = u8_leading_zeros(b) as u8;
    if b != 0 {
        assert(z < 8);
        assert((b >> ((7 - z) as u8)) & 1u8 != 0u8);
        assert(b >> ((8 - z) as u8) == 0);
        assert((z == 0 ==> b >= 128) && (z == 1 ==> 64 <= b < 128) && (z == 2 ==> 32 <= b < 64) && (z
            == 3 ==> 16 <= b < 32) && (z == 4 ==> 8 <= b < 16) && (z == 5 ==> 4 <= b < 8) && (z == 6
            ==> 2 <= b < 4) && (z == 7 ==> b == 1)) by (bit_vector)
            requires
                z < 8,
                (b >> ((7 - z) as u8)) & 1u8 != 0u8,
                b >> ((8 - z) as u8) == 0,
        ;
    }
}

/// A string that starts with `n` zero bytes has `8 * n` leading zero bits and
/// those of what follows them.
pub proof fn lemma_zero_prefix(bytes: Seq<u8>, n: nat)
    requires
        n <= bytes.len(),
        forall|j: int| 0 <= j < n ==> bytes[j] == 0u8,
    ensures
        leading_zero_bits(bytes) == 8 * n + leading_zero_bits(bytes.skip(n as int)),
    decreases n,
{
    if n == 0 {
        assert(bytes.skip(0) =~= bytes);
    } else {
        let rest = bytes.skip(1);
        assert(forall|j: int| 0 <= j < n - 1 ==> rest[j] == bytes[j + 1]);
        lemma_zero_prefix(rest, (n - 1) as nat);
        assert(rest.skip(n - 1) =~= bytes.skip(n as int));
    }
}

/// Tells whether a hash has at least `difficulty` leading zero bits.
pub fn meets_difficulty(hash: &[u8; 32], difficulty: u8) -> (met: bool)
    ensures
        met == (leading_zero_bits(hash@) >= difficulty),
{
    if difficulty == 0 {
        return true;
    }
    let mut remaining: u8 = difficulty;
    let mut i: usize = 0;
    while i < 32
        invariant
            i <= 32,
            remaining > 0,
            remaining == difficulty - 8 * i,
            forall|j: int| 0 <= j < i ==> hash@[j] == 0u8,
        decreases 32 - i,
    {
        let byte: u8 = hash[i];
        let zeros: u8 = byte.leading_zeros() as u8;
        proof {
            lemma_byte_leading_zeros(byte);
            lemma_zero_prefix(hash@, i as nat);
            let tail = hash@.skip(i as int);
            assert(tail[0] == byte);
            assert(leading_zero_bits(tail) >= zeros);
            assert(byte != 0 ==> leading_zero_bits(tail) == zeros);
        }
        if zeros >= remaining {
            return true;
        }
        if zeros < 8 {
            return false;
        }
        remaining = remaining.saturating_sub(8);
        i += 1;
    }
    false
}

/// What `keccak::hashv` of the Solana program library returns for the given
/// byte strings: the Keccak-256 digest of the strings taken one after another.
pub uninterp spec fn keccak_hashv(parts: Seq<Seq<u8>>) -> Seq<u8>;

/// Calls `anchor_lang::solana_program::keccak::hashv` on the five byte strings
/// in the order given. The contract claims that the call returns for every
/// input, and that the 32 bytes returned are a function of the five strings
/// alone. Nothing is proved of it.
#[verifier::external_body]
fn hashv(domain: &[u8], caller: &[u8], token: &[u8], task: &[u8], nonce: &[u8]) -> (digest: [u8; 32])
    ensures
        digest@ == keccak_hashv(seq![domain@, caller@, token@, task@, nonce@]),
{
    anchor_lang::solana_program::keccak::hashv(&[domain, caller, token, task, nonce]).0
}

/// The five byte strings that an attempt is hashed over: the domain tag, the
/// caller, the policy's token type, and the task identifier and the nonce,
/// each as eight bytes with the lowest first.
pub open spec fn pow_preimage(caller: Seq<u8>, token: Seq<u8>, task_id: u64, nonce: u64) -> Seq<
    Seq<u8>,
> {
    seq![
        POW_DOMAIN@,
        caller,
        token,
        spec_u64_to_le_bytes(task_id),
        spec_u64_to_le_bytes(nonce),
    ]
}

/// The hash of an attempt.
pub open spec fn pow_digest(caller: Seq<u8>, token: Seq<u8>, task_id: u64, nonce: u64) -> Seq<u8> {
    keccak_hashv(pow_preimage(caller, token, task_id, nonce))
}

/// Computes the hash of the caller's attempt at a task with a nonce.
pub fn pow_hash(caller: &Identity, token: &Identity, task_id: u64, nonce: u64) -> (digest: [u8; 32])
    ensures
        digest@ == pow_digest(caller@, token@, task_id, nonce),
{
    let task = u64_to_le_bytes(task_id);
    let salt = u64_to_le_bytes(nonce);
    hashv(
        POW_DOMAIN.as_slice(),
        caller.bytes.as_slice(),
        token.bytes.as_slice(),
        task.as_slice(),
        salt.as_slice(),
    )
}

/// The trail that an accepted proof leaves: the task, the nonce and the hash
/// that met the difficulty.
#[derive(Clone, Copy, Debug)]
pub struct ProofRecord {
    pub task_id: u64,
    pub nonce: u64,
    pub hash: [u8; 32],
}

/// The stored form of a proof: the task identifier and the nonce, each as
/// eight bytes with the lowest first, then the 32 bytes of the hash.
pub open spec fn proof_encoding(task_id: u64, nonce: u64, hash: Seq<u8>) -> Seq<u8> {
    spec_u64_to_le_bytes(task_id) + spec_u64_to_le_bytes(nonce) + hash
}

impl ProofRecord {
    /// The stored form of this proof.
    pub open spec fn encoding(self) -> Seq<u8> {
        proof_encoding(self.task_id, self.nonce, self.hash@)
    }

    /// Encodes the proof for the audit trail, in 48 bytes.
    pub fn to_vec(&self) -> (encoded: Vec<u8>)
        ensures
            encoded@ == self.encoding(),
            encoded@.len() == 48,
    {
        let mut encoded = u64_to_le_bytes(self.task_id);
        let mut salt = u64_to_le_bytes(self.nonce);
        let mut digest = slice_to_vec(self.hash.as_slice());
        encoded.append(&mut salt);
        encoded.append(&mut digest);
        encoded
    }

    /// Reads a proof back from its stored form: exactly 48 bytes.
    pub fn from_slice(bytes: &[u8]) -> (decoded: Option<ProofRecord>)
        ensures
            decoded is Some <==> bytes@.len() == 48,
            decoded matches Some(p) ==> p.encoding() == bytes@,
    {
        if bytes.len() != 48 {
            return None;
        }
        let task_id = u64_from_le_bytes(slice_subrange(bytes, 0, 8));
        let nonce = u64_from_le_bytes(slice_subrange(bytes, 8, 16));
        let mut hash = [0u8; 32];
        let mut i: usize = 0;
        while i < 32
            invariant
                i <= 32,
                bytes@.len() == 48,
                forall|j: int| 0 <= j < i ==> hash@[j] == bytes@[16 + j],
            decreases 32 - i,
        {
            hash[i] = bytes[16 + i];
            i += 1;
        }
        let decoded = ProofRecord { task_id, nonce, hash };
        proof {
            lemma_auto_spec_u64_to_from_le_bytes();
            assert(spec_u64_to_le_bytes(task_id) == bytes@.subrange(0, 8));
            assert(spec_u64_to_le_bytes(nonce) == bytes@.subrange(8, 16));
            assert(decoded.encoding() =~= bytes@);
        }
        Some(decoded)
    }
}

/// Two proofs with the same stored form are the same proof: reading a
/// stored proof back gives the task, the nonce and the hash that were stored.
pub proof fn lemma_proof_encoding_is_injective(p: ProofRecord, q: ProofRecord)
    requires
        p.encoding() == q.encoding(),
    ensures
        p.task_id == q.task_id,
        p.nonce == q.nonce,
        p.hash@ == q.hash@,
{
    lemma_auto_spec_u64_to_from_le_bytes();
    let e = p.encoding();
    assert(e.subrange(0, 8) =~= spec_u64_to_le_bytes(p.task_id));
    assert(e.subrange(0, 8) =~= spec_u64_to_le_bytes(q.task_id));
    assert(e.subrange(8, 16) =~= spec_u64_to_le_bytes(p.nonce));
    assert(e.subrange(8, 16) =~= spec_u64_to_le_bytes(q.nonce));
    assert(e.subrange(16, 48) =~= p.hash@);
    assert(e.subrange(16, 48) =~= q.hash@);
}

/// What a call to `record_proof` works on.
#[derive(Clone, Debug, PartialEq, Eq)]
pub struct RecordProof {
    /// The authenticated caller.
    pub user: Identity,
    /// The policy record.
    pub state: GlobalState,
    /// The caller's stake record.
    pub stake_account: StakeAccount,
}

/// The model of what a call to `record_proof` works on.
pub struct RecordProofView {
    pub user: Seq<u8>,
    pub state: PolicyRecord,
    pub stake_account: StakeRecord,
}

impl View for RecordProof {
    type V = RecordProofView;

    open spec fn view(&self) -> RecordProofView {
        RecordProofView {
            user: self.user@,
            state: self.state@,
            stake_account: self.stake_account@,
        }
    }
}

/// Why an attempt with the given hash is refused, if it is. The tests are
/// made in this order.
pub open spec fn proof_refusal(pre: RecordProofView, task_id: u64, hash: Seq<u8>, now: int) -> Option<
    SkillStakeError,
> {
    let record = pre.stake_account;
    if record.owner != pre.user {
        Some(SkillStakeError::Unauthorized)
    } else if task_id <= record.last_task_id {
        Some(SkillStakeError::ProofTaskReplay)
    } else if accrual_overflows(record, pre.state.apr_bps, now) {
        Some(SkillStakeError::MathOverflow)
    } else if leading_zero_bits(hash) < pre.state.pow_difficulty {
        Some(SkillStakeError::ProofDifficultyNotMet)
    } else if accrued(record, pre.state.apr_bps, now).pending_rewards + pre.state.pow_reward
        > u64::MAX {
        Some(SkillStakeError::MathOverflow)
    } else {
        None
    }
}

/// What an accepted attempt leaves: the record is brought current, the
/// policy's bonus is added to the pending rewards, and the trail holds the
/// proof, its time and its task.
pub open spec fn proof_outcome(
    pre: RecordProofView,
    task_id: u64,
    nonce: u64,
    hash: Seq<u8>,
    now: int,
) -> RecordProofView {
    let current = accrued(pre.stake_account, pre.state.apr_bps, now);
    RecordProofView {
        stake_account: StakeRecord {
            pending_rewards: current.pending_rewards + pre.state.pow_reward,
            last_proof: proof_encoding(task_id, nonce, hash),
            last_proof_ts: now,
            last_task_id: task_id as nat,
            ..current
        },
        ..pre
    }
}

/// Admits or refuses an attempt whose hash is already known.
///
/// A refused attempt leaves no trace, so the same task can be tried again
/// with another nonce. An encoded proof takes 48 bytes, so the audit trail
/// never overflows and `ProofTooLarge` is never returned.
pub fn admit_proof(
    ctx: &mut RecordProof,
    task_id: u64,
    nonce: u64,
    hash: &[u8; 32],
    now_ts: i64,
) -> (done: Result<(), SkillStakeError>)
    ensures
        match proof_refusal(old(ctx)@, task_id, hash@, now_ts as int) {
            Some(e) => done == Err::<(), SkillStakeError>(e) && *final(ctx) == *old(ctx),
            None => done == Ok::<(), SkillStakeError>(()) && final(ctx)@ == proof_outcome(
                old(ctx)@,
                task_id,
                nonce,
                hash@,
                now_ts as int,
            ),
        },
        task_id <= old(ctx).stake_account.last_task_id ==> done is Err,
        done is Ok ==> final(ctx).stake_account.last_task_id == task_id,
        final(ctx).state == old(ctx).state,
        final(ctx).stake_account@.wf() || !old(ctx).stake_account@.wf(),
{
    if !ctx.stake_account.owner.same_as(&ctx.user) {
        return Err(SkillStakeError::Unauthorized);
    }
    if task_id <= ctx.stake_account.last_task_id {
        return Err(SkillStakeError::ProofTaskReplay);
    }
    let mut pending: u64 = match pending_after_accrual(
        &ctx.stake_account,
        ctx.state.apr_bps,
        now_ts,
    ) {
        Ok(p) => p,
        Err(e) => { return Err(e); },
    };
    if !meets_difficulty(hash, ctx.state.pow_difficulty) {
        return Err(SkillStakeError::ProofDifficultyNotMet);
    }
    if ctx.state.pow_reward > 0 {
        pending = match pending.checked_add(ctx.state.pow_reward) {
            Some(p) => p,
            None => { return Err(SkillStakeError::MathOverflow); },
        };
    }
    let proof_record = ProofRecord { task_id, nonce, hash: *hash };
    let encoded = proof_record.to_vec();
    if encoded.len() > MAX_PROOF_STORAGE {
        return Err(SkillStakeError::ProofTooLarge);
    }
    ctx.stake_account.pending_rewards = pending;
    ctx.stake_account.last_accrued_ts = now_ts;
    ctx.stake_account.last_proof = encoded;
    ctx.stake_account.last_proof_ts = now_ts;
    ctx.stake_account.last_task_id = task_id;
    Ok(())
}

/// Hashes the caller's attempt at `task_id` with `nonce` and admits or refuses it.
///
/// No hash is computed for a caller who does not own the record, nor for a
/// task that is not above the last accepted one.
pub fn record_proof(ctx: &mut RecordProof, task_id: u64, nonce: u64, now_ts: i64) -> (done: Result<
    (),
    SkillStakeError,
>)
    ensures
        match proof_refusal(
            old(ctx)@,
            task_id,
            pow_digest(old(ctx).user@, old(ctx).state.mint@, task_id, nonce),
            now_ts as int,
        ) {
            Some(e) => done == Err::<(), SkillStakeError>(e) && *final(ctx) == *old(ctx),
            None => done == Ok::<(), SkillStakeError>(()) && final(ctx)@ == proof_outcome(
                old(ctx)@,
                task_id,
                nonce,
                pow_digest(old(ctx).user@, old(ctx).state.mint@, task_id, nonce),
                now_ts as int,
            ),
        },
        task_id <= old(ctx).stake_account.last_task_id ==> done is Err && *final(ctx) == *old(ctx),
        done is Ok ==> final(ctx).stake_account.last_task_id == task_id,
        final(ctx).state == old(ctx).state,
        final(ctx).stake_account@.wf() || !old(ctx).stake_account@.wf(),
{
    if !ctx.stake_account.owner.same_as(&ctx.user) {
        return Err(SkillStakeError::Unauthorized);
    }
    if task_id <= ctx.stake_account.last_task_id {
        return Err(SkillStakeError::ProofTaskReplay);
    }
    let hash = pow_hash(&ctx.user, &ctx.state.mint, task_id, nonce);
    admit_proof(ctx, task_id, nonce, &hash, now_ts)
}

} // verus!
