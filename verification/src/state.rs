//! The two records of the ledger and their mathematical models.

use crate::constants::MAX_APR_BPS;
use crate::constants::MAX_POW_DIFFICULTY;
use crate::constants::MAX_PROOF_STORAGE;
use crate::identity::unset_identity;
use crate::identity::Identity;
use vstd::prelude::*;

verus! {

/// The model of the policy record: identities as byte strings, counters as
/// natural numbers.
pub struct PolicyRecord {
    pub admin: Seq<u8>,
    pub oracle_authority: Seq<u8>,
    pub token_ref: Seq<u8>,
    pub vault_ref: Seq<u8>,
    pub apr_bps: nat,
    pub total_staked: nat,
    pub faucet_cap: nat,
    pub pow_reward: nat,
    pub oracle_nonce: nat,
    pub pow_difficulty: nat,
    pub bump: nat,
    pub vault_bump: nat,
    pub mint_auth_bump: nat,
}

impl PolicyRecord {
    /// The bounds that every policy keeps: the rate and the difficulty are
    /// within their ceilings.
    pub open spec fn wf(self) -> bool {
        &&& self.apr_bps <= MAX_APR_BPS
        &&& self.pow_difficulty <= MAX_POW_DIFFICULTY
    }
}

/// The single global record: authorities, rate, caps and the running total
/// of what all participants have staked.
#[derive(Clone, Copy, Debug, PartialEq, Eq)]
pub struct GlobalState {
    pub admin: Identity,
    pub oracle_authority: Identity,
    pub mint: Identity,
    pub vault: Identity,
    pub apr_bps: u64,
    pub total_staked: u64,
    pub faucet_cap: u64,
    pub pow_reward: u64,
    pub oracle_nonce: u64,
    pub pow_difficulty: u8,
    pub bump: u8,
    pub vault_bump: u8,
    pub mint_auth_bump: u8,
}

impl View for GlobalState {
    type V = PolicyRecord;

    open spec fn view(&self) -> PolicyRecord {
        PolicyRecord {
            admin: self.admin@,
            oracle_authority: self.oracle_authority@,
            token_ref: self.mint@,
            vault_ref: self.vault@,
            apr_bps: self.apr_bps as nat,
            total_staked: self.total_staked as nat,
            faucet_cap: self.faucet_cap as nat,
            pow_reward: self.pow_reward as nat,
            oracle_nonce: self.oracle_nonce as nat,
            pow_difficulty: self.pow_difficulty as nat,
            bump: self.bump as nat,
            vault_bump: self.vault_bump as nat,
            mint_auth_bump: self.mint_auth_bump as nat,
        }
    }
}

impl GlobalState {
    /// Bytes of the persisted record: four identities, five counters, four
    /// single bytes and four bytes of padding.
    pub const SPACE: usize = 32 + 32 + 32 + 32 + 8 + 8 + 8 + 8 + 8 + 1 + 1 + 1 + 1 + 4;
}

/// The model of a participant's stake record.
pub struct StakeRecord {
    pub owner: Seq<u8>,
    pub amount_staked: nat,
    pub pending_rewards: nat,
    pub faucet_claimed: nat,
    pub last_accrued_ts: int,
    pub last_proof_ts: int,
    pub last_task_id: nat,
    pub bump: nat,
    pub last_proof: Seq<u8>,
}

impl StakeRecord {
    /// Whether the record has no owner yet.
    pub open spec fn is_uninitialized(self) -> bool {
        self.owner == unset_identity()
    }

    /// The bound that every stake record keeps: the audit trail fits its storage.
    pub open spec fn wf(self) -> bool {
        self.last_proof.len() <= MAX_PROOF_STORAGE
    }
}

/// One participant's record: what is staked, what has accrued, what the
/// faucet has issued, and the trail of the last accepted proof.
#[derive(Clone, Debug, PartialEq, Eq)]
pub struct StakeAccount {
    pub owner: Identity,
    pub amount_staked: u64,
    pub pending_rewards: u64,
    pub faucet_claimed: u64,
    pub last_accrued_ts: i64,
    pub last_proof_ts: i64,
    pub last_task_id: u64,
    pub bump: u8,
    pub last_proof: Vec<u8>,
}

impl View for StakeAccount {
    type V = StakeRecord;

    open spec fn view(&self) -> StakeRecord {
        StakeRecord {
            owner: self.owner@,
            amount_staked: self.amount_staked as nat,
            pending_rewards: self.pending_rewards as nat,
            faucet_claimed: self.faucet_claimed as nat,
            last_accrued_ts: self.last_accrued_ts as int,
            last_proof_ts: self.last_proof_ts as int,
            last_task_id: self.last_task_id as nat,
            bump: self.bump as nat,
            last_proof: self.last_proof@,
        }
    }
}

impl Default for StakeAccount {
    /// The record of a participant who has not used the ledger yet: no owner,
    /// every counter at zero, an empty trail.
    fn default() -> (record: StakeAccount)
        ensures
            record@.is_uninitialized(),
            record@.wf(),
            record@ == (StakeRecord {
                owner: unset_identity(),
                amount_staked: 0,
                pending_rewards: 0,
                faucet_claimed: 0,
                last_accrued_ts: 0,
                last_proof_ts: 0,
                last_task_id: 0,
                bump: 0,
                last_proof: Seq::empty(),
            }),
    {
        StakeAccount {
            owner: Identity::default(),
            amount_staked: 0,
            pending_rewards: 0,
            faucet_claimed: 0,
            last_accrued_ts: 0,
            last_proof_ts: 0,
            last_task_id: 0,
            bump: 0,
            last_proof: Vec::new(),
        }
    }
}

impl StakeAccount {
    /// Bytes of the persisted record: one identity, six counters, one byte
    /// and seven of padding, then the length-prefixed audit trail.
    pub const SPACE: usize = 32 + 8 + 8 + 8 + 8 + 8 + 8 + 1 + 7 + 4 + MAX_PROOF_STORAGE;
}

} // verus!
