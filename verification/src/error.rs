//! The ways in which an operation of the ledger can be refused.

use vstd::prelude::*;

verus! {

/// Why an operation was refused. A refused operation changes nothing.
#[derive(Clone, Copy, Debug, PartialEq, Eq, Structural)]
pub enum SkillStakeError {
    /// The annual rate is above the ceiling.
    AprTooHigh,
    /// A checked addition, subtraction or multiplication left its range.
    MathOverflow,
    /// The amount is zero.
    InvalidAmount,
    /// No reward is pending.
    NothingToClaim,
    /// The participant has less staked than asked for.
    InsufficientStake,
    /// The caller is not the identity that the operation is reserved for.
    Unauthorized,
    /// A bump of a derived authority is missing.
    BumpNotFound,
    /// The token type of the call is not the one of the policy.
    MintMismatch,
    /// The encoded proof does not fit in the audit trail.
    ProofTooLarge,
    /// The participant's cumulative faucet issuance would pass the cap.
    FaucetCapExceeded,
    /// The new oracle authority is not set.
    InvalidOracleAuthority,
    /// The difficulty is above the ceiling.
    InvalidPowDifficulty,
    /// The nonce of the oracle update is not above the stored one.
    StaleOracleUpdate,
    /// The hash has fewer leading zero bits than the difficulty asks for.
    ProofDifficultyNotMet,
    /// The task identifier is not above the last accepted one.
    ProofTaskReplay,
}

impl SkillStakeError {
    /// The sentence that tells a user of the ledger what went wrong.
    pub open spec fn message_text(self) -> Seq<char> {
        match self {
            SkillStakeError::AprTooHigh => "APR too high for devnet demo settings"@,
            SkillStakeError::MathOverflow => "Operation would overflow maths"@,
            SkillStakeError::InvalidAmount => "Provided amount must be greater than zero"@,
            SkillStakeError::NothingToClaim => "Nothing to claim yet"@,
            SkillStakeError::InsufficientStake => "Insufficient staked balance"@,
            SkillStakeError::Unauthorized => "Caller is not authorized for this action"@,
            SkillStakeError::BumpNotFound => "Missing PDA bump in context"@,
            SkillStakeError::MintMismatch => "Provided mint does not match program state"@,
            SkillStakeError::ProofTooLarge => "Proof payload too large"@,
            SkillStakeError::FaucetCapExceeded => "Faucet cap exceeded for this wallet"@,
            SkillStakeError::InvalidOracleAuthority => "Oracle authority must be a valid public key"@,
            SkillStakeError::InvalidPowDifficulty => "Proof of work difficulty is invalid for this program"@,
            SkillStakeError::StaleOracleUpdate => "Oracle update nonce is stale"@,
            SkillStakeError::ProofDifficultyNotMet => "Proof does not satisfy the difficulty target"@,
            SkillStakeError::ProofTaskReplay => "Task identifier has already been used"@,
        }
    }

    /// The sentence that tells a user of the ledger what went wrong.
    pub fn message(&self) -> (text: String)
        ensures
            text@ == self.message_text(),
    {
        match self {
            SkillStakeError::AprTooHigh => "APR too high for devnet demo settings".to_owned(),
            SkillStakeError::MathOverflow => "Operation would overflow maths".to_owned(),
            SkillStakeError::InvalidAmount => "Provided amount must be greater than zero".to_owned(),
            SkillStakeError::NothingToClaim => "Nothing to claim yet".to_owned(),
            SkillStakeError::InsufficientStake => "Insufficient staked balance".to_owned(),
            SkillStakeError::Unauthorized => "Caller is not authorized for this action".to_owned(),
            SkillStakeError::BumpNotFound => "Missing PDA bump in context".to_owned(),
            SkillStakeError::MintMismatch => "Provided mint does not match program state".to_owned(),
            SkillStakeError::ProofTooLarge => "Proof payload too large".to_owned(),
            SkillStakeError::FaucetCapExceeded => "Faucet cap exceeded for this wallet".to_owned(),
            SkillStakeError::InvalidOracleAuthority => "Oracle authority must be a valid public key".to_owned(),
            SkillStakeError::InvalidPowDifficulty => "Proof of work difficulty is invalid for this program".to_owned(),
            SkillStakeError::StaleOracleUpdate => "Oracle update nonce is stale".to_owned(),
            SkillStakeError::ProofDifficultyNotMet => "Proof does not satisfy the difficulty target".to_owned(),
            SkillStakeError::ProofTaskReplay => "Task identifier has already been used".to_owned(),
        }
    }
}

} // verus!
