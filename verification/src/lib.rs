//! A staking ledger with time-based reward accrual, a capped faucet and a
//! proof-of-work gated bonus, written as a verified accounting state machine.
//!
//! The library decides how much value moves and who authorizes it. Moving the
//! value, reading the clock and storing the records are left to the host.

pub mod accrual;
pub mod constants;
pub mod custody;
pub mod error;
pub mod identity;
pub mod laws;
pub mod ledger;
pub mod policy;
pub mod pow;
pub mod state;

pub use crate::accrual::accrue_rewards;
pub use crate::constants::BPS_DENOMINATOR;
pub use crate::constants::MAX_APR_BPS;
pub use crate::constants::MAX_POW_DIFFICULTY;
pub use crate::constants::MAX_PROOF_STORAGE;
pub use crate::constants::MINT_AUTH_SEED;
pub use crate::constants::POW_DOMAIN;
pub use crate::constants::SECONDS_PER_YEAR;
pub use crate::constants::STAKE_ACCOUNT_SEED;
pub use crate::constants::STATE_SEED;
pub use crate::constants::VAULT_SEED;
pub use crate::custody::Authority;
pub use crate::custody::CustodyOrder;
pub use crate::error::SkillStakeError;
pub use crate::identity::Identity;
pub use crate::ledger::claim;
pub use crate::ledger::faucet;
pub use crate::ledger::stake;
pub use crate::ledger::unstake;
pub use crate::ledger::Claim;
pub use crate::ledger::Faucet;
pub use crate::ledger::Stake;
pub use crate::ledger::Unstake;
pub use crate::policy::initialize;
pub use crate::policy::set_apr;
pub use crate::policy::set_oracle_authority;
pub use crate::policy::set_pow_config;
pub use crate::policy::update_faucet_cap;
pub use crate::policy::AdminUpdate;
pub use crate::policy::Initialize;
pub use crate::policy::OracleUpdate;
pub use crate::pow::admit_proof;
pub use crate::pow::meets_difficulty;
pub use crate::pow::pow_hash;
pub use crate::pow::record_proof;
pub use crate::pow::ProofRecord;
pub use crate::pow::RecordProof;
pub use crate::state::GlobalState;
pub use crate::state::StakeAccount;
