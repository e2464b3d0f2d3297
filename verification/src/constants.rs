//! The fixed numbers and seeds of the ledger.

use vstd::prelude::*;

verus! {

/// The seed of the policy record's address, which is also the vault authority.
pub const STATE_SEED: [u8; 5] = [115, 116, 97, 116, 101];

/// The seed of the vault's address.
pub const VAULT_SEED: [u8; 5] = [118, 97, 117, 108, 116];

/// The seed of the minting authority.
pub const MINT_AUTH_SEED: [u8; 9] = [109, 105, 110, 116, 95, 97, 117, 116, 104];

/// The seed of a participant's stake record, followed there by the participant's identity.
pub const STAKE_ACCOUNT_SEED: [u8; 5] = [115, 116, 97, 107, 101];

/// The domain tag that opens every proof-of-work preimage.
pub const POW_DOMAIN: [u8; 14] = [115, 107, 105, 108, 108, 115, 116, 97, 107, 101, 95, 112, 111, 119];

/// Seconds in a year of 365 days. Leap years are not modelled.
pub const SECONDS_PER_YEAR: i64 = 31_536_000;

/// Basis points in one whole.
pub const BPS_DENOMINATOR: u64 = 10_000;

/// The highest annual rate that a policy accepts, in basis points: five times the whole.
pub const MAX_APR_BPS: u64 = 50_000;

/// The highest proof-of-work difficulty that a policy accepts, in leading zero bits.
pub const MAX_POW_DIFFICULTY: u8 = 248;

/// The most bytes that the audit trail of a stake record holds.
pub const MAX_PROOF_STORAGE: usize = 64;

} // verus!
