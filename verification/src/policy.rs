//! The policy store and its administration: creating the policy record and
//! the updates reserved to the admin and to the oracle authority.

use crate::constants::MAX_APR_BPS;
use crate::constants::MAX_POW_DIFFICULTY;
use crate::error::SkillStakeError;
use crate::identity::unset_identity;
use crate::identity::Identity;
use crate::state::GlobalState;
use crate::state::PolicyRecord;
use vstd::prelude::*;

verus! {

/// What `initialize` creates the policy record from, besides the risk
/// parameters: who deploys, which token type and vault the policy governs,
/// and the bumps of its three derived addresses.
#[derive(Clone, Copy, Debug, PartialEq, Eq)]
pub struct Initialize {
    /// The authenticated deployer, who becomes the admin.
    pub admin: Identity,
    /// The token type that the policy governs.
    pub mint: Identity,
    /// The custody vault that the policy governs.
    pub vault: Identity,
    /// The bump of the policy record's own address, which is the vault authority.
    pub state_bump: u8,
    /// The bump of the vault's address.
    pub vault_bump: u8,
    /// The bump of the minting authority.
    pub mint_auth_bump: u8,
}

/// The model of what `initialize` creates the policy record from.
pub struct InitializeView {
    pub admin: Seq<u8>,
    pub mint: Seq<u8>,
    pub vault: Seq<u8>,
    pub state_bump: nat,
    pub vault_bump: nat,
    pub mint_auth_bump: nat,
}

impl View for Initialize {
    type V = InitializeView;

    open spec fn view(&self) -> InitializeView {
        InitializeView {
            admin: self.admin@,
            mint: self.mint@,
            vault: self.vault@,
            state_bump: self.state_bump as nat,
            vault_bump: self.vault_bump as nat,
            mint_auth_bump: self.mint_auth_bump as nat,
        }
    }
}

/// Why `initialize` refuses, if it does: first the rate, then the difficulty.
pub open spec fn initialize_refusal(apr_bps: nat, pow_difficulty: nat) -> Option<SkillStakeError> {
    if apr_bps > MAX_APR_BPS {
        Some(SkillStakeError::AprTooHigh)
    } else if pow_difficulty > MAX_POW_DIFFICULTY {
        Some(SkillStakeError::InvalidPowDifficulty)
    } else {
        None
    }
}

/// The policy record that `initialize` creates: nothing staked, the oracle
/// nonce at zero, and the deployer as oracle authority where none is named.
pub open spec fn initial_policy(
    pre: InitializeView,
    apr_bps: nat,
    faucet_cap: nat,
    pow_reward: nat,
    pow_difficulty: nat,
    oracle_authority: Seq<u8>,
) -> PolicyRecord {
    PolicyRecord {
        admin: pre.admin,
        oracle_authority: if oracle_authority == unset_identity() {
            pre.admin
        } else {
            oracle_authority
        },
        token_ref: pre.mint,
        vault_ref: pre.vault,
        apr_bps,
        total_staked: 0,
        faucet_cap,
        pow_reward,
        oracle_nonce: 0,
        pow_difficulty,
        bump: pre.state_bump,
        vault_bump: pre.vault_bump,
        mint_auth_bump: pre.mint_auth_bump,
    }
}

/// Creates the policy record.
///
/// The host stores the record once and never creates it again; a second
/// creation is refused by the host's storage, not here.
pub fn initialize(
    ctx: &Initialize,
    apr_bps: u64,
    faucet_cap: u64,
    pow_reward: u64,
    pow_difficulty: u8,
    oracle_authority: Identity,
) -> (created: Result<GlobalState, SkillStakeError>)
    ensures
        match initialize_refusal(apr_bps as nat, pow_difficulty as nat) {
            Some(e) => created == Err::<GlobalState, SkillStakeError>(e),
            None => created is Ok && created->Ok_0@ == initial_policy(
                ctx@,
                apr_bps as nat,
                faucet_cap as nat,
                pow_reward as nat,
                pow_difficulty as nat,
                oracle_authority@,
            ) && created->Ok_0@.wf(),
        },
{
    if apr_bps > MAX_APR_BPS {
        return Err(SkillStakeError::AprTooHigh);
    }
    if pow_difficulty > MAX_POW_DIFFICULTY {
        return Err(SkillStakeError::InvalidPowDifficulty);
    }
    let authority = if oracle_authority.is_default() {
        ctx.admin
    } else {
        oracle_authority
    };
    Ok(
        GlobalState {
            admin: ctx.admin,
            oracle_authority: authority,
            mint: ctx.mint,
            vault: ctx.vault,
            apr_bps,
            total_staked: 0,
            faucet_cap,
            pow_reward,
            pow_difficulty,
            oracle_nonce: 0,
            bump: ctx.state_bump,
            vault_bump: ctx.vault_bump,
            mint_auth_bump: ctx.mint_auth_bump,
        },
    )
}

/// What an update reserved to the admin works on.
#[derive(Clone, Copy, Debug, PartialEq, Eq)]
pub struct AdminUpdate {
    /// The authenticated caller.
    pub admin: Identity,
    /// The policy record.
    pub state: GlobalState,
}

/// The model of what an update reserved to the admin works on.
pub struct AdminUpdateView {
    pub admin: Seq<u8>,
    pub state: PolicyRecord,
}

impl View for AdminUpdate {
    type V = AdminUpdateView;

    open spec fn view(&self) -> AdminUpdateView {
        AdminUpdateView { admin: self.admin@, state: self.state@ }
    }
}

/// Why `set_apr` refuses, if it does: first the rate, then the caller.
pub open spec fn set_apr_refusal(pre: AdminUpdateView, apr_bps: nat) -> Option<SkillStakeError> {
    if apr_bps > MAX_APR_BPS {
        Some(SkillStakeError::AprTooHigh)
    } else if pre.state.admin != pre.admin {
        Some(SkillStakeError::Unauthorized)
    } else {
        None
    }
}

/// Sets the annual rate, in basis points.
pub fn set_apr(ctx: &mut AdminUpdate, apr_bps: u64) -> (done: Result<(), SkillStakeError>)
    ensures
        match set_apr_refusal(old(ctx)@, apr_bps as nat) {
            Some(e) => done == Err::<(), SkillStakeError>(e) && *final(ctx) == *old(ctx),
            None => done == Ok::<(), SkillStakeError>(()) && final(ctx)@ == (AdminUpdateView {
                state: PolicyRecord { apr_bps: apr_bps as nat, ..old(ctx)@.state },
                ..old(ctx)@
            }),
        },
        old(ctx).state@.wf() ==> final(ctx).state@.wf(),
{
    if apr_bps > MAX_APR_BPS {
        return Err(SkillStakeError::AprTooHigh);
    }
    if !ctx.state.admin.same_as(&ctx.admin) {
        return Err(SkillStakeError::Unauthorized);
    }
    ctx.state.apr_bps = apr_bps;
    Ok(())
}

/// Why `update_faucet_cap` refuses, if it does.
pub open spec fn update_faucet_cap_refusal(pre: AdminUpdateView) -> Option<SkillStakeError> {
    if pre.state.admin != pre.admin {
        Some(SkillStakeError::Unauthorized)
    } else {
        None
    }
}

/// Sets the most that the faucet issues to one participant in total.
///
/// Any cap is accepted, also one below what a participant has drawn already:
/// that participant then draws no more.
pub fn update_faucet_cap(ctx: &mut AdminUpdate, faucet_cap: u64) -> (done: Result<
    (),
    SkillStakeError,
>)
    ensures
        match update_faucet_cap_refusal(old(ctx)@) {
            Some(e) => done == Err::<(), SkillStakeError>(e) && *final(ctx) == *old(ctx),
            None => done == Ok::<(), SkillStakeError>(()) && final(ctx)@ == (AdminUpdateView {
                state: PolicyRecord { faucet_cap: faucet_cap as nat, ..old(ctx)@.state },
                ..old(ctx)@
            }),
        },
        old(ctx).state@.wf() ==> final(ctx).state@.wf(),
{
    if !ctx.state.admin.same_as(&ctx.admin) {
        return Err(SkillStakeError::Unauthorized);
    }
    ctx.state.faucet_cap = faucet_cap;
    Ok(())
}

/// Why `set_oracle_authority` refuses, if it does: first the caller, then
/// the new authority.
pub open spec fn set_oracle_authority_refusal(
    pre: AdminUpdateView,
    new_authority: Seq<u8>,
) -> Option<SkillStakeError> {
    if pre.state.admin != pre.admin {
        Some(SkillStakeError::Unauthorized)
    } else if new_authority == unset_identity() {
        Some(SkillStakeError::InvalidOracleAuthority)
    } else {
        None
    }
}

/// Names the identity that may update the proof-of-work parameters.
pub fn set_oracle_authority(ctx: &mut AdminUpdate, new_authority: Identity) -> (done: Result<
    (),
    SkillStakeError,
>)
    ensures
        match set_oracle_authority_refusal(old(ctx)@, new_authority@) {
            Some(e) => done == Err::<(), SkillStakeError>(e) && *final(ctx) == *old(ctx),
            None => done == Ok::<(), SkillStakeError>(()) && final(ctx)@ == (AdminUpdateView {
                state: PolicyRecord { oracle_authority: new_authority@, ..old(ctx)@.state },
                ..old(ctx)@
            }),
        },
        old(ctx).state@.wf() ==> final(ctx).state@.wf(),
{
    if !ctx.state.admin.same_as(&ctx.admin) {
        return Err(SkillStakeError::Unauthorized);
    }
    if new_authority.is_default() {
        return Err(SkillStakeError::InvalidOracleAuthority);
    }
    ctx.state.oracle_authority = new_authority;
    Ok(())
}

/// What an update of the proof-of-work parameters works on.
#[derive(Clone, Copy, Debug, PartialEq, Eq)]
pub struct OracleUpdate {
    /// The authenticated caller.
    pub authority: Identity,
    /// The policy record.
    pub state: GlobalState,
}

/// The model of what an update of the proof-of-work parameters works on.
pub struct OracleUpdateView {
    pub authority: Seq<u8>,
    pub state: PolicyRecord,
}

impl View for OracleUpdate {
    type V = OracleUpdateView;

    open spec fn view(&self) -> OracleUpdateView {
        OracleUpdateView { authority: self.authority@, state: self.state@ }
    }
}

/// Why `set_pow_config` refuses, if it does: first the difficulty, then the
/// caller, then the nonce.
pub open spec fn set_pow_config_refusal(
    pre: OracleUpdateView,
    pow_difficulty: nat,
    oracle_nonce: nat,
) -> Option<SkillStakeError> {
    if pow_difficulty > MAX_POW_DIFFICULTY {
        Some(SkillStakeError::InvalidPowDifficulty)
    } else if pre.authority != pre.state.oracle_authority && pre.authority != pre.state.admin {
        Some(SkillStakeError::Unauthorized)
    } else if oracle_nonce <= pre.state.oracle_nonce {
        Some(SkillStakeError::StaleOracleUpdate)
    } else {
        None
    }
}

/// Sets the difficulty and the bonus of the proof-of-work gate.
///
/// The caller is the oracle authority or the admin, and the nonce is above
/// the stored one, so that no update is applied twice or after a later one.
pub fn set_pow_config(
    ctx: &mut OracleUpdate,
    pow_difficulty: u8,
    pow_reward: u64,
    oracle_nonce: u64,
) -> (done: Result<(), SkillStakeError>)
    ensures
        match set_pow_config_refusal(old(ctx)@, pow_difficulty as nat, oracle_nonce as nat) {
            Some(e) => done == Err::<(), SkillStakeError>(e) && *final(ctx) == *old(ctx),
            None => done == Ok::<(), SkillStakeError>(()) && final(ctx)@ == (OracleUpdateView {
                state: PolicyRecord {
                    pow_difficulty: pow_difficulty as nat,
                    pow_reward: pow_reward as nat,
                    oracle_nonce: oracle_nonce as nat,
                    ..old(ctx)@.state
                },
                ..old(ctx)@
            }),
        },
        oracle_nonce <= old(ctx).state.oracle_nonce ==> done is Err && *final(ctx) == *old(ctx),
        done is Ok ==> final(ctx).state.oracle_nonce > old(ctx).state.oracle_nonce,
        old(ctx).state@.wf() ==> final(ctx).state@.wf(),
{
    if pow_difficulty > MAX_POW_DIFFICULTY {
        return Err(SkillStakeError::InvalidPowDifficulty);
    }
    if !ctx.authority.same_as(&ctx.state.oracle_authority) && !ctx.authority.same_as(
        &ctx.state.admin,
    ) {
        return Err(SkillStakeError::Unauthorized);
    }
    if oracle_nonce <= ctx.state.oracle_nonce {
        return Err(SkillStakeError::StaleOracleUpdate);
    }
    ctx.state.pow_difficulty = pow_difficulty;
    ctx.state.pow_reward = pow_reward;
    ctx.state.oracle_nonce = oracle_nonce;
    Ok(())
}

} // verus!
