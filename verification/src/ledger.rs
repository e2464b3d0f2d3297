//! The stake ledger: staking, unstaking, claiming rewards and the faucet.
//!
//! Each operation takes the records that it works on together with the
//! caller's identity, decides, and either refuses and leaves everything as it
//! was, or updates the records and returns the order for the custody service.

use crate::accrual::accrual_overflows;
use crate::accrual::accrued;
use crate::accrual::pending_after_accrual;
use crate::custody::CustodyOrder;
use crate::error::SkillStakeError;
use crate::identity::Identity;
use crate::state::GlobalState;
use crate::state::PolicyRecord;
use crate::state::StakeAccount;
use crate::state::StakeRecord;
use vstd::prelude::*;

verus! {

/// What a call to `stake` works on.
#[derive(Clone, Debug, PartialEq, Eq)]
pub struct Stake {
    /// The authenticated caller.
    pub user: Identity,
    /// The token type that the caller brings.
    pub mint: Identity,
    /// The policy record.
    pub state: GlobalState,
    /// The caller's stake record, possibly not yet initialized.
    pub stake_account: StakeAccount,
    /// The bump under which the caller's stake record is stored.
    pub stake_account_bump: u8,
}

/// The model of what a call to `stake` works on.
pub struct StakeView {
    pub user: Seq<u8>,
    pub mint: Seq<u8>,
    pub state: PolicyRecord,
    pub stake_account: StakeRecord,
    pub stake_account_bump: nat,
}

impl View for Stake {
    type V = StakeView;

    open spec fn view(&self) -> StakeView {
        StakeView {
            user: self.user@,
            mint: self.mint@,
            state: self.state@,
            stake_account: self.stake_account@,
            stake_account_bump: self.stake_account_bump as nat,
        }
    }
}

/// Why `stake` refuses a call, if it does. The tests are made in this order.
pub open spec fn stake_refusal(pre: StakeView, amount: nat, now: int) -> Option<SkillStakeError> {
    let record = pre.stake_account;
    if amount == 0 {
        Some(SkillStakeError::InvalidAmount)
    } else if pre.state.token_ref != pre.mint {
        Some(SkillStakeError::MintMismatch)
    } else if !record.is_uninitialized() && record.owner != pre.user {
        Some(SkillStakeError::Unauthorized)
    } else if !record.is_uninitialized() && accrual_overflows(record, pre.state.apr_bps, now) {
        Some(SkillStakeError::MathOverflow)
    } else if record.amount_staked + amount > u64::MAX {
        Some(SkillStakeError::MathOverflow)
    } else if pre.state.total_staked + amount > u64::MAX {
        Some(SkillStakeError::MathOverflow)
    } else {
        None
    }
}

/// What an accepted `stake` leaves. A record without owner becomes the
/// caller's; an owned one is first brought current. Then the amount is added
/// to the participant's stake and to the policy's total.
pub open spec fn stake_outcome(pre: StakeView, amount: nat, now: int) -> StakeView {
    let record = pre.stake_account;
    let current = if record.is_uninitialized() {
        StakeRecord { owner: pre.user, bump: pre.stake_account_bump, ..record }
    } else {
        accrued(record, pre.state.apr_bps, now)
    };
    StakeView {
        state: PolicyRecord { total_staked: pre.state.total_staked + amount, ..pre.state },
        stake_account: StakeRecord {
            amount_staked: current.amount_staked + amount,
            last_accrued_ts: now,
            ..current
        },
        ..pre
    }
}

/// Locks `amount` of the caller's tokens.
///
/// An accepted call returns the order to move `amount` from the caller into
/// the vault, authorized by the caller.
pub fn stake(ctx: &mut Stake, amount: u64, now_ts: i64) -> (order: Result<
    CustodyOrder,
    SkillStakeError,
>)
    ensures
        match stake_refusal(old(ctx)@, amount as nat, now_ts as int) {
            Some(e) => order == Err::<CustodyOrder, SkillStakeError>(e) && *final(ctx) == *old(ctx),
            None => order == Ok::<CustodyOrder, SkillStakeError>((CustodyOrder::Deposit { amount }))
                && final(ctx)@ == stake_outcome(old(ctx)@, amount as nat, now_ts as int),
        },
        order is Ok ==> final(ctx).state.total_staked - final(ctx).stake_account.amount_staked
            == old(ctx).state.total_staked - old(ctx).stake_account.amount_staked,
        old(ctx).state@.wf() ==> final(ctx).state@.wf(),
        old(ctx).stake_account@.wf() ==> final(ctx).stake_account@.wf(),
{
    if amount == 0 {
        return Err(SkillStakeError::InvalidAmount);
    }
    if !ctx.state.mint.same_as(&ctx.mint) {
        return Err(SkillStakeError::MintMismatch);
    }
    let fresh = ctx.stake_account.owner.is_default();
    let mut pending: u64 = ctx.stake_account.pending_rewards;
    if !fresh {
        if !ctx.stake_account.owner.same_as(&ctx.user) {
            return Err(SkillStakeError::Unauthorized);
        }
        match pending_after_accrual(&ctx.stake_account, ctx.state.apr_bps, now_ts) {
            Ok(p) => { pending = p; },
            Err(e) => { return Err(e); },
        }
    }
    let staked: u64 = match ctx.stake_account.amount_staked.checked_add(amount) {
        Some(s) => s,
        None => { return Err(SkillStakeError::MathOverflow); },
    };
    let total: u64 = match ctx.state.total_staked.checked_add(amount) {
        Some(t) => t,
        None => { return Err(SkillStakeError::MathOverflow); },
    };
    if fresh {
        ctx.stake_account.owner = ctx.user;
        ctx.stake_account.bump = ctx.stake_account_bump;
    }
    ctx.stake_account.pending_rewards = pending;
    ctx.stake_account.amount_staked = staked;
    ctx.stake_account.last_accrued_ts = now_ts;
    ctx.state.total_staked = total;
    Ok(CustodyOrder::Deposit { amount })
}

/// What a call to `unstake` works on.
#[derive(Clone, Debug, PartialEq, Eq)]
pub struct Unstake {
    /// The authenticated caller.
    pub user: Identity,
    /// The token type that the caller names.
    pub mint: Identity,
    /// The policy record.
    pub state: GlobalState,
    /// The caller's stake record.
    pub stake_account: StakeAccount,
}

/// The model of what a call to `unstake` works on.
pub struct UnstakeView {
    pub user: Seq<u8>,
    pub mint: Seq<u8>,
    pub state: PolicyRecord,
    pub stake_account: StakeRecord,
}

impl View for Unstake {
    type V = UnstakeView;

    open spec fn view(&self) -> UnstakeView {
        UnstakeView {
            user: self.user@,
            mint: self.mint@,
            state: self.state@,
            stake_account: self.stake_account@,
        }
    }
}

/// Why `unstake` refuses a call, if it does. The tests are made in this order.
pub open spec fn unstake_refusal(pre: UnstakeView, amount: nat, now: int) -> Option<
    SkillStakeError,
> {
    let record = pre.stake_account;
    if amount == 0 {
        Some(SkillStakeError::InvalidAmount)
    } else if pre.state.token_ref != pre.mint {
        Some(SkillStakeError::MintMismatch)
    } else if record.owner != pre.user {
        Some(SkillStakeError::Unauthorized)
    } else if record.amount_staked < amount {
        Some(SkillStakeError::InsufficientStake)
    } else if accrual_overflows(record, pre.state.apr_bps, now) {
        Some(SkillStakeError::MathOverflow)
    } else if pre.state.total_staked < amount {
        Some(SkillStakeError::MathOverflow)
    } else {
        None
    }
}

/// What an accepted `unstake` leaves: the record is brought current, then the
/// amount is taken from the participant's stake and from the policy's total.
pub open spec fn unstake_outcome(pre: UnstakeView, amount: nat, now: int) -> UnstakeView {
    let current = accrued(pre.stake_account, pre.state.apr_bps, now);
    UnstakeView {
        state: PolicyRecord {
            total_staked: (pre.state.total_staked - amount) as nat,
            ..pre.state
        },
        stake_account: StakeRecord {
            amount_staked: (current.amount_staked - amount) as nat,
            ..current
        },
        ..pre
    }
}

/// Releases `amount` of the caller's stake.
///
/// An accepted call returns the order to move `amount` from the vault to the
/// caller, authorized by the policy's vault authority and never by the caller.
pub fn unstake(ctx: &mut Unstake, amount: u64, now_ts: i64) -> (order: Result<
    CustodyOrder,
    SkillStakeError,
>)
    ensures
        match unstake_refusal(old(ctx)@, amount as nat, now_ts as int) {
            Some(e) => order == Err::<CustodyOrder, SkillStakeError>(e) && *final(ctx) == *old(ctx),
            None => order == Ok::<CustodyOrder, SkillStakeError>(
                (CustodyOrder::Withdraw { amount, bump: old(ctx).state.bump }),
            ) && final(ctx)@ == unstake_outcome(old(ctx)@, amount as nat, now_ts as int),
        },
        order is Ok ==> final(ctx).state.total_staked - final(ctx).stake_account.amount_staked
            == old(ctx).state.total_staked - old(ctx).stake_account.amount_staked,
        old(ctx).state@.wf() ==> final(ctx).state@.wf(),
        old(ctx).stake_account@.wf() ==> final(ctx).stake_account@.wf(),
{
    if amount == 0 {
        return Err(SkillStakeError::InvalidAmount);
    }
    if !ctx.state.mint.same_as(&ctx.mint) {
        return Err(SkillStakeError::MintMismatch);
    }
    if !ctx.stake_account.owner.same_as(&ctx.user) {
        return Err(SkillStakeError::Unauthorized);
    }
    if ctx.stake_account.amount_staked < amount {
        return Err(SkillStakeError::InsufficientStake);
    }
    let pending: u64 = match pending_after_accrual(&ctx.stake_account, ctx.state.apr_bps, now_ts) {
        Ok(p) => p,
        Err(e) => { return Err(e); },
    };
    let staked: u64 = match ctx.stake_account.amount_staked.checked_sub(amount) {
        Some(s) => s,
        None => { return Err(SkillStakeError::MathOverflow); },
    };
    let total: u64 = match ctx.state.total_staked.checked_sub(amount) {
        Some(t) => t,
        None => { return Err(SkillStakeError::MathOverflow); },
    };
    ctx.stake_account.pending_rewards = pending;
    ctx.stake_account.amount_staked = staked;
    ctx.stake_account.last_accrued_ts = now_ts;
    ctx.state.total_staked = total;
    Ok(CustodyOrder::Withdraw { amount, bump: ctx.state.bump })
}

/// What a call to `claim` works on.
#[derive(Clone, Debug, PartialEq, Eq)]
pub struct Claim {
    /// The authenticated caller.
    pub user: Identity,
    /// The token type that the caller names.
    pub mint: Identity,
    /// The policy record.
    pub state: GlobalState,
    /// The caller's stake record.
    pub stake_account: StakeAccount,
}

/// The model of what a call to `claim` works on.
pub struct ClaimView {
    pub user: Seq<u8>,
    pub mint: Seq<u8>,
    pub state: PolicyRecord,
    pub stake_account: StakeRecord,
}

impl View for Claim {
    type V = ClaimView;

    open spec fn view(&self) -> ClaimView {
        ClaimView {
            user: self.user@,
            mint: self.mint@,
            state: self.state@,
            stake_account: self.stake_account@,
        }
    }
}

/// The rewards that a claim at `now` pays out: what is pending once the
/// record has been brought current.
pub open spec fn claimable(pre: ClaimView, now: int) -> nat {
    accrued(pre.stake_account, pre.state.apr_bps, now).pending_rewards
}

/// Why `claim` refuses a call, if it does. The tests are made in this order.
pub open spec fn claim_refusal(pre: ClaimView, now: int) -> Option<SkillStakeError> {
    let record = pre.stake_account;
    if pre.state.token_ref != pre.mint {
        Some(SkillStakeError::MintMismatch)
    } else if record.owner != pre.user {
        Some(SkillStakeError::Unauthorized)
    } else if accrual_overflows(record, pre.state.apr_bps, now) {
        Some(SkillStakeError::MathOverflow)
    } else if claimable(pre, now) == 0 {
        Some(SkillStakeError::NothingToClaim)
    } else {
        None
    }
}

/// What an accepted `claim` leaves: the record is brought current and its
/// pending rewards are reset to zero.
pub open spec fn claim_outcome(pre: ClaimView, now: int) -> ClaimView {
    let current = accrued(pre.stake_account, pre.state.apr_bps, now);
    ClaimView { stake_account: StakeRecord { pending_rewards: 0, ..current }, ..pre }
}

/// Pays out the caller's rewards.
///
/// An accepted call returns the order to mint everything that is pending as
/// of `now_ts` to the caller, authorized by the policy's minting authority.
pub fn claim(ctx: &mut Claim, now_ts: i64) -> (order: Result<CustodyOrder, SkillStakeError>)
    ensures
        match claim_refusal(old(ctx)@, now_ts as int) {
            Some(e) => order == Err::<CustodyOrder, SkillStakeError>(e) && *final(ctx) == *old(ctx),
            None => order matches Ok(CustodyOrder::Mint { amount, bump }) && amount == claimable(
                old(ctx)@,
                now_ts as int,
            ) && bump == old(ctx).state.mint_auth_bump && final(ctx)@ == claim_outcome(
                old(ctx)@,
                now_ts as int,
            ),
        },
        order is Ok ==> final(ctx).stake_account.pending_rewards == 0,
        final(ctx).state == old(ctx).state,
        old(ctx).stake_account@.wf() ==> final(ctx).stake_account@.wf(),
{
    if !ctx.state.mint.same_as(&ctx.mint) {
        return Err(SkillStakeError::MintMismatch);
    }
    if !ctx.stake_account.owner.same_as(&ctx.user) {
        return Err(SkillStakeError::Unauthorized);
    }
    let rewards: u64 = match pending_after_accrual(&ctx.stake_account, ctx.state.apr_bps, now_ts) {
        Ok(p) => p,
        Err(e) => { return Err(e); },
    };
    if rewards == 0 {
        return Err(SkillStakeError::NothingToClaim);
    }
    ctx.stake_account.last_accrued_ts = now_ts;
    ctx.stake_account.pending_rewards = 0;
    Ok(CustodyOrder::Mint { amount: rewards, bump: ctx.state.mint_auth_bump })
}

/// What a call to `faucet` works on.
#[derive(Clone, Debug, PartialEq, Eq)]
pub struct Faucet {
    /// The authenticated caller.
    pub user: Identity,
    /// The token type that the caller names.
    pub mint: Identity,
    /// The policy record.
    pub state: GlobalState,
    /// The caller's stake record, possibly not yet initialized.
    pub stake_account: StakeAccount,
    /// The bump under which the caller's stake record is stored.
    pub stake_account_bump: u8,
}

/// The model of what a call to `faucet` works on.
pub struct FaucetView {
    pub user: Seq<u8>,
    pub mint: Seq<u8>,
    pub state: PolicyRecord,
    pub stake_account: StakeRecord,
    pub stake_account_bump: nat,
}

impl View for Faucet {
    type V = FaucetView;

    open spec fn view(&self) -> FaucetView {
        FaucetView {
            user: self.user@,
            mint: self.mint@,
            state: self.state@,
            stake_account: self.stake_account@,
            stake_account_bump: self.stake_account_bump as nat,
        }
    }
}

/// Why `faucet` refuses a call, if it does. The tests are made in this order.
pub open spec fn faucet_refusal(pre: FaucetView, amount: nat) -> Option<SkillStakeError> {
    let record = pre.stake_account;
    if amount == 0 {
        Some(SkillStakeError::InvalidAmount)
    } else if pre.state.token_ref != pre.mint {
        Some(SkillStakeError::MintMismatch)
    } else if !record.is_uninitialized() && record.owner != pre.user {
        Some(SkillStakeError::Unauthorized)
    } else if record.faucet_claimed + amount > u64::MAX {
        Some(SkillStakeError::MathOverflow)
    } else if record.faucet_claimed + amount > pre.state.faucet_cap {
        Some(SkillStakeError::FaucetCapExceeded)
    } else {
        None
    }
}

/// What an accepted `faucet` leaves: a record without owner becomes the
/// caller's, and the amount is added to what the faucet has issued to the
/// participant. No accrual pass is made.
pub open spec fn faucet_outcome(pre: FaucetView, amount: nat) -> FaucetView {
    let record = pre.stake_account;
    let owned = if record.is_uninitialized() {
        StakeRecord { owner: pre.user, bump: pre.stake_account_bump, ..record }
    } else {
        record
    };
    FaucetView {
        stake_account: StakeRecord { faucet_claimed: record.faucet_claimed + amount, ..owned },
        ..pre
    }
}

/// Issues `amount` of new tokens to the caller, up to the policy's cap on
/// what one participant can draw in total.
///
/// An accepted call returns the order to mint `amount` to the caller,
/// authorized by the policy's minting authority.
pub fn faucet(ctx: &mut Faucet, amount: u64) -> (order: Result<CustodyOrder, SkillStakeError>)
    ensures
        match faucet_refusal(old(ctx)@, amount as nat) {
            Some(e) => order == Err::<CustodyOrder, SkillStakeError>(e) && *final(ctx) == *old(ctx),
            None => order == Ok::<CustodyOrder, SkillStakeError>(
                (CustodyOrder::Mint { amount, bump: old(ctx).state.mint_auth_bump }),
            ) && final(ctx)@ == faucet_outcome(old(ctx)@, amount as nat),
        },
        old(ctx).stake_account.faucet_claimed + amount > old(ctx).state.faucet_cap ==> order is Err,
        order is Ok ==> final(ctx).stake_account.faucet_claimed <= final(ctx).state.faucet_cap,
        final(ctx).state == old(ctx).state,
        old(ctx).stake_account@.wf() ==> final(ctx).stake_account@.wf(),
{
    if amount == 0 {
        return Err(SkillStakeError::InvalidAmount);
    }
    if !ctx.state.mint.same_as(&ctx.mint) {
        return Err(SkillStakeError::MintMismatch);
    }
    let fresh = ctx.stake_account.owner.is_default();
    if !fresh && !ctx.stake_account.owner.same_as(&ctx.user) {
        return Err(SkillStakeError::Unauthorized);
    }
    let new_total: u64 = match ctx.stake_account.faucet_claimed.checked_add(amount) {
        Some(t) => t,
        None => { return Err(SkillStakeError::MathOverflow); },
    };
    if new_total > ctx.state.faucet_cap {
        return Err(SkillStakeError::FaucetCapExceeded);
    }
    if fresh {
        ctx.stake_account.owner = ctx.user;
        ctx.stake_account.bump = ctx.stake_account_bump;
    }
    ctx.stake_account.faucet_claimed = new_total;
    Ok(CustodyOrder::Mint { amount, bump: ctx.state.mint_auth_bump })
}

} // verus!
