use skill_stake::claim;
use skill_stake::faucet;
use skill_stake::stake;
use skill_stake::unstake;
use skill_stake::Claim;
use skill_stake::CustodyOrder;
use skill_stake::Faucet;
use skill_stake::GlobalState;
use skill_stake::Identity;
use skill_stake::SkillStakeError;
use skill_stake::Stake;
use skill_stake::StakeAccount;
use skill_stake::Unstake;

const YEAR: i64 = 31_536_000;

fn alice() -> Identity {
    Identity::new([0xa1; 32])
}

fn bob() -> Identity {
    Identity::new([0xb0; 32])
}

fn token() -> Identity {
    Identity::new([0x70; 32])
}

fn policy() -> GlobalState {
    GlobalState {
        admin: Identity::new([0xad; 32]),
        oracle_authority: Identity::new([0x0c; 32]),
        mint: token(),
        vault: Identity::new([0x5a; 32]),
        apr_bps: 1000,
        total_staked: 0,
        faucet_cap: 1_000,
        pow_reward: 777,
        oracle_nonce: 0,
        pow_difficulty: 8,
        bump: 255,
        vault_bump: 254,
        mint_auth_bump: 253,
    }
}

fn empty_record() -> StakeAccount {
    StakeAccount {
        owner: Identity::default(),
        amount_staked: 0,
        pending_rewards: 0,
        faucet_claimed: 0,
        last_accrued_ts: 0,
        last_proof_ts: 0,
        last_task_id: 0,
        bump: 0,
        last_proof: Vec::new(),
    }
}

fn record_of(owner: Identity, amount_staked: u64, last_accrued_ts: i64) -> StakeAccount {
    StakeAccount { owner, amount_staked, last_accrued_ts, bump: 9, ..empty_record() }
}

#[test]
fn stake_creates_the_record_on_first_use() {
    let mut ctx = Stake {
        user: alice(),
        mint: token(),
        state: policy(),
        stake_account: empty_record(),
        stake_account_bump: 251,
    };
    assert_eq!(stake(&mut ctx, 1_000_000, 5_000), Ok(CustodyOrder::Deposit { amount: 1_000_000 }));
    assert_eq!(ctx.stake_account.owner, alice());
    assert_eq!(ctx.stake_account.bump, 251);
    assert_eq!(ctx.stake_account.amount_staked, 1_000_000);
    assert_eq!(ctx.stake_account.pending_rewards, 0);
    assert_eq!(ctx.stake_account.last_accrued_ts, 5_000);
    assert_eq!(ctx.state.total_staked, 1_000_000);
    assert_eq!(ctx.state, GlobalState { total_staked: 1_000_000, ..policy() });
}

#[test]
fn stake_on_an_owned_record_accrues_first() {
    let mut ctx = Stake {
        user: alice(),
        mint: token(),
        state: GlobalState { total_staked: 3_000_000, ..policy() },
        stake_account: record_of(alice(), 1_000_000, 100),
        stake_account_bump: 251,
    };
    assert_eq!(stake(&mut ctx, 500_000, 100 + YEAR), Ok(CustodyOrder::Deposit { amount: 500_000 }));
    assert_eq!(ctx.stake_account.pending_rewards, 100_000);
    assert_eq!(ctx.stake_account.amount_staked, 1_500_000);
    assert_eq!(ctx.stake_account.last_accrued_ts, 100 + YEAR);
    assert_eq!(ctx.stake_account.bump, 9);
    assert_eq!(ctx.stake_account.owner, alice());
    assert_eq!(ctx.state.total_staked, 3_500_000);
}

#[test]
fn stake_refusals_in_their_order() {
    let mut ctx = Stake {
        user: alice(),
        mint: bob(),
        state: policy(),
        stake_account: record_of(bob(), 10, 0),
        stake_account_bump: 1,
    };
    let before = ctx.clone();
    assert_eq!(stake(&mut ctx, 0, 10), Err(SkillStakeError::InvalidAmount));
    assert_eq!(ctx, before);
    assert_eq!(stake(&mut ctx, 5, 10), Err(SkillStakeError::MintMismatch));
    assert_eq!(ctx, before);
    ctx.mint = token();
    let before = ctx.clone();
    assert_eq!(stake(&mut ctx, 5, 10), Err(SkillStakeError::Unauthorized));
    assert_eq!(ctx, before);
}

#[test]
fn stake_refuses_overflow_and_changes_nothing() {
    let mut ctx = Stake {
        user: alice(),
        mint: token(),
        state: GlobalState { total_staked: 10, ..policy() },
        stake_account: record_of(alice(), u64::MAX - 4, 50),
        stake_account_bump: 1,
    };
    let before = ctx.clone();
    assert_eq!(stake(&mut ctx, 5, 50), Err(SkillStakeError::MathOverflow));
    assert_eq!(ctx, before);

    let mut ctx = Stake {
        user: alice(),
        mint: token(),
        state: GlobalState { total_staked: u64::MAX - 4, ..policy() },
        stake_account: record_of(alice(), 10, 50),
        stake_account_bump: 1,
    };
    let before = ctx.clone();
    assert_eq!(stake(&mut ctx, 5, 50 + YEAR), Err(SkillStakeError::MathOverflow));
    assert_eq!(ctx, before);
    assert_eq!(stake(&mut ctx, 4, 50), Ok(CustodyOrder::Deposit { amount: 4 }));
    assert_eq!(ctx.state.total_staked, u64::MAX);

    let mut ctx = Stake {
        user: alice(),
        mint: token(),
        state: policy(),
        stake_account: StakeAccount { pending_rewards: u64::MAX, ..record_of(alice(), 1_000_000, 0) },
        stake_account_bump: 1,
    };
    let before = ctx.clone();
    assert_eq!(stake(&mut ctx, 5, YEAR), Err(SkillStakeError::MathOverflow));
    assert_eq!(ctx, before);
}

#[test]
fn unstake_returns_principal_under_the_vault_authority() {
    let mut ctx = Unstake {
        user: alice(),
        mint: token(),
        state: GlobalState { total_staked: 3_000_000, ..policy() },
        stake_account: record_of(alice(), 1_000_000, 100),
    };
    assert_eq!(
        unstake(&mut ctx, 400_000, 100 + YEAR),
        Ok(CustodyOrder::Withdraw { amount: 400_000, bump: 255 })
    );
    assert_eq!(ctx.stake_account.amount_staked, 600_000);
    assert_eq!(ctx.stake_account.pending_rewards, 100_000);
    assert_eq!(ctx.stake_account.last_accrued_ts, 100 + YEAR);
    assert_eq!(ctx.state.total_staked, 2_600_000);

    assert_eq!(
        unstake(&mut ctx, 600_000, 100 + YEAR),
        Ok(CustodyOrder::Withdraw { amount: 600_000, bump: 255 })
    );
    assert_eq!(ctx.stake_account.amount_staked, 0);
    assert_eq!(ctx.state.total_staked, 2_000_000);
}

#[test]
fn unstake_refusals_in_their_order() {
    let mut ctx = Unstake {
        user: alice(),
        mint: bob(),
        state: GlobalState { total_staked: 100, ..policy() },
        stake_account: record_of(bob(), 10, 0),
    };
    let before = ctx.clone();
    assert_eq!(unstake(&mut ctx, 0, 10), Err(SkillStakeError::InvalidAmount));
    assert_eq!(unstake(&mut ctx, 11, 10), Err(SkillStakeError::MintMismatch));
    assert_eq!(ctx, before);
    ctx.mint = token();
    assert_eq!(unstake(&mut ctx, 11, 10), Err(SkillStakeError::Unauthorized));
    ctx.user = bob();
    let before = ctx.clone();
    assert_eq!(unstake(&mut ctx, 11, 10), Err(SkillStakeError::InsufficientStake));
    assert_eq!(ctx, before);
    assert_eq!(unstake(&mut ctx, 10, 10), Ok(CustodyOrder::Withdraw { amount: 10, bump: 255 }));
}

#[test]
fn unstake_on_a_record_without_owner_is_unauthorized() {
    let mut ctx = Unstake {
        user: alice(),
        mint: token(),
        state: policy(),
        stake_account: empty_record(),
    };
    let before = ctx.clone();
    assert_eq!(unstake(&mut ctx, 1, 10), Err(SkillStakeError::Unauthorized));
    assert_eq!(ctx, before);
}

#[test]
fn unstake_refuses_when_the_total_is_short() {
    let mut ctx = Unstake {
        user: alice(),
        mint: token(),
        state: GlobalState { total_staked: 5, ..policy() },
        stake_account: record_of(alice(), 10, 0),
    };
    let before = ctx.clone();
    assert_eq!(unstake(&mut ctx, 6, YEAR), Err(SkillStakeError::MathOverflow));
    assert_eq!(ctx, before);
}

#[test]
fn total_staked_is_the_sum_over_participants() {
    let mut state = policy();
    let mut a = empty_record();
    let mut b = empty_record();
    let moves: [(bool, bool, u64, i64); 8] = [
        (true, true, 1_000, 10),
        (false, true, 7_000, 20),
        (true, false, 400, 30),
        (true, false, 601, 40),
        (false, false, 7_000, 50),
        (true, true, 5, YEAR),
        (true, true, 0, YEAR),
        (true, false, 605, 2 * YEAR),
    ];
    let mut accepted = 0;
    for (is_alice, is_stake, amount, now) in moves {
        let user = if is_alice { alice() } else { bob() };
        let record = if is_alice { a.clone() } else { b.clone() };
        let (done, new_state, new_record) = if is_stake {
            let mut ctx =
                Stake { user, mint: token(), state, stake_account: record, stake_account_bump: 3 };
            let r = stake(&mut ctx, amount, now);
            (r.is_ok(), ctx.state, ctx.stake_account)
        } else {
            let mut ctx = Unstake { user, mint: token(), state, stake_account: record };
            let r = unstake(&mut ctx, amount, now);
            (r.is_ok(), ctx.state, ctx.stake_account)
        };
        if done {
            accepted += 1;
        }
        state = new_state;
        if is_alice {
            a = new_record;
        } else {
            b = new_record;
        }
        assert_eq!(state.total_staked, a.amount_staked + b.amount_staked);
    }
    assert_eq!(accepted, 6);
    assert_eq!(a.amount_staked, 0);
    assert_eq!(b.amount_staked, 0);
    assert_eq!(state.total_staked, 0);
}

#[test]
fn claim_mints_what_is_pending_and_resets_it() {
    let mut ctx = Claim {
        user: alice(),
        mint: token(),
        state: policy(),
        stake_account: StakeAccount { pending_rewards: 77, ..record_of(alice(), 1_000_000, 0) },
    };
    assert_eq!(claim(&mut ctx, YEAR), Ok(CustodyOrder::Mint { amount: 100_077, bump: 253 }));
    assert_eq!(ctx.stake_account.pending_rewards, 0);
    assert_eq!(ctx.stake_account.last_accrued_ts, YEAR);
    assert_eq!(ctx.stake_account.amount_staked, 1_000_000);
    assert_eq!(ctx.state, policy());

    let before = ctx.clone();
    assert_eq!(claim(&mut ctx, YEAR), Err(SkillStakeError::NothingToClaim));
    assert_eq!(ctx, before);
}

#[test]
fn claim_refusals_in_their_order() {
    let mut ctx = Claim {
        user: alice(),
        mint: bob(),
        state: policy(),
        stake_account: record_of(bob(), 0, 0),
    };
    let before = ctx.clone();
    assert_eq!(claim(&mut ctx, 10), Err(SkillStakeError::MintMismatch));
    ctx.mint = token();
    assert_eq!(claim(&mut ctx, 10), Err(SkillStakeError::Unauthorized));
    ctx.user = bob();
    assert_eq!(claim(&mut ctx, 10), Err(SkillStakeError::NothingToClaim));
    assert_eq!(ctx.stake_account, before.stake_account);
    assert_eq!(ctx.stake_account.last_accrued_ts, 0);
    ctx.stake_account.amount_staked = 1_000_000;
    ctx.stake_account.pending_rewards = u64::MAX;
    let before = ctx.clone();
    assert_eq!(claim(&mut ctx, YEAR), Err(SkillStakeError::MathOverflow));
    assert_eq!(ctx, before);
}

#[test]
fn faucet_is_accepted_up_to_the_cap_and_not_beyond() {
    let mut ctx = Faucet {
        user: alice(),
        mint: token(),
        state: policy(),
        stake_account: StakeAccount { faucet_claimed: 900, ..record_of(alice(), 0, 0) },
        stake_account_bump: 4,
    };
    let before = ctx.clone();
    assert_eq!(faucet(&mut ctx, 101), Err(SkillStakeError::FaucetCapExceeded));
    assert_eq!(ctx, before);
    assert_eq!(faucet(&mut ctx, 100), Ok(CustodyOrder::Mint { amount: 100, bump: 253 }));
    assert_eq!(ctx.stake_account.faucet_claimed, 1_000);
    let before = ctx.clone();
    assert_eq!(faucet(&mut ctx, 1), Err(SkillStakeError::FaucetCapExceeded));
    assert_eq!(ctx, before);
}

#[test]
fn faucet_creates_the_record_and_makes_no_accrual_pass() {
    let mut ctx = Faucet {
        user: alice(),
        mint: token(),
        state: policy(),
        stake_account: empty_record(),
        stake_account_bump: 4,
    };
    assert_eq!(faucet(&mut ctx, 250), Ok(CustodyOrder::Mint { amount: 250, bump: 253 }));
    assert_eq!(
        ctx.stake_account,
        StakeAccount { owner: alice(), bump: 4, faucet_claimed: 250, ..empty_record() }
    );

    let mut ctx = Faucet {
        user: alice(),
        mint: token(),
        state: policy(),
        stake_account: record_of(alice(), 1_000_000, 0),
        stake_account_bump: 4,
    };
    assert_eq!(faucet(&mut ctx, 250), Ok(CustodyOrder::Mint { amount: 250, bump: 253 }));
    assert_eq!(
        ctx.stake_account,
        StakeAccount { faucet_claimed: 250, ..record_of(alice(), 1_000_000, 0) }
    );
}

#[test]
fn faucet_refusals_in_their_order() {
    let mut ctx = Faucet {
        user: alice(),
        mint: bob(),
        state: GlobalState { faucet_cap: u64::MAX, ..policy() },
        stake_account: StakeAccount { faucet_claimed: u64::MAX - 1, ..record_of(bob(), 0, 0) },
        stake_account_bump: 4,
    };
    let before = ctx.clone();
    assert_eq!(faucet(&mut ctx, 0), Err(SkillStakeError::InvalidAmount));
    assert_eq!(faucet(&mut ctx, 2), Err(SkillStakeError::MintMismatch));
    ctx.mint = token();
    assert_eq!(faucet(&mut ctx, 2), Err(SkillStakeError::Unauthorized));
    assert_eq!(ctx.stake_account, before.stake_account);
    ctx.user = bob();
    assert_eq!(faucet(&mut ctx, 2), Err(SkillStakeError::MathOverflow));
    assert_eq!(faucet(&mut ctx, 1), Ok(CustodyOrder::Mint { amount: 1, bump: 253 }));
    assert_eq!(ctx.stake_account.faucet_claimed, u64::MAX);
}

#[test]
fn faucet_stays_closed_after_the_cap_was_lowered_below_what_was_drawn() {
    let mut ctx = Faucet {
        user: alice(),
        mint: token(),
        state: GlobalState { faucet_cap: 100, ..policy() },
        stake_account: StakeAccount { faucet_claimed: 900, ..record_of(alice(), 0, 0) },
        stake_account_bump: 4,
    };
    let before = ctx.clone();
    assert_eq!(faucet(&mut ctx, 1), Err(SkillStakeError::FaucetCapExceeded));
    assert_eq!(ctx, before);
}

#[test]
fn a_new_record_has_no_owner_and_holds_nothing() {
    let record = StakeAccount::default();
    assert!(record.owner.is_default());
    assert_eq!(record, empty_record());
}
