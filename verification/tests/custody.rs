use skill_stake::Authority;
use skill_stake::CustodyOrder;
use skill_stake::GlobalState;
use skill_stake::Identity;
use skill_stake::StakeAccount;
use skill_stake::BPS_DENOMINATOR;
use skill_stake::MAX_APR_BPS;
use skill_stake::MAX_POW_DIFFICULTY;
use skill_stake::MAX_PROOF_STORAGE;
use skill_stake::MINT_AUTH_SEED;
use skill_stake::POW_DOMAIN;
use skill_stake::SECONDS_PER_YEAR;
use skill_stake::STAKE_ACCOUNT_SEED;
use skill_stake::STATE_SEED;
use skill_stake::VAULT_SEED;

#[test]
fn seeds_and_limits_have_their_values() {
    assert_eq!(&STATE_SEED[..], b"state");
    assert_eq!(&VAULT_SEED[..], b"vault");
    assert_eq!(&MINT_AUTH_SEED[..], b"mint_auth");
    assert_eq!(&STAKE_ACCOUNT_SEED[..], b"stake");
    assert_eq!(&POW_DOMAIN[..], b"skillstake_pow");
    assert_eq!(SECONDS_PER_YEAR, 365 * 24 * 60 * 60);
    assert_eq!(BPS_DENOMINATOR, 10_000);
    assert_eq!(MAX_APR_BPS, BPS_DENOMINATOR * 5);
    assert_eq!(MAX_POW_DIFFICULTY, 248);
    assert_eq!(MAX_PROOF_STORAGE, 64);
}

#[test]
fn records_have_their_persisted_sizes() {
    assert_eq!(GlobalState::SPACE, 176);
    assert_eq!(StakeAccount::SPACE, 32 + 6 * 8 + 1 + 7 + 4 + 64);
}

#[test]
fn orders_name_their_amount_and_authority() {
    let deposit = CustodyOrder::Deposit { amount: 5 };
    let withdraw = CustodyOrder::Withdraw { amount: 6, bump: 250 };
    let mint = CustodyOrder::Mint { amount: 7, bump: 249 };
    assert_eq!(deposit.amount(), 5);
    assert_eq!(withdraw.amount(), 6);
    assert_eq!(mint.amount(), 7);
    assert_eq!(deposit.authority(), Authority::Participant);
    assert_eq!(withdraw.authority(), Authority::Vault { bump: 250 });
    assert_eq!(mint.authority(), Authority::Minter { bump: 249 });
}

#[test]
fn authorities_have_their_signer_seeds() {
    assert_eq!(Authority::Participant.signer_seeds(), Vec::<Vec<u8>>::new());
    assert_eq!(
        Authority::Vault { bump: 250 }.signer_seeds(),
        vec![b"state".to_vec(), vec![250u8]]
    );
    assert_eq!(
        Authority::Minter { bump: 250 }.signer_seeds(),
        vec![b"mint_auth".to_vec(), vec![250u8]]
    );
    for bump in [0u8, 1, 254, 255] {
        assert_ne!(
            Authority::Vault { bump }.signer_seeds(),
            Authority::Minter { bump }.signer_seeds()
        );
    }
}

#[test]
fn identities_compare_byte_for_byte() {
    let mut bytes = [0u8; 32];
    assert!(Identity::new(bytes).is_default());
    assert_eq!(Identity::new(bytes), Identity::default());
    bytes[31] = 1;
    let last = Identity::new(bytes);
    assert!(!last.is_default());
    assert_ne!(last, Identity::default());
    assert!(last.same_as(&Identity::new(bytes)));
    assert_eq!(last.to_bytes(), bytes);
    bytes[0] = 1;
    assert!(!last.same_as(&Identity::new(bytes)));
    assert_ne!(last, Identity::new(bytes));
}
