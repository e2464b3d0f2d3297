//! What the ledger asks of the custody service: how much moves, and who
//! authorizes it.

use crate::constants::MINT_AUTH_SEED;
use crate::constants::STATE_SEED;
use vstd::prelude::*;

verus! {

/// Who authorizes a movement of value.
#[derive(Clone, Copy, Debug, PartialEq, Eq, Structural)]
pub enum Authority {
    /// The calling participant.
    Participant,
    /// The vault authority of the policy, derived with this bump. It can move
    /// staked principal and cannot create supply.
    Vault { bump: u8 },
    /// The minting authority of the policy, derived with this bump. It can
    /// create supply and cannot move staked principal.
    Minter { bump: u8 },
}

impl Authority {
    /// The seeds from which the custody service derives the authority: a
    /// fixed seed, then the bump as one byte. The participant has none.
    pub open spec fn seeds(self) -> Seq<Seq<u8>> {
        match self {
            Authority::Participant => seq![],
            Authority::Vault { bump } => seq![STATE_SEED@, seq![bump]],
            Authority::Minter { bump } => seq![MINT_AUTH_SEED@, seq![bump]],
        }
    }

    /// The seeds to hand to the custody service with an order.
    pub fn signer_seeds(&self) -> (seeds: Vec<Vec<u8>>)
        ensures
            seeds.deep_view() == self.seeds(),
    {
        let mut seeds: Vec<Vec<u8>> = Vec::new();
        match self {
            Authority::Participant => {},
            Authority::Vault { bump } => {
                seeds.push(vstd::slice::slice_to_vec(STATE_SEED.as_slice()));
                seeds.push(vec![*bump]);
            },
            Authority::Minter { bump } => {
                seeds.push(vstd::slice::slice_to_vec(MINT_AUTH_SEED.as_slice()));
                seeds.push(vec![*bump]);
            },
        }
        assert(seeds.deep_view() =~~= self.seeds());
        seeds
    }
}

/// One instruction to the custody service. The ledger's own records have
/// already been brought to the state that holds once the order is carried
/// out; a host that cannot carry it out discards that state.
#[derive(Clone, Copy, Debug, PartialEq, Eq, Structural)]
pub enum CustodyOrder {
    /// Move `amount` from the participant's balance into the vault.
    Deposit { amount: u64 },
    /// Move `amount` from the vault to the participant.
    Withdraw { amount: u64, bump: u8 },
    /// Mint `amount` new tokens to the participant.
    Mint { amount: u64, bump: u8 },
}

impl CustodyOrder {
    /// How much the order moves or mints.
    pub open spec fn amount_of(self) -> nat {
        match self {
            CustodyOrder::Deposit { amount } => amount as nat,
            CustodyOrder::Withdraw { amount, .. } => amount as nat,
            CustodyOrder::Mint { amount, .. } => amount as nat,
        }
    }

    /// Who authorizes the order: the participant a deposit, the vault
    /// authority a withdrawal, the minting authority a mint.
    pub open spec fn authorized_by(self) -> Authority {
        match self {
            CustodyOrder::Deposit { .. } => Authority::Participant,
            CustodyOrder::Withdraw { bump, .. } => (Authority::Vault { bump }),
            CustodyOrder::Mint { bump, .. } => (Authority::Minter { bump }),
        }
    }

    /// How much the order moves or mints.
    pub fn amount(&self) -> (amount: u64)
        ensures
            amount == self.amount_of(),
    {
        match self {
            CustodyOrder::Deposit { amount } => *amount,
            CustodyOrder::Withdraw { amount, .. } => *amount,
            CustodyOrder::Mint { amount, .. } => *amount,
        }
    }

    /// Who authorizes the order.
    pub fn authority(&self) -> (authority: Authority)
        ensures
            authority == self.authorized_by(),
    {
        match self {
            CustodyOrder::Deposit { .. } => Authority::Participant,
            CustodyOrder::Withdraw { bump, .. } => Authority::Vault { bump: *bump },
            CustodyOrder::Mint { bump, .. } => Authority::Minter { bump: *bump },
        }
    }
}

/// The vault authority and the minting authority are never derived from the
/// same seeds, whatever their bumps: what can move principal cannot mint.
pub proof fn lemma_vault_and_minter_differ(vault_bump: u8, mint_auth_bump: u8)
    ensures
        (Authority::Vault { bump: vault_bump }).seeds() != (Authority::Minter {
            bump: mint_auth_bump,
        }).seeds(),
{
    let v = (Authority::Vault { bump: vault_bump }).seeds();
    let m = (Authority::Minter { bump: mint_auth_bump }).seeds();
    assert(v[0].len() == 5);
    assert(m[0].len() == 9);
}

} // verus!
