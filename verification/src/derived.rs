//! The addresses that the Omnipair program derives for a pair.

use vstd::prelude::*;

use crate::pubkey::Pubkey;
use crate::state::{
    OmnipairPair, EVENT_AUTHORITY_SEED, FUTARCHY_AUTHORITY_SEED_PREFIX, OMNIPAIR_PROGRAM_ID,
    RESERVE_VAULT_SEED_PREFIX,
};

verus! {

/// The address that `program_id` owns under `seeds`, with its bump seed, as
/// `solana_pubkey::Pubkey::try_find_program_address` finds it; nothing if it finds none.
pub uninterp spec fn program_address(seeds: Seq<Seq<u8>>, program_id: Seq<u8>) -> Option<
    ([u8; 32], u8),
>;

/// `solana_pubkey::Pubkey::try_find_program_address`. Which address comes back is a function of
/// the seeds and of the program, which has the name `program_address`; nothing is said of its
/// bytes.
#[verifier::external_body]
fn try_find_program_address(seeds: &[&[u8]], program_id: &[u8; 32]) -> (found: Option<
    ([u8; 32], u8),
>)
    ensures
        found == program_address(seeds@.map_values(|seed: &[u8]| seed@), program_id@),
{
    let program_id = solana_pubkey::Pubkey::new_from_array(*program_id);
    solana_pubkey::Pubkey::try_find_program_address(seeds, &program_id).map(
        |found| (found.0.to_bytes(), found.1),
    )
}

/// The address that the Omnipair program owns under `seeds`.
pub open spec fn omnipair_address(seeds: Seq<Seq<u8>>) -> Option<([u8; 32], u8)> {
    program_address(seeds, OMNIPAIR_PROGRAM_ID@)
}

/// That address without its bump seed, where it exists.
pub open spec fn omnipair_key(seeds: Seq<Seq<u8>>) -> Pubkey {
    Pubkey { bytes: (omnipair_address(seeds)->0).0 }
}

/// The seeds of the vault that holds the reserve of `mint` for the pair at `pair_key`.
pub open spec fn reserve_vault_seeds(pair_key: Pubkey, mint: Pubkey) -> Seq<Seq<u8>> {
    seq![RESERVE_VAULT_SEED_PREFIX@, pair_key@, mint@]
}

pub open spec fn futarchy_authority_seeds() -> Seq<Seq<u8>> {
    seq![FUTARCHY_AUTHORITY_SEED_PREFIX@]
}

pub open spec fn event_authority_seeds() -> Seq<Seq<u8>> {
    seq![EVENT_AUTHORITY_SEED@]
}

/// Whether all the addresses of the pair exist.
pub open spec fn derivable(pair_key: Pubkey, state: OmnipairPair) -> bool {
    &&& omnipair_address(reserve_vault_seeds(pair_key, state.token0)) is Some
    &&& omnipair_address(reserve_vault_seeds(pair_key, state.token1)) is Some
    &&& omnipair_address(futarchy_authority_seeds()) is Some
    &&& omnipair_address(event_authority_seeds()) is Some
}

/// The addresses of the pair.
pub open spec fn derived_accounts(pair_key: Pubkey, state: OmnipairPair) -> DerivedAccounts {
    DerivedAccounts {
        reserve_vault0: omnipair_key(reserve_vault_seeds(pair_key, state.token0)),
        reserve_vault1: omnipair_key(reserve_vault_seeds(pair_key, state.token1)),
        futarchy_authority: omnipair_key(futarchy_authority_seeds()),
        event_authority: omnipair_key(event_authority_seeds()),
    }
}

#[derive(Debug, Clone, Copy, PartialEq, Eq)]
pub struct DerivedAccounts {
    pub reserve_vault0: Pubkey,
    pub reserve_vault1: Pubkey,
    pub futarchy_authority: Pubkey,
    pub event_authority: Pubkey,
}

/// The vault that holds the reserve of `mint`.
fn reserve_vault(pair_key: &Pubkey, mint: &Pubkey) -> (vault: Option<Pubkey>)
    ensures
        match vault {
            Some(key) => {
                &&& omnipair_address(reserve_vault_seeds(*pair_key, *mint)) is Some
                &&& key == omnipair_key(reserve_vault_seeds(*pair_key, *mint))
            },
            None => omnipair_address(reserve_vault_seeds(*pair_key, *mint)) is None,
        },
{
    let seeds: &[&[u8]] = &[&RESERVE_VAULT_SEED_PREFIX, &pair_key.bytes, &mint.bytes];
    assert(seeds@.map_values(|seed: &[u8]| seed@) =~= reserve_vault_seeds(*pair_key, *mint));
    match try_find_program_address(seeds, &OMNIPAIR_PROGRAM_ID) {
        Some(found) => Some(Pubkey { bytes: found.0 }),
        None => None,
    }
}

fn futarchy_authority() -> (authority: Option<Pubkey>)
    ensures
        match authority {
            Some(key) => {
                &&& omnipair_address(futarchy_authority_seeds()) is Some
                &&& key == omnipair_key(futarchy_authority_seeds())
            },
            None => omnipair_address(futarchy_authority_seeds()) is None,
        },
{
    let seeds: &[&[u8]] = &[&FUTARCHY_AUTHORITY_SEED_PREFIX];
    assert(seeds@.map_values(|seed: &[u8]| seed@) =~= futarchy_authority_seeds());
    match try_find_program_address(seeds, &OMNIPAIR_PROGRAM_ID) {
        Some(found) => Some(Pubkey { bytes: found.0 }),
        None => None,
    }
}

fn event_authority() -> (authority: Option<Pubkey>)
    ensures
        match authority {
            Some(key) => {
                &&& omnipair_address(event_authority_seeds()) is Some
                &&& key == omnipair_key(event_authority_seeds())
            },
            None => omnipair_address(event_authority_seeds()) is None,
        },
{
    let seeds: &[&[u8]] = &[&EVENT_AUTHORITY_SEED];
    assert(seeds@.map_values(|seed: &[u8]| seed@) =~= event_authority_seeds());
    match try_find_program_address(seeds, &OMNIPAIR_PROGRAM_ID) {
        Some(found) => Some(Pubkey { bytes: found.0 }),
        None => None,
    }
}

impl DerivedAccounts {
    /// The addresses of the pair at `pair_key`, all of which exist.
    pub fn compute(pair_key: &Pubkey, state: &OmnipairPair) -> (derived: Self)
        requires
            derivable(*pair_key, *state),
        ensures
            derived == derived_accounts(*pair_key, *state),
    {
        DerivedAccounts {
            reserve_vault0: reserve_vault(pair_key, &state.token0).unwrap(),
            reserve_vault1: reserve_vault(pair_key, &state.token1).unwrap(),
            futarchy_authority: futarchy_authority().unwrap(),
            event_authority: event_authority().unwrap(),
        }
    }

    /// Whether all the addresses of the pair at `pair_key` exist.
    pub fn exist(pair_key: &Pubkey, state: &OmnipairPair) -> (exist: bool)
        ensures
            exist == derivable(*pair_key, *state),
    {
        reserve_vault(pair_key, &state.token0).is_some() && reserve_vault(
            pair_key,
            &state.token1,
        ).is_some() && futarchy_authority().is_some() && event_authority().is_some()
    }

    /// The addresses of the pair at `pair_key`; nothing if one of them does not exist.
    pub fn try_compute(pair_key: &Pubkey, state: &OmnipairPair) -> (derived: Option<Self>)
        ensures
            match derived {
                Some(accounts) => derivable(*pair_key, *state) && accounts == derived_accounts(
                    *pair_key,
                    *state,
                ),
                None => !derivable(*pair_key, *state),
            },
    {
        if Self::exist(pair_key, state) {
            Some(Self::compute(pair_key, state))
        } else {
            None
        }
    }
}

} // verus!
