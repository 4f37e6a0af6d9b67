//! What a venue holds once it has been made or updated, by the accounts that this was done with.

use vstd::prelude::*;

use crate::derived::{derivable, derived_accounts, program_address, DerivedAccounts};
use crate::encoding::{
    futarchy_authority_bytes, futarchy_authority_result, lemma_futarchy_authority_read_back,
    lemma_pair_read_back, lemma_rate_model_read_back, pair_bytes, pair_result, rate_model_bytes,
    rate_model_result,
};
use crate::encoding_laws::{lemma_clock_slot_stands, lemma_pair_refusals};
use crate::error::{ErrorInfo, TradingVenueError};
use crate::layout::le_value;
use crate::model::{
    apply_result, finish_result, from_account_result, key_bytes, mints_read, new_venue,
    update_derivable, update_keys, updated, Account, TokenInfo, VenueModel,
};
use crate::pubkey::Pubkey;
use crate::state::{
    OmnipairFutarchyAuthority, OmnipairPair, OmnipairRateModel, CLOCK_SYSVAR_ID,
    EVENT_AUTHORITY_SEED, FUTARCHY_AUTHORITY_SEED_PREFIX, OMNIPAIR_PROGRAM_ID,
    RESERVE_VAULT_SEED_PREFIX,
};

verus! {

/// The seeds under which the program owns the addresses of a pair: those of the vaults name the
/// pair and the mint, in that order; those of the authorities name neither.
pub proof fn lemma_derived_addresses(pair_key: Pubkey, state: OmnipairPair)
    ensures
        ({
            let d = derived_accounts(pair_key, state);
            let vault0 = program_address(
                seq![RESERVE_VAULT_SEED_PREFIX@, pair_key.bytes@, state.token0.bytes@],
                OMNIPAIR_PROGRAM_ID@,
            );
            let vault1 = program_address(
                seq![RESERVE_VAULT_SEED_PREFIX@, pair_key.bytes@, state.token1.bytes@],
                OMNIPAIR_PROGRAM_ID@,
            );
            let futarchy = program_address(
                seq![FUTARCHY_AUTHORITY_SEED_PREFIX@],
                OMNIPAIR_PROGRAM_ID@,
            );
            let event = program_address(seq![EVENT_AUTHORITY_SEED@], OMNIPAIR_PROGRAM_ID@);
            &&& derivable(pair_key, state) <==> vault0 is Some && vault1 is Some && futarchy is Some
                && event is Some
            &&& vault0 matches Some(found) ==> d.reserve_vault0.bytes == found.0
            &&& vault1 matches Some(found) ==> d.reserve_vault1.bytes == found.0
            &&& futarchy matches Some(found) ==> d.futarchy_authority.bytes == found.0
            &&& event matches Some(found) ==> d.event_authority.bytes == found.0
        }),
{
}

/// The accounts that an update reads, in this order, and their bytes.
pub proof fn lemma_update_reads(pair_key: Pubkey, state: OmnipairPair, derived: DerivedAccounts)
    ensures
        ({
            let keys = update_keys(pair_key, state, derived);
            &&& keys.len() == 6
            &&& keys[0] == pair_key
            &&& keys[1] == state.rate_model
            &&& keys[2] == derived.futarchy_authority
            &&& keys[3] == state.token0
            &&& keys[4] == state.token1
            &&& keys[5].bytes == CLOCK_SYSVAR_ID
            &&& key_bytes(keys).len() == 6
            &&& forall|i: int| 0 <= i < 6 ==> #[trigger] key_bytes(keys)[i] == keys[i].bytes
        }),
{
}

/// A venue of an account of the program that holds a pair holds that pair, field by field, at the
/// address of the account, with the addresses that belong to it. Nothing else is known yet. An
/// update needs six accounts: the pair, its rate model, the futarchy authority, the mints and the
/// clock.
pub proof fn lemma_new_venue_holds_the_pair(
    pair_key: Pubkey,
    account: Account,
    discriminator: Seq<u8>,
    p: OmnipairPair,
    trailing: Seq<u8>,
)
    requires
        account.owner.bytes == OMNIPAIR_PROGRAM_ID,
        discriminator.len() == 8,
        account.data@ == discriminator + pair_bytes(p) + trailing,
    ensures
        from_account_result(account) matches Ok(state) && {
            let venue = new_venue(pair_key, state);
            &&& venue.pair_key == pair_key
            &&& venue.state == p
            &&& venue.derived == derived_accounts(pair_key, p)
            &&& venue.rate_model_data is None
            &&& venue.interest_bps == 0
            &&& venue.current_slot == 0
            &&& !venue.initialized
            &&& venue.token_info.len() == 0
            &&& forall|key: [u8; 32]| #[trigger]
                venue.required.contains(key) <==> key == pair_key.bytes || key == p.rate_model.bytes
                    || key == derived_accounts(pair_key, p).futarchy_authority.bytes || key
                    == p.token0.bytes || key == p.token1.bytes || key == CLOCK_SYSVAR_ID
        },
{
    lemma_pair_read_back(discriminator, p, trailing);
    let derived = derived_accounts(pair_key, p);
    let bytes = key_bytes(update_keys(pair_key, p, derived));
    lemma_update_reads(pair_key, p, derived);
    assert forall|key: [u8; 32]| #[trigger]
        new_venue(pair_key, p).required.contains(key) <==> key == pair_key.bytes || key
            == p.rate_model.bytes || key == derived.futarchy_authority.bytes || key
            == p.token0.bytes || key == p.token1.bytes || key == CLOCK_SYSVAR_ID by {
        assert(bytes.contains(bytes[0]) && bytes.contains(bytes[1]) && bytes.contains(bytes[2])
            && bytes.contains(bytes[3]) && bytes.contains(bytes[4]) && bytes.contains(bytes[5]));
        assert(new_venue(pair_key, p).required.contains(key) <==> bytes.contains(key));
    }
}

/// No venue is made of an account of another program, whatever it holds, nor of one that holds no
/// pair.
pub proof fn lemma_other_accounts_make_no_venue(account: Account)
    ensures
        account.owner.bytes != OMNIPAIR_PROGRAM_ID ==> from_account_result(account) == Err::<
            OmnipairPair,
            TradingVenueError,
        >(
            TradingVenueError::FromAccountError(
                ErrorInfo::Message("account owner is not Omnipair program"),
            ),
        ),
        account.owner.bytes == OMNIPAIR_PROGRAM_ID && account.data@.len() < 8
            ==> from_account_result(account) == Err::<OmnipairPair, TradingVenueError>(
            TradingVenueError::DeserializationFailed(
                ErrorInfo::Message("omnipair pair data too short"),
            ),
        ),
        account.owner.bytes == OMNIPAIR_PROGRAM_ID && 8 <= account.data@.len() < 348
            ==> from_account_result(account) == Err::<OmnipairPair, TradingVenueError>(
            TradingVenueError::DeserializationFailed(
                ErrorInfo::Message("omnipair pair anchor decode"),
            ),
        ),
{
    lemma_pair_refusals(account.data@);
}

/// The mints as an update read them that went through.
proof fn lemma_mints_of_update<
    F: Fn(&Pubkey, &Account, u64) -> Result<TokenInfo, TradingVenueError>,
>(
    before: VenueModel,
    accounts: Seq<Option<Account>>,
    token_info: F,
    after: VenueModel,
    result: Result<(), TradingVenueError>,
) -> (infos: (Result<TokenInfo, TradingVenueError>, Result<TokenInfo, TradingVenueError>))
    requires
        updated(before, accounts, token_info, after, result),
        apply_result(before, accounts).1 is Ok,
        accounts[3] is Some,
        accounts[4] is Some,
    ensures
        mints_read(
            token_info,
            apply_result(before, accounts).0.state,
            accounts[3]->0,
            accounts[4]->0,
            infos.0,
            infos.1,
        ),
        (after, result) == finish_result(apply_result(before, accounts).0, infos.0, infos.1),
{
    let applied = apply_result(before, accounts).0;
    let (mint0, mint1) = (accounts[3]->0, accounts[4]->0);
    choose|
        info0: Result<TokenInfo, TradingVenueError>,
        info1: Result<TokenInfo, TradingVenueError>,
    |
        {
            &&& #[trigger] mints_read(token_info, applied.state, mint0, mint1, info0, info1)
            &&& (after, result) == finish_result(applied, info0, info1)
        }
}

/// After an update that goes through, the venue holds what the accounts say and nothing else has
/// changed. The pair and its addresses are those of the first account; the rate model is that of the
/// second and unknown without it; the share of interest is that of the third and nothing without it;
/// the slot is that of the sixth and as it was without it; the mints are as they read off the fourth
/// and the fifth, for the mints of the new pair, and as they were where one is missing.
pub proof fn lemma_update_takes_the_accounts_over<
    F: Fn(&Pubkey, &Account, u64) -> Result<TokenInfo, TradingVenueError>,
>(
    before: VenueModel,
    accounts: Seq<Option<Account>>,
    token_info: F,
    after: VenueModel,
    result: Result<(), TradingVenueError>,
)
    requires
        updated(before, accounts, token_info, after, result),
        result is Ok,
    ensures
        accounts.len() == 6,
        accounts[0] matches Some(account) && pair_result(account.data@) == Ok::<
            OmnipairPair,
            TradingVenueError,
        >(after.state),
        after.derived == derived_accounts(before.pair_key, after.state),
        accounts[1] is None ==> after.rate_model_data is None,
        accounts[1] matches Some(account) ==> (after.rate_model_data matches Some(rate_model)
            && rate_model_result(account.data@) == Ok::<OmnipairRateModel, TradingVenueError>(
            rate_model,
        )),
        accounts[2] is None ==> after.interest_bps == 0,
        accounts[2] matches Some(account) ==> (futarchy_authority_result(account.data@) matches Ok(
            authority,
        ) && after.interest_bps == authority.revenue_share.interest_bps),
        accounts[5] is None ==> after.current_slot == before.current_slot,
        accounts[5] matches Some(account) ==> account.data@.len() >= 40 && after.current_slot as nat
            == le_value(account.data@.subrange(0, 8)),
        (accounts[3], accounts[4]) matches (Some(mint0), Some(mint1)) ==> {
            &&& after.token_info.len() == 2
            &&& token_info.ensures(
                (&after.state.token0, &mint0, u64::MAX),
                Ok(after.token_info[0]),
            )
            &&& token_info.ensures(
                (&after.state.token1, &mint1, u64::MAX),
                Ok(after.token_info[1]),
            )
        },
        accounts[3] is None || accounts[4] is None ==> after.token_info == before.token_info,
        after.initialized,
        after.pair_key == before.pair_key,
        after.required == before.required,
{
    if accounts.len() == 6 && accounts[5] is Some {
        lemma_clock_slot_stands(accounts[5]->0.data@);
    }
    if apply_result(before, accounts).1 is Ok && accounts[3] is Some && accounts[4] is Some {
        let infos = lemma_mints_of_update(before, accounts, token_info, after, result);
    }
}

/// After an update that goes through, the state of the venue is the pair whose bytes stand in the
/// first account, field by field: reserves, cash and all.
pub proof fn lemma_update_holds_the_pair<
    F: Fn(&Pubkey, &Account, u64) -> Result<TokenInfo, TradingVenueError>,
>(
    before: VenueModel,
    accounts: Seq<Option<Account>>,
    token_info: F,
    after: VenueModel,
    result: Result<(), TradingVenueError>,
    discriminator: Seq<u8>,
    p: OmnipairPair,
    trailing: Seq<u8>,
)
    requires
        updated(before, accounts, token_info, after, result),
        result is Ok,
        discriminator.len() == 8,
        accounts[0] matches Some(account) && account.data@ == discriminator + pair_bytes(p)
            + trailing,
    ensures
        after.state == p,
        after.derived == derived_accounts(before.pair_key, p),
{
    lemma_update_takes_the_accounts_over(before, accounts, token_info, after, result);
    lemma_pair_read_back(discriminator, p, trailing);
}

/// After an update that goes through, the rate model of the venue is the one whose bytes stand in
/// the second account.
pub proof fn lemma_update_holds_the_rate_model<
    F: Fn(&Pubkey, &Account, u64) -> Result<TokenInfo, TradingVenueError>,
>(
    before: VenueModel,
    accounts: Seq<Option<Account>>,
    token_info: F,
    after: VenueModel,
    result: Result<(), TradingVenueError>,
    discriminator: Seq<u8>,
    r: OmnipairRateModel,
    trailing: Seq<u8>,
)
    requires
        updated(before, accounts, token_info, after, result),
        result is Ok,
        discriminator.len() == 8,
        accounts[1] matches Some(account) && account.data@ == discriminator + rate_model_bytes(r)
            + trailing,
    ensures
        after.rate_model_data == Some(r),
{
    lemma_update_takes_the_accounts_over(before, accounts, token_info, after, result);
    lemma_rate_model_read_back(discriminator, r, trailing);
}

/// After an update that goes through, the share of interest is that of the futarchy authority whose
/// bytes stand in the third account.
pub proof fn lemma_update_holds_the_share_of_interest<
    F: Fn(&Pubkey, &Account, u64) -> Result<TokenInfo, TradingVenueError>,
>(
    before: VenueModel,
    accounts: Seq<Option<Account>>,
    token_info: F,
    after: VenueModel,
    result: Result<(), TradingVenueError>,
    discriminator: Seq<u8>,
    v: OmnipairFutarchyAuthority,
    trailing: Seq<u8>,
)
    requires
        updated(before, accounts, token_info, after, result),
        result is Ok,
        discriminator.len() == 8,
        accounts[2] matches Some(account) && account.data@ == discriminator
            + futarchy_authority_bytes(v) + trailing,
    ensures
        after.interest_bps == v.revenue_share.interest_bps,
{
    lemma_update_takes_the_accounts_over(before, accounts, token_info, after, result);
    lemma_futarchy_authority_read_back(discriminator, v, trailing);
}

/// An update goes through if the six accounts came back, the first holds a pair, the others hold
/// what they should as far as they are there, and the mints can be read where both are there.
pub proof fn lemma_update_goes_through<
    F: Fn(&Pubkey, &Account, u64) -> Result<TokenInfo, TradingVenueError>,
>(
    before: VenueModel,
    accounts: Seq<Option<Account>>,
    token_info: F,
    after: VenueModel,
    result: Result<(), TradingVenueError>,
)
    requires
        updated(before, accounts, token_info, after, result),
        accounts.len() == 6,
        accounts[0] matches Some(account) && pair_result(account.data@) is Ok,
        accounts[1] matches Some(account) ==> rate_model_result(account.data@) is Ok,
        accounts[2] matches Some(account) ==> futarchy_authority_result(account.data@) is Ok,
        accounts[5] matches Some(account) ==> account.data@.len() >= 40,
        accounts[3] is Some && accounts[4] is Some ==> forall|
            mint: &Pubkey,
            account: &Account,
            info: Result<TokenInfo, TradingVenueError>,
        |
            #[trigger] token_info.ensures((mint, account, u64::MAX), info) ==> info is Ok,
    ensures
        result is Ok,
{
    if accounts[5] is Some {
        lemma_clock_slot_stands(accounts[5]->0.data@);
    }
    if accounts[3] is Some && accounts[4] is Some {
        let infos = lemma_mints_of_update(before, accounts, token_info, after, result);
        let applied = apply_result(before, accounts).0;
        assert(token_info.ensures(
            (&applied.state.token0, &accounts[3]->0, u64::MAX),
            infos.0,
        ));
        assert(token_info.ensures(
            (&applied.state.token1, &accounts[4]->0, u64::MAX),
            infos.1,
        ));
    }
}

/// An update without a pair to take over fails and leaves the venue as it was: where not six
/// accounts came back, where the first is missing, and where it holds no pair.
pub proof fn lemma_update_without_pair_changes_nothing<
    F: Fn(&Pubkey, &Account, u64) -> Result<TokenInfo, TradingVenueError>,
>(
    before: VenueModel,
    accounts: Seq<Option<Account>>,
    token_info: F,
    after: VenueModel,
    result: Result<(), TradingVenueError>,
)
    requires
        updated(before, accounts, token_info, after, result),
    ensures
        accounts.len() != 6 ==> after == before && result == Err::<(), TradingVenueError>(
            TradingVenueError::FailedToFetchMultipleAccountData,
        ),
        accounts.len() == 6 && accounts[0] is None ==> after == before && result == Err::<
            (),
            TradingVenueError,
        >(TradingVenueError::MissingState(ErrorInfo::Key(before.pair_key))),
        accounts.len() == 6 && accounts[0] is Some ==> (pair_result(accounts[0]->0.data@) matches Err(
            error,
        ) ==> after == before && result == Err::<(), TradingVenueError>(error)),
{
}

/// An update that finds a pair takes it over even if it fails later on. What it takes over next is
/// the rate model, then the share of interest, then the slot; it stops at the first account that
/// does not hold what it should, fails for that reason, and leaves the rest as it was.
pub proof fn lemma_update_stops_at_the_first_fault<
    F: Fn(&Pubkey, &Account, u64) -> Result<TokenInfo, TradingVenueError>,
>(
    before: VenueModel,
    accounts: Seq<Option<Account>>,
    token_info: F,
    after: VenueModel,
    result: Result<(), TradingVenueError>,
    p: OmnipairPair,
)
    requires
        updated(before, accounts, token_info, after, result),
        accounts.len() == 6,
        accounts[0] matches Some(account) && pair_result(account.data@) == Ok::<
            OmnipairPair,
            TradingVenueError,
        >(p),
    ensures
        after.state == p,
        after.derived == derived_accounts(before.pair_key, p),
        after.pair_key == before.pair_key,
        after.required == before.required,
        result is Err ==> after.initialized == before.initialized,
        result is Err ==> after.token_info == before.token_info,
        accounts[1] matches Some(account) ==> (rate_model_result(account.data@) matches Err(error)
            ==> {
            &&& result == Err::<(), TradingVenueError>(error)
            &&& after.rate_model_data == before.rate_model_data
            &&& after.interest_bps == before.interest_bps
            &&& after.current_slot == before.current_slot
        }),
        (accounts[1] matches Some(account) ==> rate_model_result(account.data@) is Ok) ==> {
            &&& accounts[1] is None ==> after.rate_model_data is None
            &&& accounts[1] matches Some(account) ==> after.rate_model_data == Some(
                rate_model_result(account.data@)->Ok_0,
            )
            &&& accounts[2] matches Some(account) ==> (futarchy_authority_result(
                account.data@,
            ) matches Err(error) ==> {
                &&& result == Err::<(), TradingVenueError>(error)
                &&& after.interest_bps == before.interest_bps
                &&& after.current_slot == before.current_slot
            })
            &&& (accounts[2] matches Some(account) ==> futarchy_authority_result(account.data@) is Ok)
                ==> {
                &&& accounts[2] is None ==> after.interest_bps == 0
                &&& accounts[2] matches Some(account) ==> after.interest_bps
                    == futarchy_authority_result(account.data@)->Ok_0.revenue_share.interest_bps
                &&& accounts[5] matches Some(account) ==> (account.data@.len() < 40 ==> {
                    &&& result == Err::<(), TradingVenueError>(
                        TradingVenueError::DeserializationFailed(
                            ErrorInfo::Message("clock sysvar"),
                        ),
                    )
                    &&& after.current_slot == before.current_slot
                })
                &&& accounts[5] matches Some(account) ==> (account.data@.len() >= 40
                    ==> after.current_slot as nat == le_value(account.data@.subrange(0, 8)))
                &&& accounts[5] is None ==> after.current_slot == before.current_slot
            }
        },
{
    if accounts[5] is Some {
        lemma_clock_slot_stands(accounts[5]->0.data@);
    }
    if apply_result(before, accounts).1 is Ok && accounts[3] is Some && accounts[4] is Some {
        let infos = lemma_mints_of_update(before, accounts, token_info, after, result);
    }
}

/// An update whose accounts all hold what they should fails only where a mint cannot be read, with
/// what the first one says that cannot.
pub proof fn lemma_update_fails_as_the_mints_do<
    F: Fn(&Pubkey, &Account, u64) -> Result<TokenInfo, TradingVenueError>,
>(
    before: VenueModel,
    accounts: Seq<Option<Account>>,
    token_info: F,
    after: VenueModel,
    result: Result<(), TradingVenueError>,
)
    requires
        updated(before, accounts, token_info, after, result),
        accounts.len() == 6,
        accounts[0] matches Some(account) && pair_result(account.data@) is Ok,
        accounts[1] matches Some(account) ==> rate_model_result(account.data@) is Ok,
        accounts[2] matches Some(account) ==> futarchy_authority_result(account.data@) is Ok,
        accounts[5] matches Some(account) ==> account.data@.len() >= 40,
    ensures
        result matches Err(error) ==> {
            &&& accounts[3] is Some
            &&& accounts[4] is Some
            &&& token_info.ensures(
                (&after.state.token0, &accounts[3]->0, u64::MAX),
                Err(error),
            ) || ((exists|info0: TokenInfo| #[trigger]
                token_info.ensures(
                    (&after.state.token0, &accounts[3]->0, u64::MAX),
                    Ok::<TokenInfo, TradingVenueError>(info0),
                )) && token_info.ensures(
                (&after.state.token1, &accounts[4]->0, u64::MAX),
                Err(error),
            ))
        },
{
    if accounts[5] is Some {
        lemma_clock_slot_stands(accounts[5]->0.data@);
    }
    if accounts[3] is Some && accounts[4] is Some {
        let infos = lemma_mints_of_update(before, accounts, token_info, after, result);
        if let Ok(info0) = infos.0 {
            assert(token_info.ensures(
                (&after.state.token0, &accounts[3]->0, u64::MAX),
                Ok::<TokenInfo, TradingVenueError>(info0),
            ));
        }
    }
}

/// How an update ends, by how reading the mints went: with both of them known, in this order, or
/// with the first failure and nothing changed.
pub proof fn lemma_finish_takes_the_mints(
    m: VenueModel,
    info0: Result<TokenInfo, TradingVenueError>,
    info1: Result<TokenInfo, TradingVenueError>,
)
    ensures
        ({
            let (after, result) = finish_result(m, info0, info1);
            &&& info0 matches Err(error) ==> after == m && result == Err::<(), TradingVenueError>(
                error,
            )
            &&& info0 is Ok ==> (info1 matches Err(error) ==> after == m && result == Err::<
                (),
                TradingVenueError,
            >(error))
            &&& info0 matches Ok(token0) ==> (info1 matches Ok(token1) ==> {
                &&& result is Ok
                &&& after.initialized
                &&& after.token_info.len() == 2
                &&& after.token_info[0] == token0
                &&& after.token_info[1] == token1
                &&& after.pair_key == m.pair_key
                &&& after.state == m.state
                &&& after.derived == m.derived
                &&& after.rate_model_data == m.rate_model_data
                &&& after.interest_bps == m.interest_bps
                &&& after.current_slot == m.current_slot
                &&& after.required == m.required
            })
        }),
{
}

/// An update finds all addresses of the pair if and only if the addresses exist of the pair that
/// the first account holds, or it holds none.
pub proof fn lemma_update_needs_addresses(m: VenueModel, accounts: Seq<Option<Account>>)
    ensures
        update_derivable(m, accounts) <==> (accounts.len() != 6 || (match accounts[0] {
            None => true,
            Some(account) => match pair_result(account.data@) {
                Err(_) => true,
                Ok(p) => derivable(m.pair_key, p),
            },
        })),
{
}

} // verus!
