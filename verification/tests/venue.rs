//! Venues from their first account to a swap.

use omnipair::derived::DerivedAccounts;
use omnipair::error::{ErrorInfo, PoolProtocol, TradingVenueError};
use omnipair::instruction::{build_swap_data, AccountMeta};
use omnipair::model::{Account, QuoteRequest, QuoteResult, SwapType, TokenInfo};
use omnipair::pubkey::Pubkey;
use omnipair::state::{
    LastPriceEMA, OmnipairPair, OmnipairRateModel, VaultBumps, CLOCK_SYSVAR_ID, OMNIPAIR_PROGRAM_ID,
    SPL_TOKEN_PROGRAM_ID, TOKEN_2022_PROGRAM_ID,
};
use omnipair::venue::OmnipairVenue;

fn key(byte: u8) -> Pubkey {
    Pubkey::new_from_array([byte; 32])
}

fn program(bytes: [u8; 32]) -> Pubkey {
    Pubkey::new_from_array(bytes)
}

/// A pair of mints 1 and 2 with rate model 4.
fn pair_data(reserve0: u64, reserve1: u64, reduce_only: bool) -> Vec<u8> {
    let mut d: Vec<u8> = vec![0; 8];
    for b in [1u8, 2, 3, 4] {
        d.extend_from_slice(&[b; 32]);
    }
    d.extend_from_slice(&30u16.to_le_bytes());
    d.extend_from_slice(&0u64.to_le_bytes());
    d.push(0);
    for v in [reserve0, reserve1, reserve0, reserve1] {
        d.extend_from_slice(&v.to_le_bytes());
    }
    d.extend_from_slice(&[0u8; 9 * 8]);
    d.extend_from_slice(&[0u8; 32]);
    d.extend_from_slice(&[0u8; 24]);
    d.extend_from_slice(&[9, 6]);
    d.extend_from_slice(&[5u8; 32]);
    d.extend_from_slice(&[1, 250]);
    d.extend_from_slice(&[0u8; 4]);
    d.push(if reduce_only { 1 } else { 0 });
    d
}

fn owned(data: Vec<u8>) -> Account {
    Account { owner: program(OMNIPAIR_PROGRAM_ID), data }
}

fn rate_model_data() -> Vec<u8> {
    let mut d: Vec<u8> = vec![0; 8];
    for v in 1u64..8 {
        d.extend_from_slice(&v.to_le_bytes());
    }
    d
}

fn futarchy_data(interest_bps: u16) -> Vec<u8> {
    let mut d: Vec<u8> = vec![0; 8];
    d.push(1);
    d.extend_from_slice(&[8u8; 128]);
    d.extend_from_slice(&100u16.to_le_bytes());
    d.extend_from_slice(&interest_bps.to_le_bytes());
    d.extend_from_slice(&[0u8; 6]);
    d.extend_from_slice(&[0, 255]);
    d
}

fn clock_data(slot: u64) -> Vec<u8> {
    let mut d: Vec<u8> = slot.to_le_bytes().to_vec();
    d.extend_from_slice(&[0u8; 32]);
    d
}

fn mint() -> Account {
    Account { owner: program(SPL_TOKEN_PROGRAM_ID), data: vec![9] }
}

fn full_update() -> Vec<Option<Account>> {
    vec![
        Some(owned(pair_data(1_000_000_000, 1_000_000_000, false))),
        Some(owned(rate_model_data())),
        Some(owned(futarchy_data(250))),
        Some(mint()),
        Some(mint()),
        Some(owned(clock_data(777))),
    ]
}

fn token_info(mint: &Pubkey, account: &Account, epoch: u64) -> Result<TokenInfo, TradingVenueError> {
    assert_eq!(epoch, u64::MAX);
    if account.data.is_empty() {
        return Err(TradingVenueError::MissingState(ErrorInfo::Key(*mint)));
    }
    Ok(TokenInfo { pubkey: *mint, token_program: account.owner, decimals: account.data[0] as i32 })
}

fn associated(token: &TokenInfo, user: &Pubkey) -> Pubkey {
    let mut bytes = user.to_bytes();
    bytes[0] = token.pubkey.to_bytes()[0];
    Pubkey::new_from_array(bytes)
}

fn same(pair: OmnipairPair, _slot: u64, _model: &OmnipairRateModel, _bps: u16) -> OmnipairPair {
    pair
}

fn new_venue() -> OmnipairVenue {
    OmnipairVenue::from_account(&key(7), &owned(pair_data(1_000_000_000, 1_000_000_000, false))).unwrap()
}

fn updated_venue() -> OmnipairVenue {
    let mut venue = new_venue();
    venue.begin_update();
    assert_eq!(venue.update_state(&full_update(), token_info), Ok(()));
    venue
}

fn request(input: u8, output: u8, amount: u64) -> QuoteRequest {
    QuoteRequest {
        input_mint: key(input),
        output_mint: key(output),
        amount,
        swap_type: SwapType::ExactIn,
    }
}

fn address(seeds: &[&[u8]]) -> Pubkey {
    let id = solana_pubkey::Pubkey::new_from_array(OMNIPAIR_PROGRAM_ID);
    Pubkey::new_from_array(solana_pubkey::Pubkey::find_program_address(seeds, &id).0.to_bytes())
}

#[test]
fn derived_addresses_are_those_of_the_program() {
    let venue = new_venue();
    let expected = DerivedAccounts {
        reserve_vault0: address(&[b"reserve_vault", &[7; 32], &[1; 32]]),
        reserve_vault1: address(&[b"reserve_vault", &[7; 32], &[2; 32]]),
        futarchy_authority: address(&[b"futarchy_authority"]),
        event_authority: address(&[b"__event_authority"]),
    };
    assert_eq!(venue.derived, expected);
    assert!(DerivedAccounts::exist(&key(7), &venue.state));
    assert_eq!(DerivedAccounts::compute(&key(7), &venue.state), expected);
    assert_eq!(DerivedAccounts::try_compute(&key(7), &venue.state), Some(expected));
    assert_ne!(DerivedAccounts::compute(&key(8), &venue.state), expected);
}

#[test]
fn venue_is_made_of_a_pair_account() {
    let venue = new_venue();
    assert_eq!(venue.market_id(), key(7));
    assert_eq!(venue.state.token0, key(1));
    assert_eq!(venue.state.token1, key(2));
    assert_eq!(venue.state.rate_model, key(4));
    assert_eq!(venue.state.swap_fee_bps, 30);
    assert_eq!(venue.state.last_price0_ema, LastPriceEMA::default());
    assert_eq!(venue.state.vault_bumps, VaultBumps::default());
    assert_eq!(venue.state.token1_decimals, 6);
    assert_eq!(venue.rate_model_data, None);
    assert_eq!(venue.interest_bps, 0);
    assert_eq!(venue.current_slot, 0);
    assert!(!venue.initialized());
    assert!(venue.get_token_info().is_empty());
    assert_eq!(venue.program_id(), program(OMNIPAIR_PROGRAM_ID));
    assert_eq!(venue.protocol(), PoolProtocol::Omnipair);
    assert_eq!(venue.tradable_mints(), Ok(vec![key(1), key(2)]));
    assert_eq!(
        venue.program_dependencies(),
        vec![
            program(OMNIPAIR_PROGRAM_ID),
            program(SPL_TOKEN_PROGRAM_ID),
            program(TOKEN_2022_PROGRAM_ID),
        ],
    );
}

#[test]
fn other_accounts_make_no_venue() {
    let mut account = owned(pair_data(1, 1, false));
    account.owner = key(9);
    assert_eq!(
        OmnipairVenue::from_account(&key(7), &account).err(),
        Some(TradingVenueError::FromAccountError(ErrorInfo::Message(
            "account owner is not Omnipair program"
        ))),
    );
    let short = owned(vec![0; 7]);
    assert_eq!(
        OmnipairVenue::from_account(&key(7), &short).err(),
        Some(TradingVenueError::DeserializationFailed(ErrorInfo::Message(
            "omnipair pair data too short"
        ))),
    );
    assert!(OmnipairVenue::try_from_account(&key(7), &short).unwrap().is_err());
    assert!(OmnipairVenue::try_from_account(&key(7), &owned(pair_data(1, 1, false))).unwrap().is_ok());
}

#[test]
fn new_venue_is_not_initialized() {
    let venue = new_venue();
    assert_eq!(
        venue.get_required_pubkeys_for_update(),
        Err(TradingVenueError::NotInitialized(ErrorInfo::Message("State needs to be fully updated"))),
    );
    assert_eq!(venue.decimals(), Err(TradingVenueError::MissingState(ErrorInfo::Key(key(1)))));
    assert_eq!(
        venue.generate_swap_instruction(request(1, 2, 5), key(9), associated),
        Err(TradingVenueError::NotInitialized(ErrorInfo::Message("token0 mint info"))),
    );
}

#[test]
fn update_takes_the_accounts_over() {
    let mut venue = new_venue();
    let keys = venue.begin_update();
    assert_eq!(
        keys,
        vec![
            key(7),
            key(4),
            venue.derived.futarchy_authority,
            key(1),
            key(2),
            program(CLOCK_SYSVAR_ID),
        ],
    );
    let mut accounts = full_update();
    accounts[0] = Some(owned(pair_data(5, 6, true)));
    assert_eq!(venue.update_state(&accounts, token_info), Ok(()));
    assert!(venue.initialized());
    assert_eq!(venue.state.reserve0, 5);
    assert_eq!(venue.state.reserve1, 6);
    assert!(venue.state.reduce_only);
    assert_eq!(venue.rate_model_data.unwrap().exp_rate, 1);
    assert_eq!(venue.rate_model_data.unwrap().initial_rate, 7);
    assert_eq!(venue.interest_bps, 250);
    assert_eq!(venue.current_slot, 777);
    assert_eq!(venue.decimals(), Ok(vec![9, 9]));
    assert_eq!(venue.get_token_info()[1].pubkey, key(2));
    let mut required = venue.get_required_pubkeys_for_update().unwrap();
    let mut expected = keys;
    required.sort_by_key(|k| k.to_bytes());
    expected.sort_by_key(|k| k.to_bytes());
    assert_eq!(required, expected);
}

#[test]
fn required_accounts_only_grow() {
    let mut venue = updated_venue();
    let mut accounts = full_update();
    let mut data = pair_data(1, 1, false);
    data[8 + 96] = 44;
    accounts[0] = Some(owned(data));
    assert_eq!(venue.update_state(&accounts, token_info), Ok(()));
    assert_eq!(venue.get_required_pubkeys_for_update().unwrap().len(), 6);
    let keys = venue.begin_update();
    assert_eq!(keys[1], venue.state.rate_model);
    let required = venue.get_required_pubkeys_for_update().unwrap();
    assert_eq!(required.len(), 7);
    assert!(required.contains(&key(4)));
    assert!(required.contains(&keys[1]));
}

#[test]
fn update_without_optional_accounts() {
    let mut venue = updated_venue();
    let pair = Some(owned(pair_data(3, 4, false)));
    assert_eq!(venue.update_state(&vec![pair, None, None, None, Some(mint()), None], token_info), Ok(()));
    assert_eq!(venue.rate_model_data, None);
    assert_eq!(venue.interest_bps, 0);
    assert_eq!(venue.current_slot, 777);
    assert_eq!(venue.get_token_info().len(), 2);
    let mut fresh = new_venue();
    let pair = Some(owned(pair_data(3, 4, false)));
    assert_eq!(fresh.update_state(&vec![pair, None, None, None, None, None], token_info), Ok(()));
    assert!(fresh.initialized());
    assert!(fresh.get_token_info().is_empty());
}

#[test]
fn update_needs_six_accounts_and_the_pair() {
    let mut venue = new_venue();
    let mut accounts = full_update();
    accounts.pop();
    assert_eq!(
        venue.update_state(&accounts, token_info),
        Err(TradingVenueError::FailedToFetchMultipleAccountData),
    );
    let mut accounts = full_update();
    accounts[0] = None;
    assert_eq!(
        venue.update_state(&accounts, token_info),
        Err(TradingVenueError::MissingState(ErrorInfo::Key(key(7)))),
    );
    assert!(!venue.initialized());
}

#[test]
fn update_keeps_what_came_before_an_error() {
    let changed = Some(owned(pair_data(5, 6, false)));

    let mut venue = new_venue();
    let mut accounts = full_update();
    accounts[0] = changed.clone();
    accounts[1] = Some(owned(vec![0; 20]));
    assert_eq!(
        venue.update_state(&accounts, token_info),
        Err(TradingVenueError::DeserializationFailed(ErrorInfo::Message(
            "omnipair rate model anchor decode"
        ))),
    );
    assert_eq!(venue.state.reserve0, 5);
    assert_eq!(venue.rate_model_data, None);

    let mut venue = new_venue();
    let mut accounts = full_update();
    accounts[2] = Some(owned(vec![0; 20]));
    assert_eq!(
        venue.update_state(&accounts, token_info),
        Err(TradingVenueError::DeserializationFailed(ErrorInfo::Message(
            "omnipair futarchy anchor decode"
        ))),
    );
    assert!(venue.rate_model_data.is_some());
    assert_eq!(venue.interest_bps, 0);

    let mut venue = new_venue();
    let mut accounts = full_update();
    accounts[5] = Some(owned(vec![0; 39]));
    assert_eq!(
        venue.update_state(&accounts, token_info),
        Err(TradingVenueError::DeserializationFailed(ErrorInfo::Message("clock sysvar"))),
    );
    assert_eq!(venue.interest_bps, 250);
    assert_eq!(venue.current_slot, 0);

    let mut venue = new_venue();
    let mut accounts = full_update();
    accounts[4] = Some(Account { owner: key(0), data: vec![] });
    assert_eq!(
        venue.try_update_state(&accounts, token_info),
        Some(Err(TradingVenueError::MissingState(ErrorInfo::Key(key(2))))),
    );
    assert_eq!(venue.current_slot, 777);
    assert!(!venue.initialized());
    assert!(venue.get_token_info().is_empty());
    assert_eq!(venue.try_update_state(&full_update(), token_info), Some(Ok(())));
}

#[test]
fn quote_of_the_pair_as_it_stands() {
    let venue = new_venue();
    assert_eq!(
        venue.quote(request(1, 2, 1_000_000), same),
        Ok(QuoteResult {
            input_mint: key(1),
            output_mint: key(2),
            amount: 1_000_000,
            expected_output: 996_006,
            not_enough_liquidity: false,
        }),
    );
}

#[test]
fn promise_is_covered_by_reserve_and_cash() {
    let venue = updated_venue();
    let answer = venue.quote(request(1, 2, u64::MAX), same).unwrap();
    assert!(answer.expected_output < venue.state.reserve1);
    assert!(answer.expected_output <= venue.state.cash_reserve1);
    let mut short = venue.state;
    short.cash_reserve1 = answer.expected_output - 1;
    assert!(venue.quote_projected(request(1, 2, u64::MAX), &short).is_err());
    short.cash_reserve1 = answer.expected_output;
    assert_eq!(venue.quote_projected(request(1, 2, u64::MAX), &short).unwrap(), answer);
}

#[test]
fn quote_of_the_projected_pair() {
    let venue = updated_venue();
    let halve = |pair: OmnipairPair, slot: u64, model: &OmnipairRateModel, bps: u16| {
        assert_eq!(slot, 777);
        assert_eq!(model.exp_rate, 1);
        assert_eq!(bps, 250);
        OmnipairPair { reserve1: pair.reserve1 / 2, ..pair }
    };
    assert_eq!(venue.quote(request(1, 2, 1_000_000), halve).unwrap().expected_output, 498_003);
    assert_eq!(venue.quote(request(1, 2, 1_000_000), same).unwrap().expected_output, 996_006);
    let projected = OmnipairPair { reserve1: 500_000_000, ..venue.state };
    assert_eq!(
        venue.quote_projected(request(1, 2, 1_000_000), &projected).unwrap().expected_output,
        498_003,
    );
}

#[test]
fn requests_that_are_not_served() {
    let venue = updated_venue();
    let mut exact_out = request(1, 2, 5);
    exact_out.swap_type = SwapType::ExactOut;
    assert_eq!(venue.quote(exact_out, same), Err(TradingVenueError::ExactOutNotSupported));
    assert_eq!(
        venue.generate_swap_instruction(exact_out, key(9), associated),
        Err(TradingVenueError::ExactOutNotSupported),
    );
    assert_eq!(
        venue.quote(request(5, 2, 5), same),
        Err(TradingVenueError::InvalidMint(ErrorInfo::Key(key(5)))),
    );
    let mut closed = venue.clone();
    closed.state.reduce_only = true;
    assert_eq!(
        closed.quote(request(1, 2, 5), same),
        Err(TradingVenueError::InactivePoolError(key(7), PoolProtocol::Omnipair)),
    );
}

#[test]
fn nothing_is_quoted_for_nothing() {
    let mut venue = new_venue();
    venue.state.reduce_only = true;
    assert_eq!(
        venue.quote(request(5, 6, 0), same),
        Ok(QuoteResult {
            input_mint: key(5),
            output_mint: key(6),
            amount: 0,
            expected_output: 0,
            not_enough_liquidity: false,
        }),
    );
}

#[test]
fn swap_instruction_of_both_directions() {
    let venue = updated_venue();
    let user = key(9);
    let mut user0 = [9u8; 32];
    user0[0] = 1;
    let mut user1 = [9u8; 32];
    user1[0] = 2;
    let (user0, user1) = (Pubkey::new_from_array(user0), Pubkey::new_from_array(user1));
    let d = venue.derived;
    let forth = venue.generate_swap_instruction(request(1, 2, 0x0102), user, associated).unwrap();
    assert_eq!(forth.program_id, program(OMNIPAIR_PROGRAM_ID));
    assert_eq!(
        forth.data,
        vec![
            0xf8, 0xc6, 0x9e, 0x91, 0xe1, 0x75, 0x87, 0xc8, 2, 1, 0, 0, 0, 0, 0, 0, 0, 0, 0, 0, 0, 0, 0,
            0,
        ],
    );
    assert_eq!(
        forth.accounts,
        vec![
            AccountMeta::new(key(7), false),
            AccountMeta::new(key(4), false),
            AccountMeta::new_readonly(d.futarchy_authority, false),
            AccountMeta::new(d.reserve_vault0, false),
            AccountMeta::new(d.reserve_vault1, false),
            AccountMeta::new(user0, false),
            AccountMeta::new(user1, false),
            AccountMeta::new_readonly(key(1), false),
            AccountMeta::new_readonly(key(2), false),
            AccountMeta::new(user, true),
            AccountMeta::new_readonly(program(SPL_TOKEN_PROGRAM_ID), false),
            AccountMeta::new_readonly(program(TOKEN_2022_PROGRAM_ID), false),
            AccountMeta::new_readonly(d.event_authority, false),
            AccountMeta::new_readonly(program(OMNIPAIR_PROGRAM_ID), false),
        ],
    );
    let back = venue.generate_swap_instruction(request(2, 1, 0x0102), user, associated).unwrap();
    let mut exchanged = forth.accounts.clone();
    exchanged.swap(3, 4);
    exchanged.swap(5, 6);
    exchanged.swap(7, 8);
    assert_eq!(back.accounts, exchanged);
    assert_eq!(back.data, forth.data);
    assert_eq!(venue.swap_instruction(request(2, 1, 0x0102), user, user0, user1), Ok(back));
}

#[test]
fn swap_instruction_checks_the_mints() {
    let venue = updated_venue();
    assert_eq!(
        venue.generate_swap_instruction(request(5, 2, 1), key(9), associated),
        Err(TradingVenueError::InvalidMint(ErrorInfo::Key(key(5)))),
    );
    assert_eq!(
        venue.generate_swap_instruction(request(1, 1, 1), key(9), associated),
        Err(TradingVenueError::InvalidMint(ErrorInfo::Key(key(1)))),
    );
    assert_eq!(
        venue.generate_swap_instruction(request(2, 6, 1), key(9), associated),
        Err(TradingVenueError::InvalidMint(ErrorInfo::Key(key(6)))),
    );
}

#[test]
fn swap_data_carries_the_amount() {
    for amount in [0u64, 1, 255, 256, 0x0102_0304_0506_0708, u64::MAX] {
        let data = build_swap_data(amount);
        assert_eq!(data.len(), 24);
        assert_eq!(&data[8..16], &amount.to_le_bytes());
        assert_eq!(&data[16..24], &[0u8; 8]);
    }
}

#[test]
fn instruction_matches_the_accounts_of_solana() {
    let key = solana_pubkey::Pubkey::new_unique();
    for signer in [false, true] {
        let writable = solana_instruction::AccountMeta::new(key, signer);
        let ours = AccountMeta::new(Pubkey::new_from_array(key.to_bytes()), signer);
        assert_eq!((writable.is_signer, writable.is_writable), (ours.is_signer, ours.is_writable));
        let readonly = solana_instruction::AccountMeta::new_readonly(key, signer);
        let ours = AccountMeta::new_readonly(Pubkey::new_from_array(key.to_bytes()), signer);
        assert_eq!((readonly.is_signer, readonly.is_writable), (ours.is_signer, ours.is_writable));
    }
}

#[test]
fn lookup_table_keys_of_a_pair() {
    let venue = new_venue();
    let mints = vec![
        Some(Account { owner: key(11), data: vec![] }),
        Some(Account { owner: key(12), data: vec![] }),
    ];
    let d = venue.derived;
    assert_eq!(
        venue.get_lookup_table_keys(Some(&mints)),
        Ok(vec![
            key(1),
            key(2),
            key(11),
            key(12),
            key(7),
            d.reserve_vault0,
            d.reserve_vault1,
            key(4),
            d.futarchy_authority,
            d.event_authority,
            program(SPL_TOKEN_PROGRAM_ID),
            program(TOKEN_2022_PROGRAM_ID),
            program(OMNIPAIR_PROGRAM_ID),
        ]),
    );
    assert_eq!(
        venue.get_lookup_table_keys(None),
        Err(TradingVenueError::SomethingWentWrong(ErrorInfo::Message("RPC cache required"))),
    );
    assert_eq!(
        venue.get_lookup_table_keys(Some(&vec![None])),
        Err(TradingVenueError::MissingState(ErrorInfo::Message("token0 mint"))),
    );
    assert_eq!(
        venue.get_lookup_table_keys(Some(&vec![Some(mint()), None])),
        Err(TradingVenueError::MissingState(ErrorInfo::Message("token1 mint"))),
    );
}

#[test]
fn clone_of_a_venue_is_the_same_venue() {
    let venue = updated_venue();
    let mut copy = venue.clone();
    assert_eq!(copy.market_id(), venue.market_id());
    assert_eq!(copy.state, venue.state);
    assert_eq!(copy.initialized(), venue.initialized());
    assert_eq!(copy.get_token_info(), venue.get_token_info());
    let mut a = copy.get_required_pubkeys_for_update().unwrap();
    let mut b = venue.get_required_pubkeys_for_update().unwrap();
    a.sort_by_key(|k| k.to_bytes());
    b.sort_by_key(|k| k.to_bytes());
    assert_eq!(a, b);
    copy.state.reserve0 = 1;
    assert_ne!(copy.state, venue.state);
}
