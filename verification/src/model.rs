//! What a venue is asked and what it answers, by what it holds.

use vstd::prelude::*;

use crate::clock::clock_slot_result;
use crate::derived::{derivable, derived_accounts, DerivedAccounts};
use crate::encoding::{futarchy_authority_result, pair_result, rate_model_result};
use crate::error::{ErrorInfo, PoolProtocol, TradingVenueError};
use crate::instruction::{readonly, swap_data, writable, AccountMeta, Instruction};
use crate::pubkey::Pubkey;
use crate::state::{
    OmnipairPair, OmnipairRateModel, CLOCK_SYSVAR_ID, OMNIPAIR_PROGRAM_ID, SPL_TOKEN_PROGRAM_ID,
    TOKEN_2022_PROGRAM_ID,
};

verus! {

/// An account as it was fetched: who owns it and what it holds.
#[derive(Debug, PartialEq, Eq)]
pub struct Account {
    pub owner: Pubkey,
    pub data: Vec<u8>,
}

impl Clone for Account {
    fn clone(&self) -> (account: Self)
        ensures
            account.owner == self.owner,
            account.data@ == self.data@,
    {
        Account { owner: self.owner, data: self.data.clone() }
    }
}

/// What is known of a mint: its address, the token program that owns it, its decimals.
#[derive(Debug, Clone, Copy, PartialEq, Eq)]
pub struct TokenInfo {
    pub pubkey: Pubkey,
    pub token_program: Pubkey,
    pub decimals: i32,
}

#[derive(Debug, Clone, Copy, PartialEq, Eq, Structural)]
pub enum SwapType {
    ExactIn,
    ExactOut,
}

#[derive(Debug, Clone, Copy, PartialEq, Eq)]
pub struct QuoteRequest {
    pub input_mint: Pubkey,
    pub output_mint: Pubkey,
    pub amount: u64,
    pub swap_type: SwapType,
}

#[derive(Debug, Clone, Copy, PartialEq, Eq)]
pub struct QuoteResult {
    pub input_mint: Pubkey,
    pub output_mint: Pubkey,
    pub amount: u64,
    pub expected_output: u64,
    pub not_enough_liquidity: bool,
}

/// What a venue holds.
pub struct VenueModel {
    pub pair_key: Pubkey,
    pub state: OmnipairPair,
    pub derived: DerivedAccounts,
    pub rate_model_data: Option<OmnipairRateModel>,
    pub interest_bps: u16,
    pub current_slot: u64,
    /// The bytes of the addresses that an update needs.
    pub required: Set<[u8; 32]>,
    /// Whether an update has gone through.
    pub initialized: bool,
    /// The mints of the pair, once they are known.
    pub token_info: Seq<TokenInfo>,
}

pub open spec fn clock_key() -> Pubkey {
    Pubkey { bytes: CLOCK_SYSVAR_ID }
}

/// The accounts that an update reads, in the order in which it reads them.
pub open spec fn update_keys(
    pair_key: Pubkey,
    state: OmnipairPair,
    derived: DerivedAccounts,
) -> Seq<Pubkey> {
    seq![
        pair_key,
        state.rate_model,
        derived.futarchy_authority,
        state.token0,
        state.token1,
        clock_key(),
    ]
}

pub open spec fn key_bytes(keys: Seq<Pubkey>) -> Seq<[u8; 32]> {
    keys.map_values(|key: Pubkey| key.bytes)
}

/// Why `account` is no pair, if it is none.
pub open spec fn from_account_result(account: Account) -> Result<OmnipairPair, TradingVenueError> {
    if account.owner.bytes != OMNIPAIR_PROGRAM_ID {
        Err(
            TradingVenueError::FromAccountError(
                ErrorInfo::Message("account owner is not Omnipair program"),
            ),
        )
    } else {
        pair_result(account.data@)
    }
}

/// A venue of the pair at `pair_key` before its first update.
pub open spec fn new_venue(pair_key: Pubkey, state: OmnipairPair) -> VenueModel {
    let derived = derived_accounts(pair_key, state);
    VenueModel {
        pair_key,
        state,
        derived,
        rate_model_data: None,
        interest_bps: 0,
        current_slot: 0,
        required: key_bytes(update_keys(pair_key, state, derived)).to_set(),
        initialized: false,
        token_info: Seq::empty(),
    }
}

pub open spec fn omnipair_program() -> Pubkey {
    Pubkey { bytes: OMNIPAIR_PROGRAM_ID }
}

pub open spec fn spl_token_program() -> Pubkey {
    Pubkey { bytes: SPL_TOKEN_PROGRAM_ID }
}

pub open spec fn token_2022_program() -> Pubkey {
    Pubkey { bytes: TOKEN_2022_PROGRAM_ID }
}

/// Whether all addresses exist of the pair that the fetched accounts hold, if they hold one.
pub open spec fn update_derivable(m: VenueModel, accounts: Seq<Option<Account>>) -> bool {
    accounts.len() == 6 && accounts[0] is Some ==> (pair_result(accounts[0]->0.data@) matches Ok(
        state,
    ) ==> derivable(m.pair_key, state))
}

/// What a venue that holds `m` holds after `accounts` have been applied to it, and how that went.
/// The accounts are applied in order, up to the first one that is not what it should be.
pub open spec fn apply_result(m: VenueModel, accounts: Seq<Option<Account>>) -> (
    VenueModel,
    Result<(), TradingVenueError>,
) {
    if accounts.len() != 6 {
        (m, Err(TradingVenueError::FailedToFetchMultipleAccountData))
    } else {
        match accounts[0] {
            None => (m, Err(TradingVenueError::MissingState(ErrorInfo::Key(m.pair_key)))),
            Some(account) => match pair_result(account.data@) {
                Err(error) => (m, Err(error)),
                Ok(state) => apply_rate_model(
                    VenueModel { state, derived: derived_accounts(m.pair_key, state), ..m },
                    accounts,
                ),
            },
        }
    }
}

/// `apply_result` from the rate model on.
pub open spec fn apply_rate_model(m: VenueModel, accounts: Seq<Option<Account>>) -> (
    VenueModel,
    Result<(), TradingVenueError>,
) {
    match accounts[1] {
        None => apply_futarchy_authority(VenueModel { rate_model_data: None, ..m }, accounts),
        Some(account) => match rate_model_result(account.data@) {
            Err(error) => (m, Err(error)),
            Ok(rate_model) => apply_futarchy_authority(
                VenueModel { rate_model_data: Some(rate_model), ..m },
                accounts,
            ),
        },
    }
}

/// `apply_result` from the futarchy authority on.
pub open spec fn apply_futarchy_authority(m: VenueModel, accounts: Seq<Option<Account>>) -> (
    VenueModel,
    Result<(), TradingVenueError>,
) {
    match accounts[2] {
        None => apply_clock(VenueModel { interest_bps: 0, ..m }, accounts),
        Some(account) => match futarchy_authority_result(account.data@) {
            Err(error) => (m, Err(error)),
            Ok(authority) => apply_clock(
                VenueModel { interest_bps: authority.revenue_share.interest_bps, ..m },
                accounts,
            ),
        },
    }
}

/// `apply_result` from the clock on.
pub open spec fn apply_clock(m: VenueModel, accounts: Seq<Option<Account>>) -> (
    VenueModel,
    Result<(), TradingVenueError>,
) {
    match accounts[5] {
        None => (m, Ok(())),
        Some(account) => match clock_slot_result(account.data@) {
            Err(error) => (m, Err(error)),
            Ok(slot) => (VenueModel { current_slot: slot, ..m }, Ok(())),
        },
    }
}

/// How an update ends whose mints read as `info0` and `info1`.
pub open spec fn finish_result(
    m: VenueModel,
    info0: Result<TokenInfo, TradingVenueError>,
    info1: Result<TokenInfo, TradingVenueError>,
) -> (VenueModel, Result<(), TradingVenueError>) {
    match (info0, info1) {
        (Err(error), _) => (m, Err(error)),
        (Ok(_), Err(error)) => (m, Err(error)),
        (Ok(token0), Ok(token1)) => (
            VenueModel { token_info: seq![token0, token1], initialized: true, ..m },
            Ok(()),
        ),
    }
}

/// Whether the mints of `state` can read as `info0` and `info1` where `token_info` reads them. The
/// second is not read where the first failed.
pub open spec fn mints_read<F: Fn(&Pubkey, &Account, u64) -> Result<TokenInfo, TradingVenueError>>(
    token_info: F,
    state: OmnipairPair,
    mint0: Account,
    mint1: Account,
    info0: Result<TokenInfo, TradingVenueError>,
    info1: Result<TokenInfo, TradingVenueError>,
) -> bool {
    &&& token_info.ensures((&state.token0, &mint0, u64::MAX), info0)
    &&& info0 is Ok ==> token_info.ensures((&state.token1, &mint1, u64::MAX), info1)
}

/// Whether an update with `accounts` can lead from `before` to `after` with `result`, where
/// `token_info` reads the mints.
pub open spec fn updated<F: Fn(&Pubkey, &Account, u64) -> Result<TokenInfo, TradingVenueError>>(
    before: VenueModel,
    accounts: Seq<Option<Account>>,
    token_info: F,
    after: VenueModel,
    result: Result<(), TradingVenueError>,
) -> bool {
    let (applied, outcome) = apply_result(before, accounts);
    match outcome {
        Err(error) => result == outcome && after == applied,
        Ok(_) => match (accounts[3], accounts[4]) {
            (Some(mint0), Some(mint1)) => exists|
                info0: Result<TokenInfo, TradingVenueError>,
                info1: Result<TokenInfo, TradingVenueError>,
            |
                {
                    &&& #[trigger] mints_read(
                        token_info,
                        applied.state,
                        mint0,
                        mint1,
                        info0,
                        info1,
                    )
                    &&& (after, result) == finish_result(applied, info0, info1)
                },
            _ => result == outcome && after == (VenueModel { initialized: true, ..applied }),
        },
    }
}

/// The answer to `request` where it does not depend on the pair's reserves: a fixed output is not
/// served, nothing is paid for nothing, and a pair that only winds down takes no swaps.
pub open spec fn early_quote(m: VenueModel, request: QuoteRequest) -> Option<
    Result<QuoteResult, TradingVenueError>,
> {
    if request.swap_type == SwapType::ExactOut {
        Some(Err(TradingVenueError::ExactOutNotSupported))
    } else if request.amount == 0 {
        Some(Ok(quoted(request, 0)))
    } else if m.state.reduce_only {
        Some(Err(TradingVenueError::InactivePoolError(m.pair_key, PoolProtocol::Omnipair)))
    } else {
        None
    }
}

/// The answer to `request` that promises `expected_output`.
pub open spec fn quoted(request: QuoteRequest, expected_output: u64) -> QuoteResult {
    QuoteResult {
        input_mint: request.input_mint,
        output_mint: request.output_mint,
        amount: request.amount,
        expected_output,
        not_enough_liquidity: false,
    }
}

/// The answer to `request` by the reserves of `projected`.
pub open spec fn quote_answer(
    m: VenueModel,
    request: QuoteRequest,
    projected: OmnipairPair,
) -> Result<QuoteResult, TradingVenueError> {
    match early_quote(m, request) {
        Some(answer) => answer,
        None => match projected.quote_result(request.amount, request.input_mint) {
            Ok(quote) => Ok(quoted(request, quote.amount_out)),
            Err(error) => Err(error),
        },
    }
}

/// Whether `projected` can be what the pair of `m` is projected to: what `simulate_update` makes of
/// it where the rate model is known, else the pair as it stands.
pub open spec fn is_projection<F: Fn(OmnipairPair, u64, &OmnipairRateModel, u16) -> OmnipairPair>(
    m: VenueModel,
    simulate_update: F,
    projected: OmnipairPair,
) -> bool {
    match m.rate_model_data {
        Some(rate_model) => simulate_update.ensures(
            (m.state, m.current_slot, &rate_model, m.interest_bps),
            projected,
        ),
        None => projected == m.state,
    }
}

/// Why a swap cannot be put into an instruction, if it cannot.
pub open spec fn swap_refusal(m: VenueModel, request: QuoteRequest) -> Option<TradingVenueError> {
    let token0_in = request.input_mint == m.state.token0;
    if request.swap_type == SwapType::ExactOut {
        Some(TradingVenueError::ExactOutNotSupported)
    } else if m.token_info.len() == 0 {
        Some(TradingVenueError::NotInitialized(ErrorInfo::Message("token0 mint info")))
    } else if m.token_info.len() == 1 {
        Some(TradingVenueError::NotInitialized(ErrorInfo::Message("token1 mint info")))
    } else if !token0_in && request.input_mint != m.state.token1 {
        Some(TradingVenueError::InvalidMint(ErrorInfo::Key(request.input_mint)))
    } else if request.output_mint != (if token0_in { m.state.token1 } else { m.state.token0 }) {
        Some(TradingVenueError::InvalidMint(ErrorInfo::Key(request.output_mint)))
    } else {
        None
    }
}

/// The accounts of a swap of token 0 for token 1, or the other way round.
pub open spec fn swap_accounts(
    m: VenueModel,
    token0_in: bool,
    user: Pubkey,
    user_token0: Pubkey,
    user_token1: Pubkey,
) -> Seq<AccountMeta> {
    let d = m.derived;
    seq![
        writable(m.pair_key, false),
        writable(m.state.rate_model, false),
        readonly(d.futarchy_authority, false),
        writable(if token0_in { d.reserve_vault0 } else { d.reserve_vault1 }, false),
        writable(if token0_in { d.reserve_vault1 } else { d.reserve_vault0 }, false),
        writable(if token0_in { user_token0 } else { user_token1 }, false),
        writable(if token0_in { user_token1 } else { user_token0 }, false),
        readonly(if token0_in { m.state.token0 } else { m.state.token1 }, false),
        readonly(if token0_in { m.state.token1 } else { m.state.token0 }, false),
        writable(user, true),
        readonly(spl_token_program(), false),
        readonly(token_2022_program(), false),
        readonly(d.event_authority, false),
        readonly(omnipair_program(), false),
    ]
}

/// Whether `instruction` makes the swap of `request` for `user`.
pub open spec fn is_swap(
    instruction: Instruction,
    m: VenueModel,
    request: QuoteRequest,
    user: Pubkey,
    user_token0: Pubkey,
    user_token1: Pubkey,
) -> bool {
    &&& instruction.program_id == omnipair_program()
    &&& instruction.data@ == swap_data(request.amount)
    &&& instruction.accounts@ == swap_accounts(
        m,
        request.input_mint == m.state.token0,
        user,
        user_token0,
        user_token1,
    )
}

/// Why there is nothing to put into an address lookup table, if there is not: there is nothing to
/// fetch the accounts of the mints from, or one of them was not found.
pub open spec fn lookup_refusal(token_mint_accounts: Option<&Vec<Option<Account>>>) -> Option<
    TradingVenueError,
> {
    match token_mint_accounts {
        None => Some(
            TradingVenueError::SomethingWentWrong(ErrorInfo::Message("RPC cache required")),
        ),
        Some(mints) => if mints@[0] is None {
            Some(TradingVenueError::MissingState(ErrorInfo::Message("token0 mint")))
        } else if mints@[1] is None {
            Some(TradingVenueError::MissingState(ErrorInfo::Message("token1 mint")))
        } else {
            None
        },
    }
}

/// The accounts to put into an address lookup table, where `owner0` and `owner1` own the mints.
pub open spec fn lookup_table_keys(m: VenueModel, owner0: Pubkey, owner1: Pubkey) -> Seq<Pubkey> {
    seq![
        m.state.token0,
        m.state.token1,
        owner0,
        owner1,
        m.pair_key,
        m.derived.reserve_vault0,
        m.derived.reserve_vault1,
        m.state.rate_model,
        m.derived.futarchy_authority,
        m.derived.event_authority,
        spl_token_program(),
        token_2022_program(),
        omnipair_program(),
    ]
}

} // verus!
