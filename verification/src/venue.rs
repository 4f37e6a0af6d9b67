//! An Omnipair pair as a trading venue (spot swap).

use vstd::prelude::*;

use crate::accounts::{deserialize_futarchy_authority, deserialize_pair, deserialize_rate_model};
use crate::clock::clock_slot;
use crate::derived::{derivable, DerivedAccounts};
use crate::encoding::holds_pair;
use crate::error::{ErrorInfo, PoolProtocol, TradingVenueError};
use crate::instruction::{build_swap_data, AccountMeta, Instruction};
use crate::key_set::{key_set_extend, key_set_from, key_set_to_vec};
use crate::layout::le_value;
use crate::model::{
    apply_result, early_quote, finish_result, from_account_result, is_projection, is_swap,
    key_bytes, lookup_refusal, lookup_table_keys, mints_read, new_venue, omnipair_program,
    quote_answer, spl_token_program, swap_accounts, swap_refusal, token_2022_program,
    update_derivable, update_keys, updated, Account, QuoteRequest, QuoteResult, SwapType,
    TokenInfo, VenueModel,
};
use crate::pubkey::Pubkey;
use crate::state::{
    OmnipairPair, OmnipairRateModel, CLOCK_SYSVAR_ID, OMNIPAIR_PROGRAM_ID, SPL_TOKEN_PROGRAM_ID,
    TOKEN_2022_PROGRAM_ID,
};
use crate::venue_laws::lemma_swap_data_carries_amount;

verus! {

/// Omnipair pool venue — `market_id` is the pair account address.
pub struct OmnipairVenue {
    pub pair_key: Pubkey,
    pub state: OmnipairPair,
    pub derived: DerivedAccounts,
    pub rate_model_data: Option<OmnipairRateModel>,
    pub interest_bps: u16,
    pub current_slot: u64,
    required_state_pubkeys: ahash::HashSet<[u8; 32]>,
    found_all_pubkeys: bool,
    token_info: Vec<TokenInfo>,
}

impl View for OmnipairVenue {
    type V = VenueModel;

    closed spec fn view(&self) -> VenueModel {
        VenueModel {
            pair_key: self.pair_key,
            state: self.state,
            derived: self.derived,
            rate_model_data: self.rate_model_data,
            interest_bps: self.interest_bps,
            current_slot: self.current_slot,
            required: self.required_state_pubkeys@,
            initialized: self.found_all_pubkeys,
            token_info: self.token_info@,
        }
    }
}

/// What stands in the fields of a venue is what it holds.
proof fn lemma_fields_are_what_is_held(venue: OmnipairVenue)
    ensures
        venue.pair_key == venue@.pair_key,
        venue.state == venue@.state,
        venue.derived == venue@.derived,
        venue.rate_model_data == venue@.rate_model_data,
        venue.interest_bps == venue@.interest_bps,
        venue.current_slot == venue@.current_slot,
        venue.required_state_pubkeys@ == venue@.required,
        venue.found_all_pubkeys == venue@.initialized,
        venue.token_info@ == venue@.token_info,
{
}

impl Clone for OmnipairVenue {
    fn clone(&self) -> (venue: Self)
        ensures
            venue@ == self@,
    {
        let venue = OmnipairVenue {
            pair_key: self.pair_key,
            state: self.state,
            derived: self.derived,
            rate_model_data: self.rate_model_data,
            interest_bps: self.interest_bps,
            current_slot: self.current_slot,
            required_state_pubkeys: key_set_from(key_set_to_vec(&self.required_state_pubkeys)),
            found_all_pubkeys: self.found_all_pubkeys,
            token_info: self.token_info.clone(),
        };
        assert(venue@.token_info =~= self@.token_info);
        venue
    }
}

/// The bytes of the addresses that an update reads.
fn update_key_bytes(
    pair_key: &Pubkey,
    state: &OmnipairPair,
    derived: &DerivedAccounts,
) -> (keys: Vec<[u8; 32]>)
    ensures
        keys@ == key_bytes(update_keys(*pair_key, *state, *derived)),
{
    let keys: Vec<[u8; 32]> = vec![
        pair_key.bytes,
        state.rate_model.bytes,
        derived.futarchy_authority.bytes,
        state.token0.bytes,
        state.token1.bytes,
        CLOCK_SYSVAR_ID,
    ];
    assert(keys@ =~= key_bytes(update_keys(*pair_key, *state, *derived)));
    keys
}

impl OmnipairVenue {
    /// A venue of the pair that `account`, at `pubkey`, holds.
    pub fn from_account(pubkey: &Pubkey, account: &Account) -> (result: Result<
        Self,
        TradingVenueError,
    >)
        requires
            from_account_result(*account) matches Ok(state) ==> derivable(*pubkey, state),
        ensures
            match result {
                Ok(venue) => from_account_result(*account) matches Ok(state) && venue@ == new_venue(
                    *pubkey,
                    state,
                ),
                Err(error) => from_account_result(*account) == Err::<
                    OmnipairPair,
                    TradingVenueError,
                >(error),
            },
            result matches Ok(venue) ==> {
                &&& venue@.pair_key == *pubkey
                &&& holds_pair(account.data@, venue@.state)
            },
    {
        if account.owner != (Pubkey { bytes: OMNIPAIR_PROGRAM_ID }) {
            return Err(
                TradingVenueError::FromAccountError(
                    ErrorInfo::Message("account owner is not Omnipair program"),
                ),
            );
        }
        let state = match deserialize_pair(account.data.as_slice()) {
            Ok(state) => state,
            Err(error) => return Err(error),
        };
        let derived = DerivedAccounts::compute(pubkey, &state);
        let required_state_pubkeys = key_set_from(update_key_bytes(pubkey, &state, &derived));
        let venue = OmnipairVenue {
            pair_key: *pubkey,
            state,
            derived,
            rate_model_data: None,
            interest_bps: 0,
            current_slot: 0,
            required_state_pubkeys,
            found_all_pubkeys: false,
            token_info: Vec::new(),
        };
        assert(venue@.token_info =~= Seq::empty());
        Ok(venue)
    }

    /// A venue of the pair that `account`, at `pubkey`, holds; nothing if an address of that pair
    /// does not exist.
    pub fn try_from_account(pubkey: &Pubkey, account: &Account) -> (result: Option<
        Result<Self, TradingVenueError>,
    >)
        ensures
            match result {
                Some(Ok(venue)) => from_account_result(*account) matches Ok(state) && derivable(
                    *pubkey,
                    state,
                ) && venue@ == new_venue(*pubkey, state),
                Some(Err(error)) => from_account_result(*account) == Err::<
                    OmnipairPair,
                    TradingVenueError,
                >(error),
                None => from_account_result(*account) matches Ok(state) && !derivable(
                    *pubkey,
                    state,
                ),
            },
    {
        if account.owner == (Pubkey { bytes: OMNIPAIR_PROGRAM_ID }) {
            if let Ok(state) = deserialize_pair(account.data.as_slice()) {
                if !DerivedAccounts::exist(pubkey, &state) {
                    return None;
                }
            }
        }
        Some(Self::from_account(pubkey, account))
    }

    pub fn initialized(&self) -> (initialized: bool)
        ensures
            initialized == self@.initialized,
    {
        self.found_all_pubkeys
    }

    pub fn market_id(&self) -> (key: Pubkey)
        ensures
            key == self@.pair_key,
    {
        self.pair_key
    }

    pub fn program_id(&self) -> (key: Pubkey)
        ensures
            key.bytes == OMNIPAIR_PROGRAM_ID,
    {
        Pubkey { bytes: OMNIPAIR_PROGRAM_ID }
    }

    pub fn program_dependencies(&self) -> (keys: Vec<Pubkey>)
        ensures
            keys@ == seq![omnipair_program(), spl_token_program(), token_2022_program()],
    {
        let keys: Vec<Pubkey> = vec![
            Pubkey { bytes: OMNIPAIR_PROGRAM_ID },
            Pubkey { bytes: SPL_TOKEN_PROGRAM_ID },
            Pubkey { bytes: TOKEN_2022_PROGRAM_ID },
        ];
        assert(keys@ =~= seq![omnipair_program(), spl_token_program(), token_2022_program()]);
        keys
    }

    pub fn protocol(&self) -> (protocol: PoolProtocol)
        ensures
            protocol == PoolProtocol::Omnipair,
    {
        PoolProtocol::Omnipair
    }

    pub fn tradable_mints(&self) -> (result: Result<Vec<Pubkey>, TradingVenueError>)
        ensures
            result matches Ok(mints) && mints@ == seq![self@.state.token0, self@.state.token1],
    {
        let mints: Vec<Pubkey> = vec![self.state.token0, self.state.token1];
        assert(mints@ =~= seq![self@.state.token0, self@.state.token1]);
        Ok(mints)
    }

    pub fn decimals(&self) -> (result: Result<Vec<i32>, TradingVenueError>)
        ensures
            match result {
                Ok(decimals) => self@.token_info.len() >= 2 && decimals@ == seq![
                    self@.token_info[0].decimals,
                    self@.token_info[1].decimals,
                ],
                Err(error) => self@.token_info.len() < 2 && error
                    == TradingVenueError::MissingState(
                    ErrorInfo::Key(
                        if self@.token_info.len() == 0 {
                            self@.state.token0
                        } else {
                            self@.state.token1
                        },
                    ),
                ),
            },
    {
        if self.token_info.len() == 0 {
            return Err(TradingVenueError::MissingState(ErrorInfo::Key(self.state.token0)));
        }
        if self.token_info.len() == 1 {
            return Err(TradingVenueError::MissingState(ErrorInfo::Key(self.state.token1)));
        }
        let decimals: Vec<i32> = vec![self.token_info[0].decimals, self.token_info[1].decimals];
        assert(decimals@ =~= seq![self@.token_info[0].decimals, self@.token_info[1].decimals]);
        Ok(decimals)
    }

    pub fn get_token_info(&self) -> (info: &[TokenInfo])
        ensures
            info@ == self@.token_info,
    {
        self.token_info.as_slice()
    }

    /// Begins an update: the accounts to fetch for it, which are required from now on.
    pub fn begin_update(&mut self) -> (keys: Vec<Pubkey>)
        ensures
            keys@ == update_keys(old(self)@.pair_key, old(self)@.state, old(self)@.derived),
            final(self)@ == (VenueModel {
                required: old(self)@.required.union(key_bytes(keys@).to_set()),
                ..old(self)@
            }),
    {
        let keys: Vec<Pubkey> = vec![
            self.pair_key,
            self.state.rate_model,
            self.derived.futarchy_authority,
            self.state.token0,
            self.state.token1,
            Pubkey { bytes: CLOCK_SYSVAR_ID },
        ];
        assert(keys@ =~= update_keys(self.pair_key, self.state, self.derived));
        let bytes = update_key_bytes(&self.pair_key, &self.state, &self.derived);
        key_set_extend(&mut self.required_state_pubkeys, bytes);
        keys
    }

    /// Takes over what the fetched accounts say of the pair, its rate model, the share of interest
    /// and the slot. What was taken over before an error stays.
    fn apply_accounts(&mut self, accounts: &Vec<Option<Account>>) -> (result: Result<
        (),
        TradingVenueError,
    >)
        requires
            update_derivable(old(self)@, accounts@),
        ensures
            (final(self)@, result) == apply_result(old(self)@, accounts@),
    {
        if accounts.len() != 6 {
            return Err(TradingVenueError::FailedToFetchMultipleAccountData);
        }
        let state = match &accounts[0] {
            Some(account) => match deserialize_pair(account.data.as_slice()) {
                Ok(state) => state,
                Err(error) => return Err(error),
            },
            None => return Err(TradingVenueError::MissingState(ErrorInfo::Key(self.pair_key))),
        };
        self.state = state;
        self.derived = DerivedAccounts::compute(&self.pair_key, &self.state);
        match &accounts[1] {
            Some(account) => match deserialize_rate_model(account.data.as_slice()) {
                Ok(rate_model) => self.rate_model_data = Some(rate_model),
                Err(error) => return Err(error),
            },
            None => self.rate_model_data = None,
        }
        match &accounts[2] {
            Some(account) => match deserialize_futarchy_authority(account.data.as_slice()) {
                Ok(authority) => self.interest_bps = authority.revenue_share.interest_bps,
                Err(error) => return Err(error),
            },
            None => self.interest_bps = 0,
        }
        if let Some(account) = &accounts[5] {
            match clock_slot(account.data.as_slice()) {
                Ok(slot) => self.current_slot = slot,
                Err(error) => return Err(error),
            }
        }
        Ok(())
    }

    /// Ends an update whose mints were read: `info0` and `info1` say how that went.
    pub fn finish_update(
        &mut self,
        info0: Result<TokenInfo, TradingVenueError>,
        info1: Result<TokenInfo, TradingVenueError>,
    ) -> (result: Result<(), TradingVenueError>)
        ensures
            (final(self)@, result) == finish_result(old(self)@, info0, info1),
    {
        let token0 = match info0 {
            Ok(token) => token,
            Err(error) => return Err(error),
        };
        let token1 = match info1 {
            Ok(token) => token,
            Err(error) => return Err(error),
        };
        self.token_info = vec![token0, token1];
        self.found_all_pubkeys = true;
        assert(self@.token_info =~= seq![token0, token1]);
        Ok(())
    }

    /// Ends an update with the accounts that were fetched for it, in the order of `begin_update`.
    /// `token_info` reads a mint off its account; the last number is the epoch it is read for.
    pub fn update_state<F: Fn(&Pubkey, &Account, u64) -> Result<TokenInfo, TradingVenueError>>(
        &mut self,
        accounts: &Vec<Option<Account>>,
        token_info: F,
    ) -> (result: Result<(), TradingVenueError>)
        requires
            update_derivable(old(self)@, accounts@),
            forall|mint: &Pubkey, account: &Account|
                #[trigger] token_info.requires((mint, account, u64::MAX)),
        ensures
            updated(old(self)@, accounts@, token_info, final(self)@, result),
            result is Ok ==> (accounts@[0] matches Some(account) && holds_pair(
                account.data@,
                final(self)@.state,
            )),
    {
        match self.apply_accounts(accounts) {
            Ok(_) => {},
            Err(error) => return Err(error),
        }
        if let (Some(mint0), Some(mint1)) = (&accounts[3], &accounts[4]) {
            let info0 = token_info(&self.state.token0, mint0, u64::MAX);
            let info1 = match info0 {
                Ok(_) => token_info(&self.state.token1, mint1, u64::MAX),
                Err(error) => Err(error),
            };
            assert(mints_read(token_info, self.state, *mint0, *mint1, info0, info1));
            return self.finish_update(info0, info1);
        }
        self.found_all_pubkeys = true;
        Ok(())
    }

    /// Ends an update like `update_state`; nothing happens if an address of the fetched pair does
    /// not exist.
    pub fn try_update_state<F: Fn(&Pubkey, &Account, u64) -> Result<TokenInfo, TradingVenueError>>(
        &mut self,
        accounts: &Vec<Option<Account>>,
        token_info: F,
    ) -> (result: Option<Result<(), TradingVenueError>>)
        requires
            forall|mint: &Pubkey, account: &Account|
                #[trigger] token_info.requires((mint, account, u64::MAX)),
        ensures
            match result {
                Some(outcome) => update_derivable(old(self)@, accounts@) && updated(
                    old(self)@,
                    accounts@,
                    token_info,
                    final(self)@,
                    outcome,
                ),
                None => !update_derivable(old(self)@, accounts@) && final(self)@ == old(self)@,
            },
    {
        if accounts.len() == 6 {
            if let Some(account) = &accounts[0] {
                if let Ok(state) = deserialize_pair(account.data.as_slice()) {
                    if !DerivedAccounts::exist(&self.pair_key, &state) {
                        return None;
                    }
                }
            }
        }
        Some(self.update_state(accounts, token_info))
    }

    /// The answer to `request` where it does not depend on the pair's reserves.
    fn early_answer(&self, request: &QuoteRequest) -> (answer: Option<
        Result<QuoteResult, TradingVenueError>,
    >)
        ensures
            answer == early_quote(self@, *request),
    {
        if request.swap_type == SwapType::ExactOut {
            return Some(Err(TradingVenueError::ExactOutNotSupported));
        }
        if request.amount == 0 {
            return Some(
                Ok(
                    QuoteResult {
                        input_mint: request.input_mint,
                        output_mint: request.output_mint,
                        amount: 0,
                        expected_output: 0,
                        not_enough_liquidity: false,
                    },
                ),
            );
        }
        if self.state.reduce_only {
            return Some(
                Err(TradingVenueError::InactivePoolError(self.pair_key, PoolProtocol::Omnipair)),
            );
        }
        None
    }

    /// The answer to `request` by the reserves of `projected`, the pair as it is expected to stand
    /// when the swap is made.
    pub fn quote_projected(
        &self,
        request: QuoteRequest,
        projected: &OmnipairPair,
    ) -> (result: Result<QuoteResult, TradingVenueError>)
        ensures
            result == quote_answer(self@, request, *projected),
            request.swap_type == SwapType::ExactIn && request.amount > 0 && !self@.state.reduce_only
                ==> match projected.quote_result(request.amount, request.input_mint) {
                Ok(quote) => result matches Ok(answer) && answer.expected_output
                    == quote.amount_out,
                Err(error) => result matches Err(e) && e == error,
            },
    {
        if let Some(answer) = self.early_answer(&request) {
            return answer;
        }
        match projected.swap_quote(request.amount, request.input_mint) {
            Ok(quote) => Ok(
                QuoteResult {
                    input_mint: request.input_mint,
                    output_mint: request.output_mint,
                    amount: request.amount,
                    expected_output: quote.amount_out,
                    not_enough_liquidity: false,
                },
            ),
            Err(error) => Err(error),
        }
    }

    /// The answer to `request`. `simulate_update` projects a pair to a slot under a rate model and
    /// a share of interest; it is asked only where the rate model is known.
    pub fn quote<F: Fn(OmnipairPair, u64, &OmnipairRateModel, u16) -> OmnipairPair>(
        &self,
        request: QuoteRequest,
        simulate_update: F,
    ) -> (result: Result<QuoteResult, TradingVenueError>)
        requires
            early_quote(self@, request) is None ==> (self@.rate_model_data matches Some(rate_model)
                ==> simulate_update.requires(
                (self@.state, self@.current_slot, &rate_model, self@.interest_bps),
            )),
        ensures
            match early_quote(self@, request) {
                Some(answer) => result == answer,
                None => exists|projected: OmnipairPair| #[trigger]
                    is_projection(self@, simulate_update, projected) && result == quote_answer(
                        self@,
                        request,
                        projected,
                    ),
            },
    {
        if let Some(answer) = self.early_answer(&request) {
            return answer;
        }
        let projected = match &self.rate_model_data {
            Some(rate_model) => simulate_update(
                self.state,
                self.current_slot,
                rate_model,
                self.interest_bps,
            ),
            None => self.state,
        };
        assert(is_projection(self@, simulate_update, projected));
        self.quote_projected(request, &projected)
    }

    /// Refuses a swap that cannot be put into an instruction.
    fn check_swap(&self, request: &QuoteRequest) -> (result: Result<(), TradingVenueError>)
        ensures
            match result {
                Ok(_) => swap_refusal(self@, *request) is None,
                Err(error) => swap_refusal(self@, *request) == Some(error),
            },
    {
        if request.swap_type == SwapType::ExactOut {
            return Err(TradingVenueError::ExactOutNotSupported);
        }
        if self.token_info.len() == 0 {
            return Err(TradingVenueError::NotInitialized(ErrorInfo::Message("token0 mint info")));
        }
        if self.token_info.len() == 1 {
            return Err(TradingVenueError::NotInitialized(ErrorInfo::Message("token1 mint info")));
        }
        let is_token0_in = request.input_mint == self.state.token0;
        if !is_token0_in && request.input_mint != self.state.token1 {
            return Err(TradingVenueError::InvalidMint(ErrorInfo::Key(request.input_mint)));
        }
        let expected = if is_token0_in {
            self.state.token1
        } else {
            self.state.token0
        };
        if request.output_mint != expected {
            return Err(TradingVenueError::InvalidMint(ErrorInfo::Key(request.output_mint)));
        }
        Ok(())
    }

    /// The instruction that makes the swap of `request` for `user`, whose token accounts are
    /// `user_token0` and `user_token1`.
    pub fn swap_instruction(
        &self,
        request: QuoteRequest,
        user: Pubkey,
        user_token0: Pubkey,
        user_token1: Pubkey,
    ) -> (result: Result<Instruction, TradingVenueError>)
        ensures
            match result {
                Ok(instruction) => swap_refusal(self@, request) is None && is_swap(
                    instruction,
                    self@,
                    request,
                    user,
                    user_token0,
                    user_token1,
                ),
                Err(error) => swap_refusal(self@, request) == Some(error),
            },
            result matches Ok(instruction) ==> {
                &&& instruction.data@.len() == 24
                &&& le_value(instruction.data@.subrange(8, 16)) == request.amount
                &&& instruction.accounts@[7].pubkey == request.input_mint
                &&& instruction.accounts@[8].pubkey == request.output_mint
            },
    {
        match self.check_swap(&request) {
            Ok(_) => {},
            Err(error) => return Err(error),
        }
        let is_token0_in = request.input_mint == self.state.token0;
        let (token_in_mint, token_out_mint) = if is_token0_in {
            (self.state.token0, self.state.token1)
        } else {
            (self.state.token1, self.state.token0)
        };
        let (token_in_vault, token_out_vault) = if is_token0_in {
            (self.derived.reserve_vault0, self.derived.reserve_vault1)
        } else {
            (self.derived.reserve_vault1, self.derived.reserve_vault0)
        };
        let (user_in, user_out) = if is_token0_in {
            (user_token0, user_token1)
        } else {
            (user_token1, user_token0)
        };
        let accounts: Vec<AccountMeta> = vec![
            AccountMeta::new(self.pair_key, false),
            AccountMeta::new(self.state.rate_model, false),
            AccountMeta::new_readonly(self.derived.futarchy_authority, false),
            AccountMeta::new(token_in_vault, false),
            AccountMeta::new(token_out_vault, false),
            AccountMeta::new(user_in, false),
            AccountMeta::new(user_out, false),
            AccountMeta::new_readonly(token_in_mint, false),
            AccountMeta::new_readonly(token_out_mint, false),
            AccountMeta::new(user, true),
            AccountMeta::new_readonly(Pubkey { bytes: SPL_TOKEN_PROGRAM_ID }, false),
            AccountMeta::new_readonly(Pubkey { bytes: TOKEN_2022_PROGRAM_ID }, false),
            AccountMeta::new_readonly(self.derived.event_authority, false),
            AccountMeta::new_readonly(Pubkey { bytes: OMNIPAIR_PROGRAM_ID }, false),
        ];
        assert(accounts@ =~= swap_accounts(
            self@,
            is_token0_in,
            user,
            user_token0,
            user_token1,
        ));
        proof {
            lemma_swap_data_carries_amount(request.amount);
        }
        Ok(
            Instruction {
                program_id: Pubkey { bytes: OMNIPAIR_PROGRAM_ID },
                accounts,
                data: build_swap_data(request.amount),
            },
        )
    }

    /// The instruction that makes the swap of `request` for `user`. `associated_token_address` says
    /// which account holds the user's tokens of a mint.
    pub fn generate_swap_instruction<F: Fn(&TokenInfo, &Pubkey) -> Pubkey>(
        &self,
        request: QuoteRequest,
        user: Pubkey,
        associated_token_address: F,
    ) -> (result: Result<Instruction, TradingVenueError>)
        requires
            forall|token: &TokenInfo| #[trigger] associated_token_address.requires((token, &user)),
        ensures
            match result {
                Ok(instruction) => swap_refusal(self@, request) is None && exists|
                    user_token0: Pubkey,
                    user_token1: Pubkey,
                |
                    {
                        &&& #[trigger] associated_token_address.ensures(
                            (&self@.token_info[0], &user),
                            user_token0,
                        )
                        &&& #[trigger] associated_token_address.ensures(
                            (&self@.token_info[1], &user),
                            user_token1,
                        )
                        &&& is_swap(instruction, self@, request, user, user_token0, user_token1)
                    },
                Err(error) => swap_refusal(self@, request) == Some(error),
            },
            result matches Ok(instruction) ==> {
                &&& instruction.data@.len() == 24
                &&& le_value(instruction.data@.subrange(8, 16)) == request.amount
                &&& instruction.accounts@[7].pubkey == request.input_mint
                &&& instruction.accounts@[8].pubkey == request.output_mint
            },
    {
        match self.check_swap(&request) {
            Ok(_) => {},
            Err(error) => return Err(error),
        }
        let user_token0 = associated_token_address(&self.token_info[0], &user);
        let user_token1 = associated_token_address(&self.token_info[1], &user);
        self.swap_instruction(request, user, user_token0, user_token1)
    }

    /// The accounts that an update needs, in no particular order.
    pub fn get_required_pubkeys_for_update(&self) -> (result: Result<
        Vec<Pubkey>,
        TradingVenueError,
    >)
        ensures
            match result {
                Ok(keys) => {
                    &&& self@.initialized
                    &&& keys@.no_duplicates()
                    &&& forall|key: Pubkey| #[trigger]
                        keys@.contains(key) <==> self@.required.contains(key.bytes)
                },
                Err(error) => !self@.initialized && error == TradingVenueError::NotInitialized(
                    ErrorInfo::Message("State needs to be fully updated"),
                ),
            },
    {
        if !self.found_all_pubkeys {
            return Err(
                TradingVenueError::NotInitialized(
                    ErrorInfo::Message("State needs to be fully updated"),
                ),
            );
        }
        let bytes = key_set_to_vec(&self.required_state_pubkeys);
        let mut keys: Vec<Pubkey> = Vec::with_capacity(bytes.len());
        let mut i: usize = 0;
        while i < bytes.len()
            invariant
                i <= bytes@.len(),
                keys@.len() == i,
                forall|j: int| 0 <= j < i ==> (#[trigger] keys@[j]).bytes == bytes@[j],
            decreases bytes.len() - i,
        {
            keys.push(Pubkey { bytes: bytes[i] });
            i = i + 1;
        }
        proof {
            assert forall|key: Pubkey| #[trigger]
                keys@.contains(key) <==> self@.required.contains(key.bytes) by {
                assert(self@.required.contains(key.bytes) <==> bytes@.contains(key.bytes));
                if bytes@.contains(key.bytes) {
                    let j = choose|j: int| 0 <= j < bytes@.len() && bytes@[j] == key.bytes;
                    assert(keys@[j] == key);
                }
            }
        }
        Ok(keys)
    }

    /// The accounts to put into an address lookup table, given those of the pair's two mints. They
    /// are `None` where there is nothing to fetch accounts from.
    pub fn get_lookup_table_keys(
        &self,
        token_mint_accounts: Option<&Vec<Option<Account>>>,
    ) -> (result: Result<Vec<Pubkey>, TradingVenueError>)
        requires
            token_mint_accounts matches Some(mints) ==> mints@.len() >= 1 && (mints@[0] is Some
                ==> mints@.len() >= 2),
        ensures
            match result {
                Ok(keys) => {
                    &&& lookup_refusal(token_mint_accounts) is None
                    &&& token_mint_accounts matches Some(mints)
                    &&& keys@ == lookup_table_keys(self@, mints@[0]->0.owner, mints@[1]->0.owner)
                },
                Err(error) => lookup_refusal(token_mint_accounts) == Some(error),
            },
    {
        let mints = match token_mint_accounts {
            Some(mints) => mints,
            None => return Err(
                TradingVenueError::SomethingWentWrong(ErrorInfo::Message("RPC cache required")),
            ),
        };
        let p0 = match &mints[0] {
            Some(mint) => mint.owner,
            None => return Err(TradingVenueError::MissingState(ErrorInfo::Message("token0 mint"))),
        };
        let p1 = match &mints[1] {
            Some(mint) => mint.owner,
            None => return Err(TradingVenueError::MissingState(ErrorInfo::Message("token1 mint"))),
        };
        let keys: Vec<Pubkey> = vec![
            self.state.token0,
            self.state.token1,
            p0,
            p1,
            self.pair_key,
            self.derived.reserve_vault0,
            self.derived.reserve_vault1,
            self.state.rate_model,
            self.derived.futarchy_authority,
            self.derived.event_authority,
            Pubkey { bytes: SPL_TOKEN_PROGRAM_ID },
            Pubkey { bytes: TOKEN_2022_PROGRAM_ID },
            Pubkey { bytes: OMNIPAIR_PROGRAM_ID },
        ];
        assert(keys@ =~= lookup_table_keys(self@, p0, p1));
        Ok(keys)
    }
}

} // verus!
