//! What holds of every venue.

use vstd::prelude::*;

use crate::clock::clock_slot_result;
use crate::derived::derived_accounts;
use crate::encoding::{lemma_pair_read_back, pair_bytes};
use crate::error::{PoolProtocol, TradingVenueError};
use crate::instruction::swap_data;
use crate::layout::{le_bytes, le_value, lemma_byte_powers, lemma_le_value_of_bytes};
use crate::model::{
    apply_result, clock_key, finish_result, from_account_result, key_bytes, mints_read,
    new_venue, quote_answer, quoted, swap_accounts, swap_refusal, update_keys, updated, Account,
    QuoteRequest, QuoteResult, SwapType, TokenInfo, VenueModel,
};
use crate::pubkey::Pubkey;
use crate::state::{OmnipairPair, OMNIPAIR_PROGRAM_ID, SWAP_INSTRUCTION_DISCRIMINATOR};
use crate::swap_laws::lemma_quote_is_covered;

verus! {

broadcast use crate::layout::lemma_le_bytes_len;

/// A fixed output is never served, neither by a quote nor by an instruction.
pub proof fn lemma_exact_out_is_refused(
    m: VenueModel,
    request: QuoteRequest,
    projected: OmnipairPair,
)
    requires
        request.swap_type == SwapType::ExactOut,
    ensures
        quote_answer(m, request, projected) == Err::<QuoteResult, TradingVenueError>(
            TradingVenueError::ExactOutNotSupported,
        ),
        swap_refusal(m, request) == Some(TradingVenueError::ExactOutNotSupported),
{
}

/// Nothing in, nothing out: whatever the pair and the mints.
pub proof fn lemma_nothing_is_quoted_for_nothing(
    m: VenueModel,
    request: QuoteRequest,
    projected: OmnipairPair,
)
    requires
        request.swap_type == SwapType::ExactIn,
        request.amount == 0,
    ensures
        quote_answer(m, request, projected) == Ok::<QuoteResult, TradingVenueError>(
            quoted(request, 0),
        ),
{
}

/// A pair that only winds down answers every other request with the same refusal.
pub proof fn lemma_reduce_only_takes_no_swaps(
    m: VenueModel,
    request: QuoteRequest,
    projected: OmnipairPair,
)
    requires
        m.state.reduce_only,
        request.swap_type == SwapType::ExactIn,
        request.amount > 0,
    ensures
        quote_answer(m, request, projected) == Err::<QuoteResult, TradingVenueError>(
            TradingVenueError::InactivePoolError(m.pair_key, PoolProtocol::Omnipair),
        ),
{
}

/// A quote is about what was asked, and never speaks of a want of liquidity.
pub proof fn lemma_quote_echoes_request(
    m: VenueModel,
    request: QuoteRequest,
    projected: OmnipairPair,
)
    ensures
        quote_answer(m, request, projected) matches Ok(answer) ==> {
            &&& answer.input_mint == request.input_mint
            &&& answer.output_mint == request.output_mint
            &&& answer.amount == request.amount
            &&& !answer.not_enough_liquidity
        },
{
}

/// What is promised for more than nothing is less than the reserve it is paid from, and there is the
/// cash to pay it.
pub proof fn lemma_promise_is_covered(
    m: VenueModel,
    request: QuoteRequest,
    projected: OmnipairPair,
)
    requires
        request.amount > 0,
    ensures
        quote_answer(m, request, projected) matches Ok(answer) ==> {
            let (_, reserve_out, cash_out) = projected.reserves_for(
                request.input_mint == projected.token0,
            );
            &&& answer.expected_output < reserve_out
            &&& answer.expected_output <= cash_out
        },
{
    lemma_quote_is_covered(projected, request.amount, request.input_mint);
}

/// The data of a swap are twenty-four bytes, from which the amount can be read back.
pub proof fn lemma_swap_data_carries_amount(amount_in: u64)
    ensures
        swap_data(amount_in).len() == 24,
        swap_data(amount_in).take(8) == SWAP_INSTRUCTION_DISCRIMINATOR@,
        le_value(swap_data(amount_in).subrange(8, 16)) == amount_in,
        le_value(swap_data(amount_in).subrange(16, 24)) == 0,
{
    let data = swap_data(amount_in);
    assert(data.take(8) =~= SWAP_INSTRUCTION_DISCRIMINATOR@);
    assert(data.subrange(8, 16) =~= le_bytes(amount_in as nat, 8));
    assert(data.subrange(16, 24) =~= le_bytes(0, 8));
    lemma_byte_powers();
    lemma_le_value_of_bytes(amount_in as nat, 8);
    lemma_le_value_of_bytes(0, 8);
}

/// A swap uses fourteen accounts, and only the user signs.
pub proof fn lemma_only_user_signs(
    m: VenueModel,
    token0_in: bool,
    user: Pubkey,
    user_token0: Pubkey,
    user_token1: Pubkey,
)
    ensures
        ({
            let accounts = swap_accounts(m, token0_in, user, user_token0, user_token1);
            &&& accounts.len() == 14
            &&& forall|i: int|
                0 <= i < 14 ==> ((#[trigger] accounts[i]).is_signer <==> i == 9)
            &&& accounts[9].pubkey == user
        }),
{
}

/// The swap in the other direction uses the same accounts, with vaults, token accounts and mints
/// exchanged.
pub proof fn lemma_reverse_swap_exchanges_accounts(
    m: VenueModel,
    user: Pubkey,
    user_token0: Pubkey,
    user_token1: Pubkey,
)
    ensures
        ({
            let a = swap_accounts(m, true, user, user_token0, user_token1);
            let b = swap_accounts(m, false, user, user_token0, user_token1);
            b == a.update(3, a[4]).update(4, a[3]).update(5, a[6]).update(6, a[5]).update(
                7,
                a[8],
            ).update(8, a[7])
        }),
{
    let a = swap_accounts(m, true, user, user_token0, user_token1);
    let b = swap_accounts(m, false, user, user_token0, user_token1);
    assert(b =~= a.update(3, a[4]).update(4, a[3]).update(5, a[6]).update(6, a[5]).update(
        7,
        a[8],
    ).update(8, a[7]));
}

/// What every venue keeps: its derived addresses are those of its pair, it knows both mints or
/// neither, and an update always needs the pair and the clock.
pub open spec fn consistent(m: VenueModel) -> bool {
    &&& m.derived == derived_accounts(m.pair_key, m.state)
    &&& m.token_info.len() == 0 || m.token_info.len() == 2
    &&& m.required.contains(m.pair_key.bytes)
    &&& m.required.contains(clock_key().bytes)
}

/// A new venue is consistent, and needs what its first update will read.
pub proof fn lemma_new_venue_is_consistent(pair_key: Pubkey, state: OmnipairPair)
    ensures
        consistent(new_venue(pair_key, state)),
        ({
            let keys = update_keys(pair_key, state, derived_accounts(pair_key, state));
            key_bytes(keys).to_set().subset_of(new_venue(pair_key, state).required)
        }),
{
    let keys = update_keys(pair_key, state, derived_accounts(pair_key, state));
    let bytes = key_bytes(keys);
    assert(bytes[0] == pair_key.bytes);
    assert(bytes[5] == clock_key().bytes);
}

/// Beginning an update keeps a venue consistent, and afterwards it needs all that the update reads.
pub proof fn lemma_begin_update_is_consistent(m: VenueModel)
    requires
        consistent(m),
    ensures
        ({
            let keys = key_bytes(update_keys(m.pair_key, m.state, m.derived)).to_set();
            let begun = VenueModel { required: m.required.union(keys), ..m };
            &&& consistent(begun)
            &&& m.required.subset_of(begun.required)
            &&& keys.subset_of(begun.required)
        }),
{
}

/// Applying accounts keeps a venue consistent, and what it does not read off them.
proof fn lemma_apply_is_consistent(before: VenueModel, accounts: Seq<Option<Account>>)
    requires
        consistent(before),
    ensures
        ({
            let applied = apply_result(before, accounts).0;
            &&& consistent(applied)
            &&& applied.pair_key == before.pair_key
            &&& applied.required == before.required
            &&& applied.initialized == before.initialized
            &&& applied.token_info == before.token_info
        }),
{
}

/// However an update ends, it keeps the venue consistent, the address of its pair and the accounts
/// it needs. It makes the venue initialized if and only if it goes through; a venue that was
/// initialized stays so. One that fails leaves the mints as they were known.
pub proof fn lemma_update_is_consistent<
    F: Fn(&Pubkey, &Account, u64) -> Result<TokenInfo, TradingVenueError>,
>(
    before: VenueModel,
    accounts: Seq<Option<Account>>,
    token_info: F,
    after: VenueModel,
    result: Result<(), TradingVenueError>,
)
    requires
        consistent(before),
        updated(before, accounts, token_info, after, result),
    ensures
        consistent(after),
        after.pair_key == before.pair_key,
        after.required == before.required,
        after.initialized == (before.initialized || result is Ok),
        result is Err ==> after.token_info == before.token_info,
{
    lemma_apply_is_consistent(before, accounts);
    let (applied, outcome) = apply_result(before, accounts);
    if outcome is Ok {
        if let (Some(mint0), Some(mint1)) = (accounts[3], accounts[4]) {
            let (info0, info1) = choose|
                info0: Result<TokenInfo, TradingVenueError>,
                info1: Result<TokenInfo, TradingVenueError>,
            |
                {
                    &&& #[trigger] mints_read(
                        token_info,
                        applied.state,
                        mint0,
                        mint1,
                        info0,
                        info1,
                    )
                    &&& (after, result) == finish_result(applied, info0, info1)
                };
            assert((after, result) == finish_result(applied, info0, info1));
        }
    }
}

/// What an update with the clock takes over depends on the accounts alone, not on what the venue
/// held before.
pub proof fn lemma_update_forgets(a: VenueModel, b: VenueModel, accounts: Seq<Option<Account>>)
    requires
        a.pair_key == b.pair_key,
        apply_result(a, accounts).1 is Ok,
        accounts[5] is Some,
    ensures
        apply_result(b, accounts).1 is Ok,
        ({
            let (x, y) = (apply_result(a, accounts).0, apply_result(b, accounts).0);
            &&& x.state == y.state
            &&& x.derived == y.derived
            &&& x.rate_model_data == y.rate_model_data
            &&& x.interest_bps == y.interest_bps
            &&& x.current_slot == y.current_slot
        }),
{
}

/// An account of the program that holds a pair makes a venue of that pair.
pub proof fn lemma_pair_account_is_read(
    account: Account,
    discriminator: Seq<u8>,
    state: OmnipairPair,
    trailing: Seq<u8>,
)
    requires
        account.owner.bytes == OMNIPAIR_PROGRAM_ID,
        discriminator.len() == 8,
        account.data@ == discriminator + pair_bytes(state) + trailing,
    ensures
        from_account_result(account) == Ok::<OmnipairPair, TradingVenueError>(state),
{
    lemma_pair_read_back(discriminator, state, trailing);
}

/// The slot that a clock starts with is read back.
pub proof fn lemma_clock_slot_read_back(slot: u64, rest: Seq<u8>)
    requires
        rest.len() >= 32,
    ensures
        clock_slot_result(le_bytes(slot as nat, 8) + rest) == Ok::<u64, TradingVenueError>(slot),
{
    let data = le_bytes(slot as nat, 8) + rest;
    assert(data.take(8) =~= le_bytes(slot as nat, 8));
    lemma_byte_powers();
    lemma_le_value_of_bytes(slot as nat, 8);
}

} // verus!
