//! What a venue answers to a request, by the reserves of the pair it projects.

use vstd::prelude::*;

use crate::error::{ErrorInfo, PoolProtocol, TradingVenueError};
use crate::model::{
    early_quote, is_projection, quote_answer, QuoteRequest, QuoteResult, SwapType, VenueModel,
};
use crate::pubkey::Pubkey;
use crate::state::{OmnipairPair, OmnipairRateModel};
use crate::swap_laws::{
    lemma_either_mint_is_quoted, lemma_quote_refusals, lemma_sale_of_token0, lemma_sale_of_token1,
};

verus! {

/// Which requests are answered without a look at the reserves, and how: a fixed output is refused,
/// nothing is paid for nothing, and a pair that only winds down refuses the rest. No other request
/// is.
pub proof fn lemma_early_answers(m: VenueModel, request: QuoteRequest, projected: OmnipairPair)
    ensures
        request.swap_type == SwapType::ExactOut ==> {
            &&& early_quote(m, request) == Some(quote_answer(m, request, projected))
            &&& quote_answer(m, request, projected) == Err::<QuoteResult, TradingVenueError>(
                TradingVenueError::ExactOutNotSupported,
            )
        },
        request.swap_type == SwapType::ExactIn && request.amount == 0 ==> {
            &&& early_quote(m, request) == Some(quote_answer(m, request, projected))
            &&& quote_answer(m, request, projected) == Ok::<QuoteResult, TradingVenueError>(
                QuoteResult {
                    input_mint: request.input_mint,
                    output_mint: request.output_mint,
                    amount: 0,
                    expected_output: 0,
                    not_enough_liquidity: false,
                },
            )
        },
        request.swap_type == SwapType::ExactIn && request.amount > 0 && m.state.reduce_only ==> {
            &&& early_quote(m, request) == Some(quote_answer(m, request, projected))
            &&& quote_answer(m, request, projected) == Err::<QuoteResult, TradingVenueError>(
                TradingVenueError::InactivePoolError(m.pair_key, PoolProtocol::Omnipair),
            )
        },
        request.swap_type == SwapType::ExactIn && request.amount > 0 && !m.state.reduce_only
            ==> early_quote(m, request) is None,
{
}

/// A pair is projected to the slot that the venue knows, under the rate model and the share of
/// interest that it knows; without a rate model it is taken as it stands.
pub proof fn lemma_projection_is_to_the_current_slot<
    F: Fn(OmnipairPair, u64, &OmnipairRateModel, u16) -> OmnipairPair,
>(m: VenueModel, simulate_update: F, projected: OmnipairPair)
    requires
        is_projection(m, simulate_update, projected),
    ensures
        m.rate_model_data matches Some(rate_model) ==> simulate_update.ensures(
            (m.state, m.current_slot, &rate_model, m.interest_bps),
            projected,
        ),
        m.rate_model_data is None ==> projected == m.state,
{
}

/// A request for more than nothing, of a pair that takes swaps, is served if and only if the
/// projected pair quotes its amount of its input mint, whichever of the two mints that is. It then
/// promises what that quote pays, and else fails as that quote does.
pub proof fn lemma_answer_is_the_quote_of_the_pair(
    m: VenueModel,
    request: QuoteRequest,
    projected: OmnipairPair,
)
    requires
        request.swap_type == SwapType::ExactIn,
        request.amount > 0,
        !m.state.reduce_only,
    ensures
        quote_answer(m, request, projected) is Ok <==> projected.quote_result(
            request.amount,
            request.input_mint,
        ) is Ok,
        projected.quote_result(request.amount, request.input_mint) matches Ok(quote) ==> (
        quote_answer(m, request, projected) matches Ok(answer) && answer.expected_output
            == quote.amount_out && answer.amount == request.amount && answer.input_mint
            == request.input_mint && answer.output_mint == request.output_mint
            && !answer.not_enough_liquidity),
        projected.quote_result(request.amount, request.input_mint) matches Err(error)
            ==> quote_answer(m, request, projected) == Err::<QuoteResult, TradingVenueError>(error),
{
}

/// Where a fee is at most 100%, both reserves are there and are there in cash, a request whose
/// input is either mint of the pair is served.
pub proof fn lemma_either_mint_is_served(
    m: VenueModel,
    request: QuoteRequest,
    projected: OmnipairPair,
)
    requires
        request.swap_type == SwapType::ExactIn,
        !m.state.reduce_only,
        projected.swap_fee_bps <= 10_000,
        0 < projected.reserve0 <= projected.cash_reserve0,
        0 < projected.reserve1 <= projected.cash_reserve1,
        request.input_mint == projected.token0 || request.input_mint == projected.token1,
    ensures
        quote_answer(m, request, projected) is Ok,
{
    lemma_either_mint_is_quoted(projected, request.amount, request.input_mint);
}

/// A mint that the pair does not trade is refused by its name, and one that it trades where a
/// reserve is empty.
pub proof fn lemma_request_refusals(m: VenueModel, request: QuoteRequest, projected: OmnipairPair)
    requires
        request.swap_type == SwapType::ExactIn,
        request.amount > 0,
        !m.state.reduce_only,
    ensures
        request.input_mint != projected.token0 && request.input_mint != projected.token1
            ==> quote_answer(m, request, projected) == Err::<QuoteResult, TradingVenueError>(
            TradingVenueError::InvalidMint(ErrorInfo::Key(request.input_mint)),
        ),
        (request.input_mint == projected.token0 || request.input_mint == projected.token1) && (
        projected.reserve0 == 0 || projected.reserve1 == 0) ==> quote_answer(m, request, projected)
            == Err::<QuoteResult, TradingVenueError>(
            TradingVenueError::AmmMethodError(ErrorInfo::Message("invalid reserves")),
        ),
{
    lemma_quote_refusals(projected, request.amount, request.input_mint);
}

/// What is promised for token 0: what it buys of token 1 once the fee, rounded up to a whole unit,
/// is taken off, rounded down; nothing is promised that is not there in cash. `laps` says how often
/// the fee runs over 64 bits, which it does not up to 100%.
pub proof fn lemma_token0_is_priced(
    m: VenueModel,
    request: QuoteRequest,
    projected: OmnipairPair,
    fee: int,
    laps: int,
    amount_out: int,
)
    requires
        request.swap_type == SwapType::ExactIn,
        request.amount > 0,
        request.input_mint == projected.token0,
        !m.state.reduce_only,
        projected.reserve0 > 0,
        projected.reserve1 > 0,
        0 <= fee < 0x1_0000_0000_0000_0000,
        0 <= laps,
        request.amount * projected.swap_fee_bps <= (fee + laps * 0x1_0000_0000_0000_0000) * 10_000
            < request.amount * projected.swap_fee_bps + 10_000,
        fee <= request.amount ==> amount_out * (projected.reserve0 + (request.amount - fee)) <= (
        request.amount - fee) * projected.reserve1 < (amount_out + 1) * (projected.reserve0 + (
        request.amount - fee)),
    ensures
        fee > request.amount ==> quote_answer(m, request, projected) == Err::<
            QuoteResult,
            TradingVenueError,
        >(TradingVenueError::MathError(ErrorInfo::Message("amount after fee underflow"))),
        fee <= request.amount && amount_out > projected.cash_reserve1 ==> quote_answer(
            m,
            request,
            projected,
        ) == Err::<QuoteResult, TradingVenueError>(
            TradingVenueError::AmmMethodError(
                ErrorInfo::Message("insufficient cash reserve for output"),
            ),
        ),
        fee <= request.amount && amount_out <= projected.cash_reserve1 ==> (quote_answer(
            m,
            request,
            projected,
        ) matches Ok(answer) && answer.expected_output == amount_out),
{
    lemma_sale_of_token0(projected, request.amount, fee, laps, amount_out);
}

/// What is promised for token 1, in the same way.
pub proof fn lemma_token1_is_priced(
    m: VenueModel,
    request: QuoteRequest,
    projected: OmnipairPair,
    fee: int,
    laps: int,
    amount_out: int,
)
    requires
        request.swap_type == SwapType::ExactIn,
        request.amount > 0,
        request.input_mint == projected.token1,
        projected.token1 != projected.token0,
        !m.state.reduce_only,
        projected.reserve0 > 0,
        projected.reserve1 > 0,
        0 <= fee < 0x1_0000_0000_0000_0000,
        0 <= laps,
        request.amount * projected.swap_fee_bps <= (fee + laps * 0x1_0000_0000_0000_0000) * 10_000
            < request.amount * projected.swap_fee_bps + 10_000,
        fee <= request.amount ==> amount_out * (projected.reserve1 + (request.amount - fee)) <= (
        request.amount - fee) * projected.reserve0 < (amount_out + 1) * (projected.reserve1 + (
        request.amount - fee)),
    ensures
        fee > request.amount ==> quote_answer(m, request, projected) == Err::<
            QuoteResult,
            TradingVenueError,
        >(TradingVenueError::MathError(ErrorInfo::Message("amount after fee underflow"))),
        fee <= request.amount && amount_out > projected.cash_reserve0 ==> quote_answer(
            m,
            request,
            projected,
        ) == Err::<QuoteResult, TradingVenueError>(
            TradingVenueError::AmmMethodError(
                ErrorInfo::Message("insufficient cash reserve for output"),
            ),
        ),
        fee <= request.amount && amount_out <= projected.cash_reserve0 ==> (quote_answer(
            m,
            request,
            projected,
        ) matches Ok(answer) && answer.expected_output == amount_out),
{
    lemma_sale_of_token1(projected, request.amount, fee, laps, amount_out);
}

/// Requests of the same amount of the same mint are promised the same, whatever they say of the
/// mint that comes out and whatever else the venue holds, so long as the projected pairs agree.
pub proof fn lemma_answer_depends_on_the_projected_pair(
    a: VenueModel,
    b: VenueModel,
    request: QuoteRequest,
    output_mint: Pubkey,
    projected: OmnipairPair,
)
    requires
        request.swap_type == SwapType::ExactIn,
        a.state.reduce_only == b.state.reduce_only,
        a.pair_key == b.pair_key,
    ensures
        ({
            let x = quote_answer(a, request, projected);
            let y = quote_answer(b, QuoteRequest { output_mint, ..request }, projected);
            match (x, y) {
                (Ok(p), Ok(q)) => p.expected_output == q.expected_output,
                (Err(p), Err(q)) => p == q,
                _ => false,
            }
        }),
{
}

} // verus!
