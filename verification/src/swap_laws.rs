//! What holds of every swap quote.

use vstd::arithmetic::div_mod::{lemma_fundamental_div_mod, lemma_fundamental_div_mod_converse};
use vstd::prelude::*;

use crate::error::{ErrorInfo, TradingVenueError};
use crate::pubkey::Pubkey;
use crate::state::{
    ceil_quotient, charged_fee, constant_product_out, lemma_constant_product_out_bounds, swap_fee,
    OmnipairPair, SwapQuote,
};

verus! {

/// A quotient rounded up is the least number that, times the divisor, reaches the dividend.
pub proof fn lemma_ceil_quotient_least(n: int, d: int)
    requires
        0 <= n,
        0 < d,
    ensures
        n <= ceil_quotient(n, d) * d,
        forall|q: int| #![trigger q * d] n <= q * d ==> ceil_quotient(n, d) <= q,
{
    let c = ceil_quotient(n, d);
    lemma_fundamental_div_mod(n + d - 1, d);
    assert(c * d >= n && (c - 1) * d < n) by (nonlinear_arith)
        requires
            n + d - 1 == d * c + (n + d - 1) % d,
            0 <= (n + d - 1) % d < d,
    ;
    assert forall|q: int| #![trigger q * d] n <= q * d implies c <= q by {
        assert(c <= q) by (nonlinear_arith)
            requires
                n <= q * d,
                (c - 1) * d < n,
                0 < d,
        ;
    }
}

/// A quotient rounded up, times the divisor, reaches the dividend and exceeds it by less than the
/// divisor.
pub proof fn lemma_ceil_quotient_bounds(n: int, d: int)
    requires
        0 < d,
    ensures
        n <= ceil_quotient(n, d) * d < n + d,
{
    let c = ceil_quotient(n, d);
    lemma_fundamental_div_mod(n + d - 1, d);
    assert(n <= c * d < n + d) by (nonlinear_arith)
        requires
            n + d - 1 == d * c + (n + d - 1) % d,
            0 <= (n + d - 1) % d < d,
    ;
}

/// A fee of up to 100% is at most the amount it is charged on, and is charged in full.
pub proof fn lemma_fee_within_amount(amount_in: u64, fee_bps: u16)
    requires
        fee_bps <= 10_000,
    ensures
        0 <= swap_fee(amount_in as int, fee_bps as int) <= amount_in,
        charged_fee(amount_in as int, fee_bps as int) == swap_fee(amount_in as int, fee_bps as int),
{
    let n = amount_in * fee_bps;
    assert(0 <= n <= amount_in * 10_000) by (nonlinear_arith)
        requires
            n == amount_in * fee_bps,
            0 <= fee_bps <= 10_000,
            0 <= amount_in,
    ;
}

/// The fee is never less than the exact share of the amount, and exceeds it by less than one unit.
pub proof fn lemma_fee_rounds_up(amount_in: int, fee_bps: int)
    requires
        0 <= amount_in,
        0 <= fee_bps,
    ensures
        amount_in * fee_bps <= swap_fee(amount_in, fee_bps) * 10_000 < amount_in * fee_bps + 10_000,
{
    assert(0 <= amount_in * fee_bps) by (nonlinear_arith)
        requires
            0 <= amount_in,
            0 <= fee_bps,
    ;
}

/// A larger amount leaves no less after the fee.
proof fn lemma_net_amount_monotone(a: int, b: int, fee_bps: int)
    requires
        0 <= a <= b,
        0 <= fee_bps <= 10_000,
    ensures
        a - swap_fee(a, fee_bps) <= b - swap_fee(b, fee_bps),
{
    let na = a * fee_bps;
    let nb = b * fee_bps;
    assert(nb - na <= (b - a) * 10_000) by (nonlinear_arith)
        requires
            na == a * fee_bps,
            nb == b * fee_bps,
            a <= b,
            fee_bps <= 10_000,
    ;
}

/// The product of the reserves never shrinks.
pub proof fn lemma_product_never_shrinks(reserve_in: int, reserve_out: int, amount_in: int)
    requires
        0 <= reserve_in,
        0 <= reserve_out,
        0 <= amount_in,
        0 < reserve_in + amount_in,
    ensures
        reserve_in * reserve_out <= (reserve_in + amount_in) * (reserve_out - constant_product_out(
            reserve_in,
            reserve_out,
            amount_in,
        )),
{
    let d = reserve_in + amount_in;
    let n = amount_in * reserve_out;
    let q = constant_product_out(reserve_in, reserve_out, amount_in);
    lemma_fundamental_div_mod(n, d);
    assert(reserve_in * reserve_out <= d * (reserve_out - q)) by (nonlinear_arith)
        requires
            d * q <= n,
            n == amount_in * reserve_out,
            d == reserve_in + amount_in,
    ;
}

/// A larger amount is paid no less.
pub proof fn lemma_amount_out_monotone(reserve_in: int, reserve_out: int, a: int, b: int)
    requires
        0 < reserve_in,
        0 <= reserve_out,
        0 <= a <= b,
    ensures
        constant_product_out(reserve_in, reserve_out, a) <= constant_product_out(
            reserve_in,
            reserve_out,
            b,
        ),
{
    let da = reserve_in + a;
    let db = reserve_in + b;
    let na = a * reserve_out;
    let nb = b * reserve_out;
    let qa = na / da;
    let qb = nb / db;
    lemma_fundamental_div_mod(na, da);
    lemma_fundamental_div_mod(nb, db);
    lemma_constant_product_out_bounds(reserve_in, reserve_out, a);
    assert(qa * db <= nb) by (nonlinear_arith)
        requires
            da * qa <= na,
            na == a * reserve_out,
            nb == b * reserve_out,
            da == reserve_in + a,
            db == reserve_in + b,
            qa <= reserve_out,
            a <= b,
    ;
    assert(qa <= qb) by (nonlinear_arith)
        requires
            qa * db <= nb,
            nb == db * qb + nb % db,
            0 <= nb % db < db,
    ;
}

/// Swapping what was paid straight back gives no more than went in.
pub proof fn lemma_no_round_trip_profit(reserve_in: int, reserve_out: int, amount_in: int)
    requires
        0 < reserve_in,
        0 < reserve_out,
        0 <= amount_in,
    ensures
        ({
            let paid = constant_product_out(reserve_in, reserve_out, amount_in);
            constant_product_out(reserve_out - paid, reserve_in + amount_in, paid) <= amount_in
        }),
{
    let paid = constant_product_out(reserve_in, reserve_out, amount_in);
    let n = paid * (reserve_in + amount_in);
    lemma_fundamental_div_mod(amount_in * reserve_out, reserve_in + amount_in);
    assert((reserve_out - paid) + paid == reserve_out);
    assert(n <= amount_in * reserve_out) by (nonlinear_arith)
        requires
            n == paid * (reserve_in + amount_in),
            (reserve_in + amount_in) * paid <= amount_in * reserve_out,
    ;
    lemma_fundamental_div_mod(n, reserve_out);
    assert(n / reserve_out <= amount_in) by (nonlinear_arith)
        requires
            reserve_out * (n / reserve_out) <= n,
            n <= amount_in * reserve_out,
            0 < reserve_out,
    ;
}

/// A quoted swap charges no more than it takes in, pays out less than the reserve and no more than
/// the cash there is, and does not shrink the product of the reserves.
pub proof fn lemma_quote_is_covered(pair: OmnipairPair, amount_in: u64, input_mint: Pubkey)
    ensures
        pair.quote_result(amount_in, input_mint) matches Ok(quote) ==> {
            let (reserve_in, reserve_out, cash_out) = pair.reserves_for(input_mint == pair.token0);
            &&& quote.fee_amount <= amount_in
            &&& quote.amount_out < reserve_out
            &&& quote.amount_out <= cash_out
            &&& reserve_in * reserve_out <= (reserve_in + amount_in - quote.fee_amount) * (
            reserve_out - quote.amount_out)
        },
{
    if pair.quote_result(amount_in, input_mint) is Ok {
        let (reserve_in, reserve_out, cash_out) = pair.reserves_for(input_mint == pair.token0);
        let net = amount_in - charged_fee(amount_in as int, pair.swap_fee_bps as int);
        lemma_constant_product_out_bounds(reserve_in as int, reserve_out as int, net);
        lemma_product_never_shrinks(reserve_in as int, reserve_out as int, net);
    }
}

/// Where a fee is at most 100%, a swap that is smaller than one that is served is served too, and
/// is paid no more.
pub proof fn lemma_quote_monotone(pair: OmnipairPair, a: u64, b: u64, input_mint: Pubkey)
    requires
        pair.swap_fee_bps <= 10_000,
        a <= b,
    ensures
        pair.quote_result(b, input_mint) matches Ok(larger) ==> (pair.quote_result(
            a,
            input_mint,
        ) matches Ok(smaller) && smaller.amount_out <= larger.amount_out),
{
    if pair.quote_result(b, input_mint) is Ok {
        let (reserve_in, reserve_out, cash_out) = pair.reserves_for(input_mint == pair.token0);
        let bps = pair.swap_fee_bps as int;
        lemma_fee_within_amount(a, pair.swap_fee_bps);
        lemma_fee_within_amount(b, pair.swap_fee_bps);
        lemma_net_amount_monotone(a as int, b as int, bps);
        let net_a = a - charged_fee(a as int, bps);
        let net_b = b - charged_fee(b as int, bps);
        lemma_amount_out_monotone(reserve_in as int, reserve_out as int, net_a, net_b);
        lemma_constant_product_out_bounds(reserve_in as int, reserve_out as int, net_a);
        lemma_constant_product_out_bounds(reserve_in as int, reserve_out as int, net_b);
    }
}

/// Where a fee is at most 100%, a quote of a mint of the pair fails only for want of reserves or of
/// cash.
pub proof fn lemma_quote_failures(pair: OmnipairPair, amount_in: u64, input_mint: Pubkey)
    requires
        pair.swap_fee_bps <= 10_000,
        input_mint == pair.token0 || input_mint == pair.token1,
    ensures
        pair.quote_result(amount_in, input_mint) matches Err(error) ==> error
            == TradingVenueError::AmmMethodError(ErrorInfo::Message("invalid reserves")) || error
            == TradingVenueError::AmmMethodError(
            ErrorInfo::Message("insufficient cash reserve for output"),
        ),
{
    lemma_fee_within_amount(amount_in, pair.swap_fee_bps);
}

/// The pair with its two tokens exchanged.
pub open spec fn mirrored(pair: OmnipairPair) -> OmnipairPair {
    OmnipairPair {
        token0: pair.token1,
        token1: pair.token0,
        reserve0: pair.reserve1,
        reserve1: pair.reserve0,
        cash_reserve0: pair.cash_reserve1,
        cash_reserve1: pair.cash_reserve0,
        ..pair
    }
}

/// Which token comes first makes no difference to a quote.
pub proof fn lemma_quote_mirrored(pair: OmnipairPair, amount_in: u64, input_mint: Pubkey)
    requires
        pair.token0 != pair.token1,
    ensures
        mirrored(pair).quote_result(amount_in, input_mint) == pair.quote_result(
            amount_in,
            input_mint,
        ),
{
}

/// Without reserves there is no quote, and nothing is paid for nothing where there are some.
pub proof fn lemma_quote_of_nothing(pair: OmnipairPair, input_mint: Pubkey)
    requires
        input_mint == pair.token0 || input_mint == pair.token1,
    ensures
        pair.quote_result(0, input_mint) == (if pair.reserve0 == 0 || pair.reserve1 == 0 {
            Err::<SwapQuote, TradingVenueError>(
                TradingVenueError::AmmMethodError(ErrorInfo::Message("invalid reserves")),
            )
        } else {
            Ok::<SwapQuote, TradingVenueError>(SwapQuote { amount_out: 0, fee_amount: 0 })
        }),
{
    let (reserve_in, reserve_out, cash_out) = pair.reserves_for(input_mint == pair.token0);
    assert(0 * pair.swap_fee_bps == 0) by (nonlinear_arith);
    assert(0 * reserve_out == 0) by (nonlinear_arith);
    if reserve_in > 0 {
        lemma_fundamental_div_mod_converse(0, reserve_in as int, 0, 0);
    }
}

/// What a pool pays is all that the input buys at the new reserves, short of less than one unit.
pub proof fn lemma_amount_out_is_exact(reserve_in: int, reserve_out: int, amount_in: int)
    requires
        0 < reserve_in + amount_in,
    ensures
        ({
            let paid = constant_product_out(reserve_in, reserve_out, amount_in);
            paid * (reserve_in + amount_in) <= amount_in * reserve_out < (paid + 1) * (reserve_in
                + amount_in)
        }),
{
    let d = reserve_in + amount_in;
    let n = amount_in * reserve_out;
    let q = n / d;
    lemma_fundamental_div_mod(n, d);
    assert(q * d <= n < (q + 1) * d) by (nonlinear_arith)
        requires
            n == d * q + n % d,
            0 <= n % d < d,
    ;
}

/// A number that lies as a fee must is the fee that is charged.
proof fn lemma_charged_fee_is(amount_in: u64, fee_bps: u16, fee: int, laps: int)
    requires
        0 <= fee < 0x1_0000_0000_0000_0000,
        0 <= laps,
        amount_in * fee_bps <= (fee + laps * 0x1_0000_0000_0000_0000) * 10_000 < amount_in * fee_bps
            + 10_000,
    ensures
        charged_fee(amount_in as int, fee_bps as int) == fee,
{
    let n = amount_in * fee_bps;
    let f = fee + laps * 0x1_0000_0000_0000_0000;
    lemma_fundamental_div_mod_converse(n + 9_999, 10_000, f, n + 9_999 - f * 10_000);
    assert(swap_fee(amount_in as int, fee_bps as int) == f);
    lemma_fundamental_div_mod_converse(f, 0x1_0000_0000_0000_0000, laps, fee);
}

/// A number that lies as a payment must is what the pool pays.
proof fn lemma_amount_out_is(reserve_in: int, reserve_out: int, amount_in: int, amount_out: int)
    requires
        0 < reserve_in + amount_in,
        amount_out * (reserve_in + amount_in) <= amount_in * reserve_out < (amount_out + 1) * (
        reserve_in + amount_in),
    ensures
        constant_product_out(reserve_in, reserve_out, amount_in) == amount_out,
{
    let d = reserve_in + amount_in;
    let n = amount_in * reserve_out;
    let r = n - amount_out * d;
    assert(n == amount_out * d + r && 0 <= r < d) by (nonlinear_arith)
        requires
            r == n - amount_out * d,
            amount_out * d <= n < (amount_out + 1) * d,
    ;
    lemma_fundamental_div_mod_converse(n, d, amount_out, r);
}

/// Token 0 is sold for token 1 out of the reserves and the cash of token 1. `fee` is the share of
/// the input, rounded up to a whole unit, less the `laps` by which it runs over 64 bits (none, for
/// a fee of up to 100%); `amount_out` is what the rest of the input buys, rounded down.
pub proof fn lemma_sale_of_token0(
    pair: OmnipairPair,
    amount_in: u64,
    fee: int,
    laps: int,
    amount_out: int,
)
    requires
        pair.reserve0 > 0,
        pair.reserve1 > 0,
        0 <= fee < 0x1_0000_0000_0000_0000,
        0 <= laps,
        amount_in * pair.swap_fee_bps <= (fee + laps * 0x1_0000_0000_0000_0000) * 10_000
            < amount_in * pair.swap_fee_bps + 10_000,
        fee <= amount_in ==> amount_out * (pair.reserve0 + (amount_in - fee)) <= (amount_in - fee)
            * pair.reserve1 < (amount_out + 1) * (pair.reserve0 + (amount_in - fee)),
    ensures
        fee > amount_in ==> pair.quote_result(amount_in, pair.token0) == Err::<
            SwapQuote,
            TradingVenueError,
        >(TradingVenueError::MathError(ErrorInfo::Message("amount after fee underflow"))),
        fee <= amount_in && amount_out > pair.cash_reserve1 ==> pair.quote_result(
            amount_in,
            pair.token0,
        ) == Err::<SwapQuote, TradingVenueError>(
            TradingVenueError::AmmMethodError(
                ErrorInfo::Message("insufficient cash reserve for output"),
            ),
        ),
        fee <= amount_in && amount_out <= pair.cash_reserve1 ==> (pair.quote_result(
            amount_in,
            pair.token0,
        ) matches Ok(quote) && quote.amount_out == amount_out && quote.fee_amount == fee),
{
    lemma_charged_fee_is(amount_in, pair.swap_fee_bps, fee, laps);
    if fee <= amount_in {
        let (rin, rout) = (pair.reserve0 as int, pair.reserve1 as int);
        lemma_amount_out_is(rin, rout, amount_in - fee, amount_out);
        lemma_constant_product_out_bounds(rin, rout, amount_in - fee);
    }
}

/// Token 1 is sold for token 0 in the same way, out of the reserves and the cash of token 0.
pub proof fn lemma_sale_of_token1(
    pair: OmnipairPair,
    amount_in: u64,
    fee: int,
    laps: int,
    amount_out: int,
)
    requires
        pair.token1 != pair.token0,
        pair.reserve0 > 0,
        pair.reserve1 > 0,
        0 <= fee < 0x1_0000_0000_0000_0000,
        0 <= laps,
        amount_in * pair.swap_fee_bps <= (fee + laps * 0x1_0000_0000_0000_0000) * 10_000
            < amount_in * pair.swap_fee_bps + 10_000,
        fee <= amount_in ==> amount_out * (pair.reserve1 + (amount_in - fee)) <= (amount_in - fee)
            * pair.reserve0 < (amount_out + 1) * (pair.reserve1 + (amount_in - fee)),
    ensures
        fee > amount_in ==> pair.quote_result(amount_in, pair.token1) == Err::<
            SwapQuote,
            TradingVenueError,
        >(TradingVenueError::MathError(ErrorInfo::Message("amount after fee underflow"))),
        fee <= amount_in && amount_out > pair.cash_reserve0 ==> pair.quote_result(
            amount_in,
            pair.token1,
        ) == Err::<SwapQuote, TradingVenueError>(
            TradingVenueError::AmmMethodError(
                ErrorInfo::Message("insufficient cash reserve for output"),
            ),
        ),
        fee <= amount_in && amount_out <= pair.cash_reserve0 ==> (pair.quote_result(
            amount_in,
            pair.token1,
        ) matches Ok(quote) && quote.amount_out == amount_out && quote.fee_amount == fee),
{
    lemma_charged_fee_is(amount_in, pair.swap_fee_bps, fee, laps);
    if fee <= amount_in {
        let (rin, rout) = (pair.reserve1 as int, pair.reserve0 as int);
        lemma_amount_out_is(rin, rout, amount_in - fee, amount_out);
        lemma_constant_product_out_bounds(rin, rout, amount_in - fee);
    }
}

/// A mint that the pair does not trade is refused, whatever the reserves; one that it trades is
/// refused where a reserve is empty, whatever the amount.
pub proof fn lemma_quote_refusals(pair: OmnipairPair, amount_in: u64, input_mint: Pubkey)
    ensures
        input_mint != pair.token0 && input_mint != pair.token1 ==> pair.quote_result(
            amount_in,
            input_mint,
        ) == Err::<SwapQuote, TradingVenueError>(
            TradingVenueError::InvalidMint(ErrorInfo::Key(input_mint)),
        ),
        (input_mint == pair.token0 || input_mint == pair.token1) && (pair.reserve0 == 0
            || pair.reserve1 == 0) ==> pair.quote_result(amount_in, input_mint) == Err::<
            SwapQuote,
            TradingVenueError,
        >(TradingVenueError::AmmMethodError(ErrorInfo::Message("invalid reserves"))),
{
}

/// Where a fee is at most 100%, both reserves are there and are there in cash, either mint of the
/// pair can be sold, in any amount.
pub proof fn lemma_either_mint_is_quoted(pair: OmnipairPair, amount_in: u64, input_mint: Pubkey)
    requires
        pair.swap_fee_bps <= 10_000,
        input_mint == pair.token0 || input_mint == pair.token1,
        0 < pair.reserve0 <= pair.cash_reserve0,
        0 < pair.reserve1 <= pair.cash_reserve1,
    ensures
        pair.quote_result(amount_in, input_mint) is Ok,
{
    lemma_fee_within_amount(amount_in, pair.swap_fee_bps);
    let net = amount_in - charged_fee(amount_in as int, pair.swap_fee_bps as int);
    lemma_constant_product_out_bounds(pair.reserve0 as int, pair.reserve1 as int, net);
    lemma_constant_product_out_bounds(pair.reserve1 as int, pair.reserve0 as int, net);
}

} // verus!
