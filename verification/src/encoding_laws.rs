//! Where each field of an account stands in its data.

use vstd::prelude::*;

use crate::clock::clock_slot_result;
use crate::encoding::{
    futarchy_authority_bytes, futarchy_authority_result, holds_futarchy_authority, holds_pair,
    holds_rate_model, lemma_futarchy_authority_prefix_shaped, lemma_pair_prefix_shaped, pair_bytes,
    pair_debts_bytes, pair_keys_bytes, pair_rates_bytes, pair_reserves_bytes, pair_result,
    pair_setup_bytes, pair_terms_bytes, pair_totals_bytes, price_ema_bytes, rate_model_bytes,
    rate_model_result, revenue_distribution_bytes, revenue_recipients_bytes, revenue_share_bytes,
    vault_bumps_bytes,
};
use crate::error::{ErrorInfo, TradingVenueError};
use crate::layout::{
    bool_bytes, le_bytes, le_value, lemma_byte_powers, lemma_le_value_bound,
    lemma_le_value_of_bytes, option_u16_bytes,
};
use crate::state::{OmnipairFutarchyAuthority, OmnipairPair, OmnipairRateModel};

verus! {

broadcast use crate::layout::lemma_le_bytes_len;

/// Bytes that stand in `s` at `at`.
spec fn stands_at(s: Seq<u8>, at: int, part: Seq<u8>) -> bool {
    &&& 0 <= at
    &&& at + part.len() <= s.len()
    &&& s.subrange(at, at + part.len()) == part
}

/// What stands at the front or the back of a part stands in the whole.
proof fn lemma_part_of_part(s: Seq<u8>, at: int, front: Seq<u8>, back: Seq<u8>)
    requires
        stands_at(s, at, front + back),
    ensures
        stands_at(s, at, front),
        stands_at(s, at + front.len(), back),
{
    let whole = s.subrange(at, at + (front + back).len());
    assert(whole == front + back);
    assert forall|i: int| 0 <= i < front.len() implies s[at + i] == front[i] by {
        assert(whole[i] == (front + back)[i]);
    }
    assert forall|i: int| 0 <= i < back.len() implies s[at + front.len() + i] == back[i] by {
        assert(whole[front.len() + i] == (front + back)[front.len() + i]);
    }
    assert(s.subrange(at, at + front.len()) =~= front);
    assert(s.subrange(at + front.len(), at + front.len() + back.len()) =~= back);
}

/// A number of two bytes is read where it stands.
proof fn lemma_u16_at(s: Seq<u8>, at: int, v: u16)
    requires
        stands_at(s, at, le_bytes(v as nat, 2)),
    ensures
        v as nat == le_value(s.subrange(at, at + 2)),
{
    lemma_byte_powers();
    lemma_le_value_of_bytes(v as nat, 2);
}

/// A number of eight bytes is read where it stands.
proof fn lemma_u64_at(s: Seq<u8>, at: int, v: u64)
    requires
        stands_at(s, at, le_bytes(v as nat, 8)),
    ensures
        v as nat == le_value(s.subrange(at, at + 8)),
{
    lemma_byte_powers();
    lemma_le_value_of_bytes(v as nat, 8);
}

/// A number of sixteen bytes is read where it stands.
proof fn lemma_u128_at(s: Seq<u8>, at: int, v: u128)
    requires
        stands_at(s, at, le_bytes(v as nat, 16)),
    ensures
        v as nat == le_value(s.subrange(at, at + 16)),
{
    lemma_byte_powers();
    lemma_le_value_of_bytes(v as nat, 16);
}

/// A byte is read where it stands.
proof fn lemma_u8_at(s: Seq<u8>, at: int, v: u8)
    requires
        stands_at(s, at, seq![v]),
    ensures
        s[at] == v,
{
    assert(s.subrange(at, at + 1)[0] == seq![v][0]);
}

/// Two numbers of eight bytes, one behind the other.
proof fn lemma_two_u64_at(s: Seq<u8>, at: int, a: u64, b: u64)
    requires
        stands_at(s, at, le_bytes(a as nat, 8) + le_bytes(b as nat, 8)),
    ensures
        a as nat == le_value(s.subrange(at, at + 8)),
        b as nat == le_value(s.subrange(at + 8, at + 16)),
{
    lemma_part_of_part(s, at, le_bytes(a as nat, 8), le_bytes(b as nat, 8));
    lemma_u64_at(s, at, a);
    lemma_u64_at(s, at + 8, b);
}

/// How many bytes the accounts take behind the discriminator.
pub proof fn lemma_account_lengths(
    p: OmnipairPair,
    r: OmnipairRateModel,
    v: OmnipairFutarchyAuthority,
)
    ensures
        pair_bytes(p).len() == (if p.fixed_cf_bps is Some { 342int } else { 340 }),
        rate_model_bytes(r).len() == 56,
        futarchy_authority_bytes(v).len() == 141,
{
}

/// Where the sections of a pair stand; `t` is what the optional field takes besides its tag.
proof fn lemma_pair_sections(data: Seq<u8>, p: OmnipairPair)
    requires
        data.len() >= 8,
        holds_pair(data, p),
    ensures
        data.len() >= 348 + (if p.fixed_cf_bps is Some { 2int } else { 0 }),
        data[146] == (if p.fixed_cf_bps is Some { 1u8 } else { 0u8 }),
        ({
            let t: int = if p.fixed_cf_bps is Some { 2 } else { 0 };
            &&& stands_at(data, 8, pair_keys_bytes(p))
            &&& stands_at(data, 136, pair_terms_bytes(p))
            &&& stands_at(data, 147 + t, pair_reserves_bytes(p))
            &&& stands_at(data, 179 + t, pair_rates_bytes(p))
            &&& stands_at(data, 235 + t, pair_debts_bytes(p))
            &&& stands_at(data, 283 + t, pair_totals_bytes(p))
            &&& stands_at(data, 307 + t, pair_setup_bytes(p))
        }),
{
    lemma_pair_prefix_shaped(p, data.skip(8));
    assert(data[146] == data.skip(8)[138]);
    let (k, te, re, ra, de, to, se) = (
        pair_keys_bytes(p),
        pair_terms_bytes(p),
        pair_reserves_bytes(p),
        pair_rates_bytes(p),
        pair_debts_bytes(p),
        pair_totals_bytes(p),
        pair_setup_bytes(p),
    );
    let bytes = pair_bytes(p);
    let n = bytes.len() as int;
    assert(data.subrange(8, 8 + n) =~= data.skip(8).subrange(0, n));
    assert(stands_at(data, 8, bytes));
    lemma_part_of_part(data, 8, k + te + re + ra + de + to, se);
    lemma_part_of_part(data, 8, k + te + re + ra + de, to);
    lemma_part_of_part(data, 8, k + te + re + ra, de);
    lemma_part_of_part(data, 8, k + te + re, ra);
    lemma_part_of_part(data, 8, k + te, re);
    lemma_part_of_part(data, 8, k, te);
}

/// The mints and accounts that a pair names, and its terms, stand in this order behind the
/// discriminator.
pub proof fn lemma_pair_keys_and_terms_stand(data: Seq<u8>, p: OmnipairPair)
    requires
        pair_result(data) == Ok::<OmnipairPair, TradingVenueError>(p),
    ensures
        data.len() >= 147,
        p.token0.bytes@ == data.subrange(8, 40),
        p.token1.bytes@ == data.subrange(40, 72),
        p.lp_mint.bytes@ == data.subrange(72, 104),
        p.rate_model.bytes@ == data.subrange(104, 136),
        p.swap_fee_bps as nat == le_value(data.subrange(136, 138)),
        p.half_life as nat == le_value(data.subrange(138, 146)),
        data[146] == 0 || data[146] == 1,
        p.fixed_cf_bps is Some <==> data[146] == 1,
        p.fixed_cf_bps matches Some(bps) ==> bps as nat == le_value(data.subrange(147, 149)),
{
    lemma_pair_sections(data, p);
    lemma_part_of_part(data, 8, p.token0@ + p.token1@ + p.lp_mint@, p.rate_model@);
    lemma_part_of_part(data, 8, p.token0@ + p.token1@, p.lp_mint@);
    lemma_part_of_part(data, 8, p.token0@, p.token1@);
    let fee = le_bytes(p.swap_fee_bps as nat, 2);
    let half_life = le_bytes(p.half_life as nat, 8);
    let fixed = option_u16_bytes(p.fixed_cf_bps);
    lemma_part_of_part(data, 136, fee + half_life, fixed);
    lemma_part_of_part(data, 136, fee, half_life);
    lemma_u16_at(data, 136, p.swap_fee_bps);
    lemma_u64_at(data, 138, p.half_life);
    if let Some(bps) = p.fixed_cf_bps {
        lemma_part_of_part(data, 146, seq![1u8], le_bytes(bps as nat, 2));
        lemma_u16_at(data, 147, bps);
    }
}

/// The reserves of a pair, its cash and its prices and rates stand in this order behind the
/// optional field, which takes two bytes more where it is there.
pub proof fn lemma_pair_reserves_and_rates_stand(data: Seq<u8>, p: OmnipairPair)
    requires
        pair_result(data) == Ok::<OmnipairPair, TradingVenueError>(p),
    ensures
        ({
            let t = 2 * data[146];
            &&& data.len() >= 348 + t
            &&& p.reserve0 as nat == le_value(data.subrange(147 + t, 155 + t))
            &&& p.reserve1 as nat == le_value(data.subrange(155 + t, 163 + t))
            &&& p.cash_reserve0 as nat == le_value(data.subrange(163 + t, 171 + t))
            &&& p.cash_reserve1 as nat == le_value(data.subrange(171 + t, 179 + t))
            &&& p.last_price0_ema.symmetric as nat == le_value(data.subrange(179 + t, 187 + t))
            &&& p.last_price0_ema.directional as nat == le_value(data.subrange(187 + t, 195 + t))
            &&& p.last_price1_ema.symmetric as nat == le_value(data.subrange(195 + t, 203 + t))
            &&& p.last_price1_ema.directional as nat == le_value(data.subrange(203 + t, 211 + t))
            &&& p.last_update as nat == le_value(data.subrange(211 + t, 219 + t))
            &&& p.last_rate0 as nat == le_value(data.subrange(219 + t, 227 + t))
            &&& p.last_rate1 as nat == le_value(data.subrange(227 + t, 235 + t))
        }),
{
    lemma_pair_sections(data, p);
    let t = 2 * data[146];
    let (r0, r1, c0, c1) = (
        le_bytes(p.reserve0 as nat, 8),
        le_bytes(p.reserve1 as nat, 8),
        le_bytes(p.cash_reserve0 as nat, 8),
        le_bytes(p.cash_reserve1 as nat, 8),
    );
    lemma_part_of_part(data, 147 + t, r0 + r1 + c0, c1);
    lemma_part_of_part(data, 147 + t, r0 + r1, c0);
    lemma_part_of_part(data, 147 + t, r0, r1);
    lemma_u64_at(data, 147 + t, p.reserve0);
    lemma_u64_at(data, 155 + t, p.reserve1);
    lemma_u64_at(data, 163 + t, p.cash_reserve0);
    lemma_u64_at(data, 171 + t, p.cash_reserve1);
    let (e0, e1, up, l0, l1) = (
        price_ema_bytes(p.last_price0_ema),
        price_ema_bytes(p.last_price1_ema),
        le_bytes(p.last_update as nat, 8),
        le_bytes(p.last_rate0 as nat, 8),
        le_bytes(p.last_rate1 as nat, 8),
    );
    lemma_part_of_part(data, 179 + t, e0 + e1 + up + l0, l1);
    lemma_part_of_part(data, 179 + t, e0 + e1 + up, l0);
    lemma_part_of_part(data, 179 + t, e0 + e1, up);
    lemma_part_of_part(data, 179 + t, e0, e1);
    lemma_two_u64_at(
        data,
        179 + t,
        p.last_price0_ema.symmetric,
        p.last_price0_ema.directional,
    );
    lemma_two_u64_at(
        data,
        195 + t,
        p.last_price1_ema.symmetric,
        p.last_price1_ema.directional,
    );
    lemma_u64_at(data, 211 + t, p.last_update);
    lemma_u64_at(data, 219 + t, p.last_rate0);
    lemma_u64_at(data, 227 + t, p.last_rate1);
}

/// The debts of a pair, its totals and how it is set up stand in this order behind its rates.
pub proof fn lemma_pair_debts_and_setup_stand(data: Seq<u8>, p: OmnipairPair)
    requires
        pair_result(data) == Ok::<OmnipairPair, TradingVenueError>(p),
    ensures
        ({
            let t = 2 * data[146];
            &&& data.len() >= 348 + t
            &&& p.total_debt0 as nat == le_value(data.subrange(235 + t, 243 + t))
            &&& p.total_debt1 as nat == le_value(data.subrange(243 + t, 251 + t))
            &&& p.total_debt0_shares as nat == le_value(data.subrange(251 + t, 267 + t))
            &&& p.total_debt1_shares as nat == le_value(data.subrange(267 + t, 283 + t))
            &&& p.total_supply as nat == le_value(data.subrange(283 + t, 291 + t))
            &&& p.total_collateral0 as nat == le_value(data.subrange(291 + t, 299 + t))
            &&& p.total_collateral1 as nat == le_value(data.subrange(299 + t, 307 + t))
            &&& p.token0_decimals == data[307 + t]
            &&& p.token1_decimals == data[308 + t]
            &&& p.params_hash@ == data.subrange(309 + t, 341 + t)
            &&& p.version == data[341 + t]
            &&& p.bump == data[342 + t]
            &&& p.vault_bumps.reserve0 == data[343 + t]
            &&& p.vault_bumps.reserve1 == data[344 + t]
            &&& p.vault_bumps.collateral0 == data[345 + t]
            &&& p.vault_bumps.collateral1 == data[346 + t]
            &&& data[347 + t] == (if p.reduce_only { 1u8 } else { 0u8 })
        }),
{
    lemma_pair_sections(data, p);
    let t = 2 * data[146];
    let (d0, d1, s0, s1) = (
        le_bytes(p.total_debt0 as nat, 8),
        le_bytes(p.total_debt1 as nat, 8),
        le_bytes(p.total_debt0_shares as nat, 16),
        le_bytes(p.total_debt1_shares as nat, 16),
    );
    lemma_part_of_part(data, 235 + t, d0 + d1 + s0, s1);
    lemma_part_of_part(data, 235 + t, d0 + d1, s0);
    lemma_two_u64_at(data, 235 + t, p.total_debt0, p.total_debt1);
    lemma_u128_at(data, 251 + t, p.total_debt0_shares);
    lemma_u128_at(data, 267 + t, p.total_debt1_shares);
    let (su, k0, k1) = (
        le_bytes(p.total_supply as nat, 8),
        le_bytes(p.total_collateral0 as nat, 8),
        le_bytes(p.total_collateral1 as nat, 8),
    );
    lemma_part_of_part(data, 283 + t, su + k0, k1);
    lemma_two_u64_at(data, 283 + t, p.total_supply, p.total_collateral0);
    lemma_u64_at(data, 299 + t, p.total_collateral1);
    let (m0, m1, h, v, b, vb, ro) = (
        seq![p.token0_decimals],
        seq![p.token1_decimals],
        p.params_hash@,
        seq![p.version],
        seq![p.bump],
        vault_bumps_bytes(p.vault_bumps),
        bool_bytes(p.reduce_only),
    );
    lemma_part_of_part(data, 307 + t, m0 + m1 + h + v + b + vb, ro);
    lemma_part_of_part(data, 307 + t, m0 + m1 + h + v + b, vb);
    lemma_part_of_part(data, 307 + t, m0 + m1 + h + v, b);
    lemma_part_of_part(data, 307 + t, m0 + m1 + h, v);
    lemma_part_of_part(data, 307 + t, m0 + m1, h);
    lemma_part_of_part(data, 307 + t, m0, m1);
    lemma_u8_at(data, 307 + t, p.token0_decimals);
    lemma_u8_at(data, 308 + t, p.token1_decimals);
    lemma_u8_at(data, 341 + t, p.version);
    lemma_u8_at(data, 342 + t, p.bump);
    let (v0, v1, v2, v3) = (
        seq![p.vault_bumps.reserve0],
        seq![p.vault_bumps.reserve1],
        seq![p.vault_bumps.collateral0],
        seq![p.vault_bumps.collateral1],
    );
    lemma_part_of_part(data, 343 + t, v0 + v1 + v2, v3);
    lemma_part_of_part(data, 343 + t, v0 + v1, v2);
    lemma_part_of_part(data, 343 + t, v0, v1);
    lemma_u8_at(data, 343 + t, p.vault_bumps.reserve0);
    lemma_u8_at(data, 344 + t, p.vault_bumps.reserve1);
    lemma_u8_at(data, 345 + t, p.vault_bumps.collateral0);
    lemma_u8_at(data, 346 + t, p.vault_bumps.collateral1);
    lemma_u8_at(data, 347 + t, if p.reduce_only { 1u8 } else { 0u8 });
}

/// Data are refused as a pair where bytes are missing, and where the tag of the optional field or
/// the flag is neither 0 nor 1.
pub proof fn lemma_pair_refusals(data: Seq<u8>)
    ensures
        data.len() < 8 ==> pair_result(data) == Err::<OmnipairPair, TradingVenueError>(
            TradingVenueError::DeserializationFailed(
                ErrorInfo::Message("omnipair pair data too short"),
            ),
        ),
        data.len() >= 8 && (data.len() < 147 || data[146] > 1 || data.len() < 348 + 2 * data[146]
            || data[347 + 2 * data[146]] > 1) ==> pair_result(data) == Err::<
            OmnipairPair,
            TradingVenueError,
        >(
            TradingVenueError::DeserializationFailed(
                ErrorInfo::Message("omnipair pair anchor decode"),
            ),
        ),
{
    if data.len() >= 8 && pair_result(data) is Ok {
        let p = pair_result(data)->Ok_0;
        lemma_pair_keys_and_terms_stand(data, p);
        lemma_pair_debts_and_setup_stand(data, p);
    }
}

/// The fields of a rate model stand in this order behind the discriminator.
pub proof fn lemma_rate_model_stands(data: Seq<u8>, r: OmnipairRateModel)
    requires
        rate_model_result(data) == Ok::<OmnipairRateModel, TradingVenueError>(r),
    ensures
        data.len() >= 64,
        r.exp_rate as nat == le_value(data.subrange(8, 16)),
        r.target_util_start as nat == le_value(data.subrange(16, 24)),
        r.target_util_end as nat == le_value(data.subrange(24, 32)),
        r.half_life_ms as nat == le_value(data.subrange(32, 40)),
        r.min_rate as nat == le_value(data.subrange(40, 48)),
        r.max_rate as nat == le_value(data.subrange(48, 56)),
        r.initial_rate as nat == le_value(data.subrange(56, 64)),
{
    assert(holds_rate_model(data, r));
    let bytes = rate_model_bytes(r);
    assert(data.subrange(8, 64) =~= data.skip(8).subrange(0, 56));
    assert(stands_at(data, 8, bytes));
    let (a, b, c, d, e, f, g) = (
        le_bytes(r.exp_rate as nat, 8),
        le_bytes(r.target_util_start as nat, 8),
        le_bytes(r.target_util_end as nat, 8),
        le_bytes(r.half_life_ms as nat, 8),
        le_bytes(r.min_rate as nat, 8),
        le_bytes(r.max_rate as nat, 8),
        le_bytes(r.initial_rate as nat, 8),
    );
    lemma_part_of_part(data, 8, a + b + c + d + e + f, g);
    lemma_part_of_part(data, 8, a + b + c + d + e, f);
    lemma_part_of_part(data, 8, a + b + c + d, e);
    lemma_part_of_part(data, 8, a + b + c, d);
    lemma_part_of_part(data, 8, a + b, c);
    lemma_part_of_part(data, 8, a, b);
    lemma_u64_at(data, 8, r.exp_rate);
    lemma_u64_at(data, 16, r.target_util_start);
    lemma_u64_at(data, 24, r.target_util_end);
    lemma_u64_at(data, 32, r.half_life_ms);
    lemma_u64_at(data, 40, r.min_rate);
    lemma_u64_at(data, 48, r.max_rate);
    lemma_u64_at(data, 56, r.initial_rate);
}

/// Data are refused as a rate model where bytes are missing.
pub proof fn lemma_rate_model_refusals(data: Seq<u8>)
    ensures
        data.len() < 8 ==> rate_model_result(data) == Err::<OmnipairRateModel, TradingVenueError>(
            TradingVenueError::DeserializationFailed(
                ErrorInfo::Message("omnipair rate model data too short"),
            ),
        ),
        8 <= data.len() < 64 ==> rate_model_result(data) == Err::<
            OmnipairRateModel,
            TradingVenueError,
        >(
            TradingVenueError::DeserializationFailed(
                ErrorInfo::Message("omnipair rate model anchor decode"),
            ),
        ),
{
    if data.len() >= 8 && rate_model_result(data) is Ok {
        lemma_rate_model_stands(data, rate_model_result(data)->Ok_0);
    }
}

/// The fields of a futarchy authority stand in this order behind the discriminator.
pub proof fn lemma_futarchy_authority_stands(data: Seq<u8>, v: OmnipairFutarchyAuthority)
    requires
        futarchy_authority_result(data) == Ok::<OmnipairFutarchyAuthority, TradingVenueError>(v),
    ensures
        data.len() >= 149,
        v.version == data[8],
        v.authority.bytes@ == data.subrange(9, 41),
        v.recipients.futarchy_treasury.bytes@ == data.subrange(41, 73),
        v.recipients.buybacks_vault.bytes@ == data.subrange(73, 105),
        v.recipients.team_treasury.bytes@ == data.subrange(105, 137),
        v.revenue_share.swap_bps as nat == le_value(data.subrange(137, 139)),
        v.revenue_share.interest_bps as nat == le_value(data.subrange(139, 141)),
        v.revenue_distribution.futarchy_treasury_bps as nat == le_value(data.subrange(141, 143)),
        v.revenue_distribution.buybacks_vault_bps as nat == le_value(data.subrange(143, 145)),
        v.revenue_distribution.team_treasury_bps as nat == le_value(data.subrange(145, 147)),
        data[147] == (if v.global_reduce_only { 1u8 } else { 0u8 }),
        v.bump == data[148],
{
    assert(holds_futarchy_authority(data, v));
    lemma_futarchy_authority_prefix_shaped(v, data.skip(8));
    let bytes = futarchy_authority_bytes(v);
    assert(data.subrange(8, 149) =~= data.skip(8).subrange(0, 141));
    assert(stands_at(data, 8, bytes));
    let (ve, au, re, sh, di, ro, bu) = (
        seq![v.version],
        v.authority@,
        revenue_recipients_bytes(v.recipients),
        revenue_share_bytes(v.revenue_share),
        revenue_distribution_bytes(v.revenue_distribution),
        bool_bytes(v.global_reduce_only),
        seq![v.bump],
    );
    lemma_part_of_part(data, 8, ve + au + re + sh + di + ro, bu);
    lemma_part_of_part(data, 8, ve + au + re + sh + di, ro);
    lemma_part_of_part(data, 8, ve + au + re + sh, di);
    lemma_part_of_part(data, 8, ve + au + re, sh);
    lemma_part_of_part(data, 8, ve + au, re);
    lemma_part_of_part(data, 8, ve, au);
    lemma_u8_at(data, 8, v.version);
    let (r0, r1, r2) = (
        v.recipients.futarchy_treasury@,
        v.recipients.buybacks_vault@,
        v.recipients.team_treasury@,
    );
    lemma_part_of_part(data, 41, r0 + r1, r2);
    lemma_part_of_part(data, 41, r0, r1);
    lemma_part_of_part(
        data,
        137,
        le_bytes(v.revenue_share.swap_bps as nat, 2),
        le_bytes(v.revenue_share.interest_bps as nat, 2),
    );
    lemma_u16_at(data, 137, v.revenue_share.swap_bps);
    lemma_u16_at(data, 139, v.revenue_share.interest_bps);
    let (d0, d1, d2) = (
        le_bytes(v.revenue_distribution.futarchy_treasury_bps as nat, 2),
        le_bytes(v.revenue_distribution.buybacks_vault_bps as nat, 2),
        le_bytes(v.revenue_distribution.team_treasury_bps as nat, 2),
    );
    lemma_part_of_part(data, 141, d0 + d1, d2);
    lemma_part_of_part(data, 141, d0, d1);
    lemma_u16_at(data, 141, v.revenue_distribution.futarchy_treasury_bps);
    lemma_u16_at(data, 143, v.revenue_distribution.buybacks_vault_bps);
    lemma_u16_at(data, 145, v.revenue_distribution.team_treasury_bps);
    lemma_u8_at(data, 147, if v.global_reduce_only { 1u8 } else { 0u8 });
    lemma_u8_at(data, 148, v.bump);
}

/// Data are refused as a futarchy authority where bytes are missing, and where the flag is neither
/// 0 nor 1.
pub proof fn lemma_futarchy_authority_refusals(data: Seq<u8>)
    ensures
        data.len() < 8 ==> futarchy_authority_result(data) == Err::<
            OmnipairFutarchyAuthority,
            TradingVenueError,
        >(
            TradingVenueError::DeserializationFailed(
                ErrorInfo::Message("omnipair futarchy authority data too short"),
            ),
        ),
        data.len() >= 8 && (data.len() < 149 || data[147] > 1) ==> futarchy_authority_result(data)
            == Err::<OmnipairFutarchyAuthority, TradingVenueError>(
            TradingVenueError::DeserializationFailed(
                ErrorInfo::Message("omnipair futarchy anchor decode"),
            ),
        ),
{
    if data.len() >= 8 && futarchy_authority_result(data) is Ok {
        lemma_futarchy_authority_stands(data, futarchy_authority_result(data)->Ok_0);
    }
}

/// The slot is the number that the first eight of a clock's forty bytes stand for; fewer bytes are
/// no clock.
pub proof fn lemma_clock_slot_stands(data: Seq<u8>)
    ensures
        data.len() >= 40 ==> (clock_slot_result(data) matches Ok(slot) && slot as nat == le_value(
            data.subrange(0, 8),
        )),
        data.len() < 40 ==> clock_slot_result(data) == Err::<u64, TradingVenueError>(
            TradingVenueError::DeserializationFailed(ErrorInfo::Message("clock sysvar")),
        ),
{
    if data.len() >= 40 {
        let s = data.take(8);
        assert(s =~= data.subrange(0, 8));
        lemma_le_value_bound(s);
        lemma_byte_powers();
    }
}

} // verus!
