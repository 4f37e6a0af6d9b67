//! The layout of Omnipair accounts: a discriminator of eight bytes, then the fields in order.

use vstd::prelude::*;

use crate::error::{ErrorInfo, TradingVenueError};
use crate::layout::{
    bool_bytes, le_bytes, lemma_byte_powers, lemma_le_bytes_injective, lemma_split_equal,
    option_u16_bytes,
};
use crate::pubkey::{lemma_pubkey_view_injective, Pubkey};
use crate::state::{
    LastPriceEMA, OmnipairFutarchyAuthority, OmnipairPair, OmnipairRateModel, RevenueDistribution,
    RevenueRecipients, RevenueShare, VaultBumps,
};

verus! {

broadcast use crate::layout::lemma_le_bytes_len;

pub open spec fn vault_bumps_bytes(v: VaultBumps) -> Seq<u8> {
    seq![v.reserve0] + seq![v.reserve1] + seq![v.collateral0] + seq![v.collateral1]
}

pub open spec fn price_ema_bytes(v: LastPriceEMA) -> Seq<u8> {
    le_bytes(v.symmetric as nat, 8) + le_bytes(v.directional as nat, 8)
}

pub open spec fn rate_model_bytes(v: OmnipairRateModel) -> Seq<u8> {
    le_bytes(v.exp_rate as nat, 8) + le_bytes(v.target_util_start as nat, 8) + le_bytes(
        v.target_util_end as nat,
        8,
    ) + le_bytes(v.half_life_ms as nat, 8) + le_bytes(v.min_rate as nat, 8) + le_bytes(
        v.max_rate as nat,
        8,
    ) + le_bytes(v.initial_rate as nat, 8)
}

pub open spec fn revenue_share_bytes(v: RevenueShare) -> Seq<u8> {
    le_bytes(v.swap_bps as nat, 2) + le_bytes(v.interest_bps as nat, 2)
}

pub open spec fn revenue_recipients_bytes(v: RevenueRecipients) -> Seq<u8> {
    v.futarchy_treasury@ + v.buybacks_vault@ + v.team_treasury@
}

pub open spec fn revenue_distribution_bytes(v: RevenueDistribution) -> Seq<u8> {
    le_bytes(v.futarchy_treasury_bps as nat, 2) + le_bytes(v.buybacks_vault_bps as nat, 2)
        + le_bytes(v.team_treasury_bps as nat, 2)
}

pub open spec fn futarchy_authority_bytes(v: OmnipairFutarchyAuthority) -> Seq<u8> {
    seq![v.version] + v.authority@ + revenue_recipients_bytes(v.recipients) + revenue_share_bytes(
        v.revenue_share,
    ) + revenue_distribution_bytes(v.revenue_distribution) + bool_bytes(v.global_reduce_only) + seq![
        v.bump,
    ]
}

/// The mints and accounts that a pair names.
pub open spec fn pair_keys_bytes(v: OmnipairPair) -> Seq<u8> {
    v.token0@ + v.token1@ + v.lp_mint@ + v.rate_model@
}

/// The terms that a pair was set up with.
pub open spec fn pair_terms_bytes(v: OmnipairPair) -> Seq<u8> {
    le_bytes(v.swap_fee_bps as nat, 2) + le_bytes(v.half_life as nat, 8) + option_u16_bytes(
        v.fixed_cf_bps,
    )
}

pub open spec fn pair_reserves_bytes(v: OmnipairPair) -> Seq<u8> {
    le_bytes(v.reserve0 as nat, 8) + le_bytes(v.reserve1 as nat, 8) + le_bytes(
        v.cash_reserve0 as nat,
        8,
    ) + le_bytes(v.cash_reserve1 as nat, 8)
}

pub open spec fn pair_rates_bytes(v: OmnipairPair) -> Seq<u8> {
    price_ema_bytes(v.last_price0_ema) + price_ema_bytes(v.last_price1_ema) + le_bytes(
        v.last_update as nat,
        8,
    ) + le_bytes(v.last_rate0 as nat, 8) + le_bytes(v.last_rate1 as nat, 8)
}

pub open spec fn pair_debts_bytes(v: OmnipairPair) -> Seq<u8> {
    le_bytes(v.total_debt0 as nat, 8) + le_bytes(v.total_debt1 as nat, 8) + le_bytes(
        v.total_debt0_shares as nat,
        16,
    ) + le_bytes(v.total_debt1_shares as nat, 16)
}

pub open spec fn pair_totals_bytes(v: OmnipairPair) -> Seq<u8> {
    le_bytes(v.total_supply as nat, 8) + le_bytes(v.total_collateral0 as nat, 8) + le_bytes(
        v.total_collateral1 as nat,
        8,
    )
}

pub open spec fn pair_setup_bytes(v: OmnipairPair) -> Seq<u8> {
    seq![v.token0_decimals] + seq![v.token1_decimals] + v.params_hash@ + seq![v.version] + seq![
        v.bump,
    ] + vault_bumps_bytes(v.vault_bumps) + bool_bytes(v.reduce_only)
}

/// A pair, behind the discriminator.
pub open spec fn pair_bytes(v: OmnipairPair) -> Seq<u8> {
    pair_keys_bytes(v) + pair_terms_bytes(v) + pair_reserves_bytes(v) + pair_rates_bytes(v)
        + pair_debts_bytes(v) + pair_totals_bytes(v) + pair_setup_bytes(v)
}

/// Whether a futarchy authority can be read off `s`: the bytes are there, and the flag is one.
pub open spec fn futarchy_authority_shaped(s: Seq<u8>) -> bool {
    s.len() >= 141 && s[139] <= 1
}

/// Whether a pair can be read off `s`: the bytes are there, the tag of the optional field is one,
/// and so is the flag.
pub open spec fn pair_shaped(s: Seq<u8>) -> bool {
    &&& s.len() >= 139
    &&& s[138] <= 1
    &&& s.len() >= 340 + 2 * s[138]
    &&& s[339 + 2 * s[138]] <= 1
}

proof fn lemma_vault_bumps_injective(a: VaultBumps, b: VaultBumps)
    requires
        vault_bumps_bytes(a) == vault_bumps_bytes(b),
    ensures
        a == b,
{
    lemma_split_equal(
        seq![a.reserve0] + seq![a.reserve1] + seq![a.collateral0],
        seq![a.collateral1],
        seq![b.reserve0] + seq![b.reserve1] + seq![b.collateral0],
        seq![b.collateral1],
    );
    lemma_split_equal(
        seq![a.reserve0] + seq![a.reserve1],
        seq![a.collateral0],
        seq![b.reserve0] + seq![b.reserve1],
        seq![b.collateral0],
    );
    lemma_split_equal(seq![a.reserve0], seq![a.reserve1], seq![b.reserve0], seq![b.reserve1]);
    assert(seq![a.reserve0][0] == seq![b.reserve0][0]);
    assert(seq![a.reserve1][0] == seq![b.reserve1][0]);
    assert(seq![a.collateral0][0] == seq![b.collateral0][0]);
    assert(seq![a.collateral1][0] == seq![b.collateral1][0]);
}

proof fn lemma_price_ema_injective(a: LastPriceEMA, b: LastPriceEMA)
    requires
        price_ema_bytes(a) == price_ema_bytes(b),
    ensures
        a == b,
{
    lemma_byte_powers();
    lemma_split_equal(
        le_bytes(a.symmetric as nat, 8),
        le_bytes(a.directional as nat, 8),
        le_bytes(b.symmetric as nat, 8),
        le_bytes(b.directional as nat, 8),
    );
    lemma_le_bytes_injective(a.symmetric as nat, b.symmetric as nat, 8);
    lemma_le_bytes_injective(a.directional as nat, b.directional as nat, 8);
}

proof fn lemma_rate_model_injective(a: OmnipairRateModel, b: OmnipairRateModel)
    requires
        rate_model_bytes(a) == rate_model_bytes(b),
    ensures
        a == b,
{
    lemma_byte_powers();
    lemma_split_equal(
        le_bytes(a.exp_rate as nat, 8) + le_bytes(a.target_util_start as nat, 8)
            + le_bytes(a.target_util_end as nat, 8) + le_bytes(a.half_life_ms as nat, 8)
            + le_bytes(a.min_rate as nat, 8) + le_bytes(a.max_rate as nat, 8),
        le_bytes(a.initial_rate as nat, 8),
        le_bytes(b.exp_rate as nat, 8) + le_bytes(b.target_util_start as nat, 8)
            + le_bytes(b.target_util_end as nat, 8) + le_bytes(b.half_life_ms as nat, 8)
            + le_bytes(b.min_rate as nat, 8) + le_bytes(b.max_rate as nat, 8),
        le_bytes(b.initial_rate as nat, 8),
    );
    lemma_split_equal(
        le_bytes(a.exp_rate as nat, 8) + le_bytes(a.target_util_start as nat, 8)
            + le_bytes(a.target_util_end as nat, 8) + le_bytes(a.half_life_ms as nat, 8)
            + le_bytes(a.min_rate as nat, 8),
        le_bytes(a.max_rate as nat, 8),
        le_bytes(b.exp_rate as nat, 8) + le_bytes(b.target_util_start as nat, 8)
            + le_bytes(b.target_util_end as nat, 8) + le_bytes(b.half_life_ms as nat, 8)
            + le_bytes(b.min_rate as nat, 8),
        le_bytes(b.max_rate as nat, 8),
    );
    lemma_split_equal(
        le_bytes(a.exp_rate as nat, 8) + le_bytes(a.target_util_start as nat, 8)
            + le_bytes(a.target_util_end as nat, 8) + le_bytes(a.half_life_ms as nat, 8),
        le_bytes(a.min_rate as nat, 8),
        le_bytes(b.exp_rate as nat, 8) + le_bytes(b.target_util_start as nat, 8)
            + le_bytes(b.target_util_end as nat, 8) + le_bytes(b.half_life_ms as nat, 8),
        le_bytes(b.min_rate as nat, 8),
    );
    lemma_split_equal(
        le_bytes(a.exp_rate as nat, 8) + le_bytes(a.target_util_start as nat, 8)
            + le_bytes(a.target_util_end as nat, 8),
        le_bytes(a.half_life_ms as nat, 8),
        le_bytes(b.exp_rate as nat, 8) + le_bytes(b.target_util_start as nat, 8)
            + le_bytes(b.target_util_end as nat, 8),
        le_bytes(b.half_life_ms as nat, 8),
    );
    lemma_split_equal(
        le_bytes(a.exp_rate as nat, 8) + le_bytes(a.target_util_start as nat, 8),
        le_bytes(a.target_util_end as nat, 8),
        le_bytes(b.exp_rate as nat, 8) + le_bytes(b.target_util_start as nat, 8),
        le_bytes(b.target_util_end as nat, 8),
    );
    lemma_split_equal(
        le_bytes(a.exp_rate as nat, 8),
        le_bytes(a.target_util_start as nat, 8),
        le_bytes(b.exp_rate as nat, 8),
        le_bytes(b.target_util_start as nat, 8),
    );
    lemma_le_bytes_injective(a.exp_rate as nat, b.exp_rate as nat, 8);
    lemma_le_bytes_injective(a.target_util_start as nat, b.target_util_start as nat, 8);
    lemma_le_bytes_injective(a.target_util_end as nat, b.target_util_end as nat, 8);
    lemma_le_bytes_injective(a.half_life_ms as nat, b.half_life_ms as nat, 8);
    lemma_le_bytes_injective(a.min_rate as nat, b.min_rate as nat, 8);
    lemma_le_bytes_injective(a.max_rate as nat, b.max_rate as nat, 8);
    lemma_le_bytes_injective(a.initial_rate as nat, b.initial_rate as nat, 8);
}

proof fn lemma_revenue_share_injective(a: RevenueShare, b: RevenueShare)
    requires
        revenue_share_bytes(a) == revenue_share_bytes(b),
    ensures
        a == b,
{
    lemma_byte_powers();
    lemma_split_equal(
        le_bytes(a.swap_bps as nat, 2),
        le_bytes(a.interest_bps as nat, 2),
        le_bytes(b.swap_bps as nat, 2),
        le_bytes(b.interest_bps as nat, 2),
    );
    lemma_le_bytes_injective(a.swap_bps as nat, b.swap_bps as nat, 2);
    lemma_le_bytes_injective(a.interest_bps as nat, b.interest_bps as nat, 2);
}

proof fn lemma_revenue_recipients_injective(a: RevenueRecipients, b: RevenueRecipients)
    requires
        revenue_recipients_bytes(a) == revenue_recipients_bytes(b),
    ensures
        a == b,
{
    lemma_split_equal(
        a.futarchy_treasury@ + a.buybacks_vault@,
        a.team_treasury@,
        b.futarchy_treasury@ + b.buybacks_vault@,
        b.team_treasury@,
    );
    lemma_split_equal(
        a.futarchy_treasury@,
        a.buybacks_vault@,
        b.futarchy_treasury@,
        b.buybacks_vault@,
    );
    lemma_pubkey_view_injective(a.futarchy_treasury, b.futarchy_treasury);
    lemma_pubkey_view_injective(a.buybacks_vault, b.buybacks_vault);
    lemma_pubkey_view_injective(a.team_treasury, b.team_treasury);
}

proof fn lemma_revenue_distribution_injective(a: RevenueDistribution, b: RevenueDistribution)
    requires
        revenue_distribution_bytes(a) == revenue_distribution_bytes(b),
    ensures
        a == b,
{
    lemma_byte_powers();
    lemma_split_equal(
        le_bytes(a.futarchy_treasury_bps as nat, 2) + le_bytes(a.buybacks_vault_bps as nat, 2),
        le_bytes(a.team_treasury_bps as nat, 2),
        le_bytes(b.futarchy_treasury_bps as nat, 2) + le_bytes(b.buybacks_vault_bps as nat, 2),
        le_bytes(b.team_treasury_bps as nat, 2),
    );
    lemma_split_equal(
        le_bytes(a.futarchy_treasury_bps as nat, 2),
        le_bytes(a.buybacks_vault_bps as nat, 2),
        le_bytes(b.futarchy_treasury_bps as nat, 2),
        le_bytes(b.buybacks_vault_bps as nat, 2),
    );
    lemma_le_bytes_injective(a.futarchy_treasury_bps as nat, b.futarchy_treasury_bps as nat, 2);
    lemma_le_bytes_injective(a.buybacks_vault_bps as nat, b.buybacks_vault_bps as nat, 2);
    lemma_le_bytes_injective(a.team_treasury_bps as nat, b.team_treasury_bps as nat, 2);
}

proof fn lemma_futarchy_authority_injective(
    a: OmnipairFutarchyAuthority,
    b: OmnipairFutarchyAuthority,
)
    requires
        futarchy_authority_bytes(a) == futarchy_authority_bytes(b),
    ensures
        a == b,
{
    lemma_split_equal(
        seq![a.version] + a.authority@ + revenue_recipients_bytes(a.recipients)
            + revenue_share_bytes(a.revenue_share)
            + revenue_distribution_bytes(a.revenue_distribution)
            + bool_bytes(a.global_reduce_only),
        seq![a.bump],
        seq![b.version] + b.authority@ + revenue_recipients_bytes(b.recipients)
            + revenue_share_bytes(b.revenue_share)
            + revenue_distribution_bytes(b.revenue_distribution)
            + bool_bytes(b.global_reduce_only),
        seq![b.bump],
    );
    lemma_split_equal(
        seq![a.version] + a.authority@ + revenue_recipients_bytes(a.recipients)
            + revenue_share_bytes(a.revenue_share)
            + revenue_distribution_bytes(a.revenue_distribution),
        bool_bytes(a.global_reduce_only),
        seq![b.version] + b.authority@ + revenue_recipients_bytes(b.recipients)
            + revenue_share_bytes(b.revenue_share)
            + revenue_distribution_bytes(b.revenue_distribution),
        bool_bytes(b.global_reduce_only),
    );
    lemma_split_equal(
        seq![a.version] + a.authority@ + revenue_recipients_bytes(a.recipients)
            + revenue_share_bytes(a.revenue_share),
        revenue_distribution_bytes(a.revenue_distribution),
        seq![b.version] + b.authority@ + revenue_recipients_bytes(b.recipients)
            + revenue_share_bytes(b.revenue_share),
        revenue_distribution_bytes(b.revenue_distribution),
    );
    lemma_split_equal(
        seq![a.version] + a.authority@ + revenue_recipients_bytes(a.recipients),
        revenue_share_bytes(a.revenue_share),
        seq![b.version] + b.authority@ + revenue_recipients_bytes(b.recipients),
        revenue_share_bytes(b.revenue_share),
    );
    lemma_split_equal(
        seq![a.version] + a.authority@,
        revenue_recipients_bytes(a.recipients),
        seq![b.version] + b.authority@,
        revenue_recipients_bytes(b.recipients),
    );
    lemma_split_equal(seq![a.version], a.authority@, seq![b.version], b.authority@);
    assert(seq![a.version][0] == seq![b.version][0]);
    lemma_pubkey_view_injective(a.authority, b.authority);
    lemma_revenue_recipients_injective(a.recipients, b.recipients);
    lemma_revenue_share_injective(a.revenue_share, b.revenue_share);
    lemma_revenue_distribution_injective(a.revenue_distribution, b.revenue_distribution);
    assert(bool_bytes(a.global_reduce_only)[0] == bool_bytes(b.global_reduce_only)[0]);
    assert(seq![a.bump][0] == seq![b.bump][0]);
}

proof fn lemma_pair_keys_injective(a: OmnipairPair, b: OmnipairPair)
    requires
        pair_keys_bytes(a) == pair_keys_bytes(b),
    ensures
        a.token0 == b.token0,
        a.token1 == b.token1,
        a.lp_mint == b.lp_mint,
        a.rate_model == b.rate_model,
{
    lemma_split_equal(
        a.token0@ + a.token1@ + a.lp_mint@,
        a.rate_model@,
        b.token0@ + b.token1@ + b.lp_mint@,
        b.rate_model@,
    );
    lemma_split_equal(a.token0@ + a.token1@, a.lp_mint@, b.token0@ + b.token1@, b.lp_mint@);
    lemma_split_equal(a.token0@, a.token1@, b.token0@, b.token1@);
    lemma_pubkey_view_injective(a.token0, b.token0);
    lemma_pubkey_view_injective(a.token1, b.token1);
    lemma_pubkey_view_injective(a.lp_mint, b.lp_mint);
    lemma_pubkey_view_injective(a.rate_model, b.rate_model);
}

proof fn lemma_pair_terms_injective(a: OmnipairPair, b: OmnipairPair)
    requires
        a.fixed_cf_bps is Some == b.fixed_cf_bps is Some,
        pair_terms_bytes(a) == pair_terms_bytes(b),
    ensures
        a.swap_fee_bps == b.swap_fee_bps,
        a.half_life == b.half_life,
        a.fixed_cf_bps == b.fixed_cf_bps,
{
    lemma_byte_powers();
    lemma_split_equal(
        le_bytes(a.swap_fee_bps as nat, 2) + le_bytes(a.half_life as nat, 8),
        option_u16_bytes(a.fixed_cf_bps),
        le_bytes(b.swap_fee_bps as nat, 2) + le_bytes(b.half_life as nat, 8),
        option_u16_bytes(b.fixed_cf_bps),
    );
    lemma_split_equal(
        le_bytes(a.swap_fee_bps as nat, 2),
        le_bytes(a.half_life as nat, 8),
        le_bytes(b.swap_fee_bps as nat, 2),
        le_bytes(b.half_life as nat, 8),
    );
    lemma_le_bytes_injective(a.swap_fee_bps as nat, b.swap_fee_bps as nat, 2);
    lemma_le_bytes_injective(a.half_life as nat, b.half_life as nat, 8);
    assert(option_u16_bytes(a.fixed_cf_bps)[0] == option_u16_bytes(b.fixed_cf_bps)[0]);
    if let (Some(m), Some(n)) = (a.fixed_cf_bps, b.fixed_cf_bps) {
        lemma_split_equal(seq![1u8], le_bytes(m as nat, 2), seq![1u8], le_bytes(n as nat, 2));
        lemma_le_bytes_injective(m as nat, n as nat, 2);
    }
}

proof fn lemma_pair_reserves_injective(a: OmnipairPair, b: OmnipairPair)
    requires
        pair_reserves_bytes(a) == pair_reserves_bytes(b),
    ensures
        a.reserve0 == b.reserve0,
        a.reserve1 == b.reserve1,
        a.cash_reserve0 == b.cash_reserve0,
        a.cash_reserve1 == b.cash_reserve1,
{
    lemma_byte_powers();
    lemma_split_equal(
        le_bytes(a.reserve0 as nat, 8) + le_bytes(a.reserve1 as nat, 8)
            + le_bytes(a.cash_reserve0 as nat, 8),
        le_bytes(a.cash_reserve1 as nat, 8),
        le_bytes(b.reserve0 as nat, 8) + le_bytes(b.reserve1 as nat, 8)
            + le_bytes(b.cash_reserve0 as nat, 8),
        le_bytes(b.cash_reserve1 as nat, 8),
    );
    lemma_split_equal(
        le_bytes(a.reserve0 as nat, 8) + le_bytes(a.reserve1 as nat, 8),
        le_bytes(a.cash_reserve0 as nat, 8),
        le_bytes(b.reserve0 as nat, 8) + le_bytes(b.reserve1 as nat, 8),
        le_bytes(b.cash_reserve0 as nat, 8),
    );
    lemma_split_equal(
        le_bytes(a.reserve0 as nat, 8),
        le_bytes(a.reserve1 as nat, 8),
        le_bytes(b.reserve0 as nat, 8),
        le_bytes(b.reserve1 as nat, 8),
    );
    lemma_le_bytes_injective(a.reserve0 as nat, b.reserve0 as nat, 8);
    lemma_le_bytes_injective(a.reserve1 as nat, b.reserve1 as nat, 8);
    lemma_le_bytes_injective(a.cash_reserve0 as nat, b.cash_reserve0 as nat, 8);
    lemma_le_bytes_injective(a.cash_reserve1 as nat, b.cash_reserve1 as nat, 8);
}

proof fn lemma_pair_rates_injective(a: OmnipairPair, b: OmnipairPair)
    requires
        pair_rates_bytes(a) == pair_rates_bytes(b),
    ensures
        a.last_price0_ema == b.last_price0_ema,
        a.last_price1_ema == b.last_price1_ema,
        a.last_update == b.last_update,
        a.last_rate0 == b.last_rate0,
        a.last_rate1 == b.last_rate1,
{
    lemma_byte_powers();
    lemma_split_equal(
        price_ema_bytes(a.last_price0_ema) + price_ema_bytes(a.last_price1_ema)
            + le_bytes(a.last_update as nat, 8) + le_bytes(a.last_rate0 as nat, 8),
        le_bytes(a.last_rate1 as nat, 8),
        price_ema_bytes(b.last_price0_ema) + price_ema_bytes(b.last_price1_ema)
            + le_bytes(b.last_update as nat, 8) + le_bytes(b.last_rate0 as nat, 8),
        le_bytes(b.last_rate1 as nat, 8),
    );
    lemma_split_equal(
        price_ema_bytes(a.last_price0_ema) + price_ema_bytes(a.last_price1_ema)
            + le_bytes(a.last_update as nat, 8),
        le_bytes(a.last_rate0 as nat, 8),
        price_ema_bytes(b.last_price0_ema) + price_ema_bytes(b.last_price1_ema)
            + le_bytes(b.last_update as nat, 8),
        le_bytes(b.last_rate0 as nat, 8),
    );
    lemma_split_equal(
        price_ema_bytes(a.last_price0_ema) + price_ema_bytes(a.last_price1_ema),
        le_bytes(a.last_update as nat, 8),
        price_ema_bytes(b.last_price0_ema) + price_ema_bytes(b.last_price1_ema),
        le_bytes(b.last_update as nat, 8),
    );
    lemma_split_equal(
        price_ema_bytes(a.last_price0_ema),
        price_ema_bytes(a.last_price1_ema),
        price_ema_bytes(b.last_price0_ema),
        price_ema_bytes(b.last_price1_ema),
    );
    lemma_price_ema_injective(a.last_price0_ema, b.last_price0_ema);
    lemma_price_ema_injective(a.last_price1_ema, b.last_price1_ema);
    lemma_le_bytes_injective(a.last_update as nat, b.last_update as nat, 8);
    lemma_le_bytes_injective(a.last_rate0 as nat, b.last_rate0 as nat, 8);
    lemma_le_bytes_injective(a.last_rate1 as nat, b.last_rate1 as nat, 8);
}

proof fn lemma_pair_debts_injective(a: OmnipairPair, b: OmnipairPair)
    requires
        pair_debts_bytes(a) == pair_debts_bytes(b),
    ensures
        a.total_debt0 == b.total_debt0,
        a.total_debt1 == b.total_debt1,
        a.total_debt0_shares == b.total_debt0_shares,
        a.total_debt1_shares == b.total_debt1_shares,
{
    lemma_byte_powers();
    lemma_split_equal(
        le_bytes(a.total_debt0 as nat, 8) + le_bytes(a.total_debt1 as nat, 8)
            + le_bytes(a.total_debt0_shares as nat, 16),
        le_bytes(a.total_debt1_shares as nat, 16),
        le_bytes(b.total_debt0 as nat, 8) + le_bytes(b.total_debt1 as nat, 8)
            + le_bytes(b.total_debt0_shares as nat, 16),
        le_bytes(b.total_debt1_shares as nat, 16),
    );
    lemma_split_equal(
        le_bytes(a.total_debt0 as nat, 8) + le_bytes(a.total_debt1 as nat, 8),
        le_bytes(a.total_debt0_shares as nat, 16),
        le_bytes(b.total_debt0 as nat, 8) + le_bytes(b.total_debt1 as nat, 8),
        le_bytes(b.total_debt0_shares as nat, 16),
    );
    lemma_split_equal(
        le_bytes(a.total_debt0 as nat, 8),
        le_bytes(a.total_debt1 as nat, 8),
        le_bytes(b.total_debt0 as nat, 8),
        le_bytes(b.total_debt1 as nat, 8),
    );
    lemma_le_bytes_injective(a.total_debt0 as nat, b.total_debt0 as nat, 8);
    lemma_le_bytes_injective(a.total_debt1 as nat, b.total_debt1 as nat, 8);
    lemma_le_bytes_injective(a.total_debt0_shares as nat, b.total_debt0_shares as nat, 16);
    lemma_le_bytes_injective(a.total_debt1_shares as nat, b.total_debt1_shares as nat, 16);
}

proof fn lemma_pair_totals_injective(a: OmnipairPair, b: OmnipairPair)
    requires
        pair_totals_bytes(a) == pair_totals_bytes(b),
    ensures
        a.total_supply == b.total_supply,
        a.total_collateral0 == b.total_collateral0,
        a.total_collateral1 == b.total_collateral1,
{
    lemma_byte_powers();
    lemma_split_equal(
        le_bytes(a.total_supply as nat, 8) + le_bytes(a.total_collateral0 as nat, 8),
        le_bytes(a.total_collateral1 as nat, 8),
        le_bytes(b.total_supply as nat, 8) + le_bytes(b.total_collateral0 as nat, 8),
        le_bytes(b.total_collateral1 as nat, 8),
    );
    lemma_split_equal(
        le_bytes(a.total_supply as nat, 8),
        le_bytes(a.total_collateral0 as nat, 8),
        le_bytes(b.total_supply as nat, 8),
        le_bytes(b.total_collateral0 as nat, 8),
    );
    lemma_le_bytes_injective(a.total_supply as nat, b.total_supply as nat, 8);
    lemma_le_bytes_injective(a.total_collateral0 as nat, b.total_collateral0 as nat, 8);
    lemma_le_bytes_injective(a.total_collateral1 as nat, b.total_collateral1 as nat, 8);
}

proof fn lemma_pair_setup_injective(a: OmnipairPair, b: OmnipairPair)
    requires
        pair_setup_bytes(a) == pair_setup_bytes(b),
    ensures
        a.token0_decimals == b.token0_decimals,
        a.token1_decimals == b.token1_decimals,
        a.params_hash == b.params_hash,
        a.version == b.version,
        a.bump == b.bump,
        a.vault_bumps == b.vault_bumps,
        a.reduce_only == b.reduce_only,
{
    lemma_split_equal(
        seq![a.token0_decimals] + seq![a.token1_decimals] + a.params_hash@ + seq![a.version]
            + seq![a.bump] + vault_bumps_bytes(a.vault_bumps),
        bool_bytes(a.reduce_only),
        seq![b.token0_decimals] + seq![b.token1_decimals] + b.params_hash@ + seq![b.version]
            + seq![b.bump] + vault_bumps_bytes(b.vault_bumps),
        bool_bytes(b.reduce_only),
    );
    lemma_split_equal(
        seq![a.token0_decimals] + seq![a.token1_decimals] + a.params_hash@ + seq![a.version]
            + seq![a.bump],
        vault_bumps_bytes(a.vault_bumps),
        seq![b.token0_decimals] + seq![b.token1_decimals] + b.params_hash@ + seq![b.version]
            + seq![b.bump],
        vault_bumps_bytes(b.vault_bumps),
    );
    lemma_split_equal(
        seq![a.token0_decimals] + seq![a.token1_decimals] + a.params_hash@ + seq![a.version],
        seq![a.bump],
        seq![b.token0_decimals] + seq![b.token1_decimals] + b.params_hash@ + seq![b.version],
        seq![b.bump],
    );
    lemma_split_equal(
        seq![a.token0_decimals] + seq![a.token1_decimals] + a.params_hash@,
        seq![a.version],
        seq![b.token0_decimals] + seq![b.token1_decimals] + b.params_hash@,
        seq![b.version],
    );
    lemma_split_equal(
        seq![a.token0_decimals] + seq![a.token1_decimals],
        a.params_hash@,
        seq![b.token0_decimals] + seq![b.token1_decimals],
        b.params_hash@,
    );
    lemma_split_equal(
        seq![a.token0_decimals],
        seq![a.token1_decimals],
        seq![b.token0_decimals],
        seq![b.token1_decimals],
    );
    assert(seq![a.token0_decimals][0] == seq![b.token0_decimals][0]);
    assert(seq![a.token1_decimals][0] == seq![b.token1_decimals][0]);
    lemma_pubkey_view_injective(Pubkey { bytes: a.params_hash }, Pubkey { bytes: b.params_hash });
    assert(seq![a.version][0] == seq![b.version][0]);
    assert(seq![a.bump][0] == seq![b.bump][0]);
    lemma_vault_bumps_injective(a.vault_bumps, b.vault_bumps);
    assert(bool_bytes(a.reduce_only)[0] == bool_bytes(b.reduce_only)[0]);
}

proof fn lemma_pair_injective(a: OmnipairPair, b: OmnipairPair)
    requires
        a.fixed_cf_bps is Some == b.fixed_cf_bps is Some,
        pair_bytes(a) == pair_bytes(b),
    ensures
        a == b,
{
    lemma_split_equal(
        pair_keys_bytes(a) + pair_terms_bytes(a) + pair_reserves_bytes(a) + pair_rates_bytes(a)
            + pair_debts_bytes(a) + pair_totals_bytes(a),
        pair_setup_bytes(a),
        pair_keys_bytes(b) + pair_terms_bytes(b) + pair_reserves_bytes(b) + pair_rates_bytes(b)
            + pair_debts_bytes(b) + pair_totals_bytes(b),
        pair_setup_bytes(b),
    );
    lemma_split_equal(
        pair_keys_bytes(a) + pair_terms_bytes(a) + pair_reserves_bytes(a) + pair_rates_bytes(a)
            + pair_debts_bytes(a),
        pair_totals_bytes(a),
        pair_keys_bytes(b) + pair_terms_bytes(b) + pair_reserves_bytes(b) + pair_rates_bytes(b)
            + pair_debts_bytes(b),
        pair_totals_bytes(b),
    );
    lemma_split_equal(
        pair_keys_bytes(a) + pair_terms_bytes(a) + pair_reserves_bytes(a) + pair_rates_bytes(a),
        pair_debts_bytes(a),
        pair_keys_bytes(b) + pair_terms_bytes(b) + pair_reserves_bytes(b) + pair_rates_bytes(b),
        pair_debts_bytes(b),
    );
    lemma_split_equal(
        pair_keys_bytes(a) + pair_terms_bytes(a) + pair_reserves_bytes(a),
        pair_rates_bytes(a),
        pair_keys_bytes(b) + pair_terms_bytes(b) + pair_reserves_bytes(b),
        pair_rates_bytes(b),
    );
    lemma_split_equal(
        pair_keys_bytes(a) + pair_terms_bytes(a),
        pair_reserves_bytes(a),
        pair_keys_bytes(b) + pair_terms_bytes(b),
        pair_reserves_bytes(b),
    );
    lemma_split_equal(
        pair_keys_bytes(a),
        pair_terms_bytes(a),
        pair_keys_bytes(b),
        pair_terms_bytes(b),
    );
    lemma_pair_keys_injective(a, b);
    lemma_pair_terms_injective(a, b);
    lemma_pair_reserves_injective(a, b);
    lemma_pair_rates_injective(a, b);
    lemma_pair_debts_injective(a, b);
    lemma_pair_totals_injective(a, b);
    lemma_pair_setup_injective(a, b);
}

/// Data that start with a pair can be read.
pub(crate) proof fn lemma_pair_prefix_shaped(v: OmnipairPair, s: Seq<u8>)
    requires
        pair_bytes(v).is_prefix_of(s),
    ensures
        pair_shaped(s),
        s[138] == (if v.fixed_cf_bps is Some { 1u8 } else { 0u8 }),
        pair_bytes(v).len() == 340 + 2 * s[138],
{
    let bytes = pair_bytes(v);
    let tag = option_u16_bytes(v.fixed_cf_bps)[0];
    let terms = pair_terms_bytes(v);
    assert(terms[10] == tag);
    assert((pair_keys_bytes(v) + terms)[138] == tag);
    assert(bytes[138] == tag);
    assert(bytes[bytes.len() - 1] == bool_bytes(v.reduce_only)[0]);
    assert(s[138] == bytes[138]);
    assert(s[bytes.len() - 1] == bytes[bytes.len() - 1]);
}

/// Data that start with a futarchy authority can be read.
pub(crate) proof fn lemma_futarchy_authority_prefix_shaped(
    v: OmnipairFutarchyAuthority,
    s: Seq<u8>,
)
    requires
        futarchy_authority_bytes(v).is_prefix_of(s),
    ensures
        futarchy_authority_shaped(s),
        futarchy_authority_bytes(v).len() == 141,
{
    let bytes = futarchy_authority_bytes(v);
    assert(bytes[139] == bool_bytes(v.global_reduce_only)[0]);
    assert(s[139] == bytes[139]);
}

/// The bytes of `v` stand in `data` behind the discriminator.
pub open spec fn holds_pair(data: Seq<u8>, v: OmnipairPair) -> bool {
    pair_bytes(v).is_prefix_of(data.skip(8))
}

/// What `data` say of a pair: the one whose bytes stand behind the discriminator, if there is one.
pub open spec fn pair_result(data: Seq<u8>) -> Result<OmnipairPair, TradingVenueError> {
    if data.len() < 8 {
        Err(
            TradingVenueError::DeserializationFailed(
                ErrorInfo::Message("omnipair pair data too short"),
            ),
        )
    } else if exists|v: OmnipairPair| holds_pair(data, v) {
        Ok(choose|v: OmnipairPair| holds_pair(data, v))
    } else {
        Err(
            TradingVenueError::DeserializationFailed(
                ErrorInfo::Message("omnipair pair anchor decode"),
            ),
        )
    }
}

/// No two values are held by the same data.
pub proof fn lemma_pair_unique(data: Seq<u8>, a: OmnipairPair, b: OmnipairPair)
    requires
        holds_pair(data, a),
        holds_pair(data, b),
    ensures
        a == b,
{
    let s = data.skip(8);
    lemma_pair_prefix_shaped(a, s);
    lemma_pair_prefix_shaped(b, s);
    assert(pair_bytes(a) =~= pair_bytes(b));
    lemma_pair_injective(a, b);
}

/// A pair that was laid out behind any discriminator is read back, whatever follows it.
pub proof fn lemma_pair_read_back(discriminator: Seq<u8>, v: OmnipairPair, trailing: Seq<u8>)
    requires
        discriminator.len() == 8,
    ensures
        pair_result(discriminator + pair_bytes(v) + trailing) == Ok::<
            OmnipairPair,
            TradingVenueError,
        >(v),
{
    let data = discriminator + pair_bytes(v) + trailing;
    assert(data.skip(8) =~= pair_bytes(v) + trailing);
    assert(holds_pair(data, v));
    let read = choose|w: OmnipairPair| holds_pair(data, w);
    lemma_pair_unique(data, v, read);
}

/// The bytes of `v` stand in `data` behind the discriminator.
pub open spec fn holds_rate_model(data: Seq<u8>, v: OmnipairRateModel) -> bool {
    rate_model_bytes(v).is_prefix_of(data.skip(8))
}

/// What `data` say of a rate model: the one whose bytes stand behind the discriminator, if there is
/// one.
pub open spec fn rate_model_result(data: Seq<u8>) -> Result<OmnipairRateModel, TradingVenueError> {
    if data.len() < 8 {
        Err(
            TradingVenueError::DeserializationFailed(
                ErrorInfo::Message("omnipair rate model data too short"),
            ),
        )
    } else if exists|v: OmnipairRateModel| holds_rate_model(data, v) {
        Ok(choose|v: OmnipairRateModel| holds_rate_model(data, v))
    } else {
        Err(
            TradingVenueError::DeserializationFailed(
                ErrorInfo::Message("omnipair rate model anchor decode"),
            ),
        )
    }
}

/// No two values are held by the same data.
pub proof fn lemma_rate_model_unique(data: Seq<u8>, a: OmnipairRateModel, b: OmnipairRateModel)
    requires
        holds_rate_model(data, a),
        holds_rate_model(data, b),
    ensures
        a == b,
{
    assert(rate_model_bytes(a) =~= rate_model_bytes(b));
    lemma_rate_model_injective(a, b);
}

/// A rate model that was laid out behind any discriminator is read back, whatever follows it.
pub proof fn lemma_rate_model_read_back(
    discriminator: Seq<u8>,
    v: OmnipairRateModel,
    trailing: Seq<u8>,
)
    requires
        discriminator.len() == 8,
    ensures
        rate_model_result(discriminator + rate_model_bytes(v) + trailing) == Ok::<
            OmnipairRateModel,
            TradingVenueError,
        >(v),
{
    let data = discriminator + rate_model_bytes(v) + trailing;
    assert(data.skip(8) =~= rate_model_bytes(v) + trailing);
    assert(holds_rate_model(data, v));
    let read = choose|w: OmnipairRateModel| holds_rate_model(data, w);
    lemma_rate_model_unique(data, v, read);
}

/// The bytes of `v` stand in `data` behind the discriminator.
pub open spec fn holds_futarchy_authority(data: Seq<u8>, v: OmnipairFutarchyAuthority) -> bool {
    futarchy_authority_bytes(v).is_prefix_of(data.skip(8))
}

/// What `data` say of a futarchy authority: the one whose bytes stand behind the discriminator, if
/// there is one.
pub open spec fn futarchy_authority_result(data: Seq<u8>) -> Result<
    OmnipairFutarchyAuthority,
    TradingVenueError,
> {
    if data.len() < 8 {
        Err(
            TradingVenueError::DeserializationFailed(
                ErrorInfo::Message("omnipair futarchy authority data too short"),
            ),
        )
    } else if exists|v: OmnipairFutarchyAuthority| holds_futarchy_authority(data, v) {
        Ok(choose|v: OmnipairFutarchyAuthority| holds_futarchy_authority(data, v))
    } else {
        Err(
            TradingVenueError::DeserializationFailed(
                ErrorInfo::Message("omnipair futarchy anchor decode"),
            ),
        )
    }
}

/// No two values are held by the same data.
pub proof fn lemma_futarchy_authority_unique(
    data: Seq<u8>,
    a: OmnipairFutarchyAuthority,
    b: OmnipairFutarchyAuthority,
)
    requires
        holds_futarchy_authority(data, a),
        holds_futarchy_authority(data, b),
    ensures
        a == b,
{
    let s = data.skip(8);
    lemma_futarchy_authority_prefix_shaped(a, s);
    lemma_futarchy_authority_prefix_shaped(b, s);
    assert(futarchy_authority_bytes(a) =~= futarchy_authority_bytes(b));
    lemma_futarchy_authority_injective(a, b);
}

/// A futarchy authority that was laid out behind any discriminator is read back, whatever follows
/// it.
pub proof fn lemma_futarchy_authority_read_back(
    discriminator: Seq<u8>,
    v: OmnipairFutarchyAuthority,
    trailing: Seq<u8>,
)
    requires
        discriminator.len() == 8,
    ensures
        futarchy_authority_result(discriminator + futarchy_authority_bytes(v) + trailing) == Ok::<
            OmnipairFutarchyAuthority,
            TradingVenueError,
        >(v),
{
    let data = discriminator + futarchy_authority_bytes(v) + trailing;
    assert(data.skip(8) =~= futarchy_authority_bytes(v) + trailing);
    assert(holds_futarchy_authority(data, v));
    let read = choose|w: OmnipairFutarchyAuthority| holds_futarchy_authority(data, w);
    lemma_futarchy_authority_unique(data, v, read);
}

} // verus!
