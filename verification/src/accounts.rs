//! Reading Omnipair accounts.

use vstd::prelude::*;

use crate::encoding::{
    futarchy_authority_bytes, futarchy_authority_result, futarchy_authority_shaped,
    holds_futarchy_authority, holds_pair, holds_rate_model,
    lemma_futarchy_authority_prefix_shaped, lemma_futarchy_authority_unique,
    lemma_pair_prefix_shaped, lemma_pair_unique, lemma_rate_model_unique, pair_bytes, pair_result,
    pair_shaped, price_ema_bytes, rate_model_bytes, rate_model_result, revenue_distribution_bytes,
    revenue_recipients_bytes, revenue_share_bytes, vault_bumps_bytes,
};
use crate::error::{ErrorInfo, TradingVenueError};
use crate::layout::{bool_bytes, le_bytes, option_u16_bytes};
use crate::pubkey::Pubkey;
use crate::reader::Reader;
use crate::state::{
    LastPriceEMA, OmnipairFutarchyAuthority, OmnipairPair, OmnipairRateModel, RevenueDistribution,
    RevenueRecipients, RevenueShare, VaultBumps,
};

verus! {

broadcast use crate::layout::lemma_le_bytes_len;

// Each of the functions below reads the fields of one value, or of one section of a pair, in
// order. Nothing comes back where bytes are missing, or where a tag or a flag is none.

fn read_vault_bumps(reader: &mut Reader) -> (value: Option<VaultBumps>)
    requires
        old(reader).wf(),
    ensures
        match value {
            Some(v) => final(reader).has_read(*old(reader), vault_bumps_bytes(v)),
            None => old(reader).data().len() < old(reader).pos() + 4,
        },
{
    let ghost start = reader.consumed();
    let reserve0: u8 = reader.read_u8()?;
    let reserve1: u8 = reader.read_u8()?;
    let collateral0: u8 = reader.read_u8()?;
    let collateral1: u8 = reader.read_u8()?;
    let value = VaultBumps { reserve0, reserve1, collateral0, collateral1 };
    assert(reader.consumed() =~= start + vault_bumps_bytes(value));
    Some(value)
}

fn read_price_ema(reader: &mut Reader) -> (value: Option<LastPriceEMA>)
    requires
        old(reader).wf(),
    ensures
        match value {
            Some(v) => final(reader).has_read(*old(reader), price_ema_bytes(v)),
            None => old(reader).data().len() < old(reader).pos() + 16,
        },
{
    let ghost start = reader.consumed();
    let symmetric: u64 = reader.read_u64()?;
    let directional: u64 = reader.read_u64()?;
    let value = LastPriceEMA { symmetric, directional };
    assert(reader.consumed() =~= start + price_ema_bytes(value));
    Some(value)
}

fn read_rate_model(reader: &mut Reader) -> (value: Option<OmnipairRateModel>)
    requires
        old(reader).wf(),
    ensures
        match value {
            Some(v) => final(reader).has_read(*old(reader), rate_model_bytes(v)),
            None => old(reader).data().len() < old(reader).pos() + 56,
        },
{
    let ghost start = reader.consumed();
    let exp_rate: u64 = reader.read_u64()?;
    let target_util_start: u64 = reader.read_u64()?;
    let target_util_end: u64 = reader.read_u64()?;
    let half_life_ms: u64 = reader.read_u64()?;
    let min_rate: u64 = reader.read_u64()?;
    let max_rate: u64 = reader.read_u64()?;
    let initial_rate: u64 = reader.read_u64()?;
    let value = OmnipairRateModel {
        exp_rate,
        target_util_start,
        target_util_end,
        half_life_ms,
        min_rate,
        max_rate,
        initial_rate,
    };
    assert(reader.consumed() =~= start + rate_model_bytes(value));
    Some(value)
}

fn read_revenue_share(reader: &mut Reader) -> (value: Option<RevenueShare>)
    requires
        old(reader).wf(),
    ensures
        match value {
            Some(v) => final(reader).has_read(*old(reader), revenue_share_bytes(v)),
            None => old(reader).data().len() < old(reader).pos() + 4,
        },
{
    let ghost start = reader.consumed();
    let swap_bps: u16 = reader.read_u16()?;
    let interest_bps: u16 = reader.read_u16()?;
    let value = RevenueShare { swap_bps, interest_bps };
    assert(reader.consumed() =~= start + revenue_share_bytes(value));
    Some(value)
}

fn read_revenue_recipients(reader: &mut Reader) -> (value: Option<RevenueRecipients>)
    requires
        old(reader).wf(),
    ensures
        match value {
            Some(v) => final(reader).has_read(*old(reader), revenue_recipients_bytes(v)),
            None => old(reader).data().len() < old(reader).pos() + 96,
        },
{
    let ghost start = reader.consumed();
    let futarchy_treasury: Pubkey = reader.read_pubkey()?;
    let buybacks_vault: Pubkey = reader.read_pubkey()?;
    let team_treasury: Pubkey = reader.read_pubkey()?;
    let value = RevenueRecipients { futarchy_treasury, buybacks_vault, team_treasury };
    assert(reader.consumed() =~= start + revenue_recipients_bytes(value));
    Some(value)
}

fn read_revenue_distribution(reader: &mut Reader) -> (value: Option<RevenueDistribution>)
    requires
        old(reader).wf(),
    ensures
        match value {
            Some(v) => final(reader).has_read(*old(reader), revenue_distribution_bytes(v)),
            None => old(reader).data().len() < old(reader).pos() + 6,
        },
{
    let ghost start = reader.consumed();
    let futarchy_treasury_bps: u16 = reader.read_u16()?;
    let buybacks_vault_bps: u16 = reader.read_u16()?;
    let team_treasury_bps: u16 = reader.read_u16()?;
    let value = RevenueDistribution {
        futarchy_treasury_bps,
        buybacks_vault_bps,
        team_treasury_bps,
    };
    assert(reader.consumed() =~= start + revenue_distribution_bytes(value));
    Some(value)
}

fn read_futarchy_authority(data: &[u8]) -> (value: Option<OmnipairFutarchyAuthority>)
    ensures
        match value {
            Some(v) => futarchy_authority_bytes(v).is_prefix_of(data@),
            None => !futarchy_authority_shaped(data@),
        },
{
    let mut reader = Reader::new(data);
    let version: u8 = reader.read_u8()?;
    let authority: Pubkey = reader.read_pubkey()?;
    let recipients = read_revenue_recipients(&mut reader)?;
    let revenue_share = read_revenue_share(&mut reader)?;
    let revenue_distribution = read_revenue_distribution(&mut reader)?;
    let global_reduce_only: bool = reader.read_bool()?;
    let bump: u8 = reader.read_u8()?;
    let value = OmnipairFutarchyAuthority {
        version,
        authority,
        recipients,
        revenue_share,
        revenue_distribution,
        global_reduce_only,
        bump,
    };
    assert(reader.consumed() =~= futarchy_authority_bytes(value));
    Some(value)
}

fn read_pair_keys(reader: &mut Reader) -> (value: Option<(Pubkey, Pubkey, Pubkey, Pubkey)>)
    requires
        old(reader).wf(),
    ensures
        match value {
            Some((token0, token1, lp_mint, rate_model)) => final(reader).has_read(
                *old(reader),
                token0@ + token1@ + lp_mint@ + rate_model@,
            ),
            None => old(reader).data().len() < old(reader).pos() + 128,
        },
{
    let ghost start = reader.consumed();
    let token0: Pubkey = reader.read_pubkey()?;
    let token1: Pubkey = reader.read_pubkey()?;
    let lp_mint: Pubkey = reader.read_pubkey()?;
    let rate_model: Pubkey = reader.read_pubkey()?;
    let ghost bytes = token0@ + token1@ + lp_mint@ + rate_model@;
    assert(reader.consumed() =~= start + bytes);
    Some((token0, token1, lp_mint, rate_model))
}

fn read_pair_terms(reader: &mut Reader) -> (value: Option<(u16, u64, Option<u16>)>)
    requires
        old(reader).wf(),
    ensures
        match value {
            Some((swap_fee_bps, half_life, fixed_cf_bps)) => {
                &&& final(reader).has_read(
                    *old(reader),
                    le_bytes(swap_fee_bps as nat, 2)
                        + le_bytes(half_life as nat, 8)
                        + option_u16_bytes(fixed_cf_bps),
                )
                &&& old(reader).data()[old(reader).pos() + 10] == (if fixed_cf_bps is Some {
                    1u8
                } else {
                    0u8
                })
            },
            None => {
                ||| old(reader).data().len() < old(reader).pos() + 11
                ||| old(reader).data()[old(reader).pos() + 10] > 1
                ||| old(reader).data()[old(reader).pos() + 10] == 1 && old(reader).data().len()
                    < old(reader).pos() + 13
            },
        },
{
    let ghost start = reader.consumed();
    let swap_fee_bps: u16 = reader.read_u16()?;
    let half_life: u64 = reader.read_u64()?;
    let fixed_cf_bps: Option<u16> = reader.read_option_u16()?;
    let ghost bytes = le_bytes(swap_fee_bps as nat, 2)
        + le_bytes(half_life as nat, 8)
        + option_u16_bytes(fixed_cf_bps);
    assert(reader.consumed() =~= start + bytes);
    Some((swap_fee_bps, half_life, fixed_cf_bps))
}

fn read_pair_reserves(reader: &mut Reader) -> (value: Option<(u64, u64, u64, u64)>)
    requires
        old(reader).wf(),
    ensures
        match value {
            Some((reserve0, reserve1, cash_reserve0, cash_reserve1)) => final(reader).has_read(
                *old(reader),
                le_bytes(reserve0 as nat, 8)
                    + le_bytes(reserve1 as nat, 8)
                    + le_bytes(cash_reserve0 as nat, 8)
                    + le_bytes(cash_reserve1 as nat, 8),
            ),
            None => old(reader).data().len() < old(reader).pos() + 32,
        },
{
    let ghost start = reader.consumed();
    let reserve0: u64 = reader.read_u64()?;
    let reserve1: u64 = reader.read_u64()?;
    let cash_reserve0: u64 = reader.read_u64()?;
    let cash_reserve1: u64 = reader.read_u64()?;
    let ghost bytes = le_bytes(reserve0 as nat, 8)
        + le_bytes(reserve1 as nat, 8)
        + le_bytes(cash_reserve0 as nat, 8)
        + le_bytes(cash_reserve1 as nat, 8);
    assert(reader.consumed() =~= start + bytes);
    Some((reserve0, reserve1, cash_reserve0, cash_reserve1))
}

fn read_pair_rates(reader: &mut Reader) -> (value: Option<
    (LastPriceEMA, LastPriceEMA, u64, u64, u64),
>)
    requires
        old(reader).wf(),
    ensures
        match value {
            Some((
                last_price0_ema,
                last_price1_ema,
                last_update,
                last_rate0,
                last_rate1,
            )) => final(reader).has_read(
                *old(reader),
                price_ema_bytes(last_price0_ema)
                    + price_ema_bytes(last_price1_ema)
                    + le_bytes(last_update as nat, 8)
                    + le_bytes(last_rate0 as nat, 8)
                    + le_bytes(last_rate1 as nat, 8),
            ),
            None => old(reader).data().len() < old(reader).pos() + 56,
        },
{
    let ghost start = reader.consumed();
    let last_price0_ema = read_price_ema(reader)?;
    let last_price1_ema = read_price_ema(reader)?;
    let last_update: u64 = reader.read_u64()?;
    let last_rate0: u64 = reader.read_u64()?;
    let last_rate1: u64 = reader.read_u64()?;
    let ghost bytes = price_ema_bytes(last_price0_ema)
        + price_ema_bytes(last_price1_ema)
        + le_bytes(last_update as nat, 8)
        + le_bytes(last_rate0 as nat, 8)
        + le_bytes(last_rate1 as nat, 8);
    assert(reader.consumed() =~= start + bytes);
    Some((last_price0_ema, last_price1_ema, last_update, last_rate0, last_rate1))
}

fn read_pair_debts(reader: &mut Reader) -> (value: Option<(u64, u64, u128, u128)>)
    requires
        old(reader).wf(),
    ensures
        match value {
            Some((
                total_debt0,
                total_debt1,
                total_debt0_shares,
                total_debt1_shares,
            )) => final(reader).has_read(
                *old(reader),
                le_bytes(total_debt0 as nat, 8)
                    + le_bytes(total_debt1 as nat, 8)
                    + le_bytes(total_debt0_shares as nat, 16)
                    + le_bytes(total_debt1_shares as nat, 16),
            ),
            None => old(reader).data().len() < old(reader).pos() + 48,
        },
{
    let ghost start = reader.consumed();
    let total_debt0: u64 = reader.read_u64()?;
    let total_debt1: u64 = reader.read_u64()?;
    let total_debt0_shares: u128 = reader.read_u128()?;
    let total_debt1_shares: u128 = reader.read_u128()?;
    let ghost bytes = le_bytes(total_debt0 as nat, 8)
        + le_bytes(total_debt1 as nat, 8)
        + le_bytes(total_debt0_shares as nat, 16)
        + le_bytes(total_debt1_shares as nat, 16);
    assert(reader.consumed() =~= start + bytes);
    Some((total_debt0, total_debt1, total_debt0_shares, total_debt1_shares))
}

fn read_pair_totals(reader: &mut Reader) -> (value: Option<(u64, u64, u64)>)
    requires
        old(reader).wf(),
    ensures
        match value {
            Some((total_supply, total_collateral0, total_collateral1)) => final(reader).has_read(
                *old(reader),
                le_bytes(total_supply as nat, 8)
                    + le_bytes(total_collateral0 as nat, 8)
                    + le_bytes(total_collateral1 as nat, 8),
            ),
            None => old(reader).data().len() < old(reader).pos() + 24,
        },
{
    let ghost start = reader.consumed();
    let total_supply: u64 = reader.read_u64()?;
    let total_collateral0: u64 = reader.read_u64()?;
    let total_collateral1: u64 = reader.read_u64()?;
    let ghost bytes = le_bytes(total_supply as nat, 8)
        + le_bytes(total_collateral0 as nat, 8)
        + le_bytes(total_collateral1 as nat, 8);
    assert(reader.consumed() =~= start + bytes);
    Some((total_supply, total_collateral0, total_collateral1))
}

fn read_pair_setup(reader: &mut Reader) -> (value: Option<
    (u8, u8, [u8; 32], u8, u8, VaultBumps, bool),
>)
    requires
        old(reader).wf(),
    ensures
        match value {
            Some((
                token0_decimals,
                token1_decimals,
                params_hash,
                version,
                bump,
                vault_bumps,
                reduce_only,
            )) => final(reader).has_read(
                *old(reader),
                seq![token0_decimals]
                    + seq![token1_decimals]
                    + params_hash@
                    + seq![version]
                    + seq![bump]
                    + vault_bumps_bytes(vault_bumps)
                    + bool_bytes(reduce_only),
            ),
            None => {
                ||| old(reader).data().len() < old(reader).pos() + 41
                ||| old(reader).data()[old(reader).pos() + 40] > 1
            },
        },
{
    let ghost start = reader.consumed();
    let token0_decimals: u8 = reader.read_u8()?;
    let token1_decimals: u8 = reader.read_u8()?;
    let params_hash: [u8; 32] = reader.read_bytes32()?;
    let version: u8 = reader.read_u8()?;
    let bump: u8 = reader.read_u8()?;
    let vault_bumps = read_vault_bumps(reader)?;
    let reduce_only: bool = reader.read_bool()?;
    let ghost bytes = seq![token0_decimals]
        + seq![token1_decimals]
        + params_hash@
        + seq![version]
        + seq![bump]
        + vault_bumps_bytes(vault_bumps)
        + bool_bytes(reduce_only);
    assert(reader.consumed() =~= start + bytes);
    Some((token0_decimals, token1_decimals, params_hash, version, bump, vault_bumps, reduce_only))
}

fn read_pair(data: &[u8]) -> (value: Option<OmnipairPair>)
    ensures
        match value {
            Some(v) => pair_bytes(v).is_prefix_of(data@),
            None => !pair_shaped(data@),
        },
{
    let mut reader = Reader::new(data);
    let (token0, token1, lp_mint, rate_model) = read_pair_keys(&mut reader)?;
    let (swap_fee_bps, half_life, fixed_cf_bps) = read_pair_terms(&mut reader)?;
    let (reserve0, reserve1, cash_reserve0, cash_reserve1) = read_pair_reserves(&mut reader)?;
    let (
        last_price0_ema,
        last_price1_ema,
        last_update,
        last_rate0,
        last_rate1,
    ) = read_pair_rates(&mut reader)?;
    let (
        total_debt0,
        total_debt1,
        total_debt0_shares,
        total_debt1_shares,
    ) = read_pair_debts(&mut reader)?;
    let (total_supply, total_collateral0, total_collateral1) = read_pair_totals(&mut reader)?;
    let (
        token0_decimals,
        token1_decimals,
        params_hash,
        version,
        bump,
        vault_bumps,
        reduce_only,
    ) = read_pair_setup(&mut reader)?;
    let value = OmnipairPair {
        token0,
        token1,
        lp_mint,
        rate_model,
        swap_fee_bps,
        half_life,
        fixed_cf_bps,
        reserve0,
        reserve1,
        cash_reserve0,
        cash_reserve1,
        last_price0_ema,
        last_price1_ema,
        last_update,
        last_rate0,
        last_rate1,
        total_debt0,
        total_debt1,
        total_debt0_shares,
        total_debt1_shares,
        total_supply,
        total_collateral0,
        total_collateral1,
        token0_decimals,
        token1_decimals,
        params_hash,
        version,
        bump,
        vault_bumps,
        reduce_only,
    };
    assert(reader.consumed() =~= pair_bytes(value));
    Some(value)
}

/// The pair that account data hold; what follows it is not looked at.
pub fn deserialize_pair(data: &[u8]) -> (result: Result<OmnipairPair, TradingVenueError>)
    ensures
        result == pair_result(data@),
        result is Ok <==> data@.len() >= 8 && pair_shaped(data@.skip(8)),
        result matches Ok(v) ==> holds_pair(data@, v),
{
    if data.len() < 8 {
        return Err(
            TradingVenueError::DeserializationFailed(
                ErrorInfo::Message("omnipair pair data too short"),
            ),
        );
    }
    let body = vstd::slice::slice_subrange(data, 8, data.len());
    assert(body@ == data@.skip(8));
    match read_pair(body) {
        Some(v) => {
            proof {
                lemma_pair_prefix_shaped(v, body@);
                assert(holds_pair(data@, v));
                lemma_pair_unique(data@, v, choose|w: OmnipairPair| holds_pair(data@, w));
            }
            Ok(v)
        },
        None => {
            proof {
                assert forall|v: OmnipairPair| !holds_pair(data@, v) by {
                    if holds_pair(data@, v) {
                        lemma_pair_prefix_shaped(v, body@);
                    }
                }
            }
            Err(
                TradingVenueError::DeserializationFailed(
                    ErrorInfo::Message("omnipair pair anchor decode"),
                ),
            )
        },
    }
}

/// The rate model that account data hold; what follows it is not looked at.
pub fn deserialize_rate_model(data: &[u8]) -> (result: Result<OmnipairRateModel, TradingVenueError>)
    ensures
        result == rate_model_result(data@),
        result is Ok <==> data@.len() >= 64,
        result matches Ok(v) ==> holds_rate_model(data@, v),
{
    if data.len() < 8 {
        return Err(
            TradingVenueError::DeserializationFailed(
                ErrorInfo::Message("omnipair rate model data too short"),
            ),
        );
    }
    let body = vstd::slice::slice_subrange(data, 8, data.len());
    assert(body@ == data@.skip(8));
    let mut reader = Reader::new(body);
    match read_rate_model(&mut reader) {
        Some(v) => {
            proof {
                assert(reader.consumed() =~= rate_model_bytes(v));
                assert(holds_rate_model(data@, v));
                lemma_rate_model_unique(
                    data@,
                    v,
                    choose|w: OmnipairRateModel| holds_rate_model(data@, w),
                );
            }
            Ok(v)
        },
        None => Err(
            TradingVenueError::DeserializationFailed(
                ErrorInfo::Message("omnipair rate model anchor decode"),
            ),
        ),
    }
}

/// The futarchy authority that account data hold; what follows it is not looked at.
pub fn deserialize_futarchy_authority(data: &[u8]) -> (result: Result<
    OmnipairFutarchyAuthority,
    TradingVenueError,
>)
    ensures
        result == futarchy_authority_result(data@),
        result is Ok <==> data@.len() >= 8 && futarchy_authority_shaped(data@.skip(8)),
        result matches Ok(v) ==> holds_futarchy_authority(data@, v),
{
    if data.len() < 8 {
        return Err(
            TradingVenueError::DeserializationFailed(
                ErrorInfo::Message("omnipair futarchy authority data too short"),
            ),
        );
    }
    let body = vstd::slice::slice_subrange(data, 8, data.len());
    assert(body@ == data@.skip(8));
    match read_futarchy_authority(body) {
        Some(v) => {
            proof {
                lemma_futarchy_authority_prefix_shaped(v, body@);
                assert(holds_futarchy_authority(data@, v));
                lemma_futarchy_authority_unique(
                    data@,
                    v,
                    choose|w: OmnipairFutarchyAuthority| holds_futarchy_authority(data@, w),
                );
            }
            Ok(v)
        },
        None => {
            proof {
                assert forall|v: OmnipairFutarchyAuthority| !holds_futarchy_authority(data@, v) by {
                    if holds_futarchy_authority(data@, v) {
                        lemma_futarchy_authority_prefix_shaped(v, body@);
                    }
                }
            }
            Err(
                TradingVenueError::DeserializationFailed(
                    ErrorInfo::Message("omnipair futarchy anchor decode"),
                ),
            )
        },
    }
}

} // verus!
