//! Reading accounts.

use omnipair::accounts::{deserialize_futarchy_authority, deserialize_pair, deserialize_rate_model};
use omnipair::clock::clock_slot;
use omnipair::error::{ErrorInfo, TradingVenueError};
use omnipair::pubkey::Pubkey;
use omnipair::state::{
    LastPriceEMA, OmnipairFutarchyAuthority, OmnipairPair, OmnipairRateModel, RevenueDistribution,
    RevenueRecipients, RevenueShare, VaultBumps,
};

fn failed(message: &'static str) -> TradingVenueError {
    TradingVenueError::DeserializationFailed(ErrorInfo::Message(message))
}

fn key(byte: u8) -> Pubkey {
    let mut bytes = [byte; 32];
    bytes[0] = 0xa0;
    bytes[31] = 0x0a;
    Pubkey::new_from_array(bytes)
}

fn sample_pair(fixed_cf_bps: Option<u16>) -> OmnipairPair {
    OmnipairPair {
        token0: key(1),
        token1: key(2),
        lp_mint: key(3),
        rate_model: key(4),
        swap_fee_bps: 0x0102,
        half_life: 0x0102_0304_0506_0708,
        fixed_cf_bps,
        reserve0: 11,
        reserve1: 12,
        cash_reserve0: 13,
        cash_reserve1: 14,
        last_price0_ema: LastPriceEMA { symmetric: 15, directional: 16 },
        last_price1_ema: LastPriceEMA { symmetric: 17, directional: 18 },
        last_update: 19,
        last_rate0: 20,
        last_rate1: 21,
        total_debt0: 22,
        total_debt1: 23,
        total_debt0_shares: u128::MAX - 1,
        total_debt1_shares: 1 << 100,
        total_supply: 24,
        total_collateral0: 25,
        total_collateral1: u64::MAX,
        token0_decimals: 6,
        token1_decimals: 9,
        params_hash: key(9).to_bytes(),
        version: 2,
        bump: 254,
        vault_bumps: VaultBumps { reserve0: 1, reserve1: 2, collateral0: 3, collateral1: 4 },
        reduce_only: true,
    }
}

fn pair_data(p: &OmnipairPair) -> Vec<u8> {
    let mut d: Vec<u8> = vec![0xd0, 0xd1, 0xd2, 0xd3, 0xd4, 0xd5, 0xd6, 0xd7];
    for k in [p.token0, p.token1, p.lp_mint, p.rate_model] {
        d.extend_from_slice(&k.to_bytes());
    }
    d.extend_from_slice(&p.swap_fee_bps.to_le_bytes());
    d.extend_from_slice(&p.half_life.to_le_bytes());
    match p.fixed_cf_bps {
        None => d.push(0),
        Some(v) => {
            d.push(1);
            d.extend_from_slice(&v.to_le_bytes());
        }
    }
    for v in [
        p.reserve0,
        p.reserve1,
        p.cash_reserve0,
        p.cash_reserve1,
        p.last_price0_ema.symmetric,
        p.last_price0_ema.directional,
        p.last_price1_ema.symmetric,
        p.last_price1_ema.directional,
        p.last_update,
        p.last_rate0,
        p.last_rate1,
        p.total_debt0,
        p.total_debt1,
    ] {
        d.extend_from_slice(&v.to_le_bytes());
    }
    d.extend_from_slice(&p.total_debt0_shares.to_le_bytes());
    d.extend_from_slice(&p.total_debt1_shares.to_le_bytes());
    for v in [p.total_supply, p.total_collateral0, p.total_collateral1] {
        d.extend_from_slice(&v.to_le_bytes());
    }
    d.push(p.token0_decimals);
    d.push(p.token1_decimals);
    d.extend_from_slice(&p.params_hash);
    d.push(p.version);
    d.push(p.bump);
    d.push(p.vault_bumps.reserve0);
    d.push(p.vault_bumps.reserve1);
    d.push(p.vault_bumps.collateral0);
    d.push(p.vault_bumps.collateral1);
    d.push(if p.reduce_only { 1 } else { 0 });
    d
}

#[test]
fn pair_is_read_back() {
    for cf in [None, Some(0x0304u16)] {
        let pair = sample_pair(cf);
        let mut data = pair_data(&pair);
        assert_eq!(data.len(), if cf.is_none() { 348 } else { 350 });
        assert_eq!(deserialize_pair(&data), Ok(pair));
        data[0] = 0;
        data.push(0xff);
        data.push(0xee);
        assert_eq!(deserialize_pair(&data), Ok(pair));
    }
}

#[test]
fn pair_needs_all_its_bytes() {
    let data = pair_data(&sample_pair(Some(7)));
    for n in 0..data.len() {
        let expected = if n < 8 { "omnipair pair data too short" } else { "omnipair pair anchor decode" };
        assert_eq!(deserialize_pair(&data[..n]), Err(failed(expected)));
    }
}

#[test]
fn pair_tag_and_flag_are_checked() {
    let mut data = pair_data(&sample_pair(None));
    data[8 + 138] = 2;
    assert_eq!(deserialize_pair(&data), Err(failed("omnipair pair anchor decode")));
    let mut data = pair_data(&sample_pair(None));
    let last = data.len() - 1;
    data[last] = 2;
    assert_eq!(deserialize_pair(&data), Err(failed("omnipair pair anchor decode")));
    data[last] = 0;
    assert!(!deserialize_pair(&data).unwrap().reduce_only);
}

#[test]
fn rate_model_is_read_back() {
    let model = OmnipairRateModel {
        exp_rate: 1,
        target_util_start: 0x0102_0304_0506_0708,
        target_util_end: 3,
        half_life_ms: 4,
        min_rate: 5,
        max_rate: u64::MAX,
        initial_rate: 7,
    };
    let mut data: Vec<u8> = vec![9; 8];
    for v in [1, 0x0102_0304_0506_0708, 3, 4, 5, u64::MAX, 7] {
        data.extend_from_slice(&u64::to_le_bytes(v));
    }
    assert_eq!(deserialize_rate_model(&data), Ok(model));
    data.push(1);
    assert_eq!(deserialize_rate_model(&data), Ok(model));
    assert_eq!(
        deserialize_rate_model(&data[..63]),
        Err(failed("omnipair rate model anchor decode")),
    );
    assert_eq!(
        deserialize_rate_model(&data[..7]),
        Err(failed("omnipair rate model data too short")),
    );
}

#[test]
fn futarchy_authority_is_read_back() {
    let authority = OmnipairFutarchyAuthority {
        version: 3,
        authority: key(1),
        recipients: RevenueRecipients {
            futarchy_treasury: key(2),
            buybacks_vault: key(3),
            team_treasury: key(4),
        },
        revenue_share: RevenueShare { swap_bps: 0x0506, interest_bps: 0x0708 },
        revenue_distribution: RevenueDistribution {
            futarchy_treasury_bps: 9,
            buybacks_vault_bps: 10,
            team_treasury_bps: 11,
        },
        global_reduce_only: true,
        bump: 255,
    };
    let mut data: Vec<u8> = vec![0; 8];
    data.push(3);
    for k in [key(1), key(2), key(3), key(4)] {
        data.extend_from_slice(&k.to_bytes());
    }
    for v in [0x0506u16, 0x0708, 9, 10, 11] {
        data.extend_from_slice(&v.to_le_bytes());
    }
    data.push(1);
    data.push(255);
    assert_eq!(deserialize_futarchy_authority(&data), Ok(authority));
    assert_eq!(
        deserialize_futarchy_authority(&data[..data.len() - 1]),
        Err(failed("omnipair futarchy anchor decode")),
    );
    assert_eq!(
        deserialize_futarchy_authority(&data[..0]),
        Err(failed("omnipair futarchy authority data too short")),
    );
    let flag = data.len() - 2;
    data[flag] = 2;
    assert_eq!(
        deserialize_futarchy_authority(&data),
        Err(failed("omnipair futarchy anchor decode")),
    );
    data[flag] = 0;
    assert!(!deserialize_futarchy_authority(&data).unwrap().global_reduce_only);
}

#[test]
fn clock_slot_is_read_back() {
    let mut data: Vec<u8> = Vec::new();
    data.extend_from_slice(&0x0102_0304_0506_0708u64.to_le_bytes());
    data.extend_from_slice(&(-1i64).to_le_bytes());
    data.extend_from_slice(&2u64.to_le_bytes());
    data.extend_from_slice(&3u64.to_le_bytes());
    data.extend_from_slice(&4i64.to_le_bytes());
    assert_eq!(clock_slot(&data), Ok(0x0102_0304_0506_0708));
    assert_eq!(clock_slot(&data[..39]), Err(failed("clock sysvar")));
    assert_eq!(clock_slot(&[]), Err(failed("clock sysvar")));
    data.push(9);
    assert_eq!(clock_slot(&data), Ok(0x0102_0304_0506_0708));
}
