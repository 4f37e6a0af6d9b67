//! Swap mathematics and the constants of the program.

use omnipair::error::{ErrorInfo, TradingVenueError};
use omnipair::pubkey::Pubkey;
use omnipair::state::{
    ceil_div, LastPriceEMA, OmnipairPair, RevenueDistribution, RevenueRecipients, RevenueShare,
    SwapQuote, VaultBumps, CLOCK_SYSVAR_ID, EVENT_AUTHORITY_SEED, FUTARCHY_AUTHORITY_SEED_PREFIX,
    OMNIPAIR_PROGRAM_ID, RESERVE_VAULT_SEED_PREFIX, SPL_TOKEN_PROGRAM_ID, TOKEN_2022_PROGRAM_ID,
};

fn unique() -> Pubkey {
    Pubkey::new_from_array(solana_pubkey::Pubkey::new_unique().to_bytes())
}

fn pair(token0: Pubkey, token1: Pubkey) -> OmnipairPair {
    OmnipairPair {
        token0,
        token1,
        lp_mint: Pubkey::default(),
        rate_model: Pubkey::default(),
        swap_fee_bps: 30,
        half_life: 0,
        fixed_cf_bps: None,
        reserve0: 1_000_000_000,
        reserve1: 1_000_000_000,
        cash_reserve0: 1_000_000_000,
        cash_reserve1: 1_000_000_000,
        last_price0_ema: LastPriceEMA::default(),
        last_price1_ema: LastPriceEMA::default(),
        last_update: 0,
        last_rate0: 0,
        last_rate1: 0,
        total_debt0: 0,
        total_debt1: 0,
        total_debt0_shares: 0,
        total_debt1_shares: 0,
        total_supply: 0,
        total_collateral0: 0,
        total_collateral1: 0,
        token0_decimals: 9,
        token1_decimals: 9,
        params_hash: [0; 32],
        version: 1,
        bump: 0,
        vault_bumps: VaultBumps::default(),
        reduce_only: false,
    }
}

#[test]
fn constant_product_matches_sdk() {
    let out = OmnipairPair::calculate_amount_out(1_000_000, 1_000_000, 100_000).unwrap();
    assert_eq!(out, 90_909);
}

#[test]
fn swap_quote_with_fee_matches_sdk() {
    let token0 = unique();
    let token1 = unique();
    let pair = OmnipairPair {
        token0,
        token1,
        lp_mint: Pubkey::default(),
        rate_model: Pubkey::default(),
        swap_fee_bps: 30,
        half_life: 0,
        fixed_cf_bps: None,
        reserve0: 1_000_000_000,
        reserve1: 1_000_000_000,
        cash_reserve0: 1_000_000_000,
        cash_reserve1: 1_000_000_000,
        last_price0_ema: LastPriceEMA::default(),
        last_price1_ema: LastPriceEMA::default(),
        last_update: 0,
        last_rate0: 0,
        last_rate1: 0,
        total_debt0: 0,
        total_debt1: 0,
        total_debt0_shares: 0,
        total_debt1_shares: 0,
        total_supply: 0,
        total_collateral0: 0,
        total_collateral1: 0,
        token0_decimals: 9,
        token1_decimals: 9,
        params_hash: [0; 32],
        version: 1,
        bump: 0,
        vault_bumps: VaultBumps::default(),
        reduce_only: false,
    };

    let result = pair.swap_quote(1_000_000, token0).unwrap();
    assert_eq!(result.fee_amount, 3000);
    assert_eq!(result.amount_out, 996_006);
}

#[test]
fn ceil_div_rounds_up() {
    assert_eq!(ceil_div(7, 2), Some(4));
    assert_eq!(ceil_div(8, 2), Some(4));
    assert_eq!(ceil_div(0, 5), Some(0));
    assert_eq!(ceil_div(1, 10_000), Some(1));
    assert_eq!(ceil_div(1, 0), None);
    assert_eq!(ceil_div(u128::MAX, 0), None);
    assert_eq!(ceil_div(u128::MAX - 3, 3), Some((u128::MAX - 3) / 3));
}

#[test]
fn amount_out_of_an_empty_pool() {
    assert_eq!(
        OmnipairPair::calculate_amount_out(0, 10, 0),
        Err(TradingVenueError::MathError(ErrorInfo::Message("amount out div"))),
    );
    assert_eq!(OmnipairPair::calculate_amount_out(0, 10, 1), Ok(10));
    assert_eq!(OmnipairPair::calculate_amount_out(10, 0, 5), Ok(0));
}

#[test]
fn amount_out_at_the_limits() {
    let max = u64::MAX;
    assert_eq!(OmnipairPair::calculate_amount_out(max, max, max), Ok(max / 2));
    assert_eq!(OmnipairPair::calculate_amount_out(0, max, max), Ok(max));
    assert_eq!(OmnipairPair::calculate_amount_out(1, max, max), Ok(max - 1));
}

#[test]
fn quote_uses_the_side_of_the_input() {
    let token0 = unique();
    let token1 = unique();
    let mut pair = pair(token0, token1);
    pair.reserve0 = 2_000_000_000;
    pair.cash_reserve0 = 2_000_000_000;
    assert_eq!(
        pair.swap_quote(1_000_000, token0),
        Ok(SwapQuote { amount_out: 498_251, fee_amount: 3000 }),
    );
    assert_eq!(
        pair.swap_quote(1_000_000, token1),
        Ok(SwapQuote { amount_out: 1_992_013, fee_amount: 3000 }),
    );
}

#[test]
fn quote_refuses_other_mints() {
    let pair = pair(unique(), unique());
    let other = unique();
    assert_eq!(
        pair.swap_quote(1, other),
        Err(TradingVenueError::InvalidMint(ErrorInfo::Key(other))),
    );
}

#[test]
fn quote_needs_reserves() {
    let token0 = unique();
    let token1 = unique();
    let error = Err(TradingVenueError::AmmMethodError(ErrorInfo::Message("invalid reserves")));
    let mut empty0 = pair(token0, token1);
    empty0.reserve0 = 0;
    assert_eq!(empty0.swap_quote(1, token0), error);
    assert_eq!(empty0.swap_quote(1, token1), error);
    let mut empty1 = pair(token0, token1);
    empty1.reserve1 = 0;
    assert_eq!(empty1.swap_quote(1, token0), error);
    assert_eq!(empty1.swap_quote(1, token1), error);
}

#[test]
fn quote_is_limited_by_cash() {
    let token0 = unique();
    let token1 = unique();
    let mut pair = pair(token0, token1);
    pair.cash_reserve1 = 996_006;
    assert!(pair.swap_quote(1_000_000, token0).is_ok());
    pair.cash_reserve1 = 996_005;
    assert_eq!(
        pair.swap_quote(1_000_000, token0),
        Err(TradingVenueError::AmmMethodError(ErrorInfo::Message(
            "insufficient cash reserve for output"
        ))),
    );
}

#[test]
fn fee_of_the_whole_amount_and_more() {
    let token0 = unique();
    let mut pair = pair(token0, unique());
    pair.swap_fee_bps = 10_000;
    assert_eq!(
        pair.swap_quote(77, token0),
        Ok(SwapQuote { amount_out: 0, fee_amount: 77 }),
    );
    pair.swap_fee_bps = 10_001;
    assert_eq!(
        pair.swap_quote(77, token0),
        Err(TradingVenueError::MathError(ErrorInfo::Message("amount after fee underflow"))),
    );
}

#[test]
fn fee_beyond_sixty_four_bits_is_cut() {
    let token0 = unique();
    let mut pair = pair(token0, unique());
    pair.swap_fee_bps = 20_000;
    // The exact fee is twice the amount, 2^65 - 2; its low 64 bits are 2^64 - 2.
    assert_eq!(
        pair.swap_quote(u64::MAX, token0),
        Ok(SwapQuote { amount_out: 0, fee_amount: u64::MAX - 1 }),
    );
}

#[test]
fn smallest_amounts_are_eaten_by_the_fee() {
    let token0 = unique();
    let pair = pair(token0, unique());
    assert_eq!(
        pair.swap_quote(1, token0),
        Ok(SwapQuote { amount_out: 0, fee_amount: 1 }),
    );
    assert_eq!(
        pair.swap_quote(0, token0),
        Ok(SwapQuote { amount_out: 0, fee_amount: 0 }),
    );
}

#[test]
fn product_of_reserves_never_shrinks() {
    for (x, y, dx) in [(1u64, 1u64, 1u64), (3, 1_000, 17), (1_000_000, 999, 1), (u64::MAX, 5, 9)] {
        let out = OmnipairPair::calculate_amount_out(x, y, dx).unwrap();
        let before = x as u128 * y as u128;
        let after = (x as u128 + dx as u128) * (y as u128 - out as u128);
        assert!(before <= after);
        assert!(out < y);
    }
}

#[test]
fn round_trip_gives_no_profit() {
    for (x, y, dx) in [(1_000u64, 1_000u64, 100u64), (3, 1_000, 17), (1_000_000, 999, 123_456)] {
        let out = OmnipairPair::calculate_amount_out(x, y, dx).unwrap();
        let back = OmnipairPair::calculate_amount_out(y - out, x + dx, out).unwrap();
        assert!(back <= dx);
    }
}

#[test]
fn larger_amounts_are_paid_no_less() {
    let token0 = unique();
    let pair = pair(token0, unique());
    let mut last: u64 = 0;
    for amount in [0u64, 1, 2, 333, 334, 10_000, 10_001, 5_000_000] {
        let quote = pair.swap_quote(amount, token0).unwrap();
        assert!(last <= quote.amount_out);
        last = quote.amount_out;
    }
}

#[test]
fn order_of_tokens_makes_no_difference() {
    let token0 = unique();
    let token1 = unique();
    let mut first = pair(token0, token1);
    first.reserve1 = 3_000_000;
    first.cash_reserve1 = 2_000_000;
    let mut second = pair(token1, token0);
    second.reserve0 = 3_000_000;
    second.cash_reserve0 = 2_000_000;
    for amount in [1u64, 1_000, 1_000_000, 5_000_000_000] {
        assert_eq!(first.swap_quote(amount, token0), second.swap_quote(amount, token0));
        assert_eq!(first.swap_quote(amount, token1), second.swap_quote(amount, token1));
    }
}

#[test]
fn addresses_are_those_of_the_programs() {
    assert_eq!(
        OMNIPAIR_PROGRAM_ID,
        solana_pubkey::Pubkey::from_str_const("omnixgS8fnqHfCcTGKWj6JtKjzpJZ1Y5y9pyFkQDkYE").to_bytes(),
    );
    assert_eq!(
        SPL_TOKEN_PROGRAM_ID,
        solana_pubkey::Pubkey::from_str_const("TokenkegQfeZyiNwAJbNbGKPFXCWuBvf9Ss623VQ5DA").to_bytes(),
    );
    assert_eq!(
        TOKEN_2022_PROGRAM_ID,
        solana_pubkey::Pubkey::from_str_const("TokenzQdBNbLqP5VEhdkAS6EPFLC1PHnBqCXEpPxuEb").to_bytes(),
    );
    assert_eq!(CLOCK_SYSVAR_ID, solana_sdk_ids::sysvar::clock::ID.to_bytes());
}

#[test]
fn seeds_are_their_texts() {
    assert_eq!(&RESERVE_VAULT_SEED_PREFIX, b"reserve_vault");
    assert_eq!(&FUTARCHY_AUTHORITY_SEED_PREFIX, b"futarchy_authority");
    assert_eq!(&EVENT_AUTHORITY_SEED, b"__event_authority");
}

#[test]
fn defaults_are_zero() {
    assert_eq!(Pubkey::default().to_bytes(), [0u8; 32]);
    assert_eq!(
        VaultBumps::default(),
        VaultBumps { reserve0: 0, reserve1: 0, collateral0: 0, collateral1: 0 },
    );
    assert_eq!(LastPriceEMA::default(), LastPriceEMA { symmetric: 0, directional: 0 });
    assert_eq!(RevenueShare::default(), RevenueShare { swap_bps: 0, interest_bps: 0 });
    assert_eq!(RevenueRecipients::default().team_treasury, Pubkey::default());
    assert_eq!(RevenueDistribution::default().team_treasury_bps, 0);
}

#[test]
fn addresses_differ_where_a_byte_does() {
    let mut bytes = [7u8; 32];
    let key = Pubkey::new_from_array(bytes);
    assert_eq!(key, Pubkey::new_from_array([7u8; 32]));
    bytes[31] = 8;
    assert_ne!(key, Pubkey::new_from_array(bytes));
}
