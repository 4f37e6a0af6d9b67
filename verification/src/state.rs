//! Omnipair accounts and the mathematics of a spot swap.

use vstd::prelude::*;

use crate::error::{ErrorInfo, TradingVenueError};
use crate::pubkey::Pubkey;
use crate::swap_laws::{lemma_amount_out_is_exact, lemma_ceil_quotient_bounds};

verus! {

/// Basis points in a whole.
pub const BPS_DENOMINATOR: u128 = 10_000;

/// First seed of the address of a reserve vault: `reserve_vault`.
pub const RESERVE_VAULT_SEED_PREFIX: [u8; 13] = [
    114, 101, 115, 101, 114, 118, 101, 95, 118, 97, 117, 108, 116,
];

/// The seed of the address of the futarchy authority: `futarchy_authority`.
pub const FUTARCHY_AUTHORITY_SEED_PREFIX: [u8; 18] = [
    102, 117, 116, 97, 114, 99, 104, 121, 95, 97, 117, 116, 104, 111, 114, 105, 116, 121,
];

/// The seed of the address that events are emitted under: `__event_authority`.
pub const EVENT_AUTHORITY_SEED: [u8; 17] = [
    95, 95, 101, 118, 101, 110, 116, 95, 97, 117, 116, 104, 111, 114, 105, 116, 121,
];

/// `omnixgS8fnqHfCcTGKWj6JtKjzpJZ1Y5y9pyFkQDkYE`
pub const OMNIPAIR_PROGRAM_ID: [u8; 32] = [
    11, 251, 92, 11, 114, 3, 99, 182, 51, 126, 79, 131, 109, 174, 185, 99, 95, 151, 212, 23, 98,
    149, 174, 154, 174, 86, 97, 243, 80, 253, 54, 207,
];

/// `TokenkegQfeZyiNwAJbNbGKPFXCWuBvf9Ss623VQ5DA`
pub const SPL_TOKEN_PROGRAM_ID: [u8; 32] = [
    6, 221, 246, 225, 215, 101, 161, 147, 217, 203, 225, 70, 206, 235, 121, 172, 28, 180, 133, 237,
    95, 91, 55, 145, 58, 140, 245, 133, 126, 255, 0, 169,
];

/// `TokenzQdBNbLqP5VEhdkAS6EPFLC1PHnBqCXEpPxuEb`
pub const TOKEN_2022_PROGRAM_ID: [u8; 32] = [
    6, 221, 246, 225, 238, 117, 143, 222, 24, 66, 93, 188, 228, 108, 205, 218, 182, 26, 252, 77,
    131, 185, 13, 39, 254, 189, 249, 40, 216, 161, 139, 252,
];

/// The account that holds the cluster's clock: `SysvarC1ock11111111111111111111111111111111`
pub const CLOCK_SYSVAR_ID: [u8; 32] = [
    6, 167, 213, 23, 24, 199, 116, 201, 40, 86, 99, 152, 105, 29, 94, 182, 139, 94, 184, 163, 155,
    75, 109, 92, 115, 85, 91, 33, 0, 0, 0, 0,
];

/// Discriminator of the Anchor instruction `swap` (`global:swap`).
pub const SWAP_INSTRUCTION_DISCRIMINATOR: [u8; 8] = [
    0xf8, 0xc6, 0x9e, 0x91, 0xe1, 0x75, 0x87, 0xc8,
];

/// `n / d`, rounded up.
pub open spec fn ceil_quotient(n: int, d: int) -> int {
    (n + d - 1) / d
}

/// The quotient rounded up; there is none by zero.
pub fn ceil_div(numerator: u128, denominator: u128) -> (quotient: Option<u128>)
    requires
        denominator != 0 ==> numerator + denominator <= u128::MAX,
    ensures
        match quotient {
            Some(q) => denominator != 0 && q == ceil_quotient(numerator as int, denominator as int),
            None => denominator == 0,
        },
        quotient matches Some(q) ==> numerator <= q * denominator < numerator + denominator,
{
    if denominator == 0 {
        return None;
    }
    proof {
        lemma_ceil_quotient_bounds(numerator as int, denominator as int);
    }
    Some((numerator + denominator - 1) / denominator)
}

#[derive(Debug, Clone, Copy, PartialEq, Eq, Structural)]
pub struct VaultBumps {
    pub reserve0: u8,
    pub reserve1: u8,
    pub collateral0: u8,
    pub collateral1: u8,
}

impl Default for VaultBumps {
    fn default() -> (bumps: Self)
        ensures
            bumps == (VaultBumps { reserve0: 0, reserve1: 0, collateral0: 0, collateral1: 0 }),
    {
        VaultBumps { reserve0: 0, reserve1: 0, collateral0: 0, collateral1: 0 }
    }
}

#[derive(Debug, Clone, Copy, PartialEq, Eq, Structural)]
pub struct LastPriceEMA {
    pub symmetric: u64,
    pub directional: u64,
}

impl Default for LastPriceEMA {
    fn default() -> (ema: Self)
        ensures
            ema == (LastPriceEMA { symmetric: 0, directional: 0 }),
    {
        LastPriceEMA { symmetric: 0, directional: 0 }
    }
}

/// A pair of tokens that can be swapped for each other, as its account holds it.
#[derive(Debug, Clone, Copy, PartialEq, Eq)]
pub struct OmnipairPair {
    pub token0: Pubkey,
    pub token1: Pubkey,
    pub lp_mint: Pubkey,
    pub rate_model: Pubkey,
    pub swap_fee_bps: u16,
    pub half_life: u64,
    pub fixed_cf_bps: Option<u16>,
    pub reserve0: u64,
    pub reserve1: u64,
    pub cash_reserve0: u64,
    pub cash_reserve1: u64,
    pub last_price0_ema: LastPriceEMA,
    pub last_price1_ema: LastPriceEMA,
    pub last_update: u64,
    pub last_rate0: u64,
    pub last_rate1: u64,
    pub total_debt0: u64,
    pub total_debt1: u64,
    pub total_debt0_shares: u128,
    pub total_debt1_shares: u128,
    pub total_supply: u64,
    pub total_collateral0: u64,
    pub total_collateral1: u64,
    pub token0_decimals: u8,
    pub token1_decimals: u8,
    pub params_hash: [u8; 32],
    pub version: u8,
    pub bump: u8,
    pub vault_bumps: VaultBumps,
    pub reduce_only: bool,
}

#[derive(Debug, Clone, Copy, PartialEq, Eq, Structural)]
pub struct OmnipairRateModel {
    pub exp_rate: u64,
    pub target_util_start: u64,
    pub target_util_end: u64,
    pub half_life_ms: u64,
    pub min_rate: u64,
    pub max_rate: u64,
    pub initial_rate: u64,
}

#[derive(Debug, Clone, Copy, PartialEq, Eq, Structural)]
pub struct RevenueShare {
    pub swap_bps: u16,
    pub interest_bps: u16,
}

impl Default for RevenueShare {
    fn default() -> (share: Self)
        ensures
            share == (RevenueShare { swap_bps: 0, interest_bps: 0 }),
    {
        RevenueShare { swap_bps: 0, interest_bps: 0 }
    }
}

#[derive(Debug, Clone, Copy, PartialEq, Eq)]
pub struct RevenueRecipients {
    pub futarchy_treasury: Pubkey,
    pub buybacks_vault: Pubkey,
    pub team_treasury: Pubkey,
}

impl Default for RevenueRecipients {
    fn default() -> (recipients: Self)
        ensures
            recipients.futarchy_treasury@ == Seq::new(32, |i: int| 0u8),
            recipients.buybacks_vault@ == Seq::new(32, |i: int| 0u8),
            recipients.team_treasury@ == Seq::new(32, |i: int| 0u8),
    {
        RevenueRecipients {
            futarchy_treasury: Pubkey::default(),
            buybacks_vault: Pubkey::default(),
            team_treasury: Pubkey::default(),
        }
    }
}

#[derive(Debug, Clone, Copy, PartialEq, Eq, Structural)]
pub struct RevenueDistribution {
    pub futarchy_treasury_bps: u16,
    pub buybacks_vault_bps: u16,
    pub team_treasury_bps: u16,
}

impl Default for RevenueDistribution {
    fn default() -> (distribution: Self)
        ensures
            distribution == (RevenueDistribution {
                futarchy_treasury_bps: 0,
                buybacks_vault_bps: 0,
                team_treasury_bps: 0,
            }),
    {
        RevenueDistribution {
            futarchy_treasury_bps: 0,
            buybacks_vault_bps: 0,
            team_treasury_bps: 0,
        }
    }
}

#[derive(Debug, Clone, Copy, PartialEq, Eq)]
pub struct OmnipairFutarchyAuthority {
    pub version: u8,
    pub authority: Pubkey,
    pub recipients: RevenueRecipients,
    pub revenue_share: RevenueShare,
    pub revenue_distribution: RevenueDistribution,
    pub global_reduce_only: bool,
    pub bump: u8,
}

/// What a swap would pay out and what it would cost.
#[derive(Debug, Clone, Copy, PartialEq, Eq, Structural)]
pub struct SwapQuote {
    pub amount_out: u64,
    pub fee_amount: u64,
}

/// What a constant-product pool pays for `amount_in`, rounded down: Δy = (Δx * y) / (x + Δx).
pub open spec fn constant_product_out(reserve_in: int, reserve_out: int, amount_in: int) -> int {
    (amount_in * reserve_out) / (reserve_in + amount_in)
}

/// The fee on `amount_in`, rounded up.
pub open spec fn swap_fee(amount_in: int, fee_bps: int) -> int {
    ceil_quotient(amount_in * fee_bps, 10_000)
}

/// The fee as a quote carries it: its 64 least significant bits. Up to a fee of 100% that is the
/// fee itself.
pub open spec fn charged_fee(amount_in: int, fee_bps: int) -> int {
    swap_fee(amount_in, fee_bps) % 0x1_0000_0000_0000_0000
}

/// What a constant-product pool pays is less than all it has.
pub proof fn lemma_constant_product_out_bounds(reserve_in: int, reserve_out: int, amount_in: int)
    requires
        0 <= reserve_in,
        0 <= reserve_out,
        0 <= amount_in,
        reserve_in + amount_in > 0,
    ensures
        0 <= constant_product_out(reserve_in, reserve_out, amount_in) <= reserve_out,
        reserve_in > 0 && reserve_out > 0 ==> constant_product_out(
            reserve_in,
            reserve_out,
            amount_in,
        ) < reserve_out,
{
    let d = reserve_in + amount_in;
    let n = amount_in * reserve_out;
    let q = n / d;
    vstd::arithmetic::div_mod::lemma_fundamental_div_mod(n, d);
    assert(0 <= n) by (nonlinear_arith)
        requires
            0 <= amount_in,
            0 <= reserve_out,
            n == amount_in * reserve_out,
    ;
    vstd::arithmetic::div_mod::lemma_div_pos_is_pos(n, d);
    assert(n <= reserve_out * d && (reserve_in > 0 && reserve_out > 0 ==> n < reserve_out * d))
        by (nonlinear_arith)
        requires
            n == amount_in * reserve_out,
            d == reserve_in + amount_in,
            0 <= reserve_in,
            0 <= reserve_out,
            0 <= amount_in,
    ;
    assert(q <= reserve_out && (n < reserve_out * d ==> q < reserve_out)) by (nonlinear_arith)
        requires
            d > 0,
            d * q <= n,
            n <= reserve_out * d,
    ;
}

impl OmnipairPair {
    /// The reserve that an input joins, the reserve that pays for it, and how much of the latter
    /// the pair has in cash.
    pub open spec fn reserves_for(self, token0_in: bool) -> (u64, u64, u64) {
        if token0_in {
            (self.reserve0, self.reserve1, self.cash_reserve1)
        } else {
            (self.reserve1, self.reserve0, self.cash_reserve0)
        }
    }

    /// What a quote for `amount_in` of `input_mint` says.
    pub open spec fn quote_result(self, amount_in: u64, input_mint: Pubkey) -> Result<
        SwapQuote,
        TradingVenueError,
    > {
        let (reserve_in, reserve_out, cash_out) = self.reserves_for(input_mint == self.token0);
        let fee = charged_fee(amount_in as int, self.swap_fee_bps as int);
        let amount_out = constant_product_out(
            reserve_in as int,
            reserve_out as int,
            amount_in - fee,
        );
        if input_mint != self.token0 && input_mint != self.token1 {
            Err(TradingVenueError::InvalidMint(ErrorInfo::Key(input_mint)))
        } else if reserve_in == 0 || reserve_out == 0 {
            Err(TradingVenueError::AmmMethodError(ErrorInfo::Message("invalid reserves")))
        } else if fee > amount_in {
            Err(TradingVenueError::MathError(ErrorInfo::Message("amount after fee underflow")))
        } else if amount_out > cash_out {
            Err(
                TradingVenueError::AmmMethodError(
                    ErrorInfo::Message("insufficient cash reserve for output"),
                ),
            )
        } else {
            Ok(SwapQuote { amount_out: amount_out as u64, fee_amount: fee as u64 })
        }
    }

    /// Constant-product swap: Δy = (Δx * y) / (x + Δx)
    pub fn calculate_amount_out(
        reserve_in: u64,
        reserve_out: u64,
        amount_in: u64,
    ) -> (result: Result<u64, TradingVenueError>)
        ensures
            match result {
                Ok(amount_out) => {
                    &&& reserve_in + amount_in > 0
                    &&& amount_out * (reserve_in + amount_in) <= amount_in * reserve_out < (
                    amount_out + 1) * (reserve_in + amount_in)
                    &&& amount_out == constant_product_out(
                        reserve_in as int,
                        reserve_out as int,
                        amount_in as int,
                    )
                },
                Err(error) => {
                    &&& reserve_in + amount_in == 0
                    &&& error == TradingVenueError::MathError(ErrorInfo::Message("amount out div"))
                },
            },
    {
        let denominator: u128 = reserve_in as u128 + amount_in as u128;
        if denominator == 0 {
            return Err(TradingVenueError::MathError(ErrorInfo::Message("amount out div")));
        }
        proof {
            lemma_constant_product_out_bounds(
                reserve_in as int,
                reserve_out as int,
                amount_in as int,
            );
            lemma_amount_out_is_exact(reserve_in as int, reserve_out as int, amount_in as int);
            assert(amount_in * reserve_out <= u64::MAX * u64::MAX) by (nonlinear_arith)
                requires
                    amount_in <= u64::MAX,
                    reserve_out <= u64::MAX,
            ;
        }
        let amount_out: u128 = (amount_in as u128 * reserve_out as u128) / denominator;
        Ok(amount_out as u64)
    }

    /// Spot swap quote: fee on input, then constant product; enforces cash reserve on output.
    pub fn swap_quote(&self, amount_in: u64, input_mint: Pubkey) -> (result: Result<
        SwapQuote,
        TradingVenueError,
    >)
        ensures
            result == self.quote_result(amount_in, input_mint),
    {
        let is_token0_in = input_mint == self.token0;
        if !is_token0_in && input_mint != self.token1 {
            return Err(TradingVenueError::InvalidMint(ErrorInfo::Key(input_mint)));
        }
        let (reserve_in, reserve_out, cash_reserve_out): (u64, u64, u64) = if is_token0_in {
            (self.reserve0, self.reserve1, self.cash_reserve1)
        } else {
            (self.reserve1, self.reserve0, self.cash_reserve0)
        };
        if reserve_in == 0 || reserve_out == 0 {
            return Err(TradingVenueError::AmmMethodError(ErrorInfo::Message("invalid reserves")));
        }
        proof {
            assert(amount_in * self.swap_fee_bps <= u64::MAX * u16::MAX) by (nonlinear_arith)
                requires
                    amount_in <= u64::MAX,
                    self.swap_fee_bps <= u16::MAX,
            ;
        }
        let fee: u128 = match ceil_div(
            amount_in as u128 * self.swap_fee_bps as u128,
            BPS_DENOMINATOR,
        ) {
            Some(fee) => fee,
            None => return Err(TradingVenueError::MathError(ErrorInfo::Message("fee div"))),
        };
        assert(fee as u64 == fee % 0x1_0000_0000_0000_0000u128) by (bit_vector);
        let fee_amount: u64 = #[verifier::truncate] (fee as u64);
        if fee_amount > amount_in {
            return Err(
                TradingVenueError::MathError(ErrorInfo::Message("amount after fee underflow")),
            );
        }
        proof {
            lemma_constant_product_out_bounds(
                reserve_in as int,
                reserve_out as int,
                amount_in - fee_amount,
            );
        }
        let amount_out: u64 = match Self::calculate_amount_out(
            reserve_in,
            reserve_out,
            amount_in - fee_amount,
        ) {
            Ok(amount_out) => amount_out,
            Err(error) => return Err(error),
        };
        if amount_out > cash_reserve_out {
            return Err(
                TradingVenueError::AmmMethodError(
                    ErrorInfo::Message("insufficient cash reserve for output"),
                ),
            );
        }
        Ok(SwapQuote { amount_out, fee_amount })
    }
}

} // verus!
