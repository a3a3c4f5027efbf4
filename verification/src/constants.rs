//! Fixed parameters of the sale.

use vstd::prelude::*;

verus! {

/// Decimal places of the stable token that buyers pay with.
pub const USDC_DECIMALS: u8 = 6;

/// Decimal places of the token on sale.
pub const WALIEN_DECIMALS: u8 = 9;

/// Base units in one whole stable token.
pub const USDC_UNIT: u64 = 1_000_000;

/// The absolute ceiling, in base units of the stable token: no single purchase
/// may move more than this, and no purchase is served while the pool's
/// remaining inventory stands above it. It is 100 000 whole tokens.
pub const MAX_USDC_CAP: u64 = 100_000 * USDC_UNIT;

/// The ceiling is 100 000 whole tokens at `USDC_DECIMALS` decimal places.
pub proof fn max_usdc_cap_in_whole_tokens()
    ensures
        MAX_USDC_CAP == 100_000 * vstd::arithmetic::power::pow(10, USDC_DECIMALS as nat),
        MAX_USDC_CAP == 100_000_000_000u64,
{
    assert(vstd::arithmetic::power::pow(10, 6) == 1_000_000) by {
        reveal_with_fuel(vstd::arithmetic::power::pow, 7);
    }
}

} // verus!
