//! Unit conversions between the host chain and the destination chain.
//!
//! A native value amount is split losslessly into a large-denomination
//! component and a small remainder that fits the destination encoding, and
//! a resource budget is converted with a fixed multiplier, rounding up so
//! the destination action is never under-budgeted.

use vstd::prelude::*;

verus! {

/// How many small value units make one destination-chain value unit.
pub const VALUE_UNIT: u128 = 1_000_000;

/// How many host-chain gas units make one destination-chain gas unit.
pub const GAS_MULTIPLIER: u64 = 100_000_000;

/// Splits `deposit` into `(large, remainder)` with
/// `large * VALUE_UNIT + remainder == deposit` and `remainder < VALUE_UNIT`.
pub fn convert_deposit(deposit: u128) -> (r: (u128, u32))
    ensures
        r.0 == deposit / VALUE_UNIT,
        r.1 == deposit % VALUE_UNIT,
        r.0 * VALUE_UNIT + r.1 == deposit,
        r.1 < VALUE_UNIT,
{
    let value_large = deposit / VALUE_UNIT;
    let remainder = (deposit % VALUE_UNIT) as u32;
    proof {
        assert(value_large * VALUE_UNIT + remainder == deposit) by (nonlinear_arith)
            requires
                value_large == deposit / VALUE_UNIT,
                remainder == deposit % VALUE_UNIT,
                VALUE_UNIT == 1_000_000,
        ;
    }
    (value_large, remainder)
}

/// The exact ceiling of `gas / GAS_MULTIPLIER` as mathematical integers.
pub open spec fn converted_gas(gas: u64) -> int {
    (gas + GAS_MULTIPLIER - 1) as int / GAS_MULTIPLIER as int
}

/// Converts a host-chain resource budget to destination-chain gas units,
/// rounding up: the converted budget always covers the source budget.
pub fn near_gas_to_evm_gas(near_gas: u64) -> (r: u64)
    ensures
        r == converted_gas(near_gas),
        r * GAS_MULTIPLIER >= near_gas,
        near_gas % GAS_MULTIPLIER == 0 ==> r * GAS_MULTIPLIER == near_gas,
{
    let wide: u128 = (near_gas as u128 + GAS_MULTIPLIER as u128 - 1) / GAS_MULTIPLIER as u128;
    let r = wide as u64;
    proof {
        lemma_ceil_div_covers(near_gas as int, GAS_MULTIPLIER as int);
    }
    r
}

/// Ceiling division by a positive divisor covers the dividend, exactly so
/// on multiples.
proof fn lemma_ceil_div_covers(g: int, m: int)
    requires
        g >= 0,
        m > 0,
    ensures
        ((g + m - 1) / m) * m >= g,
        g % m == 0 ==> ((g + m - 1) / m) * m == g,
        (g + m - 1) / m >= 0,
{
    let q = (g + m - 1) / m;
    assert(q * m >= g && (g % m == 0 ==> q * m == g) && q >= 0) by (nonlinear_arith)
        requires
            g >= 0,
            m > 0,
            q == (g + m - 1) / m,
    ;
}

/// Splitting any amount loses nothing: the large component scaled back
/// up plus the remainder reconstructs the amount exactly, and the
/// remainder always fits the destination encoding.
pub proof fn lemma_value_split_round_trip(v: u128)
    ensures
        (v / VALUE_UNIT) * VALUE_UNIT + (v % VALUE_UNIT) == v,
        v % VALUE_UNIT < VALUE_UNIT,
{
    assert((v / VALUE_UNIT) * VALUE_UNIT + (v % VALUE_UNIT) == v && v % VALUE_UNIT < VALUE_UNIT)
        by (nonlinear_arith)
        requires
            VALUE_UNIT == 1_000_000,
    ;
}

/// A converted budget never under-budgets: scaled back to source units
/// it covers the source budget, and exactly so on multiples of the
/// multiplier.
pub proof fn lemma_gas_conversion_covers(g: u64)
    ensures
        converted_gas(g) * GAS_MULTIPLIER >= g,
        g % GAS_MULTIPLIER == 0 ==> converted_gas(g) * GAS_MULTIPLIER == g,
{
    lemma_ceil_div_covers(g as int, GAS_MULTIPLIER as int);
}

/// Converted budgets never shrink when the source budget grows.
pub proof fn lemma_gas_conversion_monotonic(g1: u64, g2: u64)
    requires
        g1 <= g2,
    ensures
        converted_gas(g1) <= converted_gas(g2),
{
    assert((g1 + GAS_MULTIPLIER - 1) as int / GAS_MULTIPLIER as int
        <= (g2 + GAS_MULTIPLIER - 1) as int / GAS_MULTIPLIER as int) by (nonlinear_arith)
        requires
            g1 <= g2,
            GAS_MULTIPLIER == 100_000_000,
    ;
}

} // verus!
