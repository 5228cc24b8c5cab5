//! Conversion of an amount in the ledger's unit, given as an IEEE 754
//! double, to atomic units.
//!
//! The amount comes as the 64 bits of the double, and everything is done in
//! integers: the bits are taken apart, the exact product with the conversion
//! factor is rounded to the 53 significant bits that a double holds (to the
//! nearest, ties to even), and the fraction is cut off. That is what the
//! multiplication of two doubles and a saturating cast to `u64` compute.

use crate::balance::LAMPORTS_PER_UNIT;
use vstd::arithmetic::div_mod::lemma_div_denominator;
use vstd::arithmetic::power2::{lemma2_to64, lemma_pow2_unfold, pow2};
use vstd::prelude::*;

verus! {

/// Two to the power 52: the hidden bit of a double's significand.
pub const HIDDEN_BIT: u64 = 0x10_0000_0000_0000;

/// Two to the power 53: the first integer that 53 bits cannot hold.
pub const SIGNIFICAND_LIMIT: u128 = 0x20_0000_0000_0000;

/// Two to the power 63: the sign bit of a double.
pub const SIGN_BIT: u64 = 0x8000_0000_0000_0000;

/// The bits of plus infinity.
pub const PLUS_INFINITY: u64 = 0x7FF0_0000_0000_0000;

/// `value` halved `times` times, each time rounding down.
pub open spec fn halved(value: nat, times: nat) -> nat
    decreases times,
{
    if times == 0 {
        value
    } else {
        halved(value / 2, (times - 1) as nat)
    }
}

/// The power of two in whose multiples `value` is written once it is cut to
/// 53 significant bits.
pub open spec fn rounding_unit(value: nat) -> nat
    decreases value,
{
    if value < SIGNIFICAND_LIMIT {
        1
    } else {
        2 * rounding_unit(value / 2)
    }
}

/// `value` rounded to 53 significant bits: to the nearest multiple of its
/// rounding unit, and of two that are equally near to the even one.
pub open spec fn rounded(value: nat) -> nat {
    let unit = rounding_unit(value);
    let quotient = value / unit;
    let rest = value % unit;
    if 2 * rest > unit || (2 * rest == unit && quotient % 2 == 1) {
        (quotient + 1) * unit
    } else {
        quotient * unit
    }
}

/// True where the bits are those of a double that is neither negative (nor
/// minus zero), nor infinite, nor not a number.
pub open spec fn is_amount(bits: u64) -> bool {
    bits / SIGN_BIT == 0 && (bits / HIDDEN_BIT) % 2048 != 2047
}

/// The significand of the double with the bits `bits`, as a whole number.
pub open spec fn significand(bits: u64) -> nat {
    if (bits / HIDDEN_BIT) % 2048 == 0 {
        (bits % HIDDEN_BIT) as nat
    } else {
        (bits % HIDDEN_BIT + HIDDEN_BIT) as nat
    }
}

/// The exponent of the double with the bits `bits`: the double is its
/// significand times two to this power.
pub open spec fn exponent(bits: u64) -> int {
    if (bits / HIDDEN_BIT) % 2048 == 0 {
        -1074
    } else {
        (bits / HIDDEN_BIT) % 2048 - 1075
    }
}

/// The atomic units for the amount whose double has the bits `bits`.
/// What is no amount gives 0, but for plus infinity, which gives `u64::MAX`
/// as every amount does that is too large for `u64`. Otherwise the result
/// is the product of the significand and the conversion factor, rounded as
/// a double is and then halved once for each power of two that the exponent
/// is below zero.
pub open spec fn atomic_units(bits: u64) -> u64 {
    if !is_amount(bits) {
        if bits == PLUS_INFINITY {
            u64::MAX
        } else {
            0
        }
    } else if exponent(bits) >= 0 {
        u64::MAX
    } else {
        let product = rounded(significand(bits) * LAMPORTS_PER_UNIT as nat);
        let units = halved(product, (-exponent(bits)) as nat);
        if units > u64::MAX {
            u64::MAX
        } else {
            units as u64
        }
    }
}

/// Halving cuts the fraction off and never rounds up: `halved(value, times)`
/// is the one whole number `h` with `h * 2^times <= value < (h + 1) * 2^times`.
pub proof fn lemma_halved_truncates(value: nat, times: nat)
    ensures
        halved(value, times) * pow2(times) <= value < (halved(value, times) + 1) * pow2(times),
    decreases times,
{
    if times == 0 {
        lemma2_to64();
    } else {
        lemma_halved_truncates(value / 2, (times - 1) as nat);
        lemma_pow2_unfold(times);
        let h = halved(value, times) as int;
        let p = pow2((times - 1) as nat) as int;
        let half = (value / 2) as int;
        assert(h * (2 * p) <= value && value < (h + 1) * (2 * p)) by (nonlinear_arith)
            requires
                h * p <= half,
                half < (h + 1) * p,
                2 * half <= value,
                value <= 2 * half + 1,
        ;
    }
}

/// The conversion cuts off and never rounds up: the atomic units, scaled
/// back by the powers of two that were halved away, do not exceed the
/// rounded product.
pub proof fn lemma_conversion_truncates(bits: u64)
    requires
        is_amount(bits),
        exponent(bits) < 0,
    ensures
        atomic_units(bits) * pow2((-exponent(bits)) as nat) <= rounded(
            significand(bits) * LAMPORTS_PER_UNIT as nat,
        ),
{
    let product = rounded(significand(bits) * LAMPORTS_PER_UNIT as nat);
    let times = (-exponent(bits)) as nat;
    lemma_halved_truncates(product, times);
    let units = atomic_units(bits) as int;
    let exact = halved(product, times) as int;
    let scale = pow2(times) as int;
    assert(units * scale <= exact * scale) by (nonlinear_arith)
        requires
            0 <= units <= exact,
            0 <= scale,
    ;
}

/// Converts an amount, given as the bits of its double, to atomic units.
pub fn lamports_from_bits(bits: u64) -> (lamports: u64)
    ensures
        lamports == atomic_units(bits),
{
    if bits == PLUS_INFINITY {
        return u64::MAX;
    }
    let biased: u64 = (bits / HIDDEN_BIT) % 2048;
    if bits / SIGN_BIT != 0 || biased == 2047 {
        return 0;
    }
    if biased >= 1075 {
        return u64::MAX;
    }
    let fraction: u64 = bits % HIDDEN_BIT;
    let significand: u64 = if biased == 0 {
        fraction
    } else {
        fraction + HIDDEN_BIT
    };
    let shift: u64 = if biased == 0 {
        1074
    } else {
        1075 - biased
    };
    let product: u128 = (significand as u128) * (LAMPORTS_PER_UNIT as u128);

    let mut unit: u128 = 1;
    let mut quotient: u128 = product;
    while quotient >= SIGNIFICAND_LIMIT
        invariant
            product < SIGNIFICAND_LIMIT * LAMPORTS_PER_UNIT,
            1 <= unit <= 2 * LAMPORTS_PER_UNIT,
            quotient == product / unit,
            quotient * unit <= product,
            rounding_unit(product as nat) == unit * rounding_unit(quotient as nat),
        decreases quotient,
    {
        proof {
            let q = quotient as int;
            let u = unit as int;
            let p = product as int;
            lemma_div_denominator(p, u, 2);
            assert(u < 1_000_000_000) by (nonlinear_arith)
                requires
                    q >= 0x20_0000_0000_0000,
                    u >= 1,
                    q * u <= p,
                    p < 0x20_0000_0000_0000 * 1_000_000_000,
            ;
            let h = q / 2;
            assert(h * (u * 2) <= q * u) by (nonlinear_arith)
                requires
                    0 <= 2 * h <= q,
                    u >= 1,
            ;
            let r = rounding_unit((quotient / 2) as nat) as int;
            assert(u * (2 * r) == (u * 2) * r) by (nonlinear_arith);
        }
        quotient = quotient / 2;
        unit = unit * 2;
    }
    let rest: u128 = product % unit;
    let round_up = 2 * rest > unit || (2 * rest == unit && quotient % 2 == 1);
    let significant: u128 = if round_up {
        quotient + 1
    } else {
        quotient
    };
    assert(rounding_unit(quotient as nat) == 1);
    assert(rounding_unit(product as nat) == unit) by (nonlinear_arith)
        requires
            rounding_unit(product as nat) == unit * rounding_unit(quotient as nat),
            rounding_unit(quotient as nat) == 1,
    ;
    assert(significant * unit <= 0x20_0000_0000_0000 * 2_000_000_000) by (nonlinear_arith)
        requires
            0 <= significant <= 0x20_0000_0000_0000,
            0 <= unit <= 2_000_000_000,
    ;
    let mut units: u128 = significant * unit;
    assert(units == rounded(product as nat));
    let mut done: u64 = 0;
    while done < shift
        invariant
            done <= shift,
            halved(units as nat, (shift - done) as nat) == halved(
                rounded(product as nat),
                shift as nat,
            ),
        decreases shift - done,
    {
        units = units / 2;
        done = done + 1;
    }
    if units > u64::MAX as u128 {
        u64::MAX
    } else {
        units as u64
    }
}

} // verus!
