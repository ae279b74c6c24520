//! The numeric scalar that angles carry: a binary fixed-point number with 32
//! fractional bits, together with the helpers that normalise and rescale raw
//! fixed-point values.

use vstd::arithmetic::div_mod::lemma_fundamental_div_mod;
use vstd::arithmetic::div_mod::lemma_fundamental_div_mod_converse_mod;
use vstd::arithmetic::div_mod::lemma_mod_bound;
use vstd::prelude::*;

verus! {

/// Number of raw units in one whole: a `Scalar` holding `units` stands for
/// the real number `units / SCALE`.
pub const SCALE: i128 = 4294967296;

/// Half a turn (pi radians) in raw units: pi * SCALE, rounded to nearest.
pub const PI_RAW: i128 = 13493037705;

/// A full turn (2 pi radians) in raw units.
pub const TWO_PI_RAW: i128 = 2 * PI_RAW;

/// A quarter turn (pi / 2 radians) in raw units: `PI_RAW` halved, rounded
/// down.
pub const HALF_PI_RAW: i128 = 6746518852;

/// A plain fixed-point scalar. The number it stands for is `units / SCALE`,
/// so `Scalar { units: SCALE }` is one, and the resolution is `1 / SCALE`.
#[derive(Clone, Copy, Debug, Hash, PartialEq, Eq, PartialOrd, Structural)]
pub struct Scalar {
    /// The raw count of `1 / SCALE` units.
    pub units: i128,
}

/// The raw value of `v` whole units, as a fixed-point count.
pub open spec fn spec_int_units(v: int) -> int {
    v * SCALE
}

/// The raw value of `v` thousandths, truncated toward zero as the host
/// division does.
pub open spec fn spec_milli_units(v: int) -> int {
    if v >= 0 {
        v * SCALE / 1000
    } else {
        -((-v) * SCALE / 1000)
    }
}

impl Scalar {
    /// The scalar standing for the integer `v`.
    pub fn from_int(v: i64) -> (r: Scalar)
        ensures
            r.units == spec_int_units(v as int),
    {
        Scalar { units: (v as i128) * SCALE }
    }

    /// The scalar standing for `v / 1000`, truncated toward zero.
    pub fn from_milli(v: i64) -> (r: Scalar)
        ensures
            r.units == spec_milli_units(v as int),
    {
        let w: i128 = (v as i128) * SCALE;
        Scalar { units: w / 1000 }
    }

    /// The closest representable value of pi.
    pub fn pi() -> (r: Scalar)
        ensures
            r.units == PI_RAW,
    {
        Scalar { units: PI_RAW }
    }
}

/// Reduces a raw value into `[0, p)`, the canonical range of a unit whose
/// period is `p`: the mathematical (flooring) remainder, so negative inputs
/// land at the top of the range rather than below zero.
pub(crate) fn wrap_units(x: i128, p: i128) -> (r: i128)
    requires
        1 <= p,
    ensures
        r == x % p,
{
    if x >= 0 {
        x % p
    } else {
        // -(x + 1) avoids the overflow that bare negation hits at i128::MIN.
        let m: i128 = (-(x + 1)) % p;
        proof {
            let u = -(x + 1);
            let d = p as int;
            lemma_fundamental_div_mod(u, d);
            lemma_mod_bound(u, d);
            let q = u / d;
            let w = u % d;
            assert(d * (-q - 1) == -(d * q) - d) by (nonlinear_arith);
            assert(x == d * (-q - 1) + (d - 1 - w));
            lemma_fundamental_div_mod_converse_mod(x as int, d, -q - 1, d - 1 - w);
        }
        p - 1 - m
    }
}

/// The rescaling that every unit conversion performs, as a function of the
/// raw payload and the two periods.
pub open spec fn spec_rescale(x: int, from: int, to: int) -> int {
    x * to / from
}

/// Rescales a canonical raw value from a unit of period `from` to a unit of
/// period `to`, truncating: the fraction `x / from` of a whole turn becomes
/// `r / to` of a whole turn, short by less than one raw unit.
pub(crate) fn rescale_units(x: i128, from: i128, to: i128) -> (r: i128)
    requires
        0 <= x < from,
        1 <= from <= 2000000000000,
        1 <= to <= 2000000000000,
    ensures
        r == spec_rescale(x as int, from as int, to as int),
        0 <= r < to,
{
    proof {
        assert(0 <= x * to && x * to < from * to && from * to < 0x10000000000000000000000000000)
            by (nonlinear_arith)
            requires
                0 <= x < from,
                1 <= from <= 2000000000000,
                1 <= to <= 2000000000000,
        ;
        vstd::arithmetic::div_mod::lemma_multiply_divide_lt(x * to, from as int, to as int);
        vstd::arithmetic::div_mod::lemma_div_pos_is_pos(x * to, from as int);
    }
    (x * to) / from
}

} // verus!
