//! Trigonometric evaluation of angles: sine, cosine and tangent through the
//! `Trigonometry` trait, and the inverse constructors `asin`, `acos` and
//! `atan`.
//!
//! The forward functions first bring the angle into radians and then
//! evaluate a fixed-point Taylor polynomial on the reduced argument; the
//! inverse functions bisect against that same polynomial, so every result is
//! pinned exactly to the polynomial the contracts name.

use crate::angle::Angle;
use crate::angle::AngleError;
use crate::angle::Unit;
use crate::scalar::spec_rescale;
use crate::scalar::Scalar;
use crate::scalar::HALF_PI_RAW;
use crate::scalar::PI_RAW;
use crate::scalar::SCALE;
use crate::scalar::TWO_PI_RAW;
use vstd::arithmetic::div_mod::lemma_fundamental_div_mod_converse_div;
use vstd::arithmetic::div_mod::lemma_fundamental_div_mod_converse_mod;
use vstd::prelude::*;

verus! {

/// Where the fixed-point tangent saturates when the cosine vanishes: the
/// raw value standing for `SCALE`, far beyond any quotient the polynomial
/// produces elsewhere.
pub const TAN_SAT_RAW: i128 = SCALE * SCALE;

/// Marks the scalar types the angle algebra accepts as payloads.
pub trait BaseFloat: Sized + Copy {

}

impl BaseFloat for Scalar {

}

/// The truncated Taylor polynomial of sine on the first quadrant, evaluated
/// in raw fixed-point units: terms through the ninth power of the argument.
pub open spec fn spec_sin_quarter(y: int) -> int {
    let sc = SCALE as int;
    let y2 = y * y / sc;
    let y3 = y2 * y / sc;
    let y5 = y3 * y2 / sc;
    let y7 = y5 * y2 / sc;
    let y9 = y7 * y2 / sc;
    y - y3 / 6 + y5 / 120 - y7 / 5040 + y9 / 362880
}

/// Sine on the first half turn, by the quadrant symmetry `sin(pi - y) ==
/// sin(y)`.
pub open spec fn spec_sin_half(x: int) -> int {
    if x <= HALF_PI_RAW {
        spec_sin_quarter(x)
    } else {
        spec_sin_quarter(PI_RAW - x)
    }
}

/// Sine of a canonical radian payload, by the symmetry `sin(x + pi) ==
/// -sin(x)`.
pub open spec fn spec_sin_units(x: int) -> int {
    if x < PI_RAW {
        spec_sin_half(x)
    } else {
        -spec_sin_half(x - PI_RAW)
    }
}

/// Cosine of a canonical radian payload: sine shifted a quarter turn.
pub open spec fn spec_cos_units(x: int) -> int {
    spec_sin_units((x + HALF_PI_RAW) % (TWO_PI_RAW as int))
}

/// The magnitude of a raw value.
pub open spec fn mag(x: int) -> int {
    if x >= 0 {
        x
    } else {
        -x
    }
}

/// Tangent of a canonical radian payload: the fixed-point quotient of sine
/// by cosine, truncated toward zero, saturating where the cosine vanishes.
pub open spec fn spec_tan_units(x: int) -> int {
    let s = spec_sin_units(x);
    let c = spec_cos_units(x);
    if c == 0 {
        if s >= 0 {
            TAN_SAT_RAW as int
        } else {
            -(TAN_SAT_RAW as int)
        }
    } else {
        let q = mag(s) * SCALE / mag(c);
        if (s >= 0) == (c >= 0) {
            q
        } else {
            -q
        }
    }
}

/// The canonical radian payload a numeric angle evaluates at.
pub open spec fn spec_rad_value(a: Angle) -> int {
    spec_rescale(a.units(), a.period(), TWO_PI_RAW as int)
}

/// Evaluates the quarter-range sine polynomial.
fn sin_quarter_units(y: i128) -> (r: i128)
    requires
        0 <= y <= HALF_PI_RAW + 1,
    ensures
        r == spec_sin_quarter(y as int),
        -2 * SCALE <= r <= 2 * SCALE,
{
    proof {
        assert(0 <= y * y && y * y <= 45600000000000000000i128) by (nonlinear_arith)
            requires
                0 <= y <= 6746518853i128,
        ;
    }
    let y2: i128 = y * y / SCALE;
    proof {
        assert(0 <= y2 * y && y2 * y <= 71700000000000000000i128) by (nonlinear_arith)
            requires
                0 <= y2 <= 10620000000i128,
                0 <= y <= 6746518853i128,
        ;
    }
    let y3: i128 = y2 * y / SCALE;
    proof {
        assert(0 <= y3 * y2 && y3 * y2 <= 177400000000000000000i128) by (nonlinear_arith)
            requires
                0 <= y3 <= 16700000000i128,
                0 <= y2 <= 10620000000i128,
        ;
    }
    let y5: i128 = y3 * y2 / SCALE;
    proof {
        assert(0 <= y5 * y2 && y5 * y2 <= 438800000000000000000i128) by (nonlinear_arith)
            requires
                0 <= y5 <= 41310000000i128,
                0 <= y2 <= 10620000000i128,
        ;
    }
    let y7: i128 = y5 * y2 / SCALE;
    proof {
        assert(0 <= y7 * y2 && y7 * y2 <= 1085100000000000000000i128) by (nonlinear_arith)
            requires
                0 <= y7 <= 102170000000i128,
                0 <= y2 <= 10620000000i128,
        ;
    }
    let y9: i128 = y7 * y2 / SCALE;
    y - y3 / 6 + y5 / 120 - y7 / 5040 + y9 / 362880
}

/// Evaluates sine on any canonical radian payload, by quadrant reduction.
fn sin_units(x: i128) -> (r: i128)
    requires
        0 <= x < TWO_PI_RAW,
    ensures
        r == spec_sin_units(x as int),
        -2 * SCALE <= r <= 2 * SCALE,
{
    if x < PI_RAW {
        if x <= HALF_PI_RAW {
            sin_quarter_units(x)
        } else {
            sin_quarter_units(PI_RAW - x)
        }
    } else {
        let t = x - PI_RAW;
        if t <= HALF_PI_RAW {
            -sin_quarter_units(t)
        } else {
            -sin_quarter_units(PI_RAW - t)
        }
    }
}

/// Evaluates cosine on a canonical radian payload: sine a quarter turn on.
fn cos_units(x: i128) -> (r: i128)
    requires
        0 <= x < TWO_PI_RAW,
    ensures
        r == spec_cos_units(x as int),
        -2 * SCALE <= r <= 2 * SCALE,
{
    let sh = x + HALF_PI_RAW;
    let w = if sh >= TWO_PI_RAW {
        sh - TWO_PI_RAW
    } else {
        sh
    };
    proof {
        if sh >= TWO_PI_RAW {
            lemma_fundamental_div_mod_converse_mod(
                sh as int,
                TWO_PI_RAW as int,
                1,
                sh - TWO_PI_RAW,
            );
        } else {
            lemma_fundamental_div_mod_converse_mod(sh as int, TWO_PI_RAW as int, 0, sh as int);
        }
    }
    sin_units(w)
}

/// Evaluates tangent on a canonical radian payload.
fn tan_units(x: i128) -> (r: i128)
    requires
        0 <= x < TWO_PI_RAW,
    ensures
        r == spec_tan_units(x as int),
{
    let s = sin_units(x);
    let c = cos_units(x);
    if c == 0 {
        if s >= 0 {
            TAN_SAT_RAW
        } else {
            -TAN_SAT_RAW
        }
    } else {
        let sm = if s >= 0 {
            s
        } else {
            -s
        };
        let cm = if c >= 0 {
            c
        } else {
            -c
        };
        proof {
            vstd::arithmetic::div_mod::lemma_div_pos_is_pos(sm * (SCALE as int), cm as int);
        }
        let q = (sm * SCALE) / cm;
        if (s >= 0) == (c >= 0) {
            q
        } else {
            -q
        }
    }
}

/// Represents an object for which trigonometric methods are sensible and
/// return `Scalar` values.
pub trait Trigonometry {
    /// Whether the object is in the state its trigonometric contracts
    /// speak of.
    spec fn trig_wf(&self) -> bool;

    /// What `sin` returns.
    spec fn sin_spec(&self) -> Result<Scalar, AngleError>;

    /// What `cos` returns.
    spec fn cos_spec(&self) -> Result<Scalar, AngleError>;

    /// What `tan` returns.
    spec fn tan_spec(&self) -> Result<Scalar, AngleError>;

    /// Compute the sine of the object.
    fn sin(&self) -> (r: Result<Scalar, AngleError>)
        requires
            self.trig_wf(),
        ensures
            r == self.sin_spec(),
    ;

    /// Compute the cosine of the object.
    fn cos(&self) -> (r: Result<Scalar, AngleError>)
        requires
            self.trig_wf(),
        ensures
            r == self.cos_spec(),
    ;

    /// Compute the tangent of the object.
    fn tan(&self) -> (r: Result<Scalar, AngleError>)
        requires
            self.trig_wf(),
        ensures
            r == self.tan_spec(),
    ;
}

impl Trigonometry for Angle {
    /// The contracts apply to angles whose payload is canonical.
    open spec fn trig_wf(&self) -> bool {
        self.wf()
    }

    /// Sine of the angle brought into radians; unsupported for a clock
    /// face.
    open spec fn sin_spec(&self) -> Result<Scalar, AngleError> {
        if self.is_clock() {
            Err(AngleError::UnsupportedVariantOperation)
        } else {
            Ok(Scalar { units: spec_sin_units(spec_rad_value(*self)) as i128 })
        }
    }

    /// Cosine of the angle brought into radians; unsupported for a clock
    /// face.
    open spec fn cos_spec(&self) -> Result<Scalar, AngleError> {
        if self.is_clock() {
            Err(AngleError::UnsupportedVariantOperation)
        } else {
            Ok(Scalar { units: spec_cos_units(spec_rad_value(*self)) as i128 })
        }
    }

    /// Tangent of the angle brought into radians; unsupported for a clock
    /// face.
    open spec fn tan_spec(&self) -> Result<Scalar, AngleError> {
        if self.is_clock() {
            Err(AngleError::UnsupportedVariantOperation)
        } else {
            Ok(Scalar { units: spec_tan_units(spec_rad_value(*self)) as i128 })
        }
    }

    fn sin(&self) -> (r: Result<Scalar, AngleError>) {
        match self {
            Angle::Clock { .. } => Err(AngleError::UnsupportedVariantOperation),
            _ => {
                let rad = self.convert(Unit::Radians);
                Ok(Scalar { units: sin_units(rad.units_value()) })
            },
        }
    }

    fn cos(&self) -> (r: Result<Scalar, AngleError>) {
        match self {
            Angle::Clock { .. } => Err(AngleError::UnsupportedVariantOperation),
            _ => {
                let rad = self.convert(Unit::Radians);
                Ok(Scalar { units: cos_units(rad.units_value()) })
            },
        }
    }

    fn tan(&self) -> (r: Result<Scalar, AngleError>) {
        match self {
            Angle::Clock { .. } => Err(AngleError::UnsupportedVariantOperation),
            _ => {
                let rad = self.convert(Unit::Radians);
                Ok(Scalar { units: tan_units(rad.units_value()) })
            },
        }
    }
}

/// Calculate the sine.
pub fn sin<T: Trigonometry>(t: T) -> (r: Result<Scalar, AngleError>)
    requires
        t.trig_wf(),
    ensures
        r == t.sin_spec(),
{
    t.sin()
}

/// Calculate the cosine.
pub fn cos<T: Trigonometry>(t: T) -> (r: Result<Scalar, AngleError>)
    requires
        t.trig_wf(),
    ensures
        r == t.cos_spec(),
{
    t.cos()
}

/// Calculate the tangent.
pub fn tan<T: Trigonometry>(t: T) -> (r: Result<Scalar, AngleError>)
    requires
        t.trig_wf(),
    ensures
        r == t.tan_spec(),
{
    t.tan()
}

/// Sine on the signed quarter-range `[-pi/2, pi/2]`, by odd symmetry.
pub open spec fn spec_sin_signed(t: int) -> int {
    if t >= 0 {
        spec_sin_quarter(t)
    } else {
        -spec_sin_quarter(-t)
    }
}

/// Cosine on the signed quarter-range, by even symmetry and the quarter
/// shift.
pub open spec fn spec_cos_signed(t: int) -> int {
    spec_sin_quarter(HALF_PI_RAW - mag(t))
}

/// The input `asin` and `acos` search for, clamped into the range the sine
/// polynomial reaches on `[-pi/2, pi/2]`.
pub open spec fn spec_sine_clamp(v: int) -> int {
    let q = spec_sin_quarter(HALF_PI_RAW as int);
    if v > q {
        q
    } else if v < -q {
        -q
    } else {
        v
    }
}

/// The input `atan` searches for, clamped to the saturation value of the
/// fixed-point tangent.
pub open spec fn spec_tan_clamp(v: int) -> int {
    if v > TAN_SAT_RAW {
        TAN_SAT_RAW as int
    } else if v < -TAN_SAT_RAW {
        -(TAN_SAT_RAW as int)
    } else {
        v
    }
}

/// The signed angle a canonical radian payload stands for: payloads above
/// pi read as their negative counterparts.
pub open spec fn spec_principal(w: int) -> int {
    if w > PI_RAW {
        w - (TWO_PI_RAW as int)
    } else {
        w
    }
}

/// What `atan` drives to zero: the signed gap `sin(t) * SCALE - c * cos(t)`,
/// which has the sign of `tan(t) - c / SCALE` wherever the cosine is
/// positive.
pub open spec fn spec_tan_gap(t: int, c: int) -> int {
    spec_sin_signed(t) * (SCALE as int) - c * spec_cos_signed(t)
}

/// Evaluates sine on the signed quarter-range.
fn sin_signed_units(t: i128) -> (r: i128)
    requires
        -HALF_PI_RAW <= t <= HALF_PI_RAW,
    ensures
        r == spec_sin_signed(t as int),
        -2 * SCALE <= r <= 2 * SCALE,
{
    if t >= 0 {
        sin_quarter_units(t)
    } else {
        -sin_quarter_units(-t)
    }
}

/// Evaluates cosine on the signed quarter-range.
fn cos_signed_units(t: i128) -> (r: i128)
    requires
        -HALF_PI_RAW <= t <= HALF_PI_RAW,
    ensures
        r == spec_cos_signed(t as int),
        -2 * SCALE <= r <= 2 * SCALE,
{
    let a = if t >= 0 {
        t
    } else {
        -t
    };
    sin_quarter_units(HALF_PI_RAW - a)
}

/// Evaluates the gap that `atan` bisects on.
fn tan_gap_units(t: i128, c: i128) -> (r: i128)
    requires
        -HALF_PI_RAW <= t <= HALF_PI_RAW,
        -TAN_SAT_RAW <= c <= TAN_SAT_RAW,
    ensures
        r == spec_tan_gap(t as int, c as int),
{
    let s = sin_signed_units(t);
    let co = cos_signed_units(t);
    proof {
        assert(-200000000000000000000000000000i128 <= c * co
            && c * co <= 200000000000000000000000000000i128) by (nonlinear_arith)
            requires
                -18446744073709551616i128 <= c <= 18446744073709551616i128,
                -8589934592i128 <= co <= 8589934592i128,
        ;
    }
    s * SCALE - c * co
}

/// Pins the value of the quarter-range sine polynomial at a quarter turn:
/// one whole and a sliver, the sliver being what truncating the series
/// leaves behind.
proof fn lemma_sin_quarter_at_half_pi()
    ensures
        spec_sin_quarter(HALF_PI_RAW as int) == 4294982512,
{
    let y: int = HALF_PI_RAW as int;
    let sc: int = SCALE as int;
    assert(y == 6746518852 && sc == 4294967296);
    assert(y * y == 45515516620391397904) by (nonlinear_arith)
        requires
            y == 6746518852,
    ;
    lemma_fundamental_div_mod_converse_div(45515516620391397904, 4294967296, 10597407030, 4140907024);
    let y2 = y * y / sc;
    assert(y2 == 10597407030);
    assert(y2 * y == 71495606310212329560) by (nonlinear_arith)
        requires
            y2 == 10597407030,
            y == 6746518852,
    ;
    lemma_fundamental_div_mod_converse_div(71495606310212329560, 4294967296, 16646368035, 2707546200);
    let y3 = y2 * y / sc;
    assert(y3 == 16646368035);
    assert(y3 * y2 == 176408337638076286050) by (nonlinear_arith)
        requires
            y3 == 16646368035,
            y2 == 10597407030,
    ;
    lemma_fundamental_div_mod_converse_div(176408337638076286050, 4294967296, 41073266798, 783647842);
    let y5 = y3 * y2 / sc;
    assert(y5 == 41073266798);
    assert(y5 * y2 == 435270126310190789940) by (nonlinear_arith)
        requires
            y5 == 41073266798,
            y2 == 10597407030,
    ;
    lemma_fundamental_div_mod_converse_div(435270126310190789940, 4294967296, 101344223672, 441759028);
    let y7 = y5 * y2 / sc;
    assert(y7 == 101344223672);
    assert(y7 * y2 == 1073985988391545214160) by (nonlinear_arith)
        requires
            y7 == 101344223672,
            y2 == 10597407030,
    ;
    lemma_fundamental_div_mod_converse_div(1073985988391545214160, 4294967296, 250056848952, 1893340368);
    let y9 = y7 * y2 / sc;
    assert(y9 == 250056848952);
    lemma_fundamental_div_mod_converse_div(16646368035, 6, 2774394672, 3);
    lemma_fundamental_div_mod_converse_div(41073266798, 120, 342277223, 38);
    lemma_fundamental_div_mod_converse_div(101344223672, 5040, 20107980, 4472);
    lemma_fundamental_div_mod_converse_div(250056848952, 362880, 689089, 232632);
    assert(y - y3 / 6 + y5 / 120 - y7 / 5040 + y9 / 362880 == 4294982512);
}

/// Bisects the sine polynomial on `[-pi/2, pi/2]` for a clamped target:
/// the returned `t` and its successor bracket the target.
fn arcsine_core(c: i128) -> (t: i128)
    requires
        -spec_sin_quarter(HALF_PI_RAW as int) <= c <= spec_sin_quarter(HALF_PI_RAW as int),
    ensures
        -HALF_PI_RAW <= t < HALF_PI_RAW,
        spec_sin_signed(t as int) <= c,
        c <= spec_sin_signed(t + 1),
{
    let mut lo: i128 = -HALF_PI_RAW;
    let mut hi: i128 = HALF_PI_RAW;
    while hi - lo > 1
        invariant
            -HALF_PI_RAW <= lo < hi <= HALF_PI_RAW,
            spec_sin_signed(lo as int) <= c,
            c <= spec_sin_signed(hi as int),
        decreases hi - lo,
    {
        let mid = lo + (hi - lo) / 2;
        let v = sin_signed_units(mid);
        if v <= c {
            lo = mid;
        } else {
            hi = mid;
        }
    }
    lo
}

/// Wraps a signed quarter-range angle into a canonical radian payload, and
/// relates the two through `spec_principal`.
fn principal_to_payload(t: i128) -> (w: i128)
    requires
        -HALF_PI_RAW <= t <= HALF_PI_RAW,
    ensures
        0 <= w < TWO_PI_RAW,
        spec_principal(w as int) == t as int,
        w as int == (t as int) % (TWO_PI_RAW as int),
{
    if t >= 0 {
        proof {
            lemma_fundamental_div_mod_converse_mod(t as int, TWO_PI_RAW as int, 0, t as int);
        }
        t
    } else {
        proof {
            lemma_fundamental_div_mod_converse_mod(
                t as int,
                TWO_PI_RAW as int,
                -1,
                t + TWO_PI_RAW,
            );
        }
        t + TWO_PI_RAW
    }
}

/// Clamps a raw target into the range the sine polynomial reaches on the
/// signed quarter-range.
fn clamp_to_sine_range(v: i128) -> (c: i128)
    ensures
        c == spec_sine_clamp(v as int),
        -spec_sin_quarter(HALF_PI_RAW as int) <= c <= spec_sin_quarter(HALF_PI_RAW as int),
{
    proof {
        lemma_sin_quarter_at_half_pi();
    }
    let q = sin_quarter_units(HALF_PI_RAW);
    if v > q {
        q
    } else if v < -q {
        -q
    } else {
        v
    }
}

/// Calculate the arcsine, as an angle in radians.
///
/// The result is the bisection root of the quarter-range sine polynomial:
/// read back as a signed angle, it and its successor bracket the input
/// (clamped into the polynomial's reach).
pub fn asin(s: Scalar) -> (r: Angle)
    ensures
        r.wf(),
        !r.is_clock(),
        r.unit() == Unit::Radians,
        ({
            let t = spec_principal(r.units());
            &&& -HALF_PI_RAW <= t < HALF_PI_RAW
            &&& spec_sin_signed(t) <= spec_sine_clamp(s.units as int)
            &&& spec_sine_clamp(s.units as int) <= spec_sin_signed(t + 1)
        }),
{
    let c = clamp_to_sine_range(s.units);
    let t = arcsine_core(c);
    let w = principal_to_payload(t);
    Angle::Rad(Scalar { units: w })
}

/// Calculate the arccosine, as an angle in radians.
///
/// Defined as a quarter turn less the arcsine: the payload read back from
/// the result through that identity brackets the input exactly as `asin`'s
/// does.
pub fn acos(s: Scalar) -> (r: Angle)
    ensures
        r.wf(),
        !r.is_clock(),
        r.unit() == Unit::Radians,
        ({
            let t = HALF_PI_RAW - r.units();
            &&& -HALF_PI_RAW <= t < HALF_PI_RAW
            &&& spec_sin_signed(t) <= spec_sine_clamp(s.units as int)
            &&& spec_sine_clamp(s.units as int) <= spec_sin_signed(t + 1)
        }),
{
    let c = clamp_to_sine_range(s.units);
    let t = arcsine_core(c);
    Angle::Rad(Scalar { units: HALF_PI_RAW - t })
}

/// Calculate the arctangent, as an angle in radians.
///
/// The result is the bisection root of the tangent gap: read back as a
/// signed angle, it and its successor bracket the point where the gap
/// changes sign, which is where the fixed-point tangent passes the input
/// (clamped at the tangent's saturation value).
pub fn atan(s: Scalar) -> (r: Angle)
    ensures
        r.wf(),
        !r.is_clock(),
        r.unit() == Unit::Radians,
        ({
            let t = spec_principal(r.units());
            let c = spec_tan_clamp(s.units as int);
            &&& -HALF_PI_RAW <= t < HALF_PI_RAW
            &&& spec_tan_gap(t, c) <= 0
            &&& 0 <= spec_tan_gap(t + 1, c)
        }),
{
    let c = if s.units > TAN_SAT_RAW {
        TAN_SAT_RAW
    } else if s.units < -TAN_SAT_RAW {
        -TAN_SAT_RAW
    } else {
        s.units
    };
    proof {
        lemma_sin_quarter_at_half_pi();
        assert(spec_sin_quarter(0) == 0);
        assert(spec_cos_signed(-(HALF_PI_RAW as int)) == 0);
        assert(spec_cos_signed(HALF_PI_RAW as int) == 0);
        assert(spec_tan_gap(-(HALF_PI_RAW as int), c as int) <= 0);
        assert(spec_tan_gap(HALF_PI_RAW as int, c as int) >= 0);
    }
    let mut lo: i128 = -HALF_PI_RAW;
    let mut hi: i128 = HALF_PI_RAW;
    while hi - lo > 1
        invariant
            -HALF_PI_RAW <= lo < hi <= HALF_PI_RAW,
            -TAN_SAT_RAW <= c <= TAN_SAT_RAW,
            c == spec_tan_clamp(s.units as int),
            spec_tan_gap(lo as int, c as int) <= 0,
            0 <= spec_tan_gap(hi as int, c as int),
        decreases hi - lo,
    {
        let mid = lo + (hi - lo) / 2;
        let v = tan_gap_units(mid, c);
        if v <= 0 {
            lo = mid;
        } else {
            hi = mid;
        }
    }
    let w = principal_to_payload(lo);
    Angle::Rad(Scalar { units: w })
}

/// Law: trigonometric evaluation is consistent across units. Two numeric
/// angles that stand at the same canonical radian payload — an angle and
/// any conversion of it that lands exactly, such as a half turn written in
/// degrees, gradians or turns — have identical sine, cosine and tangent.
pub proof fn lemma_trig_unit_consistency(a: Angle, b: Angle)
    requires
        !a.is_clock(),
        !b.is_clock(),
        spec_rad_value(a) == spec_rad_value(b),
    ensures
        a.sin_spec() == b.sin_spec(),
        a.cos_spec() == b.cos_spec(),
        a.tan_spec() == b.tan_spec(),
{
}

} // verus!
