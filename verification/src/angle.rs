//! The `Angle` tagged union and its algebra: construction with normalisation,
//! conversion between units, mixed-unit arithmetic, and rendering.

use crate::scalar::rescale_units;
use crate::scalar::spec_rescale;
use crate::scalar::wrap_units;
use crate::scalar::Scalar;
use crate::scalar::PI_RAW;
use crate::scalar::SCALE;
use crate::scalar::TWO_PI_RAW;
use vstd::arithmetic::div_mod::lemma_div_pos_is_pos;
use vstd::arithmetic::div_mod::lemma_fundamental_div_mod;
use vstd::arithmetic::div_mod::lemma_mod_bound;
use vstd::arithmetic::div_mod::lemma_multiply_divide_lt;
use vstd::prelude::*;
use vstd::string::StringExecFns;

verus! {

/// The period of one full turn measured in degrees, in raw units.
pub const DEG_PERIOD_RAW: i128 = 360 * SCALE;

/// The period of one full turn measured in gradians, in raw units.
pub const GRAD_PERIOD_RAW: i128 = 400 * SCALE;

/// The period of one full turn measured in turns, in raw units.
pub const TURN_PERIOD_RAW: i128 = SCALE;

/// The four numeric units an angle can be expressed in.
#[derive(Clone, Copy, Debug, Hash, PartialEq, Eq, Structural)]
pub enum Unit {
    Radians,
    Degrees,
    Gradians,
    Turns,
}

/// The raw span of one full turn in the given unit.
pub open spec fn unit_period(u: Unit) -> int {
    match u {
        Unit::Radians => TWO_PI_RAW as int,
        Unit::Degrees => DEG_PERIOD_RAW as int,
        Unit::Gradians => GRAD_PERIOD_RAW as int,
        Unit::Turns => TURN_PERIOD_RAW as int,
    }
}

/// The character of one decimal digit.
pub open spec fn spec_digit(d: int) -> char {
    if d == 0 {
        '0'
    } else if d == 1 {
        '1'
    } else if d == 2 {
        '2'
    } else if d == 3 {
        '3'
    } else if d == 4 {
        '4'
    } else if d == 5 {
        '5'
    } else if d == 6 {
        '6'
    } else if d == 7 {
        '7'
    } else if d == 8 {
        '8'
    } else {
        '9'
    }
}

/// The decimal rendering of a non-negative value, most significant digit
/// first.
pub open spec fn spec_digits(n: int) -> Seq<char>
    recommends
        n >= 0,
    decreases n,
{
    if n < 10 {
        seq![spec_digit(n)]
    } else {
        spec_digits(n / 10).push(spec_digit(n % 10))
    }
}

/// The last `w` decimal digits of a non-negative value, zero-padded to
/// exactly `w` characters.
pub open spec fn spec_padded_digits(n: int, w: nat) -> Seq<char>
    decreases w,
{
    if w == 0 {
        Seq::empty()
    } else {
        spec_padded_digits(n / 10, (w - 1) as nat).push(spec_digit(n % 10))
    }
}

/// One decimal digit as text.
fn digit_str(d: i128) -> (r: &'static str)
    requires
        0 <= d < 10,
    ensures
        r@ == seq![spec_digit(d as int)],
{
    proof {
        reveal_strlit("0");
        reveal_strlit("1");
        reveal_strlit("2");
        reveal_strlit("3");
        reveal_strlit("4");
        reveal_strlit("5");
        reveal_strlit("6");
        reveal_strlit("7");
        reveal_strlit("8");
        reveal_strlit("9");
    }
    let r = if d == 0 {
        "0"
    } else if d == 1 {
        "1"
    } else if d == 2 {
        "2"
    } else if d == 3 {
        "3"
    } else if d == 4 {
        "4"
    } else if d == 5 {
        "5"
    } else if d == 6 {
        "6"
    } else if d == 7 {
        "7"
    } else if d == 8 {
        "8"
    } else {
        "9"
    };
    proof {
        assert(r@ =~= seq![spec_digit(d as int)]);
    }
    r
}

/// Builds the decimal rendering of a non-negative value.
fn digits_string(n: i128) -> (s: String)
    requires
        0 <= n,
    ensures
        s@ == spec_digits(n as int),
    decreases n,
{
    if n < 10 {
        let mut s = String::new();
        s.append(digit_str(n));
        proof {
            assert(s@ =~= spec_digits(n as int));
        }
        s
    } else {
        let mut s = digits_string(n / 10);
        s.append(digit_str(n % 10));
        proof {
            assert(s@ =~= spec_digits(n as int));
        }
        s
    }
}

/// Builds the zero-padded trailing digits of a non-negative value.
fn padded_string(n: i128, w: u32) -> (s: String)
    requires
        0 <= n,
    ensures
        s@ == spec_padded_digits(n as int, w as nat),
    decreases w,
{
    if w == 0 {
        String::new()
    } else {
        let mut s = padded_string(n / 10, w - 1);
        s.append(digit_str(n % 10));
        proof {
            assert(s@ =~= spec_padded_digits(n as int, w as nat));
        }
        s
    }
}

/// The one failure the algebra knows: an operation was asked of (or against)
/// a clock-face angle, or of an operand pairing the operation tables leave
/// undefined, such as division by a zero angle.
#[derive(Clone, Copy, Debug, Hash, PartialEq, Eq, PartialOrd, Structural)]
pub enum AngleError {
    UnsupportedVariantOperation,
}

/// Encompasses representations of angles in the Euclidean plane.
///
/// The four numeric variants hold a normalised payload in `[0, period)` of
/// their unit; a value outside that range can only be built by writing the
/// variant directly rather than through a constructor. The clock variant
/// carries its three fields verbatim and supports no conversion, arithmetic,
/// trigonometry or rendering.
#[derive(Clone, Copy, Debug, Hash, PartialEq, Eq, PartialOrd, Structural)]
pub enum Angle {
    /// An angle in radians.
    Rad(Scalar),
    /// An angle in degrees.
    Deg(Scalar),
    /// An angle in gradians.
    Grad(Scalar),
    /// An angle in turns.
    Turn(Scalar),
    /// An angle as it would appear on the face of a clock.
    Clock {
        /// The hours portion.
        hour: Scalar,
        /// The minutes portion.
        minute: Scalar,
        /// The seconds portion.
        second: Scalar,
    },
}

impl Angle {
    /// Whether this is the clock-face variant, the one every operation
    /// refuses.
    pub open spec fn is_clock(self) -> bool {
        match self {
            Angle::Clock { .. } => true,
            _ => false,
        }
    }

    /// The unit a numeric angle is expressed in.
    pub open spec fn unit(self) -> Unit
        recommends
            !self.is_clock(),
    {
        match self {
            Angle::Rad(_) => Unit::Radians,
            Angle::Deg(_) => Unit::Degrees,
            Angle::Grad(_) => Unit::Gradians,
            Angle::Turn(_) => Unit::Turns,
            Angle::Clock { .. } => Unit::Radians,
        }
    }

    /// The raw fixed-point payload of a numeric angle.
    pub open spec fn units(self) -> int
        recommends
            !self.is_clock(),
    {
        match self {
            Angle::Rad(s) => s.units as int,
            Angle::Deg(s) => s.units as int,
            Angle::Grad(s) => s.units as int,
            Angle::Turn(s) => s.units as int,
            Angle::Clock { .. } => 0,
        }
    }

    /// The raw span of one full turn in this angle's unit.
    pub open spec fn period(self) -> int
        recommends
            !self.is_clock(),
    {
        unit_period(self.unit())
    }

    /// Every numeric angle built by this library keeps its payload in the
    /// canonical range of its unit; clock faces carry anything.
    pub open spec fn wf(self) -> bool {
        !self.is_clock() ==> 0 <= self.units() < self.period()
    }

    /// The numeric angle of unit `u` with raw payload `x`.
    pub open spec fn make(u: Unit, x: int) -> Angle {
        match u {
            Unit::Radians => Angle::Rad(Scalar { units: x as i128 }),
            Unit::Degrees => Angle::Deg(Scalar { units: x as i128 }),
            Unit::Gradians => Angle::Grad(Scalar { units: x as i128 }),
            Unit::Turns => Angle::Turn(Scalar { units: x as i128 }),
        }
    }

    /// What a constructor builds: the unit's variant holding the raw value
    /// reduced into the unit's canonical range.
    pub open spec fn spec_normalized(u: Unit, x: int) -> Angle {
        Angle::make(u, x % unit_period(u))
    }

    /// Returns an angle in radians, the payload reduced into `[0, 2 pi)`.
    pub fn radians(s: Scalar) -> (r: Angle)
        ensures
            r == Angle::spec_normalized(Unit::Radians, s.units as int),
            r.wf(),
            r.unit() == Unit::Radians,
            !r.is_clock(),
    {
        proof {
            lemma_mod_bound(s.units as int, TWO_PI_RAW as int);
        }
        Angle::Rad(Scalar { units: wrap_units(s.units, TWO_PI_RAW) })
    }

    /// Returns an angle in degrees, the payload reduced into `[0, 360)`.
    pub fn degrees(s: Scalar) -> (r: Angle)
        ensures
            r == Angle::spec_normalized(Unit::Degrees, s.units as int),
            r.wf(),
            r.unit() == Unit::Degrees,
            !r.is_clock(),
    {
        proof {
            lemma_mod_bound(s.units as int, DEG_PERIOD_RAW as int);
        }
        Angle::Deg(Scalar { units: wrap_units(s.units, DEG_PERIOD_RAW) })
    }

    /// Returns an angle in gradians, the payload reduced into `[0, 400)`.
    pub fn gradians(s: Scalar) -> (r: Angle)
        ensures
            r == Angle::spec_normalized(Unit::Gradians, s.units as int),
            r.wf(),
            r.unit() == Unit::Gradians,
            !r.is_clock(),
    {
        proof {
            lemma_mod_bound(s.units as int, GRAD_PERIOD_RAW as int);
        }
        Angle::Grad(Scalar { units: wrap_units(s.units, GRAD_PERIOD_RAW) })
    }

    /// Returns an angle in turns, the payload reduced into `[0, 1)`: the
    /// fractional part, taken with the same flooring rule as every other
    /// unit.
    pub fn turns(s: Scalar) -> (r: Angle)
        ensures
            r == Angle::spec_normalized(Unit::Turns, s.units as int),
            r.wf(),
            r.unit() == Unit::Turns,
            !r.is_clock(),
    {
        proof {
            lemma_mod_bound(s.units as int, TURN_PERIOD_RAW as int);
        }
        Angle::Turn(Scalar { units: wrap_units(s.units, TURN_PERIOD_RAW) })
    }

    /// Returns an angle as it would appear on a clock; the three fields are
    /// kept verbatim, with no normalisation.
    pub fn clock_face(hour: Scalar, minute: Scalar, second: Scalar) -> (r: Angle)
        ensures
            r == (Angle::Clock { hour, minute, second }),
            r.is_clock(),
            r.wf(),
    {
        Angle::Clock { hour, minute, second }
    }

    /// One half of the domain. In radians, this is `pi`.
    pub fn half() -> (r: Angle)
        ensures
            r == Angle::Rad(Scalar { units: PI_RAW }),
            r.wf(),
    {
        Angle::Rad(Scalar { units: PI_RAW })
    }

    /// One quarter of the domain. In radians, this is `pi / 2`.
    pub fn quarter() -> (r: Angle)
        ensures
            r == Angle::Rad(Scalar { units: (PI_RAW / 2) as i128 }),
            r.wf(),
    {
        Angle::Rad(Scalar { units: PI_RAW / 2 })
    }

    /// One sixth of the domain. In radians, this is `pi / 3`.
    pub fn sixth() -> (r: Angle)
        ensures
            r == Angle::Rad(Scalar { units: (PI_RAW / 3) as i128 }),
            r.wf(),
    {
        Angle::Rad(Scalar { units: PI_RAW / 3 })
    }

    /// One eighth of the domain. In radians, this is `pi / 4`.
    pub fn eighth() -> (r: Angle)
        ensures
            r == Angle::Rad(Scalar { units: (PI_RAW / 4) as i128 }),
            r.wf(),
    {
        Angle::Rad(Scalar { units: PI_RAW / 4 })
    }

    /// The raw payload of a numeric angle, as executable code reads it.
    pub(crate) fn units_value(&self) -> (r: i128)
        requires
            !self.is_clock(),
        ensures
            r == self.units(),
    {
        match self {
            Angle::Rad(s) => s.units,
            Angle::Deg(s) => s.units,
            Angle::Grad(s) => s.units,
            Angle::Turn(s) => s.units,
            Angle::Clock { .. } => 0,
        }
    }

    /// The period of a numeric angle's unit, as executable code reads it.
    pub(crate) fn period_units(&self) -> (r: i128)
        requires
            !self.is_clock(),
        ensures
            r == self.period(),
    {
        match self {
            Angle::Rad(_) => TWO_PI_RAW,
            Angle::Deg(_) => DEG_PERIOD_RAW,
            Angle::Grad(_) => GRAD_PERIOD_RAW,
            Angle::Turn(_) => TURN_PERIOD_RAW,
            Angle::Clock { .. } => 0,
        }
    }

    /// A numeric angle of the same unit as `self`, holding `x`.
    fn rebuild(&self, x: i128) -> (r: Angle)
        requires
            !self.is_clock(),
        ensures
            r == Angle::make(self.unit(), x as int),
    {
        match self {
            Angle::Rad(_) => Angle::Rad(Scalar { units: x }),
            Angle::Deg(_) => Angle::Deg(Scalar { units: x }),
            Angle::Grad(_) => Angle::Grad(Scalar { units: x }),
            Angle::Turn(_) => Angle::Turn(Scalar { units: x }),
            Angle::Clock { .. } => Angle::Rad(Scalar { units: x }),
        }
    }

    /// Where a conversion of a numeric angle lands: the payload rescaled by
    /// the ratio of the two periods, wrapped in the target unit's variant.
    pub open spec fn spec_convert(self, u: Unit) -> Angle
        recommends
            !self.is_clock(),
            self.wf(),
    {
        Angle::make(u, spec_rescale(self.units(), self.period(), unit_period(u)))
    }

    /// The conversion every `to_*` method performs, behind its error check.
    pub(crate) fn convert(&self, u: Unit) -> (r: Angle)
        requires
            !self.is_clock(),
            self.wf(),
        ensures
            r == self.spec_convert(u),
            r.wf(),
            !r.is_clock(),
            r.unit() == u,
    {
        let to: i128 = match u {
            Unit::Radians => TWO_PI_RAW,
            Unit::Degrees => DEG_PERIOD_RAW,
            Unit::Gradians => GRAD_PERIOD_RAW,
            Unit::Turns => TURN_PERIOD_RAW,
        };
        let x = rescale_units(self.units_value(), self.period_units(), to);
        let r = match u {
            Unit::Radians => Angle::Rad(Scalar { units: x }),
            Unit::Degrees => Angle::Deg(Scalar { units: x }),
            Unit::Gradians => Angle::Grad(Scalar { units: x }),
            Unit::Turns => Angle::Turn(Scalar { units: x }),
        };
        r
    }

    /// Converts an angle to radians; converting a clock face is the
    /// unsupported operation.
    pub fn to_radians(&self) -> (r: Result<Angle, AngleError>)
        requires
            self.wf(),
        ensures
            self.is_clock() ==> r == Err::<Angle, AngleError>(
                AngleError::UnsupportedVariantOperation,
            ),
            !self.is_clock() ==> r == Ok::<Angle, AngleError>(self.spec_convert(Unit::Radians)),
            !self.is_clock() ==> (r matches Ok(a) && a.wf() && a.unit() == Unit::Radians
                && !a.is_clock()),
    {
        match self {
            Angle::Clock { .. } => Err(AngleError::UnsupportedVariantOperation),
            _ => Ok(self.convert(Unit::Radians)),
        }
    }

    /// Converts an angle to degrees; converting a clock face is the
    /// unsupported operation.
    pub fn to_degrees(&self) -> (r: Result<Angle, AngleError>)
        requires
            self.wf(),
        ensures
            self.is_clock() ==> r == Err::<Angle, AngleError>(
                AngleError::UnsupportedVariantOperation,
            ),
            !self.is_clock() ==> r == Ok::<Angle, AngleError>(self.spec_convert(Unit::Degrees)),
            !self.is_clock() ==> (r matches Ok(a) && a.wf() && a.unit() == Unit::Degrees
                && !a.is_clock()),
    {
        match self {
            Angle::Clock { .. } => Err(AngleError::UnsupportedVariantOperation),
            _ => Ok(self.convert(Unit::Degrees)),
        }
    }

    /// Converts an angle to gradians; converting a clock face is the
    /// unsupported operation.
    pub fn to_gradians(&self) -> (r: Result<Angle, AngleError>)
        requires
            self.wf(),
        ensures
            self.is_clock() ==> r == Err::<Angle, AngleError>(
                AngleError::UnsupportedVariantOperation,
            ),
            !self.is_clock() ==> r == Ok::<Angle, AngleError>(self.spec_convert(Unit::Gradians)),
            !self.is_clock() ==> (r matches Ok(a) && a.wf() && a.unit() == Unit::Gradians
                && !a.is_clock()),
    {
        match self {
            Angle::Clock { .. } => Err(AngleError::UnsupportedVariantOperation),
            _ => Ok(self.convert(Unit::Gradians)),
        }
    }

    /// Converts an angle to turns; converting a clock face is the
    /// unsupported operation.
    pub fn to_turns(&self) -> (r: Result<Angle, AngleError>)
        requires
            self.wf(),
        ensures
            self.is_clock() ==> r == Err::<Angle, AngleError>(
                AngleError::UnsupportedVariantOperation,
            ),
            !self.is_clock() ==> r == Ok::<Angle, AngleError>(self.spec_convert(Unit::Turns)),
            !self.is_clock() ==> (r matches Ok(a) && a.wf() && a.unit() == Unit::Turns
                && !a.is_clock()),
    {
        match self {
            Angle::Clock { .. } => Err(AngleError::UnsupportedVariantOperation),
            _ => Ok(self.convert(Unit::Turns)),
        }
    }

    /// The right operand of a binary operation, brought into the left
    /// operand's unit: its payload rescaled by the ratio of the periods.
    pub open spec fn spec_operand(self, other: Angle) -> int
        recommends
            !self.is_clock(),
            !other.is_clock(),
            self.wf(),
            other.wf(),
    {
        spec_rescale(other.units(), other.period(), self.period())
    }

    /// Where a sum lands: the converted right operand added to the left
    /// payload, reduced into the left unit's range.
    pub open spec fn spec_add(self, other: Angle) -> Angle {
        Angle::make(self.unit(), (self.units() + self.spec_operand(other)) % self.period())
    }

    /// Where a difference lands.
    pub open spec fn spec_sub(self, other: Angle) -> Angle {
        Angle::make(self.unit(), (self.units() - self.spec_operand(other)) % self.period())
    }

    /// Where a product lands: the fixed-point product of the two payloads,
    /// reduced into the left unit's range.
    pub open spec fn spec_mul(self, other: Angle) -> Angle {
        Angle::make(self.unit(), (self.units() * self.spec_operand(other) / (SCALE as int)) % self.period())
    }

    /// Where a quotient lands: the fixed-point quotient of the two payloads,
    /// reduced into the left unit's range.
    pub open spec fn spec_div(self, other: Angle) -> Angle {
        Angle::make(self.unit(), (self.units() * (SCALE as int) / self.spec_operand(other)) % self.period())
    }

    /// Adds two angles; the result is expressed in `self`'s unit. An operand
    /// on either side that is a clock face makes the operation unsupported.
    pub fn add(self, other: Angle) -> (r: Result<Angle, AngleError>)
        requires
            self.wf(),
            other.wf(),
        ensures
            self.is_clock() || other.is_clock() ==> r == Err::<Angle, AngleError>(
                AngleError::UnsupportedVariantOperation,
            ),
            !self.is_clock() && !other.is_clock() ==> r == Ok::<Angle, AngleError>(
                self.spec_add(other),
            ) && (r matches Ok(a) && a.wf() && a.unit() == self.unit()),
    {
        if self.is_clock_face() || other.is_clock_face() {
            return Err(AngleError::UnsupportedVariantOperation);
        }
        let p = self.period_units();
        let c = rescale_units(other.units_value(), other.period_units(), p);
        let w = wrap_units(self.units_value() + c, p);
        proof {
            lemma_mod_bound(self.units() + self.spec_operand(other), self.period());
        }
        Ok(self.rebuild(w))
    }

    /// Subtracts `other` from `self`; the result is expressed in `self`'s
    /// unit. An operand on either side that is a clock face makes the
    /// operation unsupported.
    pub fn subtract(self, other: Angle) -> (r: Result<Angle, AngleError>)
        requires
            self.wf(),
            other.wf(),
        ensures
            self.is_clock() || other.is_clock() ==> r == Err::<Angle, AngleError>(
                AngleError::UnsupportedVariantOperation,
            ),
            !self.is_clock() && !other.is_clock() ==> r == Ok::<Angle, AngleError>(
                self.spec_sub(other),
            ) && (r matches Ok(a) && a.wf() && a.unit() == self.unit()),
    {
        if self.is_clock_face() || other.is_clock_face() {
            return Err(AngleError::UnsupportedVariantOperation);
        }
        let p = self.period_units();
        let c = rescale_units(other.units_value(), other.period_units(), p);
        let w = wrap_units(self.units_value() - c, p);
        proof {
            lemma_mod_bound(self.units() - self.spec_operand(other), self.period());
        }
        Ok(self.rebuild(w))
    }

    /// Multiplies two angles as fixed-point numbers; the result is expressed
    /// in `self`'s unit. An operand on either side that is a clock face
    /// makes the operation unsupported.
    pub fn multiply(self, other: Angle) -> (r: Result<Angle, AngleError>)
        requires
            self.wf(),
            other.wf(),
        ensures
            self.is_clock() || other.is_clock() ==> r == Err::<Angle, AngleError>(
                AngleError::UnsupportedVariantOperation,
            ),
            !self.is_clock() && !other.is_clock() ==> r == Ok::<Angle, AngleError>(
                self.spec_mul(other),
            ) && (r matches Ok(a) && a.wf() && a.unit() == self.unit()),
    {
        if self.is_clock_face() || other.is_clock_face() {
            return Err(AngleError::UnsupportedVariantOperation);
        }
        let p = self.period_units();
        let c = rescale_units(other.units_value(), other.period_units(), p);
        let x = self.units_value();
        proof {
            assert(0 <= x * c && x * c < 0x10000000000000000000000000000) by (nonlinear_arith)
                requires
                    0 <= x < 2000000000000,
                    0 <= c < 2000000000000,
            ;
        }
        let q: i128 = (x * c) / SCALE;
        let w = wrap_units(q, p);
        proof {
            lemma_mod_bound(self.units() * self.spec_operand(other) / (SCALE as int), self.period());
        }
        Ok(self.rebuild(w))
    }

    /// Divides `self` by `other` as fixed-point numbers; the result is
    /// expressed in `self`'s unit. An operand on either side that is a clock
    /// face makes the operation unsupported, and so does a divisor that
    /// converts to the zero angle: the operator table defines no quotient
    /// there.
    pub fn divide(self, other: Angle) -> (r: Result<Angle, AngleError>)
        requires
            self.wf(),
            other.wf(),
        ensures
            self.is_clock() || other.is_clock() || (!self.is_clock() && !other.is_clock()
                && self.spec_operand(other) == 0) ==> r == Err::<Angle, AngleError>(
                AngleError::UnsupportedVariantOperation,
            ),
            !self.is_clock() && !other.is_clock() && self.spec_operand(other) != 0 ==> r
                == Ok::<Angle, AngleError>(self.spec_div(other)) && (r matches Ok(a) && a.wf()
                && a.unit() == self.unit()),
    {
        if self.is_clock_face() || other.is_clock_face() {
            return Err(AngleError::UnsupportedVariantOperation);
        }
        let p = self.period_units();
        let c = rescale_units(other.units_value(), other.period_units(), p);
        if c == 0 {
            return Err(AngleError::UnsupportedVariantOperation);
        }
        let x = self.units_value();
        let q: i128 = (x * SCALE) / c;
        proof {
            vstd::arithmetic::div_mod::lemma_div_pos_is_pos(x * (SCALE as int), c as int);
            lemma_mod_bound(self.units() * (SCALE as int) / self.spec_operand(other), self.period());
        }
        let w = wrap_units(q, p);
        Ok(self.rebuild(w))
    }

    /// The suffix rendering appends for each unit.
    pub open spec fn spec_suffix(u: Unit) -> Seq<char> {
        match u {
            Unit::Radians => " rad"@,
            Unit::Degrees => "°"@,
            Unit::Gradians => " gon"@,
            Unit::Turns => " turns"@,
        }
    }

    /// The text rendering of a numeric angle: the whole part in decimal, a
    /// point, six decimal fraction digits (truncated), and the unit suffix.
    pub open spec fn spec_render(self) -> Seq<char>
        recommends
            !self.is_clock(),
            self.wf(),
    {
        let sc = SCALE as int;
        spec_digits(self.units() / sc) + "."@ + spec_padded_digits(
            self.units() % sc * 1000000 / sc,
            6,
        ) + Angle::spec_suffix(self.unit())
    }

    /// Renders a numeric angle as unit-suffixed text; rendering a clock
    /// face is the unsupported operation.
    pub fn render(&self) -> (r: Result<String, AngleError>)
        requires
            self.wf(),
        ensures
            self.is_clock() ==> r == Err::<String, AngleError>(
                AngleError::UnsupportedVariantOperation,
            ),
            !self.is_clock() ==> (r matches Ok(s) && s@ == self.spec_render()),
    {
        match self {
            Angle::Clock { .. } => Err(AngleError::UnsupportedVariantOperation),
            _ => {
                let x = self.units_value();
                let whole = x / SCALE;
                let fr = x % SCALE;
                let f6 = fr * 1000000 / SCALE;
                proof {
                    lemma_div_pos_is_pos(x as int, SCALE as int);
                    lemma_mod_bound(x as int, SCALE as int);
                    lemma_div_pos_is_pos(fr * 1000000, SCALE as int);
                }
                let mut s = digits_string(whole);
                s.append(".");
                let frac = padded_string(f6, 6);
                s.append(frac.as_str());
                match self {
                    Angle::Rad(_) => s.append(" rad"),
                    Angle::Deg(_) => s.append("°"),
                    Angle::Grad(_) => s.append(" gon"),
                    Angle::Turn(_) => s.append(" turns"),
                    Angle::Clock { .. } => (),
                };
                Ok(s)
            },
        }
    }

    /// Law: converting a numeric angle to any unit and back returns it to
    /// within conversion tolerance, never overshooting. The round trip
    /// through a unit of period `q` loses at most `p / q + 1` raw units of
    /// the original period `p` (about `10^-7` of a turn at worst), and loses
    /// nothing when the intermediate period divides evenly.
    pub proof fn lemma_conversion_round_trip(a: Angle, u: Unit)
        requires
            !a.is_clock(),
            a.wf(),
        ensures
            ({
                let b = a.spec_convert(u);
                let c = b.spec_convert(a.unit());
                &&& b.wf()
                &&& c.wf()
                &&& c.unit() == a.unit()
                &&& 0 <= a.units() - c.units()
                &&& a.units() - c.units() <= a.period() / unit_period(u) + 1
            }),
    {
        let x = a.units();
        let p = a.period();
        let q = unit_period(u);
        let y = spec_rescale(x, p, q);
        let z = spec_rescale(y, q, p);
        assert(0 <= x * q && x * q < p * q) by (nonlinear_arith)
            requires
                0 <= x < p,
                0 < q,
        ;
        lemma_multiply_divide_lt(x * q, p, q);
        lemma_div_pos_is_pos(x * q, p);
        assert(0 <= y < q);
        assert(0 <= y * p && y * p < q * p && q * p == p * q) by (nonlinear_arith)
            requires
                0 <= y < q,
                0 < p,
        ;
        lemma_multiply_divide_lt(y * p, q, p);
        lemma_div_pos_is_pos(y * p, q);
        assert(0 <= z < p);
        lemma_fundamental_div_mod(x * q, p);
        lemma_mod_bound(x * q, p);
        lemma_fundamental_div_mod(y * p, q);
        lemma_mod_bound(y * p, q);
        let r1 = (x * q) % p;
        let r2 = (y * p) % q;
        assert(x * q == p * y + r1);
        assert(y * p == q * z + r2);
        lemma_fundamental_div_mod(p, q);
        lemma_mod_bound(p, q);
        assert(0 <= x - z && x - z <= p / q + 1) by (nonlinear_arith)
            requires
                0 < p,
                0 < q,
                0 <= r1 < p,
                0 <= r2 < q,
                x * q == p * y + r1,
                y * p == q * z + r2,
                p == q * (p / q) + p % q,
                0 <= p % q < q,
        ;
        let b = a.spec_convert(u);
        let c = b.spec_convert(a.unit());
        assert(b.units() == y && b.period() == q);
        assert(c.units() == z);
    }

    /// Law: normalisation is periodic, so two raw values a whole number of
    /// periods apart construct the same angle; with `k == 0` it also says a
    /// constructor applied to an already-normalised value changes nothing.
    pub proof fn lemma_normalization_periodic(u: Unit, x: int, k: int)
        ensures
            Angle::spec_normalized(u, x + k * unit_period(u)) == Angle::spec_normalized(u, x),
    {
        let p = unit_period(u);
        vstd::arithmetic::div_mod::lemma_mod_multiples_vanish(k, x, p);
        assert(x + k * p == p * k + x) by (nonlinear_arith);
    }

    /// Law: normalisation is idempotent, so re-normalising the payload of a
    /// constructed angle reproduces that angle.
    pub proof fn lemma_normalization_idempotent(u: Unit, x: int)
        ensures
            Angle::spec_normalized(u, Angle::spec_normalized(u, x).units())
                == Angle::spec_normalized(u, x),
    {
        let p = unit_period(u);
        lemma_mod_bound(x, p);
        vstd::arithmetic::div_mod::lemma_mod_twice(x, p);
    }

    /// Whether this is the clock-face variant, as executable code asks it.
    pub fn is_clock_face(&self) -> (r: bool)
        ensures
            r == self.is_clock(),
    {
        match self {
            Angle::Clock { .. } => true,
            _ => false,
        }
    }

    /// Gets the raw scalar stored in a numeric angle; a clock face is not
    /// encoded as a single value, so unwrapping one is the unsupported
    /// operation.
    pub fn unwrap(&self) -> (r: Result<Scalar, AngleError>)
        ensures
            self.is_clock() ==> r == Err::<Scalar, AngleError>(
                AngleError::UnsupportedVariantOperation,
            ),
            !self.is_clock() ==> r == Ok::<Scalar, AngleError>(Scalar { units: self.units() as i128 }),
    {
        match self {
            Angle::Rad(s) => Ok(*s),
            Angle::Deg(s) => Ok(*s),
            Angle::Grad(s) => Ok(*s),
            Angle::Turn(s) => Ok(*s),
            Angle::Clock { .. } => Err(AngleError::UnsupportedVariantOperation),
        }
    }
}

} // verus!
