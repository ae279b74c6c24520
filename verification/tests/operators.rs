use trig::Angle;
use trig::AngleError;
use trig::Scalar;

#[test]
fn test_operators() {
    assert_eq!(
        Angle::degrees(Scalar::from_int(100))
            .add(Angle::degrees(Scalar::from_int(100)))
            .unwrap(),
        Angle::degrees(Scalar::from_int(200))
    );
    assert_eq!(
        Angle::degrees(Scalar::from_int(100))
            .subtract(Angle::degrees(Scalar::from_int(100)))
            .unwrap(),
        Angle::degrees(Scalar::from_int(0))
    );
    assert_eq!(
        Angle::degrees(Scalar::from_int(100))
            .add(Angle::radians(Scalar::from_int(0)))
            .unwrap(),
        Angle::degrees(Scalar::from_int(100))
    );
    assert_eq!(
        Angle::radians(Scalar::from_int(1))
            .subtract(Angle::degrees(Scalar::from_int(0)))
            .unwrap(),
        Angle::radians(Scalar::from_int(1))
    );
}

#[test]
fn multiply_scales_in_left_unit() {
    assert_eq!(
        Angle::degrees(Scalar::from_int(2))
            .multiply(Angle::degrees(Scalar::from_int(100)))
            .unwrap(),
        Angle::degrees(Scalar::from_int(200))
    );
}

#[test]
fn divide_scales_in_left_unit() {
    assert_eq!(
        Angle::degrees(Scalar::from_int(100))
            .divide(Angle::degrees(Scalar::from_int(50)))
            .unwrap(),
        Angle::degrees(Scalar::from_int(2))
    );
}

#[test]
fn addition_wraps_into_canonical_range() {
    let d = Angle::degrees(Scalar::from_int(180));
    let sum = d.add(d).unwrap();
    assert_eq!(sum, Angle::degrees(Scalar::from_int(0)));
    let once = Angle::degrees(Scalar::from_int(120));
    let thrice = once.add(once).unwrap().add(once).unwrap();
    assert_eq!(thrice, Angle::degrees(Scalar::from_int(0)));
}

#[test]
fn mixed_unit_addition_converts_the_right_operand() {
    let d = Angle::degrees(Scalar::from_int(90));
    let t = Angle::turns(Scalar::from_milli(250));
    assert_eq!(d.add(t).unwrap(), Angle::degrees(Scalar::from_int(180)));
    assert_eq!(t.add(d).unwrap(), Angle::turns(Scalar::from_milli(500)));
}

#[test]
fn clock_face_operands_are_unsupported() {
    let clock = Angle::clock_face(
        Scalar::from_int(3),
        Scalar::from_int(25),
        Scalar::from_int(10),
    );
    let d = Angle::degrees(Scalar::from_int(90));
    assert_eq!(
        clock.to_radians(),
        Err(AngleError::UnsupportedVariantOperation)
    );
    assert_eq!(
        clock.to_degrees(),
        Err(AngleError::UnsupportedVariantOperation)
    );
    assert_eq!(
        clock.to_gradians(),
        Err(AngleError::UnsupportedVariantOperation)
    );
    assert_eq!(
        clock.to_turns(),
        Err(AngleError::UnsupportedVariantOperation)
    );
    assert_eq!(clock.add(d), Err(AngleError::UnsupportedVariantOperation));
    assert_eq!(d.add(clock), Err(AngleError::UnsupportedVariantOperation));
    assert_eq!(
        clock.subtract(d),
        Err(AngleError::UnsupportedVariantOperation)
    );
    assert_eq!(
        d.subtract(clock),
        Err(AngleError::UnsupportedVariantOperation)
    );
    assert_eq!(
        clock.multiply(d),
        Err(AngleError::UnsupportedVariantOperation)
    );
    assert_eq!(
        d.multiply(clock),
        Err(AngleError::UnsupportedVariantOperation)
    );
    assert_eq!(
        clock.divide(d),
        Err(AngleError::UnsupportedVariantOperation)
    );
    assert_eq!(clock.unwrap(), Err(AngleError::UnsupportedVariantOperation));
    assert_eq!(clock.render(), Err(AngleError::UnsupportedVariantOperation));
}

#[test]
fn division_by_a_zero_angle_is_unsupported() {
    let d = Angle::degrees(Scalar::from_int(100));
    let z = Angle::radians(Scalar::from_int(0));
    assert_eq!(d.divide(z), Err(AngleError::UnsupportedVariantOperation));
    let clock = Angle::clock_face(
        Scalar::from_int(1),
        Scalar::from_int(2),
        Scalar::from_int(3),
    );
    assert_eq!(d.divide(clock), Err(AngleError::UnsupportedVariantOperation));
}

#[test]
fn unwrap_returns_the_stored_scalar() {
    let d = Angle::degrees(Scalar::from_int(100));
    assert_eq!(d.unwrap().unwrap(), Scalar::from_int(100));
    let t = Angle::turns(Scalar::from_milli(250));
    assert_eq!(t.unwrap().unwrap(), Scalar::from_milli(250));
}

#[test]
fn render_appends_unit_suffixes() {
    assert_eq!(
        Angle::degrees(Scalar::from_int(180)).render().unwrap(),
        "180.000000°"
    );
    assert_eq!(
        Angle::radians(Scalar::from_int(0)).render().unwrap(),
        "0.000000 rad"
    );
    assert_eq!(
        Angle::gradians(Scalar::from_int(300)).render().unwrap(),
        "300.000000 gon"
    );
    assert_eq!(
        Angle::turns(Scalar::from_milli(500)).render().unwrap(),
        "0.500000 turns"
    );
    assert_eq!(
        Angle::degrees(Scalar::from_milli(-4500)).render().unwrap(),
        "355.500000°"
    );
}

#[test]
fn scalar_constructors_are_fixed_point() {
    assert_eq!(Scalar::from_int(1).units, 4294967296);
    assert_eq!(Scalar::from_milli(500).units, 2147483648);
    assert_eq!(Scalar::from_milli(-1500).units, -6442450944);
    assert_eq!(Scalar::pi().units, 13493037705);
}
