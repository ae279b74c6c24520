use trig::acos;
use trig::asin;
use trig::atan;
use trig::cos;
use trig::sin;
use trig::tan;
use trig::Angle;
use trig::AngleError;
use trig::Scalar;
use trig::Trigonometry;

const ONE: i128 = 4294967296;
const TOL: i128 = 4294968; // about one thousandth

fn close(a: i128, b: i128) -> bool {
    let d = a - b;
    -TOL <= d && d <= TOL
}

#[test]
fn sine_consistency_across_units() {
    let a = sin(Angle::degrees(Scalar::from_int(180))).unwrap();
    let b = sin(Angle::radians(Scalar::pi())).unwrap();
    assert!(close(a.units, b.units));
}

#[test]
fn cosine_consistency_across_units() {
    let a = cos(Angle::gradians(Scalar::from_int(200))).unwrap();
    let b = cos(Angle::turns(Scalar::from_milli(500))).unwrap();
    assert!(close(a.units, b.units));
}

#[test]
fn sine_of_named_fractions() {
    assert_eq!(sin(Angle::half()).unwrap().units, 0);
    assert!(close(sin(Angle::quarter()).unwrap().units, ONE));
    // sin(pi / 3) is sqrt(3) / 2; sin(pi / 4) is sqrt(2) / 2.
    assert!(close(sin(Angle::sixth()).unwrap().units, 3719550786));
    assert!(close(sin(Angle::eighth()).unwrap().units, 3037000500));
}

#[test]
fn cosine_of_named_fractions() {
    assert!(close(cos(Angle::half()).unwrap().units, -ONE));
    assert!(close(cos(Angle::quarter()).unwrap().units, 0));
    assert!(close(
        cos(Angle::radians(Scalar::from_int(0))).unwrap().units,
        ONE
    ));
}

#[test]
fn tangent_of_named_fractions() {
    assert!(close(tan(Angle::eighth()).unwrap().units, ONE));
    assert!(close(tan(Angle::radians(Scalar::from_int(0))).unwrap().units, 0));
}

#[test]
fn trig_methods_match_free_functions() {
    let a = Angle::degrees(Scalar::from_int(60));
    assert_eq!(a.sin().unwrap(), sin(a).unwrap());
    assert_eq!(a.cos().unwrap(), cos(a).unwrap());
    assert_eq!(a.tan().unwrap(), tan(a).unwrap());
}

#[test]
fn trig_on_clock_faces_is_unsupported() {
    let clock = Angle::clock_face(
        Scalar::from_int(3),
        Scalar::from_int(25),
        Scalar::from_int(10),
    );
    assert_eq!(sin(clock), Err(AngleError::UnsupportedVariantOperation));
    assert_eq!(cos(clock), Err(AngleError::UnsupportedVariantOperation));
    assert_eq!(tan(clock), Err(AngleError::UnsupportedVariantOperation));
}

#[test]
fn arcsine_inverts_sine() {
    assert_eq!(
        asin(Scalar::from_int(0)),
        Angle::radians(Scalar::from_int(0))
    );
    let a = asin(Scalar::from_milli(500));
    let s = sin(a).unwrap();
    assert!(close(s.units, Scalar::from_milli(500).units));
}

#[test]
fn arccosine_inverts_cosine() {
    assert_eq!(acos(Scalar::from_int(0)), Angle::quarter());
    let a = acos(Scalar::from_milli(500));
    let c = cos(a).unwrap();
    assert!(close(c.units, Scalar::from_milli(500).units));
}

#[test]
fn arctangent_inverts_tangent() {
    assert_eq!(
        atan(Scalar::from_int(0)),
        Angle::radians(Scalar::from_int(0))
    );
    let a = atan(Scalar::from_int(1));
    let e = Angle::eighth().unwrap().unwrap();
    let got = a.unwrap().unwrap();
    assert!(close(got.units, e.units));
}
