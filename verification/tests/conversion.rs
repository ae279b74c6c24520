use trig::Angle;
use trig::Scalar;

#[test]
fn test_conversion() {
    let half: Angle = Angle::half();
    assert_eq!(
        half.to_degrees()
            .unwrap()
            .to_gradians()
            .unwrap()
            .to_turns()
            .unwrap()
            .to_radians()
            .unwrap(),
        half
    );
    assert_eq!(
        half.to_turns()
            .unwrap()
            .to_gradians()
            .unwrap()
            .to_degrees()
            .unwrap()
            .to_radians()
            .unwrap(),
        half
    );
    assert_eq!(
        half.to_degrees()
            .unwrap()
            .to_turns()
            .unwrap()
            .to_gradians()
            .unwrap()
            .to_radians()
            .unwrap(),
        half
    );
    assert_eq!(half.to_gradians().unwrap().to_radians().unwrap(), half);
}

#[test]
fn round_trip_degrees_within_tolerance() {
    let d = Angle::degrees(Scalar::from_int(-5));
    let back = d.to_radians().unwrap().to_degrees().unwrap();
    let orig = d.unwrap().unwrap().units;
    let got = back.unwrap().unwrap().units;
    let diff = orig - got;
    assert!(0 <= diff && diff <= 60, "difference was {diff}");
}

#[test]
fn round_trip_radians_within_tolerance() {
    let r = Angle::radians(Scalar::from_int(-5));
    let back = r.to_degrees().unwrap().to_radians().unwrap();
    let orig = r.unwrap().unwrap().units;
    let got = back.unwrap().unwrap().units;
    let diff = orig - got;
    assert!(0 <= diff && diff <= 1, "difference was {diff}");
}

#[test]
fn round_trip_turns_and_gradians() {
    let t = Angle::turns(Scalar::from_milli(250));
    assert_eq!(t.to_gradians().unwrap().to_turns().unwrap(), t);
    let g = Angle::gradians(Scalar::from_int(300));
    assert_eq!(g.to_turns().unwrap().to_gradians().unwrap(), g);
}

#[test]
fn normalization_is_periodic() {
    assert_eq!(
        Angle::degrees(Scalar::from_int(475)),
        Angle::degrees(Scalar::from_int(115))
    );
    assert_eq!(
        Angle::degrees(Scalar::from_int(-5)),
        Angle::degrees(Scalar::from_int(355))
    );
    assert_eq!(
        Angle::degrees(Scalar::from_int(720)),
        Angle::degrees(Scalar::from_int(0))
    );
    assert_eq!(
        Angle::turns(Scalar::from_milli(2500)),
        Angle::turns(Scalar::from_milli(500))
    );
    assert_eq!(
        Angle::gradians(Scalar::from_int(1200)),
        Angle::gradians(Scalar::from_int(0))
    );
}

#[test]
fn normalization_is_idempotent() {
    let d = Angle::degrees(Scalar::from_int(-5));
    let inner = d.unwrap().unwrap();
    assert_eq!(Angle::degrees(inner), d);
}

#[test]
fn same_unit_conversion_is_identity() {
    let d = Angle::degrees(Scalar::from_int(200));
    assert_eq!(d.to_degrees().unwrap(), d);
    let r = Angle::radians(Scalar::from_int(3));
    assert_eq!(r.to_radians().unwrap(), r);
}

#[test]
fn conversion_lands_in_expected_unit_and_value() {
    let d = Angle::degrees(Scalar::from_int(180));
    let t = d.to_turns().unwrap();
    assert_eq!(t, Angle::turns(Scalar::from_milli(500)));
    let g = d.to_gradians().unwrap();
    assert_eq!(g, Angle::gradians(Scalar::from_int(200)));
}
