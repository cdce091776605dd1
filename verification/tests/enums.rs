use bsru::{
    ColorTransitionType, Curve, CutDirection, DistributionType, Easing, EventAxis, FilterType,
    LightColor, LimitBehaviour, LooseBool, RandomBehaviour, RotationDirection, Scalar,
    TransitionType,
};

#[test]
fn loose_bool_is_true_and_is_false() {
    assert!(LooseBool::True.is_true());
    assert!(!LooseBool::True.is_false());
    assert!(LooseBool::False.is_false());
    assert!(!LooseBool::False.is_true());
    assert!(!LooseBool::Unknown(2).is_true());
    assert!(!LooseBool::Unknown(2).is_false());
    assert!(!LooseBool::Unknown(1).is_true());
}

#[test]
fn loose_bool_conversions() {
    assert_eq!(LooseBool::from(true), LooseBool::True);
    assert_eq!(LooseBool::from(false), LooseBool::False);
    assert_eq!(LooseBool::from(0), LooseBool::False);
    assert_eq!(LooseBool::from(1), LooseBool::True);
    assert_eq!(LooseBool::from(-1), LooseBool::Unknown(-1));
    assert_eq!(LooseBool::default(), LooseBool::False);
    assert_eq!(LooseBool::Unknown(7).to_raw(), 7);
    assert_eq!(LooseBool::True.to_raw(), 1);
}

#[test]
fn every_wire_value_reads_and_writes_back() {
    for raw in -5..110 {
        assert_eq!(LooseBool::from_raw(raw).to_raw(), raw);
        assert_eq!(FilterType::from_raw(raw).to_raw(), raw);
        assert_eq!(RandomBehaviour::from_raw(raw).to_raw(), raw);
        assert_eq!(LimitBehaviour::from_raw(raw).to_raw(), raw);
        assert_eq!(DistributionType::from_raw(raw).to_raw(), raw);
        assert_eq!(Easing::from_raw(raw).to_raw(), raw);
        assert_eq!(TransitionType::from_raw(raw).to_raw(), raw);
        assert_eq!(EventAxis::from_raw(raw).to_raw(), raw);
        assert_eq!(ColorTransitionType::from_raw(raw).to_raw(), raw);
        assert_eq!(LightColor::from_raw(raw).to_raw(), raw);
        assert_eq!(RotationDirection::from_raw(raw).to_raw(), raw);
    }
    for raw in [i32::MIN, i32::MAX] {
        assert_eq!(Easing::from_raw(raw), Easing::Unknown(raw));
        assert_eq!(FilterType::from_raw(raw), FilterType::Unknown(raw));
    }
}

#[test]
fn named_values_write_and_read_back() {
    for value in [FilterType::Division, FilterType::StepAndOffset, FilterType::Unknown(0)] {
        assert_eq!(FilterType::from_raw(value.to_raw()), value);
    }
    for value in [
        LimitBehaviour::Disabled,
        LimitBehaviour::Duration,
        LimitBehaviour::Distribution,
        LimitBehaviour::Both,
        LimitBehaviour::Unknown(4),
    ] {
        assert_eq!(LimitBehaviour::from_raw(value.to_raw()), value);
    }
    for value in [
        Easing::Disabled,
        Easing::Linear,
        Easing::InOutBounce,
        Easing::BeatSaberInOutBack,
        Easing::BeatSaberInOutBounce,
        Easing::Unknown(31),
        Easing::Unknown(99),
        Easing::Unknown(103),
        Easing::Unknown(-2),
    ] {
        assert_eq!(Easing::from_raw(value.to_raw()), value);
    }
}

#[test]
fn an_unknown_that_holds_a_named_value_reads_back_as_the_name() {
    assert_eq!(LooseBool::from_raw(LooseBool::Unknown(1).to_raw()), LooseBool::True);
    assert_eq!(Easing::from_raw(Easing::Unknown(0).to_raw()), Easing::Linear);
    assert_eq!(
        DistributionType::from_raw(DistributionType::Unknown(2).to_raw()),
        DistributionType::Step
    );
}

#[test]
fn wire_values_of_the_names() {
    assert_eq!(FilterType::Division.to_raw(), 1);
    assert_eq!(FilterType::StepAndOffset.to_raw(), 2);
    assert_eq!(DistributionType::Wave.to_raw(), 1);
    assert_eq!(DistributionType::Step.to_raw(), 2);
    assert_eq!(RandomBehaviour::Disabled.to_raw(), 0);
    assert_eq!(RandomBehaviour::KeepOrder.to_raw(), 1);
    assert_eq!(RandomBehaviour::RandomElements.to_raw(), 2);
    assert_eq!(LimitBehaviour::Disabled.to_raw(), 0);
    assert_eq!(LimitBehaviour::Duration.to_raw(), 1);
    assert_eq!(LimitBehaviour::Distribution.to_raw(), 2);
    assert_eq!(LimitBehaviour::Both.to_raw(), 3);
    assert_eq!(TransitionType::Transition.to_raw(), 0);
    assert_eq!(TransitionType::Extend.to_raw(), 1);
    assert_eq!(EventAxis::X.to_raw(), 0);
    assert_eq!(EventAxis::Y.to_raw(), 1);
    assert_eq!(EventAxis::Z.to_raw(), 2);
    assert_eq!(ColorTransitionType::Instant.to_raw(), 0);
    assert_eq!(ColorTransitionType::Transition.to_raw(), 1);
    assert_eq!(ColorTransitionType::Extend.to_raw(), 2);
    assert_eq!(LightColor::Primary.to_raw(), 0);
    assert_eq!(LightColor::Secondary.to_raw(), 1);
    assert_eq!(LightColor::White.to_raw(), 2);
    assert_eq!(RotationDirection::Automatic.to_raw(), 0);
    assert_eq!(RotationDirection::Clockwise.to_raw(), 1);
    assert_eq!(RotationDirection::CounterClockwise.to_raw(), 2);
    assert_eq!(Easing::Disabled.to_raw(), -1);
    assert_eq!(Easing::Linear.to_raw(), 0);
    assert_eq!(Easing::InQuad.to_raw(), 1);
    assert_eq!(Easing::InOutCirc.to_raw(), 21);
    assert_eq!(Easing::InOutBounce.to_raw(), 30);
    assert_eq!(Easing::BeatSaberInOutBack.to_raw(), 100);
    assert_eq!(Easing::BeatSaberInOutElastic.to_raw(), 101);
    assert_eq!(Easing::BeatSaberInOutBounce.to_raw(), 102);
}

#[test]
fn defaults_of_the_enumerations() {
    assert_eq!(FilterType::default(), FilterType::Division);
    assert_eq!(RandomBehaviour::default(), RandomBehaviour::Disabled);
    assert_eq!(LimitBehaviour::default(), LimitBehaviour::Disabled);
    assert_eq!(DistributionType::default(), DistributionType::Wave);
    assert_eq!(Easing::default(), Easing::Disabled);
    assert_eq!(TransitionType::default(), TransitionType::Transition);
    assert_eq!(EventAxis::default(), EventAxis::X);
    assert_eq!(ColorTransitionType::default(), ColorTransitionType::Instant);
    assert_eq!(LightColor::default(), LightColor::Primary);
    assert_eq!(RotationDirection::default(), RotationDirection::Automatic);
    assert_eq!(Easing::from(7), Easing::InCubic);
    assert_eq!(FilterType::from(2), FilterType::StepAndOffset);
}

#[test]
fn limit_behaviour_names_its_axes() {
    assert!(!LimitBehaviour::Disabled.duration());
    assert!(!LimitBehaviour::Disabled.distribution());
    assert!(LimitBehaviour::Duration.duration());
    assert!(!LimitBehaviour::Duration.distribution());
    assert!(!LimitBehaviour::Distribution.duration());
    assert!(LimitBehaviour::Distribution.distribution());
    assert!(LimitBehaviour::Both.duration());
    assert!(LimitBehaviour::Both.distribution());
    assert!(!LimitBehaviour::Unknown(3).duration());
    assert!(!LimitBehaviour::Unknown(9).distribution());
}

#[test]
fn easing_names_its_curve() {
    assert_eq!(Easing::Disabled.curve(), None);
    assert_eq!(Easing::Unknown(5).curve(), None);
    assert_eq!(Easing::Unknown(200).curve(), None);
    assert_eq!(Easing::Linear.curve(), Some(Curve::Linear));
    assert_eq!(Easing::OutElastic.curve(), Some(Curve::OutElastic));
    assert_eq!(Easing::BeatSaberInOutBack.curve(), Some(Curve::InOutBack));
    assert_eq!(Easing::BeatSaberInOutElastic.curve(), Some(Curve::InOutElastic));
    assert_eq!(Easing::BeatSaberInOutBounce.curve(), Some(Curve::InOutBounce));
    for raw in 0..=30 {
        let curve = Easing::from_raw(raw).curve().unwrap();
        assert_eq!(curve.index() as i32, raw);
    }
    assert_eq!(Curve::InOutBack.index(), 24);
    assert_eq!(Curve::InOutElastic.index(), 27);
    assert_eq!(Curve::InOutBounce.index(), 30);
}

#[test]
fn scalar_keeps_every_bit() {
    for value in [0.0f32, -0.0, 1.0, 0.5, -12.25, f32::MAX, f32::MIN_POSITIVE, f32::INFINITY] {
        let scalar = Scalar::from_bits(value.to_bits());
        assert_eq!(scalar.to_bits(), value.to_bits());
        assert_eq!(f32::from_bits(scalar.to_bits()), value);
    }
    let nan = Scalar::from_bits(0x7fc1_2345);
    assert_eq!(nan.to_bits(), 0x7fc1_2345);
    assert_eq!(Scalar::zero().to_bits(), 0.0f32.to_bits());
    assert_eq!(Scalar::one().to_bits(), 1.0f32.to_bits());
}

#[test]
fn scalar_tells_zero_as_the_comparison_does() {
    for bits in [
        0u32,
        0x8000_0000,
        1,
        0x8000_0001,
        0x3f80_0000,
        0xbf80_0000,
        0x7f80_0000,
        0xff80_0000,
        0x7fc0_0000,
        0xffc0_0000,
        0x7f80_0001,
    ] {
        let expected = f32::from_bits(bits) == 0.0;
        assert_eq!(Scalar::from_bits(bits).is_zero(), expected);
        assert_eq!(Scalar::from_bits(bits).is_nan(), f32::from_bits(bits).is_nan());
    }
}

#[test]
fn scalar_key_is_one_per_quantity() {
    assert_eq!(Scalar::from_bits((-0.0f32).to_bits()).key(), 0);
    assert_eq!(Scalar::from_bits(0).key(), 0);
    assert_eq!(Scalar::from_bits(0x7fc0_0000).key(), 0x7fc0_0000);
    assert_eq!(Scalar::from_bits(0xffc0_0001).key(), 0x7fc0_0000);
    assert_eq!(Scalar::from_bits(0x7f80_0001).key(), 0x7fc0_0000);
    assert_eq!(Scalar::from_bits(0x7f80_0000).key(), 0x7f80_0000);
    assert_eq!(Scalar::from_bits(0xff80_0000).key(), 0xff80_0000);
    assert_eq!(Scalar::from_bits(1.5f32.to_bits()).key(), 1.5f32.to_bits());
    assert_eq!(Scalar::from_bits((-1.5f32).to_bits()).key(), (-1.5f32).to_bits());
}

#[test]
fn cut_direction_turns_a_note() {
    assert_eq!(CutDirection::Up.get_degrees(), 180);
    assert_eq!(CutDirection::Down.get_degrees(), 0);
    assert_eq!(CutDirection::Left.get_degrees(), -90);
    assert_eq!(CutDirection::Right.get_degrees(), 90);
    assert_eq!(CutDirection::UpLeft.get_degrees(), -135);
    assert_eq!(CutDirection::UpRight.get_degrees(), 135);
    assert_eq!(CutDirection::DownLeft.get_degrees(), -45);
    assert_eq!(CutDirection::DownRight.get_degrees(), 45);
    assert_eq!(CutDirection::Any.get_degrees(), 0);
    assert_eq!(CutDirection::Unknown(3).get_degrees(), 0);
    assert_eq!(CutDirection::default(), CutDirection::Up);
    for raw in -2..12 {
        assert_eq!(CutDirection::from_raw(raw).to_raw(), raw);
    }
    assert_eq!(CutDirection::from_raw(8), CutDirection::Any);
    assert_eq!(CutDirection::from_raw(9), CutDirection::Unknown(9));
}
