use bsru::color::ColorEventGroup;
use bsru::group::EventGroup;
use bsru::{
    Curve, DistributionType, Easing, Filter, FilterType, FilteredSize, LimitBehaviour, LooseBool,
    OffsetTerm, Scalar,
};

fn scalar_c(x: f32) -> Scalar {
    Scalar::from_bits(x.to_bits())
}

fn float_c(x: Scalar) -> f32 {
    f32::from_bits(x.to_bits())
}

fn ease_c(easing: Easing, x: f32) -> f32 {
    match easing.curve() {
        None => 0.0,
        Some(Curve::Linear) => simple_easing::linear(x),
        Some(Curve::InQuad) => simple_easing::quad_in(x),
        Some(Curve::OutQuad) => simple_easing::quad_out(x),
        Some(Curve::InOutQuad) => simple_easing::quad_in_out(x),
        Some(Curve::InSine) => simple_easing::sine_in(x),
        Some(Curve::OutSine) => simple_easing::sine_out(x),
        Some(Curve::InOutSine) => simple_easing::sine_in_out(x),
        Some(Curve::InCubic) => simple_easing::cubic_in(x),
        Some(Curve::OutCubic) => simple_easing::cubic_out(x),
        Some(Curve::InOutCubic) => simple_easing::cubic_in_out(x),
        Some(Curve::InQuart) => simple_easing::quart_in(x),
        Some(Curve::OutQuart) => simple_easing::quart_out(x),
        Some(Curve::InOutQuart) => simple_easing::quart_in_out(x),
        Some(Curve::InQuint) => simple_easing::quint_in(x),
        Some(Curve::OutQuint) => simple_easing::quint_out(x),
        Some(Curve::InOutQuint) => simple_easing::quint_in_out(x),
        Some(Curve::InExpo) => simple_easing::expo_in(x),
        Some(Curve::OutExpo) => simple_easing::expo_out(x),
        Some(Curve::InOutExpo) => simple_easing::expo_in_out(x),
        Some(Curve::InCirc) => simple_easing::circ_in(x),
        Some(Curve::OutCirc) => simple_easing::circ_out(x),
        Some(Curve::InOutCirc) => simple_easing::circ_in_out(x),
        Some(Curve::InBack) => simple_easing::back_in(x),
        Some(Curve::OutBack) => simple_easing::back_out(x),
        Some(Curve::InOutBack) => simple_easing::back_in_out(x),
        Some(Curve::InElastic) => simple_easing::elastic_in(x),
        Some(Curve::OutElastic) => simple_easing::elastic_out(x),
        Some(Curve::InOutElastic) => simple_easing::elastic_in_out(x),
        Some(Curve::InBounce) => simple_easing::bounce_in(x),
        Some(Curve::OutBounce) => simple_easing::bounce_out(x),
        Some(Curve::InOutBounce) => simple_easing::bounce_in_out(x),
    }
}

fn size_c(size: FilteredSize) -> i32 {
    match size {
        FilteredSize::Whole(count) => count,
        FilteredSize::Limited { count, percent } => (count as f32 * float_c(percent)) as i32,
    }
}

fn eval_c(term: OffsetTerm) -> f32 {
    match term {
        OffsetTerm::Zero => 0.0,
        OffsetTerm::Wave { rank, size, value, carry_over, easing } => {
            let mut modified_value = float_c(value);
            if let Some(offset) = carry_over {
                modified_value -= float_c(offset);
            }
            let mut fraction = rank as f32 / size_c(size) as f32;
            if let Some(easing) = easing {
                fraction = ease_c(easing, fraction);
            }
            fraction * modified_value
        }
        OffsetTerm::Step { rank, value } => float_c(value) * rank as f32,
    }
}

#[test]
fn color_beat_wave() {
    let group = ColorEventGroup {
        beat_dist_type: DistributionType::Wave,
        beat_dist_value: scalar_c(12.0),
        ..Default::default()
    };

    assert!((0..12).all(|i| eval_c(group.get_beat_offset(i, 12)) == i as f32));
}

#[test]
fn color_beat_step() {
    let group = ColorEventGroup {
        beat_dist_type: DistributionType::Step,
        beat_dist_value: scalar_c(1.0),
        ..Default::default()
    };

    assert!((0..12).all(|i| eval_c(group.get_beat_offset(i, 12)) == i as f32));
}

#[test]
fn color_beat_wave_with_division_filter() {
    let group = ColorEventGroup {
        filter: Filter {
            filter_type: FilterType::Division,
            parameter1: 2,
            parameter2: 1,
            ..Default::default()
        },
        beat_dist_type: DistributionType::Wave,
        beat_dist_value: scalar_c(6.0),
        ..Default::default()
    };

    assert!((0..6).all(|i| eval_c(group.get_beat_offset(i + 6, 12)) == i as f32));
}

#[test]
fn color_brightness_wave_with_division_filter() {
    let group = ColorEventGroup {
        filter: Filter {
            filter_type: FilterType::Division,
            parameter1: 2,
            parameter2: 1,
            ..Default::default()
        },
        bright_dist_type: DistributionType::Wave,
        bright_dist_value: scalar_c(6.0),
        ..Default::default()
    };

    assert!((0..6).all(|i| eval_c(group.get_brightness_offset(i + 6, 12)) == i as f32));
}

#[test]
fn color_beat_step_with_division_filter() {
    let group = ColorEventGroup {
        filter: Filter {
            filter_type: FilterType::Division,
            parameter1: 2,
            parameter2: 1,
            ..Default::default()
        },
        beat_dist_type: DistributionType::Step,
        beat_dist_value: scalar_c(1.0),
        ..Default::default()
    };

    assert!((0..6).all(|i| eval_c(group.get_beat_offset(i + 6, 12)) == i as f32));
}

#[test]
fn color_brightness_step_with_division_filter() {
    let group = ColorEventGroup {
        filter: Filter {
            filter_type: FilterType::Division,
            parameter1: 2,
            parameter2: 1,
            ..Default::default()
        },
        bright_dist_type: DistributionType::Step,
        bright_dist_value: scalar_c(1.0),
        ..Default::default()
    };

    assert!((0..6).all(|i| eval_c(group.get_brightness_offset(i + 6, 12)) == i as f32));
}

#[test]
fn color_beat_wave_with_step_filter() {
    let group = ColorEventGroup {
        filter: Filter {
            filter_type: FilterType::StepAndOffset,
            parameter1: 0,
            parameter2: 2,
            ..Default::default()
        },
        beat_dist_type: DistributionType::Wave,
        beat_dist_value: scalar_c(6.0),
        ..Default::default()
    };

    assert!((0..6).all(|i| eval_c(group.get_beat_offset(i * 2, 12)) == i as f32));
}

#[test]
fn color_brightness_wave_with_step_filter() {
    let group = ColorEventGroup {
        filter: Filter {
            filter_type: FilterType::StepAndOffset,
            parameter1: 0,
            parameter2: 2,
            ..Default::default()
        },
        bright_dist_type: DistributionType::Wave,
        bright_dist_value: scalar_c(6.0),
        ..Default::default()
    };

    assert!((0..6).all(|i| eval_c(group.get_brightness_offset(i * 2, 12)) == i as f32));
}

#[test]
fn color_beat_step_with_step_filter() {
    let group = ColorEventGroup {
        filter: Filter {
            filter_type: FilterType::StepAndOffset,
            parameter1: 0,
            parameter2: 2,
            ..Default::default()
        },
        beat_dist_type: DistributionType::Step,
        beat_dist_value: scalar_c(1.0),
        ..Default::default()
    };

    assert!((0..6).all(|i| eval_c(group.get_beat_offset(i * 2, 12)) == i as f32));
}

#[test]
fn color_brightness_step_with_step_filter() {
    let group = ColorEventGroup {
        filter: Filter {
            filter_type: FilterType::StepAndOffset,
            parameter1: 0,
            parameter2: 2,
            ..Default::default()
        },
        bright_dist_type: DistributionType::Step,
        bright_dist_value: scalar_c(1.0),
        ..Default::default()
    };

    assert!((0..6).all(|i| eval_c(group.get_brightness_offset(i * 2, 12)) == i as f32));
}

#[test]
fn color_beat_wave_with_reverse_filter() {
    let group = ColorEventGroup {
        filter: Filter {
            reverse: LooseBool::True,
            ..Default::default()
        },
        beat_dist_type: DistributionType::Wave,
        beat_dist_value: scalar_c(12.0),
        ..Default::default()
    };

    assert!((0..12).all(|i| eval_c(group.get_beat_offset(i, 12)) == 12.0 - i as f32));
}

#[test]
fn color_brightness_wave_with_reverse_filter() {
    let group = ColorEventGroup {
        filter: Filter {
            reverse: LooseBool::True,
            ..Default::default()
        },
        bright_dist_type: DistributionType::Wave,
        bright_dist_value: scalar_c(12.0),
        ..Default::default()
    };

    assert!((0..12).all(|i| eval_c(group.get_brightness_offset(i, 12)) == 12.0 - i as f32));
}

#[test]
fn color_beat_step_with_reverse_filter() {
    let group = ColorEventGroup {
        filter: Filter {
            reverse: LooseBool::True,
            ..Default::default()
        },
        beat_dist_type: DistributionType::Step,
        beat_dist_value: scalar_c(1.0),
        ..Default::default()
    };

    assert!((0..12).all(|i| eval_c(group.get_beat_offset(i, 12)) == 12.0 - i as f32));
}

#[test]
fn color_brightness_step_with_reverse_filter() {
    let group = ColorEventGroup {
        filter: Filter {
            reverse: LooseBool::True,
            ..Default::default()
        },
        bright_dist_type: DistributionType::Step,
        bright_dist_value: scalar_c(1.0),
        ..Default::default()
    };

    assert!((0..12).all(|i| eval_c(group.get_brightness_offset(i, 12)) == 12.0 - i as f32));
}

#[test]
fn beat_wave_with_limit_filter() {
    let group = ColorEventGroup {
        filter: Filter {
            limit_behaviour: Some(LimitBehaviour::Duration),
            limit_percent: Some(scalar_c(0.5)),
            ..Default::default()
        },
        beat_dist_type: DistributionType::Wave,
        beat_dist_value: scalar_c(12.0),
        ..Default::default()
    };

    assert!((0..6).all(|i| eval_c(group.get_beat_offset(i, 12)) == (i * 2) as f32));
}

#[test]
fn brightness_wave_with_limit_filter() {
    let group = ColorEventGroup {
        filter: Filter {
            limit_behaviour: Some(LimitBehaviour::Distribution),
            limit_percent: Some(scalar_c(0.5)),
            ..Default::default()
        },
        bright_dist_type: DistributionType::Wave,
        bright_dist_value: scalar_c(12.0),
        ..Default::default()
    };

    assert!((0..6).all(|i| eval_c(group.get_brightness_offset(i, 12)) == (i * 2) as f32));
}
