use bsru::{
    Curve, DistributionType, Easing, Filter, FilterType, FilteredSize, LimitBehaviour, LooseBool,
    OffsetTerm, Scalar,
};

fn scalar_d(x: f32) -> Scalar {
    Scalar::from_bits(x.to_bits())
}

fn float_d(x: Scalar) -> f32 {
    f32::from_bits(x.to_bits())
}

fn ease_d(easing: Easing, x: f32) -> f32 {
    match easing.curve() {
        None => 0.0,
        Some(Curve::Linear) => simple_easing::linear(x),
        Some(Curve::InQuad) => simple_easing::quad_in(x),
        Some(Curve::OutQuad) => simple_easing::quad_out(x),
        Some(Curve::InOutQuad) => simple_easing::quad_in_out(x),
        Some(Curve::InSine) => simple_easing::sine_in(x),
        Some(Curve::OutSine) => simple_easing::sine_out(x),
        Some(Curve::InOutSine) => simple_easing::sine_in_out(x),
        Some(Curve::InCubic) => simple_easing::cubic_in(x),
        Some(Curve::OutCubic) => simple_easing::cubic_out(x),
        Some(Curve::InOutCubic) => simple_easing::cubic_in_out(x),
        Some(Curve::InQuart) => simple_easing::quart_in(x),
        Some(Curve::OutQuart) => simple_easing::quart_out(x),
        Some(Curve::InOutQuart) => simple_easing::quart_in_out(x),
        Some(Curve::InQuint) => simple_easing::quint_in(x),
        Some(Curve::OutQuint) => simple_easing::quint_out(x),
        Some(Curve::InOutQuint) => simple_easing::quint_in_out(x),
        Some(Curve::InExpo) => simple_easing::expo_in(x),
        Some(Curve::OutExpo) => simple_easing::expo_out(x),
        Some(Curve::InOutExpo) => simple_easing::expo_in_out(x),
        Some(Curve::InCirc) => simple_easing::circ_in(x),
        Some(Curve::OutCirc) => simple_easing::circ_out(x),
        Some(Curve::InOutCirc) => simple_easing::circ_in_out(x),
        Some(Curve::InBack) => simple_easing::back_in(x),
        Some(Curve::OutBack) => simple_easing::back_out(x),
        Some(Curve::InOutBack) => simple_easing::back_in_out(x),
        Some(Curve::InElastic) => simple_easing::elastic_in(x),
        Some(Curve::OutElastic) => simple_easing::elastic_out(x),
        Some(Curve::InOutElastic) => simple_easing::elastic_in_out(x),
        Some(Curve::InBounce) => simple_easing::bounce_in(x),
        Some(Curve::OutBounce) => simple_easing::bounce_out(x),
        Some(Curve::InOutBounce) => simple_easing::bounce_in_out(x),
    }
}

fn size_d(size: FilteredSize) -> i32 {
    match size {
        FilteredSize::Whole(count) => count,
        FilteredSize::Limited { count, percent } => (count as f32 * float_d(percent)) as i32,
    }
}

fn eval_d(term: OffsetTerm) -> f32 {
    match term {
        OffsetTerm::Zero => 0.0,
        OffsetTerm::Wave { rank, size, value, carry_over, easing } => {
            let mut modified_value = float_d(value);
            if let Some(offset) = carry_over {
                modified_value -= float_d(offset);
            }
            let mut fraction = rank as f32 / size_d(size) as f32;
            if let Some(easing) = easing {
                fraction = ease_d(easing, fraction);
            }
            fraction * modified_value
        }
        OffsetTerm::Step { rank, value } => float_d(value) * rank as f32,
    }
}

/// Computes the beat offset and the value offset, checks that they agree, and returns the
/// one value. Only meaningful where the limit names both axes or neither.
fn both_d(
    dist_type: DistributionType,
    light_id: i32,
    group_size: i32,
    filter: &Filter,
    dist_value: f32,
    last_data_offset: Option<f32>,
    easing: Option<Easing>,
) -> f32 {
    assert!(matches!(
        filter.limit_behaviour,
        None | Some(LimitBehaviour::Disabled) | Some(LimitBehaviour::Both)
    ));
    let beat = eval_d(dist_type.compute_beat_offset(
        light_id,
        group_size,
        filter,
        scalar_d(dist_value),
        last_data_offset.map(scalar_d),
        easing,
    ));
    let value = eval_d(dist_type.compute_value_offset(
        light_id,
        group_size,
        filter,
        scalar_d(dist_value),
        last_data_offset.map(scalar_d),
        easing,
    ));
    assert_eq!(beat, value);
    beat
}

#[test]
fn wave() {
    for i in 0..12 {
        assert_eq!(
            both_d(DistributionType::Wave, i, 12, &Filter::default(), 12.0, None, None),
            i as f32
        );
    }
}

#[test]
fn step() {
    for i in 0..12 {
        assert_eq!(
            both_d(DistributionType::Step, i, 12, &Filter::default(), 1.0, None, None),
            i as f32
        );
    }
}

#[test]
fn wave_negative() {
    for i in 0..12 {
        assert_eq!(
            both_d(DistributionType::Wave, i, 12, &Filter::default(), -12.0, None, None),
            -i as f32
        );
    }
}

#[test]
fn step_negative() {
    for i in 0..12 {
        assert_eq!(
            both_d(DistributionType::Step, i, 12, &Filter::default(), -1.0, None, None),
            -i as f32
        );
    }
}

#[test]
fn wave_zero() {
    for i in 0..12 {
        assert_eq!(
            both_d(DistributionType::Wave, i, 12, &Filter::default(), 0.0, None, None),
            0.0
        );
    }
}

#[test]
fn step_zero() {
    for i in 0..12 {
        assert_eq!(
            both_d(DistributionType::Step, i, 12, &Filter::default(), 0.0, None, None),
            0.0
        );
    }
}

#[test]
fn wave_with_division_filter() {
    for i in 0..6 {
        assert_eq!(
            both_d(
                DistributionType::Wave,
                i + 6,
                12,
                &Filter {
                    filter_type: FilterType::Division,
                    parameter1: 2,
                    parameter2: 1,
                    ..Default::default()
                },
                6.0,
                None,
                None
            ),
            i as f32
        );
    }
}

#[test]
fn step_with_division_filter() {
    for i in 0..6 {
        assert_eq!(
            both_d(
                DistributionType::Step,
                i + 6,
                12,
                &Filter {
                    filter_type: FilterType::Division,
                    parameter1: 2,
                    parameter2: 1,
                    ..Default::default()
                },
                1.0,
                None,
                None
            ),
            i as f32
        );
    }
}

#[test]
fn wave_with_step_filter() {
    for i in 0..6 {
        assert_eq!(
            both_d(
                DistributionType::Wave,
                i * 2,
                12,
                &Filter {
                    filter_type: FilterType::StepAndOffset,
                    parameter1: 0,
                    parameter2: 2,
                    ..Default::default()
                },
                6.0,
                None,
                None
            ),
            i as f32
        );
    }
}

#[test]
fn step_with_step_filter() {
    for i in 0..6 {
        assert_eq!(
            both_d(
                DistributionType::Step,
                i * 2,
                12,
                &Filter {
                    filter_type: FilterType::StepAndOffset,
                    parameter1: 0,
                    parameter2: 2,
                    ..Default::default()
                },
                1.0,
                None,
                None
            ),
            i as f32
        );
    }
}

#[test]
fn wave_with_reverse_filter() {
    for i in 0..12 {
        assert_eq!(
            both_d(
                DistributionType::Wave,
                i,
                12,
                &Filter {
                    reverse: LooseBool::True,
                    ..Default::default()
                },
                12.0,
                None,
                None
            ),
            12.0 - i as f32
        );
    }
}

#[test]
fn step_with_reverse_filter() {
    for i in 0..12 {
        assert_eq!(
            both_d(
                DistributionType::Step,
                i,
                12,
                &Filter {
                    reverse: LooseBool::True,
                    ..Default::default()
                },
                1.0,
                None,
                None
            ),
            12.0 - i as f32
        );
    }
}

#[test]
fn wave_with_chunks_of_size_two() {
    for i in 0..6 {
        let filter = Filter {
            chunks: Some(6),
            ..Default::default()
        };
        assert_eq!(
            both_d(DistributionType::Wave, i * 2, 12, &filter, 6.0, None, None),
            i as f32
        );
        assert_eq!(
            both_d(DistributionType::Wave, i * 2 + 1, 12, &filter, 6.0, None, None),
            i as f32
        );
    }
}

#[test]
fn step_with_chunks_of_size_two() {
    for i in 0..6 {
        let filter = Filter {
            chunks: Some(6),
            ..Default::default()
        };
        assert_eq!(
            both_d(DistributionType::Step, i * 2, 12, &filter, 1.0, None, None),
            i as f32
        );
        assert_eq!(
            both_d(DistributionType::Step, i * 2 + 1, 12, &filter, 1.0, None, None),
            i as f32
        );
    }
}

#[test]
fn wave_with_chunks_of_size_six() {
    for i in 0..6 {
        let filter = Filter {
            chunks: Some(2),
            ..Default::default()
        };
        assert_eq!(
            both_d(DistributionType::Wave, i, 12, &filter, 2.0, None, None),
            0.0
        );
        assert_eq!(
            both_d(DistributionType::Wave, i + 6, 12, &filter, 2.0, None, None),
            1.0
        );
    }
}

#[test]
fn step_with_chunks_of_size_six() {
    for i in 0..6 {
        let filter = Filter {
            chunks: Some(2),
            ..Default::default()
        };
        assert_eq!(
            both_d(DistributionType::Step, i, 12, &filter, 1.0, None, None),
            0.0
        );
        assert_eq!(
            both_d(DistributionType::Step, i + 6, 12, &filter, 1.0, None, None),
            1.0
        );
    }
}

#[test]
fn wave_with_chunks_out_of_bounds() {
    let filter = Filter {
        chunks: Some(24),
        ..Default::default()
    };

    for i in 0..12 {
        assert_eq!(
            both_d(DistributionType::Wave, i, 12, &filter, 12.0, None, None),
            i as f32
        );
    }
}

#[test]
fn step_with_chunks_out_of_bounds() {
    let filter = Filter {
        chunks: Some(24),
        ..Default::default()
    };

    for i in 0..12 {
        assert_eq!(
            both_d(DistributionType::Step, i, 12, &filter, 1.0, None, None),
            i as f32
        );
    }
}

#[test]
fn wave_with_limit() {
    let filter = Filter {
        limit_percent: Some(scalar_d(0.5)),
        ..Default::default()
    };

    for i in 0..6 {
        assert_eq!(
            both_d(DistributionType::Wave, i, 12, &filter, 12.0, None, None),
            i as f32
        );
    }
}

#[test]
fn step_with_limit() {
    let filter = Filter {
        limit_percent: Some(scalar_d(0.5)),
        ..Default::default()
    };

    for i in 0..6 {
        assert_eq!(
            both_d(DistributionType::Step, i, 12, &filter, 1.0, None, None),
            i as f32
        );
    }
}

#[test]
fn wave_with_enabled_limit() {
    let filter = Filter {
        limit_behaviour: Some(LimitBehaviour::Both),
        limit_percent: Some(scalar_d(0.5)),
        ..Default::default()
    };

    for i in 0..6 {
        assert_eq!(
            both_d(DistributionType::Wave, i, 12, &filter, 12.0, None, None),
            (i * 2) as f32
        );
    }
}

#[test]
fn step_with_enabled_limit() {
    let filter = Filter {
        limit_behaviour: Some(LimitBehaviour::Both),
        limit_percent: Some(scalar_d(0.5)),
        ..Default::default()
    };

    for i in 0..6 {
        assert_eq!(
            both_d(DistributionType::Step, i, 12, &filter, 1.0, None, None),
            i as f32
        );
    }
}
