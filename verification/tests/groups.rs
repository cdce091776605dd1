use bsru::group::{compute_duration, last_beat_offset};
use bsru::{
    Axis, ColorEventBox, ColorEventData, ColorEventGroup, DistributionType, DurationTerm, Easing,
    EventAxis, EventBox, EventData, EventGroup, Filter, FilterRecord, FilterType, FilteredSize,
    FxEventBox, FxEventData, FxEventGroup, Keyword, LimitBehaviour, LooseBool, OffsetTerm,
    RankRule, RotationEventBox, RotationEventData, RotationEventGroup, Scalar, SpecialEvent,
    Timed, TranslationEventBox, TranslationEventData, TranslationEventGroup,
};

fn scalar_n(x: f32) -> Scalar {
    Scalar::from_bits(x.to_bits())
}

#[test]
fn compute_offset_names_the_arithmetic() {
    let value = scalar_n(3.0);
    let carry = Some(scalar_n(1.0));
    let size = FilteredSize::Whole(8);
    assert_eq!(
        DistributionType::Wave.compute_offset(2, size, value, carry, Some(Easing::InQuad)),
        OffsetTerm::Wave {
            rank: 2,
            size,
            value,
            carry_over: carry,
            easing: Some(Easing::InQuad)
        }
    );
    assert_eq!(
        DistributionType::Step.compute_offset(2, size, value, carry, Some(Easing::InQuad)),
        OffsetTerm::Step { rank: 2, value }
    );
    assert_eq!(
        DistributionType::Unknown(3).compute_offset(2, size, value, carry, None),
        OffsetTerm::Zero
    );
}

#[test]
fn a_value_of_zero_distributes_nothing() {
    let filters = [
        Filter::default(),
        Filter {
            filter_type: FilterType::StepAndOffset,
            parameter1: 1,
            parameter2: 3,
            reverse: LooseBool::True,
            chunks: Some(4),
            ..Default::default()
        },
        Filter {
            filter_type: FilterType::Unknown(8),
            limit_behaviour: Some(LimitBehaviour::Both),
            limit_percent: Some(scalar_n(0.25)),
            ..Default::default()
        },
    ];
    for filter in filters {
        for zero in [scalar_n(0.0), scalar_n(-0.0)] {
            for dist_type in [DistributionType::Wave, DistributionType::Step] {
                for light_id in 0..12 {
                    assert_eq!(
                        dist_type.compute_beat_offset(
                            light_id,
                            12,
                            &filter,
                            zero,
                            Some(scalar_n(2.0)),
                            None
                        ),
                        OffsetTerm::Zero
                    );
                    assert_eq!(
                        dist_type.compute_value_offset(
                            light_id,
                            12,
                            &filter,
                            zero,
                            None,
                            Some(Easing::OutBounce)
                        ),
                        OffsetTerm::Zero
                    );
                }
            }
        }
    }
}

#[test]
fn the_limit_shortens_only_the_axis_it_names() {
    let half = scalar_n(0.5);
    let value = scalar_n(12.0);
    for (behaviour, beat, amount) in [
        (Some(LimitBehaviour::Disabled), false, false),
        (Some(LimitBehaviour::Duration), true, false),
        (Some(LimitBehaviour::Distribution), false, true),
        (Some(LimitBehaviour::Both), true, true),
        (Some(LimitBehaviour::Unknown(4)), false, false),
        (None, false, false),
    ] {
        let filter = Filter {
            limit_behaviour: behaviour,
            limit_percent: Some(half),
            ..Default::default()
        };
        let limited = FilteredSize::Limited { count: 12, percent: half };
        let whole = FilteredSize::Whole(12);
        assert_eq!(filter.count_filtered_on(Axis::Beat, 12), if beat { limited } else { whole });
        assert_eq!(filter.count_filtered_on(Axis::Value, 12), if amount { limited } else { whole });
        assert_eq!(filter.limit_names_axis(Axis::Beat), beat);
        assert_eq!(filter.limit_names_axis(Axis::Value), amount);
        assert!(filter.is_limited());
        assert_eq!(filter.count_filtered(12), 12);
        assert_eq!(
            DistributionType::Wave.compute_beat_offset(3, 12, &filter, value, None, None),
            OffsetTerm::Wave {
                rank: 3,
                size: if beat { limited } else { whole },
                value,
                carry_over: None,
                easing: None
            }
        );
    }
}

#[test]
fn an_absent_or_zero_limit_shortens_nothing() {
    for percent in [None, Some(scalar_n(0.0)), Some(scalar_n(-0.0))] {
        let filter = Filter {
            limit_behaviour: Some(LimitBehaviour::Both),
            limit_percent: percent,
            ..Default::default()
        };
        assert!(!filter.is_limited());
        assert_eq!(filter.count_filtered_on(Axis::Beat, 12), FilteredSize::Whole(12));
        assert_eq!(filter.count_filtered_on(Axis::Value, 12), FilteredSize::Whole(12));
    }
}

#[test]
fn offsets_follow_the_rank_rule() {
    let filter = Filter {
        reverse: LooseBool::True,
        chunks: Some(6),
        ..Default::default()
    };
    let value = scalar_n(1.0);
    let term = |rule| {
        DistributionType::Step.compute_offset_under(rule, Axis::Beat, 3, 12, &filter, value, None, None)
    };
    assert_eq!(term(RankRule::standard()), OffsetTerm::Step { rank: 4, value });
    assert_eq!(term(RankRule::aligned()), OffsetTerm::Step { rank: 4, value });
    assert_eq!(term(RankRule::earliest()), OffsetTerm::Step { rank: 9, value });
    assert_eq!(
        DistributionType::Step.compute_offset_under(
            RankRule::aligned(),
            Axis::Beat,
            4,
            12,
            &filter,
            value,
            None,
            None
        ),
        OffsetTerm::Step { rank: 3, value }
    );
    assert_eq!(
        DistributionType::Step.compute_offset_on(Axis::Value, 4, 12, &filter, value, None, None),
        OffsetTerm::Step { rank: 4, value }
    );
}

#[test]
fn duration_terms() {
    let filter = Filter::default();
    let value = scalar_n(4.0);
    let last = scalar_n(1.5);
    let one = scalar_n(1.0);
    assert_eq!(
        compute_duration(&filter, DistributionType::Wave, value, Some(last), 12),
        DurationTerm::LimitedWave { value, percent: one, last_offset: last }
    );
    assert_eq!(
        compute_duration(&filter, DistributionType::Step, value, Some(last), 12),
        DurationTerm::Step { value, count: 12, last_offset: last }
    );
    assert_eq!(
        compute_duration(&filter, DistributionType::Unknown(0), value, Some(last), 12),
        DurationTerm::Zero
    );
    assert_eq!(compute_duration(&filter, DistributionType::Wave, value, None, 12), DurationTerm::Zero);

    let named = Filter {
        limit_behaviour: Some(LimitBehaviour::Both),
        limit_percent: Some(scalar_n(0.5)),
        ..Default::default()
    };
    assert_eq!(
        compute_duration(&named, DistributionType::Wave, value, Some(last), 12),
        DurationTerm::Wave { value, last_offset: last }
    );
    let absent = Filter {
        limit_behaviour: None,
        limit_percent: Some(scalar_n(0.5)),
        ..Default::default()
    };
    assert_eq!(
        compute_duration(&absent, DistributionType::Wave, value, Some(last), 12),
        DurationTerm::Wave { value, last_offset: last }
    );
    let other_axis = Filter {
        limit_behaviour: Some(LimitBehaviour::Distribution),
        limit_percent: Some(scalar_n(0.5)),
        ..Default::default()
    };
    assert_eq!(
        compute_duration(&other_axis, DistributionType::Wave, value, Some(last), 12),
        DurationTerm::LimitedWave { value, percent: scalar_n(0.5), last_offset: last }
    );
    let no_percent = Filter {
        limit_percent: None,
        ..Default::default()
    };
    assert_eq!(
        compute_duration(&no_percent, DistributionType::Wave, value, Some(last), 12),
        DurationTerm::Wave { value, last_offset: last }
    );
}

#[test]
fn a_group_that_counts_no_light_has_no_duration() {
    let filter = Filter {
        filter_type: FilterType::StepAndOffset,
        parameter1: 0,
        parameter2: 20,
        ..Default::default()
    };
    assert_eq!(filter.count_filtered(12), 0);
    assert_eq!(
        compute_duration(&filter, DistributionType::Step, scalar_n(1.0), Some(scalar_n(0.0)), 12),
        DurationTerm::Zero
    );
    let unknown = Filter {
        filter_type: FilterType::Unknown(5),
        ..Default::default()
    };
    assert_eq!(
        compute_duration(&unknown, DistributionType::Wave, scalar_n(1.0), Some(scalar_n(0.0)), 0),
        DurationTerm::Zero
    );
}

#[test]
fn the_carry_over_is_the_last_beat_offset() {
    let mut group = ColorEventGroup::default();
    assert_eq!(last_beat_offset(&group.data), Some(scalar_n(0.0)));
    group.data.push(ColorEventData {
        beat_offset: scalar_n(2.5),
        ..Default::default()
    });
    group.data.push(ColorEventData {
        beat_offset: scalar_n(1.0),
        ..Default::default()
    });
    assert_eq!(last_beat_offset(&group.data), Some(scalar_n(1.0)));
    group.bright_dist_value = scalar_n(6.0);
    assert_eq!(
        group.get_brightness_offset(4, 12),
        OffsetTerm::Wave {
            rank: 4,
            size: FilteredSize::Whole(12),
            value: scalar_n(6.0),
            carry_over: Some(scalar_n(1.0)),
            easing: Some(Easing::Linear)
        }
    );
    group.data.clear();
    assert_eq!(last_beat_offset(&group.data), None);
    assert_eq!(group.get_duration(12), DurationTerm::Zero);
}

#[test]
fn groups_of_every_family_distribute_alike() {
    let value = scalar_n(6.0);
    let filter = Filter {
        filter_type: FilterType::Division,
        parameter1: 2,
        parameter2: 1,
        ..Default::default()
    };
    let expected = |easing| OffsetTerm::Wave {
        rank: 2,
        size: FilteredSize::Whole(6),
        value,
        carry_over: Some(scalar_n(0.0)),
        easing,
    };
    let color = ColorEventGroup {
        filter,
        beat_dist_value: value,
        bright_dist_value: value,
        ..Default::default()
    };
    assert_eq!(color.get_beat_offset(8, 12), expected(None));
    assert_eq!(color.get_value_offset(8, 12), expected(Some(Easing::Linear)));
    assert_eq!(color.get_brightness_offset(8, 12), expected(Some(Easing::Linear)));

    let rotation = RotationEventGroup {
        filter,
        beat_dist_value: value,
        rotation_dist_value: value,
        rotation_dist_easing: None,
        ..Default::default()
    };
    assert_eq!(rotation.get_beat_offset(8, 12), expected(None));
    assert_eq!(rotation.get_value_offset(8, 12), expected(None));
    assert_eq!(rotation.get_rotation_offset(8, 12), expected(None));

    let translation = TranslationEventGroup {
        filter,
        beat_dist_value: value,
        translation_dist_value: value,
        translation_dist_easing: Easing::OutSine,
        ..Default::default()
    };
    assert_eq!(translation.get_beat_offset(8, 12), expected(None));
    assert_eq!(translation.get_value_offset(8, 12), expected(Some(Easing::OutSine)));
    assert_eq!(translation.get_translation_offset(8, 12), expected(Some(Easing::OutSine)));

    let fx = FxEventGroup {
        filter,
        beat_dist_value: value,
        fx_dist_value: value,
        fx_dist_easing: Some(Easing::Disabled),
        ..Default::default()
    };
    assert_eq!(fx.get_beat_offset(8, 12), expected(None));
    assert_eq!(fx.get_value_offset(8, 12), expected(Some(Easing::Disabled)));
    assert_eq!(fx.get_fx_offset(8, 12), expected(Some(Easing::Disabled)));
    assert_eq!(
        fx.get_duration(12),
        DurationTerm::LimitedWave {
            value,
            percent: scalar_n(1.0),
            last_offset: scalar_n(0.0)
        }
    );
}

#[test]
fn defaults_of_the_families() {
    let color = ColorEventBox::default();
    assert_eq!(color.get_beat(), scalar_n(0.0));
    assert_eq!(color.group_id, 0);
    assert_eq!(color.get_groups().len(), 1);
    assert_eq!(color.groups[0], ColorEventGroup::default());
    assert_eq!(color.groups[0].get_filter(), &Filter::default());
    assert_eq!(color.groups[0].get_data(), &vec![ColorEventData::default()]);
    assert_eq!(color.groups[0].bright_dist_easing, Some(Easing::Linear));
    assert_eq!(color.groups[0].bright_dist_effect_first, LooseBool::False);
    let data = ColorEventData::default();
    assert_eq!(data.get_beat_offset(), scalar_n(0.0));
    assert_eq!(data.brightness, scalar_n(1.0));
    assert_eq!(data.strobe_brightness, Some(scalar_n(0.0)));
    assert_eq!(data.strobe_fade, Some(LooseBool::False));

    let rotation = RotationEventBox::default();
    assert_eq!(rotation.get_groups().len(), 1);
    assert_eq!(rotation.groups[0].rotation_dist_effect_first, LooseBool::True);
    assert_eq!(rotation.groups[0].rotation_dist_easing, Some(Easing::Linear));
    assert_eq!(rotation.groups[0].axis, EventAxis::X);
    assert_eq!(rotation.groups[0].data, vec![RotationEventData::default()]);
    assert_eq!(RotationEventData::default().degrees, scalar_n(0.0));
    assert_eq!(RotationEventData::default().easing, Easing::Disabled);

    let translation = TranslationEventBox::default();
    assert_eq!(translation.get_groups().len(), 1);
    assert_eq!(translation.groups[0].translation_dist_easing, Easing::Linear);
    assert_eq!(translation.groups[0].translation_dist_effect_first, LooseBool::False);
    assert_eq!(translation.groups[0].data, vec![TranslationEventData::default()]);
    assert_eq!(TranslationEventData::default().value, scalar_n(0.0));

    let fx = FxEventBox::default();
    assert_eq!(fx.get_groups().len(), 1);
    assert_eq!(fx.groups[0].fx_dist_easing, Some(Easing::Linear));
    assert_eq!(fx.groups[0].data, vec![FxEventData::default()]);
    assert_eq!(FxEventData::default().value, scalar_n(1.0));
    assert_eq!(FxEventData::default().get_beat_offset(), scalar_n(0.0));
}

#[test]
fn a_filter_is_written_and_read_back() {
    let filter = Filter {
        filter_type: FilterType::StepAndOffset,
        parameter1: 3,
        parameter2: -2,
        reverse: LooseBool::Unknown(9),
        chunks: None,
        random_behaviour: Some(bsru::RandomBehaviour::RandomElements),
        random_seed: Some(77),
        limit_behaviour: Some(LimitBehaviour::Unknown(12)),
        limit_percent: Some(Scalar::from_bits(0x7fc0_0001)),
    };
    let record = filter.to_record();
    assert_eq!(
        record,
        FilterRecord {
            f: 2,
            p: 3,
            t: -2,
            r: 9,
            c: None,
            n: Some(2),
            s: Some(77),
            d: Some(12),
            l: Some(Scalar::from_bits(0x7fc0_0001)),
        }
    );
    assert_eq!(Filter::from_record(&record), filter);

    let default = Filter::default().to_record();
    assert_eq!(
        default,
        FilterRecord {
            f: 1,
            p: 1,
            t: 0,
            r: 0,
            c: Some(0),
            n: Some(0),
            s: Some(0),
            d: Some(0),
            l: Some(scalar_n(1.0)),
        }
    );
    assert_eq!(Filter::from_record(&default), Filter::default());

    let odd = FilterRecord { f: 0, r: 1, d: Some(3), ..default };
    let read = Filter::from_record(&odd);
    assert_eq!(read.filter_type, FilterType::Unknown(0));
    assert_eq!(read.reverse, LooseBool::True);
    assert_eq!(read.limit_behaviour, Some(LimitBehaviour::Both));
    assert_eq!(read.to_record(), odd);
}

#[test]
fn special_events_hold_their_keywords() {
    assert_eq!(SpecialEvent::default().keywords, None);
    let keyword = Keyword {
        keyword: String::from("SECRET"),
        event_types: vec![40, 41],
    };
    let event = SpecialEvent {
        keywords: Some(vec![keyword.clone(), Keyword::default()]),
    };
    assert_eq!(event.clone(), event);
    assert_eq!(event.keywords.unwrap()[0], keyword);
    assert_eq!(Keyword::default().event_types, Vec::<i32>::new());
}
