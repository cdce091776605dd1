//! Events that control the position of objects.

use vstd::prelude::*;
use crate::distribution::{DistributionType, OffsetTerm};
use crate::easing::Easing;
use crate::filter::{fits_i32, Axis, Filter, RankRule};
use crate::group::{
    carry_over, compute_duration, last_beat_offset, DurationTerm, EventBox, EventData, EventGroup,
    Timed,
};
use crate::group::{EventAxis, TransitionType};
use crate::scalar::Scalar;
use crate::utils::LooseBool;

verus! {

/// A collection of translation groups that share one beat and one group of lights.
#[derive(Debug, Clone, PartialEq)]
pub struct TranslationEventBox {
    /// The beat at which the event takes place.
    pub beat: Scalar,
    /// The group of lights that the event affects.
    pub group_id: i32,
    pub groups: Vec<TranslationEventGroup>,
}

impl Default for TranslationEventBox {
    /// A box at beat zero, for the group of lights 0, that holds one default group.
    fn default() -> (event_box: TranslationEventBox)
        ensures
            event_box.beat == Scalar::zero_spec(),
            event_box.group_id == 0,
            event_box.groups@.len() == 1,
            event_box.groups@[0].is_default(),
    {
        TranslationEventBox { beat: Scalar::zero(), group_id: 0, groups: vec![TranslationEventGroup::default()] }
    }
}

impl Timed for TranslationEventBox {
    open spec fn beat(&self) -> Scalar {
        self.beat
    }

    fn get_beat(&self) -> (beat: Scalar) {
        self.beat
    }
}

impl EventBox for TranslationEventBox {
    type Group = TranslationEventGroup;

    open spec fn groups(&self) -> Seq<TranslationEventGroup> {
        self.groups@
    }

    fn get_groups(&self) -> (groups: &Vec<TranslationEventGroup>) {
        &self.groups
    }
}

/// A collection of translation data that share one axis, one filter and one distribution
/// per axis of distribution.
#[derive(Debug, Clone, PartialEq)]
pub struct TranslationEventGroup {
    pub filter: Filter,
    pub beat_dist_type: DistributionType,
    /// The strength of the beat distribution. A value of zero has no effect.
    pub beat_dist_value: Scalar,
    pub translation_dist_type: DistributionType,
    /// The strength of the translation distribution. A value of zero has no effect.
    pub translation_dist_value: Scalar,
    /// Whether the translation distribution affects the first entry of the group. Stored;
    /// no computation of this library reads it.
    pub translation_dist_effect_first: LooseBool,
    /// The easing of the translation distribution.
    pub translation_dist_easing: Easing,
    /// The axis that the group moves along.
    pub axis: EventAxis,
    /// If true, the translation is mirrored.
    pub invert_axis: LooseBool,
    pub data: Vec<TranslationEventData>,
}

impl TranslationEventGroup {
    /// Whether this is the default group: the default filter, no distribution on
    /// either axis, a linear easing, and one default entry of data.
    pub open spec fn is_default(self) -> bool {
        &&& self.filter == Filter::default_spec()
        &&& self.beat_dist_type == DistributionType::Wave
        &&& self.beat_dist_value == Scalar::zero_spec()
        &&& self.translation_dist_type == DistributionType::Wave
        &&& self.translation_dist_value == Scalar::zero_spec()
        &&& self.translation_dist_effect_first == LooseBool::False
        &&& self.translation_dist_easing == Easing::Linear
        &&& self.axis == EventAxis::X
        &&& self.invert_axis == LooseBool::False
        &&& self.data@.len() == 1
        &&& self.data@[0] == TranslationEventData::default_spec()
    }

    /// Returns the number of units by which the event is shifted for a light.
    pub fn get_translation_offset(&self, light_id: i32, group_size: i32) -> (term: OffsetTerm)
        requires
            0 <= light_id < group_size,
            fits_i32(
                self.filter.rank(RankRule::standard_spec(), light_id as int, group_size as int),
            ),
            fits_i32(self.filter.count(group_size as int)),
        ensures
            term == self.translation_dist_type.offset_on(
                Axis::Value,
                light_id as int,
                group_size as int,
                self.filter,
                self.translation_dist_value,
                carry_over(self.data@),
                Some(self.translation_dist_easing),
            ),
    {
        self.translation_dist_type.compute_value_offset(
            light_id,
            group_size,
            &self.filter,
            self.translation_dist_value,
            last_beat_offset(&self.data),
            Some(self.translation_dist_easing),
        )
    }
}

impl Default for TranslationEventGroup {
    fn default() -> (group: TranslationEventGroup)
        ensures
            group.is_default(),
    {
        TranslationEventGroup {
            filter: Filter::default(),
            beat_dist_type: DistributionType::Wave,
            beat_dist_value: Scalar::zero(),
            translation_dist_type: DistributionType::Wave,
            translation_dist_value: Scalar::zero(),
            translation_dist_effect_first: LooseBool::False,
            translation_dist_easing: Easing::Linear,
            axis: EventAxis::X,
            invert_axis: LooseBool::False,
            data: vec![TranslationEventData::default()],
        }
    }
}

impl EventGroup for TranslationEventGroup {
    type Data = TranslationEventData;

    open spec fn filter(&self) -> Filter {
        self.filter
    }

    open spec fn data(&self) -> Seq<TranslationEventData> {
        self.data@
    }

    open spec fn beat_distribution(&self) -> (DistributionType, Scalar) {
        (self.beat_dist_type, self.beat_dist_value)
    }

    open spec fn value_distribution(&self) -> (DistributionType, Scalar, Option<Easing>) {
        (self.translation_dist_type, self.translation_dist_value, Some(self.translation_dist_easing))
    }

    fn get_filter(&self) -> (filter: &Filter) {
        &self.filter
    }

    fn get_data(&self) -> (data: &Vec<TranslationEventData>) {
        &self.data
    }

    fn get_beat_offset(&self, light_id: i32, group_size: i32) -> (term: OffsetTerm) {
        self.beat_dist_type.compute_beat_offset(
            light_id,
            group_size,
            &self.filter,
            self.beat_dist_value,
            last_beat_offset(&self.data),
            None,
        )
    }

    fn get_value_offset(&self, light_id: i32, group_size: i32) -> (term: OffsetTerm) {
        self.get_translation_offset(light_id, group_size)
    }

    fn get_duration(&self, group_size: i32) -> (term: DurationTerm) {
        compute_duration(
            &self.filter,
            self.beat_dist_type,
            self.beat_dist_value,
            last_beat_offset(&self.data),
            group_size,
        )
    }
}

/// The smallest unit of a translation group: a distance.
#[derive(Debug, Clone, Copy, PartialEq, Eq, Structural)]
pub struct TranslationEventData {
    /// The number of beats after the beat of the box.
    pub beat_offset: Scalar,
    pub transition_type: TransitionType,
    pub easing: Easing,
    /// The number of units that the event moves objects by.
    pub value: Scalar,
}

impl TranslationEventData {
    /// The default entry.
    pub open spec fn default_spec() -> TranslationEventData {
        TranslationEventData {
            beat_offset: Scalar::zero_spec(),
            transition_type: TransitionType::Transition,
            easing: Easing::Disabled,
            value: Scalar::zero_spec(),
        }
    }
}

impl Default for TranslationEventData {
    fn default() -> (data: TranslationEventData)
        ensures
            data == TranslationEventData::default_spec(),
    {
        TranslationEventData {
            beat_offset: Scalar::zero(),
            transition_type: TransitionType::Transition,
            easing: Easing::Disabled,
            value: Scalar::zero(),
        }
    }
}

impl EventData for TranslationEventData {
    open spec fn beat_offset(&self) -> Scalar {
        self.beat_offset
    }

    fn get_beat_offset(&self) -> (offset: Scalar) {
        self.beat_offset
    }
}

} // verus!
