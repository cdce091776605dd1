//! Events that control the rotation of objects.

use vstd::prelude::*;
use vstd::std_specs::convert::FromSpecImpl;
use crate::distribution::{DistributionType, OffsetTerm};
use crate::easing::Easing;
use crate::filter::{fits_i32, Axis, Filter, RankRule};
use crate::group::{
    carry_over, compute_duration, last_beat_offset, DurationTerm, EventBox, EventData, EventGroup,
    Timed,
};
use crate::group::{EventAxis, TransitionType};
use crate::scalar::Scalar;
use crate::utils::LooseBool;

verus! {

/// A collection of rotation groups that share one beat and one group of lights.
#[derive(Debug, Clone, PartialEq)]
pub struct RotationEventBox {
    /// The beat at which the event takes place.
    pub beat: Scalar,
    /// The group of lights that the event affects.
    pub group_id: i32,
    pub groups: Vec<RotationEventGroup>,
}

impl Default for RotationEventBox {
    /// A box at beat zero, for the group of lights 0, that holds one default group.
    fn default() -> (event_box: RotationEventBox)
        ensures
            event_box.beat == Scalar::zero_spec(),
            event_box.group_id == 0,
            event_box.groups@.len() == 1,
            event_box.groups@[0].is_default(),
    {
        RotationEventBox { beat: Scalar::zero(), group_id: 0, groups: vec![RotationEventGroup::default()] }
    }
}

impl Timed for RotationEventBox {
    open spec fn beat(&self) -> Scalar {
        self.beat
    }

    fn get_beat(&self) -> (beat: Scalar) {
        self.beat
    }
}

impl EventBox for RotationEventBox {
    type Group = RotationEventGroup;

    open spec fn groups(&self) -> Seq<RotationEventGroup> {
        self.groups@
    }

    fn get_groups(&self) -> (groups: &Vec<RotationEventGroup>) {
        &self.groups
    }
}

/// A collection of rotation data that share one axis, one filter and one distribution per
/// axis of distribution.
#[derive(Debug, Clone, PartialEq)]
pub struct RotationEventGroup {
    pub filter: Filter,
    pub beat_dist_type: DistributionType,
    /// The strength of the beat distribution. A value of zero has no effect.
    pub beat_dist_value: Scalar,
    pub rotation_dist_type: DistributionType,
    /// The strength of the rotation distribution. A value of zero has no effect.
    pub rotation_dist_value: Scalar,
    /// Whether the rotation distribution affects the first entry of the group. Stored;
    /// no computation of this library reads it.
    pub rotation_dist_effect_first: LooseBool,
    /// The easing of the rotation distribution.
    pub rotation_dist_easing: Option<Easing>,
    /// The axis that the group turns about.
    pub axis: EventAxis,
    /// If true, the rotation is mirrored.
    pub invert_axis: LooseBool,
    pub data: Vec<RotationEventData>,
}

impl RotationEventGroup {
    /// Whether this is the default group: the default filter, no distribution on
    /// either axis, a linear easing, and one default entry of data.
    pub open spec fn is_default(self) -> bool {
        &&& self.filter == Filter::default_spec()
        &&& self.beat_dist_type == DistributionType::Wave
        &&& self.beat_dist_value == Scalar::zero_spec()
        &&& self.rotation_dist_type == DistributionType::Wave
        &&& self.rotation_dist_value == Scalar::zero_spec()
        &&& self.rotation_dist_effect_first == LooseBool::True
        &&& self.rotation_dist_easing == Some(Easing::Linear)
        &&& self.axis == EventAxis::X
        &&& self.invert_axis == LooseBool::False
        &&& self.data@.len() == 1
        &&& self.data@[0] == RotationEventData::default_spec()
    }

    /// Returns the number of degrees by which the event is shifted for a light.
    pub fn get_rotation_offset(&self, light_id: i32, group_size: i32) -> (term: OffsetTerm)
        requires
            0 <= light_id < group_size,
            fits_i32(
                self.filter.rank(RankRule::standard_spec(), light_id as int, group_size as int),
            ),
            fits_i32(self.filter.count(group_size as int)),
        ensures
            term == self.rotation_dist_type.offset_on(
                Axis::Value,
                light_id as int,
                group_size as int,
                self.filter,
                self.rotation_dist_value,
                carry_over(self.data@),
                self.rotation_dist_easing,
            ),
    {
        self.rotation_dist_type.compute_value_offset(
            light_id,
            group_size,
            &self.filter,
            self.rotation_dist_value,
            last_beat_offset(&self.data),
            self.rotation_dist_easing,
        )
    }
}

impl Default for RotationEventGroup {
    fn default() -> (group: RotationEventGroup)
        ensures
            group.is_default(),
    {
        RotationEventGroup {
            filter: Filter::default(),
            beat_dist_type: DistributionType::Wave,
            beat_dist_value: Scalar::zero(),
            rotation_dist_type: DistributionType::Wave,
            rotation_dist_value: Scalar::zero(),
            rotation_dist_effect_first: LooseBool::True,
            rotation_dist_easing: Some(Easing::Linear),
            axis: EventAxis::X,
            invert_axis: LooseBool::False,
            data: vec![RotationEventData::default()],
        }
    }
}

impl EventGroup for RotationEventGroup {
    type Data = RotationEventData;

    open spec fn filter(&self) -> Filter {
        self.filter
    }

    open spec fn data(&self) -> Seq<RotationEventData> {
        self.data@
    }

    open spec fn beat_distribution(&self) -> (DistributionType, Scalar) {
        (self.beat_dist_type, self.beat_dist_value)
    }

    open spec fn value_distribution(&self) -> (DistributionType, Scalar, Option<Easing>) {
        (self.rotation_dist_type, self.rotation_dist_value, self.rotation_dist_easing)
    }

    fn get_filter(&self) -> (filter: &Filter) {
        &self.filter
    }

    fn get_data(&self) -> (data: &Vec<RotationEventData>) {
        &self.data
    }

    fn get_beat_offset(&self, light_id: i32, group_size: i32) -> (term: OffsetTerm) {
        self.beat_dist_type.compute_beat_offset(
            light_id,
            group_size,
            &self.filter,
            self.beat_dist_value,
            last_beat_offset(&self.data),
            None,
        )
    }

    fn get_value_offset(&self, light_id: i32, group_size: i32) -> (term: OffsetTerm) {
        self.get_rotation_offset(light_id, group_size)
    }

    fn get_duration(&self, group_size: i32) -> (term: DurationTerm) {
        compute_duration(
            &self.filter,
            self.beat_dist_type,
            self.beat_dist_value,
            last_beat_offset(&self.data),
            group_size,
        )
    }
}

/// The smallest unit of a rotation group: an angle.
#[derive(Debug, Clone, Copy, PartialEq, Eq, Structural)]
pub struct RotationEventData {
    /// The number of beats after the beat of the box.
    pub beat_offset: Scalar,
    pub transition_type: TransitionType,
    pub easing: Easing,
    /// The number of degrees that the event turns objects by.
    pub degrees: Scalar,
    pub direction: RotationDirection,
    /// The number of full turns added in the direction of the rotation.
    pub loops: i32,
}

impl RotationEventData {
    /// The default entry.
    pub open spec fn default_spec() -> RotationEventData {
        RotationEventData {
            beat_offset: Scalar::zero_spec(),
            transition_type: TransitionType::Transition,
            easing: Easing::Disabled,
            degrees: Scalar::zero_spec(),
            direction: RotationDirection::Automatic,
            loops: 0,
        }
    }
}

impl Default for RotationEventData {
    fn default() -> (data: RotationEventData)
        ensures
            data == RotationEventData::default_spec(),
    {
        RotationEventData {
            beat_offset: Scalar::zero(),
            transition_type: TransitionType::Transition,
            easing: Easing::Disabled,
            degrees: Scalar::zero(),
            direction: RotationDirection::Automatic,
            loops: 0,
        }
    }
}

impl EventData for RotationEventData {
    open spec fn beat_offset(&self) -> Scalar {
        self.beat_offset
    }

    fn get_beat_offset(&self) -> (offset: Scalar) {
        self.beat_offset
    }
}

/// The direction in which a rotation event turns.
#[derive(Debug, Clone, Copy, PartialEq, Eq, Structural)]
pub enum RotationDirection {
    /// The shorter way round.
    Automatic,
    Clockwise,
    CounterClockwise,
    /// A wire value this library has no name for.
    Unknown(i32),
}

impl RotationDirection {
    /// The wire value of this variant.
    pub open spec fn raw_spec(self) -> int {
        match self {
            RotationDirection::Automatic => 0,
            RotationDirection::Clockwise => 1,
            RotationDirection::CounterClockwise => 2,
            RotationDirection::Unknown(raw) => raw as int,
        }
    }

    /// The variant that a wire value decodes to.
    pub open spec fn from_raw_spec(raw: i32) -> RotationDirection {
        if raw == 0 {
            RotationDirection::Automatic
        } else if raw == 1 {
            RotationDirection::Clockwise
        } else if raw == 2 {
            RotationDirection::CounterClockwise
        } else {
            RotationDirection::Unknown(raw)
        }
    }

    /// A value is canonical when decoding could have produced it.
    pub open spec fn is_canonical(self) -> bool {
        match self {
            RotationDirection::Unknown(raw) => !(0 <= raw <= 2),
            _ => true,
        }
    }

    /// Decodes a wire value.
    pub fn from_raw(raw: i32) -> (v: RotationDirection)
        ensures
            v == RotationDirection::from_raw_spec(raw),
            v.is_canonical(),
            v.raw_spec() == raw,
    {
        if raw == 0 {
            RotationDirection::Automatic
        } else if raw == 1 {
            RotationDirection::Clockwise
        } else if raw == 2 {
            RotationDirection::CounterClockwise
        } else {
            RotationDirection::Unknown(raw)
        }
    }

    /// Encodes the value for the wire.
    pub fn to_raw(&self) -> (raw: i32)
        ensures
            raw == self.raw_spec(),
            self.is_canonical() ==> RotationDirection::from_raw_spec(raw) == *self,
    {
        match self {
            RotationDirection::Automatic => 0,
            RotationDirection::Clockwise => 1,
            RotationDirection::CounterClockwise => 2,
            RotationDirection::Unknown(raw) => *raw,
        }
    }
}

impl Default for RotationDirection {
    fn default() -> (v: RotationDirection)
        ensures
            v == RotationDirection::Automatic,
    {
        RotationDirection::Automatic
    }
}

impl From<i32> for RotationDirection {
    fn from(value: i32) -> (v: RotationDirection) {
        RotationDirection::from_raw(value)
    }
}

impl FromSpecImpl<i32> for RotationDirection {
    open spec fn obeys_from_spec() -> bool {
        true
    }

    open spec fn from_spec(value: i32) -> RotationDirection {
        RotationDirection::from_raw_spec(value)
    }
}

} // verus!
