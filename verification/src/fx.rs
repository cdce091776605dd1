//! Events that control the effects that an environment has of its own.

use vstd::prelude::*;
use crate::distribution::{DistributionType, OffsetTerm};
use crate::easing::Easing;
use crate::filter::{fits_i32, Axis, Filter, RankRule};
use crate::group::{
    carry_over, compute_duration, last_beat_offset, DurationTerm, EventBox, EventData, EventGroup,
    Timed,
};
use crate::group::TransitionType;
use crate::scalar::Scalar;
use crate::utils::LooseBool;

verus! {

/// A collection of effect groups that share one beat and one group of lights.
#[derive(Debug, Clone, PartialEq)]
pub struct FxEventBox {
    /// The beat at which the event takes place.
    pub beat: Scalar,
    /// The group of lights that the event affects.
    pub group_id: i32,
    pub groups: Vec<FxEventGroup>,
}

impl Default for FxEventBox {
    /// A box at beat zero, for the group of lights 0, that holds one default group.
    fn default() -> (event_box: FxEventBox)
        ensures
            event_box.beat == Scalar::zero_spec(),
            event_box.group_id == 0,
            event_box.groups@.len() == 1,
            event_box.groups@[0].is_default(),
    {
        FxEventBox { beat: Scalar::zero(), group_id: 0, groups: vec![FxEventGroup::default()] }
    }
}

impl Timed for FxEventBox {
    open spec fn beat(&self) -> Scalar {
        self.beat
    }

    fn get_beat(&self) -> (beat: Scalar) {
        self.beat
    }
}

impl EventBox for FxEventBox {
    type Group = FxEventGroup;

    open spec fn groups(&self) -> Seq<FxEventGroup> {
        self.groups@
    }

    fn get_groups(&self) -> (groups: &Vec<FxEventGroup>) {
        &self.groups
    }
}

/// A collection of effect data that share one filter and one distribution per axis.
#[derive(Debug, Clone, PartialEq)]
pub struct FxEventGroup {
    pub filter: Filter,
    pub beat_dist_type: DistributionType,
    /// The strength of the beat distribution. A value of zero has no effect.
    pub beat_dist_value: Scalar,
    pub fx_dist_type: DistributionType,
    /// The strength of the effect distribution. A value of zero has no effect.
    pub fx_dist_value: Scalar,
    /// Whether the effect distribution affects the first entry of the group. Stored;
    /// no computation of this library reads it.
    pub fx_dist_effect_first: LooseBool,
    /// The easing of the effect distribution.
    pub fx_dist_easing: Option<Easing>,
    pub data: Vec<FxEventData>,
}

impl FxEventGroup {
    /// Whether this is the default group: the default filter, no distribution on
    /// either axis, a linear easing, and one default entry of data.
    pub open spec fn is_default(self) -> bool {
        &&& self.filter == Filter::default_spec()
        &&& self.beat_dist_type == DistributionType::Wave
        &&& self.beat_dist_value == Scalar::zero_spec()
        &&& self.fx_dist_type == DistributionType::Wave
        &&& self.fx_dist_value == Scalar::zero_spec()
        &&& self.fx_dist_effect_first == LooseBool::False
        &&& self.fx_dist_easing == Some(Easing::Linear)
        &&& self.data@.len() == 1
        &&& self.data@[0] == FxEventData::default_spec()
    }

    /// Returns the amount by which the effect value of the event is shifted for a light.
    pub fn get_fx_offset(&self, light_id: i32, group_size: i32) -> (term: OffsetTerm)
        requires
            0 <= light_id < group_size,
            fits_i32(
                self.filter.rank(RankRule::standard_spec(), light_id as int, group_size as int),
            ),
            fits_i32(self.filter.count(group_size as int)),
        ensures
            term == self.fx_dist_type.offset_on(
                Axis::Value,
                light_id as int,
                group_size as int,
                self.filter,
                self.fx_dist_value,
                carry_over(self.data@),
                self.fx_dist_easing,
            ),
    {
        self.fx_dist_type.compute_value_offset(
            light_id,
            group_size,
            &self.filter,
            self.fx_dist_value,
            last_beat_offset(&self.data),
            self.fx_dist_easing,
        )
    }
}

impl Default for FxEventGroup {
    fn default() -> (group: FxEventGroup)
        ensures
            group.is_default(),
    {
        FxEventGroup {
            filter: Filter::default(),
            beat_dist_type: DistributionType::Wave,
            beat_dist_value: Scalar::zero(),
            fx_dist_type: DistributionType::Wave,
            fx_dist_value: Scalar::zero(),
            fx_dist_effect_first: LooseBool::False,
            fx_dist_easing: Some(Easing::Linear),
            data: vec![FxEventData::default()],
        }
    }
}

impl EventGroup for FxEventGroup {
    type Data = FxEventData;

    open spec fn filter(&self) -> Filter {
        self.filter
    }

    open spec fn data(&self) -> Seq<FxEventData> {
        self.data@
    }

    open spec fn beat_distribution(&self) -> (DistributionType, Scalar) {
        (self.beat_dist_type, self.beat_dist_value)
    }

    open spec fn value_distribution(&self) -> (DistributionType, Scalar, Option<Easing>) {
        (self.fx_dist_type, self.fx_dist_value, self.fx_dist_easing)
    }

    fn get_filter(&self) -> (filter: &Filter) {
        &self.filter
    }

    fn get_data(&self) -> (data: &Vec<FxEventData>) {
        &self.data
    }

    fn get_beat_offset(&self, light_id: i32, group_size: i32) -> (term: OffsetTerm) {
        self.beat_dist_type.compute_beat_offset(
            light_id,
            group_size,
            &self.filter,
            self.beat_dist_value,
            last_beat_offset(&self.data),
            None,
        )
    }

    fn get_value_offset(&self, light_id: i32, group_size: i32) -> (term: OffsetTerm) {
        self.get_fx_offset(light_id, group_size)
    }

    fn get_duration(&self, group_size: i32) -> (term: DurationTerm) {
        compute_duration(
            &self.filter,
            self.beat_dist_type,
            self.beat_dist_value,
            last_beat_offset(&self.data),
            group_size,
        )
    }
}

/// The smallest unit of an effect group: a value.
#[derive(Debug, Clone, Copy, PartialEq, Eq, Structural)]
pub struct FxEventData {
    /// The number of beats after the beat of the box.
    pub beat_offset: Scalar,
    pub transition_type: TransitionType,
    pub easing: Easing,
    /// The value of the effect.
    pub value: Scalar,
}

impl FxEventData {
    /// The default entry.
    pub open spec fn default_spec() -> FxEventData {
        FxEventData {
            beat_offset: Scalar::zero_spec(),
            transition_type: TransitionType::Transition,
            easing: Easing::Disabled,
            value: Scalar::one_spec(),
        }
    }
}

impl Default for FxEventData {
    fn default() -> (data: FxEventData)
        ensures
            data == FxEventData::default_spec(),
    {
        FxEventData {
            beat_offset: Scalar::zero(),
            transition_type: TransitionType::Transition,
            easing: Easing::Disabled,
            value: Scalar::one(),
        }
    }
}

impl EventData for FxEventData {
    open spec fn beat_offset(&self) -> Scalar {
        self.beat_offset
    }

    fn get_beat_offset(&self) -> (offset: Scalar) {
        self.beat_offset
    }
}

/// The effect boxes of a map.
#[derive(Debug, Clone, PartialEq)]
pub struct FxEventContainer {
    pub event_boxes: Vec<FxEventBox>,
}

impl Default for FxEventContainer {
    /// No boxes.
    fn default() -> (container: FxEventContainer)
        ensures
            container.event_boxes@ == Seq::<FxEventBox>::empty(),
    {
        FxEventContainer { event_boxes: Vec::new() }
    }
}


} // verus!
