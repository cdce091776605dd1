//! Events that control the color of lights.

use vstd::prelude::*;
use vstd::std_specs::convert::FromSpecImpl;
use crate::distribution::{DistributionType, OffsetTerm};
use crate::easing::Easing;
use crate::filter::{fits_i32, Axis, Filter, RankRule};
use crate::group::{
    carry_over, compute_duration, last_beat_offset, DurationTerm, EventBox, EventData, EventGroup,
    Timed,
};
use crate::scalar::Scalar;
use crate::utils::LooseBool;

verus! {

/// A collection of color groups that share one beat and one group of lights.
#[derive(Debug, Clone, PartialEq)]
pub struct ColorEventBox {
    /// The beat at which the event takes place.
    pub beat: Scalar,
    /// The group of lights that the event affects.
    pub group_id: i32,
    pub groups: Vec<ColorEventGroup>,
}

impl Default for ColorEventBox {
    /// A box at beat zero, for the group of lights 0, that holds one default group.
    fn default() -> (event_box: ColorEventBox)
        ensures
            event_box.beat == Scalar::zero_spec(),
            event_box.group_id == 0,
            event_box.groups@.len() == 1,
            event_box.groups@[0].is_default(),
    {
        ColorEventBox { beat: Scalar::zero(), group_id: 0, groups: vec![ColorEventGroup::default()] }
    }
}

impl Timed for ColorEventBox {
    open spec fn beat(&self) -> Scalar {
        self.beat
    }

    fn get_beat(&self) -> (beat: Scalar) {
        self.beat
    }
}

impl EventBox for ColorEventBox {
    type Group = ColorEventGroup;

    open spec fn groups(&self) -> Seq<ColorEventGroup> {
        self.groups@
    }

    fn get_groups(&self) -> (groups: &Vec<ColorEventGroup>) {
        &self.groups
    }
}

/// A collection of color data that share one filter and one distribution per axis.
#[derive(Debug, Clone, PartialEq)]
pub struct ColorEventGroup {
    pub filter: Filter,
    pub beat_dist_type: DistributionType,
    /// The strength of the beat distribution. A value of zero has no effect.
    pub beat_dist_value: Scalar,
    pub bright_dist_type: DistributionType,
    /// The strength of the brightness distribution. A value of zero has no effect.
    pub bright_dist_value: Scalar,
    /// Whether the brightness distribution affects the first entry of the group. Stored;
    /// no computation of this library reads it.
    pub bright_dist_effect_first: LooseBool,
    /// The easing of the brightness distribution.
    pub bright_dist_easing: Option<Easing>,
    pub data: Vec<ColorEventData>,
}

impl ColorEventGroup {
    /// Whether this is the default group: the default filter, no distribution on
    /// either axis, a linear easing, and one default entry of data.
    pub open spec fn is_default(self) -> bool {
        &&& self.filter == Filter::default_spec()
        &&& self.beat_dist_type == DistributionType::Wave
        &&& self.beat_dist_value == Scalar::zero_spec()
        &&& self.bright_dist_type == DistributionType::Wave
        &&& self.bright_dist_value == Scalar::zero_spec()
        &&& self.bright_dist_effect_first == LooseBool::False
        &&& self.bright_dist_easing == Some(Easing::Linear)
        &&& self.data@.len() == 1
        &&& self.data@[0] == ColorEventData::default_spec()
    }

    /// Returns the amount by which the brightness of the event is shifted for a light.
    pub fn get_brightness_offset(&self, light_id: i32, group_size: i32) -> (term: OffsetTerm)
        requires
            0 <= light_id < group_size,
            fits_i32(
                self.filter.rank(RankRule::standard_spec(), light_id as int, group_size as int),
            ),
            fits_i32(self.filter.count(group_size as int)),
        ensures
            term == self.bright_dist_type.offset_on(
                Axis::Value,
                light_id as int,
                group_size as int,
                self.filter,
                self.bright_dist_value,
                carry_over(self.data@),
                self.bright_dist_easing,
            ),
    {
        self.bright_dist_type.compute_value_offset(
            light_id,
            group_size,
            &self.filter,
            self.bright_dist_value,
            last_beat_offset(&self.data),
            self.bright_dist_easing,
        )
    }
}

impl Default for ColorEventGroup {
    fn default() -> (group: ColorEventGroup)
        ensures
            group.is_default(),
    {
        ColorEventGroup {
            filter: Filter::default(),
            beat_dist_type: DistributionType::Wave,
            beat_dist_value: Scalar::zero(),
            bright_dist_type: DistributionType::Wave,
            bright_dist_value: Scalar::zero(),
            bright_dist_effect_first: LooseBool::False,
            bright_dist_easing: Some(Easing::Linear),
            data: vec![ColorEventData::default()],
        }
    }
}

impl EventGroup for ColorEventGroup {
    type Data = ColorEventData;

    open spec fn filter(&self) -> Filter {
        self.filter
    }

    open spec fn data(&self) -> Seq<ColorEventData> {
        self.data@
    }

    open spec fn beat_distribution(&self) -> (DistributionType, Scalar) {
        (self.beat_dist_type, self.beat_dist_value)
    }

    open spec fn value_distribution(&self) -> (DistributionType, Scalar, Option<Easing>) {
        (self.bright_dist_type, self.bright_dist_value, self.bright_dist_easing)
    }

    fn get_filter(&self) -> (filter: &Filter) {
        &self.filter
    }

    fn get_data(&self) -> (data: &Vec<ColorEventData>) {
        &self.data
    }

    fn get_beat_offset(&self, light_id: i32, group_size: i32) -> (term: OffsetTerm) {
        self.beat_dist_type.compute_beat_offset(
            light_id,
            group_size,
            &self.filter,
            self.beat_dist_value,
            last_beat_offset(&self.data),
            None,
        )
    }

    fn get_value_offset(&self, light_id: i32, group_size: i32) -> (term: OffsetTerm) {
        self.get_brightness_offset(light_id, group_size)
    }

    fn get_duration(&self, group_size: i32) -> (term: DurationTerm) {
        compute_duration(
            &self.filter,
            self.beat_dist_type,
            self.beat_dist_value,
            last_beat_offset(&self.data),
            group_size,
        )
    }
}

/// The smallest unit of a color group: a color and a brightness.
#[derive(Debug, Clone, Copy, PartialEq, Eq, Structural)]
pub struct ColorEventData {
    /// The number of beats after the beat of the box.
    pub beat_offset: Scalar,
    pub transition_type: ColorTransitionType,
    pub color: LightColor,
    /// How bright the light is: zero is off, one is the normal brightness.
    pub brightness: Scalar,
    /// The number of strobes per beat. Zero: no strobing.
    pub strobe_frequency: i32,
    /// The brightness of the light between strobes.
    pub strobe_brightness: Option<Scalar>,
    /// Whether the light fades between the two strobe states.
    pub strobe_fade: Option<LooseBool>,
}

impl ColorEventData {
    /// The default entry.
    pub open spec fn default_spec() -> ColorEventData {
        ColorEventData {
            beat_offset: Scalar::zero_spec(),
            transition_type: ColorTransitionType::Instant,
            color: LightColor::Primary,
            brightness: Scalar::one_spec(),
            strobe_frequency: 0,
            strobe_brightness: Some(Scalar::zero_spec()),
            strobe_fade: Some(LooseBool::False),
        }
    }
}

impl Default for ColorEventData {
    fn default() -> (data: ColorEventData)
        ensures
            data == ColorEventData::default_spec(),
    {
        ColorEventData {
            beat_offset: Scalar::zero(),
            transition_type: ColorTransitionType::Instant,
            color: LightColor::Primary,
            brightness: Scalar::one(),
            strobe_frequency: 0,
            strobe_brightness: Some(Scalar::zero()),
            strobe_fade: Some(LooseBool::False),
        }
    }
}

impl EventData for ColorEventData {
    open spec fn beat_offset(&self) -> Scalar {
        self.beat_offset
    }

    fn get_beat_offset(&self) -> (offset: Scalar) {
        self.beat_offset
    }
}

/// How the state of a light changes from the previous event to this one.
#[derive(Debug, Clone, Copy, PartialEq, Eq, Structural)]
pub enum ColorTransitionType {
    /// The light takes on the state at once.
    Instant,
    /// The state blends from the state of the previous event.
    Transition,
    /// The state of this event is ignored: the previous state goes on.
    Extend,
    /// A wire value this library has no name for.
    Unknown(i32),
}

impl ColorTransitionType {
    /// The wire value of this variant.
    pub open spec fn raw_spec(self) -> int {
        match self {
            ColorTransitionType::Instant => 0,
            ColorTransitionType::Transition => 1,
            ColorTransitionType::Extend => 2,
            ColorTransitionType::Unknown(raw) => raw as int,
        }
    }

    /// The variant that a wire value decodes to.
    pub open spec fn from_raw_spec(raw: i32) -> ColorTransitionType {
        if raw == 0 {
            ColorTransitionType::Instant
        } else if raw == 1 {
            ColorTransitionType::Transition
        } else if raw == 2 {
            ColorTransitionType::Extend
        } else {
            ColorTransitionType::Unknown(raw)
        }
    }

    /// A value is canonical when decoding could have produced it.
    pub open spec fn is_canonical(self) -> bool {
        match self {
            ColorTransitionType::Unknown(raw) => !(0 <= raw <= 2),
            _ => true,
        }
    }

    /// Decodes a wire value.
    pub fn from_raw(raw: i32) -> (v: ColorTransitionType)
        ensures
            v == ColorTransitionType::from_raw_spec(raw),
            v.is_canonical(),
            v.raw_spec() == raw,
    {
        if raw == 0 {
            ColorTransitionType::Instant
        } else if raw == 1 {
            ColorTransitionType::Transition
        } else if raw == 2 {
            ColorTransitionType::Extend
        } else {
            ColorTransitionType::Unknown(raw)
        }
    }

    /// Encodes the value for the wire.
    pub fn to_raw(&self) -> (raw: i32)
        ensures
            raw == self.raw_spec(),
            self.is_canonical() ==> ColorTransitionType::from_raw_spec(raw) == *self,
    {
        match self {
            ColorTransitionType::Instant => 0,
            ColorTransitionType::Transition => 1,
            ColorTransitionType::Extend => 2,
            ColorTransitionType::Unknown(raw) => *raw,
        }
    }
}

impl Default for ColorTransitionType {
    fn default() -> (v: ColorTransitionType)
        ensures
            v == ColorTransitionType::Instant,
    {
        ColorTransitionType::Instant
    }
}

impl From<i32> for ColorTransitionType {
    fn from(value: i32) -> (v: ColorTransitionType) {
        ColorTransitionType::from_raw(value)
    }
}

impl FromSpecImpl<i32> for ColorTransitionType {
    open spec fn obeys_from_spec() -> bool {
        true
    }

    open spec fn from_spec(value: i32) -> ColorTransitionType {
        ColorTransitionType::from_raw_spec(value)
    }
}

/// Which color of the color scheme a light shows.
#[derive(Debug, Clone, Copy, PartialEq, Eq, Structural)]
pub enum LightColor {
    Primary,
    Secondary,
    White,
    /// A wire value this library has no name for.
    Unknown(i32),
}

impl LightColor {
    /// The wire value of this variant.
    pub open spec fn raw_spec(self) -> int {
        match self {
            LightColor::Primary => 0,
            LightColor::Secondary => 1,
            LightColor::White => 2,
            LightColor::Unknown(raw) => raw as int,
        }
    }

    /// The variant that a wire value decodes to.
    pub open spec fn from_raw_spec(raw: i32) -> LightColor {
        if raw == 0 {
            LightColor::Primary
        } else if raw == 1 {
            LightColor::Secondary
        } else if raw == 2 {
            LightColor::White
        } else {
            LightColor::Unknown(raw)
        }
    }

    /// A value is canonical when decoding could have produced it.
    pub open spec fn is_canonical(self) -> bool {
        match self {
            LightColor::Unknown(raw) => !(0 <= raw <= 2),
            _ => true,
        }
    }

    /// Decodes a wire value.
    pub fn from_raw(raw: i32) -> (v: LightColor)
        ensures
            v == LightColor::from_raw_spec(raw),
            v.is_canonical(),
            v.raw_spec() == raw,
    {
        if raw == 0 {
            LightColor::Primary
        } else if raw == 1 {
            LightColor::Secondary
        } else if raw == 2 {
            LightColor::White
        } else {
            LightColor::Unknown(raw)
        }
    }

    /// Encodes the value for the wire.
    pub fn to_raw(&self) -> (raw: i32)
        ensures
            raw == self.raw_spec(),
            self.is_canonical() ==> LightColor::from_raw_spec(raw) == *self,
    {
        match self {
            LightColor::Primary => 0,
            LightColor::Secondary => 1,
            LightColor::White => 2,
            LightColor::Unknown(raw) => *raw,
        }
    }
}

impl Default for LightColor {
    fn default() -> (v: LightColor)
        ensures
            v == LightColor::Primary,
    {
        LightColor::Primary
    }
}

impl From<i32> for LightColor {
    fn from(value: i32) -> (v: LightColor) {
        LightColor::from_raw(value)
    }
}

impl FromSpecImpl<i32> for LightColor {
    open spec fn obeys_from_spec() -> bool {
        true
    }

    open spec fn from_spec(value: i32) -> LightColor {
        LightColor::from_raw_spec(value)
    }
}

} // verus!
