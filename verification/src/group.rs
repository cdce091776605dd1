//! Event boxes, the groups they hold, and the data of a group.

use vstd::prelude::*;
use vstd::std_specs::convert::FromSpecImpl;
use crate::distribution::{DistributionType, OffsetTerm};
use crate::easing::Easing;
use crate::filter::{fits_i32, Axis, Filter, FilterType, RankRule};
use crate::scalar::Scalar;

verus! {

/// How the state of an object changes from the previous event to this one.
#[derive(Debug, Clone, Copy, PartialEq, Eq, Structural)]
pub enum TransitionType {
    /// The state blends from the state of the previous event.
    Transition,
    /// The state of this event is ignored: the previous state goes on.
    Extend,
    /// A wire value this library has no name for.
    Unknown(i32),
}

impl TransitionType {
    /// The wire value of this variant.
    pub open spec fn raw_spec(self) -> int {
        match self {
            TransitionType::Transition => 0,
            TransitionType::Extend => 1,
            TransitionType::Unknown(raw) => raw as int,
        }
    }

    /// The variant that a wire value decodes to.
    pub open spec fn from_raw_spec(raw: i32) -> TransitionType {
        if raw == 0 {
            TransitionType::Transition
        } else if raw == 1 {
            TransitionType::Extend
        } else {
            TransitionType::Unknown(raw)
        }
    }

    /// A value is canonical when decoding could have produced it.
    pub open spec fn is_canonical(self) -> bool {
        match self {
            TransitionType::Unknown(raw) => raw != 0 && raw != 1,
            _ => true,
        }
    }

    /// Decodes a wire value.
    pub fn from_raw(raw: i32) -> (v: TransitionType)
        ensures
            v == TransitionType::from_raw_spec(raw),
            v.is_canonical(),
            v.raw_spec() == raw,
    {
        if raw == 0 {
            TransitionType::Transition
        } else if raw == 1 {
            TransitionType::Extend
        } else {
            TransitionType::Unknown(raw)
        }
    }

    /// Encodes the value for the wire.
    pub fn to_raw(&self) -> (raw: i32)
        ensures
            raw == self.raw_spec(),
            self.is_canonical() ==> TransitionType::from_raw_spec(raw) == *self,
    {
        match self {
            TransitionType::Transition => 0,
            TransitionType::Extend => 1,
            TransitionType::Unknown(raw) => *raw,
        }
    }
}

impl Default for TransitionType {
    fn default() -> (v: TransitionType)
        ensures
            v == TransitionType::Transition,
    {
        TransitionType::Transition
    }
}

impl From<i32> for TransitionType {
    fn from(value: i32) -> (v: TransitionType) {
        TransitionType::from_raw(value)
    }
}

impl FromSpecImpl<i32> for TransitionType {
    open spec fn obeys_from_spec() -> bool {
        true
    }

    open spec fn from_spec(value: i32) -> TransitionType {
        TransitionType::from_raw_spec(value)
    }
}

/// The axis that a rotation or a translation acts on.
#[derive(Debug, Clone, Copy, PartialEq, Eq, Structural)]
pub enum EventAxis {
    X,
    Y,
    Z,
    /// A wire value this library has no name for.
    Unknown(i32),
}

impl EventAxis {
    /// The wire value of this variant.
    pub open spec fn raw_spec(self) -> int {
        match self {
            EventAxis::X => 0,
            EventAxis::Y => 1,
            EventAxis::Z => 2,
            EventAxis::Unknown(raw) => raw as int,
        }
    }

    /// The variant that a wire value decodes to.
    pub open spec fn from_raw_spec(raw: i32) -> EventAxis {
        if raw == 0 {
            EventAxis::X
        } else if raw == 1 {
            EventAxis::Y
        } else if raw == 2 {
            EventAxis::Z
        } else {
            EventAxis::Unknown(raw)
        }
    }

    /// A value is canonical when decoding could have produced it.
    pub open spec fn is_canonical(self) -> bool {
        match self {
            EventAxis::Unknown(raw) => !(0 <= raw <= 2),
            _ => true,
        }
    }

    /// Decodes a wire value.
    pub fn from_raw(raw: i32) -> (v: EventAxis)
        ensures
            v == EventAxis::from_raw_spec(raw),
            v.is_canonical(),
            v.raw_spec() == raw,
    {
        if raw == 0 {
            EventAxis::X
        } else if raw == 1 {
            EventAxis::Y
        } else if raw == 2 {
            EventAxis::Z
        } else {
            EventAxis::Unknown(raw)
        }
    }

    /// Encodes the value for the wire.
    pub fn to_raw(&self) -> (raw: i32)
        ensures
            raw == self.raw_spec(),
            self.is_canonical() ==> EventAxis::from_raw_spec(raw) == *self,
    {
        match self {
            EventAxis::X => 0,
            EventAxis::Y => 1,
            EventAxis::Z => 2,
            EventAxis::Unknown(raw) => *raw,
        }
    }
}

impl Default for EventAxis {
    fn default() -> (v: EventAxis)
        ensures
            v == EventAxis::X,
    {
        EventAxis::X
    }
}

impl From<i32> for EventAxis {
    fn from(value: i32) -> (v: EventAxis) {
        EventAxis::from_raw(value)
    }
}

impl FromSpecImpl<i32> for EventAxis {
    open spec fn obeys_from_spec() -> bool {
        true
    }

    open spec fn from_spec(value: i32) -> EventAxis {
        EventAxis::from_raw_spec(value)
    }
}

/// The length of a group in beats, as the arithmetic that yields it. The caller evaluates
/// the term in single precision.
#[derive(Debug, Clone, Copy, PartialEq, Eq, Structural)]
pub enum DurationTerm {
    /// The group has no length.
    Zero,
    /// The length is the larger of `value * percent` and `last_offset`.
    LimitedWave { value: Scalar, percent: Scalar, last_offset: Scalar },
    /// The length is the larger of `value` and `last_offset`.
    Wave { value: Scalar, last_offset: Scalar },
    /// The length is `last_offset + value * count`.
    Step { value: Scalar, count: i32, last_offset: Scalar },
}

/// Anything that happens at a beat of the map.
pub trait Timed {
    /// The beat at which it happens.
    spec fn beat(&self) -> Scalar;

    /// Returns the beat at which it happens.
    fn get_beat(&self) -> (beat: Scalar)
        ensures
            beat == self.beat(),
    ;
}

/// The smallest unit of a group: one state that the lights take on, a number of beats
/// after the beat of the box.
pub trait EventData {
    /// The number of beats after the beat of the box.
    spec fn beat_offset(&self) -> Scalar;

    /// Returns the number of beats after the beat of the box.
    fn get_beat_offset(&self) -> (offset: Scalar)
        ensures
            offset == self.beat_offset(),
    ;
}

/// What earlier events of a group have already covered: the beat offset of its last
/// entry, or nothing where the group has no entry.
pub open spec fn carry_over<D: EventData>(data: Seq<D>) -> Option<Scalar> {
    if data.len() > 0 {
        Some(data.last().beat_offset())
    } else {
        None
    }
}

/// The length of a group.
///
/// A group that counts no light, or holds no data, has none. A wave lasts as long as its
/// value, shortened by the limit of the filter where that limit does not already shorten
/// the beat axis, but at least until the last entry. A step lasts from the last entry on
/// for its value times the count. An unknown type has no length.
pub open spec fn duration(
    filter: Filter,
    dist_type: DistributionType,
    value: Scalar,
    last_offset: Option<Scalar>,
    group_size: int,
) -> DurationTerm {
    if filter.count(group_size) == 0 || last_offset is None {
        DurationTerm::Zero
    } else {
        match dist_type {
            DistributionType::Wave => if filter.limit_behaviour is Some && !filter.names_axis(
                Axis::Beat,
            ) && filter.has_limit() {
                DurationTerm::LimitedWave {
                    value,
                    percent: filter.limit_percent->Some_0,
                    last_offset: last_offset->Some_0,
                }
            } else {
                DurationTerm::Wave { value, last_offset: last_offset->Some_0 }
            },
            DistributionType::Step => DurationTerm::Step {
                value,
                count: filter.count(group_size) as i32,
                last_offset: last_offset->Some_0,
            },
            DistributionType::Unknown(_) => DurationTerm::Zero,
        }
    }
}

/// Returns the length of a group with the given filter, beat distribution and last beat
/// offset.
pub fn compute_duration(
    filter: &Filter,
    dist_type: DistributionType,
    dist_value: Scalar,
    last_data_offset: Option<Scalar>,
    group_size: i32,
) -> (term: DurationTerm)
    requires
        fits_i32(filter.count(group_size as int)),
    ensures
        term == duration(*filter, dist_type, dist_value, last_data_offset, group_size as int),
{
    let count = filter.count_filtered(group_size);
    if count == 0 {
        return DurationTerm::Zero;
    }
    let last_offset = match last_data_offset {
        Some(offset) => offset,
        None => {
            return DurationTerm::Zero;
        },
    };
    match dist_type {
        DistributionType::Wave => {
            if filter.limit_behaviour.is_some() && !filter.limit_names_axis(Axis::Beat) {
                match filter.limit_percent {
                    Some(percent) => {
                        if !percent.is_zero() {
                            return DurationTerm::LimitedWave {
                                value: dist_value,
                                percent,
                                last_offset,
                            };
                        }
                    },
                    None => {},
                }
            }
            DurationTerm::Wave { value: dist_value, last_offset }
        },
        DistributionType::Step => DurationTerm::Step { value: dist_value, count, last_offset },
        DistributionType::Unknown(_) => DurationTerm::Zero,
    }
}

/// A wave over a `Division` filter lasts as its value says, in a group of any size: the
/// length is the larger of the value and the last beat offset, with the value multiplied
/// by the limit exactly where the filter has a limit and a behaviour that does not name
/// the beat axis.
pub proof fn lemma_wave_duration(
    filter: Filter,
    value: Scalar,
    last_offset: Scalar,
    group_size: int,
)
    requires
        filter.filter_type == FilterType::Division,
    ensures
        duration(filter, DistributionType::Wave, value, Some(last_offset), group_size) == if (
        filter.limit_behaviour is Some && !filter.names_axis(Axis::Beat) && filter.has_limit()) {
            DurationTerm::LimitedWave {
                value,
                percent: filter.limit_percent->Some_0,
                last_offset,
            }
        } else {
            DurationTerm::Wave { value, last_offset }
        },
{
    if filter.chunked() {
        filter.lemma_section_len(filter.collapsed(group_size, group_size));
    } else {
        filter.lemma_section_len(group_size);
    }
}

/// The length of a step does not depend on the limit of the filter.
pub proof fn lemma_step_duration_ignores_limit(
    filter: Filter,
    unlimited: Filter,
    value: Scalar,
    last_offset: Option<Scalar>,
    group_size: int,
)
    requires
        unlimited == (Filter { limit_behaviour: None, limit_percent: None, ..filter }),
    ensures
        duration(filter, DistributionType::Step, value, last_offset, group_size) == duration(
            unlimited,
            DistributionType::Step,
            value,
            last_offset,
            group_size,
        ),
{
}

/// A collection of event data that share one filter and one distribution per axis.
pub trait EventGroup {
    type Data: EventData;

    /// The filter of the group.
    spec fn filter(&self) -> Filter;

    /// The data of the group, in order.
    spec fn data(&self) -> Seq<Self::Data>;

    /// The type and the value of the distribution along the beat axis.
    spec fn beat_distribution(&self) -> (DistributionType, Scalar);

    /// The type, the value and the easing of the distribution along the value axis.
    spec fn value_distribution(&self) -> (DistributionType, Scalar, Option<Easing>);

    /// Returns the filter of the group.
    fn get_filter(&self) -> (filter: &Filter)
        ensures
            *filter == self.filter(),
    ;

    /// Returns the data of the group.
    fn get_data(&self) -> (data: &Vec<Self::Data>)
        ensures
            data@ == self.data(),
    ;

    /// Returns the number of beats by which the event is delayed for a light. The beat
    /// distribution is never eased.
    fn get_beat_offset(&self, light_id: i32, group_size: i32) -> (term: OffsetTerm)
        requires
            0 <= light_id < group_size,
            fits_i32(
                self.filter().rank(RankRule::standard_spec(), light_id as int, group_size as int),
            ),
            fits_i32(self.filter().count(group_size as int)),
        ensures
            term == self.beat_distribution().0.offset_on(
                Axis::Beat,
                light_id as int,
                group_size as int,
                self.filter(),
                self.beat_distribution().1,
                carry_over(self.data()),
                None,
            ),
    ;

    /// Returns the amount by which the value of the event (its brightness, say) is
    /// shifted for a light.
    fn get_value_offset(&self, light_id: i32, group_size: i32) -> (term: OffsetTerm)
        requires
            0 <= light_id < group_size,
            fits_i32(
                self.filter().rank(RankRule::standard_spec(), light_id as int, group_size as int),
            ),
            fits_i32(self.filter().count(group_size as int)),
        ensures
            term == self.value_distribution().0.offset_on(
                Axis::Value,
                light_id as int,
                group_size as int,
                self.filter(),
                self.value_distribution().1,
                carry_over(self.data()),
                self.value_distribution().2,
            ),
    ;

    /// Returns the length of the group in beats. The limit of the filter does not shorten
    /// the count that the length is taken from.
    fn get_duration(&self, group_size: i32) -> (term: DurationTerm)
        requires
            fits_i32(self.filter().count(group_size as int)),
        ensures
            term == duration(
                self.filter(),
                self.beat_distribution().0,
                self.beat_distribution().1,
                carry_over(self.data()),
                group_size as int,
            ),
    ;
}

/// A collection of groups that share one beat and one group of lights.
pub trait EventBox: Timed {
    type Group: EventGroup;

    /// The groups of the box, in order.
    spec fn groups(&self) -> Seq<Self::Group>;

    /// Returns the groups of the box.
    fn get_groups(&self) -> (groups: &Vec<Self::Group>)
        ensures
            groups@ == self.groups(),
    ;
}

/// Returns the beat offset of the last entry of a group, if it has one.
pub fn last_beat_offset<D: EventData>(data: &Vec<D>) -> (last: Option<Scalar>)
    ensures
        last == carry_over(data@),
{
    let len = data.len();
    if len > 0 {
        Some(data[len - 1].get_beat_offset())
    } else {
        None
    }
}

} // verus!
