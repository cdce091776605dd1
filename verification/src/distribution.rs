//! How an event is spread over the lights that a filter selects.

use vstd::prelude::*;
use vstd::std_specs::convert::FromSpecImpl;
use crate::easing::Easing;
use crate::filter::{fits_i32, Axis, Filter, FilteredSize, RankRule};
use crate::filter_laws::{
    lemma_reversed_unfiltered_counts_down, lemma_unfiltered_keeps_the_group, unfiltered,
};
use crate::scalar::Scalar;

verus! {

/// The way that a distribution value is used.
#[derive(Debug, Clone, Copy, PartialEq, Eq, Structural)]
pub enum DistributionType {
    /// The value is the difference between the last and the first light.
    Wave,
    /// The value is the difference between each light and the next.
    Step,
    /// A wire value this library has no name for. It distributes nothing.
    Unknown(i32),
}

/// The offset of one light, as the arithmetic that yields it. The caller evaluates the
/// term in single precision.
#[derive(Debug, Clone, Copy, PartialEq, Eq, Structural)]
pub enum OffsetTerm {
    /// The offset is zero.
    Zero,
    /// The offset is `fraction * (value - carry_over)`, where `fraction` is `rank / size`,
    /// replaced by its eased value if an easing is given, and an absent `carry_over`
    /// subtracts nothing.
    Wave {
        rank: i32,
        size: FilteredSize,
        value: Scalar,
        carry_over: Option<Scalar>,
        easing: Option<Easing>,
    },
    /// The offset is `value * rank`.
    Step { rank: i32, value: Scalar },
}

impl DistributionType {
    /// The wire value of this variant.
    pub open spec fn raw_spec(self) -> int {
        match self {
            DistributionType::Wave => 1,
            DistributionType::Step => 2,
            DistributionType::Unknown(raw) => raw as int,
        }
    }

    /// The variant that a wire value decodes to.
    pub open spec fn from_raw_spec(raw: i32) -> DistributionType {
        if raw == 1 {
            DistributionType::Wave
        } else if raw == 2 {
            DistributionType::Step
        } else {
            DistributionType::Unknown(raw)
        }
    }

    /// A value is canonical when decoding could have produced it.
    pub open spec fn is_canonical(self) -> bool {
        match self {
            DistributionType::Unknown(raw) => raw != 1 && raw != 2,
            _ => true,
        }
    }

    /// The offset of the light of rank `rank` among `size` selected lights.
    ///
    /// A value of zero distributes nothing, whatever the type. `Wave` spreads the value,
    /// less what earlier events of the group have already covered, over the whole
    /// selection. `Step` adds the value once per rank; it reads neither the size, nor the
    /// carry-over, nor the easing. An unknown type distributes nothing.
    pub open spec fn offset(
        self,
        rank: i32,
        size: FilteredSize,
        value: Scalar,
        carry_over: Option<Scalar>,
        easing: Option<Easing>,
    ) -> OffsetTerm {
        if value.is_zero_spec() {
            OffsetTerm::Zero
        } else {
            match self {
                DistributionType::Wave => OffsetTerm::Wave { rank, size, value, carry_over, easing },
                DistributionType::Step => OffsetTerm::Step { rank, value },
                DistributionType::Unknown(_) => OffsetTerm::Zero,
            }
        }
    }

    /// The offset of the light `light_id` along an axis: the offset of its rank under the
    /// given rule, among the lights that the filter counts on that axis.
    pub open spec fn offset_under(
        self,
        rule: RankRule,
        axis: Axis,
        light_id: int,
        group_size: int,
        filter: Filter,
        value: Scalar,
        carry_over: Option<Scalar>,
        easing: Option<Easing>,
    ) -> OffsetTerm {
        self.offset(
            filter.rank(rule, light_id, group_size) as i32,
            filter.size_on(axis, group_size),
            value,
            carry_over,
            easing,
        )
    }

    /// The offset of the light `light_id` along an axis, under the standard rule.
    pub open spec fn offset_on(
        self,
        axis: Axis,
        light_id: int,
        group_size: int,
        filter: Filter,
        value: Scalar,
        carry_over: Option<Scalar>,
        easing: Option<Easing>,
    ) -> OffsetTerm {
        self.offset_under(
            RankRule::standard_spec(),
            axis,
            light_id,
            group_size,
            filter,
            value,
            carry_over,
            easing,
        )
    }

    /// Decodes a wire value.
    pub fn from_raw(raw: i32) -> (t: DistributionType)
        ensures
            t == DistributionType::from_raw_spec(raw),
            t.is_canonical(),
            t.raw_spec() == raw,
    {
        if raw == 1 {
            DistributionType::Wave
        } else if raw == 2 {
            DistributionType::Step
        } else {
            DistributionType::Unknown(raw)
        }
    }

    /// Encodes the value for the wire.
    pub fn to_raw(&self) -> (raw: i32)
        ensures
            raw == self.raw_spec(),
            self.is_canonical() ==> DistributionType::from_raw_spec(raw) == *self,
    {
        match self {
            DistributionType::Wave => 1,
            DistributionType::Step => 2,
            DistributionType::Unknown(raw) => *raw,
        }
    }

    /// Returns the offset of the light of rank `filtered_rank` among `filtered_size`
    /// selected lights.
    pub fn compute_offset(
        &self,
        filtered_rank: i32,
        filtered_size: FilteredSize,
        dist_value: Scalar,
        last_data_offset: Option<Scalar>,
        easing: Option<Easing>,
    ) -> (term: OffsetTerm)
        ensures
            term == self.offset(filtered_rank, filtered_size, dist_value, last_data_offset, easing),
            dist_value.is_zero_spec() ==> term == OffsetTerm::Zero,
    {
        if dist_value.is_zero() {
            return OffsetTerm::Zero;
        }
        match self {
            DistributionType::Wave => OffsetTerm::Wave {
                rank: filtered_rank,
                size: filtered_size,
                value: dist_value,
                carry_over: last_data_offset,
                easing,
            },
            DistributionType::Step => OffsetTerm::Step { rank: filtered_rank, value: dist_value },
            DistributionType::Unknown(_) => OffsetTerm::Zero,
        }
    }

    /// Returns the offset of a light along the given axis, with the rank taken under the
    /// given rule.
    pub fn compute_offset_under(
        &self,
        rule: RankRule,
        axis: Axis,
        light_id: i32,
        group_size: i32,
        filter: &Filter,
        dist_value: Scalar,
        last_data_offset: Option<Scalar>,
        easing: Option<Easing>,
    ) -> (term: OffsetTerm)
        requires
            0 <= light_id < group_size,
            fits_i32(filter.rank(rule, light_id as int, group_size as int)),
            fits_i32(filter.count(group_size as int)),
        ensures
            term == self.offset_under(
                rule,
                axis,
                light_id as int,
                group_size as int,
                *filter,
                dist_value,
                last_data_offset,
                easing,
            ),
            dist_value.is_zero_spec() ==> term == OffsetTerm::Zero,
    {
        let filtered_rank = filter.get_relative_index_with(rule, light_id, group_size);
        let filtered_size = filter.count_filtered_on(axis, group_size);
        self.compute_offset(filtered_rank, filtered_size, dist_value, last_data_offset, easing)
    }

    /// Returns the offset of a light along the given axis, under the standard rule.
    pub fn compute_offset_on(
        &self,
        axis: Axis,
        light_id: i32,
        group_size: i32,
        filter: &Filter,
        dist_value: Scalar,
        last_data_offset: Option<Scalar>,
        easing: Option<Easing>,
    ) -> (term: OffsetTerm)
        requires
            0 <= light_id < group_size,
            fits_i32(filter.rank(RankRule::standard_spec(), light_id as int, group_size as int)),
            fits_i32(filter.count(group_size as int)),
        ensures
            term == self.offset_on(
                axis,
                light_id as int,
                group_size as int,
                *filter,
                dist_value,
                last_data_offset,
                easing,
            ),
            dist_value.is_zero_spec() ==> term == OffsetTerm::Zero,
    {
        self.compute_offset_under(
            RankRule::standard(),
            axis,
            light_id,
            group_size,
            filter,
            dist_value,
            last_data_offset,
            easing,
        )
    }

    /// Returns the number of beats by which a light is delayed. The limit of the filter
    /// shortens the count only where it names the beat axis.
    pub fn compute_beat_offset(
        &self,
        light_id: i32,
        group_size: i32,
        filter: &Filter,
        dist_value: Scalar,
        last_data_offset: Option<Scalar>,
        easing: Option<Easing>,
    ) -> (term: OffsetTerm)
        requires
            0 <= light_id < group_size,
            fits_i32(filter.rank(RankRule::standard_spec(), light_id as int, group_size as int)),
            fits_i32(filter.count(group_size as int)),
        ensures
            term == self.offset_on(
                Axis::Beat,
                light_id as int,
                group_size as int,
                *filter,
                dist_value,
                last_data_offset,
                easing,
            ),
            dist_value.is_zero_spec() ==> term == OffsetTerm::Zero,
    {
        self.compute_offset_on(
            Axis::Beat,
            light_id,
            group_size,
            filter,
            dist_value,
            last_data_offset,
            easing,
        )
    }

    /// Returns the amount by which the value of a light is shifted. The limit of the
    /// filter shortens the count only where it names the value axis.
    pub fn compute_value_offset(
        &self,
        light_id: i32,
        group_size: i32,
        filter: &Filter,
        dist_value: Scalar,
        last_data_offset: Option<Scalar>,
        easing: Option<Easing>,
    ) -> (term: OffsetTerm)
        requires
            0 <= light_id < group_size,
            fits_i32(filter.rank(RankRule::standard_spec(), light_id as int, group_size as int)),
            fits_i32(filter.count(group_size as int)),
        ensures
            term == self.offset_on(
                Axis::Value,
                light_id as int,
                group_size as int,
                *filter,
                dist_value,
                last_data_offset,
                easing,
            ),
            dist_value.is_zero_spec() ==> term == OffsetTerm::Zero,
    {
        self.compute_offset_on(
            Axis::Value,
            light_id,
            group_size,
            filter,
            dist_value,
            last_data_offset,
            easing,
        )
    }
}

/// A value of zero distributes nothing: the offset of every light is zero, for every
/// type, filter, rule and axis.
pub proof fn lemma_zero_value_distributes_nothing(
    dist_type: DistributionType,
    rule: RankRule,
    axis: Axis,
    light_id: int,
    group_size: int,
    filter: Filter,
    value: Scalar,
    carry_over: Option<Scalar>,
    easing: Option<Easing>,
)
    requires
        value.is_zero_spec(),
    ensures
        dist_type.offset_under(
            rule,
            axis,
            light_id,
            group_size,
            filter,
            value,
            carry_over,
            easing,
        ) == OffsetTerm::Zero,
{
}

/// A step reads the rank alone: its offset is the same on both axes, whatever the limit,
/// the carry-over and the easing.
pub proof fn lemma_step_reads_the_rank_alone(
    rule: RankRule,
    light_id: int,
    group_size: int,
    filter: Filter,
    value: Scalar,
    carry_over: Option<Scalar>,
    easing: Option<Easing>,
)
    requires
        !value.is_zero_spec(),
    ensures
        DistributionType::Step.offset_under(
            rule,
            Axis::Beat,
            light_id,
            group_size,
            filter,
            value,
            carry_over,
            easing,
        ) == (OffsetTerm::Step { rank: filter.rank(rule, light_id, group_size) as i32, value }),
        DistributionType::Step.offset_under(
            rule,
            Axis::Value,
            light_id,
            group_size,
            filter,
            value,
            carry_over,
            easing,
        ) == (OffsetTerm::Step { rank: filter.rank(rule, light_id, group_size) as i32, value }),
{
}

/// The limit of a filter does not change which lights are selected, nor their ranks, nor
/// the count: it only decides whether a wave is spread over a shortened size.
pub proof fn lemma_limit_leaves_the_selection(
    filter: Filter,
    unlimited: Filter,
    rule: RankRule,
    axis: Axis,
    light_id: int,
    group_size: int,
)
    requires
        unlimited == (Filter { limit_behaviour: None, limit_percent: None, ..filter }),
    ensures
        filter.selects(light_id, group_size) == unlimited.selects(light_id, group_size),
        filter.rank(rule, light_id, group_size) == unlimited.rank(rule, light_id, group_size),
        filter.count(group_size) == unlimited.count(group_size),
        unlimited.size_on(axis, group_size) == FilteredSize::Whole(
            filter.count(group_size) as i32,
        ),
        filter.size_on(axis, group_size) == unlimited.size_on(axis, group_size) || filter.size_on(
            axis,
            group_size,
        ) == (FilteredSize::Limited {
            count: filter.count(group_size) as i32,
            percent: filter.limit_percent->Some_0,
        }),
{
}

/// Over an unfiltered filter that is not reversed, the offsets run with the lights: the
/// offset of the light `light_id` is taken from the rank `light_id` among `group_size`
/// lights, on both axes where no limit applies.
pub proof fn lemma_unfiltered_offsets_run_with_the_lights(
    dist_type: DistributionType,
    rule: RankRule,
    axis: Axis,
    light_id: i32,
    group_size: i32,
    filter: Filter,
    value: Scalar,
    carry_over: Option<Scalar>,
    easing: Option<Easing>,
)
    requires
        unfiltered(filter),
        !filter.reversed(),
        !filter.limits(axis),
        0 <= light_id < group_size,
    ensures
        dist_type.offset_under(
            rule,
            axis,
            light_id as int,
            group_size as int,
            filter,
            value,
            carry_over,
            easing,
        ) == dist_type.offset(
            light_id,
            FilteredSize::Whole(group_size),
            value,
            carry_over,
            easing,
        ),
{
    lemma_unfiltered_keeps_the_group(filter, rule, light_id as int, group_size as int);
}

/// Over an unfiltered filter that is reversed, the offsets run against the lights: under
/// the standard rule the offset of the light `light_id` is taken from the rank
/// `group_size - light_id`.
pub proof fn lemma_reversed_offsets_run_against_the_lights(
    dist_type: DistributionType,
    axis: Axis,
    light_id: i32,
    group_size: i32,
    filter: Filter,
    value: Scalar,
    carry_over: Option<Scalar>,
    easing: Option<Easing>,
)
    requires
        unfiltered(filter),
        filter.reversed(),
        !filter.limits(axis),
        0 <= light_id < group_size,
    ensures
        dist_type.offset_on(
            axis,
            light_id as int,
            group_size as int,
            filter,
            value,
            carry_over,
            easing,
        ) == dist_type.offset(
            (group_size - light_id) as i32,
            FilteredSize::Whole(group_size),
            value,
            carry_over,
            easing,
        ),
{
    lemma_reversed_unfiltered_counts_down(
        filter,
        RankRule::standard_spec(),
        light_id as int,
        group_size as int,
    );
}

impl Default for DistributionType {
    fn default() -> (t: DistributionType)
        ensures
            t == DistributionType::Wave,
    {
        DistributionType::Wave
    }
}

impl From<i32> for DistributionType {
    fn from(value: i32) -> (t: DistributionType) {
        DistributionType::from_raw(value)
    }
}

impl FromSpecImpl<i32> for DistributionType {
    open spec fn obeys_from_spec() -> bool {
        true
    }

    open spec fn from_spec(value: i32) -> DistributionType {
        DistributionType::from_raw_spec(value)
    }
}

} // verus!
