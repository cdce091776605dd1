//! Which fixtures of a group an event applies to, and in what order.
//!
//! A filter is evaluated in three steps: the index is mirrored if the filter is reversed,
//! index and group size are divided by the chunk length if the filter is chunked, and the
//! filter type decides on the collapsed values. [`Filter::selects`], [`Filter::count`] and
//! [`Filter::rank`] say so in full; the functions of this module compute them without
//! overflow.
//!
//! A note for proofs about given numbers: the solver evaluates a quotient only once it
//! knows the divisor. For a filter without chunks it finds the values by itself. For a
//! chunked filter, assert the stages in turn: the value of [`Filter::chunk_len`], then of
//! [`Filter::collapsed`] for the index and for the group size, then of
//! [`Filter::selects_unit`], [`Filter::count_units`] or [`Filter::rank_unit`].

use vstd::prelude::*;
use vstd::std_specs::convert::FromSpecImpl;
use crate::quotient::{
    at_least_one, divide, divides, floor_to_one, is_multiple, larger, lemma_quotient_monotone,
    lemma_quotient_step, quotient,
};
use crate::scalar::Scalar;
use crate::utils::LooseBool;

verus! {

/// How a [`Filter`] reads its two parameters.
#[derive(Debug, Clone, Copy, PartialEq, Eq, Structural)]
pub enum FilterType {
    /// Splits the group into equal sections and selects one of them.
    /// `parameter1` is the number of sections, `parameter2` the section, starting at 0.
    Division,
    /// Selects every n-th light. `parameter1` is the first selected index,
    /// `parameter2` the distance between selected lights.
    StepAndOffset,
    /// A wire value this library has no name for.
    Unknown(i32),
}

impl FilterType {
    /// The wire value of this variant.
    pub open spec fn raw_spec(self) -> int {
        match self {
            FilterType::Division => 1,
            FilterType::StepAndOffset => 2,
            FilterType::Unknown(raw) => raw as int,
        }
    }

    /// The variant that a wire value decodes to.
    pub open spec fn from_raw_spec(raw: i32) -> FilterType {
        if raw == 1 {
            FilterType::Division
        } else if raw == 2 {
            FilterType::StepAndOffset
        } else {
            FilterType::Unknown(raw)
        }
    }

    /// A value is canonical when decoding could have produced it.
    pub open spec fn is_canonical(self) -> bool {
        match self {
            FilterType::Unknown(raw) => raw != 1 && raw != 2,
            _ => true,
        }
    }

    /// Decodes a wire value.
    pub fn from_raw(raw: i32) -> (t: FilterType)
        ensures
            t == FilterType::from_raw_spec(raw),
            t.is_canonical(),
            t.raw_spec() == raw,
    {
        if raw == 1 {
            FilterType::Division
        } else if raw == 2 {
            FilterType::StepAndOffset
        } else {
            FilterType::Unknown(raw)
        }
    }

    /// Encodes the value for the wire.
    pub fn to_raw(&self) -> (raw: i32)
        ensures
            raw == self.raw_spec(),
            self.is_canonical() ==> FilterType::from_raw_spec(raw) == *self,
    {
        match self {
            FilterType::Division => 1,
            FilterType::StepAndOffset => 2,
            FilterType::Unknown(raw) => *raw,
        }
    }
}

impl Default for FilterType {
    fn default() -> (t: FilterType)
        ensures
            t == FilterType::Division,
    {
        FilterType::Division
    }
}

impl From<i32> for FilterType {
    fn from(value: i32) -> (t: FilterType) {
        FilterType::from_raw(value)
    }
}

impl FromSpecImpl<i32> for FilterType {
    open spec fn obeys_from_spec() -> bool {
        true
    }

    open spec fn from_spec(value: i32) -> FilterType {
        FilterType::from_raw_spec(value)
    }
}

/// How a filter shuffles the lights it selects. The value is carried through unchanged:
/// no computation of this library reads it.
#[derive(Debug, Clone, Copy, PartialEq, Eq, Structural)]
pub enum RandomBehaviour {
    /// The lights keep their order.
    Disabled,
    KeepOrder,
    RandomElements,
    /// A wire value this library has no name for.
    Unknown(i32),
}

impl RandomBehaviour {
    /// The wire value of this variant.
    pub open spec fn raw_spec(self) -> int {
        match self {
            RandomBehaviour::Disabled => 0,
            RandomBehaviour::KeepOrder => 1,
            RandomBehaviour::RandomElements => 2,
            RandomBehaviour::Unknown(raw) => raw as int,
        }
    }

    /// The variant that a wire value decodes to.
    pub open spec fn from_raw_spec(raw: i32) -> RandomBehaviour {
        if raw == 0 {
            RandomBehaviour::Disabled
        } else if raw == 1 {
            RandomBehaviour::KeepOrder
        } else if raw == 2 {
            RandomBehaviour::RandomElements
        } else {
            RandomBehaviour::Unknown(raw)
        }
    }

    /// A value is canonical when decoding could have produced it.
    pub open spec fn is_canonical(self) -> bool {
        match self {
            RandomBehaviour::Unknown(raw) => !(0 <= raw <= 2),
            _ => true,
        }
    }

    /// Decodes a wire value.
    pub fn from_raw(raw: i32) -> (b: RandomBehaviour)
        ensures
            b == RandomBehaviour::from_raw_spec(raw),
            b.is_canonical(),
            b.raw_spec() == raw,
    {
        if raw == 0 {
            RandomBehaviour::Disabled
        } else if raw == 1 {
            RandomBehaviour::KeepOrder
        } else if raw == 2 {
            RandomBehaviour::RandomElements
        } else {
            RandomBehaviour::Unknown(raw)
        }
    }

    /// Encodes the value for the wire.
    pub fn to_raw(&self) -> (raw: i32)
        ensures
            raw == self.raw_spec(),
            self.is_canonical() ==> RandomBehaviour::from_raw_spec(raw) == *self,
    {
        match self {
            RandomBehaviour::Disabled => 0,
            RandomBehaviour::KeepOrder => 1,
            RandomBehaviour::RandomElements => 2,
            RandomBehaviour::Unknown(raw) => *raw,
        }
    }
}

impl Default for RandomBehaviour {
    fn default() -> (b: RandomBehaviour)
        ensures
            b == RandomBehaviour::Disabled,
    {
        RandomBehaviour::Disabled
    }
}

impl From<i32> for RandomBehaviour {
    fn from(value: i32) -> (b: RandomBehaviour) {
        RandomBehaviour::from_raw(value)
    }
}

impl FromSpecImpl<i32> for RandomBehaviour {
    open spec fn obeys_from_spec() -> bool {
        true
    }

    open spec fn from_spec(value: i32) -> RandomBehaviour {
        RandomBehaviour::from_raw_spec(value)
    }
}

/// Which axes the limit of a filter shortens.
#[derive(Debug, Clone, Copy, PartialEq, Eq, Structural)]
pub enum LimitBehaviour {
    /// The limit shortens neither axis.
    Disabled,
    /// The limit shortens the beat axis.
    Duration,
    /// The limit shortens the value axis.
    Distribution,
    /// The limit shortens both axes.
    Both,
    /// A wire value this library has no name for. It shortens neither axis.
    Unknown(i32),
}

impl LimitBehaviour {
    /// The wire value of this variant.
    pub open spec fn raw_spec(self) -> int {
        match self {
            LimitBehaviour::Disabled => 0,
            LimitBehaviour::Duration => 1,
            LimitBehaviour::Distribution => 2,
            LimitBehaviour::Both => 3,
            LimitBehaviour::Unknown(raw) => raw as int,
        }
    }

    /// The variant that a wire value decodes to.
    pub open spec fn from_raw_spec(raw: i32) -> LimitBehaviour {
        if raw == 0 {
            LimitBehaviour::Disabled
        } else if raw == 1 {
            LimitBehaviour::Duration
        } else if raw == 2 {
            LimitBehaviour::Distribution
        } else if raw == 3 {
            LimitBehaviour::Both
        } else {
            LimitBehaviour::Unknown(raw)
        }
    }

    /// A value is canonical when decoding could have produced it.
    pub open spec fn is_canonical(self) -> bool {
        match self {
            LimitBehaviour::Unknown(raw) => !(0 <= raw <= 3),
            _ => true,
        }
    }

    /// Whether the limit shortens the beat axis.
    pub open spec fn duration_spec(self) -> bool {
        self == LimitBehaviour::Duration || self == LimitBehaviour::Both
    }

    /// Whether the limit shortens the value axis.
    pub open spec fn distribution_spec(self) -> bool {
        self == LimitBehaviour::Distribution || self == LimitBehaviour::Both
    }

    /// Whether the limit shortens the beat axis: so for `Duration` and `Both`.
    pub fn duration(&self) -> (b: bool)
        ensures
            b == self.duration_spec(),
    {
        match self {
            LimitBehaviour::Duration => true,
            LimitBehaviour::Both => true,
            _ => false,
        }
    }

    /// Whether the limit shortens the value axis: so for `Distribution` and `Both`.
    pub fn distribution(&self) -> (b: bool)
        ensures
            b == self.distribution_spec(),
    {
        match self {
            LimitBehaviour::Distribution => true,
            LimitBehaviour::Both => true,
            _ => false,
        }
    }

    /// Decodes a wire value.
    pub fn from_raw(raw: i32) -> (b: LimitBehaviour)
        ensures
            b == LimitBehaviour::from_raw_spec(raw),
            b.is_canonical(),
            b.raw_spec() == raw,
    {
        if raw == 0 {
            LimitBehaviour::Disabled
        } else if raw == 1 {
            LimitBehaviour::Duration
        } else if raw == 2 {
            LimitBehaviour::Distribution
        } else if raw == 3 {
            LimitBehaviour::Both
        } else {
            LimitBehaviour::Unknown(raw)
        }
    }

    /// Encodes the value for the wire.
    pub fn to_raw(&self) -> (raw: i32)
        ensures
            raw == self.raw_spec(),
            self.is_canonical() ==> LimitBehaviour::from_raw_spec(raw) == *self,
    {
        match self {
            LimitBehaviour::Disabled => 0,
            LimitBehaviour::Duration => 1,
            LimitBehaviour::Distribution => 2,
            LimitBehaviour::Both => 3,
            LimitBehaviour::Unknown(raw) => *raw,
        }
    }
}

impl Default for LimitBehaviour {
    fn default() -> (b: LimitBehaviour)
        ensures
            b == LimitBehaviour::Disabled,
    {
        LimitBehaviour::Disabled
    }
}

impl From<i32> for LimitBehaviour {
    fn from(value: i32) -> (b: LimitBehaviour) {
        LimitBehaviour::from_raw(value)
    }
}

impl FromSpecImpl<i32> for LimitBehaviour {
    open spec fn obeys_from_spec() -> bool {
        true
    }

    open spec fn from_spec(value: i32) -> LimitBehaviour {
        LimitBehaviour::from_raw_spec(value)
    }
}

/// Why a filter gave no answer.
#[derive(Debug, Clone, Copy, PartialEq, Eq, Structural)]
pub enum FilterError {
    /// The light index is negative, or not below the group size.
    LightOutsideGroup,
    /// The answer does not fit in 32 bits.
    Overflow,
}

/// Whether an integer fits in 32 bits.
pub open spec fn fits_i32(x: int) -> bool {
    i32::MIN <= x <= i32::MAX
}

/// One of the two axes along which an event is spread over the lights of a group.
#[derive(Debug, Clone, Copy, PartialEq, Eq, Structural)]
pub enum Axis {
    /// When each light starts: the offset is a number of beats.
    Beat,
    /// How strongly each light is affected: the offset is a brightness, an angle, a
    /// distance or an effect value.
    Value,
}

/// The number of selected units that a distribution spreads over.
#[derive(Debug, Clone, Copy, PartialEq, Eq, Structural)]
pub enum FilteredSize {
    /// Every unit that the filter counts.
    Whole(i32),
    /// The units that the filter counts, shortened by its limit: `count` multiplied by
    /// `percent` in single precision, and rounded toward zero.
    Limited { count: i32, percent: Scalar },
}

/// Which way the rank of a light is taken from its index. Revisions of the map format
/// differ in two points, and the two switches cover every combination. Which revision
/// follows which rule is for the caller to say.
#[derive(Debug, Clone, Copy, PartialEq, Eq, Structural)]
pub struct RankRule {
    /// How a reversed filter mirrors an index before ranking it: onto
    /// `group_size - light_id - 1` when set, onto `group_size - light_id` when clear.
    pub mirror_onto_last: bool,
    /// Whether chunking collapses the index space before ranking.
    pub collapse_chunks: bool,
}

impl RankRule {
    /// The rule that [`Filter::get_relative_index`] follows.
    pub open spec fn standard_spec() -> RankRule {
        RankRule { mirror_onto_last: false, collapse_chunks: true }
    }

    /// The rule that [`Filter::get_relative_index`] follows: a reversed index is mirrored
    /// onto `group_size - light_id`, and chunks collapse.
    pub fn standard() -> (rule: RankRule)
        ensures
            rule == RankRule::standard_spec(),
    {
        RankRule { mirror_onto_last: false, collapse_chunks: true }
    }

    /// The rule under which ranking mirrors and collapses exactly as selection does.
    pub fn aligned() -> (rule: RankRule)
        ensures
            rule == (RankRule { mirror_onto_last: true, collapse_chunks: true }),
    {
        RankRule { mirror_onto_last: true, collapse_chunks: true }
    }

    /// The rule of maps that know no chunks: a reversed index is mirrored onto
    /// `group_size - light_id`, and chunks are ignored.
    pub fn earliest() -> (rule: RankRule)
        ensures
            rule == (RankRule { mirror_onto_last: false, collapse_chunks: false }),
    {
        RankRule { mirror_onto_last: false, collapse_chunks: false }
    }
}

/// Selects the lights of a group that an event applies to.
#[derive(Debug, Clone, Copy, PartialEq, Eq, Structural)]
pub struct Filter {
    /// How `parameter1` and `parameter2` are read.
    pub filter_type: FilterType,
    /// Depends on the [`FilterType`].
    pub parameter1: i32,
    /// Depends on the [`FilterType`].
    pub parameter2: i32,
    /// If true, the filter starts at the end of the group and works backwards.
    pub reverse: LooseBool,
    /// When positive, the group is divided into this many chunks, each of which behaves
    /// as one light. Absent, zero or negative: no chunking.
    pub chunks: Option<i32>,
    /// Carried through unchanged.
    pub random_behaviour: Option<RandomBehaviour>,
    /// Carried through unchanged.
    pub random_seed: Option<i32>,
    /// Which axes `limit_percent` shortens.
    pub limit_behaviour: Option<LimitBehaviour>,
    /// The fraction of the selected lights that counts on a shortened axis.
    pub limit_percent: Option<Scalar>,
}

impl Filter {
    /// The filter that selects every light: one section, no reversal, no chunking, and a
    /// limit of `1.0` that shortens no axis.
    pub open spec fn default_spec() -> Filter {
        Filter {
            filter_type: FilterType::Division,
            parameter1: 1,
            parameter2: 0,
            reverse: LooseBool::False,
            chunks: Some(0i32),
            random_behaviour: Some(RandomBehaviour::Disabled),
            random_seed: Some(0i32),
            limit_behaviour: Some(LimitBehaviour::Disabled),
            limit_percent: Some(Scalar::one_spec()),
        }
    }

    /// Whether the filter works backwards. Only `True` reverses: an unknown wire value
    /// does not.
    #[verifier::inline]
    pub open spec fn reversed(self) -> bool {
        self.reverse == LooseBool::True
    }

    /// Whether chunking is on: the filter names a positive number of chunks.
    #[verifier::inline]
    pub open spec fn chunked(self) -> bool {
        match self.chunks {
            Some(chunks) => chunks > 0,
            None => false,
        }
    }

    /// The number of lights in a chunk, floored to one. It is one where chunking is off.
    pub open spec fn chunk_len(self, group_size: int) -> int {
        match self.chunks {
            Some(chunks) => if chunks > 0 {
                at_least_one(quotient(group_size, chunks as int))
            } else {
                1
            },
            None => 1,
        }
    }

    /// An index or a size of the group after chunks have collapsed into units: divided by
    /// the chunk length.
    pub open spec fn collapsed(self, x: int, group_size: int) -> int {
        if self.chunked() {
            quotient(x, self.chunk_len(group_size))
        } else {
            x
        }
    }

    /// The number of sections of a `Division` filter, floored to one.
    #[verifier::inline]
    pub open spec fn sections(self) -> int {
        at_least_one(self.parameter1 as int)
    }

    /// The distance between selected lights of a `StepAndOffset` filter, floored to one.
    #[verifier::inline]
    pub open spec fn stride(self) -> int {
        at_least_one(self.parameter2 as int)
    }

    /// The first index of the selected section, in a collapsed group of `size` units.
    pub open spec fn section_start(self, size: int) -> int {
        quotient(self.parameter2 * size, self.sections())
    }

    /// The index after the selected section, in a collapsed group of `size` units. A
    /// section holds at least one unit.
    pub open spec fn section_end(self, size: int) -> int {
        larger(quotient((self.parameter2 + 1) * size, self.sections()), self.section_start(size) + 1)
    }

    /// Whether the filter selects the unit `index` of a collapsed group of `size` units.
    ///
    /// A `Division` selects the units of its section. A `StepAndOffset` selects the unit
    /// `parameter1` and every unit a whole number of strides behind it. A filter of
    /// unknown type selects every unit.
    pub open spec fn selects_unit(self, index: int, size: int) -> bool {
        match self.filter_type {
            FilterType::Division => self.section_start(size) <= index < self.section_end(size),
            FilterType::StepAndOffset => index - self.parameter1 >= 0 && divides(
                self.stride(),
                index - self.parameter1,
            ),
            FilterType::Unknown(_) => true,
        }
    }

    /// The number of units that the filter counts in a collapsed group of `size` units.
    ///
    /// A `Division` counts the units of its section. A `StepAndOffset` counts the
    /// strides that fit in the group, less those that fit before `parameter1`. A filter
    /// of unknown type counts every unit.
    pub open spec fn count_units(self, size: int) -> int {
        match self.filter_type {
            FilterType::Division => self.section_end(size) - self.section_start(size),
            FilterType::StepAndOffset => quotient(size, self.stride()) - quotient(
                self.parameter1 as int,
                self.stride(),
            ),
            FilterType::Unknown(_) => size,
        }
    }

    /// The rank of the unit `index` in a collapsed group of `size` units.
    ///
    /// A `Division` ranks a unit by its distance from the start of the section. A
    /// `StepAndOffset` ranks a unit by the number of strides between `parameter1` and
    /// the unit. A filter of unknown type ranks every unit alike, at `size`.
    pub open spec fn rank_unit(self, index: int, size: int) -> int {
        match self.filter_type {
            FilterType::Division => index - self.section_start(size),
            FilterType::StepAndOffset => quotient(index - self.parameter1, self.stride()),
            FilterType::Unknown(_) => size,
        }
    }

    /// Whether the filter selects the light `light_id` of a group of `group_size` lights:
    /// the index is mirrored if the filter is reversed, index and size are divided by the
    /// chunk length, and the filter type decides.
    pub open spec fn selects(self, light_id: int, group_size: int) -> bool {
        let index = if self.reversed() {
            group_size - light_id - 1
        } else {
            light_id
        };
        self.selects_unit(self.collapsed(index, group_size), self.collapsed(group_size, group_size))
    }

    /// The number of units that the filter counts in a group of `group_size` lights.
    pub open spec fn count(self, group_size: int) -> int {
        self.count_units(self.collapsed(group_size, group_size))
    }

    /// The rank of the light `light_id` among the lights that the filter selects in a
    /// group of `group_size` lights, under a rule.
    pub open spec fn rank(self, rule: RankRule, light_id: int, group_size: int) -> int {
        let index = if !self.reversed() {
            light_id
        } else if rule.mirror_onto_last {
            group_size - light_id - 1
        } else {
            group_size - light_id
        };
        if rule.collapse_chunks {
            self.rank_unit(
                self.collapsed(index, group_size),
                self.collapsed(group_size, group_size),
            )
        } else {
            self.rank_unit(index, group_size)
        }
    }

    /// The number of lights in a chunk of a group, floored to one.
    fn chunk_length(&self, group_size: i32) -> (len: i64)
        ensures
            len == self.chunk_len(group_size as int),
            1 <= len,
    {
        match self.chunks {
            Some(chunks) => {
                if chunks > 0 {
                    let len = divide(group_size as i64, chunks as i64);
                    if len < 1 {
                        1
                    } else {
                        len
                    }
                } else {
                    1
                }
            },
            None => 1,
        }
    }

    /// The first index of the selected section.
    fn first_of_section(&self, size: i64) -> (start: i64)
        requires
            i32::MIN <= size <= i32::MAX,
        ensures
            start == self.section_start(size as int),
            -0x4000_0000_0000_0000 <= start <= 0x4000_0000_0000_0000,
    {
        let sections = floor_to_one(self.parameter1);
        let parameter2 = self.parameter2 as i64;
        assert(-0x4000_0000_0000_0000 <= parameter2 * size <= 0x4000_0000_0000_0000)
            by (nonlinear_arith)
            requires
                -0x8000_0000 <= parameter2 <= 0x7fff_ffff,
                -0x8000_0000 <= size <= 0x7fff_ffff,
        ;
        divide(parameter2 * size, sections)
    }

    /// The index after the selected section.
    fn end_of_section(&self, size: i64) -> (end: i64)
        requires
            i32::MIN <= size <= i32::MAX,
        ensures
            end == self.section_end(size as int),
            -0x4000_0000_0000_0000 <= end <= 0x4000_0000_0000_0001,
    {
        let sections = floor_to_one(self.parameter1);
        let next = self.parameter2 as i64 + 1;
        assert(-0x4000_0000_0000_0000 <= next * size <= 0x4000_0000_0000_0000)
            by (nonlinear_arith)
            requires
                -0x7fff_ffff <= next <= 0x8000_0000,
                -0x8000_0000 <= size <= 0x7fff_ffff,
        ;
        let end = divide(next * size, sections);
        let start = self.first_of_section(size);
        if end < start + 1 {
            start + 1
        } else {
            end
        }
    }

    /// A `Division` filter counts at least one unit, and no more than the collapsed
    /// group holds.
    pub proof fn lemma_section_len(self, size: int)
        ensures
            1 <= self.section_end(size) - self.section_start(size),
            self.section_end(size) - self.section_start(size) <= larger(size, 1),
    {
        let sections = self.sections();
        let from = self.parameter2 * size;
        let to = (self.parameter2 + 1) * size;
        assert(to == from + size) by (nonlinear_arith)
            requires
                from == self.parameter2 * size,
                to == (self.parameter2 + 1) * size,
        ;
        if size >= 0 {
            lemma_quotient_step(from, size, sections);
        } else {
            lemma_quotient_monotone(to, from, sections);
        }
    }

    /// The number of units that the filter counts, before it is narrowed to 32 bits.
    fn count_wide(&self, group_size: i32) -> (count: i64)
        ensures
            count == self.count(group_size as int),
    {
        let len = self.chunk_length(group_size);
        let size = divide(group_size as i64, len);
        match self.filter_type {
            FilterType::Division => {
                proof {
                    self.lemma_section_len(size as int);
                }
                let start = self.first_of_section(size);
                let end = self.end_of_section(size);
                end - start
            },
            FilterType::StepAndOffset => {
                let stride = floor_to_one(self.parameter2);
                divide(size, stride) - divide(self.parameter1 as i64, stride)
            },
            FilterType::Unknown(_) => size,
        }
    }

    /// The rank of a light, before it is narrowed to 32 bits.
    fn rank_wide(&self, rule: RankRule, light_id: i32, group_size: i32) -> (rank: i64)
        requires
            0 <= light_id < group_size,
        ensures
            rank == self.rank(rule, light_id as int, group_size as int),
    {
        let mut index: i64 = light_id as i64;
        if self.reverse.is_true() {
            if rule.mirror_onto_last {
                index = group_size as i64 - index - 1;
            } else {
                index = group_size as i64 - index;
            }
        }
        let len = if rule.collapse_chunks {
            self.chunk_length(group_size)
        } else {
            1
        };
        let index = divide(index, len);
        let size = divide(group_size as i64, len);
        match self.filter_type {
            FilterType::Division => index - self.first_of_section(size),
            FilterType::StepAndOffset => divide(
                index - self.parameter1 as i64,
                floor_to_one(self.parameter2),
            ),
            FilterType::Unknown(_) => size,
        }
    }

    /// Returns true if the light is in the filter.
    ///
    /// A filter of unknown type selects every light.
    #[must_use]
    pub fn is_in_filter(&self, light_id: i32, group_size: i32) -> (selected: bool)
        requires
            0 <= light_id < group_size,
        ensures
            selected == self.selects(light_id as int, group_size as int),
    {
        let mut index: i64 = light_id as i64;
        if self.reverse.is_true() {
            index = group_size as i64 - index - 1;
        }
        let len = self.chunk_length(group_size);
        let index = divide(index, len);
        let size = divide(group_size as i64, len);
        match self.filter_type {
            FilterType::Division => {
                let start = self.first_of_section(size);
                let end = self.end_of_section(size);
                start <= index && index < end
            },
            FilterType::StepAndOffset => {
                let offset = index - self.parameter1 as i64;
                offset >= 0 && is_multiple(offset, floor_to_one(self.parameter2))
            },
            FilterType::Unknown(_) => true,
        }
    }
}

impl Filter {
    /// Returns the number of light chunks affected by the filter.
    ///
    /// For a filter of unknown type this is the size of the collapsed group.
    #[must_use]
    pub fn count_filtered(&self, group_size: i32) -> (count: i32)
        requires
            fits_i32(self.count(group_size as int)),
        ensures
            count == self.count(group_size as int),
    {
        let wide = self.count_wide(group_size);
        wide as i32
    }

    /// Returns the rank of the light among the lights that the filter selects, under the
    /// standard rule.
    ///
    /// For a filter of unknown type this is the size of the collapsed group.
    #[must_use]
    pub fn get_relative_index(&self, light_id: i32, group_size: i32) -> (rank: i32)
        requires
            0 <= light_id < group_size,
            fits_i32(self.rank(RankRule::standard_spec(), light_id as int, group_size as int)),
        ensures
            rank == self.rank(RankRule::standard_spec(), light_id as int, group_size as int),
    {
        self.get_relative_index_with(RankRule::standard(), light_id, group_size)
    }

    /// Returns the rank of the light among the lights that the filter selects, under the
    /// given rule.
    #[must_use]
    pub fn get_relative_index_with(
        &self,
        rule: RankRule,
        light_id: i32,
        group_size: i32,
    ) -> (rank: i32)
        requires
            0 <= light_id < group_size,
            fits_i32(self.rank(rule, light_id as int, group_size as int)),
        ensures
            rank == self.rank(rule, light_id as int, group_size as int),
    {
        let wide = self.rank_wide(rule, light_id, group_size);
        wide as i32
    }

    /// Whether the light is in the filter, for any pair of arguments: a light outside the
    /// group is reported, not judged.
    pub fn try_is_in_filter(
        &self,
        light_id: i32,
        group_size: i32,
    ) -> (res: Result<bool, FilterError>)
        ensures
            res == if 0 <= light_id < group_size {
                Ok::<bool, FilterError>(self.selects(light_id as int, group_size as int))
            } else {
                Err::<bool, FilterError>(FilterError::LightOutsideGroup)
            },
    {
        if 0 <= light_id && light_id < group_size {
            Ok(self.is_in_filter(light_id, group_size))
        } else {
            Err(FilterError::LightOutsideGroup)
        }
    }

    /// The number of light chunks affected by the filter, or `Overflow` where that number
    /// does not fit in 32 bits.
    pub fn try_count_filtered(&self, group_size: i32) -> (res: Result<i32, FilterError>)
        ensures
            res == if fits_i32(self.count(group_size as int)) {
                Ok::<i32, FilterError>(self.count(group_size as int) as i32)
            } else {
                Err::<i32, FilterError>(FilterError::Overflow)
            },
    {
        let wide = self.count_wide(group_size);
        if -0x8000_0000 <= wide && wide <= 0x7fff_ffff {
            Ok(wide as i32)
        } else {
            Err(FilterError::Overflow)
        }
    }

    /// The rank of the light under the given rule; `LightOutsideGroup` for a light outside
    /// the group, and otherwise `Overflow` where the rank does not fit in 32 bits.
    pub fn try_relative_index(
        &self,
        rule: RankRule,
        light_id: i32,
        group_size: i32,
    ) -> (res: Result<i32, FilterError>)
        ensures
            res == if !(0 <= light_id < group_size) {
                Err::<i32, FilterError>(FilterError::LightOutsideGroup)
            } else if fits_i32(self.rank(rule, light_id as int, group_size as int)) {
                Ok::<i32, FilterError>(
                    self.rank(rule, light_id as int, group_size as int) as i32,
                )
            } else {
                Err::<i32, FilterError>(FilterError::Overflow)
            },
    {
        if !(0 <= light_id && light_id < group_size) {
            return Err(FilterError::LightOutsideGroup);
        }
        let wide = self.rank_wide(rule, light_id, group_size);
        if -0x8000_0000 <= wide && wide <= 0x7fff_ffff {
            Ok(wide as i32)
        } else {
            Err(FilterError::Overflow)
        }
    }
}

impl Filter {
    /// Whether the filter has a limit at all: `limit_percent` is present and not zero.
    pub open spec fn has_limit(self) -> bool {
        match self.limit_percent {
            Some(percent) => !percent.is_zero_spec(),
            None => false,
        }
    }

    /// Whether `limit_behaviour` names the axis. An absent behaviour names none.
    pub open spec fn names_axis(self, axis: Axis) -> bool {
        match self.limit_behaviour {
            Some(behaviour) => match axis {
                Axis::Beat => behaviour.duration_spec(),
                Axis::Value => behaviour.distribution_spec(),
            },
            None => false,
        }
    }

    /// Whether the limit shortens the count on the axis: the behaviour names the axis and
    /// the filter has a limit.
    pub open spec fn limits(self, axis: Axis) -> bool {
        self.names_axis(axis) && self.has_limit()
    }

    /// The size that a distribution along the axis spreads over: the count, shortened by
    /// the limit where the limit applies to the axis.
    pub open spec fn size_on(self, axis: Axis, group_size: int) -> FilteredSize {
        if self.limits(axis) {
            FilteredSize::Limited {
                count: self.count(group_size) as i32,
                percent: self.limit_percent->Some_0,
            }
        } else {
            FilteredSize::Whole(self.count(group_size) as i32)
        }
    }

    /// Whether the filter has a limit at all: `limit_percent` is present and not zero.
    pub fn is_limited(&self) -> (b: bool)
        ensures
            b == self.has_limit(),
    {
        match self.limit_percent {
            Some(percent) => !percent.is_zero(),
            None => false,
        }
    }

    /// Whether `limit_behaviour` names the axis. An absent behaviour names none.
    pub fn limit_names_axis(&self, axis: Axis) -> (b: bool)
        ensures
            b == self.names_axis(axis),
    {
        match self.limit_behaviour {
            Some(behaviour) => match axis {
                Axis::Beat => behaviour.duration(),
                Axis::Value => behaviour.distribution(),
            },
            None => false,
        }
    }

    /// Returns the number of light chunks that a distribution along the axis spreads
    /// over. Where the limit applies to the axis, the count comes with the fraction by
    /// which the caller shortens it.
    #[must_use]
    pub fn count_filtered_on(&self, axis: Axis, group_size: i32) -> (size: FilteredSize)
        requires
            fits_i32(self.count(group_size as int)),
        ensures
            size == self.size_on(axis, group_size as int),
    {
        let count = self.count_filtered(group_size);
        if self.limit_names_axis(axis) {
            match self.limit_percent {
                Some(percent) => {
                    if percent.is_zero() {
                        FilteredSize::Whole(count)
                    } else {
                        FilteredSize::Limited { count, percent }
                    }
                },
                None => FilteredSize::Whole(count),
            }
        } else {
            FilteredSize::Whole(count)
        }
    }
}

impl Default for Filter {
    fn default() -> (filter: Filter)
        ensures
            filter == Filter::default_spec(),
    {
        Filter {
            filter_type: FilterType::Division,
            parameter1: 1,
            parameter2: 0,
            reverse: LooseBool::False,
            chunks: Some(0),
            random_behaviour: Some(RandomBehaviour::Disabled),
            random_seed: Some(0),
            limit_behaviour: Some(LimitBehaviour::Disabled),
            limit_percent: Some(Scalar::one()),
        }
    }
}

} // verus!
