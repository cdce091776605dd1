//! What holds of every filter, or of every filter of a kind.

use vstd::prelude::*;
use crate::filter::{fits_i32, Filter, FilterType, RankRule};
use crate::quotient::{
    lemma_quotient_bounds, lemma_quotient_monotone, lemma_quotient_of_sum, quotient,
};
use crate::utils::LooseBool;

verus! {

/// Whether a filter leaves the group as it is: one section, taken from the front, with no
/// chunking.
pub open spec fn unfiltered(filter: Filter) -> bool {
    &&& filter.filter_type == FilterType::Division
    &&& filter.parameter1 <= 1
    &&& filter.parameter2 == 0
    &&& !filter.chunked()
}

/// An unfiltered filter that is not reversed selects every light, counts as many units as
/// the group has lights, and ranks each light at its own index, under every rule.
pub proof fn lemma_unfiltered_keeps_the_group(
    filter: Filter,
    rule: RankRule,
    light_id: int,
    group_size: int,
)
    requires
        unfiltered(filter),
        !filter.reversed(),
        0 <= light_id < group_size,
    ensures
        filter.selects(light_id, group_size),
        filter.count(group_size) == group_size,
        filter.rank(rule, light_id, group_size) == light_id,
{
    lemma_quotient_bounds(0, 1);
    lemma_quotient_bounds(group_size, 1);
    assert(filter.parameter2 * group_size == 0);
    assert((filter.parameter2 + 1) * group_size == group_size);
}

/// An unfiltered filter that is reversed selects every light and counts the whole group.
/// It ranks the light `light_id` at `group_size - light_id` under the standard rule, and
/// at `group_size - light_id - 1` under a rule that mirrors onto the last light.
pub proof fn lemma_reversed_unfiltered_counts_down(
    filter: Filter,
    rule: RankRule,
    light_id: int,
    group_size: int,
)
    requires
        unfiltered(filter),
        filter.reversed(),
        0 <= light_id < group_size,
    ensures
        filter.selects(light_id, group_size),
        filter.count(group_size) == group_size,
        filter.rank(RankRule::standard_spec(), light_id, group_size) == group_size - light_id,
        rule.mirror_onto_last ==> filter.rank(rule, light_id, group_size) == group_size - light_id
            - 1,
        !rule.mirror_onto_last ==> filter.rank(rule, light_id, group_size) == group_size
            - light_id,
{
    lemma_quotient_bounds(0, 1);
    lemma_quotient_bounds(group_size, 1);
    assert(filter.parameter2 * group_size == 0);
    assert((filter.parameter2 + 1) * group_size == group_size);
}

/// Reversal mirrors the selection: a reversed filter selects the light `light_id` exactly
/// when the same filter without reversal selects the light `group_size - light_id - 1`.
pub proof fn lemma_reverse_mirrors_selection(
    reversed: Filter,
    forward: Filter,
    light_id: int,
    group_size: int,
)
    requires
        reversed.reverse == LooseBool::True,
        forward == (Filter { reverse: LooseBool::False, ..reversed }),
    ensures
        reversed.selects(light_id, group_size) == forward.selects(
            group_size - light_id - 1,
            group_size,
        ),
        reversed.count(group_size) == forward.count(group_size),
        reversed.rank(
            RankRule { mirror_onto_last: true, collapse_chunks: true },
            light_id,
            group_size,
        ) == forward.rank(
            RankRule { mirror_onto_last: true, collapse_chunks: true },
            group_size - light_id - 1,
            group_size,
        ),
{
}

/// The lights that a `Division` filter selects have the ranks from zero up to the count,
/// under every rule that mirrors and collapses as selection does.
pub proof fn lemma_division_rank_below_count(
    filter: Filter,
    rule: RankRule,
    light_id: int,
    group_size: int,
)
    requires
        filter.filter_type == FilterType::Division,
        rule.mirror_onto_last || !filter.reversed(),
        rule.collapse_chunks || !filter.chunked(),
        filter.selects(light_id, group_size),
    ensures
        0 <= filter.rank(rule, light_id, group_size) < filter.count(group_size),
{
}

/// Lights of one chunk are one unit: a filter that is not reversed selects both or
/// neither, and ranks both alike under every rule that collapses chunks.
pub proof fn lemma_chunk_members_are_one_unit(
    filter: Filter,
    rule: RankRule,
    first: int,
    second: int,
    group_size: int,
)
    requires
        !filter.reversed(),
        rule.collapse_chunks,
        quotient(first, filter.chunk_len(group_size)) == quotient(
            second,
            filter.chunk_len(group_size),
        ),
    ensures
        filter.selects(first, group_size) == filter.selects(second, group_size),
        filter.rank(rule, first, group_size) == filter.rank(rule, second, group_size),
{
    if !filter.chunked() {
        lemma_quotient_bounds(first, 1);
        lemma_quotient_bounds(second, 1);
    }
}

/// In a group that an unfiltered filter divides evenly into chunks, the count is the
/// number of chunks, and the light at place `place` of the chunk `chunk` has the rank
/// `chunk`.
pub proof fn lemma_even_chunks_rank_by_chunk(
    filter: Filter,
    chunk: int,
    place: int,
    chunk_size: int,
)
    requires
        filter.filter_type == FilterType::Division,
        filter.parameter1 <= 1,
        filter.parameter2 == 0,
        !filter.reversed(),
        filter.chunks is Some,
        filter.chunks->Some_0 > 0,
        chunk_size >= 1,
        0 <= chunk < filter.chunks->Some_0,
        0 <= place < chunk_size,
    ensures
        ({
            let group_size = filter.chunks->Some_0 * chunk_size;
            let light_id = chunk * chunk_size + place;
            &&& 0 <= light_id < group_size
            &&& filter.chunk_len(group_size) == chunk_size
            &&& filter.count(group_size) == filter.chunks->Some_0
            &&& filter.selects(light_id, group_size)
            &&& filter.rank(RankRule::standard_spec(), light_id, group_size) == chunk
        }),
{
    let chunks = filter.chunks->Some_0 as int;
    let group_size = chunks * chunk_size;
    let light_id = chunk * chunk_size + place;
    assert(0 <= light_id < group_size) by (nonlinear_arith)
        requires
            0 <= chunk < chunks,
            0 <= place < chunk_size,
            light_id == chunk * chunk_size + place,
            group_size == chunks * chunk_size,
    ;
    // The group holds `chunk_size` lights per chunk.
    assert(group_size == chunk_size * chunks + 0) by (nonlinear_arith)
        requires
            group_size == chunks * chunk_size,
    ;
    lemma_quotient_of_sum(chunk_size, chunks, 0);
    assert(quotient(group_size, chunks) == chunk_size);
    assert(filter.chunk_len(group_size) == chunk_size);
    // Collapsed, the group holds `chunks` units and the light is unit `chunk`.
    lemma_quotient_of_sum(chunks, chunk_size, 0);
    assert(quotient(group_size, chunk_size) == chunks);
    lemma_quotient_of_sum(chunk, chunk_size, place);
    assert(quotient(light_id, chunk_size) == chunk);
    lemma_quotient_bounds(0, 1);
    lemma_quotient_bounds(chunks, 1);
    assert(filter.parameter2 * chunks == 0);
    assert((filter.parameter2 + 1) * chunks == chunks);
}

/// From one light that a `StepAndOffset` filter selects, the next selected light is one
/// stride away and has the next rank.
pub proof fn lemma_step_selects_every_stride(filter: Filter, index: int, size: int)
    requires
        filter.filter_type == FilterType::StepAndOffset,
        filter.selects_unit(index, size),
    ensures
        filter.selects_unit(index + filter.stride(), size),
        filter.rank_unit(index + filter.stride(), size) == filter.rank_unit(index, size) + 1,
        filter.rank_unit(index, size) >= 0,
        index == filter.parameter1 + filter.rank_unit(index, size) * filter.stride(),
        forall|between: int|
            index < between < index + filter.stride() ==> !filter.selects_unit(between, size),
{
    let stride = filter.stride();
    let offset = index - filter.parameter1;
    let rank = quotient(offset, stride);
    lemma_quotient_bounds(offset, stride);
    assert(offset + stride == (rank + 1) * stride + 0) by (nonlinear_arith)
        requires
            rank * stride == offset,
    ;
    lemma_quotient_of_sum(rank + 1, stride, 0);
    assert forall|between: int| index < between < index + stride implies !filter.selects_unit(
        between,
        size,
    ) by {
        let gap = between - index;
        assert(between - filter.parameter1 == rank * stride + gap);
        lemma_quotient_of_sum(rank, stride, gap);
        assert(quotient(between - filter.parameter1, stride) * stride != between
            - filter.parameter1);
    }
}

/// On an ordinary filter nothing overflows: the count and the rank of every light fit in
/// 32 bits where a `Division` filter names one of its sections, and where a
/// `StepAndOffset` filter does not start below zero. A filter of unknown type never
/// overflows.
pub proof fn lemma_ordinary_filter_fits(
    filter: Filter,
    rule: RankRule,
    light_id: i32,
    group_size: i32,
)
    requires
        0 <= light_id < group_size,
        match filter.filter_type {
            FilterType::Division => 0 <= filter.parameter2 < filter.sections(),
            FilterType::StepAndOffset => 0 <= filter.parameter1,
            FilterType::Unknown(_) => true,
        },
    ensures
        fits_i32(filter.count(group_size as int)),
        fits_i32(filter.rank(rule, light_id as int, group_size as int)),
{
    let gs = group_size as int;
    let len = filter.chunk_len(gs);
    if filter.chunked() {
        lemma_quotient_bounds(gs, filter.chunks->Some_0 as int);
    }
    lemma_quotient_bounds(gs, len);
    lemma_quotient_bounds(gs, 1);
    let index = if !filter.reversed() {
        light_id as int
    } else if rule.mirror_onto_last {
        gs - light_id - 1
    } else {
        gs - light_id
    };
    lemma_quotient_bounds(index, len);
    lemma_quotient_bounds(index, 1);
    lemma_count_fits(filter, group_size);
    let size = if rule.collapse_chunks && filter.chunked() {
        quotient(gs, len)
    } else {
        gs
    };
    let unit = if rule.collapse_chunks && filter.chunked() {
        quotient(index, len)
    } else {
        index
    };
    assert(filter.rank(rule, light_id as int, gs) == filter.rank_unit(unit, size));
    assert(0 <= size <= gs);
    assert(0 <= unit <= gs);
    match filter.filter_type {
        FilterType::Division => {
            let sections = filter.sections();
            assert(0 <= filter.parameter2 * size <= sections * size) by (nonlinear_arith)
                requires
                    0 <= filter.parameter2 < sections,
                    0 <= size,
            ;
            assert(sections * size == size * sections + 0) by (nonlinear_arith);
            lemma_quotient_of_sum(size, sections, 0);
            lemma_quotient_monotone(filter.parameter2 * size, sections * size, sections);
            lemma_quotient_bounds(filter.parameter2 * size, sections);
        },
        FilterType::StepAndOffset => {
            lemma_quotient_bounds(unit - filter.parameter1, filter.stride());
        },
        FilterType::Unknown(_) => {},
    }
}

/// The count of a `Division` filter, and of a filter of unknown type, fits in 32 bits for
/// every group size. So does the count of a `StepAndOffset` filter that does not start
/// below zero, in a group that is not negative.
pub proof fn lemma_count_fits(filter: Filter, group_size: i32)
    requires
        filter.filter_type == FilterType::StepAndOffset ==> 0 <= filter.parameter1 && 0
            <= group_size,
    ensures
        fits_i32(filter.count(group_size as int)),
        filter.filter_type == FilterType::Division ==> 1 <= filter.count(group_size as int),
{
    let gs = group_size as int;
    let len = filter.chunk_len(gs);
    lemma_quotient_bounds(gs, len);
    let size = if filter.chunked() {
        quotient(gs, len)
    } else {
        gs
    };
    assert(filter.count(gs) == filter.count_units(size));
    match filter.filter_type {
        FilterType::Division => {
            filter.lemma_section_len(size);
        },
        FilterType::StepAndOffset => {
            lemma_quotient_bounds(size, filter.stride());
            lemma_quotient_bounds(filter.parameter1 as int, filter.stride());
        },
        FilterType::Unknown(_) => {},
    }
}

} // verus!
