//! Filters as a map stores them.

use vstd::prelude::*;
use crate::filter::{Filter, FilterType, LimitBehaviour, RandomBehaviour};
use crate::scalar::Scalar;
use crate::utils::LooseBool;

verus! {

/// A filter as a map stores it: each field under its one-letter key, and each value of an
/// open enumeration as its wire value. Keys that later formats added may be absent.
#[derive(Debug, Clone, Copy, PartialEq, Eq, Structural)]
pub struct FilterRecord {
    /// The filter type.
    pub f: i32,
    /// The first parameter.
    pub p: i32,
    /// The second parameter.
    pub t: i32,
    /// Whether the filter is reversed.
    pub r: i32,
    /// The number of chunks.
    pub c: Option<i32>,
    /// The random behaviour.
    pub n: Option<i32>,
    /// The random seed.
    pub s: Option<i32>,
    /// The limit behaviour.
    pub d: Option<i32>,
    /// The limit, a fraction.
    pub l: Option<Scalar>,
}

/// Whether every value of an open enumeration in the filter is one that decoding could
/// have produced.
pub open spec fn is_canonical(filter: Filter) -> bool {
    &&& filter.filter_type.is_canonical()
    &&& filter.reverse.is_canonical()
    &&& filter.random_behaviour is Some ==> filter.random_behaviour->Some_0.is_canonical()
    &&& filter.limit_behaviour is Some ==> filter.limit_behaviour->Some_0.is_canonical()
}

/// The record of a filter.
pub open spec fn record_of(filter: Filter) -> FilterRecord {
    FilterRecord {
        f: filter.filter_type.raw_spec() as i32,
        p: filter.parameter1,
        t: filter.parameter2,
        r: filter.reverse.raw_spec() as i32,
        c: filter.chunks,
        n: match filter.random_behaviour {
            Some(behaviour) => Some(behaviour.raw_spec() as i32),
            None => None,
        },
        s: filter.random_seed,
        d: match filter.limit_behaviour {
            Some(behaviour) => Some(behaviour.raw_spec() as i32),
            None => None,
        },
        l: filter.limit_percent,
    }
}

/// The filter of a record.
pub open spec fn filter_of(record: FilterRecord) -> Filter {
    Filter {
        filter_type: FilterType::from_raw_spec(record.f),
        parameter1: record.p,
        parameter2: record.t,
        reverse: LooseBool::from_raw_spec(record.r),
        chunks: record.c,
        random_behaviour: match record.n {
            Some(raw) => Some(RandomBehaviour::from_raw_spec(raw)),
            None => None,
        },
        random_seed: record.s,
        limit_behaviour: match record.d {
            Some(raw) => Some(LimitBehaviour::from_raw_spec(raw)),
            None => None,
        },
        limit_percent: record.l,
    }
}

impl Filter {
    /// Returns the record that a map stores for this filter.
    pub fn to_record(&self) -> (record: FilterRecord)
        ensures
            record == record_of(*self),
            is_canonical(*self) ==> filter_of(record) == *self,
    {
        FilterRecord {
            f: self.filter_type.to_raw(),
            p: self.parameter1,
            t: self.parameter2,
            r: self.reverse.to_raw(),
            c: self.chunks,
            n: match self.random_behaviour {
                Some(behaviour) => Some(behaviour.to_raw()),
                None => None,
            },
            s: self.random_seed,
            d: match self.limit_behaviour {
                Some(behaviour) => Some(behaviour.to_raw()),
                None => None,
            },
            l: self.limit_percent,
        }
    }

    /// Returns the filter that a record of a map stands for. No record is refused: a
    /// value without a name is kept as `Unknown`.
    pub fn from_record(record: &FilterRecord) -> (filter: Filter)
        ensures
            filter == filter_of(*record),
            is_canonical(filter),
            record_of(filter) == *record,
    {
        Filter {
            filter_type: FilterType::from_raw(record.f),
            parameter1: record.p,
            parameter2: record.t,
            reverse: LooseBool::from_raw(record.r),
            chunks: record.c,
            random_behaviour: match record.n {
                Some(raw) => Some(RandomBehaviour::from_raw(raw)),
                None => None,
            },
            random_seed: record.s,
            limit_behaviour: match record.d {
                Some(raw) => Some(LimitBehaviour::from_raw(raw)),
                None => None,
            },
            limit_percent: record.l,
        }
    }
}

/// Writing a filter and reading it back gives the same filter, bit for bit in its limit,
/// provided that the filter is canonical. Reading a record and writing it back gives the
/// same record, always.
pub proof fn lemma_filter_round_trip(filter: Filter, record: FilterRecord)
    ensures
        is_canonical(filter) ==> filter_of(record_of(filter)) == filter,
        record_of(filter_of(record)) == record,
        is_canonical(filter_of(record)),
{
}

} // verus!
