//! Events of the older, ungrouped kind that carry no single-precision quantity.

use vstd::prelude::*;

verus! {

/// An event that holds a list of special event keywords.
#[derive(Debug, Clone, PartialEq)]
pub struct SpecialEvent {
    pub keywords: Option<Vec<Keyword>>,
}

impl Default for SpecialEvent {
    /// An event without a list of keywords.
    fn default() -> (event: SpecialEvent)
        ensures
            event.keywords is None,
    {
        SpecialEvent { keywords: None }
    }
}

/// Lets an environment override lanes of basic events with behaviour of its own, by a
/// secret key.
#[derive(Debug, Clone, PartialEq)]
pub struct Keyword {
    /// The secret key of the effect.
    pub keyword: String,
    /// The types of basic events that the keyword affects.
    pub event_types: Vec<i32>,
}

impl Default for Keyword {
    /// An empty key that affects no type of event.
    fn default() -> (keyword: Keyword)
        ensures
            keyword.keyword@ == Seq::<char>::empty(),
            keyword.event_types@ == Seq::<i32>::empty(),
    {
        Keyword { keyword: String::new(), event_types: Vec::new() }
    }
}

} // verus!
