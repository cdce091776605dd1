//! An integer-coded boolean that keeps wire values it does not recognise.

use vstd::prelude::*;
use vstd::std_specs::convert::FromSpecImpl;

verus! {

/// An integer-coded bool: `0` is false and `1` is true. Any other wire value is kept as
/// `Unknown` so that it can be written back unchanged.
#[derive(Debug, Clone, Copy, PartialEq, Eq, Structural)]
pub enum LooseBool {
    False,
    True,
    Unknown(i32),
}

impl LooseBool {
    /// The wire value of this variant.
    pub open spec fn raw_spec(self) -> int {
        match self {
            LooseBool::False => 0,
            LooseBool::True => 1,
            LooseBool::Unknown(raw) => raw as int,
        }
    }

    /// The variant that a wire value decodes to.
    pub open spec fn from_raw_spec(raw: i32) -> LooseBool {
        if raw == 0 {
            LooseBool::False
        } else if raw == 1 {
            LooseBool::True
        } else {
            LooseBool::Unknown(raw)
        }
    }

    /// A value is canonical when decoding could have produced it: an `Unknown` never holds
    /// a code that belongs to a named variant.
    pub open spec fn is_canonical(self) -> bool {
        match self {
            LooseBool::Unknown(raw) => raw != 0 && raw != 1,
            _ => true,
        }
    }

    /// True only for `True`. An unknown value is neither true nor false.
    pub fn is_true(&self) -> (b: bool)
        ensures
            b <==> *self == LooseBool::True,
    {
        match self {
            LooseBool::False => false,
            LooseBool::True => true,
            LooseBool::Unknown(_) => false,
        }
    }

    /// True only for `False`. An unknown value is neither true nor false.
    pub fn is_false(&self) -> (b: bool)
        ensures
            b <==> *self == LooseBool::False,
    {
        match self {
            LooseBool::False => true,
            LooseBool::True => false,
            LooseBool::Unknown(_) => false,
        }
    }

    /// Decodes a wire value.
    pub fn from_raw(raw: i32) -> (b: LooseBool)
        ensures
            b == LooseBool::from_raw_spec(raw),
            b.is_canonical(),
            b.raw_spec() == raw,
    {
        if raw == 0 {
            LooseBool::False
        } else if raw == 1 {
            LooseBool::True
        } else {
            LooseBool::Unknown(raw)
        }
    }

    /// Encodes the value for the wire.
    pub fn to_raw(&self) -> (raw: i32)
        ensures
            raw == self.raw_spec(),
            self.is_canonical() ==> LooseBool::from_raw_spec(raw) == *self,
    {
        match self {
            LooseBool::False => 0,
            LooseBool::True => 1,
            LooseBool::Unknown(raw) => *raw,
        }
    }
}

impl Default for LooseBool {
    fn default() -> (b: LooseBool)
        ensures
            b == LooseBool::False,
    {
        LooseBool::False
    }
}

impl From<bool> for LooseBool {
    fn from(value: bool) -> (b: LooseBool) {
        if value {
            LooseBool::True
        } else {
            LooseBool::False
        }
    }
}

impl FromSpecImpl<bool> for LooseBool {
    open spec fn obeys_from_spec() -> bool {
        true
    }

    open spec fn from_spec(value: bool) -> LooseBool {
        if value {
            LooseBool::True
        } else {
            LooseBool::False
        }
    }
}

impl From<i32> for LooseBool {
    fn from(value: i32) -> (b: LooseBool) {
        LooseBool::from_raw(value)
    }
}

impl FromSpecImpl<i32> for LooseBool {
    open spec fn obeys_from_spec() -> bool {
        true
    }

    open spec fn from_spec(value: i32) -> LooseBool {
        LooseBool::from_raw_spec(value)
    }
}

} // verus!
