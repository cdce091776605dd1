//! The notes that a player cuts.

use vstd::prelude::*;
use vstd::std_specs::convert::FromSpecImpl;

verus! {

/// The direction in which a note is cut.
#[derive(Debug, Clone, Copy, PartialEq, Eq, Structural)]
pub enum CutDirection {
    Up,
    Down,
    Left,
    Right,
    UpLeft,
    UpRight,
    DownLeft,
    DownRight,
    /// Any direction: the note shows a dot.
    Any,
    /// A wire value this library has no name for.
    Unknown(i32),
}

impl CutDirection {
    /// The wire value of this variant.
    pub open spec fn raw_spec(self) -> int {
        match self {
            CutDirection::Up => 0,
            CutDirection::Down => 1,
            CutDirection::Left => 2,
            CutDirection::Right => 3,
            CutDirection::UpLeft => 4,
            CutDirection::UpRight => 5,
            CutDirection::DownLeft => 6,
            CutDirection::DownRight => 7,
            CutDirection::Any => 8,
            CutDirection::Unknown(raw) => raw as int,
        }
    }

    /// The variant that a wire value decodes to.
    pub open spec fn from_raw_spec(raw: i32) -> CutDirection {
        if raw == 0 {
            CutDirection::Up
        } else if raw == 1 {
            CutDirection::Down
        } else if raw == 2 {
            CutDirection::Left
        } else if raw == 3 {
            CutDirection::Right
        } else if raw == 4 {
            CutDirection::UpLeft
        } else if raw == 5 {
            CutDirection::UpRight
        } else if raw == 6 {
            CutDirection::DownLeft
        } else if raw == 7 {
            CutDirection::DownRight
        } else if raw == 8 {
            CutDirection::Any
        } else {
            CutDirection::Unknown(raw)
        }
    }

    /// A value is canonical when decoding could have produced it.
    pub open spec fn is_canonical(self) -> bool {
        match self {
            CutDirection::Unknown(raw) => !(0 <= raw <= 8),
            _ => true,
        }
    }

    /// Decodes a wire value.
    pub fn from_raw(raw: i32) -> (v: CutDirection)
        ensures
            v == CutDirection::from_raw_spec(raw),
            v.is_canonical(),
            v.raw_spec() == raw,
    {
        if raw == 0 {
            CutDirection::Up
        } else if raw == 1 {
            CutDirection::Down
        } else if raw == 2 {
            CutDirection::Left
        } else if raw == 3 {
            CutDirection::Right
        } else if raw == 4 {
            CutDirection::UpLeft
        } else if raw == 5 {
            CutDirection::UpRight
        } else if raw == 6 {
            CutDirection::DownLeft
        } else if raw == 7 {
            CutDirection::DownRight
        } else if raw == 8 {
            CutDirection::Any
        } else {
            CutDirection::Unknown(raw)
        }
    }

    /// Encodes the value for the wire.
    pub fn to_raw(&self) -> (raw: i32)
        ensures
            raw == self.raw_spec(),
            self.is_canonical() ==> CutDirection::from_raw_spec(raw) == *self,
    {
        match self {
            CutDirection::Up => 0,
            CutDirection::Down => 1,
            CutDirection::Left => 2,
            CutDirection::Right => 3,
            CutDirection::UpLeft => 4,
            CutDirection::UpRight => 5,
            CutDirection::DownLeft => 6,
            CutDirection::DownRight => 7,
            CutDirection::Any => 8,
            CutDirection::Unknown(raw) => *raw,
        }
    }

    /// The number of degrees by which a note is turned, zero being a downward note. A
    /// note that is cut in any direction, or in an unknown one, is not turned.
    pub open spec fn degrees_spec(self) -> int {
        match self {
            CutDirection::Up => 180,
            CutDirection::Down => 0,
            CutDirection::Left => -90,
            CutDirection::Right => 90,
            CutDirection::UpLeft => -135,
            CutDirection::UpRight => 135,
            CutDirection::DownLeft => -45,
            CutDirection::DownRight => 45,
            CutDirection::Any => 0,
            CutDirection::Unknown(_) => 0,
        }
    }

    /// Returns the number of whole degrees by which a note is turned, zero being a
    /// downward note.
    ///
    /// Returns zero if the cut direction is unknown or any.
    pub fn get_degrees(&self) -> (degrees: i32)
        ensures
            degrees == self.degrees_spec(),
            -180 < degrees <= 180,
            degrees % 45 == 0,
    {
        match self {
            CutDirection::Up => 180,
            CutDirection::Down => 0,
            CutDirection::Left => -90,
            CutDirection::Right => 90,
            CutDirection::UpLeft => -135,
            CutDirection::UpRight => 135,
            CutDirection::DownLeft => -45,
            CutDirection::DownRight => 45,
            CutDirection::Any => 0,
            CutDirection::Unknown(_) => 0,
        }
    }
}

impl Default for CutDirection {
    fn default() -> (v: CutDirection)
        ensures
            v == CutDirection::Up,
    {
        CutDirection::Up
    }
}

impl From<i32> for CutDirection {
    fn from(value: i32) -> (v: CutDirection) {
        CutDirection::from_raw(value)
    }
}

impl FromSpecImpl<i32> for CutDirection {
    open spec fn obeys_from_spec() -> bool {
        true
    }

    open spec fn from_spec(value: i32) -> CutDirection {
        CutDirection::from_raw_spec(value)
    }
}
} // verus!
