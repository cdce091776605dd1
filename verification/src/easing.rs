//! Easing curves by name.
//!
//! This module knows which curve a wire value stands for. The curves themselves are
//! functions on fractions and are evaluated by the caller.

use vstd::prelude::*;
use vstd::std_specs::convert::FromSpecImpl;

verus! {

/// A curve that maps the progress of a transition to its eased progress.
#[derive(Debug, Clone, Copy, PartialEq, Eq, Structural)]
pub enum Curve {
    Linear,
    InQuad,
    OutQuad,
    InOutQuad,
    InSine,
    OutSine,
    InOutSine,
    InCubic,
    OutCubic,
    InOutCubic,
    InQuart,
    OutQuart,
    InOutQuart,
    InQuint,
    OutQuint,
    InOutQuint,
    InExpo,
    OutExpo,
    InOutExpo,
    InCirc,
    OutCirc,
    InOutCirc,
    InBack,
    OutBack,
    InOutBack,
    InElastic,
    OutElastic,
    InOutElastic,
    InBounce,
    OutBounce,
    InOutBounce,
}

impl Curve {
    /// The position of the curve in the table of curves, from 0.
    pub open spec fn index_spec(self) -> int {
        match self {
            Curve::Linear => 0,
            Curve::InQuad => 1,
            Curve::OutQuad => 2,
            Curve::InOutQuad => 3,
            Curve::InSine => 4,
            Curve::OutSine => 5,
            Curve::InOutSine => 6,
            Curve::InCubic => 7,
            Curve::OutCubic => 8,
            Curve::InOutCubic => 9,
            Curve::InQuart => 10,
            Curve::OutQuart => 11,
            Curve::InOutQuart => 12,
            Curve::InQuint => 13,
            Curve::OutQuint => 14,
            Curve::InOutQuint => 15,
            Curve::InExpo => 16,
            Curve::OutExpo => 17,
            Curve::InOutExpo => 18,
            Curve::InCirc => 19,
            Curve::OutCirc => 20,
            Curve::InOutCirc => 21,
            Curve::InBack => 22,
            Curve::OutBack => 23,
            Curve::InOutBack => 24,
            Curve::InElastic => 25,
            Curve::OutElastic => 26,
            Curve::InOutElastic => 27,
            Curve::InBounce => 28,
            Curve::OutBounce => 29,
            Curve::InOutBounce => 30,
        }
    }

    /// The position of the curve in the table of curves, from 0.
    pub fn index(&self) -> (i: u8)
        ensures
            i == self.index_spec(),
            i <= 30,
    {
        match self {
            Curve::Linear => 0,
            Curve::InQuad => 1,
            Curve::OutQuad => 2,
            Curve::InOutQuad => 3,
            Curve::InSine => 4,
            Curve::OutSine => 5,
            Curve::InOutSine => 6,
            Curve::InCubic => 7,
            Curve::OutCubic => 8,
            Curve::InOutCubic => 9,
            Curve::InQuart => 10,
            Curve::OutQuart => 11,
            Curve::InOutQuart => 12,
            Curve::InQuint => 13,
            Curve::OutQuint => 14,
            Curve::InOutQuint => 15,
            Curve::InExpo => 16,
            Curve::OutExpo => 17,
            Curve::InOutExpo => 18,
            Curve::InCirc => 19,
            Curve::OutCirc => 20,
            Curve::InOutCirc => 21,
            Curve::InBack => 22,
            Curve::OutBack => 23,
            Curve::InOutBack => 24,
            Curve::InElastic => 25,
            Curve::OutElastic => 26,
            Curve::InOutElastic => 27,
            Curve::InBounce => 28,
            Curve::OutBounce => 29,
            Curve::InOutBounce => 30,
        }
    }
}

/// The easing of a transition, as a map names it.
#[derive(Debug, Clone, Copy, PartialEq, Eq, Structural)]
pub enum Easing {
    /// No easing: the eased progress is zero for every input.
    Disabled,
    Linear,
    InQuad,
    OutQuad,
    InOutQuad,
    InSine,
    OutSine,
    InOutSine,
    InCubic,
    OutCubic,
    InOutCubic,
    InQuart,
    OutQuart,
    InOutQuart,
    InQuint,
    OutQuint,
    InOutQuint,
    InExpo,
    OutExpo,
    InOutExpo,
    InCirc,
    OutCirc,
    InOutCirc,
    InBack,
    OutBack,
    InOutBack,
    InElastic,
    OutElastic,
    InOutElastic,
    InBounce,
    OutBounce,
    InOutBounce,
    /// The game's own name for `InOutBack`.
    BeatSaberInOutBack,
    /// The game's own name for `InOutElastic`.
    BeatSaberInOutElastic,
    /// The game's own name for `InOutBounce`.
    BeatSaberInOutBounce,
    /// A wire value this library has no name for. Its eased progress is zero for every
    /// input.
    Unknown(i32),
}

impl Easing {
    /// The wire value of this variant.
    pub open spec fn raw_spec(self) -> int {
        match self {
            Easing::Disabled => -1,
            Easing::Linear => 0,
            Easing::InQuad => 1,
            Easing::OutQuad => 2,
            Easing::InOutQuad => 3,
            Easing::InSine => 4,
            Easing::OutSine => 5,
            Easing::InOutSine => 6,
            Easing::InCubic => 7,
            Easing::OutCubic => 8,
            Easing::InOutCubic => 9,
            Easing::InQuart => 10,
            Easing::OutQuart => 11,
            Easing::InOutQuart => 12,
            Easing::InQuint => 13,
            Easing::OutQuint => 14,
            Easing::InOutQuint => 15,
            Easing::InExpo => 16,
            Easing::OutExpo => 17,
            Easing::InOutExpo => 18,
            Easing::InCirc => 19,
            Easing::OutCirc => 20,
            Easing::InOutCirc => 21,
            Easing::InBack => 22,
            Easing::OutBack => 23,
            Easing::InOutBack => 24,
            Easing::InElastic => 25,
            Easing::OutElastic => 26,
            Easing::InOutElastic => 27,
            Easing::InBounce => 28,
            Easing::OutBounce => 29,
            Easing::InOutBounce => 30,
            Easing::BeatSaberInOutBack => 100,
            Easing::BeatSaberInOutElastic => 101,
            Easing::BeatSaberInOutBounce => 102,
            Easing::Unknown(raw) => raw as int,
        }
    }

    /// Whether a wire value has a name.
    pub open spec fn is_named(raw: int) -> bool {
        -1 <= raw <= 30 || 100 <= raw <= 102
    }

    /// A value is canonical when decoding could have produced it.
    pub open spec fn is_canonical(self) -> bool {
        match self {
            Easing::Unknown(raw) => !Easing::is_named(raw as int),
            _ => true,
        }
    }

    /// The variant that a wire value decodes to: the one variant that is canonical and
    /// has this wire value.
    pub open spec fn from_raw_spec(raw: i32) -> Easing {
        if raw == -1 {
            Easing::Disabled
        } else if raw == 0 {
            Easing::Linear
        } else if raw == 1 {
            Easing::InQuad
        } else if raw == 2 {
            Easing::OutQuad
        } else if raw == 3 {
            Easing::InOutQuad
        } else if raw == 4 {
            Easing::InSine
        } else if raw == 5 {
            Easing::OutSine
        } else if raw == 6 {
            Easing::InOutSine
        } else if raw == 7 {
            Easing::InCubic
        } else if raw == 8 {
            Easing::OutCubic
        } else if raw == 9 {
            Easing::InOutCubic
        } else if raw == 10 {
            Easing::InQuart
        } else if raw == 11 {
            Easing::OutQuart
        } else if raw == 12 {
            Easing::InOutQuart
        } else if raw == 13 {
            Easing::InQuint
        } else if raw == 14 {
            Easing::OutQuint
        } else if raw == 15 {
            Easing::InOutQuint
        } else if raw == 16 {
            Easing::InExpo
        } else if raw == 17 {
            Easing::OutExpo
        } else if raw == 18 {
            Easing::InOutExpo
        } else if raw == 19 {
            Easing::InCirc
        } else if raw == 20 {
            Easing::OutCirc
        } else if raw == 21 {
            Easing::InOutCirc
        } else if raw == 22 {
            Easing::InBack
        } else if raw == 23 {
            Easing::OutBack
        } else if raw == 24 {
            Easing::InOutBack
        } else if raw == 25 {
            Easing::InElastic
        } else if raw == 26 {
            Easing::OutElastic
        } else if raw == 27 {
            Easing::InOutElastic
        } else if raw == 28 {
            Easing::InBounce
        } else if raw == 29 {
            Easing::OutBounce
        } else if raw == 30 {
            Easing::InOutBounce
        } else if raw == 100 {
            Easing::BeatSaberInOutBack
        } else if raw == 101 {
            Easing::BeatSaberInOutElastic
        } else if raw == 102 {
            Easing::BeatSaberInOutBounce
        } else {
            Easing::Unknown(raw)
        }
    }

    /// The curve that the easing names, if any. `Disabled` and unknown values name none.
    pub open spec fn curve_spec(self) -> Option<Curve> {
        match self {
            Easing::Disabled => None,
            Easing::Linear => Some(Curve::Linear),
            Easing::InQuad => Some(Curve::InQuad),
            Easing::OutQuad => Some(Curve::OutQuad),
            Easing::InOutQuad => Some(Curve::InOutQuad),
            Easing::InSine => Some(Curve::InSine),
            Easing::OutSine => Some(Curve::OutSine),
            Easing::InOutSine => Some(Curve::InOutSine),
            Easing::InCubic => Some(Curve::InCubic),
            Easing::OutCubic => Some(Curve::OutCubic),
            Easing::InOutCubic => Some(Curve::InOutCubic),
            Easing::InQuart => Some(Curve::InQuart),
            Easing::OutQuart => Some(Curve::OutQuart),
            Easing::InOutQuart => Some(Curve::InOutQuart),
            Easing::InQuint => Some(Curve::InQuint),
            Easing::OutQuint => Some(Curve::OutQuint),
            Easing::InOutQuint => Some(Curve::InOutQuint),
            Easing::InExpo => Some(Curve::InExpo),
            Easing::OutExpo => Some(Curve::OutExpo),
            Easing::InOutExpo => Some(Curve::InOutExpo),
            Easing::InCirc => Some(Curve::InCirc),
            Easing::OutCirc => Some(Curve::OutCirc),
            Easing::InOutCirc => Some(Curve::InOutCirc),
            Easing::InBack => Some(Curve::InBack),
            Easing::OutBack => Some(Curve::OutBack),
            Easing::InOutBack => Some(Curve::InOutBack),
            Easing::InElastic => Some(Curve::InElastic),
            Easing::OutElastic => Some(Curve::OutElastic),
            Easing::InOutElastic => Some(Curve::InOutElastic),
            Easing::InBounce => Some(Curve::InBounce),
            Easing::OutBounce => Some(Curve::OutBounce),
            Easing::InOutBounce => Some(Curve::InOutBounce),
            Easing::BeatSaberInOutBack => Some(Curve::InOutBack),
            Easing::BeatSaberInOutElastic => Some(Curve::InOutElastic),
            Easing::BeatSaberInOutBounce => Some(Curve::InOutBounce),
            Easing::Unknown(_) => None,
        }
    }

    /// Decodes a wire value.
    pub fn from_raw(raw: i32) -> (e: Easing)
        ensures
            e == Easing::from_raw_spec(raw),
            e.is_canonical(),
            e.raw_spec() == raw,
    {
        match raw {
            -1 => Easing::Disabled,
            0 => Easing::Linear,
            1 => Easing::InQuad,
            2 => Easing::OutQuad,
            3 => Easing::InOutQuad,
            4 => Easing::InSine,
            5 => Easing::OutSine,
            6 => Easing::InOutSine,
            7 => Easing::InCubic,
            8 => Easing::OutCubic,
            9 => Easing::InOutCubic,
            10 => Easing::InQuart,
            11 => Easing::OutQuart,
            12 => Easing::InOutQuart,
            13 => Easing::InQuint,
            14 => Easing::OutQuint,
            15 => Easing::InOutQuint,
            16 => Easing::InExpo,
            17 => Easing::OutExpo,
            18 => Easing::InOutExpo,
            19 => Easing::InCirc,
            20 => Easing::OutCirc,
            21 => Easing::InOutCirc,
            22 => Easing::InBack,
            23 => Easing::OutBack,
            24 => Easing::InOutBack,
            25 => Easing::InElastic,
            26 => Easing::OutElastic,
            27 => Easing::InOutElastic,
            28 => Easing::InBounce,
            29 => Easing::OutBounce,
            30 => Easing::InOutBounce,
            100 => Easing::BeatSaberInOutBack,
            101 => Easing::BeatSaberInOutElastic,
            102 => Easing::BeatSaberInOutBounce,
            _ => Easing::Unknown(raw),
        }
    }

    /// Encodes the value for the wire.
    pub fn to_raw(&self) -> (raw: i32)
        ensures
            raw == self.raw_spec(),
            self.is_canonical() ==> Easing::from_raw_spec(raw) == *self,
    {
        match self {
            Easing::Disabled => -1,
            Easing::Linear => 0,
            Easing::InQuad => 1,
            Easing::OutQuad => 2,
            Easing::InOutQuad => 3,
            Easing::InSine => 4,
            Easing::OutSine => 5,
            Easing::InOutSine => 6,
            Easing::InCubic => 7,
            Easing::OutCubic => 8,
            Easing::InOutCubic => 9,
            Easing::InQuart => 10,
            Easing::OutQuart => 11,
            Easing::InOutQuart => 12,
            Easing::InQuint => 13,
            Easing::OutQuint => 14,
            Easing::InOutQuint => 15,
            Easing::InExpo => 16,
            Easing::OutExpo => 17,
            Easing::InOutExpo => 18,
            Easing::InCirc => 19,
            Easing::OutCirc => 20,
            Easing::InOutCirc => 21,
            Easing::InBack => 22,
            Easing::OutBack => 23,
            Easing::InOutBack => 24,
            Easing::InElastic => 25,
            Easing::OutElastic => 26,
            Easing::InOutElastic => 27,
            Easing::InBounce => 28,
            Easing::OutBounce => 29,
            Easing::InOutBounce => 30,
            Easing::BeatSaberInOutBack => 100,
            Easing::BeatSaberInOutElastic => 101,
            Easing::BeatSaberInOutBounce => 102,
            Easing::Unknown(raw) => *raw,
        }
    }

    /// The curve to evaluate for this easing, or `None` where the eased progress is zero
    /// for every input: for `Disabled` and for unknown values.
    ///
    /// A named easing with a wire value from 0 to 30 stands for the curve at that position
    /// of the table; the game's own three names stand for the curves of `InOutBack`,
    /// `InOutElastic` and `InOutBounce`.
    pub fn curve(&self) -> (c: Option<Curve>)
        ensures
            c == self.curve_spec(),
            c is None <==> (*self == Easing::Disabled || self is Unknown),
            c is Some && self.raw_spec() <= 30 ==> c->Some_0.index_spec() == self.raw_spec(),
            c is Some && self.raw_spec() >= 100 ==> c->Some_0.index_spec() == 24 + 3 * (
            self.raw_spec() - 100),
    {
        match self {
            Easing::Disabled => None,
            Easing::Linear => Some(Curve::Linear),
            Easing::InQuad => Some(Curve::InQuad),
            Easing::OutQuad => Some(Curve::OutQuad),
            Easing::InOutQuad => Some(Curve::InOutQuad),
            Easing::InSine => Some(Curve::InSine),
            Easing::OutSine => Some(Curve::OutSine),
            Easing::InOutSine => Some(Curve::InOutSine),
            Easing::InCubic => Some(Curve::InCubic),
            Easing::OutCubic => Some(Curve::OutCubic),
            Easing::InOutCubic => Some(Curve::InOutCubic),
            Easing::InQuart => Some(Curve::InQuart),
            Easing::OutQuart => Some(Curve::OutQuart),
            Easing::InOutQuart => Some(Curve::InOutQuart),
            Easing::InQuint => Some(Curve::InQuint),
            Easing::OutQuint => Some(Curve::OutQuint),
            Easing::InOutQuint => Some(Curve::InOutQuint),
            Easing::InExpo => Some(Curve::InExpo),
            Easing::OutExpo => Some(Curve::OutExpo),
            Easing::InOutExpo => Some(Curve::InOutExpo),
            Easing::InCirc => Some(Curve::InCirc),
            Easing::OutCirc => Some(Curve::OutCirc),
            Easing::InOutCirc => Some(Curve::InOutCirc),
            Easing::InBack => Some(Curve::InBack),
            Easing::OutBack => Some(Curve::OutBack),
            Easing::InOutBack => Some(Curve::InOutBack),
            Easing::InElastic => Some(Curve::InElastic),
            Easing::OutElastic => Some(Curve::OutElastic),
            Easing::InOutElastic => Some(Curve::InOutElastic),
            Easing::InBounce => Some(Curve::InBounce),
            Easing::OutBounce => Some(Curve::OutBounce),
            Easing::InOutBounce => Some(Curve::InOutBounce),
            Easing::BeatSaberInOutBack => Some(Curve::InOutBack),
            Easing::BeatSaberInOutElastic => Some(Curve::InOutElastic),
            Easing::BeatSaberInOutBounce => Some(Curve::InOutBounce),
            Easing::Unknown(_) => None,
        }
    }
}

impl Default for Easing {
    fn default() -> (e: Easing)
        ensures
            e == Easing::Disabled,
    {
        Easing::Disabled
    }
}

impl From<i32> for Easing {
    fn from(value: i32) -> (e: Easing) {
        Easing::from_raw(value)
    }
}

impl FromSpecImpl<i32> for Easing {
    open spec fn obeys_from_spec() -> bool {
        true
    }

    open spec fn from_spec(value: i32) -> Easing {
        Easing::from_raw_spec(value)
    }
}

} // verus!
