//! Light-show event distribution for rhythm-game maps: which fixtures of a group an event
//! box selects, the rank of each selected fixture, and the offset that each light
//! receives on the beat axis and on the value axis.
//!
//! The crate works on integers only. Single-precision quantities of a map travel through
//! it as bit patterns ([`Scalar`]); offsets and durations are returned as terms
//! ([`OffsetTerm`], [`DurationTerm`]) that name the arithmetic left to the caller.
//!
//! - [`filter`]: selection, count and rank, and the limit of a filter.
//! - [`filter_laws`]: what holds of every filter.
//! - [`distribution`]: the offset of a light from its rank.
//! - [`group`]: boxes, groups and data in general, and the duration of a group.
//! - [`color`], [`rotation`], [`translation`], [`fx`]: the four families of events.
//! - [`fx_store`]: effect events as a map stores them.
//! - [`wire`]: filters as a map stores them.
//! - [`easing`]: easing curves by name.
//! - [`playfield`]: the direction in which a note is cut.
//! - [`utils`], [`scalar`], [`quotient`], [`basic`]: what the others build on.

pub mod basic;
pub mod color;
pub mod distribution;
pub mod easing;
pub mod filter;
pub mod filter_laws;
pub mod fx;
pub mod fx_store;
pub mod group;
pub mod playfield;
pub mod quotient;
pub mod rotation;
pub mod scalar;
pub mod translation;
pub mod utils;
pub mod wire;

pub use basic::{Keyword, SpecialEvent};
pub use color::{ColorEventBox, ColorEventData, ColorEventGroup, ColorTransitionType, LightColor};
pub use distribution::{DistributionType, OffsetTerm};
pub use easing::{Curve, Easing};
pub use filter::{
    Axis, Filter, FilterError, FilterType, FilteredSize, LimitBehaviour, RandomBehaviour, RankRule,
};
pub use fx::{FxEventBox, FxEventContainer, FxEventData, FxEventGroup};
pub use fx_store::{FxEventBoxRaw, FxEventGroupRaw, FxEventStore, MissingData};
pub use group::{
    DurationTerm, EventAxis, EventBox, EventData, EventGroup, Timed, TransitionType,
};
pub use playfield::CutDirection;
pub use rotation::{RotationDirection, RotationEventBox, RotationEventData, RotationEventGroup};
pub use scalar::Scalar;
pub use translation::{TranslationEventBox, TranslationEventData, TranslationEventGroup};
pub use utils::LooseBool;
pub use wire::FilterRecord;
