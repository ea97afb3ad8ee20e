//! Unified representation of light event box groups.
//!
//! Three structurally similar but field-incompatible lane shapes (color,
//! rotation, translation) collapse into one generic lane: `axis` and
//! `reverse` are populated only for rotation and translation lanes, and the
//! generic `dist` value comes from a per-kind source field.

use vstd::prelude::*;

use crate::common::{
    Axis, BoxFilterOrdering, DistributionKind, Easing, LightColor, LimitKind, RotationBehaviour,
    RotationDirection, TransitionKind,
};
use crate::json::JsonNum;

verus! {

/// Which fixture chunks a lane applies to, by section or by step-and-offset.
#[derive(Debug, Clone, Copy, PartialEq, Eq, Structural)]
pub enum BoxFilterSettings {
    Sections { count: i32, index: i32 },
    StepAndOffset { start: i32, skip: i32 },
}

/// Rule selecting and ordering the fixture chunks a lane covers.
#[derive(Debug, Clone, Copy, PartialEq, Eq, Structural)]
pub struct BoxFilter {
    pub chunks: i32,
    pub settings: BoxFilterSettings,
    pub reverse: bool,
    pub ordering: BoxFilterOrdering,
    pub random_seed: i32,
    pub limit: JsonNum,
    pub limit_kind: LimitKind,
}

/// One color step of a color lane.
#[derive(Debug, Clone, Copy, PartialEq, Eq, Structural)]
pub struct LightColorEvent {
    pub relative_beat: JsonNum,
    pub transition_kind: TransitionKind,
    pub color: LightColor,
    pub brightness: JsonNum,
    pub frequency: i32,
}

/// One rotation step of a rotation lane.
#[derive(Debug, Clone, Copy, PartialEq, Eq, Structural)]
pub struct LightRotationEvent {
    pub relative_beat: JsonNum,
    pub behaviour: RotationBehaviour,
    pub easing: Easing,
    pub loops: i32,
    pub amount: JsonNum,
    pub direction: RotationDirection,
}

/// One translation step of a translation lane.
#[derive(Debug, Clone, Copy, PartialEq, Eq, Structural)]
pub struct LightTranslationEvent {
    pub relative_beat: JsonNum,
    pub rotation_behaviour: RotationBehaviour,
    pub easing: Easing,
    pub amount: JsonNum,
}

/// The per-kind step list of a lane.
#[derive(Debug, PartialEq)]
pub enum LightEvents {
    Color(Vec<LightColorEvent>),
    Rotation(Vec<LightRotationEvent>),
    Translation(Vec<LightTranslationEvent>),
}

/// One lane of a light event box group, in the unified shape shared by all
/// three lane kinds. `axis` and `reverse` are present only for rotation and
/// translation lanes; this asymmetry is inherited from the source format.
#[derive(Debug, PartialEq)]
pub struct LightEventLane {
    pub filter: BoxFilter,
    pub beat_dist: JsonNum,
    pub beat_dist_kind: DistributionKind,
    pub dist: JsonNum,
    pub dist_kind: DistributionKind,
    pub dist_affects_first_event: bool,
    pub dist_easing: Option<Easing>,
    pub axis: Option<Axis>,
    pub reverse: Option<bool>,
    pub events: LightEvents,
}

/// A timestamped group of light event lanes aimed at one fixture group.
#[derive(Debug, PartialEq)]
pub struct LightEventBox {
    pub beat: JsonNum,
    pub group: i32,
    pub lanes: Vec<LightEventLane>,
}

} // verus!
