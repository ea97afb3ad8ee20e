//! The version-independent domain model consumers operate on.

use vstd::prelude::*;

use crate::common::{Direction, NoteColor, SliderMidAnchorMode};
use crate::json::{JsonNum, JsonValue};
use crate::lightning::LightEventBox;

verus! {

/// A BPM change.
#[derive(Debug, Clone, Copy, PartialEq, Eq, Structural)]
pub struct BPMEvent {
    pub beat: JsonNum,
    pub value: JsonNum,
}

/// A lane rotation.
#[derive(Debug, Clone, Copy, PartialEq, Eq, Structural)]
pub struct Rotation {
    pub beat: JsonNum,
    pub is_late: bool,
    pub value: JsonNum,
}

/// A colored note. Old-schema notes have no angle member, so their
/// `angle_offset` is zero.
#[derive(Debug, Clone, Copy, PartialEq, Eq, Structural)]
pub struct Note {
    pub beat: JsonNum,
    pub x: i32,
    pub y: i32,
    pub color: NoteColor,
    pub direction: Direction,
    pub angle_offset: JsonNum,
}

/// A bomb.
#[derive(Debug, Clone, Copy, PartialEq, Eq, Structural)]
pub struct Bomb {
    pub beat: JsonNum,
    pub x: i32,
    pub y: i32,
}

/// An obstacle. Old-schema obstacles carry a type code instead of explicit
/// geometry; normalization expands it to `(y, height)`.
#[derive(Debug, Clone, Copy, PartialEq, Eq, Structural)]
pub struct Obstacle {
    pub beat: JsonNum,
    pub x: i32,
    pub y: i32,
    pub duration: JsonNum,
    pub width: JsonNum,
    pub height: JsonNum,
}

/// A slider between two anchors.
#[derive(Debug, Clone, Copy, PartialEq, Eq, Structural)]
pub struct Slider {
    pub head_beat: JsonNum,
    pub color: NoteColor,
    pub head_x: i32,
    pub head_y: i32,
    pub head_direction: Direction,
    pub head_bulge: JsonNum,
    pub tail_beat: JsonNum,
    pub tail_x: i32,
    pub tail_y: i32,
    pub tail_direction: Direction,
    pub tail_bulge: JsonNum,
    pub special_curving: SliderMidAnchorMode,
}

/// A burst slider.
#[derive(Debug, Clone, Copy, PartialEq, Eq, Structural)]
pub struct BurstSlider {
    pub head_beat: JsonNum,
    pub color: NoteColor,
    pub head_x: i32,
    pub head_y: i32,
    pub head_direction: Direction,
    pub tail_beat: JsonNum,
    pub tail_x: i32,
    pub tail_y: i32,
    pub segment_count: i32,
    pub squish: JsonNum,
}

/// A basic lighting event. Custom data is carried only by old-schema
/// events; `None` means the source carried none.
#[derive(Debug, PartialEq)]
pub struct BasicEvent {
    pub beat: JsonNum,
    pub kind: i32,
    pub value: i32,
    pub float_value: Option<JsonNum>,
    pub custom_data: Option<Vec<(String, JsonValue)>>,
}

/// A color boost toggle.
#[derive(Debug, Clone, Copy, PartialEq, Eq, Structural)]
pub struct ColorBoost {
    pub beat: JsonNum,
    pub enable: bool,
}

/// One timestamped gameplay or lighting instruction: a closed set of kinds,
/// each owning exactly one payload record.
#[derive(Debug, PartialEq)]
pub enum Event {
    BPM(BPMEvent),
    Rotation(Rotation),
    Note(Note),
    Bomb(Bomb),
    Obstacle(Obstacle),
    Slider(Slider),
    BurstSlider(BurstSlider),
    BasicEvent(BasicEvent),
    ColorBoost(ColorBoost),
    LightEventBox(LightEventBox),
}

/// One playable difficulty's full event timeline, independent of the schema
/// generation it was read from.
#[derive(Debug, PartialEq)]
pub struct Beatmap {
    pub version: String,
    pub events: Vec<Event>,
    pub waypoints: Vec<JsonValue>,
    pub basic_event_types_with_keywords: Vec<(String, JsonValue)>,
    pub use_normal_events_as_compatible_events: bool,
    pub custom_data: Vec<(String, JsonValue)>,
}

} // verus!
