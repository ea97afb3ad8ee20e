//! Exact-shape models of the two on-disk schema generations.
//!
//! One struct per record kind, with the wire field names kept as they appear
//! in the files. Values pass through unchanged: numbers stay [`JsonNum`],
//! open-ended members stay decoded JSON. A member whose wire key is optional
//! and whose absence means "none" is an `Option`; an optional list or map
//! member defaults to empty.

#![allow(nonstandard_style)]

use vstd::prelude::*;

use crate::common::{
    Axis, BoxFilterKind, BoxFilterOrdering, Direction, DistributionKind, Easing, LightColor,
    LimitKind, NoteColor, RotationBehaviour, RotationDirection, SliderMidAnchorMode,
    TransitionKind,
};
use crate::json::{JsonNum, JsonValue};

verus! {

/// New-schema BPM change.
#[derive(Debug, Clone, Copy, PartialEq)]
pub struct BpmEvent {
    pub b: JsonNum,
    pub m: JsonNum,
}

/// New-schema lane rotation.
#[derive(Debug, Clone, Copy, PartialEq)]
pub struct RotationEvent {
    pub b: JsonNum,
    pub e: bool,
    pub r: JsonNum,
}

/// New-schema colored note.
#[derive(Debug, Clone, Copy, PartialEq)]
pub struct ColorNote {
    pub b: JsonNum,
    pub x: i32,
    pub y: i32,
    pub c: NoteColor,
    pub d: Direction,
    pub a: i32,
}

/// New-schema bomb.
#[derive(Debug, Clone, Copy, PartialEq)]
pub struct BombNote {
    pub b: JsonNum,
    pub x: i32,
    pub y: i32,
}

/// New-schema obstacle.
#[derive(Debug, Clone, Copy, PartialEq)]
pub struct Obstacle {
    pub b: JsonNum,
    pub x: i32,
    pub y: i32,
    pub d: JsonNum,
    pub w: JsonNum,
    pub h: JsonNum,
}

/// New-schema slider.
#[derive(Debug, Clone, Copy, PartialEq)]
pub struct Slider {
    pub b: JsonNum,
    pub c: NoteColor,
    pub x: i32,
    pub y: i32,
    pub d: Direction,
    pub mu: JsonNum,
    pub tb: JsonNum,
    pub tx: i32,
    pub ty: i32,
    pub tc: Direction,
    pub tmu: JsonNum,
    pub m: SliderMidAnchorMode,
}

/// New-schema burst slider.
#[derive(Debug, Clone, Copy, PartialEq)]
pub struct BurstSlider {
    pub b: JsonNum,
    pub c: NoteColor,
    pub x: i32,
    pub y: i32,
    pub d: Direction,
    pub tb: JsonNum,
    pub tx: i32,
    pub ty: i32,
    pub sc: i32,
    pub s: JsonNum,
}

/// New-schema basic lighting event.
#[derive(Debug, Clone, Copy, PartialEq)]
pub struct BasicBeatmapEvent {
    pub b: JsonNum,
    pub et: i32,
    pub i: i32,
    pub f: Option<JsonNum>,
}

/// New-schema color boost toggle.
#[derive(Debug, Clone, Copy, PartialEq)]
pub struct ColorBoostBeatmapEvent {
    pub b: JsonNum,
    pub o: bool,
}

/// New-schema fixture filter of a light event lane.
#[derive(Debug, Clone, Copy, PartialEq)]
pub struct FilterObject {
    pub c: i32,
    pub f: BoxFilterKind,
    pub p: i32,
    pub t: i32,
    pub r: bool,
    pub n: BoxFilterOrdering,
    pub s: i32,
    pub l: JsonNum,
    pub d: LimitKind,
}

/// New-schema light color step.
#[derive(Debug, Clone, Copy, PartialEq)]
pub struct LightColorEventData {
    pub b: JsonNum,
    pub i: TransitionKind,
    pub c: LightColor,
    pub s: JsonNum,
    pub f: i32,
}

/// New-schema light rotation step.
#[derive(Debug, Clone, Copy, PartialEq)]
pub struct LightRotationEventData {
    pub b: JsonNum,
    pub p: RotationBehaviour,
    pub l: i32,
    pub e: Easing,
    pub r: JsonNum,
    pub o: RotationDirection,
}

/// New-schema light translation step.
#[derive(Debug, Clone, Copy, PartialEq)]
pub struct LightTranslationEventData {
    pub b: JsonNum,
    pub p: RotationBehaviour,
    pub e: Easing,
    pub t: JsonNum,
}

/// New-schema color lane of a light event box group.
#[derive(Debug, PartialEq)]
pub struct LightColorEventBoxGroupLane {
    pub f: FilterObject,
    pub w: JsonNum,
    pub d: DistributionKind,
    pub r: JsonNum,
    pub t: DistributionKind,
    pub b: bool,
    pub i: Option<Easing>,
    pub e: Vec<LightColorEventData>,
}

/// New-schema rotation lane of a light event box group.
#[derive(Debug, PartialEq)]
pub struct LightRotationEventBoxGroupLane {
    pub f: FilterObject,
    pub w: JsonNum,
    pub d: DistributionKind,
    pub s: JsonNum,
    pub t: DistributionKind,
    pub b: bool,
    pub i: Option<Easing>,
    pub a: Axis,
    pub r: bool,
    pub e: Vec<LightRotationEventData>,
}

/// New-schema translation lane of a light event box group.
#[derive(Debug, PartialEq)]
pub struct LightTranslationEventBoxGroupLane {
    pub f: FilterObject,
    pub w: JsonNum,
    pub d: DistributionKind,
    pub s: JsonNum,
    pub t: DistributionKind,
    pub b: bool,
    pub i: Option<Easing>,
    pub a: Axis,
    pub r: bool,
    pub l: Vec<LightTranslationEventData>,
}

/// New-schema light color box group.
#[derive(Debug, PartialEq)]
pub struct LightColorEventBoxGroup {
    pub b: JsonNum,
    pub g: i32,
    pub e: Vec<LightColorEventBoxGroupLane>,
}

/// New-schema light rotation box group.
#[derive(Debug, PartialEq)]
pub struct LightRotationEventBoxGroup {
    pub b: JsonNum,
    pub g: i32,
    pub e: Vec<LightRotationEventBoxGroupLane>,
}

/// New-schema light translation box group.
#[derive(Debug, PartialEq)]
pub struct LightTranslationEventBoxGroup {
    pub b: JsonNum,
    pub g: i32,
    pub e: Vec<LightTranslationEventBoxGroupLane>,
}

/// A whole new-schema beatmap file.
#[derive(Debug, PartialEq)]
pub struct NewBeatmapFile {
    pub version: String,
    pub bpmEvents: Vec<BpmEvent>,
    pub rotationEvents: Vec<RotationEvent>,
    pub colorNotes: Vec<ColorNote>,
    pub bombNotes: Vec<BombNote>,
    pub obstacles: Vec<Obstacle>,
    pub sliders: Vec<Slider>,
    pub burstSliders: Vec<BurstSlider>,
    pub waypoints: Vec<JsonValue>,
    pub basicBeatmapEvents: Vec<BasicBeatmapEvent>,
    pub colorBoostBeatmapEvents: Vec<ColorBoostBeatmapEvent>,
    pub lightColorEventBoxGroups: Vec<LightColorEventBoxGroup>,
    pub lightRotationEventBoxGroups: Vec<LightRotationEventBoxGroup>,
    pub lightTranslationEventBoxGroups: Vec<LightTranslationEventBoxGroup>,
    pub basicEventTypesWithKeywords: Vec<(String, JsonValue)>,
    pub useNormalEventsAsCompatibleEvents: bool,
    pub customData: Vec<(String, JsonValue)>,
}

/// Old-schema note type code: hand color, an unused slot, or a bomb.
#[derive(Debug, Clone, Copy, PartialEq, Eq, Structural)]
pub enum OldNoteKind {
    Red,
    Blue,
    Unused,
    Bomb,
}

impl OldNoteKind {
    pub open spec fn spec_code(self) -> int {
        match self {
            OldNoteKind::Red => 0,
            OldNoteKind::Blue => 1,
            OldNoteKind::Unused => 2,
            OldNoteKind::Bomb => 3,
        }
    }

    pub open spec fn spec_of_code(c: int) -> Option<OldNoteKind> {
        if c == 0 {
            Some(OldNoteKind::Red)
        } else if c == 1 {
            Some(OldNoteKind::Blue)
        } else if c == 2 {
            Some(OldNoteKind::Unused)
        } else if c == 3 {
            Some(OldNoteKind::Bomb)
        } else {
            None
        }
    }

    pub fn of_code(c: i64) -> (r: Option<OldNoteKind>)
        ensures
            r == OldNoteKind::spec_of_code(c as int),
    {
        if c == 0 {
            Some(OldNoteKind::Red)
        } else if c == 1 {
            Some(OldNoteKind::Blue)
        } else if c == 2 {
            Some(OldNoteKind::Unused)
        } else if c == 3 {
            Some(OldNoteKind::Bomb)
        } else {
            None
        }
    }

    pub fn code(&self) -> (r: i64)
        ensures
            r == self.spec_code(),
    {
        match self {
            OldNoteKind::Red => 0,
            OldNoteKind::Blue => 1,
            OldNoteKind::Unused => 2,
            OldNoteKind::Bomb => 3,
        }
    }
}

/// Old-schema note record.
#[derive(Debug, PartialEq)]
pub struct OldNote {
    pub _time: JsonNum,
    pub _lineIndex: i32,
    pub _lineLayer: i32,
    pub _type: OldNoteKind,
    pub _cutDirection: Direction,
    pub _customData: Option<Vec<(String, JsonValue)>>,
}

/// Old-schema slider record.
#[derive(Debug, PartialEq)]
pub struct OldSlider {
    pub _colorType: NoteColor,
    pub _headTime: JsonNum,
    pub _headLineIndex: i32,
    pub _headLineLayer: i32,
    pub _headControlPointLengthMultiplier: JsonNum,
    pub _headCutDirection: Direction,
    pub _tailTime: JsonNum,
    pub _tailLineIndex: i32,
    pub _tailLineLayer: i32,
    pub _tailControlPointLengthMultiplier: JsonNum,
    pub _tailCutDirection: Direction,
    pub _sliderMidAnchorMode: SliderMidAnchorMode,
    pub _customData: Option<Vec<(String, JsonValue)>>,
}

/// Old-schema obstacle type code.
#[derive(Debug, Clone, Copy, PartialEq, Eq, Structural)]
pub enum OldObstacleKind {
    Full,
    Crouch,
}

impl OldObstacleKind {
    pub open spec fn spec_code(self) -> int {
        match self {
            OldObstacleKind::Full => 0,
            OldObstacleKind::Crouch => 1,
        }
    }

    pub open spec fn spec_of_code(c: int) -> Option<OldObstacleKind> {
        if c == 0 {
            Some(OldObstacleKind::Full)
        } else if c == 1 {
            Some(OldObstacleKind::Crouch)
        } else {
            None
        }
    }

    pub fn of_code(c: i64) -> (r: Option<OldObstacleKind>)
        ensures
            r == OldObstacleKind::spec_of_code(c as int),
    {
        if c == 0 {
            Some(OldObstacleKind::Full)
        } else if c == 1 {
            Some(OldObstacleKind::Crouch)
        } else {
            None
        }
    }

    pub fn code(&self) -> (r: i64)
        ensures
            r == self.spec_code(),
    {
        match self {
            OldObstacleKind::Full => 0,
            OldObstacleKind::Crouch => 1,
        }
    }
}

/// Old-schema obstacle record.
#[derive(Debug, PartialEq)]
pub struct OldObstacle {
    pub _time: JsonNum,
    pub _lineIndex: i32,
    pub _type: OldObstacleKind,
    pub _duration: JsonNum,
    pub _width: JsonNum,
    pub _customData: Option<Vec<(String, JsonValue)>>,
}

/// Old-schema generic event record.
#[derive(Debug, PartialEq)]
pub struct OldEvent {
    pub _time: JsonNum,
    pub _type: i32,
    pub _value: i32,
    pub _floatValue: Option<JsonNum>,
    pub _customData: Option<Vec<(String, JsonValue)>>,
}

/// A whole old-schema beatmap file.
#[derive(Debug, PartialEq)]
pub struct OldBeatmapFile {
    pub _version: String,
    pub _notes: Vec<OldNote>,
    pub _sliders: Vec<OldSlider>,
    pub _obstacles: Vec<OldObstacle>,
    pub _events: Vec<OldEvent>,
    pub _waypoints: Vec<JsonValue>,
    pub customData: Vec<(String, JsonValue)>,
}

/// A beatmap file in whichever schema generation it matched.
#[derive(Debug, PartialEq)]
pub enum BeatmapFile {
    Old(OldBeatmapFile),
    New(NewBeatmapFile),
}

} // verus!
