//! Errors reported when a document matches neither schema generation.

use vstd::prelude::*;

verus! {

/// A top-level member of one of the two beatmap document shapes.
#[derive(Debug, Clone, Copy, PartialEq, Eq, Structural)]
pub enum SchemaField {
    Version,
    BpmEvents,
    RotationEvents,
    ColorNotes,
    BombNotes,
    Obstacles,
    Sliders,
    BurstSliders,
    Waypoints,
    BasicBeatmapEvents,
    ColorBoostBeatmapEvents,
    LightColorEventBoxGroups,
    LightRotationEventBoxGroups,
    LightTranslationEventBoxGroups,
    BasicEventTypesWithKeywords,
    UseNormalEventsAsCompatibleEvents,
    CustomData,
    OldVersion,
    OldNotes,
    OldSliders,
    OldObstacles,
    OldEvents,
    OldWaypoints,
    InfoVersion,
    SongName,
    SongSubName,
    SongAuthorName,
    LevelAuthorName,
    BeatsPerMinute,
    Shuffle,
    ShufflePeriod,
    PreviewStartTime,
    PreviewDuration,
    SongFilename,
    CoverImageFilename,
    EnvironmentName,
    AllDirectionsEnvironmentName,
    SongTimeOffset,
    InfoCustomData,
    DifficultyBeatmapSets,
    BeatmapCharacteristicName,
    DifficultyBeatmaps,
    DifficultyName,
    DifficultyRank,
    BeatmapFilename,
    NoteJumpMovementSpeed,
    NoteJumpStartBeatOffset,
}

impl SchemaField {
    /// The member's key as it appears on the wire.
    pub open spec fn spec_text(self) -> Seq<char> {
        match self {
            SchemaField::Version => "version"@,
            SchemaField::BpmEvents => "bpmEvents"@,
            SchemaField::RotationEvents => "rotationEvents"@,
            SchemaField::ColorNotes => "colorNotes"@,
            SchemaField::BombNotes => "bombNotes"@,
            SchemaField::Obstacles => "obstacles"@,
            SchemaField::Sliders => "sliders"@,
            SchemaField::BurstSliders => "burstSliders"@,
            SchemaField::Waypoints => "waypoints"@,
            SchemaField::BasicBeatmapEvents => "basicBeatmapEvents"@,
            SchemaField::ColorBoostBeatmapEvents => "colorBoostBeatmapEvents"@,
            SchemaField::LightColorEventBoxGroups => "lightColorEventBoxGroups"@,
            SchemaField::LightRotationEventBoxGroups => "lightRotationEventBoxGroups"@,
            SchemaField::LightTranslationEventBoxGroups => "lightTranslationEventBoxGroups"@,
            SchemaField::BasicEventTypesWithKeywords => "basicEventTypesWithKeywords"@,
            SchemaField::UseNormalEventsAsCompatibleEvents => "useNormalEventsAsCompatibleEvents"@,
            SchemaField::CustomData => "customData"@,
            SchemaField::OldVersion => "_version"@,
            SchemaField::OldNotes => "_notes"@,
            SchemaField::OldSliders => "_sliders"@,
            SchemaField::OldObstacles => "_obstacles"@,
            SchemaField::OldEvents => "_events"@,
            SchemaField::OldWaypoints => "_waypoints"@,
            SchemaField::InfoVersion => "_version"@,
            SchemaField::SongName => "_songName"@,
            SchemaField::SongSubName => "_songSubName"@,
            SchemaField::SongAuthorName => "_songAuthorName"@,
            SchemaField::LevelAuthorName => "_levelAuthorName"@,
            SchemaField::BeatsPerMinute => "_beatsPerMinute"@,
            SchemaField::Shuffle => "_shuffle"@,
            SchemaField::ShufflePeriod => "_shufflePeriod"@,
            SchemaField::PreviewStartTime => "_previewStartTime"@,
            SchemaField::PreviewDuration => "_previewDuration"@,
            SchemaField::SongFilename => "_songFilename"@,
            SchemaField::CoverImageFilename => "_coverImageFilename"@,
            SchemaField::EnvironmentName => "_environmentName"@,
            SchemaField::AllDirectionsEnvironmentName => "_allDirectionsEnvironmentName"@,
            SchemaField::SongTimeOffset => "_songTimeOffset"@,
            SchemaField::InfoCustomData => "_customData"@,
            SchemaField::DifficultyBeatmapSets => "_difficultyBeatmapSets"@,
            SchemaField::BeatmapCharacteristicName => "_beatmapCharacteristicName"@,
            SchemaField::DifficultyBeatmaps => "_difficultyBeatmaps"@,
            SchemaField::DifficultyName => "_difficulty"@,
            SchemaField::DifficultyRank => "_difficultyRank"@,
            SchemaField::BeatmapFilename => "_beatmapFilename"@,
            SchemaField::NoteJumpMovementSpeed => "_noteJumpMovementSpeed"@,
            SchemaField::NoteJumpStartBeatOffset => "_noteJumpStartBeatOffset"@,
        }
    }

    pub fn text(&self) -> (r: &'static str)
        ensures
            r@ == self.spec_text(),
    {
        match self {
            SchemaField::Version => "version",
            SchemaField::BpmEvents => "bpmEvents",
            SchemaField::RotationEvents => "rotationEvents",
            SchemaField::ColorNotes => "colorNotes",
            SchemaField::BombNotes => "bombNotes",
            SchemaField::Obstacles => "obstacles",
            SchemaField::Sliders => "sliders",
            SchemaField::BurstSliders => "burstSliders",
            SchemaField::Waypoints => "waypoints",
            SchemaField::BasicBeatmapEvents => "basicBeatmapEvents",
            SchemaField::ColorBoostBeatmapEvents => "colorBoostBeatmapEvents",
            SchemaField::LightColorEventBoxGroups => "lightColorEventBoxGroups",
            SchemaField::LightRotationEventBoxGroups => "lightRotationEventBoxGroups",
            SchemaField::LightTranslationEventBoxGroups => "lightTranslationEventBoxGroups",
            SchemaField::BasicEventTypesWithKeywords => "basicEventTypesWithKeywords",
            SchemaField::UseNormalEventsAsCompatibleEvents => "useNormalEventsAsCompatibleEvents",
            SchemaField::CustomData => "customData",
            SchemaField::OldVersion => "_version",
            SchemaField::OldNotes => "_notes",
            SchemaField::OldSliders => "_sliders",
            SchemaField::OldObstacles => "_obstacles",
            SchemaField::OldEvents => "_events",
            SchemaField::OldWaypoints => "_waypoints",
            SchemaField::InfoVersion => "_version",
            SchemaField::SongName => "_songName",
            SchemaField::SongSubName => "_songSubName",
            SchemaField::SongAuthorName => "_songAuthorName",
            SchemaField::LevelAuthorName => "_levelAuthorName",
            SchemaField::BeatsPerMinute => "_beatsPerMinute",
            SchemaField::Shuffle => "_shuffle",
            SchemaField::ShufflePeriod => "_shufflePeriod",
            SchemaField::PreviewStartTime => "_previewStartTime",
            SchemaField::PreviewDuration => "_previewDuration",
            SchemaField::SongFilename => "_songFilename",
            SchemaField::CoverImageFilename => "_coverImageFilename",
            SchemaField::EnvironmentName => "_environmentName",
            SchemaField::AllDirectionsEnvironmentName => "_allDirectionsEnvironmentName",
            SchemaField::SongTimeOffset => "_songTimeOffset",
            SchemaField::InfoCustomData => "_customData",
            SchemaField::DifficultyBeatmapSets => "_difficultyBeatmapSets",
            SchemaField::BeatmapCharacteristicName => "_beatmapCharacteristicName",
            SchemaField::DifficultyBeatmaps => "_difficultyBeatmaps",
            SchemaField::DifficultyName => "_difficulty",
            SchemaField::DifficultyRank => "_difficultyRank",
            SchemaField::BeatmapFilename => "_beatmapFilename",
            SchemaField::NoteJumpMovementSpeed => "_noteJumpMovementSpeed",
            SchemaField::NoteJumpStartBeatOffset => "_noteJumpStartBeatOffset",
        }
    }
}

/// Why a structural decode attempt against one schema shape failed.
#[derive(Debug, Clone, Copy, PartialEq, Eq, Structural)]
pub enum DecodeError {
    /// The document is not a JSON object.
    NotAnObject,
    /// A required member is absent.
    MissingField(SchemaField),
    /// A member is present but has the wrong type or an unknown code.
    InvalidField(SchemaField),
}

impl DecodeError {
    /// A human-readable account of the failure.
    pub fn describe(&self) -> (r: String)
        ensures
            match self {
                DecodeError::NotAnObject => r@ == "the document is not a JSON object"@,
                DecodeError::MissingField(f) => r@ == "missing member "@ + f.spec_text(),
                DecodeError::InvalidField(f) => r@ == "ill-typed member "@ + f.spec_text(),
            },
    {
        match self {
            DecodeError::NotAnObject => String::from_str("the document is not a JSON object"),
            DecodeError::MissingField(f) => {
                let mut s = String::from_str("missing member ");
                s.append(f.text());
                s
            },
            DecodeError::InvalidField(f) => {
                let mut s = String::from_str("ill-typed member ");
                s.append(f.text());
                s
            },
        }
    }
}

/// The error returned by the schema detector: the document satisfied
/// neither shape, and each attempt's own diagnostic is kept.
#[derive(Debug, Clone, Copy, PartialEq, Eq, Structural)]
pub enum Error {
    BeatmapParsingFailed { err_as_new: DecodeError, err_as_old: DecodeError },
}

} // verus!
