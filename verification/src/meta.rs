//! The set-level metadata document: song info and the list of difficulty
//! files. It has one fixed flat shape, decoded strictly and mapped
//! one-to-one onto a domain value with descriptive field names.

#![allow(nonstandard_style)]

use vstd::prelude::*;

use crate::common::Difficulty;
use crate::decode::{
    field_of, get_field, get_i32_field, get_num_field, get_opt_members_field, get_opt_text_field,
    i32_field, members_default_rel, members_ok, num_field, opt_members_rel, opt_text_field,
    text_field,
};
use crate::error::{DecodeError, SchemaField};
use crate::json::{clone_members, JsonNum, JsonValue};

verus! {

/// One difficulty's entry in the metadata document, in its wire shape.
#[derive(Debug, PartialEq)]
pub struct DifficultyBeatmap {
    pub _difficulty: Difficulty,
    pub _difficultyRank: i32,
    pub _beatmapFilename: String,
    pub _noteJumpMovementSpeed: JsonNum,
    pub _noteJumpStartBeatOffset: JsonNum,
    pub _customData: Option<Vec<(String, JsonValue)>>,
}

/// One game mode's list of difficulties, in its wire shape.
#[derive(Debug, PartialEq)]
pub struct DifficultyBeatmapSet {
    pub _beatmapCharacteristicName: String,
    pub _difficultyBeatmaps: Vec<DifficultyBeatmap>,
}

/// Exact shape of the whole metadata document.
#[derive(Debug, PartialEq)]
pub struct Info {
    pub _version: String,
    pub _songName: String,
    pub _songSubName: String,
    pub _songAuthorName: String,
    pub _levelAuthorName: String,
    pub _beatsPerMinute: JsonNum,
    pub _shuffle: JsonNum,
    pub _shufflePeriod: JsonNum,
    pub _previewStartTime: JsonNum,
    pub _previewDuration: JsonNum,
    pub _songFilename: String,
    pub _coverImageFilename: String,
    pub _environmentName: String,
    pub _allDirectionsEnvironmentName: Option<String>,
    pub _songTimeOffset: JsonNum,
    pub _customData: Vec<(String, JsonValue)>,
    pub _difficultyBeatmapSets: Vec<DifficultyBeatmapSet>,
}

/// Shape of one difficulty entry.
pub open spec fn beatmap_meta_ok(v: JsonValue) -> bool {
    &&& text_field(v, "_difficulty"@) is Some
    &&& Difficulty::spec_of_name(text_field(v, "_difficulty"@)->Some_0@) is Some
    &&& i32_field(v, "_difficultyRank"@) is Some
    &&& text_field(v, "_beatmapFilename"@) is Some
    &&& num_field(v, "_noteJumpMovementSpeed"@) is Some
    &&& num_field(v, "_noteJumpStartBeatOffset"@) is Some
    &&& members_ok(v, "_customData"@)
}

/// Decode relation of one difficulty entry.
pub open spec fn beatmap_meta_rel(v: JsonValue, r: DifficultyBeatmap) -> bool {
    &&& Some(r._difficulty) == Difficulty::spec_of_name(text_field(v, "_difficulty"@)->Some_0@)
    &&& Some(r._difficultyRank) == i32_field(v, "_difficultyRank"@)
    &&& Some(r._beatmapFilename) == text_field(v, "_beatmapFilename"@)
    &&& Some(r._noteJumpMovementSpeed) == num_field(v, "_noteJumpMovementSpeed"@)
    &&& Some(r._noteJumpStartBeatOffset) == num_field(v, "_noteJumpStartBeatOffset"@)
    &&& opt_members_rel(v, "_customData"@, r._customData)
}

pub fn decode_beatmap_meta(v: &JsonValue) -> (r: Option<DifficultyBeatmap>)
    ensures
        r is Some <==> beatmap_meta_ok(*v),
        r is Some ==> beatmap_meta_rel(*v, r->Some_0),
{
    let name = match get_field(v, "_difficulty") {
        Some(JsonValue::Text(s)) => s,
        _ => {
            return None;
        },
    };
    let difficulty = match Difficulty::of_name(name) {
        Some(d) => d,
        None => {
            return None;
        },
    };
    let rank = match get_i32_field(v, "_difficultyRank") {
        Some(n) => n,
        None => {
            return None;
        },
    };
    let filename = match get_field(v, "_beatmapFilename") {
        Some(JsonValue::Text(s)) => s.clone(),
        _ => {
            return None;
        },
    };
    let speed = match get_num_field(v, "_noteJumpMovementSpeed") {
        Some(n) => n,
        None => {
            return None;
        },
    };
    let offset = match get_num_field(v, "_noteJumpStartBeatOffset") {
        Some(n) => n,
        None => {
            return None;
        },
    };
    let custom = match get_opt_members_field(v, "_customData") {
        Some(c) => c,
        None => {
            return None;
        },
    };
    Some(
        DifficultyBeatmap {
            _difficulty: difficulty,
            _difficultyRank: rank,
            _beatmapFilename: filename,
            _noteJumpMovementSpeed: speed,
            _noteJumpStartBeatOffset: offset,
            _customData: custom,
        },
    )
}

/// Shape of a whole list of difficulty entries.
pub open spec fn beatmap_metas_ok(v: JsonValue) -> bool {
    match v {
        JsonValue::Array(items) => forall|i: int|
            0 <= i < items@.len() ==> #[trigger] beatmap_meta_ok(items@[i]),
        _ => false,
    }
}

/// Decode relation of a whole list of difficulty entries.
pub open spec fn beatmap_metas_rel(v: JsonValue, out: Seq<DifficultyBeatmap>) -> bool {
    &&& out.len() == v->Array_0@.len()
    &&& forall|i: int| 0 <= i < out.len() ==> #[trigger] beatmap_meta_rel(v->Array_0@[i], out[i])
}

pub fn decode_beatmap_metas(v: &JsonValue) -> (r: Option<Vec<DifficultyBeatmap>>)
    ensures
        r is Some <==> beatmap_metas_ok(*v),
        r is Some ==> beatmap_metas_rel(*v, r->Some_0@),
{
    let items = match v {
        JsonValue::Array(items) => items,
        _ => {
            return None;
        },
    };
    let n = items.len();
    let mut out: Vec<DifficultyBeatmap> = Vec::new();
    let mut i: usize = 0;
    while i < n
        invariant
            *v is Array,
            (*v)->Array_0 == *items,
            n == items@.len(),
            i <= n,
            out@.len() == i,
            forall|j: int| 0 <= j < i ==> #[trigger] beatmap_meta_ok(items@[j]),
            forall|j: int| 0 <= j < i ==> #[trigger] beatmap_meta_rel(items@[j], out@[j]),
        decreases n - i,
    {
        match decode_beatmap_meta(&items[i]) {
            Some(e) => out.push(e),
            None => {
                return None;
            },
        }
        i = i + 1;
    }
    Some(out)
}

/// Shape of one game mode's set of difficulties.
pub open spec fn beatmap_set_ok(v: JsonValue) -> bool {
    &&& text_field(v, "_beatmapCharacteristicName"@) is Some
    &&& match field_of(v, "_difficultyBeatmaps"@) {
        Some(w) => beatmap_metas_ok(w),
        None => false,
    }
}

/// Decode relation of one game mode's set of difficulties.
pub open spec fn beatmap_set_rel(v: JsonValue, r: DifficultyBeatmapSet) -> bool {
    &&& Some(r._beatmapCharacteristicName) == text_field(v, "_beatmapCharacteristicName"@)
    &&& field_of(v, "_difficultyBeatmaps"@) is Some
    &&& beatmap_metas_rel(field_of(v, "_difficultyBeatmaps"@)->Some_0, r._difficultyBeatmaps@)
}

pub fn decode_beatmap_set(v: &JsonValue) -> (r: Option<DifficultyBeatmapSet>)
    ensures
        r is Some <==> beatmap_set_ok(*v),
        r is Some ==> beatmap_set_rel(*v, r->Some_0),
{
    let name = match get_field(v, "_beatmapCharacteristicName") {
        Some(JsonValue::Text(s)) => s.clone(),
        _ => {
            return None;
        },
    };
    let beatmaps = match get_field(v, "_difficultyBeatmaps") {
        Some(w) => match decode_beatmap_metas(w) {
            Some(l) => l,
            None => {
                return None;
            },
        },
        None => {
            return None;
        },
    };
    Some(DifficultyBeatmapSet { _beatmapCharacteristicName: name, _difficultyBeatmaps: beatmaps })
}

/// Shape of a whole list of game-mode sets.
pub open spec fn beatmap_sets_ok(v: JsonValue) -> bool {
    match v {
        JsonValue::Array(items) => forall|i: int|
            0 <= i < items@.len() ==> #[trigger] beatmap_set_ok(items@[i]),
        _ => false,
    }
}

/// Decode relation of a whole list of game-mode sets.
pub open spec fn beatmap_sets_rel(v: JsonValue, out: Seq<DifficultyBeatmapSet>) -> bool {
    &&& out.len() == v->Array_0@.len()
    &&& forall|i: int| 0 <= i < out.len() ==> #[trigger] beatmap_set_rel(v->Array_0@[i], out[i])
}

pub fn decode_beatmap_sets(v: &JsonValue) -> (r: Option<Vec<DifficultyBeatmapSet>>)
    ensures
        r is Some <==> beatmap_sets_ok(*v),
        r is Some ==> beatmap_sets_rel(*v, r->Some_0@),
{
    let items = match v {
        JsonValue::Array(items) => items,
        _ => {
            return None;
        },
    };
    let n = items.len();
    let mut out: Vec<DifficultyBeatmapSet> = Vec::new();
    let mut i: usize = 0;
    while i < n
        invariant
            *v is Array,
            (*v)->Array_0 == *items,
            n == items@.len(),
            i <= n,
            out@.len() == i,
            forall|j: int| 0 <= j < i ==> #[trigger] beatmap_set_ok(items@[j]),
            forall|j: int| 0 <= j < i ==> #[trigger] beatmap_set_rel(items@[j], out@[j]),
        decreases n - i,
    {
        match decode_beatmap_set(&items[i]) {
            Some(e) => out.push(e),
            None => {
                return None;
            },
        }
        i = i + 1;
    }
    Some(out)
}

/// Whether a document satisfies the metadata shape exactly.
pub open spec fn info_shape_ok(doc: JsonValue) -> bool {
    &&& doc is Object
    &&& text_field(doc, "_version"@) is Some
    &&& text_field(doc, "_songName"@) is Some
    &&& text_field(doc, "_songSubName"@) is Some
    &&& text_field(doc, "_songAuthorName"@) is Some
    &&& text_field(doc, "_levelAuthorName"@) is Some
    &&& num_field(doc, "_beatsPerMinute"@) is Some
    &&& num_field(doc, "_shuffle"@) is Some
    &&& num_field(doc, "_shufflePeriod"@) is Some
    &&& num_field(doc, "_previewStartTime"@) is Some
    &&& num_field(doc, "_previewDuration"@) is Some
    &&& text_field(doc, "_songFilename"@) is Some
    &&& text_field(doc, "_coverImageFilename"@) is Some
    &&& text_field(doc, "_environmentName"@) is Some
    &&& opt_text_field(doc, "_allDirectionsEnvironmentName"@) is Some
    &&& num_field(doc, "_songTimeOffset"@) is Some
    &&& members_ok(doc, "_customData"@)
    &&& match field_of(doc, "_difficultyBeatmapSets"@) {
        Some(w) => beatmap_sets_ok(w),
        None => false,
    }
}

/// Decode relation between a document and a metadata value.
pub open spec fn info_rel(doc: JsonValue, r: Info) -> bool {
    &&& Some(r._version) == text_field(doc, "_version"@)
    &&& Some(r._songName) == text_field(doc, "_songName"@)
    &&& Some(r._songSubName) == text_field(doc, "_songSubName"@)
    &&& Some(r._songAuthorName) == text_field(doc, "_songAuthorName"@)
    &&& Some(r._levelAuthorName) == text_field(doc, "_levelAuthorName"@)
    &&& Some(r._beatsPerMinute) == num_field(doc, "_beatsPerMinute"@)
    &&& Some(r._shuffle) == num_field(doc, "_shuffle"@)
    &&& Some(r._shufflePeriod) == num_field(doc, "_shufflePeriod"@)
    &&& Some(r._previewStartTime) == num_field(doc, "_previewStartTime"@)
    &&& Some(r._previewDuration) == num_field(doc, "_previewDuration"@)
    &&& Some(r._songFilename) == text_field(doc, "_songFilename"@)
    &&& Some(r._coverImageFilename) == text_field(doc, "_coverImageFilename"@)
    &&& Some(r._environmentName) == text_field(doc, "_environmentName"@)
    &&& Some(r._allDirectionsEnvironmentName) == opt_text_field(
        doc,
        "_allDirectionsEnvironmentName"@,
    )
    &&& Some(r._songTimeOffset) == num_field(doc, "_songTimeOffset"@)
    &&& members_default_rel(doc, "_customData"@, r._customData@)
    &&& field_of(doc, "_difficultyBeatmapSets"@) is Some
    &&& beatmap_sets_rel(
        field_of(doc, "_difficultyBeatmapSets"@)->Some_0,
        r._difficultyBeatmapSets@,
    )
}

impl Info {
    /// Structural decode of a metadata document.
    pub fn from_document(doc: &JsonValue) -> (r: Result<Info, DecodeError>)
        ensures
            r is Ok <==> info_shape_ok(*doc),
            r is Ok ==> info_rel(*doc, r->Ok_0),
    {
        match doc {
            JsonValue::Object(_) => (),
            _ => {
                return Err(DecodeError::NotAnObject);
            },
        }
        let version = match get_field(doc, "_version") {
            None => {
                return Err(DecodeError::MissingField(SchemaField::InfoVersion));
            },
            Some(JsonValue::Text(s)) => s.clone(),
            Some(_) => {
                return Err(DecodeError::InvalidField(SchemaField::InfoVersion));
            },
        };
        let song_name = match get_field(doc, "_songName") {
            None => {
                return Err(DecodeError::MissingField(SchemaField::SongName));
            },
            Some(JsonValue::Text(s)) => s.clone(),
            Some(_) => {
                return Err(DecodeError::InvalidField(SchemaField::SongName));
            },
        };
        let song_subname = match get_field(doc, "_songSubName") {
            None => {
                return Err(DecodeError::MissingField(SchemaField::SongSubName));
            },
            Some(JsonValue::Text(s)) => s.clone(),
            Some(_) => {
                return Err(DecodeError::InvalidField(SchemaField::SongSubName));
            },
        };
        let song_author = match get_field(doc, "_songAuthorName") {
            None => {
                return Err(DecodeError::MissingField(SchemaField::SongAuthorName));
            },
            Some(JsonValue::Text(s)) => s.clone(),
            Some(_) => {
                return Err(DecodeError::InvalidField(SchemaField::SongAuthorName));
            },
        };
        let map_author = match get_field(doc, "_levelAuthorName") {
            None => {
                return Err(DecodeError::MissingField(SchemaField::LevelAuthorName));
            },
            Some(JsonValue::Text(s)) => s.clone(),
            Some(_) => {
                return Err(DecodeError::InvalidField(SchemaField::LevelAuthorName));
            },
        };
        let bpm = match get_num_field(doc, "_beatsPerMinute") {
            Some(n) => n,
            None => {
                return Err(DecodeError::InvalidField(SchemaField::BeatsPerMinute));
            },
        };
        let shuffle = match get_num_field(doc, "_shuffle") {
            Some(n) => n,
            None => {
                return Err(DecodeError::InvalidField(SchemaField::Shuffle));
            },
        };
        let shuffle_period = match get_num_field(doc, "_shufflePeriod") {
            Some(n) => n,
            None => {
                return Err(DecodeError::InvalidField(SchemaField::ShufflePeriod));
            },
        };
        let preview_start = match get_num_field(doc, "_previewStartTime") {
            Some(n) => n,
            None => {
                return Err(DecodeError::InvalidField(SchemaField::PreviewStartTime));
            },
        };
        let preview_duration = match get_num_field(doc, "_previewDuration") {
            Some(n) => n,
            None => {
                return Err(DecodeError::InvalidField(SchemaField::PreviewDuration));
            },
        };
        let song_filename = match get_field(doc, "_songFilename") {
            None => {
                return Err(DecodeError::MissingField(SchemaField::SongFilename));
            },
            Some(JsonValue::Text(s)) => s.clone(),
            Some(_) => {
                return Err(DecodeError::InvalidField(SchemaField::SongFilename));
            },
        };
        let cover_image_filename = match get_field(doc, "_coverImageFilename") {
            None => {
                return Err(DecodeError::MissingField(SchemaField::CoverImageFilename));
            },
            Some(JsonValue::Text(s)) => s.clone(),
            Some(_) => {
                return Err(DecodeError::InvalidField(SchemaField::CoverImageFilename));
            },
        };
        let environment_name = match get_field(doc, "_environmentName") {
            None => {
                return Err(DecodeError::MissingField(SchemaField::EnvironmentName));
            },
            Some(JsonValue::Text(s)) => s.clone(),
            Some(_) => {
                return Err(DecodeError::InvalidField(SchemaField::EnvironmentName));
            },
        };
        let all_directions = match get_opt_text_field(doc, "_allDirectionsEnvironmentName") {
            Some(o) => o,
            None => {
                return Err(
                    DecodeError::InvalidField(SchemaField::AllDirectionsEnvironmentName),
                );
            },
        };
        let song_offset = match get_num_field(doc, "_songTimeOffset") {
            Some(n) => n,
            None => {
                return Err(DecodeError::InvalidField(SchemaField::SongTimeOffset));
            },
        };
        let custom = match get_opt_members_field(doc, "_customData") {
            Some(Some(m)) => m,
            Some(None) => Vec::new(),
            None => {
                return Err(DecodeError::InvalidField(SchemaField::InfoCustomData));
            },
        };
        let sets = match get_field(doc, "_difficultyBeatmapSets") {
            None => {
                return Err(DecodeError::MissingField(SchemaField::DifficultyBeatmapSets));
            },
            Some(w) => match decode_beatmap_sets(w) {
                Some(l) => l,
                None => {
                    return Err(DecodeError::InvalidField(SchemaField::DifficultyBeatmapSets));
                },
            },
        };
        Ok(
            Info {
                _version: version,
                _songName: song_name,
                _songSubName: song_subname,
                _songAuthorName: song_author,
                _levelAuthorName: map_author,
                _beatsPerMinute: bpm,
                _shuffle: shuffle,
                _shufflePeriod: shuffle_period,
                _previewStartTime: preview_start,
                _previewDuration: preview_duration,
                _songFilename: song_filename,
                _coverImageFilename: cover_image_filename,
                _environmentName: environment_name,
                _allDirectionsEnvironmentName: all_directions,
                _songTimeOffset: song_offset,
                _customData: custom,
                _difficultyBeatmapSets: sets,
            },
        )
    }
}

/// One difficulty of a set, with descriptive field names.
#[derive(Debug, PartialEq)]
pub struct BeatmapMeta {
    pub difficulty: Difficulty,
    pub rank: i32,
    pub filename: String,
    pub note_jump_speed: JsonNum,
    pub note_jump_start_beat_offset: JsonNum,
    pub custom_data: Option<Vec<(String, JsonValue)>>,
}

/// One game mode's difficulties, with descriptive field names.
#[derive(Debug, PartialEq)]
pub struct DifficultySet {
    pub game_mode: String,
    pub beatmaps: Vec<BeatmapMeta>,
}

/// Song info and the list of difficulties, independent of wire naming.
#[derive(Debug, PartialEq)]
pub struct BeatmapSetMeta {
    pub version: String,
    pub song_name: String,
    pub song_subname: String,
    pub song_author: String,
    pub map_author: String,
    pub bpm: JsonNum,
    pub shuffle: JsonNum,
    pub shuffle_period: JsonNum,
    pub preview_start: JsonNum,
    pub preview_duration: JsonNum,
    pub song_filename: String,
    pub cover_image_filename: String,
    pub environment_name: String,
    pub all_directions_environment_name: Option<String>,
    pub song_offset: JsonNum,
    pub custom_data: Vec<(String, JsonValue)>,
    pub difficulty_sets: Vec<DifficultySet>,
}

/// The one-to-one renaming of a difficulty entry.
pub open spec fn meta_of_beatmap(b: DifficultyBeatmap) -> BeatmapMeta {
    BeatmapMeta {
        difficulty: b._difficulty,
        rank: b._difficultyRank,
        filename: b._beatmapFilename,
        note_jump_speed: b._noteJumpMovementSpeed,
        note_jump_start_beat_offset: b._noteJumpStartBeatOffset,
        custom_data: b._customData,
    }
}

/// The one-to-one renaming of a game-mode set.
pub open spec fn set_converted(s: DifficultyBeatmapSet, r: DifficultySet) -> bool {
    &&& r.game_mode == s._beatmapCharacteristicName
    &&& r.beatmaps@ == s._difficultyBeatmaps@.map_values(
        |b: DifficultyBeatmap| meta_of_beatmap(b),
    )
}

/// The one-to-one renaming of the whole metadata value.
pub open spec fn meta_converted(i: Info, r: BeatmapSetMeta) -> bool {
    &&& r.version == i._version
    &&& r.song_name == i._songName
    &&& r.song_subname == i._songSubName
    &&& r.song_author == i._songAuthorName
    &&& r.map_author == i._levelAuthorName
    &&& r.bpm == i._beatsPerMinute
    &&& r.shuffle == i._shuffle
    &&& r.shuffle_period == i._shufflePeriod
    &&& r.preview_start == i._previewStartTime
    &&& r.preview_duration == i._previewDuration
    &&& r.song_filename == i._songFilename
    &&& r.cover_image_filename == i._coverImageFilename
    &&& r.environment_name == i._environmentName
    &&& r.all_directions_environment_name == i._allDirectionsEnvironmentName
    &&& r.song_offset == i._songTimeOffset
    &&& r.custom_data == i._customData
    &&& r.difficulty_sets@.len() == i._difficultyBeatmapSets@.len()
    &&& forall|j: int|
        0 <= j < r.difficulty_sets@.len() ==> set_converted(
            #[trigger] i._difficultyBeatmapSets@[j],
            r.difficulty_sets@[j],
        )
}

fn convert_beatmap_meta(b: DifficultyBeatmap) -> (r: BeatmapMeta)
    ensures
        r == meta_of_beatmap(b),
{
    BeatmapMeta {
        difficulty: b._difficulty,
        rank: b._difficultyRank,
        filename: b._beatmapFilename,
        note_jump_speed: b._noteJumpMovementSpeed,
        note_jump_start_beat_offset: b._noteJumpStartBeatOffset,
        custom_data: b._customData,
    }
}

fn convert_set(s: DifficultyBeatmapSet) -> (r: DifficultySet)
    ensures
        set_converted(s, r),
{
    let game_mode = s._beatmapCharacteristicName;
    let ghost gsrc = s._difficultyBeatmaps@;
    let mut src = s._difficultyBeatmaps;
    let mut beatmaps: Vec<BeatmapMeta> = Vec::new();
    while src.len() > 0
        invariant
            gsrc.len() == beatmaps@.len() + src@.len(),
            src@ == gsrc.skip(beatmaps@.len() as int),
            forall|t: int|
                0 <= t < beatmaps@.len() ==> beatmaps@[t] == meta_of_beatmap(#[trigger] gsrc[t]),
        decreases src@.len(),
    {
        let ghost j = beatmaps@.len() as int;
        let b = src.remove(0);
        proof {
            assert(gsrc.skip(j).remove(0) =~= gsrc.skip(j + 1));
        }
        beatmaps.push(convert_beatmap_meta(b));
    }
    proof {
        assert(beatmaps@ =~= gsrc.map_values(|b: DifficultyBeatmap| meta_of_beatmap(b)));
    }
    DifficultySet { game_mode, beatmaps }
}

impl BeatmapSetMeta {
    /// The one-to-one mapping from the wire shape onto the domain value.
    pub fn from_info(info: Info) -> (r: BeatmapSetMeta)
        ensures
            meta_converted(info, r),
    {
        let ghost gsrc = info._difficultyBeatmapSets@;
        let mut src = info._difficultyBeatmapSets;
        let mut sets: Vec<DifficultySet> = Vec::new();
        while src.len() > 0
            invariant
                gsrc.len() == sets@.len() + src@.len(),
                src@ == gsrc.skip(sets@.len() as int),
                forall|t: int|
                    0 <= t < sets@.len() ==> set_converted(#[trigger] gsrc[t], sets@[t]),
            decreases src@.len(),
        {
            let ghost j = sets@.len() as int;
            let s = src.remove(0);
            proof {
                assert(gsrc.skip(j).remove(0) =~= gsrc.skip(j + 1));
            }
            sets.push(convert_set(s));
        }
        BeatmapSetMeta {
            version: info._version,
            song_name: info._songName,
            song_subname: info._songSubName,
            song_author: info._songAuthorName,
            map_author: info._levelAuthorName,
            bpm: info._beatsPerMinute,
            shuffle: info._shuffle,
            shuffle_period: info._shufflePeriod,
            preview_start: info._previewStartTime,
            preview_duration: info._previewDuration,
            song_filename: info._songFilename,
            cover_image_filename: info._coverImageFilename,
            environment_name: info._environmentName,
            all_directions_environment_name: info._allDirectionsEnvironmentName,
            song_offset: info._songTimeOffset,
            custom_data: info._customData,
            difficulty_sets: sets,
        }
    }

    /// Decodes a metadata document and maps it onto the domain value.
    pub fn from_document(doc: &JsonValue) -> (r: Result<BeatmapSetMeta, DecodeError>)
        ensures
            r is Ok <==> info_shape_ok(*doc),
            r is Ok ==> (exists|i: Info|
                #[trigger] info_rel(*doc, i) && meta_converted(i, r->Ok_0)),
    {
        match Info::from_document(doc) {
            Ok(info) => {
                let ghost ginfo = info;
                let meta = BeatmapSetMeta::from_info(info);
                proof {
                    assert(info_rel(*doc, ginfo) && meta_converted(ginfo, meta));
                }
                Ok(meta)
            },
            Err(e) => Err(e),
        }
    }
}

} // verus!
