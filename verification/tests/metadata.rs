use beatmaps::common::Difficulty;
use beatmaps::error::SchemaField;
use beatmaps::meta::{BeatmapSetMeta, Info};
use beatmaps::{DecodeError, JsonNum, JsonValue};

fn text(x: &str) -> JsonValue {
    JsonValue::Text(x.to_string())
}

fn num_f(x: f64) -> JsonValue {
    JsonValue::Number(JsonNum::FloatBits(x.to_bits()))
}

fn num_i(x: i64) -> JsonValue {
    JsonValue::Number(JsonNum::Int(x))
}

fn arr(items: Vec<JsonValue>) -> JsonValue {
    JsonValue::Array(items)
}

fn obj(pairs: Vec<(&str, JsonValue)>) -> JsonValue {
    JsonValue::Object(pairs.into_iter().map(|(k, v)| (k.to_string(), v)).collect())
}

fn difficulty_entry(name: &str, rank: i64) -> JsonValue {
    obj(vec![
        ("_difficulty", text(name)),
        ("_difficultyRank", num_i(rank)),
        ("_beatmapFilename", text("ExpertPlus.dat")),
        ("_noteJumpMovementSpeed", num_f(18.0)),
        ("_noteJumpStartBeatOffset", num_f(0.5)),
    ])
}

fn info_doc(sets: Vec<JsonValue>) -> JsonValue {
    obj(vec![
        ("_version", text("2.0.0")),
        ("_songName", text("Some Song")),
        ("_songSubName", text("")),
        ("_songAuthorName", text("Some Artist")),
        ("_levelAuthorName", text("Some Mapper")),
        ("_beatsPerMinute", num_f(128.0)),
        ("_shuffle", num_f(0.0)),
        ("_shufflePeriod", num_f(0.5)),
        ("_previewStartTime", num_f(12.0)),
        ("_previewDuration", num_f(10.0)),
        ("_songFilename", text("song.egg")),
        ("_coverImageFilename", text("cover.jpg")),
        ("_environmentName", text("DefaultEnvironment")),
        ("_songTimeOffset", num_f(0.0)),
        ("_difficultyBeatmapSets", arr(sets)),
    ])
}

#[test]
fn reading_minimal_metadata() {
    let doc = info_doc(vec![obj(vec![
        ("_beatmapCharacteristicName", text("Standard")),
        (
            "_difficultyBeatmaps",
            arr(vec![
                difficulty_entry("Easy", 1),
                difficulty_entry("ExpertPlus", 9),
            ]),
        ),
    ])]);
    let set = BeatmapSetMeta::from_document(&doc).unwrap();
    assert_eq!(set.song_name, "Some Song");
    assert_eq!(set.song_author, "Some Artist");
    assert_eq!(set.map_author, "Some Mapper");
    assert_eq!(set.bpm, JsonNum::FloatBits(128.0f64.to_bits()));
    assert_eq!(set.all_directions_environment_name, None);
    assert!(set.custom_data.is_empty());
    assert_eq!(set.difficulty_sets.len(), 1);
    let dset = &set.difficulty_sets[0];
    assert_eq!(dset.game_mode, "Standard");
    assert_eq!(dset.beatmaps.len(), 2);
    assert_eq!(dset.beatmaps[0].difficulty, Difficulty::Easy);
    assert_eq!(dset.beatmaps[0].rank, 1);
    assert_eq!(dset.beatmaps[1].difficulty, Difficulty::ExpertPlus);
    assert_eq!(dset.beatmaps[1].filename, "ExpertPlus.dat");
    assert_eq!(
        dset.beatmaps[1].note_jump_speed,
        JsonNum::FloatBits(18.0f64.to_bits())
    );
}

#[test]
fn metadata_wire_shape_is_kept_in_info() {
    let doc = info_doc(vec![]);
    let info = Info::from_document(&doc).unwrap();
    assert_eq!(info._songName, "Some Song");
    assert_eq!(info._difficultyBeatmapSets.len(), 0);
}

#[test]
fn unknown_difficulty_name_is_rejected() {
    let doc = info_doc(vec![obj(vec![
        ("_beatmapCharacteristicName", text("Standard")),
        ("_difficultyBeatmaps", arr(vec![difficulty_entry("Medium", 4)])),
    ])]);
    assert_eq!(
        BeatmapSetMeta::from_document(&doc),
        Err(DecodeError::InvalidField(SchemaField::DifficultyBeatmapSets))
    );
}

#[test]
fn missing_metadata_member_is_reported() {
    let doc = obj(vec![("_version", text("2.0.0"))]);
    assert_eq!(
        BeatmapSetMeta::from_document(&doc),
        Err(DecodeError::MissingField(SchemaField::SongName))
    );
}

#[test]
fn optional_environment_name_is_read() {
    let mut members = match info_doc(vec![]) {
        JsonValue::Object(m) => m,
        _ => unreachable!(),
    };
    members.push((
        "_allDirectionsEnvironmentName".to_string(),
        text("GlassDesertEnvironment"),
    ));
    let set = BeatmapSetMeta::from_document(&JsonValue::Object(members)).unwrap();
    assert_eq!(
        set.all_directions_environment_name,
        Some("GlassDesertEnvironment".to_string())
    );
}
