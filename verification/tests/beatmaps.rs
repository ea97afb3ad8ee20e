use beatmaps::common::{Axis, Difficulty, Direction, DistributionKind, Easing, NoteColor};
use beatmaps::error::SchemaField;
use beatmaps::lightning::LightEvents;
use beatmaps::primary::Event;
use beatmaps::schema::{BeatmapFile, OldNoteKind, OldObstacleKind};
use beatmaps::{Beatmap, DecodeError, Error, JsonNum, JsonValue};

fn text(x: &str) -> JsonValue {
    JsonValue::Text(x.to_string())
}

fn num_f(x: f64) -> JsonValue {
    JsonValue::Number(JsonNum::FloatBits(x.to_bits()))
}

fn num_i(x: i64) -> JsonValue {
    JsonValue::Number(JsonNum::Int(x))
}

fn arr(items: Vec<JsonValue>) -> JsonValue {
    JsonValue::Array(items)
}

fn obj(pairs: Vec<(&str, JsonValue)>) -> JsonValue {
    JsonValue::Object(pairs.into_iter().map(|(k, v)| (k.to_string(), v)).collect())
}

fn as_f64(n: &JsonNum) -> f64 {
    match n {
        JsonNum::Int(i) => *i as f64,
        JsonNum::UInt(u) => *u as f64,
        JsonNum::FloatBits(b) => f64::from_bits(*b),
    }
}

/// The required members of a minimal new-schema document, with every list
/// empty; callers override the lists they care about.
fn new_doc_members() -> Vec<(&'static str, JsonValue)> {
    vec![
        ("version", text("3.2.0")),
        ("bpmEvents", arr(vec![])),
        ("rotationEvents", arr(vec![])),
        ("colorNotes", arr(vec![])),
        ("bombNotes", arr(vec![])),
        ("obstacles", arr(vec![])),
        ("sliders", arr(vec![])),
        ("burstSliders", arr(vec![])),
        ("waypoints", arr(vec![])),
        ("basicBeatmapEvents", arr(vec![])),
        ("colorBoostBeatmapEvents", arr(vec![])),
        ("lightColorEventBoxGroups", arr(vec![])),
        ("lightRotationEventBoxGroups", arr(vec![])),
        ("useNormalEventsAsCompatibleEvents", JsonValue::Boolean(true)),
    ]
}

fn new_doc_with(overrides: Vec<(&'static str, JsonValue)>) -> JsonValue {
    let mut members = new_doc_members();
    for (k, v) in overrides {
        if let Some(slot) = members.iter_mut().find(|(mk, _)| *mk == k) {
            slot.1 = v;
        } else {
            members.push((k, v));
        }
    }
    obj(members)
}

fn old_doc_with(overrides: Vec<(&'static str, JsonValue)>) -> JsonValue {
    let mut members = vec![
        ("_version", text("2.6.0")),
        ("_notes", arr(vec![])),
        ("_sliders", arr(vec![])),
        ("_obstacles", arr(vec![])),
        ("_events", arr(vec![])),
    ];
    for (k, v) in overrides {
        if let Some(slot) = members.iter_mut().find(|(mk, _)| *mk == k) {
            slot.1 = v;
        } else {
            members.push((k, v));
        }
    }
    obj(members)
}

fn color_note(b: f64, x: i64, y: i64, c: i64, d: i64, a: i64) -> JsonValue {
    obj(vec![
        ("b", num_f(b)),
        ("x", num_i(x)),
        ("y", num_i(y)),
        ("c", num_i(c)),
        ("d", num_i(d)),
        ("a", num_i(a)),
    ])
}

fn old_note(t: f64, x: i64, y: i64, kind: i64, dir: i64) -> JsonValue {
    obj(vec![
        ("_time", num_f(t)),
        ("_lineIndex", num_i(x)),
        ("_lineLayer", num_i(y)),
        ("_type", num_i(kind)),
        ("_cutDirection", num_i(dir)),
    ])
}

fn filter_obj() -> JsonValue {
    obj(vec![
        ("c", num_i(1)),
        ("f", num_i(1)),
        ("p", num_i(1)),
        ("t", num_i(0)),
        ("r", JsonValue::Boolean(false)),
        ("n", num_i(0)),
        ("s", num_i(0)),
        ("l", num_f(0.0)),
        ("d", num_i(0)),
    ])
}

fn color_lane(r_dist: f64) -> JsonValue {
    obj(vec![
        ("f", filter_obj()),
        ("w", num_f(1.0)),
        ("d", num_i(1)),
        ("r", num_f(r_dist)),
        ("t", num_i(1)),
        ("b", JsonValue::Boolean(true)),
        (
            "e",
            arr(vec![obj(vec![
                ("b", num_f(0.0)),
                ("i", num_i(0)),
                ("c", num_i(1)),
                ("s", num_f(1.0)),
                ("f", num_i(0)),
            ])]),
        ),
    ])
}

fn rotation_lane(s_dist: f64, axis: i64, reverse: bool) -> JsonValue {
    obj(vec![
        ("f", filter_obj()),
        ("w", num_f(1.0)),
        ("d", num_i(1)),
        ("s", num_f(s_dist)),
        ("t", num_i(2)),
        ("b", JsonValue::Boolean(false)),
        ("a", num_i(axis)),
        ("r", JsonValue::Boolean(reverse)),
        (
            "e",
            arr(vec![obj(vec![
                ("b", num_f(0.0)),
                ("p", num_i(0)),
                ("l", num_i(1)),
                ("e", num_i(-1)),
                ("r", num_f(90.0)),
                ("o", num_i(1)),
            ])]),
        ),
    ])
}

#[test]
fn scenario_new_single_color_note() {
    let doc = new_doc_with(vec![("colorNotes", arr(vec![color_note(4.0, 1, 0, 0, 1, 0)]))]);
    let map = Beatmap::from_document(&doc).unwrap();
    assert_eq!(map.events.len(), 1);
    match &map.events[0] {
        Event::Note(n) => {
            assert_eq!(as_f64(&n.beat), 4.0);
            assert_eq!(n.x, 1);
            assert_eq!(n.y, 0);
            assert_eq!(n.color, NoteColor::Red);
            assert_eq!(n.direction, Direction::Down);
            assert_eq!(as_f64(&n.angle_offset), 0.0);
        }
        other => panic!("expected a note event, got {:?}", other),
    }
    assert_eq!(map.version, "3.2.0");
    assert!(map.use_normal_events_as_compatible_events);
}

#[test]
fn scenario_old_single_bomb() {
    let doc = old_doc_with(vec![("_notes", arr(vec![old_note(2.0, 0, 0, 3, 0)]))]);
    let map = Beatmap::from_document(&doc).unwrap();
    assert_eq!(map.events.len(), 1);
    match &map.events[0] {
        Event::Bomb(b) => {
            assert_eq!(as_f64(&b.beat), 2.0);
            assert_eq!(b.x, 0);
            assert_eq!(b.y, 0);
        }
        other => panic!("expected a bomb event, got {:?}", other),
    }
    assert!(map.use_normal_events_as_compatible_events);
    assert!(map.basic_event_types_with_keywords.is_empty());
}

/// A document whose members satisfy both shapes at once.
fn ambiguous_doc() -> JsonValue {
    let mut members = new_doc_members();
    members.push(("_version", text("2.6.0")));
    members.push(("_notes", arr(vec![old_note(1.0, 0, 0, 0, 1)])));
    members.push(("_obstacles", arr(vec![])));
    members.push(("_events", arr(vec![])));
    obj(members)
}

#[test]
fn scenario_both_shapes_resolves_to_new() {
    let file = BeatmapFile::from_document(&ambiguous_doc()).unwrap();
    assert!(matches!(file, BeatmapFile::New(_)));
}

#[test]
fn both_shapes_normalizes_as_new() {
    // The old-shape members of the ambiguous document would contribute a
    // note; resolved as new, the (empty) new-schema lists win.
    let map = Beatmap::from_document(&ambiguous_doc()).unwrap();
    assert_eq!(map.events.len(), 0);
    assert_eq!(map.version, "3.2.0");
}

#[test]
fn neither_shape_carries_both_diagnostics() {
    let doc = obj(vec![("something", num_i(1))]);
    match Beatmap::from_document(&doc) {
        Err(Error::BeatmapParsingFailed {
            err_as_new,
            err_as_old,
        }) => {
            assert_eq!(err_as_new, DecodeError::MissingField(SchemaField::Version));
            assert_eq!(err_as_old, DecodeError::MissingField(SchemaField::OldVersion));
            assert_ne!(err_as_new.describe(), err_as_old.describe());
            assert_eq!(err_as_new.describe(), "missing member version");
            assert_eq!(err_as_old.describe(), "missing member _version");
        }
        other => panic!("expected a parsing failure, got {:?}", other),
    }
}

#[test]
fn non_object_document_is_rejected() {
    match Beatmap::from_document(&arr(vec![])) {
        Err(Error::BeatmapParsingFailed {
            err_as_new,
            err_as_old,
        }) => {
            assert_eq!(err_as_new, DecodeError::NotAnObject);
            assert_eq!(err_as_old, DecodeError::NotAnObject);
        }
        other => panic!("expected a parsing failure, got {:?}", other),
    }
}

#[test]
fn ill_typed_member_is_reported() {
    let doc = new_doc_with(vec![("colorNotes", num_i(5))]);
    match BeatmapFile::from_document(&doc) {
        Err(Error::BeatmapParsingFailed { err_as_new, .. }) => {
            assert_eq!(err_as_new, DecodeError::InvalidField(SchemaField::ColorNotes));
        }
        other => panic!("expected a parsing failure, got {:?}", other),
    }
}

#[test]
fn unused_notes_are_filtered() {
    let doc = old_doc_with(vec![(
        "_notes",
        arr(vec![
            old_note(1.0, 0, 0, 0, 1),
            old_note(2.0, 1, 0, 2, 0),
            old_note(3.0, 2, 0, 1, 8),
            old_note(4.0, 3, 0, 2, 0),
        ]),
    )]);
    let map = Beatmap::from_document(&doc).unwrap();
    assert_eq!(map.events.len(), 2);
    match (&map.events[0], &map.events[1]) {
        (Event::Note(a), Event::Note(b)) => {
            assert_eq!(a.color, NoteColor::Red);
            assert_eq!(as_f64(&a.beat), 1.0);
            assert_eq!(b.color, NoteColor::Blue);
            assert_eq!(as_f64(&b.beat), 3.0);
            assert_eq!(b.direction, Direction::Any);
        }
        other => panic!("expected two note events, got {:?}", other),
    }
}

fn old_obstacle(t: f64, x: i64, kind: i64, d: f64, w: f64) -> JsonValue {
    obj(vec![
        ("_time", num_f(t)),
        ("_lineIndex", num_i(x)),
        ("_type", num_i(kind)),
        ("_duration", num_f(d)),
        ("_width", num_f(w)),
    ])
}

#[test]
fn obstacle_kind_expansion() {
    let doc = old_doc_with(vec![(
        "_obstacles",
        arr(vec![
            old_obstacle(1.0, 0, 0, 2.0, 1.0),
            old_obstacle(2.0, 1, 0, 2.0, 4.0),
            old_obstacle(3.0, 2, 1, 2.0, 1.5),
            old_obstacle(4.0, 3, 1, 2.0, 2.5),
        ]),
    )]);
    let map = Beatmap::from_document(&doc).unwrap();
    assert_eq!(map.events.len(), 4);
    for (i, expected_y, expected_h, expected_w) in
        [(0, 0, 5.0, 1.0), (1, 0, 5.0, 4.0), (2, 2, 2.0, 1.5), (3, 2, 2.0, 2.5)]
    {
        match &map.events[i] {
            Event::Obstacle(o) => {
                assert_eq!(o.y, expected_y);
                assert_eq!(as_f64(&o.height), expected_h);
                assert_eq!(as_f64(&o.width), expected_w);
            }
            other => panic!("expected an obstacle event, got {:?}", other),
        }
    }
}

#[test]
fn new_schema_event_count_is_preserved() {
    let doc = new_doc_with(vec![
        (
            "bpmEvents",
            arr(vec![
                obj(vec![("b", num_f(0.0)), ("m", num_f(128.0))]),
                obj(vec![("b", num_f(8.0)), ("m", num_f(140.0))]),
            ]),
        ),
        (
            "colorNotes",
            arr(vec![
                color_note(1.0, 0, 0, 0, 1, 0),
                color_note(2.0, 1, 0, 1, 0, 15),
                color_note(3.0, 2, 0, 0, 8, 0),
            ]),
        ),
        (
            "bombNotes",
            arr(vec![obj(vec![("b", num_f(2.5)), ("x", num_i(2)), ("y", num_i(1))])]),
        ),
        (
            "colorBoostBeatmapEvents",
            arr(vec![obj(vec![("b", num_f(1.0)), ("o", JsonValue::Boolean(true))])]),
        ),
        (
            "lightColorEventBoxGroups",
            arr(vec![obj(vec![
                ("b", num_f(1.0)),
                ("g", num_i(0)),
                ("e", arr(vec![color_lane(2.0)])),
            ])]),
        ),
        (
            "lightRotationEventBoxGroups",
            arr(vec![obj(vec![
                ("b", num_f(2.0)),
                ("g", num_i(1)),
                ("e", arr(vec![rotation_lane(7.5, 2, true)])),
            ])]),
        ),
    ]);
    let map = Beatmap::from_document(&doc).unwrap();
    // 2 bpm + 3 notes + 1 bomb + 1 boost + 1 color group + 1 rotation group.
    assert_eq!(map.events.len(), 9);
}

#[test]
fn rotation_lane_mapping() {
    let doc = new_doc_with(vec![(
        "lightRotationEventBoxGroups",
        arr(vec![obj(vec![
            ("b", num_f(2.0)),
            ("g", num_i(3)),
            ("e", arr(vec![rotation_lane(7.5, 2, true)])),
        ])]),
    )]);
    let map = Beatmap::from_document(&doc).unwrap();
    assert_eq!(map.events.len(), 1);
    match &map.events[0] {
        Event::LightEventBox(bx) => {
            assert_eq!(as_f64(&bx.beat), 2.0);
            assert_eq!(bx.group, 3);
            assert_eq!(bx.lanes.len(), 1);
            let lane = &bx.lanes[0];
            assert_eq!(as_f64(&lane.dist), 7.5);
            assert_eq!(lane.axis, Some(Axis::Z));
            assert_eq!(lane.reverse, Some(true));
            assert_eq!(lane.beat_dist_kind, DistributionKind::Wave);
            assert_eq!(lane.dist_kind, DistributionKind::Step);
            assert_eq!(lane.dist_easing, None);
            match &lane.events {
                LightEvents::Rotation(steps) => {
                    assert_eq!(steps.len(), 1);
                    assert_eq!(as_f64(&steps[0].amount), 90.0);
                    assert_eq!(steps[0].easing, Easing::NoEasing);
                }
                other => panic!("expected rotation steps, got {:?}", other),
            }
        }
        other => panic!("expected a light event box, got {:?}", other),
    }
}

#[test]
fn color_lane_mapping() {
    let doc = new_doc_with(vec![(
        "lightColorEventBoxGroups",
        arr(vec![obj(vec![
            ("b", num_f(1.0)),
            ("g", num_i(0)),
            ("e", arr(vec![color_lane(3.25)])),
        ])]),
    )]);
    let map = Beatmap::from_document(&doc).unwrap();
    match &map.events[0] {
        Event::LightEventBox(bx) => {
            let lane = &bx.lanes[0];
            assert_eq!(as_f64(&lane.dist), 3.25);
            assert_eq!(lane.axis, None);
            assert_eq!(lane.reverse, None);
            assert!(lane.dist_affects_first_event);
            assert!(matches!(&lane.events, LightEvents::Color(steps) if steps.len() == 1));
        }
        other => panic!("expected a light event box, got {:?}", other),
    }
}

#[test]
fn pass_through_members_are_kept() {
    let doc = new_doc_with(vec![
        ("waypoints", arr(vec![text("w1"), num_i(7)])),
        ("customData", obj(vec![("k", num_i(1)), ("nested", obj(vec![("x", text("y"))]))])),
        ("basicEventTypesWithKeywords", obj(vec![("kw", arr(vec![num_i(1)]))])),
    ]);
    let map = Beatmap::from_document(&doc).unwrap();
    assert_eq!(map.waypoints, vec![text("w1"), num_i(7)]);
    assert_eq!(map.custom_data.len(), 2);
    assert_eq!(map.custom_data[0], ("k".to_string(), num_i(1)));
    assert_eq!(
        map.custom_data[1],
        ("nested".to_string(), obj(vec![("x", text("y"))]))
    );
    assert_eq!(map.basic_event_types_with_keywords.len(), 1);
}

#[test]
fn unknown_members_are_ignored() {
    let doc = new_doc_with(vec![("somebodyElses", text("extension"))]);
    assert!(Beatmap::from_document(&doc).is_ok());
}

#[test]
fn integer_members_reject_out_of_range_values() {
    let doc = new_doc_with(vec![(
        "colorNotes",
        arr(vec![color_note(1.0, 2147483648, 0, 0, 1, 0)]),
    )]);
    match BeatmapFile::from_document(&doc) {
        Err(Error::BeatmapParsingFailed { err_as_new, .. }) => {
            assert_eq!(err_as_new, DecodeError::InvalidField(SchemaField::ColorNotes));
        }
        other => panic!("expected a parsing failure, got {:?}", other),
    }
}

#[test]
fn unknown_enum_code_rejects_the_record() {
    let doc = new_doc_with(vec![("colorNotes", arr(vec![color_note(1.0, 0, 0, 9, 1, 0)]))]);
    assert!(BeatmapFile::from_document(&doc).is_err());
}

#[test]
fn integer_beats_pass_through_exactly() {
    let doc = new_doc_with(vec![(
        "bpmEvents",
        arr(vec![obj(vec![("b", num_i(4)), ("m", num_f(128.0))])]),
    )]);
    let map = Beatmap::from_document(&doc).unwrap();
    match &map.events[0] {
        Event::BPM(e) => {
            assert_eq!(e.beat, JsonNum::Int(4));
            assert_eq!(e.value, JsonNum::FloatBits(128.0f64.to_bits()));
        }
        other => panic!("expected a bpm event, got {:?}", other),
    }
}

#[test]
fn old_event_custom_data_is_kept() {
    let doc = old_doc_with(vec![(
        "_events",
        arr(vec![obj(vec![
            ("_time", num_f(1.0)),
            ("_type", num_i(5)),
            ("_value", num_i(3)),
            ("_customData", obj(vec![("lightID", num_i(7))])),
        ])]),
    )]);
    let map = Beatmap::from_document(&doc).unwrap();
    match &map.events[0] {
        Event::BasicEvent(e) => {
            assert_eq!(e.kind, 5);
            assert_eq!(e.value, 3);
            assert_eq!(e.float_value, None);
            let cd = e.custom_data.as_ref().unwrap();
            assert_eq!(cd[0], ("lightID".to_string(), num_i(7)));
        }
        other => panic!("expected a basic event, got {:?}", other),
    }
}

#[test]
fn old_category_order_is_fixed() {
    let doc = old_doc_with(vec![
        ("_notes", arr(vec![old_note(9.0, 0, 0, 0, 1)])),
        ("_obstacles", arr(vec![old_obstacle(1.0, 0, 0, 2.0, 1.0)])),
        (
            "_events",
            arr(vec![obj(vec![
                ("_time", num_f(0.5)),
                ("_type", num_i(0)),
                ("_value", num_i(1)),
            ])]),
        ),
    ]);
    let map = Beatmap::from_document(&doc).unwrap();
    assert_eq!(map.events.len(), 3);
    assert!(matches!(map.events[0], Event::Note(_)));
    assert!(matches!(map.events[1], Event::Obstacle(_)));
    assert!(matches!(map.events[2], Event::BasicEvent(_)));
}

#[test]
fn enumeration_code_tables() {
    assert_eq!(NoteColor::of_code(0), Some(NoteColor::Red));
    assert_eq!(NoteColor::of_code(1), Some(NoteColor::Blue));
    assert_eq!(NoteColor::of_code(2), None);
    assert_eq!(NoteColor::Blue.code(), 1);
    assert_eq!(Direction::of_code(8), Some(Direction::Any));
    assert_eq!(Direction::of_code(9), None);
    assert_eq!(Easing::of_code(-1), Some(Easing::NoEasing));
    assert_eq!(Easing::of_code(3), Some(Easing::EaseInOutQuad));
    assert_eq!(Easing::of_code(4), None);
    assert_eq!(DistributionKind::of_code(0), None);
    assert_eq!(DistributionKind::of_code(1), Some(DistributionKind::Wave));
    assert_eq!(DistributionKind::of_code(2), Some(DistributionKind::Step));
    assert_eq!(OldNoteKind::of_code(2), Some(OldNoteKind::Unused));
    assert_eq!(OldNoteKind::of_code(3), Some(OldNoteKind::Bomb));
    assert_eq!(OldObstacleKind::of_code(0), Some(OldObstacleKind::Full));
    assert_eq!(OldObstacleKind::of_code(1), Some(OldObstacleKind::Crouch));
    assert_eq!(Axis::of_code(2), Some(Axis::Z));
}

#[test]
fn difficulty_ranks() {
    assert_eq!(Difficulty::Easy.rank(), 1);
    assert_eq!(Difficulty::Normal.rank(), 3);
    assert_eq!(Difficulty::Hard.rank(), 5);
    assert_eq!(Difficulty::Expert.rank(), 7);
    assert_eq!(Difficulty::ExpertPlus.rank(), 9);
}

#[test]
fn old_waypoints_default_empty() {
    let doc = old_doc_with(vec![]);
    let map = Beatmap::from_document(&doc).unwrap();
    assert!(map.waypoints.is_empty());
    assert!(map.custom_data.is_empty());

    let doc2 = old_doc_with(vec![("_waypoints", arr(vec![num_i(1)]))]);
    let map2 = Beatmap::from_document(&doc2).unwrap();
    assert_eq!(map2.waypoints, vec![num_i(1)]);
}

#[test]
fn missing_required_member_fails_even_with_defaulted_ones() {
    // useNormalEventsAsCompatibleEvents is required in the new shape.
    let mut members = new_doc_members();
    members.retain(|(k, _)| *k != "useNormalEventsAsCompatibleEvents");
    match BeatmapFile::from_document(&obj(members)) {
        Err(Error::BeatmapParsingFailed { err_as_new, .. }) => {
            assert_eq!(
                err_as_new,
                DecodeError::MissingField(SchemaField::UseNormalEventsAsCompatibleEvents)
            );
        }
        other => panic!("expected a parsing failure, got {:?}", other),
    }
}

fn old_slider(color: i64, head: f64, tail: f64) -> JsonValue {
    obj(vec![
        ("_colorType", num_i(color)),
        ("_headTime", num_f(head)),
        ("_headLineIndex", num_i(1)),
        ("_headLineLayer", num_i(0)),
        ("_headControlPointLengthMultiplier", num_f(1.5)),
        ("_headCutDirection", num_i(1)),
        ("_tailTime", num_f(tail)),
        ("_tailLineIndex", num_i(2)),
        ("_tailLineLayer", num_i(2)),
        ("_tailControlPointLengthMultiplier", num_f(0.5)),
        ("_tailCutDirection", num_i(0)),
        ("_sliderMidAnchorMode", num_i(2)),
    ])
}

#[test]
fn old_slider_field_mapping() {
    let doc = old_doc_with(vec![("_sliders", arr(vec![old_slider(1, 2.0, 4.0)]))]);
    let map = Beatmap::from_document(&doc).unwrap();
    assert_eq!(map.events.len(), 1);
    match &map.events[0] {
        Event::Slider(s) => {
            assert_eq!(s.color, NoteColor::Blue);
            assert_eq!(as_f64(&s.head_beat), 2.0);
            assert_eq!(s.head_x, 1);
            assert_eq!(s.head_y, 0);
            assert_eq!(s.head_direction, Direction::Down);
            assert_eq!(as_f64(&s.head_bulge), 1.5);
            assert_eq!(as_f64(&s.tail_beat), 4.0);
            assert_eq!(s.tail_x, 2);
            assert_eq!(s.tail_y, 2);
            assert_eq!(s.tail_direction, Direction::Up);
            assert_eq!(as_f64(&s.tail_bulge), 0.5);
            assert_eq!(
                s.special_curving,
                beatmaps::common::SliderMidAnchorMode::CounterClockwise
            );
        }
        other => panic!("expected a slider event, got {:?}", other),
    }
}

#[test]
fn basic_event_optional_float_value() {
    let doc = new_doc_with(vec![(
        "basicBeatmapEvents",
        arr(vec![
            obj(vec![
                ("b", num_f(1.0)),
                ("et", num_i(2)),
                ("i", num_i(3)),
                ("f", JsonValue::Null),
            ]),
            obj(vec![
                ("b", num_f(2.0)),
                ("et", num_i(2)),
                ("i", num_i(3)),
                ("f", num_f(0.75)),
            ]),
            obj(vec![("b", num_f(3.0)), ("et", num_i(2)), ("i", num_i(3))]),
        ]),
    )]);
    let map = Beatmap::from_document(&doc).unwrap();
    assert_eq!(map.events.len(), 3);
    match (&map.events[0], &map.events[1], &map.events[2]) {
        (Event::BasicEvent(a), Event::BasicEvent(b), Event::BasicEvent(c)) => {
            assert_eq!(a.float_value, None);
            assert_eq!(b.float_value, Some(JsonNum::FloatBits(0.75f64.to_bits())));
            assert_eq!(c.float_value, None);
            assert_eq!(a.custom_data, None);
        }
        other => panic!("expected basic events, got {:?}", other),
    }
}

#[test]
fn new_obstacles_keep_explicit_geometry() {
    let doc = new_doc_with(vec![(
        "obstacles",
        arr(vec![obj(vec![
            ("b", num_f(1.0)),
            ("x", num_i(0)),
            ("y", num_i(1)),
            ("d", num_f(2.0)),
            ("w", num_f(3.0)),
            ("h", num_f(4.0)),
        ])]),
    )]);
    let map = Beatmap::from_document(&doc).unwrap();
    match &map.events[0] {
        Event::Obstacle(o) => {
            assert_eq!(o.y, 1);
            assert_eq!(as_f64(&o.height), 4.0);
            assert_eq!(as_f64(&o.width), 3.0);
        }
        other => panic!("expected an obstacle event, got {:?}", other),
    }
}

#[test]
fn translation_group_lane_mapping() {
    let lane = obj(vec![
        ("f", filter_obj()),
        ("w", num_f(1.0)),
        ("d", num_i(1)),
        ("s", num_f(0.25)),
        ("t", num_i(1)),
        ("b", JsonValue::Boolean(true)),
        ("i", num_i(2)),
        ("a", num_i(0)),
        ("r", JsonValue::Boolean(false)),
        (
            "l",
            arr(vec![obj(vec![
                ("b", num_f(0.0)),
                ("p", num_i(1)),
                ("e", num_i(0)),
                ("t", num_f(0.5)),
            ])]),
        ),
    ]);
    let doc = new_doc_with(vec![(
        "lightTranslationEventBoxGroups",
        arr(vec![obj(vec![
            ("b", num_f(5.0)),
            ("g", num_i(2)),
            ("e", arr(vec![lane])),
        ])]),
    )]);
    let map = Beatmap::from_document(&doc).unwrap();
    assert_eq!(map.events.len(), 1);
    match &map.events[0] {
        Event::LightEventBox(bx) => {
            let lane = &bx.lanes[0];
            assert_eq!(as_f64(&lane.dist), 0.25);
            assert_eq!(lane.axis, Some(Axis::X));
            assert_eq!(lane.reverse, Some(false));
            assert_eq!(lane.dist_easing, Some(Easing::EaseOutQuad));
            match &lane.events {
                LightEvents::Translation(steps) => {
                    assert_eq!(steps.len(), 1);
                    assert_eq!(as_f64(&steps[0].amount), 0.5);
                }
                other => panic!("expected translation steps, got {:?}", other),
            }
        }
        other => panic!("expected a light event box, got {:?}", other),
    }
}
