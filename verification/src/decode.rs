//! Structural decoding of a document against the two schema shapes.
//!
//! Each record kind has a spec-level decode function (or, for kinds that own
//! collections, a shape predicate and a decode relation) and an executable
//! decoder proved against it. Decoding is strict: a missing required member
//! or an ill-typed value rejects the record; unknown members are ignored.

use vstd::prelude::*;

use crate::common::{
    Axis, BoxFilterKind, BoxFilterOrdering, Direction, DistributionKind, Easing, LightColor,
    LimitKind, NoteColor, RotationBehaviour, RotationDirection, SliderMidAnchorMode,
    TransitionKind,
};
use crate::error::{DecodeError, Error, SchemaField};
use crate::json::{
    clone_array, clone_members, jview_members, jview_seq, obj_get, obj_lookup, JsonNum, JsonValue,
};
use crate::schema::{
    BasicBeatmapEvent, BombNote, BpmEvent, BurstSlider, ColorBoostBeatmapEvent, ColorNote,
    FilterObject, LightColorEventBoxGroupLane, LightColorEventData,
    LightRotationEventBoxGroupLane, LightRotationEventData, LightTranslationEventBoxGroupLane,
    LightColorEventBoxGroup, LightRotationEventBoxGroup, LightTranslationEventBoxGroup,
    LightTranslationEventData, Obstacle, OldEvent, OldNote, OldNoteKind, OldObstacle,
    OldObstacleKind, OldSlider, RotationEvent, Slider, BeatmapFile, NewBeatmapFile,
    OldBeatmapFile,
};

verus! {

/// Value of a member of an object, if the value is an object and has one.
pub open spec fn field_of(v: JsonValue, key: Seq<char>) -> Option<JsonValue> {
    match v {
        JsonValue::Object(pairs) => obj_get(pairs@, key),
        _ => None,
    }
}

/// A number member, of any numeric wire form.
pub open spec fn num_field(v: JsonValue, key: Seq<char>) -> Option<JsonNum> {
    match field_of(v, key) {
        Some(JsonValue::Number(n)) => Some(n),
        _ => None,
    }
}

/// The integer carried by a value, if it is an integer that fits an `i64`.
pub open spec fn int_of(v: JsonValue) -> Option<i64> {
    match v {
        JsonValue::Number(JsonNum::Int(i)) => Some(i),
        JsonValue::Number(JsonNum::UInt(u)) => if u <= i64::MAX as u64 {
            Some(u as i64)
        } else {
            None
        },
        _ => None,
    }
}

/// An integer member used as an enumeration code.
pub open spec fn code_field(v: JsonValue, key: Seq<char>) -> Option<i64> {
    match field_of(v, key) {
        Some(w) => int_of(w),
        None => None,
    }
}

/// An integer member that must fit an `i32`.
pub open spec fn i32_field(v: JsonValue, key: Seq<char>) -> Option<i32> {
    match code_field(v, key) {
        Some(i) => if i32::MIN as i64 <= i <= i32::MAX as i64 {
            Some(i as i32)
        } else {
            None
        },
        None => None,
    }
}

/// A boolean member.
pub open spec fn bool_field(v: JsonValue, key: Seq<char>) -> Option<bool> {
    match field_of(v, key) {
        Some(JsonValue::Boolean(b)) => Some(b),
        _ => None,
    }
}

/// An optional number member: absent or null means none; the outer `None`
/// means the member is present but ill-typed.
pub open spec fn opt_num_field(v: JsonValue, key: Seq<char>) -> Option<Option<JsonNum>> {
    match field_of(v, key) {
        None => Some(None),
        Some(JsonValue::Null) => Some(None),
        Some(JsonValue::Number(n)) => Some(Some(n)),
        Some(_) => None,
    }
}

/// Looks a member up by key.
pub fn get_field<'a>(v: &'a JsonValue, key: &str) -> (r: Option<&'a JsonValue>)
    ensures
        match r {
            Some(w) => field_of(*v, key@) == Some(*w),
            None => field_of(*v, key@) is None,
        },
{
    match v {
        JsonValue::Object(pairs) => obj_lookup(pairs, &String::from_str(key)),
        _ => None,
    }
}

/// Reads a number member.
pub fn get_num_field(v: &JsonValue, key: &str) -> (r: Option<JsonNum>)
    ensures
        r == num_field(*v, key@),
{
    match get_field(v, key) {
        Some(JsonValue::Number(n)) => Some(*n),
        _ => None,
    }
}

/// Reads an integer member used as an enumeration code.
pub fn get_code_field(v: &JsonValue, key: &str) -> (r: Option<i64>)
    ensures
        r == code_field(*v, key@),
{
    match get_field(v, key) {
        Some(JsonValue::Number(JsonNum::Int(i))) => Some(*i),
        Some(JsonValue::Number(JsonNum::UInt(u))) => if *u <= i64::MAX as u64 {
            Some(*u as i64)
        } else {
            None
        },
        _ => None,
    }
}

/// Reads an integer member that must fit an `i32`.
pub fn get_i32_field(v: &JsonValue, key: &str) -> (r: Option<i32>)
    ensures
        r == i32_field(*v, key@),
{
    match get_code_field(v, key) {
        Some(i) => if i32::MIN as i64 <= i && i <= i32::MAX as i64 {
            Some(i as i32)
        } else {
            None
        },
        None => None,
    }
}

/// Reads a boolean member.
pub fn get_bool_field(v: &JsonValue, key: &str) -> (r: Option<bool>)
    ensures
        r == bool_field(*v, key@),
{
    match get_field(v, key) {
        Some(JsonValue::Boolean(b)) => Some(*b),
        _ => None,
    }
}

/// Reads an optional number member; absent or null is `Some(None)`.
pub fn get_opt_num_field(v: &JsonValue, key: &str) -> (r: Option<Option<JsonNum>>)
    ensures
        r == opt_num_field(*v, key@),
{
    match get_field(v, key) {
        None => Some(None),
        Some(JsonValue::Null) => Some(None),
        Some(JsonValue::Number(n)) => Some(Some(*n)),
        Some(_) => None,
    }
}

/// Decode of one new-schema BPM record.
pub open spec fn spec_bpm(v: JsonValue) -> Option<BpmEvent> {
    match (num_field(v, "b"@), num_field(v, "m"@)) {
        (Some(b), Some(m)) => Some(BpmEvent { b, m }),
        _ => None,
    }
}

pub fn decode_bpm(v: &JsonValue) -> (r: Option<BpmEvent>)
    ensures
        r == spec_bpm(*v),
{
    let b = match get_num_field(v, "b") {
        Some(n) => n,
        None => {
            return None;
        },
    };
    let m = match get_num_field(v, "m") {
        Some(n) => n,
        None => {
            return None;
        },
    };
    Some(BpmEvent { b, m })
}

/// Decode of one new-schema colored note record.
pub open spec fn spec_color_note(v: JsonValue) -> Option<ColorNote> {
    match (
        num_field(v, "b"@),
        i32_field(v, "x"@),
        i32_field(v, "y"@),
        code_field(v, "c"@),
        code_field(v, "d"@),
        i32_field(v, "a"@),
    ) {
        (Some(b), Some(x), Some(y), Some(cc), Some(dc), Some(a)) => match (
            NoteColor::spec_of_code(cc as int),
            Direction::spec_of_code(dc as int),
        ) {
            (Some(c), Some(d)) => Some(ColorNote { b, x, y, c, d, a }),
            _ => None,
        },
        _ => None,
    }
}

pub fn decode_color_note(v: &JsonValue) -> (r: Option<ColorNote>)
    ensures
        r == spec_color_note(*v),
{
    let b = match get_num_field(v, "b") {
        Some(n) => n,
        None => {
            return None;
        },
    };
    let x = match get_i32_field(v, "x") {
        Some(n) => n,
        None => {
            return None;
        },
    };
    let y = match get_i32_field(v, "y") {
        Some(n) => n,
        None => {
            return None;
        },
    };
    let cc = match get_code_field(v, "c") {
        Some(n) => n,
        None => {
            return None;
        },
    };
    let dc = match get_code_field(v, "d") {
        Some(n) => n,
        None => {
            return None;
        },
    };
    let a = match get_i32_field(v, "a") {
        Some(n) => n,
        None => {
            return None;
        },
    };
    let c = match NoteColor::of_code(cc) {
        Some(c) => c,
        None => {
            return None;
        },
    };
    let d = match Direction::of_code(dc) {
        Some(d) => d,
        None => {
            return None;
        },
    };
    Some(ColorNote { b, x, y, c, d, a })
}

/// An optional easing member: absent or null means none; the outer `None`
/// means the member is present but not a known easing code.
pub open spec fn easing_opt_field(v: JsonValue, key: Seq<char>) -> Option<Option<Easing>> {
    match field_of(v, key) {
        None => Some(None),
        Some(JsonValue::Null) => Some(None),
        Some(w) => match int_of(w) {
            Some(c) => match Easing::spec_of_code(c as int) {
                Some(e) => Some(Some(e)),
                None => None,
            },
            None => None,
        },
    }
}

/// Reads an optional easing member; absent or null is `Some(None)`.
pub fn get_easing_opt_field(v: &JsonValue, key: &str) -> (r: Option<Option<Easing>>)
    ensures
        r == easing_opt_field(*v, key@),
{
    match get_field(v, key) {
        None => Some(None),
        Some(JsonValue::Null) => Some(None),
        Some(w) => {
            let c = match w {
                JsonValue::Number(JsonNum::Int(i)) => *i,
                JsonValue::Number(JsonNum::UInt(u)) => if *u <= i64::MAX as u64 {
                    *u as i64
                } else {
                    return None;
                },
                _ => {
                    return None;
                },
            };
            match Easing::of_code(c) {
                Some(e) => Some(Some(e)),
                None => None,
            }
        },
    }
}

/// Whether an open-ended map member is well-typed: absent, or an object.
pub open spec fn members_ok(v: JsonValue, key: Seq<char>) -> bool {
    match field_of(v, key) {
        None => true,
        Some(w) => w is Object,
    }
}

/// Relates an optional open-ended map member to its decoded form:
/// `None` when absent, the object's members otherwise.
pub open spec fn opt_members_rel(
    v: JsonValue,
    key: Seq<char>,
    c: Option<Vec<(String, JsonValue)>>,
) -> bool {
    match field_of(v, key) {
        None => c is None,
        Some(w) => c is Some && jview_members(c->Some_0@) == jview_members(w->Object_0@),
    }
}

/// Relates a defaulted open-ended map member to its decoded form:
/// empty when absent, the object's members otherwise.
pub open spec fn members_default_rel(
    v: JsonValue,
    key: Seq<char>,
    out: Seq<(String, JsonValue)>,
) -> bool {
    match field_of(v, key) {
        None => out.len() == 0,
        Some(w) => jview_members(out) == jview_members(w->Object_0@),
    }
}

/// Reads an optional open-ended map member as a copy of its member list.
pub fn get_opt_members_field(v: &JsonValue, key: &str) -> (r: Option<
    Option<Vec<(String, JsonValue)>>,
>)
    ensures
        match r {
            Some(c) => members_ok(*v, key@) && opt_members_rel(*v, key@, c),
            None => !members_ok(*v, key@),
        },
{
    match get_field(v, key) {
        None => Some(None),
        Some(JsonValue::Object(pairs)) => Some(Some(clone_members(pairs))),
        Some(_) => None,
    }
}

/// Whether a list member is well-typed when optional: absent, or an array.
pub open spec fn opt_arr_ok(v: JsonValue, key: Seq<char>) -> bool {
    match field_of(v, key) {
        None => true,
        Some(w) => w is Array,
    }
}

/// Relates a defaulted pass-through list member to its decoded form:
/// empty when absent, a copy of the array otherwise.
pub open spec fn arr_default_rel(v: JsonValue, key: Seq<char>, out: Seq<JsonValue>) -> bool {
    match field_of(v, key) {
        None => out.len() == 0,
        Some(w) => jview_seq(out) == jview_seq(w->Array_0@),
    }
}

/// Decode of one new-schema rotation record.
pub open spec fn spec_rotation(v: JsonValue) -> Option<RotationEvent> {
    match (num_field(v, "b"@), bool_field(v, "e"@), num_field(v, "r"@)) {
        (Some(b), Some(e), Some(r)) => Some(RotationEvent { b, e, r }),
        _ => None,
    }
}

pub fn decode_rotation(v: &JsonValue) -> (r: Option<RotationEvent>)
    ensures
        r == spec_rotation(*v),
{
    let b = match get_num_field(v, "b") {
        Some(n) => n,
        None => {
            return None;
        },
    };
    let e = match get_bool_field(v, "e") {
        Some(n) => n,
        None => {
            return None;
        },
    };
    let rr = match get_num_field(v, "r") {
        Some(n) => n,
        None => {
            return None;
        },
    };
    Some(RotationEvent { b, e, r: rr })
}

/// Decode of one new-schema bomb record.
pub open spec fn spec_bomb(v: JsonValue) -> Option<BombNote> {
    match (num_field(v, "b"@), i32_field(v, "x"@), i32_field(v, "y"@)) {
        (Some(b), Some(x), Some(y)) => Some(BombNote { b, x, y }),
        _ => None,
    }
}

pub fn decode_bomb(v: &JsonValue) -> (r: Option<BombNote>)
    ensures
        r == spec_bomb(*v),
{
    let b = match get_num_field(v, "b") {
        Some(n) => n,
        None => {
            return None;
        },
    };
    let x = match get_i32_field(v, "x") {
        Some(n) => n,
        None => {
            return None;
        },
    };
    let y = match get_i32_field(v, "y") {
        Some(n) => n,
        None => {
            return None;
        },
    };
    Some(BombNote { b, x, y })
}

/// Decode of one new-schema obstacle record.
pub open spec fn spec_obstacle(v: JsonValue) -> Option<Obstacle> {
    match (
        num_field(v, "b"@),
        i32_field(v, "x"@),
        i32_field(v, "y"@),
        num_field(v, "d"@),
        num_field(v, "w"@),
        num_field(v, "h"@),
    ) {
        (Some(b), Some(x), Some(y), Some(d), Some(w), Some(h)) => Some(
            Obstacle { b, x, y, d, w, h },
        ),
        _ => None,
    }
}

pub fn decode_obstacle(v: &JsonValue) -> (r: Option<Obstacle>)
    ensures
        r == spec_obstacle(*v),
{
    let b = match get_num_field(v, "b") {
        Some(n) => n,
        None => {
            return None;
        },
    };
    let x = match get_i32_field(v, "x") {
        Some(n) => n,
        None => {
            return None;
        },
    };
    let y = match get_i32_field(v, "y") {
        Some(n) => n,
        None => {
            return None;
        },
    };
    let d = match get_num_field(v, "d") {
        Some(n) => n,
        None => {
            return None;
        },
    };
    let w = match get_num_field(v, "w") {
        Some(n) => n,
        None => {
            return None;
        },
    };
    let h = match get_num_field(v, "h") {
        Some(n) => n,
        None => {
            return None;
        },
    };
    Some(Obstacle { b, x, y, d, w, h })
}

/// Decode of one new-schema slider record.
pub open spec fn spec_slider(v: JsonValue) -> Option<Slider> {
    match (
        num_field(v, "b"@),
        code_field(v, "c"@),
        i32_field(v, "x"@),
        i32_field(v, "y"@),
        code_field(v, "d"@),
        num_field(v, "mu"@),
    ) {
        (Some(b), Some(cc), Some(x), Some(y), Some(dc), Some(mu)) => match (
            num_field(v, "tb"@),
            i32_field(v, "tx"@),
            i32_field(v, "ty"@),
            code_field(v, "tc"@),
            num_field(v, "tmu"@),
            code_field(v, "m"@),
        ) {
            (Some(tb), Some(tx), Some(ty), Some(tcc), Some(tmu), Some(mc)) => match (
                NoteColor::spec_of_code(cc as int),
                Direction::spec_of_code(dc as int),
                Direction::spec_of_code(tcc as int),
                SliderMidAnchorMode::spec_of_code(mc as int),
            ) {
                (Some(c), Some(d), Some(tc), Some(m)) => Some(
                    Slider { b, c, x, y, d, mu, tb, tx, ty, tc, tmu, m },
                ),
                _ => None,
            },
            _ => None,
        },
        _ => None,
    }
}

pub fn decode_slider(v: &JsonValue) -> (r: Option<Slider>)
    ensures
        r == spec_slider(*v),
{
    let b = match get_num_field(v, "b") {
        Some(n) => n,
        None => {
            return None;
        },
    };
    let cc = match get_code_field(v, "c") {
        Some(n) => n,
        None => {
            return None;
        },
    };
    let x = match get_i32_field(v, "x") {
        Some(n) => n,
        None => {
            return None;
        },
    };
    let y = match get_i32_field(v, "y") {
        Some(n) => n,
        None => {
            return None;
        },
    };
    let dc = match get_code_field(v, "d") {
        Some(n) => n,
        None => {
            return None;
        },
    };
    let mu = match get_num_field(v, "mu") {
        Some(n) => n,
        None => {
            return None;
        },
    };
    let tb = match get_num_field(v, "tb") {
        Some(n) => n,
        None => {
            return None;
        },
    };
    let tx = match get_i32_field(v, "tx") {
        Some(n) => n,
        None => {
            return None;
        },
    };
    let ty = match get_i32_field(v, "ty") {
        Some(n) => n,
        None => {
            return None;
        },
    };
    let tcc = match get_code_field(v, "tc") {
        Some(n) => n,
        None => {
            return None;
        },
    };
    let tmu = match get_num_field(v, "tmu") {
        Some(n) => n,
        None => {
            return None;
        },
    };
    let mc = match get_code_field(v, "m") {
        Some(n) => n,
        None => {
            return None;
        },
    };
    let c = match NoteColor::of_code(cc) {
        Some(c) => c,
        None => {
            return None;
        },
    };
    let d = match Direction::of_code(dc) {
        Some(d) => d,
        None => {
            return None;
        },
    };
    let tc = match Direction::of_code(tcc) {
        Some(d) => d,
        None => {
            return None;
        },
    };
    let m = match SliderMidAnchorMode::of_code(mc) {
        Some(m) => m,
        None => {
            return None;
        },
    };
    Some(Slider { b, c, x, y, d, mu, tb, tx, ty, tc, tmu, m })
}

/// Decode of one new-schema burst slider record.
pub open spec fn spec_burst_slider(v: JsonValue) -> Option<BurstSlider> {
    match (
        num_field(v, "b"@),
        code_field(v, "c"@),
        i32_field(v, "x"@),
        i32_field(v, "y"@),
        code_field(v, "d"@),
    ) {
        (Some(b), Some(cc), Some(x), Some(y), Some(dc)) => match (
            num_field(v, "tb"@),
            i32_field(v, "tx"@),
            i32_field(v, "ty"@),
            i32_field(v, "sc"@),
            num_field(v, "s"@),
        ) {
            (Some(tb), Some(tx), Some(ty), Some(sc), Some(s)) => match (
                NoteColor::spec_of_code(cc as int),
                Direction::spec_of_code(dc as int),
            ) {
                (Some(c), Some(d)) => Some(
                    BurstSlider { b, c, x, y, d, tb, tx, ty, sc, s },
                ),
                _ => None,
            },
            _ => None,
        },
        _ => None,
    }
}

pub fn decode_burst_slider(v: &JsonValue) -> (r: Option<BurstSlider>)
    ensures
        r == spec_burst_slider(*v),
{
    let b = match get_num_field(v, "b") {
        Some(n) => n,
        None => {
            return None;
        },
    };
    let cc = match get_code_field(v, "c") {
        Some(n) => n,
        None => {
            return None;
        },
    };
    let x = match get_i32_field(v, "x") {
        Some(n) => n,
        None => {
            return None;
        },
    };
    let y = match get_i32_field(v, "y") {
        Some(n) => n,
        None => {
            return None;
        },
    };
    let dc = match get_code_field(v, "d") {
        Some(n) => n,
        None => {
            return None;
        },
    };
    let tb = match get_num_field(v, "tb") {
        Some(n) => n,
        None => {
            return None;
        },
    };
    let tx = match get_i32_field(v, "tx") {
        Some(n) => n,
        None => {
            return None;
        },
    };
    let ty = match get_i32_field(v, "ty") {
        Some(n) => n,
        None => {
            return None;
        },
    };
    let sc = match get_i32_field(v, "sc") {
        Some(n) => n,
        None => {
            return None;
        },
    };
    let s = match get_num_field(v, "s") {
        Some(n) => n,
        None => {
            return None;
        },
    };
    let c = match NoteColor::of_code(cc) {
        Some(c) => c,
        None => {
            return None;
        },
    };
    let d = match Direction::of_code(dc) {
        Some(d) => d,
        None => {
            return None;
        },
    };
    Some(BurstSlider { b, c, x, y, d, tb, tx, ty, sc, s })
}

/// Decode of one new-schema basic lighting event record.
pub open spec fn spec_basic_event(v: JsonValue) -> Option<BasicBeatmapEvent> {
    match (
        num_field(v, "b"@),
        i32_field(v, "et"@),
        i32_field(v, "i"@),
        opt_num_field(v, "f"@),
    ) {
        (Some(b), Some(et), Some(i), Some(f)) => Some(BasicBeatmapEvent { b, et, i, f }),
        _ => None,
    }
}

pub fn decode_basic_event(v: &JsonValue) -> (r: Option<BasicBeatmapEvent>)
    ensures
        r == spec_basic_event(*v),
{
    let b = match get_num_field(v, "b") {
        Some(n) => n,
        None => {
            return None;
        },
    };
    let et = match get_i32_field(v, "et") {
        Some(n) => n,
        None => {
            return None;
        },
    };
    let i = match get_i32_field(v, "i") {
        Some(n) => n,
        None => {
            return None;
        },
    };
    let f = match get_opt_num_field(v, "f") {
        Some(n) => n,
        None => {
            return None;
        },
    };
    Some(BasicBeatmapEvent { b, et, i, f })
}

/// Decode of one new-schema color boost record.
pub open spec fn spec_color_boost(v: JsonValue) -> Option<ColorBoostBeatmapEvent> {
    match (num_field(v, "b"@), bool_field(v, "o"@)) {
        (Some(b), Some(o)) => Some(ColorBoostBeatmapEvent { b, o }),
        _ => None,
    }
}

pub fn decode_color_boost(v: &JsonValue) -> (r: Option<ColorBoostBeatmapEvent>)
    ensures
        r == spec_color_boost(*v),
{
    let b = match get_num_field(v, "b") {
        Some(n) => n,
        None => {
            return None;
        },
    };
    let o = match get_bool_field(v, "o") {
        Some(n) => n,
        None => {
            return None;
        },
    };
    Some(ColorBoostBeatmapEvent { b, o })
}

/// Decode of a lane's fixture filter object.
pub open spec fn spec_filter(v: JsonValue) -> Option<FilterObject> {
    match (
        i32_field(v, "c"@),
        code_field(v, "f"@),
        i32_field(v, "p"@),
        i32_field(v, "t"@),
        bool_field(v, "r"@),
    ) {
        (Some(c), Some(fc), Some(p), Some(t), Some(r)) => match (
            code_field(v, "n"@),
            i32_field(v, "s"@),
            num_field(v, "l"@),
            code_field(v, "d"@),
        ) {
            (Some(nc), Some(s), Some(l), Some(dc)) => match (
                BoxFilterKind::spec_of_code(fc as int),
                BoxFilterOrdering::spec_of_code(nc as int),
                LimitKind::spec_of_code(dc as int),
            ) {
                (Some(f), Some(n), Some(d)) => Some(
                    FilterObject { c, f, p, t, r, n, s, l, d },
                ),
                _ => None,
            },
            _ => None,
        },
        _ => None,
    }
}

pub fn decode_filter(v: &JsonValue) -> (r: Option<FilterObject>)
    ensures
        r == spec_filter(*v),
{
    let c = match get_i32_field(v, "c") {
        Some(n) => n,
        None => {
            return None;
        },
    };
    let fc = match get_code_field(v, "f") {
        Some(n) => n,
        None => {
            return None;
        },
    };
    let p = match get_i32_field(v, "p") {
        Some(n) => n,
        None => {
            return None;
        },
    };
    let t = match get_i32_field(v, "t") {
        Some(n) => n,
        None => {
            return None;
        },
    };
    let r = match get_bool_field(v, "r") {
        Some(n) => n,
        None => {
            return None;
        },
    };
    let nc = match get_code_field(v, "n") {
        Some(n) => n,
        None => {
            return None;
        },
    };
    let s = match get_i32_field(v, "s") {
        Some(n) => n,
        None => {
            return None;
        },
    };
    let l = match get_num_field(v, "l") {
        Some(n) => n,
        None => {
            return None;
        },
    };
    let dc = match get_code_field(v, "d") {
        Some(n) => n,
        None => {
            return None;
        },
    };
    let f = match BoxFilterKind::of_code(fc) {
        Some(f) => f,
        None => {
            return None;
        },
    };
    let n = match BoxFilterOrdering::of_code(nc) {
        Some(n) => n,
        None => {
            return None;
        },
    };
    let d = match LimitKind::of_code(dc) {
        Some(d) => d,
        None => {
            return None;
        },
    };
    Some(FilterObject { c, f, p, t, r, n, s, l, d })
}

/// Decode of one light color step record.
pub open spec fn spec_color_data(v: JsonValue) -> Option<LightColorEventData> {
    match (
        num_field(v, "b"@),
        code_field(v, "i"@),
        code_field(v, "c"@),
        num_field(v, "s"@),
        i32_field(v, "f"@),
    ) {
        (Some(b), Some(ic), Some(cc), Some(s), Some(f)) => match (
            TransitionKind::spec_of_code(ic as int),
            LightColor::spec_of_code(cc as int),
        ) {
            (Some(i), Some(c)) => Some(LightColorEventData { b, i, c, s, f }),
            _ => None,
        },
        _ => None,
    }
}

pub fn decode_color_data(v: &JsonValue) -> (r: Option<LightColorEventData>)
    ensures
        r == spec_color_data(*v),
{
    let b = match get_num_field(v, "b") {
        Some(n) => n,
        None => {
            return None;
        },
    };
    let ic = match get_code_field(v, "i") {
        Some(n) => n,
        None => {
            return None;
        },
    };
    let cc = match get_code_field(v, "c") {
        Some(n) => n,
        None => {
            return None;
        },
    };
    let s = match get_num_field(v, "s") {
        Some(n) => n,
        None => {
            return None;
        },
    };
    let f = match get_i32_field(v, "f") {
        Some(n) => n,
        None => {
            return None;
        },
    };
    let i = match TransitionKind::of_code(ic) {
        Some(i) => i,
        None => {
            return None;
        },
    };
    let c = match LightColor::of_code(cc) {
        Some(c) => c,
        None => {
            return None;
        },
    };
    Some(LightColorEventData { b, i, c, s, f })
}

/// Decode of one light rotation step record.
pub open spec fn spec_rotation_data(v: JsonValue) -> Option<LightRotationEventData> {
    match (
        num_field(v, "b"@),
        code_field(v, "p"@),
        i32_field(v, "l"@),
        code_field(v, "e"@),
        num_field(v, "r"@),
        code_field(v, "o"@),
    ) {
        (Some(b), Some(pc), Some(l), Some(ec), Some(r), Some(oc)) => match (
            RotationBehaviour::spec_of_code(pc as int),
            Easing::spec_of_code(ec as int),
            RotationDirection::spec_of_code(oc as int),
        ) {
            (Some(p), Some(e), Some(o)) => Some(
                LightRotationEventData { b, p, l, e, r, o },
            ),
            _ => None,
        },
        _ => None,
    }
}

pub fn decode_rotation_data(v: &JsonValue) -> (r: Option<LightRotationEventData>)
    ensures
        r == spec_rotation_data(*v),
{
    let b = match get_num_field(v, "b") {
        Some(n) => n,
        None => {
            return None;
        },
    };
    let pc = match get_code_field(v, "p") {
        Some(n) => n,
        None => {
            return None;
        },
    };
    let l = match get_i32_field(v, "l") {
        Some(n) => n,
        None => {
            return None;
        },
    };
    let ec = match get_code_field(v, "e") {
        Some(n) => n,
        None => {
            return None;
        },
    };
    let rr = match get_num_field(v, "r") {
        Some(n) => n,
        None => {
            return None;
        },
    };
    let oc = match get_code_field(v, "o") {
        Some(n) => n,
        None => {
            return None;
        },
    };
    let p = match RotationBehaviour::of_code(pc) {
        Some(p) => p,
        None => {
            return None;
        },
    };
    let e = match Easing::of_code(ec) {
        Some(e) => e,
        None => {
            return None;
        },
    };
    let o = match RotationDirection::of_code(oc) {
        Some(o) => o,
        None => {
            return None;
        },
    };
    Some(LightRotationEventData { b, p, l, e, r: rr, o })
}

/// Decode of one light translation step record.
pub open spec fn spec_translation_data(v: JsonValue) -> Option<LightTranslationEventData> {
    match (
        num_field(v, "b"@),
        code_field(v, "p"@),
        code_field(v, "e"@),
        num_field(v, "t"@),
    ) {
        (Some(b), Some(pc), Some(ec), Some(t)) => match (
            RotationBehaviour::spec_of_code(pc as int),
            Easing::spec_of_code(ec as int),
        ) {
            (Some(p), Some(e)) => Some(LightTranslationEventData { b, p, e, t }),
            _ => None,
        },
        _ => None,
    }
}

pub fn decode_translation_data(v: &JsonValue) -> (r: Option<LightTranslationEventData>)
    ensures
        r == spec_translation_data(*v),
{
    let b = match get_num_field(v, "b") {
        Some(n) => n,
        None => {
            return None;
        },
    };
    let pc = match get_code_field(v, "p") {
        Some(n) => n,
        None => {
            return None;
        },
    };
    let ec = match get_code_field(v, "e") {
        Some(n) => n,
        None => {
            return None;
        },
    };
    let t = match get_num_field(v, "t") {
        Some(n) => n,
        None => {
            return None;
        },
    };
    let p = match RotationBehaviour::of_code(pc) {
        Some(p) => p,
        None => {
            return None;
        },
    };
    let e = match Easing::of_code(ec) {
        Some(e) => e,
        None => {
            return None;
        },
    };
    Some(LightTranslationEventData { b, p, e, t })
}

/// Decode of a whole list of new-schema BPM records.
pub open spec fn spec_bpm_list(v: JsonValue) -> Option<Seq<BpmEvent>> {
    match v {
        JsonValue::Array(items) => if forall|i: int|
            0 <= i < items@.len() ==> #[trigger] spec_bpm(items@[i]) is Some {
            Some(Seq::new(items@.len(), |i: int| spec_bpm(items@[i])->Some_0))
        } else {
            None
        },
        _ => None,
    }
}

pub fn decode_bpm_list(v: &JsonValue) -> (r: Option<Vec<BpmEvent>>)
    ensures
        match r {
            Some(out) => spec_bpm_list(*v) == Some(out@),
            None => spec_bpm_list(*v) is None,
        },
{
    let items = match v {
        JsonValue::Array(items) => items,
        _ => {
            return None;
        },
    };
    let n = items.len();
    let mut out: Vec<BpmEvent> = Vec::new();
    let mut i: usize = 0;
    while i < n
        invariant
            *v is Array,
            (*v)->Array_0 == *items,
            n == items@.len(),
            i <= n,
            out@.len() == i,
            forall|j: int| 0 <= j < i ==> #[trigger] spec_bpm(items@[j]) == Some(out@[j]),
        decreases n - i,
    {
        match decode_bpm(&items[i]) {
            Some(e) => out.push(e),
            None => {
                return None;
            },
        }
        i = i + 1;
    }
    proof {
        assert(Seq::new(items@.len(), |i: int| spec_bpm(items@[i])->Some_0) =~= out@);
    }
    Some(out)
}


/// Decode of a whole list of rotation records.
pub open spec fn spec_rotation_list(v: JsonValue) -> Option<Seq<RotationEvent>> {
    match v {
        JsonValue::Array(items) => if forall|i: int|
            0 <= i < items@.len() ==> #[trigger] spec_rotation(items@[i]) is Some {
            Some(Seq::new(items@.len(), |i: int| spec_rotation(items@[i])->Some_0))
        } else {
            None
        },
        _ => None,
    }
}

pub fn decode_rotation_list(v: &JsonValue) -> (r: Option<Vec<RotationEvent>>)
    ensures
        match r {
            Some(out) => spec_rotation_list(*v) == Some(out@),
            None => spec_rotation_list(*v) is None,
        },
{
    let items = match v {
        JsonValue::Array(items) => items,
        _ => {
            return None;
        },
    };
    let n = items.len();
    let mut out: Vec<RotationEvent> = Vec::new();
    let mut i: usize = 0;
    while i < n
        invariant
            *v is Array,
            (*v)->Array_0 == *items,
            n == items@.len(),
            i <= n,
            out@.len() == i,
            forall|j: int| 0 <= j < i ==> #[trigger] spec_rotation(items@[j]) == Some(out@[j]),
        decreases n - i,
    {
        match decode_rotation(&items[i]) {
            Some(e) => out.push(e),
            None => {
                return None;
            },
        }
        i = i + 1;
    }
    proof {
        assert(Seq::new(items@.len(), |i: int| spec_rotation(items@[i])->Some_0) =~= out@);
    }
    Some(out)
}

/// Decode of a whole list of colored note records.
pub open spec fn spec_color_note_list(v: JsonValue) -> Option<Seq<ColorNote>> {
    match v {
        JsonValue::Array(items) => if forall|i: int|
            0 <= i < items@.len() ==> #[trigger] spec_color_note(items@[i]) is Some {
            Some(Seq::new(items@.len(), |i: int| spec_color_note(items@[i])->Some_0))
        } else {
            None
        },
        _ => None,
    }
}

pub fn decode_color_note_list(v: &JsonValue) -> (r: Option<Vec<ColorNote>>)
    ensures
        match r {
            Some(out) => spec_color_note_list(*v) == Some(out@),
            None => spec_color_note_list(*v) is None,
        },
{
    let items = match v {
        JsonValue::Array(items) => items,
        _ => {
            return None;
        },
    };
    let n = items.len();
    let mut out: Vec<ColorNote> = Vec::new();
    let mut i: usize = 0;
    while i < n
        invariant
            *v is Array,
            (*v)->Array_0 == *items,
            n == items@.len(),
            i <= n,
            out@.len() == i,
            forall|j: int| 0 <= j < i ==> #[trigger] spec_color_note(items@[j]) == Some(out@[j]),
        decreases n - i,
    {
        match decode_color_note(&items[i]) {
            Some(e) => out.push(e),
            None => {
                return None;
            },
        }
        i = i + 1;
    }
    proof {
        assert(Seq::new(items@.len(), |i: int| spec_color_note(items@[i])->Some_0) =~= out@);
    }
    Some(out)
}

/// Decode of a whole list of bomb records.
pub open spec fn spec_bomb_list(v: JsonValue) -> Option<Seq<BombNote>> {
    match v {
        JsonValue::Array(items) => if forall|i: int|
            0 <= i < items@.len() ==> #[trigger] spec_bomb(items@[i]) is Some {
            Some(Seq::new(items@.len(), |i: int| spec_bomb(items@[i])->Some_0))
        } else {
            None
        },
        _ => None,
    }
}

pub fn decode_bomb_list(v: &JsonValue) -> (r: Option<Vec<BombNote>>)
    ensures
        match r {
            Some(out) => spec_bomb_list(*v) == Some(out@),
            None => spec_bomb_list(*v) is None,
        },
{
    let items = match v {
        JsonValue::Array(items) => items,
        _ => {
            return None;
        },
    };
    let n = items.len();
    let mut out: Vec<BombNote> = Vec::new();
    let mut i: usize = 0;
    while i < n
        invariant
            *v is Array,
            (*v)->Array_0 == *items,
            n == items@.len(),
            i <= n,
            out@.len() == i,
            forall|j: int| 0 <= j < i ==> #[trigger] spec_bomb(items@[j]) == Some(out@[j]),
        decreases n - i,
    {
        match decode_bomb(&items[i]) {
            Some(e) => out.push(e),
            None => {
                return None;
            },
        }
        i = i + 1;
    }
    proof {
        assert(Seq::new(items@.len(), |i: int| spec_bomb(items@[i])->Some_0) =~= out@);
    }
    Some(out)
}

/// Decode of a whole list of obstacle records.
pub open spec fn spec_obstacle_list(v: JsonValue) -> Option<Seq<Obstacle>> {
    match v {
        JsonValue::Array(items) => if forall|i: int|
            0 <= i < items@.len() ==> #[trigger] spec_obstacle(items@[i]) is Some {
            Some(Seq::new(items@.len(), |i: int| spec_obstacle(items@[i])->Some_0))
        } else {
            None
        },
        _ => None,
    }
}

pub fn decode_obstacle_list(v: &JsonValue) -> (r: Option<Vec<Obstacle>>)
    ensures
        match r {
            Some(out) => spec_obstacle_list(*v) == Some(out@),
            None => spec_obstacle_list(*v) is None,
        },
{
    let items = match v {
        JsonValue::Array(items) => items,
        _ => {
            return None;
        },
    };
    let n = items.len();
    let mut out: Vec<Obstacle> = Vec::new();
    let mut i: usize = 0;
    while i < n
        invariant
            *v is Array,
            (*v)->Array_0 == *items,
            n == items@.len(),
            i <= n,
            out@.len() == i,
            forall|j: int| 0 <= j < i ==> #[trigger] spec_obstacle(items@[j]) == Some(out@[j]),
        decreases n - i,
    {
        match decode_obstacle(&items[i]) {
            Some(e) => out.push(e),
            None => {
                return None;
            },
        }
        i = i + 1;
    }
    proof {
        assert(Seq::new(items@.len(), |i: int| spec_obstacle(items@[i])->Some_0) =~= out@);
    }
    Some(out)
}

/// Decode of a whole list of slider records.
pub open spec fn spec_slider_list(v: JsonValue) -> Option<Seq<Slider>> {
    match v {
        JsonValue::Array(items) => if forall|i: int|
            0 <= i < items@.len() ==> #[trigger] spec_slider(items@[i]) is Some {
            Some(Seq::new(items@.len(), |i: int| spec_slider(items@[i])->Some_0))
        } else {
            None
        },
        _ => None,
    }
}

pub fn decode_slider_list(v: &JsonValue) -> (r: Option<Vec<Slider>>)
    ensures
        match r {
            Some(out) => spec_slider_list(*v) == Some(out@),
            None => spec_slider_list(*v) is None,
        },
{
    let items = match v {
        JsonValue::Array(items) => items,
        _ => {
            return None;
        },
    };
    let n = items.len();
    let mut out: Vec<Slider> = Vec::new();
    let mut i: usize = 0;
    while i < n
        invariant
            *v is Array,
            (*v)->Array_0 == *items,
            n == items@.len(),
            i <= n,
            out@.len() == i,
            forall|j: int| 0 <= j < i ==> #[trigger] spec_slider(items@[j]) == Some(out@[j]),
        decreases n - i,
    {
        match decode_slider(&items[i]) {
            Some(e) => out.push(e),
            None => {
                return None;
            },
        }
        i = i + 1;
    }
    proof {
        assert(Seq::new(items@.len(), |i: int| spec_slider(items@[i])->Some_0) =~= out@);
    }
    Some(out)
}

/// Decode of a whole list of burst slider records.
pub open spec fn spec_burst_slider_list(v: JsonValue) -> Option<Seq<BurstSlider>> {
    match v {
        JsonValue::Array(items) => if forall|i: int|
            0 <= i < items@.len() ==> #[trigger] spec_burst_slider(items@[i]) is Some {
            Some(Seq::new(items@.len(), |i: int| spec_burst_slider(items@[i])->Some_0))
        } else {
            None
        },
        _ => None,
    }
}

pub fn decode_burst_slider_list(v: &JsonValue) -> (r: Option<Vec<BurstSlider>>)
    ensures
        match r {
            Some(out) => spec_burst_slider_list(*v) == Some(out@),
            None => spec_burst_slider_list(*v) is None,
        },
{
    let items = match v {
        JsonValue::Array(items) => items,
        _ => {
            return None;
        },
    };
    let n = items.len();
    let mut out: Vec<BurstSlider> = Vec::new();
    let mut i: usize = 0;
    while i < n
        invariant
            *v is Array,
            (*v)->Array_0 == *items,
            n == items@.len(),
            i <= n,
            out@.len() == i,
            forall|j: int| 0 <= j < i ==> #[trigger] spec_burst_slider(items@[j]) == Some(out@[j]),
        decreases n - i,
    {
        match decode_burst_slider(&items[i]) {
            Some(e) => out.push(e),
            None => {
                return None;
            },
        }
        i = i + 1;
    }
    proof {
        assert(Seq::new(items@.len(), |i: int| spec_burst_slider(items@[i])->Some_0) =~= out@);
    }
    Some(out)
}

/// Decode of a whole list of basic lighting event records.
pub open spec fn spec_basic_event_list(v: JsonValue) -> Option<Seq<BasicBeatmapEvent>> {
    match v {
        JsonValue::Array(items) => if forall|i: int|
            0 <= i < items@.len() ==> #[trigger] spec_basic_event(items@[i]) is Some {
            Some(Seq::new(items@.len(), |i: int| spec_basic_event(items@[i])->Some_0))
        } else {
            None
        },
        _ => None,
    }
}

pub fn decode_basic_event_list(v: &JsonValue) -> (r: Option<Vec<BasicBeatmapEvent>>)
    ensures
        match r {
            Some(out) => spec_basic_event_list(*v) == Some(out@),
            None => spec_basic_event_list(*v) is None,
        },
{
    let items = match v {
        JsonValue::Array(items) => items,
        _ => {
            return None;
        },
    };
    let n = items.len();
    let mut out: Vec<BasicBeatmapEvent> = Vec::new();
    let mut i: usize = 0;
    while i < n
        invariant
            *v is Array,
            (*v)->Array_0 == *items,
            n == items@.len(),
            i <= n,
            out@.len() == i,
            forall|j: int| 0 <= j < i ==> #[trigger] spec_basic_event(items@[j]) == Some(out@[j]),
        decreases n - i,
    {
        match decode_basic_event(&items[i]) {
            Some(e) => out.push(e),
            None => {
                return None;
            },
        }
        i = i + 1;
    }
    proof {
        assert(Seq::new(items@.len(), |i: int| spec_basic_event(items@[i])->Some_0) =~= out@);
    }
    Some(out)
}

/// Decode of a whole list of color boost records.
pub open spec fn spec_color_boost_list(v: JsonValue) -> Option<Seq<ColorBoostBeatmapEvent>> {
    match v {
        JsonValue::Array(items) => if forall|i: int|
            0 <= i < items@.len() ==> #[trigger] spec_color_boost(items@[i]) is Some {
            Some(Seq::new(items@.len(), |i: int| spec_color_boost(items@[i])->Some_0))
        } else {
            None
        },
        _ => None,
    }
}

pub fn decode_color_boost_list(v: &JsonValue) -> (r: Option<Vec<ColorBoostBeatmapEvent>>)
    ensures
        match r {
            Some(out) => spec_color_boost_list(*v) == Some(out@),
            None => spec_color_boost_list(*v) is None,
        },
{
    let items = match v {
        JsonValue::Array(items) => items,
        _ => {
            return None;
        },
    };
    let n = items.len();
    let mut out: Vec<ColorBoostBeatmapEvent> = Vec::new();
    let mut i: usize = 0;
    while i < n
        invariant
            *v is Array,
            (*v)->Array_0 == *items,
            n == items@.len(),
            i <= n,
            out@.len() == i,
            forall|j: int| 0 <= j < i ==> #[trigger] spec_color_boost(items@[j]) == Some(out@[j]),
        decreases n - i,
    {
        match decode_color_boost(&items[i]) {
            Some(e) => out.push(e),
            None => {
                return None;
            },
        }
        i = i + 1;
    }
    proof {
        assert(Seq::new(items@.len(), |i: int| spec_color_boost(items@[i])->Some_0) =~= out@);
    }
    Some(out)
}

/// Decode of a whole list of light color step records.
pub open spec fn spec_color_data_list(v: JsonValue) -> Option<Seq<LightColorEventData>> {
    match v {
        JsonValue::Array(items) => if forall|i: int|
            0 <= i < items@.len() ==> #[trigger] spec_color_data(items@[i]) is Some {
            Some(Seq::new(items@.len(), |i: int| spec_color_data(items@[i])->Some_0))
        } else {
            None
        },
        _ => None,
    }
}

pub fn decode_color_data_list(v: &JsonValue) -> (r: Option<Vec<LightColorEventData>>)
    ensures
        match r {
            Some(out) => spec_color_data_list(*v) == Some(out@),
            None => spec_color_data_list(*v) is None,
        },
{
    let items = match v {
        JsonValue::Array(items) => items,
        _ => {
            return None;
        },
    };
    let n = items.len();
    let mut out: Vec<LightColorEventData> = Vec::new();
    let mut i: usize = 0;
    while i < n
        invariant
            *v is Array,
            (*v)->Array_0 == *items,
            n == items@.len(),
            i <= n,
            out@.len() == i,
            forall|j: int| 0 <= j < i ==> #[trigger] spec_color_data(items@[j]) == Some(out@[j]),
        decreases n - i,
    {
        match decode_color_data(&items[i]) {
            Some(e) => out.push(e),
            None => {
                return None;
            },
        }
        i = i + 1;
    }
    proof {
        assert(Seq::new(items@.len(), |i: int| spec_color_data(items@[i])->Some_0) =~= out@);
    }
    Some(out)
}

/// Decode of a whole list of light rotation step records.
pub open spec fn spec_rotation_data_list(v: JsonValue) -> Option<Seq<LightRotationEventData>> {
    match v {
        JsonValue::Array(items) => if forall|i: int|
            0 <= i < items@.len() ==> #[trigger] spec_rotation_data(items@[i]) is Some {
            Some(Seq::new(items@.len(), |i: int| spec_rotation_data(items@[i])->Some_0))
        } else {
            None
        },
        _ => None,
    }
}

pub fn decode_rotation_data_list(v: &JsonValue) -> (r: Option<Vec<LightRotationEventData>>)
    ensures
        match r {
            Some(out) => spec_rotation_data_list(*v) == Some(out@),
            None => spec_rotation_data_list(*v) is None,
        },
{
    let items = match v {
        JsonValue::Array(items) => items,
        _ => {
            return None;
        },
    };
    let n = items.len();
    let mut out: Vec<LightRotationEventData> = Vec::new();
    let mut i: usize = 0;
    while i < n
        invariant
            *v is Array,
            (*v)->Array_0 == *items,
            n == items@.len(),
            i <= n,
            out@.len() == i,
            forall|j: int| 0 <= j < i ==> #[trigger] spec_rotation_data(items@[j]) == Some(out@[j]),
        decreases n - i,
    {
        match decode_rotation_data(&items[i]) {
            Some(e) => out.push(e),
            None => {
                return None;
            },
        }
        i = i + 1;
    }
    proof {
        assert(Seq::new(items@.len(), |i: int| spec_rotation_data(items@[i])->Some_0) =~= out@);
    }
    Some(out)
}

/// Decode of a whole list of light translation step records.
pub open spec fn spec_translation_data_list(v: JsonValue) -> Option<Seq<LightTranslationEventData>> {
    match v {
        JsonValue::Array(items) => if forall|i: int|
            0 <= i < items@.len() ==> #[trigger] spec_translation_data(items@[i]) is Some {
            Some(Seq::new(items@.len(), |i: int| spec_translation_data(items@[i])->Some_0))
        } else {
            None
        },
        _ => None,
    }
}

pub fn decode_translation_data_list(v: &JsonValue) -> (r: Option<Vec<LightTranslationEventData>>)
    ensures
        match r {
            Some(out) => spec_translation_data_list(*v) == Some(out@),
            None => spec_translation_data_list(*v) is None,
        },
{
    let items = match v {
        JsonValue::Array(items) => items,
        _ => {
            return None;
        },
    };
    let n = items.len();
    let mut out: Vec<LightTranslationEventData> = Vec::new();
    let mut i: usize = 0;
    while i < n
        invariant
            *v is Array,
            (*v)->Array_0 == *items,
            n == items@.len(),
            i <= n,
            out@.len() == i,
            forall|j: int| 0 <= j < i ==> #[trigger] spec_translation_data(items@[j]) == Some(out@[j]),
        decreases n - i,
    {
        match decode_translation_data(&items[i]) {
            Some(e) => out.push(e),
            None => {
                return None;
            },
        }
        i = i + 1;
    }
    proof {
        assert(Seq::new(items@.len(), |i: int| spec_translation_data(items@[i])->Some_0) =~= out@);
    }
    Some(out)
}


/// Shape of one old-schema note record.
pub open spec fn old_note_ok(v: JsonValue) -> bool {
    &&& num_field(v, "_time"@) is Some
    &&& i32_field(v, "_lineIndex"@) is Some
    &&& i32_field(v, "_lineLayer"@) is Some
    &&& match code_field(v, "_type"@) {
        Some(c) => OldNoteKind::spec_of_code(c as int) is Some,
        None => false,
    }
    &&& match code_field(v, "_cutDirection"@) {
        Some(c) => Direction::spec_of_code(c as int) is Some,
        None => false,
    }
    &&& members_ok(v, "_customData"@)
}

/// Decode relation of one old-schema note record.
pub open spec fn old_note_rel(v: JsonValue, r: OldNote) -> bool {
    &&& Some(r._time) == num_field(v, "_time"@)
    &&& Some(r._lineIndex) == i32_field(v, "_lineIndex"@)
    &&& Some(r._lineLayer) == i32_field(v, "_lineLayer"@)
    &&& Some(r._type) == OldNoteKind::spec_of_code(code_field(v, "_type"@)->Some_0 as int)
    &&& Some(r._cutDirection) == Direction::spec_of_code(
        code_field(v, "_cutDirection"@)->Some_0 as int,
    )
    &&& opt_members_rel(v, "_customData"@, r._customData)
}

pub fn decode_old_note(v: &JsonValue) -> (r: Option<OldNote>)
    ensures
        r is Some <==> old_note_ok(*v),
        r is Some ==> old_note_rel(*v, r->Some_0),
{
    let t = match get_num_field(v, "_time") {
        Some(n) => n,
        None => {
            return None;
        },
    };
    let li = match get_i32_field(v, "_lineIndex") {
        Some(n) => n,
        None => {
            return None;
        },
    };
    let ll = match get_i32_field(v, "_lineLayer") {
        Some(n) => n,
        None => {
            return None;
        },
    };
    let kc = match get_code_field(v, "_type") {
        Some(n) => n,
        None => {
            return None;
        },
    };
    let kind = match OldNoteKind::of_code(kc) {
        Some(k) => k,
        None => {
            return None;
        },
    };
    let dc = match get_code_field(v, "_cutDirection") {
        Some(n) => n,
        None => {
            return None;
        },
    };
    let dir = match Direction::of_code(dc) {
        Some(d) => d,
        None => {
            return None;
        },
    };
    let cd = match get_opt_members_field(v, "_customData") {
        Some(c) => c,
        None => {
            return None;
        },
    };
    Some(
        OldNote {
            _time: t,
            _lineIndex: li,
            _lineLayer: ll,
            _type: kind,
            _cutDirection: dir,
            _customData: cd,
        },
    )
}

/// Shape of one old-schema slider record.
pub open spec fn old_slider_ok(v: JsonValue) -> bool {
    &&& match code_field(v, "_colorType"@) {
        Some(c) => NoteColor::spec_of_code(c as int) is Some,
        None => false,
    }
    &&& num_field(v, "_headTime"@) is Some
    &&& i32_field(v, "_headLineIndex"@) is Some
    &&& i32_field(v, "_headLineLayer"@) is Some
    &&& num_field(v, "_headControlPointLengthMultiplier"@) is Some
    &&& match code_field(v, "_headCutDirection"@) {
        Some(c) => Direction::spec_of_code(c as int) is Some,
        None => false,
    }
    &&& num_field(v, "_tailTime"@) is Some
    &&& i32_field(v, "_tailLineIndex"@) is Some
    &&& i32_field(v, "_tailLineLayer"@) is Some
    &&& num_field(v, "_tailControlPointLengthMultiplier"@) is Some
    &&& match code_field(v, "_tailCutDirection"@) {
        Some(c) => Direction::spec_of_code(c as int) is Some,
        None => false,
    }
    &&& match code_field(v, "_sliderMidAnchorMode"@) {
        Some(c) => SliderMidAnchorMode::spec_of_code(c as int) is Some,
        None => false,
    }
    &&& members_ok(v, "_customData"@)
}

/// Decode relation of one old-schema slider record.
pub open spec fn old_slider_rel(v: JsonValue, r: OldSlider) -> bool {
    &&& Some(r._colorType) == NoteColor::spec_of_code(code_field(v, "_colorType"@)->Some_0 as int)
    &&& Some(r._headTime) == num_field(v, "_headTime"@)
    &&& Some(r._headLineIndex) == i32_field(v, "_headLineIndex"@)
    &&& Some(r._headLineLayer) == i32_field(v, "_headLineLayer"@)
    &&& Some(r._headControlPointLengthMultiplier) == num_field(
        v,
        "_headControlPointLengthMultiplier"@,
    )
    &&& Some(r._headCutDirection) == Direction::spec_of_code(
        code_field(v, "_headCutDirection"@)->Some_0 as int,
    )
    &&& Some(r._tailTime) == num_field(v, "_tailTime"@)
    &&& Some(r._tailLineIndex) == i32_field(v, "_tailLineIndex"@)
    &&& Some(r._tailLineLayer) == i32_field(v, "_tailLineLayer"@)
    &&& Some(r._tailControlPointLengthMultiplier) == num_field(
        v,
        "_tailControlPointLengthMultiplier"@,
    )
    &&& Some(r._tailCutDirection) == Direction::spec_of_code(
        code_field(v, "_tailCutDirection"@)->Some_0 as int,
    )
    &&& Some(r._sliderMidAnchorMode) == SliderMidAnchorMode::spec_of_code(
        code_field(v, "_sliderMidAnchorMode"@)->Some_0 as int,
    )
    &&& opt_members_rel(v, "_customData"@, r._customData)
}

pub fn decode_old_slider(v: &JsonValue) -> (r: Option<OldSlider>)
    ensures
        r is Some <==> old_slider_ok(*v),
        r is Some ==> old_slider_rel(*v, r->Some_0),
{
    let cc = match get_code_field(v, "_colorType") {
        Some(n) => n,
        None => {
            return None;
        },
    };
    let color = match NoteColor::of_code(cc) {
        Some(c) => c,
        None => {
            return None;
        },
    };
    let ht = match get_num_field(v, "_headTime") {
        Some(n) => n,
        None => {
            return None;
        },
    };
    let hli = match get_i32_field(v, "_headLineIndex") {
        Some(n) => n,
        None => {
            return None;
        },
    };
    let hll = match get_i32_field(v, "_headLineLayer") {
        Some(n) => n,
        None => {
            return None;
        },
    };
    let hm = match get_num_field(v, "_headControlPointLengthMultiplier") {
        Some(n) => n,
        None => {
            return None;
        },
    };
    let hdc = match get_code_field(v, "_headCutDirection") {
        Some(n) => n,
        None => {
            return None;
        },
    };
    let hd = match Direction::of_code(hdc) {
        Some(d) => d,
        None => {
            return None;
        },
    };
    let tt = match get_num_field(v, "_tailTime") {
        Some(n) => n,
        None => {
            return None;
        },
    };
    let tli = match get_i32_field(v, "_tailLineIndex") {
        Some(n) => n,
        None => {
            return None;
        },
    };
    let tll = match get_i32_field(v, "_tailLineLayer") {
        Some(n) => n,
        None => {
            return None;
        },
    };
    let tm = match get_num_field(v, "_tailControlPointLengthMultiplier") {
        Some(n) => n,
        None => {
            return None;
        },
    };
    let tdc = match get_code_field(v, "_tailCutDirection") {
        Some(n) => n,
        None => {
            return None;
        },
    };
    let td = match Direction::of_code(tdc) {
        Some(d) => d,
        None => {
            return None;
        },
    };
    let mc = match get_code_field(v, "_sliderMidAnchorMode") {
        Some(n) => n,
        None => {
            return None;
        },
    };
    let mam = match SliderMidAnchorMode::of_code(mc) {
        Some(m) => m,
        None => {
            return None;
        },
    };
    let cd = match get_opt_members_field(v, "_customData") {
        Some(c) => c,
        None => {
            return None;
        },
    };
    Some(
        OldSlider {
            _colorType: color,
            _headTime: ht,
            _headLineIndex: hli,
            _headLineLayer: hll,
            _headControlPointLengthMultiplier: hm,
            _headCutDirection: hd,
            _tailTime: tt,
            _tailLineIndex: tli,
            _tailLineLayer: tll,
            _tailControlPointLengthMultiplier: tm,
            _tailCutDirection: td,
            _sliderMidAnchorMode: mam,
            _customData: cd,
        },
    )
}

/// Shape of one old-schema obstacle record.
pub open spec fn old_obstacle_ok(v: JsonValue) -> bool {
    &&& num_field(v, "_time"@) is Some
    &&& i32_field(v, "_lineIndex"@) is Some
    &&& match code_field(v, "_type"@) {
        Some(c) => OldObstacleKind::spec_of_code(c as int) is Some,
        None => false,
    }
    &&& num_field(v, "_duration"@) is Some
    &&& num_field(v, "_width"@) is Some
    &&& members_ok(v, "_customData"@)
}

/// Decode relation of one old-schema obstacle record.
pub open spec fn old_obstacle_rel(v: JsonValue, r: OldObstacle) -> bool {
    &&& Some(r._time) == num_field(v, "_time"@)
    &&& Some(r._lineIndex) == i32_field(v, "_lineIndex"@)
    &&& Some(r._type) == OldObstacleKind::spec_of_code(code_field(v, "_type"@)->Some_0 as int)
    &&& Some(r._duration) == num_field(v, "_duration"@)
    &&& Some(r._width) == num_field(v, "_width"@)
    &&& opt_members_rel(v, "_customData"@, r._customData)
}

pub fn decode_old_obstacle(v: &JsonValue) -> (r: Option<OldObstacle>)
    ensures
        r is Some <==> old_obstacle_ok(*v),
        r is Some ==> old_obstacle_rel(*v, r->Some_0),
{
    let t = match get_num_field(v, "_time") {
        Some(n) => n,
        None => {
            return None;
        },
    };
    let li = match get_i32_field(v, "_lineIndex") {
        Some(n) => n,
        None => {
            return None;
        },
    };
    let kc = match get_code_field(v, "_type") {
        Some(n) => n,
        None => {
            return None;
        },
    };
    let kind = match OldObstacleKind::of_code(kc) {
        Some(k) => k,
        None => {
            return None;
        },
    };
    let du = match get_num_field(v, "_duration") {
        Some(n) => n,
        None => {
            return None;
        },
    };
    let wi = match get_num_field(v, "_width") {
        Some(n) => n,
        None => {
            return None;
        },
    };
    let cd = match get_opt_members_field(v, "_customData") {
        Some(c) => c,
        None => {
            return None;
        },
    };
    Some(
        OldObstacle {
            _time: t,
            _lineIndex: li,
            _type: kind,
            _duration: du,
            _width: wi,
            _customData: cd,
        },
    )
}

/// Shape of one old-schema generic event record.
pub open spec fn old_event_ok(v: JsonValue) -> bool {
    &&& num_field(v, "_time"@) is Some
    &&& i32_field(v, "_type"@) is Some
    &&& i32_field(v, "_value"@) is Some
    &&& opt_num_field(v, "_floatValue"@) is Some
    &&& members_ok(v, "_customData"@)
}

/// Decode relation of one old-schema generic event record.
pub open spec fn old_event_rel(v: JsonValue, r: OldEvent) -> bool {
    &&& Some(r._time) == num_field(v, "_time"@)
    &&& Some(r._type) == i32_field(v, "_type"@)
    &&& Some(r._value) == i32_field(v, "_value"@)
    &&& Some(r._floatValue) == opt_num_field(v, "_floatValue"@)
    &&& opt_members_rel(v, "_customData"@, r._customData)
}

pub fn decode_old_event(v: &JsonValue) -> (r: Option<OldEvent>)
    ensures
        r is Some <==> old_event_ok(*v),
        r is Some ==> old_event_rel(*v, r->Some_0),
{
    let t = match get_num_field(v, "_time") {
        Some(n) => n,
        None => {
            return None;
        },
    };
    let ty = match get_i32_field(v, "_type") {
        Some(n) => n,
        None => {
            return None;
        },
    };
    let va = match get_i32_field(v, "_value") {
        Some(n) => n,
        None => {
            return None;
        },
    };
    let fv = match get_opt_num_field(v, "_floatValue") {
        Some(n) => n,
        None => {
            return None;
        },
    };
    let cd = match get_opt_members_field(v, "_customData") {
        Some(c) => c,
        None => {
            return None;
        },
    };
    Some(OldEvent { _time: t, _type: ty, _value: va, _floatValue: fv, _customData: cd })
}

/// Shape of one color lane of a light event box group.
pub open spec fn color_lane_ok(v: JsonValue) -> bool {
    &&& match field_of(v, "f"@) {
        Some(w) => spec_filter(w) is Some,
        None => false,
    }
    &&& num_field(v, "w"@) is Some
    &&& match code_field(v, "d"@) {
        Some(c) => DistributionKind::spec_of_code(c as int) is Some,
        None => false,
    }
    &&& num_field(v, "r"@) is Some
    &&& match code_field(v, "t"@) {
        Some(c) => DistributionKind::spec_of_code(c as int) is Some,
        None => false,
    }
    &&& bool_field(v, "b"@) is Some
    &&& easing_opt_field(v, "i"@) is Some
    &&& match field_of(v, "e"@) {
        Some(w) => spec_color_data_list(w) is Some,
        None => false,
    }
}

/// Decode relation of one color lane.
pub open spec fn color_lane_rel(v: JsonValue, r: LightColorEventBoxGroupLane) -> bool {
    &&& Some(r.f) == spec_filter(field_of(v, "f"@)->Some_0)
    &&& Some(r.w) == num_field(v, "w"@)
    &&& Some(r.d) == DistributionKind::spec_of_code(code_field(v, "d"@)->Some_0 as int)
    &&& Some(r.r) == num_field(v, "r"@)
    &&& Some(r.t) == DistributionKind::spec_of_code(code_field(v, "t"@)->Some_0 as int)
    &&& Some(r.b) == bool_field(v, "b"@)
    &&& Some(r.i) == easing_opt_field(v, "i"@)
    &&& Some(r.e@) == spec_color_data_list(field_of(v, "e"@)->Some_0)
}

pub fn decode_color_lane(v: &JsonValue) -> (r: Option<LightColorEventBoxGroupLane>)
    ensures
        r is Some <==> color_lane_ok(*v),
        r is Some ==> color_lane_rel(*v, r->Some_0),
{
    let f = match get_field(v, "f") {
        Some(w) => match decode_filter(w) {
            Some(f) => f,
            None => {
                return None;
            },
        },
        None => {
            return None;
        },
    };
    let w = match get_num_field(v, "w") {
        Some(n) => n,
        None => {
            return None;
        },
    };
    let dc = match get_code_field(v, "d") {
        Some(n) => n,
        None => {
            return None;
        },
    };
    let d = match DistributionKind::of_code(dc) {
        Some(d) => d,
        None => {
            return None;
        },
    };
    let rr = match get_num_field(v, "r") {
        Some(n) => n,
        None => {
            return None;
        },
    };
    let tc = match get_code_field(v, "t") {
        Some(n) => n,
        None => {
            return None;
        },
    };
    let t = match DistributionKind::of_code(tc) {
        Some(d) => d,
        None => {
            return None;
        },
    };
    let b = match get_bool_field(v, "b") {
        Some(n) => n,
        None => {
            return None;
        },
    };
    let i = match get_easing_opt_field(v, "i") {
        Some(e) => e,
        None => {
            return None;
        },
    };
    let e = match get_field(v, "e") {
        Some(w2) => match decode_color_data_list(w2) {
            Some(l) => l,
            None => {
                return None;
            },
        },
        None => {
            return None;
        },
    };
    Some(LightColorEventBoxGroupLane { f, w, d, r: rr, t, b, i, e })
}

/// Shape of one rotation lane of a light event box group.
pub open spec fn rotation_lane_ok(v: JsonValue) -> bool {
    &&& match field_of(v, "f"@) {
        Some(w) => spec_filter(w) is Some,
        None => false,
    }
    &&& num_field(v, "w"@) is Some
    &&& match code_field(v, "d"@) {
        Some(c) => DistributionKind::spec_of_code(c as int) is Some,
        None => false,
    }
    &&& num_field(v, "s"@) is Some
    &&& match code_field(v, "t"@) {
        Some(c) => DistributionKind::spec_of_code(c as int) is Some,
        None => false,
    }
    &&& bool_field(v, "b"@) is Some
    &&& easing_opt_field(v, "i"@) is Some
    &&& match code_field(v, "a"@) {
        Some(c) => Axis::spec_of_code(c as int) is Some,
        None => false,
    }
    &&& bool_field(v, "r"@) is Some
    &&& match field_of(v, "e"@) {
        Some(w) => spec_rotation_data_list(w) is Some,
        None => false,
    }
}

/// Decode relation of one rotation lane.
pub open spec fn rotation_lane_rel(v: JsonValue, r: LightRotationEventBoxGroupLane) -> bool {
    &&& Some(r.f) == spec_filter(field_of(v, "f"@)->Some_0)
    &&& Some(r.w) == num_field(v, "w"@)
    &&& Some(r.d) == DistributionKind::spec_of_code(code_field(v, "d"@)->Some_0 as int)
    &&& Some(r.s) == num_field(v, "s"@)
    &&& Some(r.t) == DistributionKind::spec_of_code(code_field(v, "t"@)->Some_0 as int)
    &&& Some(r.b) == bool_field(v, "b"@)
    &&& Some(r.i) == easing_opt_field(v, "i"@)
    &&& Some(r.a) == Axis::spec_of_code(code_field(v, "a"@)->Some_0 as int)
    &&& Some(r.r) == bool_field(v, "r"@)
    &&& Some(r.e@) == spec_rotation_data_list(field_of(v, "e"@)->Some_0)
}

pub fn decode_rotation_lane(v: &JsonValue) -> (r: Option<LightRotationEventBoxGroupLane>)
    ensures
        r is Some <==> rotation_lane_ok(*v),
        r is Some ==> rotation_lane_rel(*v, r->Some_0),
{
    let f = match get_field(v, "f") {
        Some(w) => match decode_filter(w) {
            Some(f) => f,
            None => {
                return None;
            },
        },
        None => {
            return None;
        },
    };
    let w = match get_num_field(v, "w") {
        Some(n) => n,
        None => {
            return None;
        },
    };
    let dc = match get_code_field(v, "d") {
        Some(n) => n,
        None => {
            return None;
        },
    };
    let d = match DistributionKind::of_code(dc) {
        Some(d) => d,
        None => {
            return None;
        },
    };
    let s = match get_num_field(v, "s") {
        Some(n) => n,
        None => {
            return None;
        },
    };
    let tc = match get_code_field(v, "t") {
        Some(n) => n,
        None => {
            return None;
        },
    };
    let t = match DistributionKind::of_code(tc) {
        Some(d) => d,
        None => {
            return None;
        },
    };
    let b = match get_bool_field(v, "b") {
        Some(n) => n,
        None => {
            return None;
        },
    };
    let i = match get_easing_opt_field(v, "i") {
        Some(e) => e,
        None => {
            return None;
        },
    };
    let ac = match get_code_field(v, "a") {
        Some(n) => n,
        None => {
            return None;
        },
    };
    let a = match Axis::of_code(ac) {
        Some(a) => a,
        None => {
            return None;
        },
    };
    let rev = match get_bool_field(v, "r") {
        Some(n) => n,
        None => {
            return None;
        },
    };
    let e = match get_field(v, "e") {
        Some(w2) => match decode_rotation_data_list(w2) {
            Some(l) => l,
            None => {
                return None;
            },
        },
        None => {
            return None;
        },
    };
    Some(LightRotationEventBoxGroupLane { f, w, d, s, t, b, i, a, r: rev, e })
}

/// Shape of one translation lane of a light event box group.
pub open spec fn translation_lane_ok(v: JsonValue) -> bool {
    &&& match field_of(v, "f"@) {
        Some(w) => spec_filter(w) is Some,
        None => false,
    }
    &&& num_field(v, "w"@) is Some
    &&& match code_field(v, "d"@) {
        Some(c) => DistributionKind::spec_of_code(c as int) is Some,
        None => false,
    }
    &&& num_field(v, "s"@) is Some
    &&& match code_field(v, "t"@) {
        Some(c) => DistributionKind::spec_of_code(c as int) is Some,
        None => false,
    }
    &&& bool_field(v, "b"@) is Some
    &&& easing_opt_field(v, "i"@) is Some
    &&& match code_field(v, "a"@) {
        Some(c) => Axis::spec_of_code(c as int) is Some,
        None => false,
    }
    &&& bool_field(v, "r"@) is Some
    &&& match field_of(v, "l"@) {
        Some(w) => spec_translation_data_list(w) is Some,
        None => false,
    }
}

/// Decode relation of one translation lane.
pub open spec fn translation_lane_rel(v: JsonValue, r: LightTranslationEventBoxGroupLane) -> bool {
    &&& Some(r.f) == spec_filter(field_of(v, "f"@)->Some_0)
    &&& Some(r.w) == num_field(v, "w"@)
    &&& Some(r.d) == DistributionKind::spec_of_code(code_field(v, "d"@)->Some_0 as int)
    &&& Some(r.s) == num_field(v, "s"@)
    &&& Some(r.t) == DistributionKind::spec_of_code(code_field(v, "t"@)->Some_0 as int)
    &&& Some(r.b) == bool_field(v, "b"@)
    &&& Some(r.i) == easing_opt_field(v, "i"@)
    &&& Some(r.a) == Axis::spec_of_code(code_field(v, "a"@)->Some_0 as int)
    &&& Some(r.r) == bool_field(v, "r"@)
    &&& Some(r.l@) == spec_translation_data_list(field_of(v, "l"@)->Some_0)
}

pub fn decode_translation_lane(v: &JsonValue) -> (r: Option<LightTranslationEventBoxGroupLane>)
    ensures
        r is Some <==> translation_lane_ok(*v),
        r is Some ==> translation_lane_rel(*v, r->Some_0),
{
    let f = match get_field(v, "f") {
        Some(w) => match decode_filter(w) {
            Some(f) => f,
            None => {
                return None;
            },
        },
        None => {
            return None;
        },
    };
    let w = match get_num_field(v, "w") {
        Some(n) => n,
        None => {
            return None;
        },
    };
    let dc = match get_code_field(v, "d") {
        Some(n) => n,
        None => {
            return None;
        },
    };
    let d = match DistributionKind::of_code(dc) {
        Some(d) => d,
        None => {
            return None;
        },
    };
    let s = match get_num_field(v, "s") {
        Some(n) => n,
        None => {
            return None;
        },
    };
    let tc = match get_code_field(v, "t") {
        Some(n) => n,
        None => {
            return None;
        },
    };
    let t = match DistributionKind::of_code(tc) {
        Some(d) => d,
        None => {
            return None;
        },
    };
    let b = match get_bool_field(v, "b") {
        Some(n) => n,
        None => {
            return None;
        },
    };
    let i = match get_easing_opt_field(v, "i") {
        Some(e) => e,
        None => {
            return None;
        },
    };
    let ac = match get_code_field(v, "a") {
        Some(n) => n,
        None => {
            return None;
        },
    };
    let a = match Axis::of_code(ac) {
        Some(a) => a,
        None => {
            return None;
        },
    };
    let rev = match get_bool_field(v, "r") {
        Some(n) => n,
        None => {
            return None;
        },
    };
    let l = match get_field(v, "l") {
        Some(w2) => match decode_translation_data_list(w2) {
            Some(x) => x,
            None => {
                return None;
            },
        },
        None => {
            return None;
        },
    };
    Some(LightTranslationEventBoxGroupLane { f, w, d, s, t, b, i, a, r: rev, l })
}

/// Shape of a whole list of old-schema note records.
pub open spec fn old_notes_ok(v: JsonValue) -> bool {
    match v {
        JsonValue::Array(items) => forall|i: int|
            0 <= i < items@.len() ==> #[trigger] old_note_ok(items@[i]),
        _ => false,
    }
}

/// Decode relation of a whole list of old-schema note records.
pub open spec fn old_notes_rel(v: JsonValue, out: Seq<OldNote>) -> bool {
    &&& out.len() == v->Array_0@.len()
    &&& forall|i: int| 0 <= i < out.len() ==> #[trigger] old_note_rel(v->Array_0@[i], out[i])
}

pub fn decode_old_notes(v: &JsonValue) -> (r: Option<Vec<OldNote>>)
    ensures
        r is Some <==> old_notes_ok(*v),
        r is Some ==> old_notes_rel(*v, r->Some_0@),
{
    let items = match v {
        JsonValue::Array(items) => items,
        _ => {
            return None;
        },
    };
    let n = items.len();
    let mut out: Vec<OldNote> = Vec::new();
    let mut i: usize = 0;
    while i < n
        invariant
            *v is Array,
            (*v)->Array_0 == *items,
            n == items@.len(),
            i <= n,
            out@.len() == i,
            forall|j: int| 0 <= j < i ==> #[trigger] old_note_ok(items@[j]),
            forall|j: int| 0 <= j < i ==> #[trigger] old_note_rel(items@[j], out@[j]),
        decreases n - i,
    {
        match decode_old_note(&items[i]) {
            Some(e) => out.push(e),
            None => {
                return None;
            },
        }
        i = i + 1;
    }
    Some(out)
}

/// Shape of a whole list of old-schema slider records.
pub open spec fn old_sliders_ok(v: JsonValue) -> bool {
    match v {
        JsonValue::Array(items) => forall|i: int|
            0 <= i < items@.len() ==> #[trigger] old_slider_ok(items@[i]),
        _ => false,
    }
}

/// Decode relation of a whole list of old-schema slider records.
pub open spec fn old_sliders_rel(v: JsonValue, out: Seq<OldSlider>) -> bool {
    &&& out.len() == v->Array_0@.len()
    &&& forall|i: int| 0 <= i < out.len() ==> #[trigger] old_slider_rel(v->Array_0@[i], out[i])
}

pub fn decode_old_sliders(v: &JsonValue) -> (r: Option<Vec<OldSlider>>)
    ensures
        r is Some <==> old_sliders_ok(*v),
        r is Some ==> old_sliders_rel(*v, r->Some_0@),
{
    let items = match v {
        JsonValue::Array(items) => items,
        _ => {
            return None;
        },
    };
    let n = items.len();
    let mut out: Vec<OldSlider> = Vec::new();
    let mut i: usize = 0;
    while i < n
        invariant
            *v is Array,
            (*v)->Array_0 == *items,
            n == items@.len(),
            i <= n,
            out@.len() == i,
            forall|j: int| 0 <= j < i ==> #[trigger] old_slider_ok(items@[j]),
            forall|j: int| 0 <= j < i ==> #[trigger] old_slider_rel(items@[j], out@[j]),
        decreases n - i,
    {
        match decode_old_slider(&items[i]) {
            Some(e) => out.push(e),
            None => {
                return None;
            },
        }
        i = i + 1;
    }
    Some(out)
}

/// Shape of a whole list of old-schema obstacle records.
pub open spec fn old_obstacles_ok(v: JsonValue) -> bool {
    match v {
        JsonValue::Array(items) => forall|i: int|
            0 <= i < items@.len() ==> #[trigger] old_obstacle_ok(items@[i]),
        _ => false,
    }
}

/// Decode relation of a whole list of old-schema obstacle records.
pub open spec fn old_obstacles_rel(v: JsonValue, out: Seq<OldObstacle>) -> bool {
    &&& out.len() == v->Array_0@.len()
    &&& forall|i: int| 0 <= i < out.len() ==> #[trigger] old_obstacle_rel(v->Array_0@[i], out[i])
}

pub fn decode_old_obstacles(v: &JsonValue) -> (r: Option<Vec<OldObstacle>>)
    ensures
        r is Some <==> old_obstacles_ok(*v),
        r is Some ==> old_obstacles_rel(*v, r->Some_0@),
{
    let items = match v {
        JsonValue::Array(items) => items,
        _ => {
            return None;
        },
    };
    let n = items.len();
    let mut out: Vec<OldObstacle> = Vec::new();
    let mut i: usize = 0;
    while i < n
        invariant
            *v is Array,
            (*v)->Array_0 == *items,
            n == items@.len(),
            i <= n,
            out@.len() == i,
            forall|j: int| 0 <= j < i ==> #[trigger] old_obstacle_ok(items@[j]),
            forall|j: int| 0 <= j < i ==> #[trigger] old_obstacle_rel(items@[j], out@[j]),
        decreases n - i,
    {
        match decode_old_obstacle(&items[i]) {
            Some(e) => out.push(e),
            None => {
                return None;
            },
        }
        i = i + 1;
    }
    Some(out)
}

/// Shape of a whole list of old-schema generic event records.
pub open spec fn old_events_ok(v: JsonValue) -> bool {
    match v {
        JsonValue::Array(items) => forall|i: int|
            0 <= i < items@.len() ==> #[trigger] old_event_ok(items@[i]),
        _ => false,
    }
}

/// Decode relation of a whole list of old-schema generic event records.
pub open spec fn old_events_rel(v: JsonValue, out: Seq<OldEvent>) -> bool {
    &&& out.len() == v->Array_0@.len()
    &&& forall|i: int| 0 <= i < out.len() ==> #[trigger] old_event_rel(v->Array_0@[i], out[i])
}

pub fn decode_old_events(v: &JsonValue) -> (r: Option<Vec<OldEvent>>)
    ensures
        r is Some <==> old_events_ok(*v),
        r is Some ==> old_events_rel(*v, r->Some_0@),
{
    let items = match v {
        JsonValue::Array(items) => items,
        _ => {
            return None;
        },
    };
    let n = items.len();
    let mut out: Vec<OldEvent> = Vec::new();
    let mut i: usize = 0;
    while i < n
        invariant
            *v is Array,
            (*v)->Array_0 == *items,
            n == items@.len(),
            i <= n,
            out@.len() == i,
            forall|j: int| 0 <= j < i ==> #[trigger] old_event_ok(items@[j]),
            forall|j: int| 0 <= j < i ==> #[trigger] old_event_rel(items@[j], out@[j]),
        decreases n - i,
    {
        match decode_old_event(&items[i]) {
            Some(e) => out.push(e),
            None => {
                return None;
            },
        }
        i = i + 1;
    }
    Some(out)
}

/// Shape of a whole list of color lane records.
pub open spec fn color_lanes_ok(v: JsonValue) -> bool {
    match v {
        JsonValue::Array(items) => forall|i: int|
            0 <= i < items@.len() ==> #[trigger] color_lane_ok(items@[i]),
        _ => false,
    }
}

/// Decode relation of a whole list of color lane records.
pub open spec fn color_lanes_rel(v: JsonValue, out: Seq<LightColorEventBoxGroupLane>) -> bool {
    &&& out.len() == v->Array_0@.len()
    &&& forall|i: int| 0 <= i < out.len() ==> #[trigger] color_lane_rel(v->Array_0@[i], out[i])
}

pub fn decode_color_lanes(v: &JsonValue) -> (r: Option<Vec<LightColorEventBoxGroupLane>>)
    ensures
        r is Some <==> color_lanes_ok(*v),
        r is Some ==> color_lanes_rel(*v, r->Some_0@),
{
    let items = match v {
        JsonValue::Array(items) => items,
        _ => {
            return None;
        },
    };
    let n = items.len();
    let mut out: Vec<LightColorEventBoxGroupLane> = Vec::new();
    let mut i: usize = 0;
    while i < n
        invariant
            *v is Array,
            (*v)->Array_0 == *items,
            n == items@.len(),
            i <= n,
            out@.len() == i,
            forall|j: int| 0 <= j < i ==> #[trigger] color_lane_ok(items@[j]),
            forall|j: int| 0 <= j < i ==> #[trigger] color_lane_rel(items@[j], out@[j]),
        decreases n - i,
    {
        match decode_color_lane(&items[i]) {
            Some(e) => out.push(e),
            None => {
                return None;
            },
        }
        i = i + 1;
    }
    Some(out)
}

/// Shape of a whole list of rotation lane records.
pub open spec fn rotation_lanes_ok(v: JsonValue) -> bool {
    match v {
        JsonValue::Array(items) => forall|i: int|
            0 <= i < items@.len() ==> #[trigger] rotation_lane_ok(items@[i]),
        _ => false,
    }
}

/// Decode relation of a whole list of rotation lane records.
pub open spec fn rotation_lanes_rel(v: JsonValue, out: Seq<LightRotationEventBoxGroupLane>) -> bool {
    &&& out.len() == v->Array_0@.len()
    &&& forall|i: int| 0 <= i < out.len() ==> #[trigger] rotation_lane_rel(v->Array_0@[i], out[i])
}

pub fn decode_rotation_lanes(v: &JsonValue) -> (r: Option<Vec<LightRotationEventBoxGroupLane>>)
    ensures
        r is Some <==> rotation_lanes_ok(*v),
        r is Some ==> rotation_lanes_rel(*v, r->Some_0@),
{
    let items = match v {
        JsonValue::Array(items) => items,
        _ => {
            return None;
        },
    };
    let n = items.len();
    let mut out: Vec<LightRotationEventBoxGroupLane> = Vec::new();
    let mut i: usize = 0;
    while i < n
        invariant
            *v is Array,
            (*v)->Array_0 == *items,
            n == items@.len(),
            i <= n,
            out@.len() == i,
            forall|j: int| 0 <= j < i ==> #[trigger] rotation_lane_ok(items@[j]),
            forall|j: int| 0 <= j < i ==> #[trigger] rotation_lane_rel(items@[j], out@[j]),
        decreases n - i,
    {
        match decode_rotation_lane(&items[i]) {
            Some(e) => out.push(e),
            None => {
                return None;
            },
        }
        i = i + 1;
    }
    Some(out)
}

/// Shape of a whole list of translation lane records.
pub open spec fn translation_lanes_ok(v: JsonValue) -> bool {
    match v {
        JsonValue::Array(items) => forall|i: int|
            0 <= i < items@.len() ==> #[trigger] translation_lane_ok(items@[i]),
        _ => false,
    }
}

/// Decode relation of a whole list of translation lane records.
pub open spec fn translation_lanes_rel(v: JsonValue, out: Seq<LightTranslationEventBoxGroupLane>) -> bool {
    &&& out.len() == v->Array_0@.len()
    &&& forall|i: int| 0 <= i < out.len() ==> #[trigger] translation_lane_rel(v->Array_0@[i], out[i])
}

pub fn decode_translation_lanes(v: &JsonValue) -> (r: Option<Vec<LightTranslationEventBoxGroupLane>>)
    ensures
        r is Some <==> translation_lanes_ok(*v),
        r is Some ==> translation_lanes_rel(*v, r->Some_0@),
{
    let items = match v {
        JsonValue::Array(items) => items,
        _ => {
            return None;
        },
    };
    let n = items.len();
    let mut out: Vec<LightTranslationEventBoxGroupLane> = Vec::new();
    let mut i: usize = 0;
    while i < n
        invariant
            *v is Array,
            (*v)->Array_0 == *items,
            n == items@.len(),
            i <= n,
            out@.len() == i,
            forall|j: int| 0 <= j < i ==> #[trigger] translation_lane_ok(items@[j]),
            forall|j: int| 0 <= j < i ==> #[trigger] translation_lane_rel(items@[j], out@[j]),
        decreases n - i,
    {
        match decode_translation_lane(&items[i]) {
            Some(e) => out.push(e),
            None => {
                return None;
            },
        }
        i = i + 1;
    }
    Some(out)
}


/// Shape of one color light event box group.
pub open spec fn color_group_ok(v: JsonValue) -> bool {
    &&& num_field(v, "b"@) is Some
    &&& i32_field(v, "g"@) is Some
    &&& match field_of(v, "e"@) {
        Some(w) => color_lanes_ok(w),
        None => false,
    }
}

/// Decode relation of one color light event box group.
pub open spec fn color_group_rel(v: JsonValue, r: LightColorEventBoxGroup) -> bool {
    &&& Some(r.b) == num_field(v, "b"@)
    &&& Some(r.g) == i32_field(v, "g"@)
    &&& field_of(v, "e"@) is Some
    &&& color_lanes_rel(field_of(v, "e"@)->Some_0, r.e@)
}

pub fn decode_color_group(v: &JsonValue) -> (r: Option<LightColorEventBoxGroup>)
    ensures
        r is Some <==> color_group_ok(*v),
        r is Some ==> color_group_rel(*v, r->Some_0),
{
    let b = match get_num_field(v, "b") {
        Some(n) => n,
        None => {
            return None;
        },
    };
    let g = match get_i32_field(v, "g") {
        Some(n) => n,
        None => {
            return None;
        },
    };
    let e = match get_field(v, "e") {
        Some(w) => match decode_color_lanes(w) {
            Some(l) => l,
            None => {
                return None;
            },
        },
        None => {
            return None;
        },
    };
    Some(LightColorEventBoxGroup { b, g, e })
}

/// Shape of one rotation light event box group.
pub open spec fn rotation_group_ok(v: JsonValue) -> bool {
    &&& num_field(v, "b"@) is Some
    &&& i32_field(v, "g"@) is Some
    &&& match field_of(v, "e"@) {
        Some(w) => rotation_lanes_ok(w),
        None => false,
    }
}

/// Decode relation of one rotation light event box group.
pub open spec fn rotation_group_rel(v: JsonValue, r: LightRotationEventBoxGroup) -> bool {
    &&& Some(r.b) == num_field(v, "b"@)
    &&& Some(r.g) == i32_field(v, "g"@)
    &&& field_of(v, "e"@) is Some
    &&& rotation_lanes_rel(field_of(v, "e"@)->Some_0, r.e@)
}

pub fn decode_rotation_group(v: &JsonValue) -> (r: Option<LightRotationEventBoxGroup>)
    ensures
        r is Some <==> rotation_group_ok(*v),
        r is Some ==> rotation_group_rel(*v, r->Some_0),
{
    let b = match get_num_field(v, "b") {
        Some(n) => n,
        None => {
            return None;
        },
    };
    let g = match get_i32_field(v, "g") {
        Some(n) => n,
        None => {
            return None;
        },
    };
    let e = match get_field(v, "e") {
        Some(w) => match decode_rotation_lanes(w) {
            Some(l) => l,
            None => {
                return None;
            },
        },
        None => {
            return None;
        },
    };
    Some(LightRotationEventBoxGroup { b, g, e })
}

/// Shape of one translation light event box group.
pub open spec fn translation_group_ok(v: JsonValue) -> bool {
    &&& num_field(v, "b"@) is Some
    &&& i32_field(v, "g"@) is Some
    &&& match field_of(v, "e"@) {
        Some(w) => translation_lanes_ok(w),
        None => false,
    }
}

/// Decode relation of one translation light event box group.
pub open spec fn translation_group_rel(v: JsonValue, r: LightTranslationEventBoxGroup) -> bool {
    &&& Some(r.b) == num_field(v, "b"@)
    &&& Some(r.g) == i32_field(v, "g"@)
    &&& field_of(v, "e"@) is Some
    &&& translation_lanes_rel(field_of(v, "e"@)->Some_0, r.e@)
}

pub fn decode_translation_group(v: &JsonValue) -> (r: Option<LightTranslationEventBoxGroup>)
    ensures
        r is Some <==> translation_group_ok(*v),
        r is Some ==> translation_group_rel(*v, r->Some_0),
{
    let b = match get_num_field(v, "b") {
        Some(n) => n,
        None => {
            return None;
        },
    };
    let g = match get_i32_field(v, "g") {
        Some(n) => n,
        None => {
            return None;
        },
    };
    let e = match get_field(v, "e") {
        Some(w) => match decode_translation_lanes(w) {
            Some(l) => l,
            None => {
                return None;
            },
        },
        None => {
            return None;
        },
    };
    Some(LightTranslationEventBoxGroup { b, g, e })
}

/// Shape of a whole list of color light event box group records.
pub open spec fn color_groups_ok(v: JsonValue) -> bool {
    match v {
        JsonValue::Array(items) => forall|i: int|
            0 <= i < items@.len() ==> #[trigger] color_group_ok(items@[i]),
        _ => false,
    }
}

/// Decode relation of a whole list of color light event box group records.
pub open spec fn color_groups_rel(v: JsonValue, out: Seq<LightColorEventBoxGroup>) -> bool {
    &&& out.len() == v->Array_0@.len()
    &&& forall|i: int| 0 <= i < out.len() ==> #[trigger] color_group_rel(v->Array_0@[i], out[i])
}

pub fn decode_color_groups(v: &JsonValue) -> (r: Option<Vec<LightColorEventBoxGroup>>)
    ensures
        r is Some <==> color_groups_ok(*v),
        r is Some ==> color_groups_rel(*v, r->Some_0@),
{
    let items = match v {
        JsonValue::Array(items) => items,
        _ => {
            return None;
        },
    };
    let n = items.len();
    let mut out: Vec<LightColorEventBoxGroup> = Vec::new();
    let mut i: usize = 0;
    while i < n
        invariant
            *v is Array,
            (*v)->Array_0 == *items,
            n == items@.len(),
            i <= n,
            out@.len() == i,
            forall|j: int| 0 <= j < i ==> #[trigger] color_group_ok(items@[j]),
            forall|j: int| 0 <= j < i ==> #[trigger] color_group_rel(items@[j], out@[j]),
        decreases n - i,
    {
        match decode_color_group(&items[i]) {
            Some(e) => out.push(e),
            None => {
                return None;
            },
        }
        i = i + 1;
    }
    Some(out)
}

/// Shape of a whole list of rotation light event box group records.
pub open spec fn rotation_groups_ok(v: JsonValue) -> bool {
    match v {
        JsonValue::Array(items) => forall|i: int|
            0 <= i < items@.len() ==> #[trigger] rotation_group_ok(items@[i]),
        _ => false,
    }
}

/// Decode relation of a whole list of rotation light event box group records.
pub open spec fn rotation_groups_rel(v: JsonValue, out: Seq<LightRotationEventBoxGroup>) -> bool {
    &&& out.len() == v->Array_0@.len()
    &&& forall|i: int| 0 <= i < out.len() ==> #[trigger] rotation_group_rel(v->Array_0@[i], out[i])
}

pub fn decode_rotation_groups(v: &JsonValue) -> (r: Option<Vec<LightRotationEventBoxGroup>>)
    ensures
        r is Some <==> rotation_groups_ok(*v),
        r is Some ==> rotation_groups_rel(*v, r->Some_0@),
{
    let items = match v {
        JsonValue::Array(items) => items,
        _ => {
            return None;
        },
    };
    let n = items.len();
    let mut out: Vec<LightRotationEventBoxGroup> = Vec::new();
    let mut i: usize = 0;
    while i < n
        invariant
            *v is Array,
            (*v)->Array_0 == *items,
            n == items@.len(),
            i <= n,
            out@.len() == i,
            forall|j: int| 0 <= j < i ==> #[trigger] rotation_group_ok(items@[j]),
            forall|j: int| 0 <= j < i ==> #[trigger] rotation_group_rel(items@[j], out@[j]),
        decreases n - i,
    {
        match decode_rotation_group(&items[i]) {
            Some(e) => out.push(e),
            None => {
                return None;
            },
        }
        i = i + 1;
    }
    Some(out)
}

/// Shape of a whole list of translation light event box group records.
pub open spec fn translation_groups_ok(v: JsonValue) -> bool {
    match v {
        JsonValue::Array(items) => forall|i: int|
            0 <= i < items@.len() ==> #[trigger] translation_group_ok(items@[i]),
        _ => false,
    }
}

/// Decode relation of a whole list of translation light event box group records.
pub open spec fn translation_groups_rel(v: JsonValue, out: Seq<LightTranslationEventBoxGroup>) -> bool {
    &&& out.len() == v->Array_0@.len()
    &&& forall|i: int| 0 <= i < out.len() ==> #[trigger] translation_group_rel(v->Array_0@[i], out[i])
}

pub fn decode_translation_groups(v: &JsonValue) -> (r: Option<Vec<LightTranslationEventBoxGroup>>)
    ensures
        r is Some <==> translation_groups_ok(*v),
        r is Some ==> translation_groups_rel(*v, r->Some_0@),
{
    let items = match v {
        JsonValue::Array(items) => items,
        _ => {
            return None;
        },
    };
    let n = items.len();
    let mut out: Vec<LightTranslationEventBoxGroup> = Vec::new();
    let mut i: usize = 0;
    while i < n
        invariant
            *v is Array,
            (*v)->Array_0 == *items,
            n == items@.len(),
            i <= n,
            out@.len() == i,
            forall|j: int| 0 <= j < i ==> #[trigger] translation_group_ok(items@[j]),
            forall|j: int| 0 <= j < i ==> #[trigger] translation_group_rel(items@[j], out@[j]),
        decreases n - i,
    {
        match decode_translation_group(&items[i]) {
            Some(e) => out.push(e),
            None => {
                return None;
            },
        }
        i = i + 1;
    }
    Some(out)
}


/// A text member.
pub open spec fn text_field(v: JsonValue, key: Seq<char>) -> Option<String> {
    match field_of(v, key) {
        Some(JsonValue::Text(s)) => Some(s),
        _ => None,
    }
}

/// Reads a text member as an owned string.
pub fn get_text_field(v: &JsonValue, key: &str) -> (r: Option<String>)
    ensures
        r == text_field(*v, key@),
{
    match get_field(v, key) {
        Some(JsonValue::Text(s)) => Some(s.clone()),
        _ => None,
    }
}


/// An optional text member: absent or null means none; the outer `None`
/// means the member is present but not text.
pub open spec fn opt_text_field(v: JsonValue, key: Seq<char>) -> Option<Option<String>> {
    match field_of(v, key) {
        None => Some(None),
        Some(JsonValue::Null) => Some(None),
        Some(JsonValue::Text(s)) => Some(Some(s)),
        Some(_) => None,
    }
}

/// Reads an optional text member; absent or null is `Some(None)`.
pub fn get_opt_text_field(v: &JsonValue, key: &str) -> (r: Option<Option<String>>)
    ensures
        r == opt_text_field(*v, key@),
{
    match get_field(v, key) {
        None => Some(None),
        Some(JsonValue::Null) => Some(None),
        Some(JsonValue::Text(s)) => Some(Some(s.clone())),
        Some(_) => None,
    }
}

/// Whether a document satisfies the new-schema shape exactly.
pub open spec fn new_shape_ok(doc: JsonValue) -> bool {
    &&& doc is Object
    &&& text_field(doc, "version"@) is Some
    &&& match field_of(doc, "bpmEvents"@) {
        Some(w) => spec_bpm_list(w) is Some,
        None => false,
    }
    &&& match field_of(doc, "rotationEvents"@) {
        Some(w) => spec_rotation_list(w) is Some,
        None => false,
    }
    &&& match field_of(doc, "colorNotes"@) {
        Some(w) => spec_color_note_list(w) is Some,
        None => false,
    }
    &&& match field_of(doc, "bombNotes"@) {
        Some(w) => spec_bomb_list(w) is Some,
        None => false,
    }
    &&& match field_of(doc, "obstacles"@) {
        Some(w) => spec_obstacle_list(w) is Some,
        None => false,
    }
    &&& match field_of(doc, "sliders"@) {
        Some(w) => spec_slider_list(w) is Some,
        None => false,
    }
    &&& match field_of(doc, "burstSliders"@) {
        Some(w) => spec_burst_slider_list(w) is Some,
        None => false,
    }
    &&& match field_of(doc, "waypoints"@) {
        Some(w) => w is Array,
        None => false,
    }
    &&& match field_of(doc, "basicBeatmapEvents"@) {
        Some(w) => spec_basic_event_list(w) is Some,
        None => false,
    }
    &&& match field_of(doc, "colorBoostBeatmapEvents"@) {
        Some(w) => spec_color_boost_list(w) is Some,
        None => false,
    }
    &&& match field_of(doc, "lightColorEventBoxGroups"@) {
        Some(w) => color_groups_ok(w),
        None => false,
    }
    &&& match field_of(doc, "lightRotationEventBoxGroups"@) {
        Some(w) => rotation_groups_ok(w),
        None => false,
    }
    &&& match field_of(doc, "lightTranslationEventBoxGroups"@) {
        Some(w) => translation_groups_ok(w),
        None => true,
    }
    &&& members_ok(doc, "basicEventTypesWithKeywords"@)
    &&& bool_field(doc, "useNormalEventsAsCompatibleEvents"@) is Some
    &&& members_ok(doc, "customData"@)
}

/// Decode relation between a document and a new-schema file value.
pub open spec fn new_rel(doc: JsonValue, f: NewBeatmapFile) -> bool {
    &&& Some(f.version) == text_field(doc, "version"@)
    &&& Some(f.bpmEvents@) == spec_bpm_list(field_of(doc, "bpmEvents"@)->Some_0)
    &&& Some(f.rotationEvents@) == spec_rotation_list(field_of(doc, "rotationEvents"@)->Some_0)
    &&& Some(f.colorNotes@) == spec_color_note_list(field_of(doc, "colorNotes"@)->Some_0)
    &&& Some(f.bombNotes@) == spec_bomb_list(field_of(doc, "bombNotes"@)->Some_0)
    &&& Some(f.obstacles@) == spec_obstacle_list(field_of(doc, "obstacles"@)->Some_0)
    &&& Some(f.sliders@) == spec_slider_list(field_of(doc, "sliders"@)->Some_0)
    &&& Some(f.burstSliders@) == spec_burst_slider_list(field_of(doc, "burstSliders"@)->Some_0)
    &&& jview_seq(f.waypoints@) == jview_seq(field_of(doc, "waypoints"@)->Some_0->Array_0@)
    &&& Some(f.basicBeatmapEvents@) == spec_basic_event_list(
        field_of(doc, "basicBeatmapEvents"@)->Some_0,
    )
    &&& Some(f.colorBoostBeatmapEvents@) == spec_color_boost_list(
        field_of(doc, "colorBoostBeatmapEvents"@)->Some_0,
    )
    &&& color_groups_rel(
        field_of(doc, "lightColorEventBoxGroups"@)->Some_0,
        f.lightColorEventBoxGroups@,
    )
    &&& rotation_groups_rel(
        field_of(doc, "lightRotationEventBoxGroups"@)->Some_0,
        f.lightRotationEventBoxGroups@,
    )
    &&& match field_of(doc, "lightTranslationEventBoxGroups"@) {
        None => f.lightTranslationEventBoxGroups@.len() == 0,
        Some(w) => translation_groups_rel(w, f.lightTranslationEventBoxGroups@),
    }
    &&& members_default_rel(doc, "basicEventTypesWithKeywords"@, f.basicEventTypesWithKeywords@)
    &&& Some(f.useNormalEventsAsCompatibleEvents) == bool_field(
        doc,
        "useNormalEventsAsCompatibleEvents"@,
    )
    &&& members_default_rel(doc, "customData"@, f.customData@)
}

/// Structural decode of a document against the new-schema shape.
pub fn decode_new(doc: &JsonValue) -> (r: Result<NewBeatmapFile, DecodeError>)
    ensures
        r is Ok <==> new_shape_ok(*doc),
        r is Ok ==> new_rel(*doc, r->Ok_0),
{
    match doc {
        JsonValue::Object(_) => (),
        _ => {
            return Err(DecodeError::NotAnObject);
        },
    }
    let version = match get_field(doc, "version") {
        None => {
            return Err(DecodeError::MissingField(SchemaField::Version));
        },
        Some(JsonValue::Text(s)) => s.clone(),
        Some(_) => {
            return Err(DecodeError::InvalidField(SchemaField::Version));
        },
    };
    let bpm_events = match get_field(doc, "bpmEvents") {
        None => {
            return Err(DecodeError::MissingField(SchemaField::BpmEvents));
        },
        Some(w) => match decode_bpm_list(w) {
            Some(l) => l,
            None => {
                return Err(DecodeError::InvalidField(SchemaField::BpmEvents));
            },
        },
    };
    let rotation_events = match get_field(doc, "rotationEvents") {
        None => {
            return Err(DecodeError::MissingField(SchemaField::RotationEvents));
        },
        Some(w) => match decode_rotation_list(w) {
            Some(l) => l,
            None => {
                return Err(DecodeError::InvalidField(SchemaField::RotationEvents));
            },
        },
    };
    let color_notes = match get_field(doc, "colorNotes") {
        None => {
            return Err(DecodeError::MissingField(SchemaField::ColorNotes));
        },
        Some(w) => match decode_color_note_list(w) {
            Some(l) => l,
            None => {
                return Err(DecodeError::InvalidField(SchemaField::ColorNotes));
            },
        },
    };
    let bomb_notes = match get_field(doc, "bombNotes") {
        None => {
            return Err(DecodeError::MissingField(SchemaField::BombNotes));
        },
        Some(w) => match decode_bomb_list(w) {
            Some(l) => l,
            None => {
                return Err(DecodeError::InvalidField(SchemaField::BombNotes));
            },
        },
    };
    let obstacles = match get_field(doc, "obstacles") {
        None => {
            return Err(DecodeError::MissingField(SchemaField::Obstacles));
        },
        Some(w) => match decode_obstacle_list(w) {
            Some(l) => l,
            None => {
                return Err(DecodeError::InvalidField(SchemaField::Obstacles));
            },
        },
    };
    let sliders = match get_field(doc, "sliders") {
        None => {
            return Err(DecodeError::MissingField(SchemaField::Sliders));
        },
        Some(w) => match decode_slider_list(w) {
            Some(l) => l,
            None => {
                return Err(DecodeError::InvalidField(SchemaField::Sliders));
            },
        },
    };
    let burst_sliders = match get_field(doc, "burstSliders") {
        None => {
            return Err(DecodeError::MissingField(SchemaField::BurstSliders));
        },
        Some(w) => match decode_burst_slider_list(w) {
            Some(l) => l,
            None => {
                return Err(DecodeError::InvalidField(SchemaField::BurstSliders));
            },
        },
    };
    let waypoints = match get_field(doc, "waypoints") {
        None => {
            return Err(DecodeError::MissingField(SchemaField::Waypoints));
        },
        Some(JsonValue::Array(items)) => clone_array(items),
        Some(_) => {
            return Err(DecodeError::InvalidField(SchemaField::Waypoints));
        },
    };
    let basic_events = match get_field(doc, "basicBeatmapEvents") {
        None => {
            return Err(DecodeError::MissingField(SchemaField::BasicBeatmapEvents));
        },
        Some(w) => match decode_basic_event_list(w) {
            Some(l) => l,
            None => {
                return Err(DecodeError::InvalidField(SchemaField::BasicBeatmapEvents));
            },
        },
    };
    let color_boosts = match get_field(doc, "colorBoostBeatmapEvents") {
        None => {
            return Err(DecodeError::MissingField(SchemaField::ColorBoostBeatmapEvents));
        },
        Some(w) => match decode_color_boost_list(w) {
            Some(l) => l,
            None => {
                return Err(DecodeError::InvalidField(SchemaField::ColorBoostBeatmapEvents));
            },
        },
    };
    let color_groups = match get_field(doc, "lightColorEventBoxGroups") {
        None => {
            return Err(DecodeError::MissingField(SchemaField::LightColorEventBoxGroups));
        },
        Some(w) => match decode_color_groups(w) {
            Some(l) => l,
            None => {
                return Err(DecodeError::InvalidField(SchemaField::LightColorEventBoxGroups));
            },
        },
    };
    let rotation_groups = match get_field(doc, "lightRotationEventBoxGroups") {
        None => {
            return Err(DecodeError::MissingField(SchemaField::LightRotationEventBoxGroups));
        },
        Some(w) => match decode_rotation_groups(w) {
            Some(l) => l,
            None => {
                return Err(DecodeError::InvalidField(SchemaField::LightRotationEventBoxGroups));
            },
        },
    };
    let translation_groups = match get_field(doc, "lightTranslationEventBoxGroups") {
        None => Vec::new(),
        Some(w) => match decode_translation_groups(w) {
            Some(l) => l,
            None => {
                return Err(
                    DecodeError::InvalidField(SchemaField::LightTranslationEventBoxGroups),
                );
            },
        },
    };
    let keywords = match get_opt_members_field(doc, "basicEventTypesWithKeywords") {
        Some(Some(m)) => m,
        Some(None) => Vec::new(),
        None => {
            return Err(DecodeError::InvalidField(SchemaField::BasicEventTypesWithKeywords));
        },
    };
    let use_normal = match get_field(doc, "useNormalEventsAsCompatibleEvents") {
        None => {
            return Err(
                DecodeError::MissingField(SchemaField::UseNormalEventsAsCompatibleEvents),
            );
        },
        Some(JsonValue::Boolean(b)) => *b,
        Some(_) => {
            return Err(
                DecodeError::InvalidField(SchemaField::UseNormalEventsAsCompatibleEvents),
            );
        },
    };
    let custom_data = match get_opt_members_field(doc, "customData") {
        Some(Some(m)) => m,
        Some(None) => Vec::new(),
        None => {
            return Err(DecodeError::InvalidField(SchemaField::CustomData));
        },
    };
    Ok(
        NewBeatmapFile {
            version,
            bpmEvents: bpm_events,
            rotationEvents: rotation_events,
            colorNotes: color_notes,
            bombNotes: bomb_notes,
            obstacles,
            sliders,
            burstSliders: burst_sliders,
            waypoints,
            basicBeatmapEvents: basic_events,
            colorBoostBeatmapEvents: color_boosts,
            lightColorEventBoxGroups: color_groups,
            lightRotationEventBoxGroups: rotation_groups,
            lightTranslationEventBoxGroups: translation_groups,
            basicEventTypesWithKeywords: keywords,
            useNormalEventsAsCompatibleEvents: use_normal,
            customData: custom_data,
        },
    )
}

/// Whether a document satisfies the old-schema shape exactly.
pub open spec fn old_shape_ok(doc: JsonValue) -> bool {
    &&& doc is Object
    &&& text_field(doc, "_version"@) is Some
    &&& match field_of(doc, "_notes"@) {
        Some(w) => old_notes_ok(w),
        None => false,
    }
    &&& match field_of(doc, "_sliders"@) {
        Some(w) => old_sliders_ok(w),
        None => true,
    }
    &&& match field_of(doc, "_obstacles"@) {
        Some(w) => old_obstacles_ok(w),
        None => false,
    }
    &&& match field_of(doc, "_events"@) {
        Some(w) => old_events_ok(w),
        None => false,
    }
    &&& opt_arr_ok(doc, "_waypoints"@)
    &&& members_ok(doc, "customData"@)
}

/// Decode relation between a document and an old-schema file value.
pub open spec fn old_rel(doc: JsonValue, f: OldBeatmapFile) -> bool {
    &&& Some(f._version) == text_field(doc, "_version"@)
    &&& field_of(doc, "_notes"@) is Some
    &&& old_notes_rel(field_of(doc, "_notes"@)->Some_0, f._notes@)
    &&& match field_of(doc, "_sliders"@) {
        None => f._sliders@.len() == 0,
        Some(w) => old_sliders_rel(w, f._sliders@),
    }
    &&& field_of(doc, "_obstacles"@) is Some
    &&& old_obstacles_rel(field_of(doc, "_obstacles"@)->Some_0, f._obstacles@)
    &&& field_of(doc, "_events"@) is Some
    &&& old_events_rel(field_of(doc, "_events"@)->Some_0, f._events@)
    &&& arr_default_rel(doc, "_waypoints"@, f._waypoints@)
    &&& members_default_rel(doc, "customData"@, f.customData@)
}

/// Structural decode of a document against the old-schema shape.
pub fn decode_old(doc: &JsonValue) -> (r: Result<OldBeatmapFile, DecodeError>)
    ensures
        r is Ok <==> old_shape_ok(*doc),
        r is Ok ==> old_rel(*doc, r->Ok_0),
{
    match doc {
        JsonValue::Object(_) => (),
        _ => {
            return Err(DecodeError::NotAnObject);
        },
    }
    let version = match get_field(doc, "_version") {
        None => {
            return Err(DecodeError::MissingField(SchemaField::OldVersion));
        },
        Some(JsonValue::Text(s)) => s.clone(),
        Some(_) => {
            return Err(DecodeError::InvalidField(SchemaField::OldVersion));
        },
    };
    let notes = match get_field(doc, "_notes") {
        None => {
            return Err(DecodeError::MissingField(SchemaField::OldNotes));
        },
        Some(w) => match decode_old_notes(w) {
            Some(l) => l,
            None => {
                return Err(DecodeError::InvalidField(SchemaField::OldNotes));
            },
        },
    };
    let sliders = match get_field(doc, "_sliders") {
        None => Vec::new(),
        Some(w) => match decode_old_sliders(w) {
            Some(l) => l,
            None => {
                return Err(DecodeError::InvalidField(SchemaField::OldSliders));
            },
        },
    };
    let obstacles = match get_field(doc, "_obstacles") {
        None => {
            return Err(DecodeError::MissingField(SchemaField::OldObstacles));
        },
        Some(w) => match decode_old_obstacles(w) {
            Some(l) => l,
            None => {
                return Err(DecodeError::InvalidField(SchemaField::OldObstacles));
            },
        },
    };
    let events = match get_field(doc, "_events") {
        None => {
            return Err(DecodeError::MissingField(SchemaField::OldEvents));
        },
        Some(w) => match decode_old_events(w) {
            Some(l) => l,
            None => {
                return Err(DecodeError::InvalidField(SchemaField::OldEvents));
            },
        },
    };
    let waypoints = match get_field(doc, "_waypoints") {
        None => Vec::new(),
        Some(JsonValue::Array(items)) => clone_array(items),
        Some(_) => {
            return Err(DecodeError::InvalidField(SchemaField::OldWaypoints));
        },
    };
    let custom_data = match get_opt_members_field(doc, "customData") {
        Some(Some(m)) => m,
        Some(None) => Vec::new(),
        None => {
            return Err(DecodeError::InvalidField(SchemaField::CustomData));
        },
    };
    Ok(
        OldBeatmapFile {
            _version: version,
            _notes: notes,
            _sliders: sliders,
            _obstacles: obstacles,
            _events: events,
            _waypoints: waypoints,
            customData: custom_data,
        },
    )
}

impl BeatmapFile {
    /// Detects which schema shape a decoded document matches. The new shape
    /// is tried first and wins ties; a document matching neither is rejected
    /// with one diagnostic per attempted shape.
    pub fn from_document(doc: &JsonValue) -> (r: Result<BeatmapFile, Error>)
        ensures
            r is Ok <==> (new_shape_ok(*doc) || old_shape_ok(*doc)),
            new_shape_ok(*doc) ==> r->Ok_0 is New && new_rel(*doc, r->Ok_0->New_0),
            !new_shape_ok(*doc) && old_shape_ok(*doc) ==> r->Ok_0 is Old && old_rel(
                *doc,
                r->Ok_0->Old_0,
            ),
            r is Err ==> r->Err_0 is BeatmapParsingFailed,
    {
        let err_new = match decode_new(doc) {
            Ok(f) => {
                return Ok(BeatmapFile::New(f));
            },
            Err(e) => e,
        };
        match decode_old(doc) {
            Ok(f) => Ok(BeatmapFile::Old(f)),
            Err(err_old) => Err(
                Error::BeatmapParsingFailed { err_as_new: err_new, err_as_old: err_old },
            ),
        }
    }
}

} // verus!
