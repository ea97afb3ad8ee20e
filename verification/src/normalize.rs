//! Normalization of a matched raw schema file into the unified model.
//!
//! Both schema generations flatten into one `events` sequence with a fixed
//! order across record categories; order within a category is the source
//! order. Old-schema unused notes are dropped, old obstacle type codes are
//! expanded into explicit geometry, and the three light lane shapes collapse
//! into one generic lane.

use vstd::prelude::*;

use crate::common::NoteColor;
use crate::decode::{new_rel, new_shape_ok, old_rel, old_shape_ok};
use crate::error::Error;
use crate::json::{JsonNum, JsonValue};
use crate::lightning::{
    BoxFilter, BoxFilterSettings, LightColorEvent, LightEventBox, LightEventLane, LightEvents,
    LightRotationEvent, LightTranslationEvent,
};
use crate::primary::{
    BPMEvent, BasicEvent, Beatmap, Bomb, BurstSlider, ColorBoost, Event, Note, Obstacle, Rotation,
    Slider,
};
use crate::schema;
use crate::schema::{BeatmapFile, NewBeatmapFile, OldBeatmapFile, OldNoteKind, OldObstacleKind};

verus! {

/// Bit pattern of the binary64 value 5, the height of a full-height
/// old-schema obstacle.
pub const FULL_OBSTACLE_HEIGHT_BITS: u64 = 0x4014000000000000;

/// Bit pattern of the binary64 value 2, the height of a crouch obstacle.
pub const CROUCH_OBSTACLE_HEIGHT_BITS: u64 = 0x4000000000000000;

/// Unified event of a new-schema BPM record.
pub open spec fn bpm_to_event(e: schema::BpmEvent) -> Event {
    Event::BPM(BPMEvent { beat: e.b, value: e.m })
}

/// Unified event of a new-schema rotation record.
pub open spec fn rotation_to_event(e: schema::RotationEvent) -> Event {
    Event::Rotation(Rotation { beat: e.b, is_late: e.e, value: e.r })
}

/// Unified event of a new-schema colored note record.
pub open spec fn color_note_to_event(e: schema::ColorNote) -> Event {
    Event::Note(
        Note {
            beat: e.b,
            x: e.x,
            y: e.y,
            color: e.c,
            direction: e.d,
            angle_offset: JsonNum::Int(e.a as i64),
        },
    )
}

/// Unified event of a new-schema bomb record.
pub open spec fn bomb_to_event(e: schema::BombNote) -> Event {
    Event::Bomb(Bomb { beat: e.b, x: e.x, y: e.y })
}

/// Unified event of a new-schema obstacle record.
pub open spec fn obstacle_to_event(e: schema::Obstacle) -> Event {
    Event::Obstacle(Obstacle { beat: e.b, x: e.x, y: e.y, duration: e.d, width: e.w, height: e.h })
}

/// Unified event of a new-schema slider record.
pub open spec fn slider_to_event(e: schema::Slider) -> Event {
    Event::Slider(
        Slider {
            head_beat: e.b,
            color: e.c,
            head_x: e.x,
            head_y: e.y,
            head_direction: e.d,
            head_bulge: e.mu,
            tail_beat: e.tb,
            tail_x: e.tx,
            tail_y: e.ty,
            tail_direction: e.tc,
            tail_bulge: e.tmu,
            special_curving: e.m,
        },
    )
}

/// Unified event of a new-schema burst slider record.
pub open spec fn burst_slider_to_event(e: schema::BurstSlider) -> Event {
    Event::BurstSlider(
        BurstSlider {
            head_beat: e.b,
            color: e.c,
            head_x: e.x,
            head_y: e.y,
            head_direction: e.d,
            tail_beat: e.tb,
            tail_x: e.tx,
            tail_y: e.ty,
            segment_count: e.sc,
            squish: e.s,
        },
    )
}

/// Unified event of a new-schema basic lighting record; the new schema
/// carries no per-event custom data.
pub open spec fn basic_to_event(e: schema::BasicBeatmapEvent) -> Event {
    Event::BasicEvent(
        BasicEvent { beat: e.b, kind: e.et, value: e.i, float_value: e.f, custom_data: None },
    )
}

/// Unified event of a new-schema color boost record.
pub open spec fn boost_to_event(e: schema::ColorBoostBeatmapEvent) -> Event {
    Event::ColorBoost(ColorBoost { beat: e.b, enable: e.o })
}

/// Unified filter of a raw filter object: the parameter pair is split into
/// the settings variant selected by the filter kind code.
pub open spec fn filter_to_box(f: schema::FilterObject) -> BoxFilter {
    BoxFilter {
        chunks: f.c,
        settings: match f.f {
            crate::common::BoxFilterKind::Sections => BoxFilterSettings::Sections {
                count: f.p,
                index: f.t,
            },
            crate::common::BoxFilterKind::StepAndOffset => BoxFilterSettings::StepAndOffset {
                start: f.p,
                skip: f.t,
            },
        },
        reverse: f.r,
        ordering: f.n,
        random_seed: f.s,
        limit: f.l,
        limit_kind: f.d,
    }
}

/// Unified step of a light color step record.
pub open spec fn color_data_to_light(d: schema::LightColorEventData) -> LightColorEvent {
    LightColorEvent {
        relative_beat: d.b,
        transition_kind: d.i,
        color: d.c,
        brightness: d.s,
        frequency: d.f,
    }
}

/// Unified step of a light rotation step record.
pub open spec fn rotation_data_to_light(d: schema::LightRotationEventData) -> LightRotationEvent {
    LightRotationEvent {
        relative_beat: d.b,
        behaviour: d.p,
        easing: d.e,
        loops: d.l,
        amount: d.r,
        direction: d.o,
    }
}

/// Unified step of a light translation step record.
pub open spec fn translation_data_to_light(
    d: schema::LightTranslationEventData,
) -> LightTranslationEvent {
    LightTranslationEvent {
        relative_beat: d.b,
        rotation_behaviour: d.p,
        easing: d.e,
        amount: d.t,
    }
}

/// How a color lane collapses into the generic lane: `dist` comes from the
/// lane's `r` member, and `axis`/`reverse` stay absent.
pub open spec fn lane_of_color(src: schema::LightColorEventBoxGroupLane, out: LightEventLane) -> bool {
    &&& out.filter == filter_to_box(src.f)
    &&& out.beat_dist == src.w
    &&& out.beat_dist_kind == src.d
    &&& out.dist == src.r
    &&& out.dist_kind == src.t
    &&& out.dist_affects_first_event == src.b
    &&& out.dist_easing == src.i
    &&& out.axis is None
    &&& out.reverse is None
    &&& out.events is Color
    &&& out.events->Color_0@ == src.e@.map_values(
        |d: schema::LightColorEventData| color_data_to_light(d),
    )
}

/// How a rotation lane collapses into the generic lane: `dist` comes from
/// the lane's `s` member, and `axis`/`reverse` are populated.
pub open spec fn lane_of_rotation(
    src: schema::LightRotationEventBoxGroupLane,
    out: LightEventLane,
) -> bool {
    &&& out.filter == filter_to_box(src.f)
    &&& out.beat_dist == src.w
    &&& out.beat_dist_kind == src.d
    &&& out.dist == src.s
    &&& out.dist_kind == src.t
    &&& out.dist_affects_first_event == src.b
    &&& out.dist_easing == src.i
    &&& out.axis == Some(src.a)
    &&& out.reverse == Some(src.r)
    &&& out.events is Rotation
    &&& out.events->Rotation_0@ == src.e@.map_values(
        |d: schema::LightRotationEventData| rotation_data_to_light(d),
    )
}

/// How a translation lane collapses into the generic lane: `dist` comes
/// from the lane's `s` member, and `axis`/`reverse` are populated.
pub open spec fn lane_of_translation(
    src: schema::LightTranslationEventBoxGroupLane,
    out: LightEventLane,
) -> bool {
    &&& out.filter == filter_to_box(src.f)
    &&& out.beat_dist == src.w
    &&& out.beat_dist_kind == src.d
    &&& out.dist == src.s
    &&& out.dist_kind == src.t
    &&& out.dist_affects_first_event == src.b
    &&& out.dist_easing == src.i
    &&& out.axis == Some(src.a)
    &&& out.reverse == Some(src.r)
    &&& out.events is Translation
    &&& out.events->Translation_0@ == src.l@.map_values(
        |d: schema::LightTranslationEventData| translation_data_to_light(d),
    )
}

/// How a color box group becomes a unified light event box.
pub open spec fn box_of_color(src: schema::LightColorEventBoxGroup, out: LightEventBox) -> bool {
    &&& out.beat == src.b
    &&& out.group == src.g
    &&& out.lanes@.len() == src.e@.len()
    &&& forall|j: int|
        0 <= j < src.e@.len() ==> lane_of_color(#[trigger] src.e@[j], out.lanes@[j])
}

/// How a rotation box group becomes a unified light event box.
pub open spec fn box_of_rotation(src: schema::LightRotationEventBoxGroup, out: LightEventBox) -> bool {
    &&& out.beat == src.b
    &&& out.group == src.g
    &&& out.lanes@.len() == src.e@.len()
    &&& forall|j: int|
        0 <= j < src.e@.len() ==> lane_of_rotation(#[trigger] src.e@[j], out.lanes@[j])
}

/// How a translation box group becomes a unified light event box.
pub open spec fn box_of_translation(
    src: schema::LightTranslationEventBoxGroup,
    out: LightEventBox,
) -> bool {
    &&& out.beat == src.b
    &&& out.group == src.g
    &&& out.lanes@.len() == src.e@.len()
    &&& forall|j: int|
        0 <= j < src.e@.len() ==> lane_of_translation(#[trigger] src.e@[j], out.lanes@[j])
}

/// The event a color box group contributes.
pub open spec fn event_of_color_group(src: schema::LightColorEventBoxGroup, ev: Event) -> bool {
    ev is LightEventBox && box_of_color(src, ev->LightEventBox_0)
}

/// The event a rotation box group contributes.
pub open spec fn event_of_rotation_group(src: schema::LightRotationEventBoxGroup, ev: Event) -> bool {
    ev is LightEventBox && box_of_rotation(src, ev->LightEventBox_0)
}

/// The event a translation box group contributes.
pub open spec fn event_of_translation_group(
    src: schema::LightTranslationEventBoxGroup,
    ev: Event,
) -> bool {
    ev is LightEventBox && box_of_translation(src, ev->LightEventBox_0)
}

/// Unified event of an old-schema note record that is not an unused slot.
pub open spec fn old_note_to_event(n: schema::OldNote) -> Event {
    if n._type == OldNoteKind::Bomb {
        Event::Bomb(Bomb { beat: n._time, x: n._lineIndex, y: n._lineLayer })
    } else {
        Event::Note(
            Note {
                beat: n._time,
                x: n._lineIndex,
                y: n._lineLayer,
                color: if n._type == OldNoteKind::Red {
                    NoteColor::Red
                } else {
                    NoteColor::Blue
                },
                direction: n._cutDirection,
                angle_offset: JsonNum::Int(0),
            },
        )
    }
}

/// Unified event of an old-schema slider record.
pub open spec fn old_slider_to_event(s: schema::OldSlider) -> Event {
    Event::Slider(
        Slider {
            head_beat: s._headTime,
            color: s._colorType,
            head_x: s._headLineIndex,
            head_y: s._headLineLayer,
            head_direction: s._headCutDirection,
            head_bulge: s._headControlPointLengthMultiplier,
            tail_beat: s._tailTime,
            tail_x: s._tailLineIndex,
            tail_y: s._tailLineLayer,
            tail_direction: s._tailCutDirection,
            tail_bulge: s._tailControlPointLengthMultiplier,
            special_curving: s._sliderMidAnchorMode,
        },
    )
}

/// Unified event of an old-schema obstacle record: the type code expands to
/// explicit geometry, full-height giving `(y = 0, height = 5)` and crouch
/// giving `(y = 2, height = 2)`.
pub open spec fn old_obstacle_to_event(o: schema::OldObstacle) -> Event {
    Event::Obstacle(
        Obstacle {
            beat: o._time,
            x: o._lineIndex,
            y: if o._type == OldObstacleKind::Full {
                0
            } else {
                2
            },
            duration: o._duration,
            width: o._width,
            height: JsonNum::FloatBits(
                if o._type == OldObstacleKind::Full {
                    FULL_OBSTACLE_HEIGHT_BITS
                } else {
                    CROUCH_OBSTACLE_HEIGHT_BITS
                },
            ),
        },
    )
}

/// Unified event of an old-schema generic event record.
pub open spec fn old_event_to_event(e: schema::OldEvent) -> Event {
    Event::BasicEvent(
        BasicEvent {
            beat: e._time,
            kind: e._type,
            value: e._value,
            float_value: e._floatValue,
            custom_data: e._customData,
        },
    )
}

/// The events of a run of old-schema notes, in source order, with unused
/// slots contributing nothing.
pub open spec fn old_note_events(s: Seq<schema::OldNote>) -> Seq<Event>
    decreases s.len(),
{
    if s.len() == 0 {
        Seq::empty()
    } else {
        old_note_events(s.drop_last()) + (if s.last()._type == OldNoteKind::Unused {
            Seq::empty()
        } else {
            seq![old_note_to_event(s.last())]
        })
    }
}

/// How many of a run of old-schema notes are unused slots.
pub open spec fn count_unused(s: Seq<schema::OldNote>) -> nat
    decreases s.len(),
{
    if s.len() == 0 {
        0
    } else {
        count_unused(s.drop_last()) + (if s.last()._type == OldNoteKind::Unused {
            1nat
        } else {
            0nat
        })
    }
}

/// The events contributed by the nine plain new-schema categories, in the
/// fixed cross-category order.
pub open spec fn new_plain_events(f: NewBeatmapFile) -> Seq<Event> {
    f.bpmEvents@.map_values(|e: schema::BpmEvent| bpm_to_event(e))
        + f.rotationEvents@.map_values(|e: schema::RotationEvent| rotation_to_event(e))
        + f.colorNotes@.map_values(|e: schema::ColorNote| color_note_to_event(e))
        + f.bombNotes@.map_values(|e: schema::BombNote| bomb_to_event(e))
        + f.sliders@.map_values(|e: schema::Slider| slider_to_event(e))
        + f.obstacles@.map_values(|e: schema::Obstacle| obstacle_to_event(e))
        + f.burstSliders@.map_values(|e: schema::BurstSlider| burst_slider_to_event(e))
        + f.basicBeatmapEvents@.map_values(|e: schema::BasicBeatmapEvent| basic_to_event(e))
        + f.colorBoostBeatmapEvents@.map_values(
        |e: schema::ColorBoostBeatmapEvent| boost_to_event(e),
    )
}

/// Number of events the nine plain new-schema categories contribute.
pub open spec fn new_plain_len(f: NewBeatmapFile) -> int {
    f.bpmEvents@.len() as int + f.rotationEvents@.len() + f.colorNotes@.len() + f.bombNotes@.len()
        + f.sliders@.len() + f.obstacles@.len() + f.burstSliders@.len()
        + f.basicBeatmapEvents@.len() + f.colorBoostBeatmapEvents@.len()
}

/// Number of events a whole new-schema file contributes: one per record in
/// each of the twelve source lists.
pub open spec fn new_total_len(f: NewBeatmapFile) -> int {
    new_plain_len(f) + f.lightColorEventBoxGroups@.len() as int + f.lightRotationEventBoxGroups@.len()
        + f.lightTranslationEventBoxGroups@.len()
}

/// How an old-schema file normalizes: the four source lists flatten, in the
/// fixed order notes, sliders, obstacles, events; unused notes are dropped;
/// the new-schema-only members default.
pub open spec fn old_normalized(f: OldBeatmapFile, r: Beatmap) -> bool {
    &&& r.version == f._version
    &&& r.events@ == old_note_events(f._notes@) + f._sliders@.map_values(
        |s: schema::OldSlider| old_slider_to_event(s),
    ) + f._obstacles@.map_values(|o: schema::OldObstacle| old_obstacle_to_event(o))
        + f._events@.map_values(|e: schema::OldEvent| old_event_to_event(e))
    &&& r.waypoints == f._waypoints
    &&& r.basic_event_types_with_keywords@.len() == 0
    &&& r.use_normal_events_as_compatible_events == true
    &&& r.custom_data == f.customData
}

/// How a new-schema file normalizes: every source list maps one-to-one, in
/// the fixed cross-category order, and the top-level members carry over.
pub open spec fn new_normalized(f: NewBeatmapFile, r: Beatmap) -> bool {
    &&& r.version == f.version
    &&& r.events@.len() == new_total_len(f)
    &&& r.events@.take(new_plain_len(f)) == new_plain_events(f)
    &&& forall|j: int|
        0 <= j < f.lightColorEventBoxGroups@.len() ==> event_of_color_group(
            #[trigger] f.lightColorEventBoxGroups@[j],
            r.events@[new_plain_len(f) + j],
        )
    &&& forall|j: int|
        0 <= j < f.lightRotationEventBoxGroups@.len() ==> event_of_rotation_group(
            #[trigger] f.lightRotationEventBoxGroups@[j],
            r.events@[new_plain_len(f) + f.lightColorEventBoxGroups@.len() + j],
        )
    &&& forall|j: int|
        0 <= j < f.lightTranslationEventBoxGroups@.len() ==> event_of_translation_group(
            #[trigger] f.lightTranslationEventBoxGroups@[j],
            r.events@[new_plain_len(f) + f.lightColorEventBoxGroups@.len()
                + f.lightRotationEventBoxGroups@.len() + j],
        )
    &&& r.waypoints == f.waypoints
    &&& r.basic_event_types_with_keywords == f.basicEventTypesWithKeywords
    &&& r.use_normal_events_as_compatible_events == f.useNormalEventsAsCompatibleEvents
    &&& r.custom_data == f.customData
}

/// Appends the converted BPM records to the event list.
fn push_bpm_events(events: &mut Vec<Event>, list: &Vec<schema::BpmEvent>)
    ensures
        final(events)@ == old(events)@ + list@.map_values(|e: schema::BpmEvent| bpm_to_event(e)),
{
    let n = list.len();
    let mut i: usize = 0;
    proof {
        assert(events@.take(old(events)@.len() as int) =~= old(events)@);
    }
    while i < n
        invariant
            n == list@.len(),
            i <= n,
            events@.len() == old(events)@.len() + i,
            events@.take(old(events)@.len() as int) == old(events)@,
            forall|j: int|
                0 <= j < i ==> events@[old(events)@.len() + j] == bpm_to_event(list@[j]),
        decreases n - i,
    {
        let e = list[i];
        events.push(Event::BPM(BPMEvent { beat: e.b, value: e.m }));
        i = i + 1;
        proof {
            assert(events@.take(old(events)@.len() as int) =~= old(events)@);
        }
    }
    proof {
        assert(events@ =~= old(events)@ + list@.map_values(|e: schema::BpmEvent| bpm_to_event(e)));
    }
}

/// Appends the converted rotation records to the event list.
fn push_rotation_events(events: &mut Vec<Event>, list: &Vec<schema::RotationEvent>)
    ensures
        final(events)@ == old(events)@ + list@.map_values(|e: schema::RotationEvent| rotation_to_event(e)),
{
    let n = list.len();
    let mut i: usize = 0;
    proof {
        assert(events@.take(old(events)@.len() as int) =~= old(events)@);
    }
    while i < n
        invariant
            n == list@.len(),
            i <= n,
            events@.len() == old(events)@.len() + i,
            events@.take(old(events)@.len() as int) == old(events)@,
            forall|j: int|
                0 <= j < i ==> events@[old(events)@.len() + j] == rotation_to_event(list@[j]),
        decreases n - i,
    {
        let e = list[i];
        events.push(Event::Rotation(Rotation { beat: e.b, is_late: e.e, value: e.r }));
        i = i + 1;
        proof {
            assert(events@.take(old(events)@.len() as int) =~= old(events)@);
        }
    }
    proof {
        assert(events@ =~= old(events)@ + list@.map_values(|e: schema::RotationEvent| rotation_to_event(e)));
    }
}

/// Appends the converted colored note records to the event list.
fn push_color_note_events(events: &mut Vec<Event>, list: &Vec<schema::ColorNote>)
    ensures
        final(events)@ == old(events)@ + list@.map_values(|e: schema::ColorNote| color_note_to_event(e)),
{
    let n = list.len();
    let mut i: usize = 0;
    proof {
        assert(events@.take(old(events)@.len() as int) =~= old(events)@);
    }
    while i < n
        invariant
            n == list@.len(),
            i <= n,
            events@.len() == old(events)@.len() + i,
            events@.take(old(events)@.len() as int) == old(events)@,
            forall|j: int|
                0 <= j < i ==> events@[old(events)@.len() + j] == color_note_to_event(list@[j]),
        decreases n - i,
    {
        let e = list[i];
        events.push(Event::Note(
            Note {
                beat: e.b,
                x: e.x,
                y: e.y,
                color: e.c,
                direction: e.d,
                angle_offset: JsonNum::Int(e.a as i64),
            },
        ));
        i = i + 1;
        proof {
            assert(events@.take(old(events)@.len() as int) =~= old(events)@);
        }
    }
    proof {
        assert(events@ =~= old(events)@ + list@.map_values(|e: schema::ColorNote| color_note_to_event(e)));
    }
}

/// Appends the converted bomb records to the event list.
fn push_bomb_events(events: &mut Vec<Event>, list: &Vec<schema::BombNote>)
    ensures
        final(events)@ == old(events)@ + list@.map_values(|e: schema::BombNote| bomb_to_event(e)),
{
    let n = list.len();
    let mut i: usize = 0;
    proof {
        assert(events@.take(old(events)@.len() as int) =~= old(events)@);
    }
    while i < n
        invariant
            n == list@.len(),
            i <= n,
            events@.len() == old(events)@.len() + i,
            events@.take(old(events)@.len() as int) == old(events)@,
            forall|j: int|
                0 <= j < i ==> events@[old(events)@.len() + j] == bomb_to_event(list@[j]),
        decreases n - i,
    {
        let e = list[i];
        events.push(Event::Bomb(Bomb { beat: e.b, x: e.x, y: e.y }));
        i = i + 1;
        proof {
            assert(events@.take(old(events)@.len() as int) =~= old(events)@);
        }
    }
    proof {
        assert(events@ =~= old(events)@ + list@.map_values(|e: schema::BombNote| bomb_to_event(e)));
    }
}

/// Appends the converted slider records to the event list.
fn push_slider_events(events: &mut Vec<Event>, list: &Vec<schema::Slider>)
    ensures
        final(events)@ == old(events)@ + list@.map_values(|e: schema::Slider| slider_to_event(e)),
{
    let n = list.len();
    let mut i: usize = 0;
    proof {
        assert(events@.take(old(events)@.len() as int) =~= old(events)@);
    }
    while i < n
        invariant
            n == list@.len(),
            i <= n,
            events@.len() == old(events)@.len() + i,
            events@.take(old(events)@.len() as int) == old(events)@,
            forall|j: int|
                0 <= j < i ==> events@[old(events)@.len() + j] == slider_to_event(list@[j]),
        decreases n - i,
    {
        let e = list[i];
        events.push(Event::Slider(
            Slider {
                head_beat: e.b,
                color: e.c,
                head_x: e.x,
                head_y: e.y,
                head_direction: e.d,
                head_bulge: e.mu,
                tail_beat: e.tb,
                tail_x: e.tx,
                tail_y: e.ty,
                tail_direction: e.tc,
                tail_bulge: e.tmu,
                special_curving: e.m,
            },
        ));
        i = i + 1;
        proof {
            assert(events@.take(old(events)@.len() as int) =~= old(events)@);
        }
    }
    proof {
        assert(events@ =~= old(events)@ + list@.map_values(|e: schema::Slider| slider_to_event(e)));
    }
}

/// Appends the converted obstacle records to the event list.
fn push_obstacle_events(events: &mut Vec<Event>, list: &Vec<schema::Obstacle>)
    ensures
        final(events)@ == old(events)@ + list@.map_values(|e: schema::Obstacle| obstacle_to_event(e)),
{
    let n = list.len();
    let mut i: usize = 0;
    proof {
        assert(events@.take(old(events)@.len() as int) =~= old(events)@);
    }
    while i < n
        invariant
            n == list@.len(),
            i <= n,
            events@.len() == old(events)@.len() + i,
            events@.take(old(events)@.len() as int) == old(events)@,
            forall|j: int|
                0 <= j < i ==> events@[old(events)@.len() + j] == obstacle_to_event(list@[j]),
        decreases n - i,
    {
        let e = list[i];
        events.push(Event::Obstacle(
            Obstacle { beat: e.b, x: e.x, y: e.y, duration: e.d, width: e.w, height: e.h },
        ));
        i = i + 1;
        proof {
            assert(events@.take(old(events)@.len() as int) =~= old(events)@);
        }
    }
    proof {
        assert(events@ =~= old(events)@ + list@.map_values(|e: schema::Obstacle| obstacle_to_event(e)));
    }
}

/// Appends the converted burst slider records to the event list.
fn push_burst_slider_events(events: &mut Vec<Event>, list: &Vec<schema::BurstSlider>)
    ensures
        final(events)@ == old(events)@ + list@.map_values(|e: schema::BurstSlider| burst_slider_to_event(e)),
{
    let n = list.len();
    let mut i: usize = 0;
    proof {
        assert(events@.take(old(events)@.len() as int) =~= old(events)@);
    }
    while i < n
        invariant
            n == list@.len(),
            i <= n,
            events@.len() == old(events)@.len() + i,
            events@.take(old(events)@.len() as int) == old(events)@,
            forall|j: int|
                0 <= j < i ==> events@[old(events)@.len() + j] == burst_slider_to_event(list@[j]),
        decreases n - i,
    {
        let e = list[i];
        events.push(Event::BurstSlider(
            BurstSlider {
                head_beat: e.b,
                color: e.c,
                head_x: e.x,
                head_y: e.y,
                head_direction: e.d,
                tail_beat: e.tb,
                tail_x: e.tx,
                tail_y: e.ty,
                segment_count: e.sc,
                squish: e.s,
            },
        ));
        i = i + 1;
        proof {
            assert(events@.take(old(events)@.len() as int) =~= old(events)@);
        }
    }
    proof {
        assert(events@ =~= old(events)@ + list@.map_values(|e: schema::BurstSlider| burst_slider_to_event(e)));
    }
}

/// Appends the converted basic lighting records to the event list.
fn push_basic_events(events: &mut Vec<Event>, list: &Vec<schema::BasicBeatmapEvent>)
    ensures
        final(events)@ == old(events)@ + list@.map_values(|e: schema::BasicBeatmapEvent| basic_to_event(e)),
{
    let n = list.len();
    let mut i: usize = 0;
    proof {
        assert(events@.take(old(events)@.len() as int) =~= old(events)@);
    }
    while i < n
        invariant
            n == list@.len(),
            i <= n,
            events@.len() == old(events)@.len() + i,
            events@.take(old(events)@.len() as int) == old(events)@,
            forall|j: int|
                0 <= j < i ==> events@[old(events)@.len() + j] == basic_to_event(list@[j]),
        decreases n - i,
    {
        let e = list[i];
        events.push(Event::BasicEvent(
            BasicEvent {
                beat: e.b,
                kind: e.et,
                value: e.i,
                float_value: e.f,
                custom_data: None,
            },
        ));
        i = i + 1;
        proof {
            assert(events@.take(old(events)@.len() as int) =~= old(events)@);
        }
    }
    proof {
        assert(events@ =~= old(events)@ + list@.map_values(|e: schema::BasicBeatmapEvent| basic_to_event(e)));
    }
}

/// Appends the converted color boost records to the event list.
fn push_boost_events(events: &mut Vec<Event>, list: &Vec<schema::ColorBoostBeatmapEvent>)
    ensures
        final(events)@ == old(events)@ + list@.map_values(|e: schema::ColorBoostBeatmapEvent| boost_to_event(e)),
{
    let n = list.len();
    let mut i: usize = 0;
    proof {
        assert(events@.take(old(events)@.len() as int) =~= old(events)@);
    }
    while i < n
        invariant
            n == list@.len(),
            i <= n,
            events@.len() == old(events)@.len() + i,
            events@.take(old(events)@.len() as int) == old(events)@,
            forall|j: int|
                0 <= j < i ==> events@[old(events)@.len() + j] == boost_to_event(list@[j]),
        decreases n - i,
    {
        let e = list[i];
        events.push(Event::ColorBoost(ColorBoost { beat: e.b, enable: e.o }));
        i = i + 1;
        proof {
            assert(events@.take(old(events)@.len() as int) =~= old(events)@);
        }
    }
    proof {
        assert(events@ =~= old(events)@ + list@.map_values(|e: schema::ColorBoostBeatmapEvent| boost_to_event(e)));
    }
}

/// Appends the converted old-schema slider records to the event list.
fn push_old_slider_events(events: &mut Vec<Event>, list: &Vec<schema::OldSlider>)
    ensures
        final(events)@ == old(events)@ + list@.map_values(|e: schema::OldSlider| old_slider_to_event(e)),
{
    let n = list.len();
    let mut i: usize = 0;
    proof {
        assert(events@.take(old(events)@.len() as int) =~= old(events)@);
    }
    while i < n
        invariant
            n == list@.len(),
            i <= n,
            events@.len() == old(events)@.len() + i,
            events@.take(old(events)@.len() as int) == old(events)@,
            forall|j: int|
                0 <= j < i ==> events@[old(events)@.len() + j] == old_slider_to_event(list@[j]),
        decreases n - i,
    {
        let e = &list[i];
        events.push(Event::Slider(
            Slider {
                head_beat: e._headTime,
                color: e._colorType,
                head_x: e._headLineIndex,
                head_y: e._headLineLayer,
                head_direction: e._headCutDirection,
                head_bulge: e._headControlPointLengthMultiplier,
                tail_beat: e._tailTime,
                tail_x: e._tailLineIndex,
                tail_y: e._tailLineLayer,
                tail_direction: e._tailCutDirection,
                tail_bulge: e._tailControlPointLengthMultiplier,
                special_curving: e._sliderMidAnchorMode,
            },
        ));
        i = i + 1;
        proof {
            assert(events@.take(old(events)@.len() as int) =~= old(events)@);
        }
    }
    proof {
        assert(events@ =~= old(events)@ + list@.map_values(|e: schema::OldSlider| old_slider_to_event(e)));
    }
}

/// Appends the converted old-schema obstacle records to the event list.
fn push_old_obstacle_events(events: &mut Vec<Event>, list: &Vec<schema::OldObstacle>)
    ensures
        final(events)@ == old(events)@ + list@.map_values(
            |e: schema::OldObstacle| old_obstacle_to_event(e),
        ),
{
    let n = list.len();
    let mut i: usize = 0;
    proof {
        assert(events@.take(old(events)@.len() as int) =~= old(events)@);
    }
    while i < n
        invariant
            n == list@.len(),
            i <= n,
            events@.len() == old(events)@.len() + i,
            events@.take(old(events)@.len() as int) == old(events)@,
            forall|j: int|
                0 <= j < i ==> events@[old(events)@.len() + j] == old_obstacle_to_event(list@[j]),
        decreases n - i,
    {
        let e = &list[i];
        let full = e._type == OldObstacleKind::Full;
        events.push(
            Event::Obstacle(
                Obstacle {
                    beat: e._time,
                    x: e._lineIndex,
                    y: if full {
                        0
                    } else {
                        2
                    },
                    duration: e._duration,
                    width: e._width,
                    height: JsonNum::FloatBits(
                        if full {
                            FULL_OBSTACLE_HEIGHT_BITS
                        } else {
                            CROUCH_OBSTACLE_HEIGHT_BITS
                        },
                    ),
                },
            ),
        );
        i = i + 1;
        proof {
            assert(events@.take(old(events)@.len() as int) =~= old(events)@);
        }
    }
    proof {
        assert(events@ =~= old(events)@ + list@.map_values(
            |e: schema::OldObstacle| old_obstacle_to_event(e),
        ));
    }
}


/// Splits a raw filter object into the unified filter.
fn convert_filter(f: &schema::FilterObject) -> (r: BoxFilter)
    ensures
        r == filter_to_box(*f),
{
    let settings = match f.f {
        crate::common::BoxFilterKind::Sections => BoxFilterSettings::Sections {
            count: f.p,
            index: f.t,
        },
        crate::common::BoxFilterKind::StepAndOffset => BoxFilterSettings::StepAndOffset {
            start: f.p,
            skip: f.t,
        },
    };
    BoxFilter {
        chunks: f.c,
        settings,
        reverse: f.r,
        ordering: f.n,
        random_seed: f.s,
        limit: f.l,
        limit_kind: f.d,
    }
}

/// Collapses one color lane into the generic lane shape.
fn convert_color_lane(lane: schema::LightColorEventBoxGroupLane) -> (r: LightEventLane)
    ensures
        lane_of_color(lane, r),
{
    let ghost gl = lane;
    let mut steps: Vec<LightColorEvent> = Vec::new();
    let n = lane.e.len();
    let mut i: usize = 0;
    while i < n
        invariant
            n == gl.e@.len(),
            lane.e@ == gl.e@,
            i <= n,
            steps@.len() == i,
            forall|j: int| 0 <= j < i ==> steps@[j] == color_data_to_light(gl.e@[j]),
        decreases n - i,
    {
        let d = lane.e[i];
        steps.push(LightColorEvent {
            relative_beat: d.b,
            transition_kind: d.i,
            color: d.c,
            brightness: d.s,
            frequency: d.f,
        });
        i = i + 1;
    }
    proof {
        assert(steps@ =~= gl.e@.map_values(|d: schema::LightColorEventData| color_data_to_light(d)));
    }
    let filter = convert_filter(&lane.f);
    LightEventLane {
        filter,
        beat_dist: lane.w,
        beat_dist_kind: lane.d,
        dist: lane.r,
        dist_kind: lane.t,
        dist_affects_first_event: lane.b,
        dist_easing: lane.i,
        axis: None,
        reverse: None,
        events: LightEvents::Color(steps),
    }
}

/// Collapses one rotation lane into the generic lane shape.
fn convert_rotation_lane(lane: schema::LightRotationEventBoxGroupLane) -> (r: LightEventLane)
    ensures
        lane_of_rotation(lane, r),
{
    let ghost gl = lane;
    let mut steps: Vec<LightRotationEvent> = Vec::new();
    let n = lane.e.len();
    let mut i: usize = 0;
    while i < n
        invariant
            n == gl.e@.len(),
            lane.e@ == gl.e@,
            i <= n,
            steps@.len() == i,
            forall|j: int| 0 <= j < i ==> steps@[j] == rotation_data_to_light(gl.e@[j]),
        decreases n - i,
    {
        let d = lane.e[i];
        steps.push(LightRotationEvent {
            relative_beat: d.b,
            behaviour: d.p,
            easing: d.e,
            loops: d.l,
            amount: d.r,
            direction: d.o,
        });
        i = i + 1;
    }
    proof {
        assert(steps@ =~= gl.e@.map_values(|d: schema::LightRotationEventData| rotation_data_to_light(d)));
    }
    let filter = convert_filter(&lane.f);
    LightEventLane {
        filter,
        beat_dist: lane.w,
        beat_dist_kind: lane.d,
        dist: lane.s,
        dist_kind: lane.t,
        dist_affects_first_event: lane.b,
        dist_easing: lane.i,
        axis: Some(lane.a),
        reverse: Some(lane.r),
        events: LightEvents::Rotation(steps),
    }
}

/// Collapses one translation lane into the generic lane shape.
fn convert_translation_lane(lane: schema::LightTranslationEventBoxGroupLane) -> (r: LightEventLane)
    ensures
        lane_of_translation(lane, r),
{
    let ghost gl = lane;
    let mut steps: Vec<LightTranslationEvent> = Vec::new();
    let n = lane.l.len();
    let mut i: usize = 0;
    while i < n
        invariant
            n == gl.l@.len(),
            lane.l@ == gl.l@,
            i <= n,
            steps@.len() == i,
            forall|j: int| 0 <= j < i ==> steps@[j] == translation_data_to_light(gl.l@[j]),
        decreases n - i,
    {
        let d = lane.l[i];
        steps.push(LightTranslationEvent {
            relative_beat: d.b,
            rotation_behaviour: d.p,
            easing: d.e,
            amount: d.t,
        });
        i = i + 1;
    }
    proof {
        assert(steps@ =~= gl.l@.map_values(|d: schema::LightTranslationEventData| translation_data_to_light(d)));
    }
    let filter = convert_filter(&lane.f);
    LightEventLane {
        filter,
        beat_dist: lane.w,
        beat_dist_kind: lane.d,
        dist: lane.s,
        dist_kind: lane.t,
        dist_affects_first_event: lane.b,
        dist_easing: lane.i,
        axis: Some(lane.a),
        reverse: Some(lane.r),
        events: LightEvents::Translation(steps),
    }
}

/// Converts one color box group into a unified light event box.
fn convert_color_group(g: schema::LightColorEventBoxGroup) -> (r: LightEventBox)
    ensures
        box_of_color(g, r),
{
    let beat = g.b;
    let group = g.g;
    let ghost gsrc = g.e@;
    let mut src = g.e;
    let mut lanes: Vec<LightEventLane> = Vec::new();
    while src.len() > 0
        invariant
            gsrc.len() == lanes@.len() + src@.len(),
            src@ == gsrc.skip(lanes@.len() as int),
            forall|t: int|
                0 <= t < lanes@.len() ==> lane_of_color(#[trigger] gsrc[t], lanes@[t]),
        decreases src@.len(),
    {
        let ghost j = lanes@.len() as int;
        let lane = src.remove(0);
        proof {
            assert(gsrc.skip(j).remove(0) =~= gsrc.skip(j + 1));
        }
        lanes.push(convert_color_lane(lane));
    }
    LightEventBox { beat, group, lanes }
}

/// Converts one rotation box group into a unified light event box.
fn convert_rotation_group(g: schema::LightRotationEventBoxGroup) -> (r: LightEventBox)
    ensures
        box_of_rotation(g, r),
{
    let beat = g.b;
    let group = g.g;
    let ghost gsrc = g.e@;
    let mut src = g.e;
    let mut lanes: Vec<LightEventLane> = Vec::new();
    while src.len() > 0
        invariant
            gsrc.len() == lanes@.len() + src@.len(),
            src@ == gsrc.skip(lanes@.len() as int),
            forall|t: int|
                0 <= t < lanes@.len() ==> lane_of_rotation(#[trigger] gsrc[t], lanes@[t]),
        decreases src@.len(),
    {
        let ghost j = lanes@.len() as int;
        let lane = src.remove(0);
        proof {
            assert(gsrc.skip(j).remove(0) =~= gsrc.skip(j + 1));
        }
        lanes.push(convert_rotation_lane(lane));
    }
    LightEventBox { beat, group, lanes }
}

/// Converts one translation box group into a unified light event box.
fn convert_translation_group(g: schema::LightTranslationEventBoxGroup) -> (r: LightEventBox)
    ensures
        box_of_translation(g, r),
{
    let beat = g.b;
    let group = g.g;
    let ghost gsrc = g.e@;
    let mut src = g.e;
    let mut lanes: Vec<LightEventLane> = Vec::new();
    while src.len() > 0
        invariant
            gsrc.len() == lanes@.len() + src@.len(),
            src@ == gsrc.skip(lanes@.len() as int),
            forall|t: int|
                0 <= t < lanes@.len() ==> lane_of_translation(#[trigger] gsrc[t], lanes@[t]),
        decreases src@.len(),
    {
        let ghost j = lanes@.len() as int;
        let lane = src.remove(0);
        proof {
            assert(gsrc.skip(j).remove(0) =~= gsrc.skip(j + 1));
        }
        lanes.push(convert_translation_lane(lane));
    }
    LightEventBox { beat, group, lanes }
}


/// Normalizes an old-schema file: four source lists flatten into one event
/// sequence in the fixed order notes, sliders, obstacles, events.
pub fn normalize_old(f: OldBeatmapFile) -> (r: Beatmap)
    ensures
        old_normalized(f, r),
{
    let ghost gf = f;
    let mut events: Vec<Event> = Vec::new();
    let n = f._notes.len();
    let mut i: usize = 0;
    proof {
        assert(gf._notes@.take(0) =~= Seq::<schema::OldNote>::empty());
    }
    while i < n
        invariant
            f._notes@ == gf._notes@,
            n == gf._notes@.len(),
            i <= n,
            events@ == old_note_events(gf._notes@.take(i as int)),
        decreases n - i,
    {
        let note = &f._notes[i];
        proof {
            assert(gf._notes@.take(i as int + 1).drop_last() =~= gf._notes@.take(i as int));
            assert(gf._notes@.take(i as int + 1).last() == gf._notes@[i as int]);
        }
        match note._type {
            OldNoteKind::Unused => {},
            OldNoteKind::Bomb => {
                events.push(
                    Event::Bomb(Bomb { beat: note._time, x: note._lineIndex, y: note._lineLayer }),
                );
            },
            OldNoteKind::Red => {
                events.push(
                    Event::Note(
                        Note {
                            beat: note._time,
                            x: note._lineIndex,
                            y: note._lineLayer,
                            color: NoteColor::Red,
                            direction: note._cutDirection,
                            angle_offset: JsonNum::Int(0),
                        },
                    ),
                );
            },
            OldNoteKind::Blue => {
                events.push(
                    Event::Note(
                        Note {
                            beat: note._time,
                            x: note._lineIndex,
                            y: note._lineLayer,
                            color: NoteColor::Blue,
                            direction: note._cutDirection,
                            angle_offset: JsonNum::Int(0),
                        },
                    ),
                );
            },
        }
        i = i + 1;
    }
    proof {
        assert(gf._notes@.take(n as int) =~= gf._notes@);
    }
    push_old_slider_events(&mut events, &f._sliders);
    push_old_obstacle_events(&mut events, &f._obstacles);
    let mut src = f._events;
    let ghost gevs = gf._events@;
    let mut basics: Vec<Event> = Vec::new();
    while src.len() > 0
        invariant
            gevs.len() == basics@.len() + src@.len(),
            src@ == gevs.skip(basics@.len() as int),
            forall|t: int|
                0 <= t < basics@.len() ==> basics@[t] == old_event_to_event(#[trigger] gevs[t]),
        decreases src@.len(),
    {
        let ghost j = basics@.len() as int;
        let e = src.remove(0);
        proof {
            assert(gevs.skip(j).remove(0) =~= gevs.skip(j + 1));
        }
        basics.push(
            Event::BasicEvent(
                BasicEvent {
                    beat: e._time,
                    kind: e._type,
                    value: e._value,
                    float_value: e._floatValue,
                    custom_data: e._customData,
                },
            ),
        );
    }
    proof {
        assert(basics@ =~= gf._events@.map_values(|e: schema::OldEvent| old_event_to_event(e)));
    }
    events.append(&mut basics);
    proof {
        assert(events@ =~= old_note_events(gf._notes@) + gf._sliders@.map_values(
            |s: schema::OldSlider| old_slider_to_event(s),
        ) + gf._obstacles@.map_values(|o: schema::OldObstacle| old_obstacle_to_event(o))
            + gf._events@.map_values(|e: schema::OldEvent| old_event_to_event(e)));
    }
    Beatmap {
        version: f._version,
        events,
        waypoints: f._waypoints,
        basic_event_types_with_keywords: Vec::new(),
        use_normal_events_as_compatible_events: true,
        custom_data: f.customData,
    }
}

/// Normalizes a new-schema file: all twelve source lists map one-to-one
/// into events, concatenated in the fixed cross-category order.
pub fn normalize_new(f: NewBeatmapFile) -> (r: Beatmap)
    ensures
        new_normalized(f, r),
{
    let ghost gf = f;
    let mut events: Vec<Event> = Vec::new();
    push_bpm_events(&mut events, &f.bpmEvents);
    push_rotation_events(&mut events, &f.rotationEvents);
    push_color_note_events(&mut events, &f.colorNotes);
    push_bomb_events(&mut events, &f.bombNotes);
    push_slider_events(&mut events, &f.sliders);
    push_obstacle_events(&mut events, &f.obstacles);
    push_burst_slider_events(&mut events, &f.burstSliders);
    push_basic_events(&mut events, &f.basicBeatmapEvents);
    push_boost_events(&mut events, &f.colorBoostBeatmapEvents);
    proof {
        assert(events@ =~= new_plain_events(gf));
        assert(events@.len() == new_plain_len(gf));
    }
    let ghost base0 = events@;
    let ghost cg = gf.lightColorEventBoxGroups@;
    let mut csrc = f.lightColorEventBoxGroups;
    while csrc.len() > 0
        invariant
            events@.len() >= base0.len(),
            cg.len() + base0.len() == events@.len() + csrc@.len(),
            csrc@ == cg.skip((events@.len() - base0.len()) as int),
            events@.take(base0.len() as int) == base0,
            forall|t: int|
                0 <= t < events@.len() - base0.len() ==> event_of_color_group(
                    #[trigger] cg[t],
                    events@[base0.len() + t],
                ),
        decreases csrc@.len(),
    {
        let ghost j = (events@.len() - base0.len()) as int;
        let g = csrc.remove(0);
        proof {
            assert(cg.skip(j).remove(0) =~= cg.skip(j + 1));
        }
        let bx = convert_color_group(g);
        events.push(Event::LightEventBox(bx));
        proof {
            assert(events@.take(base0.len() as int) =~= base0);
        }
    }
    let ghost base1 = events@;
    let ghost rg = gf.lightRotationEventBoxGroups@;
    let mut rsrc = f.lightRotationEventBoxGroups;
    while rsrc.len() > 0
        invariant
            events@.len() >= base1.len(),
            rg.len() + base1.len() == events@.len() + rsrc@.len(),
            rsrc@ == rg.skip((events@.len() - base1.len()) as int),
            events@.take(base1.len() as int) == base1,
            forall|t: int|
                0 <= t < events@.len() - base1.len() ==> event_of_rotation_group(
                    #[trigger] rg[t],
                    events@[base1.len() + t],
                ),
        decreases rsrc@.len(),
    {
        let ghost j = (events@.len() - base1.len()) as int;
        let g = rsrc.remove(0);
        proof {
            assert(rg.skip(j).remove(0) =~= rg.skip(j + 1));
        }
        let bx = convert_rotation_group(g);
        events.push(Event::LightEventBox(bx));
        proof {
            assert(events@.take(base1.len() as int) =~= base1);
        }
    }
    let ghost base2 = events@;
    let ghost tg = gf.lightTranslationEventBoxGroups@;
    let mut tsrc = f.lightTranslationEventBoxGroups;
    while tsrc.len() > 0
        invariant
            events@.len() >= base2.len(),
            tg.len() + base2.len() == events@.len() + tsrc@.len(),
            tsrc@ == tg.skip((events@.len() - base2.len()) as int),
            events@.take(base2.len() as int) == base2,
            forall|t: int|
                0 <= t < events@.len() - base2.len() ==> event_of_translation_group(
                    #[trigger] tg[t],
                    events@[base2.len() + t],
                ),
        decreases tsrc@.len(),
    {
        let ghost j = (events@.len() - base2.len()) as int;
        let g = tsrc.remove(0);
        proof {
            assert(tg.skip(j).remove(0) =~= tg.skip(j + 1));
        }
        let bx = convert_translation_group(g);
        events.push(Event::LightEventBox(bx));
        proof {
            assert(events@.take(base2.len() as int) =~= base2);
        }
    }
    proof {
        assert(base1.len() == base0.len() + cg.len());
        assert(base2.len() == base1.len() + rg.len());
        assert(events@.len() == base2.len() + tg.len());
        assert(events@.take(base2.len() as int) == base2);
        assert(base2.take(base1.len() as int) == base1);
        assert(base1.take(base0.len() as int) == base0);
        assert forall|idx: int| 0 <= idx < base2.len() implies events@[idx] == base2[idx] by {
            assert(events@.take(base2.len() as int)[idx] == events@[idx]);
        }
        assert forall|idx: int| 0 <= idx < base1.len() implies base2[idx] == base1[idx] by {
            assert(base2.take(base1.len() as int)[idx] == base2[idx]);
        }
        assert forall|idx: int| 0 <= idx < base0.len() implies base1[idx] == base0[idx] by {
            assert(base1.take(base0.len() as int)[idx] == base1[idx]);
        }
        assert(events@.take(new_plain_len(gf)) =~= new_plain_events(gf));
        assert forall|t: int| 0 <= t < cg.len() implies event_of_color_group(
            cg[t],
            events@[new_plain_len(gf) + t],
        ) by {
            assert(event_of_color_group(cg[t], base1[base0.len() + t]));
            assert(base2[base0.len() + t] == base1[base0.len() + t]);
            assert(events@[base0.len() + t] == base2[base0.len() + t]);
        }
        assert forall|t: int| 0 <= t < rg.len() implies event_of_rotation_group(
            rg[t],
            events@[new_plain_len(gf) + cg.len() + t],
        ) by {
            assert(event_of_rotation_group(rg[t], base2[base1.len() + t]));
            assert(events@[base1.len() + t] == base2[base1.len() + t]);
        }
    }
    Beatmap {
        version: f.version,
        events,
        waypoints: f.waypoints,
        basic_event_types_with_keywords: f.basicEventTypesWithKeywords,
        use_normal_events_as_compatible_events: f.useNormalEventsAsCompatibleEvents,
        custom_data: f.customData,
    }
}

impl Beatmap {
    /// Normalizes a matched schema file into the unified model. Total: by
    /// this point the document already matched one known shape, so there is
    /// no failure path.
    pub fn from_beatmap_file(file: BeatmapFile) -> (r: Beatmap)
        ensures
            match file {
                BeatmapFile::Old(f) => old_normalized(f, r),
                BeatmapFile::New(f) => new_normalized(f, r),
            },
    {
        match file {
            BeatmapFile::Old(f) => normalize_old(f),
            BeatmapFile::New(f) => normalize_new(f),
        }
    }

    /// Full pipeline on a decoded document: detect which schema shape it
    /// matches (the new shape winning ties), then normalize. A document
    /// matching neither shape is rejected with both diagnostics.
    pub fn from_document(doc: &JsonValue) -> (r: Result<Beatmap, Error>)
        ensures
            r is Ok <==> (new_shape_ok(*doc) || old_shape_ok(*doc)),
            new_shape_ok(*doc) ==> (exists|f: NewBeatmapFile|
                #[trigger] new_rel(*doc, f) && new_normalized(f, r->Ok_0)),
            !new_shape_ok(*doc) && old_shape_ok(*doc) ==> (exists|f: OldBeatmapFile|
                #[trigger] old_rel(*doc, f) && old_normalized(f, r->Ok_0)),
            r is Err ==> r->Err_0 is BeatmapParsingFailed,
    {
        match BeatmapFile::from_document(doc) {
            Ok(file) => {
                let ghost gfile = file;
                let b = Beatmap::from_beatmap_file(file);
                proof {
                    if new_shape_ok(*doc) {
                        assert(new_rel(*doc, gfile->New_0) && new_normalized(gfile->New_0, b));
                    } else {
                        assert(old_rel(*doc, gfile->Old_0) && old_normalized(gfile->Old_0, b));
                    }
                }
                Ok(b)
            },
            Err(e) => Err(e),
        }
    }
}


/// Counting law for old-schema note filtering: a run of notes contributes
/// exactly one event per note that is not an unused slot.
pub proof fn lemma_old_note_filtering(s: Seq<schema::OldNote>)
    ensures
        count_unused(s) <= s.len(),
        old_note_events(s).len() == s.len() - count_unused(s),
    decreases s.len(),
{
    if s.len() > 0 {
        lemma_old_note_filtering(s.drop_last());
    }
}

/// Counting law for old-schema normalization: the event sequence holds one
/// event per slider, obstacle, and generic event, and one per note that is
/// not an unused slot.
pub proof fn lemma_old_event_count(f: OldBeatmapFile, r: Beatmap)
    requires
        old_normalized(f, r),
    ensures
        r.events@.len() == f._notes@.len() - count_unused(f._notes@) + f._sliders@.len()
            + f._obstacles@.len() + f._events@.len(),
{
    lemma_old_note_filtering(f._notes@);
}

/// Expansion law for old-schema obstacles: a full-height obstacle expands
/// to `(y = 0, height = 5)` and a crouch obstacle to `(y = 2, height = 2)`,
/// whatever width it carries.
pub proof fn lemma_obstacle_expansion(o: schema::OldObstacle)
    ensures
        old_obstacle_to_event(o) is Obstacle,
        old_obstacle_to_event(o)->Obstacle_0.width == o._width,
        o._type == OldObstacleKind::Full ==> old_obstacle_to_event(o)->Obstacle_0.y == 0
            && old_obstacle_to_event(o)->Obstacle_0.height == JsonNum::FloatBits(
            FULL_OBSTACLE_HEIGHT_BITS,
        ),
        o._type == OldObstacleKind::Crouch ==> old_obstacle_to_event(o)->Obstacle_0.y == 2
            && old_obstacle_to_event(o)->Obstacle_0.height == JsonNum::FloatBits(
            CROUCH_OBSTACLE_HEIGHT_BITS,
        ),
{
}

/// Field-mapping law for lane collapsing: a color lane's generic `dist`
/// comes from its `r` member and it carries no axis or reverse flag, while
/// a rotation lane's `dist` comes from its `s` member and both are present.
pub proof fn lemma_lane_field_mapping(
    c: schema::LightColorEventBoxGroupLane,
    cl: LightEventLane,
    t: schema::LightRotationEventBoxGroupLane,
    rl: LightEventLane,
)
    requires
        lane_of_color(c, cl),
        lane_of_rotation(t, rl),
    ensures
        cl.dist == c.r,
        cl.axis is None,
        cl.reverse is None,
        rl.dist == t.s,
        rl.axis == Some(t.a),
        rl.reverse == Some(t.r),
{
}

/// Counting law for new-schema normalization: the event sequence holds one
/// event per record across all twelve source lists.
pub proof fn lemma_new_event_count(f: NewBeatmapFile, r: Beatmap)
    requires
        new_normalized(f, r),
    ensures
        r.events@.len() == f.bpmEvents@.len() + f.rotationEvents@.len() + f.colorNotes@.len()
            + f.bombNotes@.len() + f.sliders@.len() + f.obstacles@.len() + f.burstSliders@.len()
            + f.basicBeatmapEvents@.len() + f.colorBoostBeatmapEvents@.len()
            + f.lightColorEventBoxGroups@.len() + f.lightRotationEventBoxGroups@.len()
            + f.lightTranslationEventBoxGroups@.len(),
{
}


/// The events of a run of old-schema notes are exactly the notes that are
/// not unused slots, kept in order and converted one-to-one.
pub proof fn lemma_old_note_events_is_filter(s: Seq<schema::OldNote>)
    ensures
        old_note_events(s) == s.filter(|n: schema::OldNote| n._type != OldNoteKind::Unused)
            .map_values(|n: schema::OldNote| old_note_to_event(n)),
    decreases s.len(),
{
    reveal(Seq::filter);
    let pred = |n: schema::OldNote| n._type != OldNoteKind::Unused;
    let conv = |n: schema::OldNote| old_note_to_event(n);
    if s.len() == 0 {
        assert(s.filter(pred).map_values(conv) =~= Seq::<Event>::empty());
    } else {
        lemma_old_note_events_is_filter(s.drop_last());
        if pred(s.last()) {
            assert(s.filter(pred) == s.drop_last().filter(pred).push(s.last()));
            assert(s.filter(pred).map_values(conv) =~= s.drop_last().filter(pred).map_values(
                conv,
            ).push(conv(s.last())));
            assert(old_note_events(s) =~= s.filter(pred).map_values(conv));
        } else {
            assert(s.filter(pred) == s.drop_last().filter(pred));
            assert(old_note_events(s) =~= s.filter(pred).map_values(conv));
        }
    }
}

} // verus!
