//! The diff engine: field-by-field comparison of two consecutive snapshots
//! of one device's raw state, emitting exactly one canonical event per
//! changed field, in a fixed enumeration order.

use vstd::prelude::*;

use crate::codes::{
    AXIS_LSTICKX, AXIS_LSTICKY, AXIS_LT2, AXIS_RSTICKX, AXIS_RSTICKY, AXIS_RT2, BIT_A, BIT_B,
    BIT_BACK, BIT_DPAD_DOWN, BIT_DPAD_LEFT, BIT_DPAD_RIGHT, BIT_DPAD_UP, BIT_GUIDE,
    BIT_LEFT_SHOULDER, BIT_LEFT_THUMB, BIT_RIGHT_SHOULDER, BIT_RIGHT_THUMB, BIT_START, BIT_X,
    BIT_Y, BTN_DPAD_DOWN, BTN_DPAD_LEFT, BTN_DPAD_RIGHT, BTN_DPAD_UP, BTN_EAST, BTN_LT,
    BTN_LTHUMB, BTN_MODE, BTN_NORTH, BTN_RT, BTN_RTHUMB, BTN_SELECT, BTN_SOUTH, BTN_START,
    BTN_WEST, EvCode,
};
use crate::events::{
    all_events_name_slot, connectivity_events, lemma_all_events_name_slot_add,
    lemma_connectivity_events_add, lemma_connectivity_events_single, RawEvent, RawEventType,
};

verus! {

/// An in-memory copy of one device's raw hardware state for one polling
/// tick: the 16-bit button mask and the six raw axis values. Immutable once
/// captured; replaced wholesale each tick.
#[derive(Clone, Copy, Debug, Eq, PartialEq, Structural)]
pub struct Snapshot {
    pub buttons: u16,
    pub left_trigger: u8,
    pub right_trigger: u8,
    pub thumb_lx: i16,
    pub thumb_ly: i16,
    pub thumb_rx: i16,
    pub thumb_ry: i16,
}

impl Snapshot {
    /// The all-zero state: no button held, every axis at rest.
    pub fn zeroed() -> (r: Snapshot)
        ensures
            r == (Snapshot {
                buttons: 0u16,
                left_trigger: 0u8,
                right_trigger: 0u8,
                thumb_lx: 0i16,
                thumb_ly: 0i16,
                thumb_rx: 0i16,
                thumb_ry: 0i16,
            }),
    {
        Snapshot {
            buttons: 0,
            left_trigger: 0,
            right_trigger: 0,
            thumb_lx: 0,
            thumb_ly: 0,
            thumb_rx: 0,
            thumb_ry: 0,
        }
    }
}

/// True when the two button masks agree on the bit (or bits) selected by
/// `mask`: either both have one set there, or neither does.
pub fn is_mask_eq(l: u16, r: u16, mask: u16) -> (res: bool)
    ensures
        res == ((l & mask != 0) == (r & mask != 0)),
{
    (l & mask != 0) == (r & mask != 0)
}

/// The events one axis contributes to a diff: a single `AxisValueChanged`
/// carrying the new raw value when the axis moved, nothing otherwise.
pub open spec fn axis_events(id: usize, cur: i32, prev: i32, code: EvCode) -> Seq<RawEvent> {
    if cur != prev {
        seq![RawEvent { id, event: RawEventType::AxisValueChanged(cur, code) }]
    } else {
        Seq::empty()
    }
}

/// The events one button bit contributes to a diff: a single
/// `ButtonPressed` when the bit is newly set, a single `ButtonReleased`
/// when it is newly clear, nothing when it did not change.
pub open spec fn button_events(id: usize, cur: u16, prev: u16, mask: u16, code: EvCode) -> Seq<
    RawEvent,
> {
    if (cur & mask != 0) == (prev & mask != 0) {
        Seq::empty()
    } else if cur & mask != 0 {
        seq![RawEvent { id, event: RawEventType::ButtonPressed(code) }]
    } else {
        seq![RawEvent { id, event: RawEventType::ButtonReleased(code) }]
    }
}

/// The full diff of snapshot `g` against the previous snapshot `pg` for
/// slot `id`: the six axes in fixed order, then the fifteen known button
/// bits in fixed order. Each independently changed field contributes
/// exactly one event; unrelated fields never interact.
pub open spec fn spec_compare(id: usize, g: Snapshot, pg: Snapshot) -> Seq<RawEvent> {
    axis_events(id, g.left_trigger as i32, pg.left_trigger as i32, EvCode(AXIS_LT2))
        + axis_events(id, g.right_trigger as i32, pg.right_trigger as i32, EvCode(AXIS_RT2))
        + axis_events(id, g.thumb_lx as i32, pg.thumb_lx as i32, EvCode(AXIS_LSTICKX))
        + axis_events(id, g.thumb_ly as i32, pg.thumb_ly as i32, EvCode(AXIS_LSTICKY))
        + axis_events(id, g.thumb_rx as i32, pg.thumb_rx as i32, EvCode(AXIS_RSTICKX))
        + axis_events(id, g.thumb_ry as i32, pg.thumb_ry as i32, EvCode(AXIS_RSTICKY))
        + button_events(id, g.buttons, pg.buttons, BIT_DPAD_UP, EvCode(BTN_DPAD_UP))
        + button_events(id, g.buttons, pg.buttons, BIT_DPAD_DOWN, EvCode(BTN_DPAD_DOWN))
        + button_events(id, g.buttons, pg.buttons, BIT_DPAD_LEFT, EvCode(BTN_DPAD_LEFT))
        + button_events(id, g.buttons, pg.buttons, BIT_DPAD_RIGHT, EvCode(BTN_DPAD_RIGHT))
        + button_events(id, g.buttons, pg.buttons, BIT_START, EvCode(BTN_START))
        + button_events(id, g.buttons, pg.buttons, BIT_BACK, EvCode(BTN_SELECT))
        + button_events(id, g.buttons, pg.buttons, BIT_LEFT_THUMB, EvCode(BTN_LTHUMB))
        + button_events(id, g.buttons, pg.buttons, BIT_RIGHT_THUMB, EvCode(BTN_RTHUMB))
        + button_events(id, g.buttons, pg.buttons, BIT_LEFT_SHOULDER, EvCode(BTN_LT))
        + button_events(id, g.buttons, pg.buttons, BIT_RIGHT_SHOULDER, EvCode(BTN_RT))
        + button_events(id, g.buttons, pg.buttons, BIT_A, EvCode(BTN_SOUTH))
        + button_events(id, g.buttons, pg.buttons, BIT_B, EvCode(BTN_EAST))
        + button_events(id, g.buttons, pg.buttons, BIT_X, EvCode(BTN_WEST))
        + button_events(id, g.buttons, pg.buttons, BIT_Y, EvCode(BTN_NORTH))
        + button_events(id, g.buttons, pg.buttons, BIT_GUIDE, EvCode(BTN_MODE))
}

/// Appends the events one axis contributes to the diff.
fn push_axis(events: &mut Vec<RawEvent>, id: usize, cur: i32, prev: i32, code: EvCode)
    ensures
        final(events)@ == old(events)@ + axis_events(id, cur, prev, code),
{
    if cur != prev {
        events.push(RawEvent { id, event: RawEventType::AxisValueChanged(cur, code) });
    }
    proof {
        assert(events@ =~= old(events)@ + axis_events(id, cur, prev, code));
    }
}

/// Appends the events one button bit contributes to the diff.
fn push_button(events: &mut Vec<RawEvent>, id: usize, cur: u16, prev: u16, mask: u16, code: EvCode)
    ensures
        final(events)@ == old(events)@ + button_events(id, cur, prev, mask, code),
{
    if !is_mask_eq(cur, prev, mask) {
        if cur & mask != 0 {
            events.push(RawEvent { id, event: RawEventType::ButtonPressed(code) });
        } else {
            events.push(RawEvent { id, event: RawEventType::ButtonReleased(code) });
        }
    }
    proof {
        assert(events@ =~= old(events)@ + button_events(id, cur, prev, mask, code));
    }
}

/// Diffs snapshot `g` against the previous snapshot `pg` for slot `id` and
/// returns the canonical events, one per changed field, in the fixed
/// enumeration order of `spec_compare`.
pub fn compare_state(id: usize, g: &Snapshot, pg: &Snapshot) -> (events: Vec<RawEvent>)
    ensures
        events@ == spec_compare(id, *g, *pg),
{
    let mut events: Vec<RawEvent> = Vec::new();
    push_axis(&mut events, id, g.left_trigger as i32, pg.left_trigger as i32, EvCode(AXIS_LT2));
    push_axis(&mut events, id, g.right_trigger as i32, pg.right_trigger as i32, EvCode(AXIS_RT2));
    push_axis(&mut events, id, g.thumb_lx as i32, pg.thumb_lx as i32, EvCode(AXIS_LSTICKX));
    push_axis(&mut events, id, g.thumb_ly as i32, pg.thumb_ly as i32, EvCode(AXIS_LSTICKY));
    push_axis(&mut events, id, g.thumb_rx as i32, pg.thumb_rx as i32, EvCode(AXIS_RSTICKX));
    push_axis(&mut events, id, g.thumb_ry as i32, pg.thumb_ry as i32, EvCode(AXIS_RSTICKY));
    push_button(&mut events, id, g.buttons, pg.buttons, BIT_DPAD_UP, EvCode(BTN_DPAD_UP));
    push_button(&mut events, id, g.buttons, pg.buttons, BIT_DPAD_DOWN, EvCode(BTN_DPAD_DOWN));
    push_button(&mut events, id, g.buttons, pg.buttons, BIT_DPAD_LEFT, EvCode(BTN_DPAD_LEFT));
    push_button(&mut events, id, g.buttons, pg.buttons, BIT_DPAD_RIGHT, EvCode(BTN_DPAD_RIGHT));
    push_button(&mut events, id, g.buttons, pg.buttons, BIT_START, EvCode(BTN_START));
    push_button(&mut events, id, g.buttons, pg.buttons, BIT_BACK, EvCode(BTN_SELECT));
    push_button(&mut events, id, g.buttons, pg.buttons, BIT_LEFT_THUMB, EvCode(BTN_LTHUMB));
    push_button(&mut events, id, g.buttons, pg.buttons, BIT_RIGHT_THUMB, EvCode(BTN_RTHUMB));
    push_button(&mut events, id, g.buttons, pg.buttons, BIT_LEFT_SHOULDER, EvCode(BTN_LT));
    push_button(&mut events, id, g.buttons, pg.buttons, BIT_RIGHT_SHOULDER, EvCode(BTN_RT));
    push_button(&mut events, id, g.buttons, pg.buttons, BIT_A, EvCode(BTN_SOUTH));
    push_button(&mut events, id, g.buttons, pg.buttons, BIT_B, EvCode(BTN_EAST));
    push_button(&mut events, id, g.buttons, pg.buttons, BIT_X, EvCode(BTN_WEST));
    push_button(&mut events, id, g.buttons, pg.buttons, BIT_Y, EvCode(BTN_NORTH));
    push_button(&mut events, id, g.buttons, pg.buttons, BIT_GUIDE, EvCode(BTN_MODE));
    proof {
        assert(events@ =~= spec_compare(id, *g, *pg));
    }
    events
}

/// Diffing a snapshot against itself emits no events.
pub proof fn lemma_compare_self(id: usize, s: Snapshot)
    ensures
        spec_compare(id, s, s) == Seq::<RawEvent>::empty(),
{
    assert(spec_compare(id, s, s) =~= Seq::<RawEvent>::empty());
}

/// Names one of the six diffed axis fields of a snapshot.
#[derive(Clone, Copy, Debug, Eq, PartialEq, Structural)]
pub enum AxisField {
    LeftTrigger,
    RightTrigger,
    ThumbLx,
    ThumbLy,
    ThumbRx,
    ThumbRy,
}

/// The raw value a snapshot holds for one axis field, widened as the diff
/// reports it.
pub open spec fn axis_field_value(s: Snapshot, a: AxisField) -> i32 {
    match a {
        AxisField::LeftTrigger => s.left_trigger as i32,
        AxisField::RightTrigger => s.right_trigger as i32,
        AxisField::ThumbLx => s.thumb_lx as i32,
        AxisField::ThumbLy => s.thumb_ly as i32,
        AxisField::ThumbRx => s.thumb_rx as i32,
        AxisField::ThumbRy => s.thumb_ry as i32,
    }
}

/// The canonical code the diff reports for one axis field.
pub open spec fn axis_field_code(a: AxisField) -> EvCode {
    match a {
        AxisField::LeftTrigger => EvCode(AXIS_LT2),
        AxisField::RightTrigger => EvCode(AXIS_RT2),
        AxisField::ThumbLx => EvCode(AXIS_LSTICKX),
        AxisField::ThumbLy => EvCode(AXIS_LSTICKY),
        AxisField::ThumbRx => EvCode(AXIS_RSTICKX),
        AxisField::ThumbRy => EvCode(AXIS_RSTICKY),
    }
}

/// Two snapshots agree everywhere except, at most, in the one axis field
/// `a`: same button mask and the same value in every other axis field.
pub open spec fn equal_except_axis(g: Snapshot, pg: Snapshot, a: AxisField) -> bool {
    g.buttons == pg.buttons && (forall|b: AxisField|
        b != a ==> #[trigger] axis_field_value(g, b) == axis_field_value(pg, b))
}

/// When two snapshots differ in exactly one axis field, the diff emits
/// exactly one `AxisValueChanged` event, carrying that field's new raw
/// value and its canonical code, and nothing else.
pub proof fn lemma_single_axis_change(id: usize, g: Snapshot, pg: Snapshot, a: AxisField)
    requires
        equal_except_axis(g, pg, a),
        axis_field_value(g, a) != axis_field_value(pg, a),
    ensures
        spec_compare(id, g, pg) == seq![
            RawEvent {
                id,
                event: RawEventType::AxisValueChanged(axis_field_value(g, a), axis_field_code(a)),
            },
        ],
{
    assert(a != AxisField::LeftTrigger ==> g.left_trigger == pg.left_trigger) by {
        if a != AxisField::LeftTrigger {
            assert(axis_field_value(g, AxisField::LeftTrigger) == axis_field_value(
                pg,
                AxisField::LeftTrigger,
            ));
        }
    }
    assert(a != AxisField::RightTrigger ==> g.right_trigger == pg.right_trigger) by {
        if a != AxisField::RightTrigger {
            assert(axis_field_value(g, AxisField::RightTrigger) == axis_field_value(
                pg,
                AxisField::RightTrigger,
            ));
        }
    }
    assert(a != AxisField::ThumbLx ==> g.thumb_lx == pg.thumb_lx) by {
        if a != AxisField::ThumbLx {
            assert(axis_field_value(g, AxisField::ThumbLx) == axis_field_value(
                pg,
                AxisField::ThumbLx,
            ));
        }
    }
    assert(a != AxisField::ThumbLy ==> g.thumb_ly == pg.thumb_ly) by {
        if a != AxisField::ThumbLy {
            assert(axis_field_value(g, AxisField::ThumbLy) == axis_field_value(
                pg,
                AxisField::ThumbLy,
            ));
        }
    }
    assert(a != AxisField::ThumbRx ==> g.thumb_rx == pg.thumb_rx) by {
        if a != AxisField::ThumbRx {
            assert(axis_field_value(g, AxisField::ThumbRx) == axis_field_value(
                pg,
                AxisField::ThumbRx,
            ));
        }
    }
    assert(a != AxisField::ThumbRy ==> g.thumb_ry == pg.thumb_ry) by {
        if a != AxisField::ThumbRy {
            assert(axis_field_value(g, AxisField::ThumbRy) == axis_field_value(
                pg,
                AxisField::ThumbRy,
            ));
        }
    }
    assert(spec_compare(id, g, pg) =~= seq![
        RawEvent {
            id,
            event: RawEventType::AxisValueChanged(axis_field_value(g, a), axis_field_code(a)),
        },
    ]);
}
/// The fifteen known button bits in the fixed order the diff tests them.
pub open spec fn diffed_button_bit(i: int) -> u16 {
    if i == 0 {
        BIT_DPAD_UP
    } else if i == 1 {
        BIT_DPAD_DOWN
    } else if i == 2 {
        BIT_DPAD_LEFT
    } else if i == 3 {
        BIT_DPAD_RIGHT
    } else if i == 4 {
        BIT_START
    } else if i == 5 {
        BIT_BACK
    } else if i == 6 {
        BIT_LEFT_THUMB
    } else if i == 7 {
        BIT_RIGHT_THUMB
    } else if i == 8 {
        BIT_LEFT_SHOULDER
    } else if i == 9 {
        BIT_RIGHT_SHOULDER
    } else if i == 10 {
        BIT_A
    } else if i == 11 {
        BIT_B
    } else if i == 12 {
        BIT_X
    } else if i == 13 {
        BIT_Y
    } else {
        BIT_GUIDE
    }
}

/// The canonical code the diff reports for each tested button bit, in the
/// same order as `diffed_button_bit`.
pub open spec fn diffed_button_code(i: int) -> EvCode {
    if i == 0 {
        EvCode(BTN_DPAD_UP)
    } else if i == 1 {
        EvCode(BTN_DPAD_DOWN)
    } else if i == 2 {
        EvCode(BTN_DPAD_LEFT)
    } else if i == 3 {
        EvCode(BTN_DPAD_RIGHT)
    } else if i == 4 {
        EvCode(BTN_START)
    } else if i == 5 {
        EvCode(BTN_SELECT)
    } else if i == 6 {
        EvCode(BTN_LTHUMB)
    } else if i == 7 {
        EvCode(BTN_RTHUMB)
    } else if i == 8 {
        EvCode(BTN_LT)
    } else if i == 9 {
        EvCode(BTN_RT)
    } else if i == 10 {
        EvCode(BTN_SOUTH)
    } else if i == 11 {
        EvCode(BTN_EAST)
    } else if i == 12 {
        EvCode(BTN_WEST)
    } else if i == 13 {
        EvCode(BTN_NORTH)
    } else {
        EvCode(BTN_MODE)
    }
}

/// Two snapshots agree in every axis field.
pub open spec fn axes_equal(g: Snapshot, pg: Snapshot) -> bool {
    g.left_trigger == pg.left_trigger && g.right_trigger == pg.right_trigger && g.thumb_lx
        == pg.thumb_lx && g.thumb_ly == pg.thumb_ly && g.thumb_rx == pg.thumb_rx && g.thumb_ry
        == pg.thumb_ry
}

/// When two snapshots differ in exactly one of the fifteen known button
/// bits, the diff emits exactly one event for that bit's canonical code —
/// `ButtonPressed` when the bit is newly set, `ButtonReleased` when it is
/// newly clear — and no axis events.
pub proof fn lemma_single_button_change(id: usize, g: Snapshot, pg: Snapshot, i: int)
    requires
        0 <= i < 15,
        g.buttons ^ pg.buttons == diffed_button_bit(i),
        axes_equal(g, pg),
    ensures
        spec_compare(id, g, pg) == seq![
            RawEvent {
                id,
                event: if g.buttons & diffed_button_bit(i) != 0 {
                    RawEventType::ButtonPressed(diffed_button_code(i))
                } else {
                    RawEventType::ButtonReleased(diffed_button_code(i))
                },
            },
        ],
{
    let a = g.buttons;
    let b = pg.buttons;
    let target = seq![
        RawEvent {
            id,
            event: if g.buttons & diffed_button_bit(i) != 0 {
                RawEventType::ButtonPressed(diffed_button_code(i))
            } else {
                RawEventType::ButtonReleased(diffed_button_code(i))
            },
        },
    ];
    if i == 0 {
        assert(((a & BIT_DPAD_UP != 0) != (b & BIT_DPAD_UP != 0))
            && ((a & BIT_DPAD_DOWN != 0) == (b & BIT_DPAD_DOWN != 0))
            && ((a & BIT_DPAD_LEFT != 0) == (b & BIT_DPAD_LEFT != 0))
            && ((a & BIT_DPAD_RIGHT != 0) == (b & BIT_DPAD_RIGHT != 0))
            && ((a & BIT_START != 0) == (b & BIT_START != 0))
            && ((a & BIT_BACK != 0) == (b & BIT_BACK != 0))
            && ((a & BIT_LEFT_THUMB != 0) == (b & BIT_LEFT_THUMB != 0))
            && ((a & BIT_RIGHT_THUMB != 0) == (b & BIT_RIGHT_THUMB != 0))
            && ((a & BIT_LEFT_SHOULDER != 0) == (b & BIT_LEFT_SHOULDER != 0))
            && ((a & BIT_RIGHT_SHOULDER != 0) == (b & BIT_RIGHT_SHOULDER != 0))
            && ((a & BIT_A != 0) == (b & BIT_A != 0))
            && ((a & BIT_B != 0) == (b & BIT_B != 0))
            && ((a & BIT_X != 0) == (b & BIT_X != 0))
            && ((a & BIT_Y != 0) == (b & BIT_Y != 0))
            && ((a & BIT_GUIDE != 0) == (b & BIT_GUIDE != 0))) by (bit_vector)
            requires
                a ^ b == BIT_DPAD_UP,
        ;
        assert(spec_compare(id, g, pg) =~= target);
    } else if i == 1 {
        assert(((a & BIT_DPAD_DOWN != 0) != (b & BIT_DPAD_DOWN != 0))
            && ((a & BIT_DPAD_UP != 0) == (b & BIT_DPAD_UP != 0))
            && ((a & BIT_DPAD_LEFT != 0) == (b & BIT_DPAD_LEFT != 0))
            && ((a & BIT_DPAD_RIGHT != 0) == (b & BIT_DPAD_RIGHT != 0))
            && ((a & BIT_START != 0) == (b & BIT_START != 0))
            && ((a & BIT_BACK != 0) == (b & BIT_BACK != 0))
            && ((a & BIT_LEFT_THUMB != 0) == (b & BIT_LEFT_THUMB != 0))
            && ((a & BIT_RIGHT_THUMB != 0) == (b & BIT_RIGHT_THUMB != 0))
            && ((a & BIT_LEFT_SHOULDER != 0) == (b & BIT_LEFT_SHOULDER != 0))
            && ((a & BIT_RIGHT_SHOULDER != 0) == (b & BIT_RIGHT_SHOULDER != 0))
            && ((a & BIT_A != 0) == (b & BIT_A != 0))
            && ((a & BIT_B != 0) == (b & BIT_B != 0))
            && ((a & BIT_X != 0) == (b & BIT_X != 0))
            && ((a & BIT_Y != 0) == (b & BIT_Y != 0))
            && ((a & BIT_GUIDE != 0) == (b & BIT_GUIDE != 0))) by (bit_vector)
            requires
                a ^ b == BIT_DPAD_DOWN,
        ;
        assert(spec_compare(id, g, pg) =~= target);
    } else if i == 2 {
        assert(((a & BIT_DPAD_LEFT != 0) != (b & BIT_DPAD_LEFT != 0))
            && ((a & BIT_DPAD_UP != 0) == (b & BIT_DPAD_UP != 0))
            && ((a & BIT_DPAD_DOWN != 0) == (b & BIT_DPAD_DOWN != 0))
            && ((a & BIT_DPAD_RIGHT != 0) == (b & BIT_DPAD_RIGHT != 0))
            && ((a & BIT_START != 0) == (b & BIT_START != 0))
            && ((a & BIT_BACK != 0) == (b & BIT_BACK != 0))
            && ((a & BIT_LEFT_THUMB != 0) == (b & BIT_LEFT_THUMB != 0))
            && ((a & BIT_RIGHT_THUMB != 0) == (b & BIT_RIGHT_THUMB != 0))
            && ((a & BIT_LEFT_SHOULDER != 0) == (b & BIT_LEFT_SHOULDER != 0))
            && ((a & BIT_RIGHT_SHOULDER != 0) == (b & BIT_RIGHT_SHOULDER != 0))
            && ((a & BIT_A != 0) == (b & BIT_A != 0))
            && ((a & BIT_B != 0) == (b & BIT_B != 0))
            && ((a & BIT_X != 0) == (b & BIT_X != 0))
            && ((a & BIT_Y != 0) == (b & BIT_Y != 0))
            && ((a & BIT_GUIDE != 0) == (b & BIT_GUIDE != 0))) by (bit_vector)
            requires
                a ^ b == BIT_DPAD_LEFT,
        ;
        assert(spec_compare(id, g, pg) =~= target);
    } else if i == 3 {
        assert(((a & BIT_DPAD_RIGHT != 0) != (b & BIT_DPAD_RIGHT != 0))
            && ((a & BIT_DPAD_UP != 0) == (b & BIT_DPAD_UP != 0))
            && ((a & BIT_DPAD_DOWN != 0) == (b & BIT_DPAD_DOWN != 0))
            && ((a & BIT_DPAD_LEFT != 0) == (b & BIT_DPAD_LEFT != 0))
            && ((a & BIT_START != 0) == (b & BIT_START != 0))
            && ((a & BIT_BACK != 0) == (b & BIT_BACK != 0))
            && ((a & BIT_LEFT_THUMB != 0) == (b & BIT_LEFT_THUMB != 0))
            && ((a & BIT_RIGHT_THUMB != 0) == (b & BIT_RIGHT_THUMB != 0))
            && ((a & BIT_LEFT_SHOULDER != 0) == (b & BIT_LEFT_SHOULDER != 0))
            && ((a & BIT_RIGHT_SHOULDER != 0) == (b & BIT_RIGHT_SHOULDER != 0))
            && ((a & BIT_A != 0) == (b & BIT_A != 0))
            && ((a & BIT_B != 0) == (b & BIT_B != 0))
            && ((a & BIT_X != 0) == (b & BIT_X != 0))
            && ((a & BIT_Y != 0) == (b & BIT_Y != 0))
            && ((a & BIT_GUIDE != 0) == (b & BIT_GUIDE != 0))) by (bit_vector)
            requires
                a ^ b == BIT_DPAD_RIGHT,
        ;
        assert(spec_compare(id, g, pg) =~= target);
    } else if i == 4 {
        assert(((a & BIT_START != 0) != (b & BIT_START != 0))
            && ((a & BIT_DPAD_UP != 0) == (b & BIT_DPAD_UP != 0))
            && ((a & BIT_DPAD_DOWN != 0) == (b & BIT_DPAD_DOWN != 0))
            && ((a & BIT_DPAD_LEFT != 0) == (b & BIT_DPAD_LEFT != 0))
            && ((a & BIT_DPAD_RIGHT != 0) == (b & BIT_DPAD_RIGHT != 0))
            && ((a & BIT_BACK != 0) == (b & BIT_BACK != 0))
            && ((a & BIT_LEFT_THUMB != 0) == (b & BIT_LEFT_THUMB != 0))
            && ((a & BIT_RIGHT_THUMB != 0) == (b & BIT_RIGHT_THUMB != 0))
            && ((a & BIT_LEFT_SHOULDER != 0) == (b & BIT_LEFT_SHOULDER != 0))
            && ((a & BIT_RIGHT_SHOULDER != 0) == (b & BIT_RIGHT_SHOULDER != 0))
            && ((a & BIT_A != 0) == (b & BIT_A != 0))
            && ((a & BIT_B != 0) == (b & BIT_B != 0))
            && ((a & BIT_X != 0) == (b & BIT_X != 0))
            && ((a & BIT_Y != 0) == (b & BIT_Y != 0))
            && ((a & BIT_GUIDE != 0) == (b & BIT_GUIDE != 0))) by (bit_vector)
            requires
                a ^ b == BIT_START,
        ;
        assert(spec_compare(id, g, pg) =~= target);
    } else if i == 5 {
        assert(((a & BIT_BACK != 0) != (b & BIT_BACK != 0))
            && ((a & BIT_DPAD_UP != 0) == (b & BIT_DPAD_UP != 0))
            && ((a & BIT_DPAD_DOWN != 0) == (b & BIT_DPAD_DOWN != 0))
            && ((a & BIT_DPAD_LEFT != 0) == (b & BIT_DPAD_LEFT != 0))
            && ((a & BIT_DPAD_RIGHT != 0) == (b & BIT_DPAD_RIGHT != 0))
            && ((a & BIT_START != 0) == (b & BIT_START != 0))
            && ((a & BIT_LEFT_THUMB != 0) == (b & BIT_LEFT_THUMB != 0))
            && ((a & BIT_RIGHT_THUMB != 0) == (b & BIT_RIGHT_THUMB != 0))
            && ((a & BIT_LEFT_SHOULDER != 0) == (b & BIT_LEFT_SHOULDER != 0))
            && ((a & BIT_RIGHT_SHOULDER != 0) == (b & BIT_RIGHT_SHOULDER != 0))
            && ((a & BIT_A != 0) == (b & BIT_A != 0))
            && ((a & BIT_B != 0) == (b & BIT_B != 0))
            && ((a & BIT_X != 0) == (b & BIT_X != 0))
            && ((a & BIT_Y != 0) == (b & BIT_Y != 0))
            && ((a & BIT_GUIDE != 0) == (b & BIT_GUIDE != 0))) by (bit_vector)
            requires
                a ^ b == BIT_BACK,
        ;
        assert(spec_compare(id, g, pg) =~= target);
    } else if i == 6 {
        assert(((a & BIT_LEFT_THUMB != 0) != (b & BIT_LEFT_THUMB != 0))
            && ((a & BIT_DPAD_UP != 0) == (b & BIT_DPAD_UP != 0))
            && ((a & BIT_DPAD_DOWN != 0) == (b & BIT_DPAD_DOWN != 0))
            && ((a & BIT_DPAD_LEFT != 0) == (b & BIT_DPAD_LEFT != 0))
            && ((a & BIT_DPAD_RIGHT != 0) == (b & BIT_DPAD_RIGHT != 0))
            && ((a & BIT_START != 0) == (b & BIT_START != 0))
            && ((a & BIT_BACK != 0) == (b & BIT_BACK != 0))
            && ((a & BIT_RIGHT_THUMB != 0) == (b & BIT_RIGHT_THUMB != 0))
            && ((a & BIT_LEFT_SHOULDER != 0) == (b & BIT_LEFT_SHOULDER != 0))
            && ((a & BIT_RIGHT_SHOULDER != 0) == (b & BIT_RIGHT_SHOULDER != 0))
            && ((a & BIT_A != 0) == (b & BIT_A != 0))
            && ((a & BIT_B != 0) == (b & BIT_B != 0))
            && ((a & BIT_X != 0) == (b & BIT_X != 0))
            && ((a & BIT_Y != 0) == (b & BIT_Y != 0))
            && ((a & BIT_GUIDE != 0) == (b & BIT_GUIDE != 0))) by (bit_vector)
            requires
                a ^ b == BIT_LEFT_THUMB,
        ;
        assert(spec_compare(id, g, pg) =~= target);
    } else if i == 7 {
        assert(((a & BIT_RIGHT_THUMB != 0) != (b & BIT_RIGHT_THUMB != 0))
            && ((a & BIT_DPAD_UP != 0) == (b & BIT_DPAD_UP != 0))
            && ((a & BIT_DPAD_DOWN != 0) == (b & BIT_DPAD_DOWN != 0))
            && ((a & BIT_DPAD_LEFT != 0) == (b & BIT_DPAD_LEFT != 0))
            && ((a & BIT_DPAD_RIGHT != 0) == (b & BIT_DPAD_RIGHT != 0))
            && ((a & BIT_START != 0) == (b & BIT_START != 0))
            && ((a & BIT_BACK != 0) == (b & BIT_BACK != 0))
            && ((a & BIT_LEFT_THUMB != 0) == (b & BIT_LEFT_THUMB != 0))
            && ((a & BIT_LEFT_SHOULDER != 0) == (b & BIT_LEFT_SHOULDER != 0))
            && ((a & BIT_RIGHT_SHOULDER != 0) == (b & BIT_RIGHT_SHOULDER != 0))
            && ((a & BIT_A != 0) == (b & BIT_A != 0))
            && ((a & BIT_B != 0) == (b & BIT_B != 0))
            && ((a & BIT_X != 0) == (b & BIT_X != 0))
            && ((a & BIT_Y != 0) == (b & BIT_Y != 0))
            && ((a & BIT_GUIDE != 0) == (b & BIT_GUIDE != 0))) by (bit_vector)
            requires
                a ^ b == BIT_RIGHT_THUMB,
        ;
        assert(spec_compare(id, g, pg) =~= target);
    } else if i == 8 {
        assert(((a & BIT_LEFT_SHOULDER != 0) != (b & BIT_LEFT_SHOULDER != 0))
            && ((a & BIT_DPAD_UP != 0) == (b & BIT_DPAD_UP != 0))
            && ((a & BIT_DPAD_DOWN != 0) == (b & BIT_DPAD_DOWN != 0))
            && ((a & BIT_DPAD_LEFT != 0) == (b & BIT_DPAD_LEFT != 0))
            && ((a & BIT_DPAD_RIGHT != 0) == (b & BIT_DPAD_RIGHT != 0))
            && ((a & BIT_START != 0) == (b & BIT_START != 0))
            && ((a & BIT_BACK != 0) == (b & BIT_BACK != 0))
            && ((a & BIT_LEFT_THUMB != 0) == (b & BIT_LEFT_THUMB != 0))
            && ((a & BIT_RIGHT_THUMB != 0) == (b & BIT_RIGHT_THUMB != 0))
            && ((a & BIT_RIGHT_SHOULDER != 0) == (b & BIT_RIGHT_SHOULDER != 0))
            && ((a & BIT_A != 0) == (b & BIT_A != 0))
            && ((a & BIT_B != 0) == (b & BIT_B != 0))
            && ((a & BIT_X != 0) == (b & BIT_X != 0))
            && ((a & BIT_Y != 0) == (b & BIT_Y != 0))
            && ((a & BIT_GUIDE != 0) == (b & BIT_GUIDE != 0))) by (bit_vector)
            requires
                a ^ b == BIT_LEFT_SHOULDER,
        ;
        assert(spec_compare(id, g, pg) =~= target);
    } else if i == 9 {
        assert(((a & BIT_RIGHT_SHOULDER != 0) != (b & BIT_RIGHT_SHOULDER != 0))
            && ((a & BIT_DPAD_UP != 0) == (b & BIT_DPAD_UP != 0))
            && ((a & BIT_DPAD_DOWN != 0) == (b & BIT_DPAD_DOWN != 0))
            && ((a & BIT_DPAD_LEFT != 0) == (b & BIT_DPAD_LEFT != 0))
            && ((a & BIT_DPAD_RIGHT != 0) == (b & BIT_DPAD_RIGHT != 0))
            && ((a & BIT_START != 0) == (b & BIT_START != 0))
            && ((a & BIT_BACK != 0) == (b & BIT_BACK != 0))
            && ((a & BIT_LEFT_THUMB != 0) == (b & BIT_LEFT_THUMB != 0))
            && ((a & BIT_RIGHT_THUMB != 0) == (b & BIT_RIGHT_THUMB != 0))
            && ((a & BIT_LEFT_SHOULDER != 0) == (b & BIT_LEFT_SHOULDER != 0))
            && ((a & BIT_A != 0) == (b & BIT_A != 0))
            && ((a & BIT_B != 0) == (b & BIT_B != 0))
            && ((a & BIT_X != 0) == (b & BIT_X != 0))
            && ((a & BIT_Y != 0) == (b & BIT_Y != 0))
            && ((a & BIT_GUIDE != 0) == (b & BIT_GUIDE != 0))) by (bit_vector)
            requires
                a ^ b == BIT_RIGHT_SHOULDER,
        ;
        assert(spec_compare(id, g, pg) =~= target);
    } else if i == 10 {
        assert(((a & BIT_A != 0) != (b & BIT_A != 0))
            && ((a & BIT_DPAD_UP != 0) == (b & BIT_DPAD_UP != 0))
            && ((a & BIT_DPAD_DOWN != 0) == (b & BIT_DPAD_DOWN != 0))
            && ((a & BIT_DPAD_LEFT != 0) == (b & BIT_DPAD_LEFT != 0))
            && ((a & BIT_DPAD_RIGHT != 0) == (b & BIT_DPAD_RIGHT != 0))
            && ((a & BIT_START != 0) == (b & BIT_START != 0))
            && ((a & BIT_BACK != 0) == (b & BIT_BACK != 0))
            && ((a & BIT_LEFT_THUMB != 0) == (b & BIT_LEFT_THUMB != 0))
            && ((a & BIT_RIGHT_THUMB != 0) == (b & BIT_RIGHT_THUMB != 0))
            && ((a & BIT_LEFT_SHOULDER != 0) == (b & BIT_LEFT_SHOULDER != 0))
            && ((a & BIT_RIGHT_SHOULDER != 0) == (b & BIT_RIGHT_SHOULDER != 0))
            && ((a & BIT_B != 0) == (b & BIT_B != 0))
            && ((a & BIT_X != 0) == (b & BIT_X != 0))
            && ((a & BIT_Y != 0) == (b & BIT_Y != 0))
            && ((a & BIT_GUIDE != 0) == (b & BIT_GUIDE != 0))) by (bit_vector)
            requires
                a ^ b == BIT_A,
        ;
        assert(spec_compare(id, g, pg) =~= target);
    } else if i == 11 {
        assert(((a & BIT_B != 0) != (b & BIT_B != 0))
            && ((a & BIT_DPAD_UP != 0) == (b & BIT_DPAD_UP != 0))
            && ((a & BIT_DPAD_DOWN != 0) == (b & BIT_DPAD_DOWN != 0))
            && ((a & BIT_DPAD_LEFT != 0) == (b & BIT_DPAD_LEFT != 0))
            && ((a & BIT_DPAD_RIGHT != 0) == (b & BIT_DPAD_RIGHT != 0))
            && ((a & BIT_START != 0) == (b & BIT_START != 0))
            && ((a & BIT_BACK != 0) == (b & BIT_BACK != 0))
            && ((a & BIT_LEFT_THUMB != 0) == (b & BIT_LEFT_THUMB != 0))
            && ((a & BIT_RIGHT_THUMB != 0) == (b & BIT_RIGHT_THUMB != 0))
            && ((a & BIT_LEFT_SHOULDER != 0) == (b & BIT_LEFT_SHOULDER != 0))
            && ((a & BIT_RIGHT_SHOULDER != 0) == (b & BIT_RIGHT_SHOULDER != 0))
            && ((a & BIT_A != 0) == (b & BIT_A != 0))
            && ((a & BIT_X != 0) == (b & BIT_X != 0))
            && ((a & BIT_Y != 0) == (b & BIT_Y != 0))
            && ((a & BIT_GUIDE != 0) == (b & BIT_GUIDE != 0))) by (bit_vector)
            requires
                a ^ b == BIT_B,
        ;
        assert(spec_compare(id, g, pg) =~= target);
    } else if i == 12 {
        assert(((a & BIT_X != 0) != (b & BIT_X != 0))
            && ((a & BIT_DPAD_UP != 0) == (b & BIT_DPAD_UP != 0))
            && ((a & BIT_DPAD_DOWN != 0) == (b & BIT_DPAD_DOWN != 0))
            && ((a & BIT_DPAD_LEFT != 0) == (b & BIT_DPAD_LEFT != 0))
            && ((a & BIT_DPAD_RIGHT != 0) == (b & BIT_DPAD_RIGHT != 0))
            && ((a & BIT_START != 0) == (b & BIT_START != 0))
            && ((a & BIT_BACK != 0) == (b & BIT_BACK != 0))
            && ((a & BIT_LEFT_THUMB != 0) == (b & BIT_LEFT_THUMB != 0))
            && ((a & BIT_RIGHT_THUMB != 0) == (b & BIT_RIGHT_THUMB != 0))
            && ((a & BIT_LEFT_SHOULDER != 0) == (b & BIT_LEFT_SHOULDER != 0))
            && ((a & BIT_RIGHT_SHOULDER != 0) == (b & BIT_RIGHT_SHOULDER != 0))
            && ((a & BIT_A != 0) == (b & BIT_A != 0))
            && ((a & BIT_B != 0) == (b & BIT_B != 0))
            && ((a & BIT_Y != 0) == (b & BIT_Y != 0))
            && ((a & BIT_GUIDE != 0) == (b & BIT_GUIDE != 0))) by (bit_vector)
            requires
                a ^ b == BIT_X,
        ;
        assert(spec_compare(id, g, pg) =~= target);
    } else if i == 13 {
        assert(((a & BIT_Y != 0) != (b & BIT_Y != 0))
            && ((a & BIT_DPAD_UP != 0) == (b & BIT_DPAD_UP != 0))
            && ((a & BIT_DPAD_DOWN != 0) == (b & BIT_DPAD_DOWN != 0))
            && ((a & BIT_DPAD_LEFT != 0) == (b & BIT_DPAD_LEFT != 0))
            && ((a & BIT_DPAD_RIGHT != 0) == (b & BIT_DPAD_RIGHT != 0))
            && ((a & BIT_START != 0) == (b & BIT_START != 0))
            && ((a & BIT_BACK != 0) == (b & BIT_BACK != 0))
            && ((a & BIT_LEFT_THUMB != 0) == (b & BIT_LEFT_THUMB != 0))
            && ((a & BIT_RIGHT_THUMB != 0) == (b & BIT_RIGHT_THUMB != 0))
            && ((a & BIT_LEFT_SHOULDER != 0) == (b & BIT_LEFT_SHOULDER != 0))
            && ((a & BIT_RIGHT_SHOULDER != 0) == (b & BIT_RIGHT_SHOULDER != 0))
            && ((a & BIT_A != 0) == (b & BIT_A != 0))
            && ((a & BIT_B != 0) == (b & BIT_B != 0))
            && ((a & BIT_X != 0) == (b & BIT_X != 0))
            && ((a & BIT_GUIDE != 0) == (b & BIT_GUIDE != 0))) by (bit_vector)
            requires
                a ^ b == BIT_Y,
        ;
        assert(spec_compare(id, g, pg) =~= target);
    } else if i == 14 {
        assert(((a & BIT_GUIDE != 0) != (b & BIT_GUIDE != 0))
            && ((a & BIT_DPAD_UP != 0) == (b & BIT_DPAD_UP != 0))
            && ((a & BIT_DPAD_DOWN != 0) == (b & BIT_DPAD_DOWN != 0))
            && ((a & BIT_DPAD_LEFT != 0) == (b & BIT_DPAD_LEFT != 0))
            && ((a & BIT_DPAD_RIGHT != 0) == (b & BIT_DPAD_RIGHT != 0))
            && ((a & BIT_START != 0) == (b & BIT_START != 0))
            && ((a & BIT_BACK != 0) == (b & BIT_BACK != 0))
            && ((a & BIT_LEFT_THUMB != 0) == (b & BIT_LEFT_THUMB != 0))
            && ((a & BIT_RIGHT_THUMB != 0) == (b & BIT_RIGHT_THUMB != 0))
            && ((a & BIT_LEFT_SHOULDER != 0) == (b & BIT_LEFT_SHOULDER != 0))
            && ((a & BIT_RIGHT_SHOULDER != 0) == (b & BIT_RIGHT_SHOULDER != 0))
            && ((a & BIT_A != 0) == (b & BIT_A != 0))
            && ((a & BIT_B != 0) == (b & BIT_B != 0))
            && ((a & BIT_X != 0) == (b & BIT_X != 0))
            && ((a & BIT_Y != 0) == (b & BIT_Y != 0))) by (bit_vector)
            requires
                a ^ b == BIT_GUIDE,
        ;
        assert(spec_compare(id, g, pg) =~= target);
    }
}

/// The events one axis contributes are never connectivity transitions.
proof fn lemma_axis_events_no_connectivity(id: usize, cur: i32, prev: i32, code: EvCode)
    ensures
        connectivity_events(axis_events(id, cur, prev, code)) == Seq::<RawEvent>::empty(),
{
    if cur != prev {
        lemma_connectivity_events_single(
            RawEvent { id, event: RawEventType::AxisValueChanged(cur, code) },
        );
    }
}

/// The events one button bit contributes are never connectivity
/// transitions.
proof fn lemma_button_events_no_connectivity(
    id: usize,
    cur: u16,
    prev: u16,
    mask: u16,
    code: EvCode,
)
    ensures
        connectivity_events(button_events(id, cur, prev, mask, code)) == Seq::<
            RawEvent,
        >::empty(),
{
    if (cur & mask != 0) != (prev & mask != 0) {
        if cur & mask != 0 {
            lemma_connectivity_events_single(
                RawEvent { id, event: RawEventType::ButtonPressed(code) },
            );
        } else {
            lemma_connectivity_events_single(
                RawEvent { id, event: RawEventType::ButtonReleased(code) },
            );
        }
    }
}

/// A diff never reports a connectivity transition: only the sampler's own
/// connect and disconnect decisions do.
pub proof fn lemma_compare_no_connectivity(id: usize, g: Snapshot, pg: Snapshot)
    ensures
        connectivity_events(spec_compare(id, g, pg)) == Seq::<RawEvent>::empty(),
{
    let p1 = axis_events(id, g.left_trigger as i32, pg.left_trigger as i32, EvCode(AXIS_LT2));
    let p2 = axis_events(id, g.right_trigger as i32, pg.right_trigger as i32, EvCode(AXIS_RT2));
    let p3 = axis_events(id, g.thumb_lx as i32, pg.thumb_lx as i32, EvCode(AXIS_LSTICKX));
    let p4 = axis_events(id, g.thumb_ly as i32, pg.thumb_ly as i32, EvCode(AXIS_LSTICKY));
    let p5 = axis_events(id, g.thumb_rx as i32, pg.thumb_rx as i32, EvCode(AXIS_RSTICKX));
    let p6 = axis_events(id, g.thumb_ry as i32, pg.thumb_ry as i32, EvCode(AXIS_RSTICKY));
    let p7 = button_events(id, g.buttons, pg.buttons, BIT_DPAD_UP, EvCode(BTN_DPAD_UP));
    let p8 = button_events(id, g.buttons, pg.buttons, BIT_DPAD_DOWN, EvCode(BTN_DPAD_DOWN));
    let p9 = button_events(id, g.buttons, pg.buttons, BIT_DPAD_LEFT, EvCode(BTN_DPAD_LEFT));
    let p10 = button_events(id, g.buttons, pg.buttons, BIT_DPAD_RIGHT, EvCode(BTN_DPAD_RIGHT));
    let p11 = button_events(id, g.buttons, pg.buttons, BIT_START, EvCode(BTN_START));
    let p12 = button_events(id, g.buttons, pg.buttons, BIT_BACK, EvCode(BTN_SELECT));
    let p13 = button_events(id, g.buttons, pg.buttons, BIT_LEFT_THUMB, EvCode(BTN_LTHUMB));
    let p14 = button_events(id, g.buttons, pg.buttons, BIT_RIGHT_THUMB, EvCode(BTN_RTHUMB));
    let p15 = button_events(id, g.buttons, pg.buttons, BIT_LEFT_SHOULDER, EvCode(BTN_LT));
    let p16 = button_events(id, g.buttons, pg.buttons, BIT_RIGHT_SHOULDER, EvCode(BTN_RT));
    let p17 = button_events(id, g.buttons, pg.buttons, BIT_A, EvCode(BTN_SOUTH));
    let p18 = button_events(id, g.buttons, pg.buttons, BIT_B, EvCode(BTN_EAST));
    let p19 = button_events(id, g.buttons, pg.buttons, BIT_X, EvCode(BTN_WEST));
    let p20 = button_events(id, g.buttons, pg.buttons, BIT_Y, EvCode(BTN_NORTH));
    let p21 = button_events(id, g.buttons, pg.buttons, BIT_GUIDE, EvCode(BTN_MODE));
    lemma_axis_events_no_connectivity(id, g.left_trigger as i32, pg.left_trigger as i32, EvCode(AXIS_LT2));
    lemma_axis_events_no_connectivity(id, g.right_trigger as i32, pg.right_trigger as i32, EvCode(AXIS_RT2));
    lemma_axis_events_no_connectivity(id, g.thumb_lx as i32, pg.thumb_lx as i32, EvCode(AXIS_LSTICKX));
    lemma_axis_events_no_connectivity(id, g.thumb_ly as i32, pg.thumb_ly as i32, EvCode(AXIS_LSTICKY));
    lemma_axis_events_no_connectivity(id, g.thumb_rx as i32, pg.thumb_rx as i32, EvCode(AXIS_RSTICKX));
    lemma_axis_events_no_connectivity(id, g.thumb_ry as i32, pg.thumb_ry as i32, EvCode(AXIS_RSTICKY));
    lemma_button_events_no_connectivity(id, g.buttons, pg.buttons, BIT_DPAD_UP, EvCode(BTN_DPAD_UP));
    lemma_button_events_no_connectivity(id, g.buttons, pg.buttons, BIT_DPAD_DOWN, EvCode(BTN_DPAD_DOWN));
    lemma_button_events_no_connectivity(id, g.buttons, pg.buttons, BIT_DPAD_LEFT, EvCode(BTN_DPAD_LEFT));
    lemma_button_events_no_connectivity(id, g.buttons, pg.buttons, BIT_DPAD_RIGHT, EvCode(BTN_DPAD_RIGHT));
    lemma_button_events_no_connectivity(id, g.buttons, pg.buttons, BIT_START, EvCode(BTN_START));
    lemma_button_events_no_connectivity(id, g.buttons, pg.buttons, BIT_BACK, EvCode(BTN_SELECT));
    lemma_button_events_no_connectivity(id, g.buttons, pg.buttons, BIT_LEFT_THUMB, EvCode(BTN_LTHUMB));
    lemma_button_events_no_connectivity(id, g.buttons, pg.buttons, BIT_RIGHT_THUMB, EvCode(BTN_RTHUMB));
    lemma_button_events_no_connectivity(id, g.buttons, pg.buttons, BIT_LEFT_SHOULDER, EvCode(BTN_LT));
    lemma_button_events_no_connectivity(id, g.buttons, pg.buttons, BIT_RIGHT_SHOULDER, EvCode(BTN_RT));
    lemma_button_events_no_connectivity(id, g.buttons, pg.buttons, BIT_A, EvCode(BTN_SOUTH));
    lemma_button_events_no_connectivity(id, g.buttons, pg.buttons, BIT_B, EvCode(BTN_EAST));
    lemma_button_events_no_connectivity(id, g.buttons, pg.buttons, BIT_X, EvCode(BTN_WEST));
    lemma_button_events_no_connectivity(id, g.buttons, pg.buttons, BIT_Y, EvCode(BTN_NORTH));
    lemma_button_events_no_connectivity(id, g.buttons, pg.buttons, BIT_GUIDE, EvCode(BTN_MODE));
    lemma_connectivity_events_add(p1, p2);
    lemma_connectivity_events_add(p1 + p2, p3);
    lemma_connectivity_events_add(p1 + p2 + p3, p4);
    lemma_connectivity_events_add(p1 + p2 + p3 + p4, p5);
    lemma_connectivity_events_add(p1 + p2 + p3 + p4 + p5, p6);
    lemma_connectivity_events_add(p1 + p2 + p3 + p4 + p5 + p6, p7);
    lemma_connectivity_events_add(p1 + p2 + p3 + p4 + p5 + p6 + p7, p8);
    lemma_connectivity_events_add(p1 + p2 + p3 + p4 + p5 + p6 + p7 + p8, p9);
    lemma_connectivity_events_add(p1 + p2 + p3 + p4 + p5 + p6 + p7 + p8 + p9, p10);
    lemma_connectivity_events_add(p1 + p2 + p3 + p4 + p5 + p6 + p7 + p8 + p9 + p10, p11);
    lemma_connectivity_events_add(p1 + p2 + p3 + p4 + p5 + p6 + p7 + p8 + p9 + p10 + p11, p12);
    lemma_connectivity_events_add(p1 + p2 + p3 + p4 + p5 + p6 + p7 + p8 + p9 + p10 + p11 + p12, p13);
    lemma_connectivity_events_add(p1 + p2 + p3 + p4 + p5 + p6 + p7 + p8 + p9 + p10 + p11 + p12 + p13, p14);
    lemma_connectivity_events_add(p1 + p2 + p3 + p4 + p5 + p6 + p7 + p8 + p9 + p10 + p11 + p12 + p13 + p14, p15);
    lemma_connectivity_events_add(p1 + p2 + p3 + p4 + p5 + p6 + p7 + p8 + p9 + p10 + p11 + p12 + p13 + p14 + p15, p16);
    lemma_connectivity_events_add(p1 + p2 + p3 + p4 + p5 + p6 + p7 + p8 + p9 + p10 + p11 + p12 + p13 + p14 + p15 + p16, p17);
    lemma_connectivity_events_add(p1 + p2 + p3 + p4 + p5 + p6 + p7 + p8 + p9 + p10 + p11 + p12 + p13 + p14 + p15 + p16 + p17, p18);
    lemma_connectivity_events_add(p1 + p2 + p3 + p4 + p5 + p6 + p7 + p8 + p9 + p10 + p11 + p12 + p13 + p14 + p15 + p16 + p17 + p18, p19);
    lemma_connectivity_events_add(p1 + p2 + p3 + p4 + p5 + p6 + p7 + p8 + p9 + p10 + p11 + p12 + p13 + p14 + p15 + p16 + p17 + p18 + p19, p20);
    lemma_connectivity_events_add(p1 + p2 + p3 + p4 + p5 + p6 + p7 + p8 + p9 + p10 + p11 + p12 + p13 + p14 + p15 + p16 + p17 + p18 + p19 + p20, p21);
    assert(connectivity_events(spec_compare(id, g, pg)) =~= Seq::<RawEvent>::empty());
}

/// Every event a diff emits names the diffed slot.
pub proof fn lemma_compare_events_name_slot(id: usize, g: Snapshot, pg: Snapshot)
    ensures
        all_events_name_slot(id, spec_compare(id, g, pg)),
{
    let p1 = axis_events(id, g.left_trigger as i32, pg.left_trigger as i32, EvCode(AXIS_LT2));
    let p2 = axis_events(id, g.right_trigger as i32, pg.right_trigger as i32, EvCode(AXIS_RT2));
    let p3 = axis_events(id, g.thumb_lx as i32, pg.thumb_lx as i32, EvCode(AXIS_LSTICKX));
    let p4 = axis_events(id, g.thumb_ly as i32, pg.thumb_ly as i32, EvCode(AXIS_LSTICKY));
    let p5 = axis_events(id, g.thumb_rx as i32, pg.thumb_rx as i32, EvCode(AXIS_RSTICKX));
    let p6 = axis_events(id, g.thumb_ry as i32, pg.thumb_ry as i32, EvCode(AXIS_RSTICKY));
    let p7 = button_events(id, g.buttons, pg.buttons, BIT_DPAD_UP, EvCode(BTN_DPAD_UP));
    let p8 = button_events(id, g.buttons, pg.buttons, BIT_DPAD_DOWN, EvCode(BTN_DPAD_DOWN));
    let p9 = button_events(id, g.buttons, pg.buttons, BIT_DPAD_LEFT, EvCode(BTN_DPAD_LEFT));
    let p10 = button_events(id, g.buttons, pg.buttons, BIT_DPAD_RIGHT, EvCode(BTN_DPAD_RIGHT));
    let p11 = button_events(id, g.buttons, pg.buttons, BIT_START, EvCode(BTN_START));
    let p12 = button_events(id, g.buttons, pg.buttons, BIT_BACK, EvCode(BTN_SELECT));
    let p13 = button_events(id, g.buttons, pg.buttons, BIT_LEFT_THUMB, EvCode(BTN_LTHUMB));
    let p14 = button_events(id, g.buttons, pg.buttons, BIT_RIGHT_THUMB, EvCode(BTN_RTHUMB));
    let p15 = button_events(id, g.buttons, pg.buttons, BIT_LEFT_SHOULDER, EvCode(BTN_LT));
    let p16 = button_events(id, g.buttons, pg.buttons, BIT_RIGHT_SHOULDER, EvCode(BTN_RT));
    let p17 = button_events(id, g.buttons, pg.buttons, BIT_A, EvCode(BTN_SOUTH));
    let p18 = button_events(id, g.buttons, pg.buttons, BIT_B, EvCode(BTN_EAST));
    let p19 = button_events(id, g.buttons, pg.buttons, BIT_X, EvCode(BTN_WEST));
    let p20 = button_events(id, g.buttons, pg.buttons, BIT_Y, EvCode(BTN_NORTH));
    let p21 = button_events(id, g.buttons, pg.buttons, BIT_GUIDE, EvCode(BTN_MODE));
    assert(all_events_name_slot(id, p1));
    assert(all_events_name_slot(id, p2));
    assert(all_events_name_slot(id, p3));
    assert(all_events_name_slot(id, p4));
    assert(all_events_name_slot(id, p5));
    assert(all_events_name_slot(id, p6));
    assert(all_events_name_slot(id, p7));
    assert(all_events_name_slot(id, p8));
    assert(all_events_name_slot(id, p9));
    assert(all_events_name_slot(id, p10));
    assert(all_events_name_slot(id, p11));
    assert(all_events_name_slot(id, p12));
    assert(all_events_name_slot(id, p13));
    assert(all_events_name_slot(id, p14));
    assert(all_events_name_slot(id, p15));
    assert(all_events_name_slot(id, p16));
    assert(all_events_name_slot(id, p17));
    assert(all_events_name_slot(id, p18));
    assert(all_events_name_slot(id, p19));
    assert(all_events_name_slot(id, p20));
    assert(all_events_name_slot(id, p21));
    lemma_all_events_name_slot_add(id, p1, p2);
    lemma_all_events_name_slot_add(id, p1 + p2, p3);
    lemma_all_events_name_slot_add(id, p1 + p2 + p3, p4);
    lemma_all_events_name_slot_add(id, p1 + p2 + p3 + p4, p5);
    lemma_all_events_name_slot_add(id, p1 + p2 + p3 + p4 + p5, p6);
    lemma_all_events_name_slot_add(id, p1 + p2 + p3 + p4 + p5 + p6, p7);
    lemma_all_events_name_slot_add(id, p1 + p2 + p3 + p4 + p5 + p6 + p7, p8);
    lemma_all_events_name_slot_add(id, p1 + p2 + p3 + p4 + p5 + p6 + p7 + p8, p9);
    lemma_all_events_name_slot_add(id, p1 + p2 + p3 + p4 + p5 + p6 + p7 + p8 + p9, p10);
    lemma_all_events_name_slot_add(id, p1 + p2 + p3 + p4 + p5 + p6 + p7 + p8 + p9 + p10, p11);
    lemma_all_events_name_slot_add(id, p1 + p2 + p3 + p4 + p5 + p6 + p7 + p8 + p9 + p10 + p11, p12);
    lemma_all_events_name_slot_add(id, p1 + p2 + p3 + p4 + p5 + p6 + p7 + p8 + p9 + p10 + p11 + p12, p13);
    lemma_all_events_name_slot_add(id, p1 + p2 + p3 + p4 + p5 + p6 + p7 + p8 + p9 + p10 + p11 + p12 + p13, p14);
    lemma_all_events_name_slot_add(id, p1 + p2 + p3 + p4 + p5 + p6 + p7 + p8 + p9 + p10 + p11 + p12 + p13 + p14, p15);
    lemma_all_events_name_slot_add(id, p1 + p2 + p3 + p4 + p5 + p6 + p7 + p8 + p9 + p10 + p11 + p12 + p13 + p14 + p15, p16);
    lemma_all_events_name_slot_add(id, p1 + p2 + p3 + p4 + p5 + p6 + p7 + p8 + p9 + p10 + p11 + p12 + p13 + p14 + p15 + p16, p17);
    lemma_all_events_name_slot_add(id, p1 + p2 + p3 + p4 + p5 + p6 + p7 + p8 + p9 + p10 + p11 + p12 + p13 + p14 + p15 + p16 + p17, p18);
    lemma_all_events_name_slot_add(id, p1 + p2 + p3 + p4 + p5 + p6 + p7 + p8 + p9 + p10 + p11 + p12 + p13 + p14 + p15 + p16 + p17 + p18, p19);
    lemma_all_events_name_slot_add(id, p1 + p2 + p3 + p4 + p5 + p6 + p7 + p8 + p9 + p10 + p11 + p12 + p13 + p14 + p15 + p16 + p17 + p18 + p19, p20);
    lemma_all_events_name_slot_add(id, p1 + p2 + p3 + p4 + p5 + p6 + p7 + p8 + p9 + p10 + p11 + p12 + p13 + p14 + p15 + p16 + p17 + p18 + p19 + p20, p21);
}

} // verus!
