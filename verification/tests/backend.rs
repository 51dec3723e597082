use std::sync::mpsc;

use gilrs::codes::{
    axis_info, AxisInfo, EvCode, AXIS_LEFTZ, AXIS_LSTICKX, AXIS_LSTICKY, AXIS_LT2, AXIS_RSTICKX,
    AXIS_RSTICKY, AXIS_RT2, BTN_DPAD_DOWN, BTN_DPAD_LEFT, BTN_DPAD_RIGHT, BTN_DPAD_UP, BTN_EAST,
    BTN_LT, BTN_LTHUMB, BTN_MODE, BTN_NORTH, BTN_RT, BTN_RTHUMB, BTN_SELECT, BTN_SOUTH, BTN_START,
    BTN_WEST,
};
use gilrs::diff::{compare_state, is_mask_eq, Snapshot};
use gilrs::events::{RawEvent, RawEventType};
use gilrs::facade::Gilrs;
use gilrs::gamepad::{
    gamepad_new, BatteryReading, FfDevice, Gamepad, PowerInfo, Status, BATTERY_LEVEL_EMPTY,
    BATTERY_LEVEL_FULL, BATTERY_LEVEL_LOW, BATTERY_LEVEL_MEDIUM, BATTERY_TYPE_ALKALINE,
    BATTERY_TYPE_NIMH, BATTERY_TYPE_WIRED, PLACEHOLDER_ID,
};
use gilrs::sampler::{
    poll_outcome_from_status, should_poll, slot_tick, PollOutcome, SlotState,
    STATUS_DEVICE_NOT_CONNECTED, STATUS_SUCCESS,
};

fn zero_snap() -> Snapshot {
    Snapshot {
        buttons: 0,
        left_trigger: 0,
        right_trigger: 0,
        thumb_lx: 0,
        thumb_ly: 0,
        thumb_rx: 0,
        thumb_ry: 0,
    }
}

#[test]
fn diff_of_identical_snapshots_is_empty() {
    let s = Snapshot {
        buttons: 0x1234,
        left_trigger: 9,
        right_trigger: 200,
        thumb_lx: -5,
        thumb_ly: 17,
        thumb_rx: 32767,
        thumb_ry: -32768,
    };
    assert!(compare_state(2, &s, &s).is_empty());
}

#[test]
fn diff_single_axis_change_emits_one_event() {
    let prev = zero_snap();
    let mut cur = zero_snap();
    cur.thumb_lx = 1200;
    let events = compare_state(0, &cur, &prev);
    assert_eq!(
        events,
        vec![RawEvent::new(0, RawEventType::AxisValueChanged(1200, EvCode(AXIS_LSTICKX)))]
    );
}

#[test]
fn diff_trigger_change_uses_trigger_codes() {
    let prev = zero_snap();
    let mut cur = zero_snap();
    cur.left_trigger = 255;
    let events = compare_state(3, &cur, &prev);
    assert_eq!(
        events,
        vec![RawEvent::new(3, RawEventType::AxisValueChanged(255, EvCode(AXIS_LT2)))]
    );
    let mut cur = zero_snap();
    cur.right_trigger = 31;
    let events = compare_state(3, &cur, &prev);
    assert_eq!(
        events,
        vec![RawEvent::new(3, RawEventType::AxisValueChanged(31, EvCode(AXIS_RT2)))]
    );
}

#[test]
fn diff_single_button_press_and_release() {
    let prev = zero_snap();
    let mut cur = zero_snap();
    cur.buttons = 0x1000;
    let events = compare_state(1, &cur, &prev);
    assert_eq!(events, vec![RawEvent::new(1, RawEventType::ButtonPressed(EvCode(BTN_SOUTH)))]);
    let events = compare_state(1, &prev, &cur);
    assert_eq!(events, vec![RawEvent::new(1, RawEventType::ButtonReleased(EvCode(BTN_SOUTH)))]);
}

#[test]
fn diff_guide_button_is_recognized() {
    let prev = zero_snap();
    let mut cur = zero_snap();
    cur.buttons = 0x0400;
    let events = compare_state(0, &cur, &prev);
    assert_eq!(events, vec![RawEvent::new(0, RawEventType::ButtonPressed(EvCode(BTN_MODE)))]);
}

#[test]
fn diff_lists_axes_before_buttons_in_fixed_order() {
    let prev = zero_snap();
    let mut cur = zero_snap();
    cur.buttons = 0x0001 | 0x2000;
    cur.left_trigger = 40;
    cur.thumb_ry = -1;
    let events = compare_state(0, &cur, &prev);
    assert_eq!(
        events,
        vec![
            RawEvent::new(0, RawEventType::AxisValueChanged(40, EvCode(AXIS_LT2))),
            RawEvent::new(0, RawEventType::AxisValueChanged(-1, EvCode(AXIS_RSTICKY))),
            RawEvent::new(0, RawEventType::ButtonPressed(EvCode(BTN_DPAD_UP))),
            RawEvent::new(0, RawEventType::ButtonPressed(EvCode(BTN_EAST))),
        ]
    );
}

#[test]
fn mask_eq_agrees_on_selected_bit() {
    assert!(is_mask_eq(1, 3, 1));
    assert!(!is_mask_eq(1, 2, 1));
    assert!(is_mask_eq(0, 0, 4));
    assert!(is_mask_eq(0xffff, 0xffff, 0x8000));
}

#[test]
fn button_press_between_two_ticks_emits_exactly_one_event() {
    let mut slot = SlotState::initial(true);
    let mut tick1 = zero_snap();
    tick1.buttons = 0x0000;
    let events = slot_tick(&mut slot, 0, PollOutcome::Success(1, tick1));
    assert!(events.is_empty());
    let mut tick2 = zero_snap();
    tick2.buttons = 0x0001;
    let events = slot_tick(&mut slot, 0, PollOutcome::Success(2, tick2));
    assert_eq!(events, vec![RawEvent::new(0, RawEventType::ButtonPressed(EvCode(BTN_DPAD_UP)))]);
}

#[test]
fn unchanged_packet_number_skips_the_diff() {
    let mut slot = SlotState::initial(true);
    let mut snap = zero_snap();
    snap.buttons = 0x0010;
    let events = slot_tick(&mut slot, 2, PollOutcome::Success(7, snap));
    assert_eq!(events, vec![RawEvent::new(2, RawEventType::ButtonPressed(EvCode(BTN_START)))]);
    let mut other = zero_snap();
    other.buttons = 0xffff;
    let events = slot_tick(&mut slot, 2, PollOutcome::Success(7, other));
    assert!(events.is_empty());
}

#[test]
fn connect_disconnect_events_alternate() {
    let mut slot = SlotState::initial(false);
    let zero = zero_snap();
    let mut log: Vec<RawEvent> = Vec::new();
    let outcomes = vec![
        PollOutcome::Success(1, zero),
        PollOutcome::Success(1, zero),
        PollOutcome::DeviceAbsent,
        PollOutcome::Failure,
        PollOutcome::DeviceAbsent,
        PollOutcome::Success(2, zero),
        PollOutcome::DeviceAbsent,
    ];
    for o in outcomes {
        log.extend(slot_tick(&mut slot, 1, o));
    }
    let conn: Vec<RawEvent> = log
        .into_iter()
        .filter(|e| {
            e.event == RawEventType::Connected || e.event == RawEventType::Disconnected
        })
        .collect();
    assert_eq!(
        conn,
        vec![
            RawEvent::new(1, RawEventType::Connected),
            RawEvent::new(1, RawEventType::Disconnected),
            RawEvent::new(1, RawEventType::Connected),
            RawEvent::new(1, RawEventType::Disconnected),
        ]
    );
}

#[test]
fn reconnect_takes_fresh_baseline_without_stale_diff() {
    let mut slot = SlotState::initial(false);
    let mut snap = zero_snap();
    snap.buttons = 0x2000;
    snap.thumb_lx = 999;
    let events = slot_tick(&mut slot, 3, PollOutcome::Success(5, snap));
    assert_eq!(events, vec![RawEvent::new(3, RawEventType::Connected)]);
    assert!(slot.connected);
    assert_eq!(slot.last, snap);
    assert_eq!(slot.packet, 5);
}

#[test]
fn failure_outcome_changes_nothing() {
    let mut slot = SlotState::initial(true);
    let before = slot;
    let events = slot_tick(&mut slot, 0, PollOutcome::Failure);
    assert!(events.is_empty());
    assert_eq!(slot, before);
}

#[test]
fn absent_on_disconnected_slot_is_silent() {
    let mut slot = SlotState::initial(false);
    let events = slot_tick(&mut slot, 0, PollOutcome::DeviceAbsent);
    assert!(events.is_empty());
    assert!(!slot.connected);
}

#[test]
fn poll_status_classification() {
    let snap = zero_snap();
    assert_eq!(
        poll_outcome_from_status(STATUS_SUCCESS, 9, snap),
        PollOutcome::Success(9, snap)
    );
    assert_eq!(
        poll_outcome_from_status(STATUS_DEVICE_NOT_CONNECTED, 9, snap),
        PollOutcome::DeviceAbsent
    );
    assert_eq!(poll_outcome_from_status(5, 9, snap), PollOutcome::Failure);
}

#[test]
fn disconnected_slots_are_polled_sparsely() {
    assert!(should_poll(true, 55));
    assert!(should_poll(false, 0));
    assert!(should_poll(false, 100));
    assert!(should_poll(false, 200));
    assert!(!should_poll(false, 55));
    assert!(!should_poll(false, 101));
}

#[test]
fn startup_events_come_in_slot_order_before_the_channel() {
    let (tx, rx) = mpsc::channel();
    let mut g = Gilrs::new(true, false, true, false, rx);
    assert_eq!(g.next_event(), Some(RawEvent::new(0, RawEventType::Connected)));
    assert_eq!(g.next_event(), Some(RawEvent::new(2, RawEventType::Connected)));
    assert_eq!(g.next_event(), None);
    drop(tx);
}

#[test]
fn channel_events_arrive_in_fifo_order_after_buffered_ones() {
    let (tx, rx) = mpsc::channel();
    let mut g = Gilrs::new(true, false, false, false, rx);
    tx.send(RawEvent::new(1, RawEventType::Connected)).unwrap();
    tx.send(RawEvent::new(1, RawEventType::ButtonPressed(EvCode(BTN_NORTH)))).unwrap();
    assert_eq!(g.next_event(), Some(RawEvent::new(0, RawEventType::Connected)));
    assert_eq!(g.next_event(), Some(RawEvent::new(1, RawEventType::Connected)));
    assert_eq!(
        g.next_event(),
        Some(RawEvent::new(1, RawEventType::ButtonPressed(EvCode(BTN_NORTH))))
    );
    assert_eq!(g.next_event(), None);
}

#[test]
fn out_of_range_ids_share_one_placeholder_handle() {
    let (_tx, rx) = mpsc::channel();
    let mut g = Gilrs::new(false, false, false, false, rx);
    assert_eq!(g.last_gamepad_hint(), 4);
    {
        let a = g.gamepad(4);
        assert_eq!(a.id, PLACEHOLDER_ID);
        assert_eq!(a.status, Status::NotObserved);
        assert!(a.buttons().is_empty());
        assert!(a.axes().is_empty());
        let b = g.gamepad(1000);
        assert_eq!(b.id, PLACEHOLDER_ID);
        assert_eq!(a.uuid(), b.uuid());
    }
    let c = g.gamepad_mut(77);
    assert_eq!(c.id, PLACEHOLDER_ID);
    assert_eq!(c.status, Status::NotObserved);
    assert!(!c.is_connected());
}

#[test]
fn in_range_ids_serve_their_own_slot_handles() {
    let (_tx, rx) = mpsc::channel();
    let g = Gilrs::new(true, false, false, true, rx);
    assert_eq!(g.gamepad(0).id, 0);
    assert!(g.gamepad(0).is_connected());
    assert_eq!(g.gamepad(1).id, 1);
    assert!(!g.gamepad(1).is_connected());
    assert_eq!(g.gamepad(3).status, Status::Connected);
}

#[test]
fn real_handles_list_full_capabilities() {
    let pad = gamepad_new(1, true);
    let buttons: Vec<u8> = pad.buttons().iter().map(|c| c.0).collect();
    assert_eq!(
        buttons,
        vec![
            BTN_SOUTH,
            BTN_EAST,
            BTN_NORTH,
            BTN_WEST,
            BTN_LT,
            BTN_RT,
            BTN_SELECT,
            BTN_START,
            BTN_MODE,
            BTN_LTHUMB,
            BTN_RTHUMB,
            BTN_DPAD_UP,
            BTN_DPAD_DOWN,
            BTN_DPAD_LEFT,
            BTN_DPAD_RIGHT,
        ]
    );
    let axes: Vec<u8> = pad.axes().iter().map(|c| c.0).collect();
    assert_eq!(
        axes,
        vec![AXIS_LSTICKX, AXIS_LSTICKY, AXIS_RSTICKX, AXIS_RSTICKY, AXIS_RT2, AXIS_LT2]
    );
}

#[test]
fn axis_calibration_table_matches_the_hardware() {
    assert_eq!(
        axis_info(EvCode(AXIS_LSTICKX)),
        Some(AxisInfo { min: -32768, max: 32767, deadzone: 7849 })
    );
    assert_eq!(
        axis_info(EvCode(AXIS_RSTICKY)),
        Some(AxisInfo { min: -32768, max: 32767, deadzone: 8689 })
    );
    assert_eq!(axis_info(EvCode(AXIS_LT2)), Some(AxisInfo { min: 0, max: 255, deadzone: 30 }));
    assert_eq!(axis_info(EvCode(AXIS_LEFTZ)), None);
    assert_eq!(axis_info(EvCode(BTN_SOUTH)), None);
}

#[test]
fn every_calibrated_axis_has_a_well_formed_range() {
    for c in 0..=255u8 {
        if let Some(info) = axis_info(EvCode(c)) {
            assert!(info.min < info.max);
        }
    }
}

#[test]
fn power_info_maps_battery_readings() {
    let pad = gamepad_new(0, true);
    assert_eq!(pad.power_info(None), PowerInfo::Unknown);
    assert_eq!(
        pad.power_info(Some(BatteryReading { battery_type: BATTERY_TYPE_WIRED, battery_level: 0 })),
        PowerInfo::Wired
    );
    assert_eq!(
        pad.power_info(Some(BatteryReading {
            battery_type: BATTERY_TYPE_ALKALINE,
            battery_level: BATTERY_LEVEL_FULL,
        })),
        PowerInfo::Charged
    );
    assert_eq!(
        pad.power_info(Some(BatteryReading {
            battery_type: BATTERY_TYPE_NIMH,
            battery_level: BATTERY_LEVEL_LOW,
        })),
        PowerInfo::Discharging(33)
    );
    assert_eq!(
        pad.power_info(Some(BatteryReading {
            battery_type: BATTERY_TYPE_ALKALINE,
            battery_level: BATTERY_LEVEL_MEDIUM,
        })),
        PowerInfo::Discharging(67)
    );
    assert_eq!(
        pad.power_info(Some(BatteryReading {
            battery_type: BATTERY_TYPE_NIMH,
            battery_level: BATTERY_LEVEL_EMPTY,
        })),
        PowerInfo::Discharging(0)
    );
    assert_eq!(
        pad.power_info(Some(BatteryReading { battery_type: 0xFF, battery_level: 0 })),
        PowerInfo::Unknown
    );
}

#[test]
fn handle_identity_and_force_feedback() {
    let pad = gamepad_new(2, false);
    assert_eq!(pad.name(), "Xbox Controller");
    assert_eq!(pad.uuid(), Gamepad::none().uuid());
    assert!(pad.is_ff_supported());
    assert_eq!(pad.ff_device(), Some(FfDevice { id: 2 }));
}
