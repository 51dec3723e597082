//! The canonical code table: a static, immutable mapping from the native
//! button bits and axis indices of an XInput-style controller to a portable
//! event-code space, together with per-axis calibration data.

use vstd::prelude::*;

verus! {

/// An opaque small integer naming one canonical button or axis. Stable
/// across devices of this backend; the join key into the code table.
#[derive(Clone, Copy, Debug, Eq, PartialEq, Ord, PartialOrd, Hash, Structural)]
pub struct EvCode(pub u8);

// Canonical axis codes.
pub const AXIS_LSTICKX: u8 = 0;
pub const AXIS_LSTICKY: u8 = 1;
pub const AXIS_LEFTZ: u8 = 2;
pub const AXIS_RSTICKX: u8 = 3;
pub const AXIS_RSTICKY: u8 = 4;
pub const AXIS_RIGHTZ: u8 = 5;
pub const AXIS_DPADX: u8 = 6;
pub const AXIS_DPADY: u8 = 7;
pub const AXIS_RT: u8 = 8;
pub const AXIS_LT: u8 = 9;
pub const AXIS_RT2: u8 = 10;
pub const AXIS_LT2: u8 = 11;

// Canonical button codes.
pub const BTN_SOUTH: u8 = 12;
pub const BTN_EAST: u8 = 13;
pub const BTN_C: u8 = 14;
pub const BTN_NORTH: u8 = 15;
pub const BTN_WEST: u8 = 16;
pub const BTN_Z: u8 = 17;
pub const BTN_LT: u8 = 18;
pub const BTN_RT: u8 = 19;
pub const BTN_LT2: u8 = 20;
pub const BTN_RT2: u8 = 21;
pub const BTN_SELECT: u8 = 22;
pub const BTN_START: u8 = 23;
pub const BTN_MODE: u8 = 24;
pub const BTN_LTHUMB: u8 = 25;
pub const BTN_RTHUMB: u8 = 26;
pub const BTN_DPAD_UP: u8 = 27;
pub const BTN_DPAD_DOWN: u8 = 28;
pub const BTN_DPAD_LEFT: u8 = 29;
pub const BTN_DPAD_RIGHT: u8 = 30;

// Native button bits: the layout of the controller's 16-bit button mask.
pub const BIT_DPAD_UP: u16 = 0x0001;
pub const BIT_DPAD_DOWN: u16 = 0x0002;
pub const BIT_DPAD_LEFT: u16 = 0x0004;
pub const BIT_DPAD_RIGHT: u16 = 0x0008;
pub const BIT_START: u16 = 0x0010;
pub const BIT_BACK: u16 = 0x0020;
pub const BIT_LEFT_THUMB: u16 = 0x0040;
pub const BIT_RIGHT_THUMB: u16 = 0x0080;
pub const BIT_LEFT_SHOULDER: u16 = 0x0100;
pub const BIT_RIGHT_SHOULDER: u16 = 0x0200;
pub const BIT_GUIDE: u16 = 0x0400;
pub const BIT_A: u16 = 0x1000;
pub const BIT_B: u16 = 0x2000;
pub const BIT_X: u16 = 0x4000;
pub const BIT_Y: u16 = 0x8000;

// Native calibration data: stick deadzones and the trigger threshold.
pub const LEFT_THUMB_DEADZONE: u32 = 7849;
pub const RIGHT_THUMB_DEADZONE: u32 = 8689;
pub const TRIGGER_THRESHOLD: u32 = 30;

/// Calibration data for one axis code: the raw range and the radius below
/// which motion should be treated as noise.
#[derive(Clone, Copy, Debug, Eq, PartialEq, Structural)]
pub struct AxisInfo {
    pub min: i32,
    pub max: i32,
    pub deadzone: u32,
}

/// The calibration table, indexed by canonical axis code. Axis codes this
/// backend does not calibrate map to `None`.
pub open spec fn spec_axis_info(nec: EvCode) -> Option<AxisInfo> {
    if nec.0 == AXIS_LSTICKX || nec.0 == AXIS_LSTICKY {
        Some(AxisInfo { min: -32768i32, max: 32767i32, deadzone: LEFT_THUMB_DEADZONE })
    } else if nec.0 == AXIS_RSTICKX || nec.0 == AXIS_RSTICKY {
        Some(AxisInfo { min: -32768i32, max: 32767i32, deadzone: RIGHT_THUMB_DEADZONE })
    } else if nec.0 == AXIS_RT2 || nec.0 == AXIS_LT2 {
        Some(AxisInfo { min: 0, max: 255, deadzone: TRIGGER_THRESHOLD })
    } else {
        None
    }
}

/// Calibration lookup. Never fails: an axis code without calibration simply
/// has none available.
pub fn axis_info(nec: EvCode) -> (r: Option<AxisInfo>)
    ensures
        r == spec_axis_info(nec),
{
    if nec.0 == AXIS_LSTICKX || nec.0 == AXIS_LSTICKY {
        Some(AxisInfo { min: -32768i32, max: 32767i32, deadzone: LEFT_THUMB_DEADZONE })
    } else if nec.0 == AXIS_RSTICKX || nec.0 == AXIS_RSTICKY {
        Some(AxisInfo { min: -32768i32, max: 32767i32, deadzone: RIGHT_THUMB_DEADZONE })
    } else if nec.0 == AXIS_RT2 || nec.0 == AXIS_LT2 {
        Some(AxisInfo { min: 0, max: 255, deadzone: TRIGGER_THRESHOLD })
    } else {
        None
    }
}

/// The ordered list of canonical codes for every button a device of this
/// backend supports.
pub open spec fn spec_button_codes() -> Seq<EvCode> {
    seq![
        EvCode(BTN_SOUTH),
        EvCode(BTN_EAST),
        EvCode(BTN_NORTH),
        EvCode(BTN_WEST),
        EvCode(BTN_LT),
        EvCode(BTN_RT),
        EvCode(BTN_SELECT),
        EvCode(BTN_START),
        EvCode(BTN_MODE),
        EvCode(BTN_LTHUMB),
        EvCode(BTN_RTHUMB),
        EvCode(BTN_DPAD_UP),
        EvCode(BTN_DPAD_DOWN),
        EvCode(BTN_DPAD_LEFT),
        EvCode(BTN_DPAD_RIGHT),
    ]
}

/// The ordered list of canonical codes for every axis a device of this
/// backend supports.
pub open spec fn spec_axis_codes() -> Seq<EvCode> {
    seq![
        EvCode(AXIS_LSTICKX),
        EvCode(AXIS_LSTICKY),
        EvCode(AXIS_RSTICKX),
        EvCode(AXIS_RSTICKY),
        EvCode(AXIS_RT2),
        EvCode(AXIS_LT2),
    ]
}

pub fn button_codes() -> (r: Vec<EvCode>)
    ensures
        r@ == spec_button_codes(),
{
    let mut r: Vec<EvCode> = Vec::new();
    r.push(EvCode(BTN_SOUTH));
    r.push(EvCode(BTN_EAST));
    r.push(EvCode(BTN_NORTH));
    r.push(EvCode(BTN_WEST));
    r.push(EvCode(BTN_LT));
    r.push(EvCode(BTN_RT));
    r.push(EvCode(BTN_SELECT));
    r.push(EvCode(BTN_START));
    r.push(EvCode(BTN_MODE));
    r.push(EvCode(BTN_LTHUMB));
    r.push(EvCode(BTN_RTHUMB));
    r.push(EvCode(BTN_DPAD_UP));
    r.push(EvCode(BTN_DPAD_DOWN));
    r.push(EvCode(BTN_DPAD_LEFT));
    r.push(EvCode(BTN_DPAD_RIGHT));
    proof {
        assert(r@ =~= spec_button_codes());
    }
    r
}

pub fn axis_codes() -> (r: Vec<EvCode>)
    ensures
        r@ == spec_axis_codes(),
{
    let mut r: Vec<EvCode> = Vec::new();
    r.push(EvCode(AXIS_LSTICKX));
    r.push(EvCode(AXIS_LSTICKY));
    r.push(EvCode(AXIS_RSTICKX));
    r.push(EvCode(AXIS_RSTICKY));
    r.push(EvCode(AXIS_RT2));
    r.push(EvCode(AXIS_LT2));
    proof {
        assert(r@ =~= spec_axis_codes());
    }
    r
}

/// Every axis code that carries calibration data has a well-formed range:
/// its minimum lies strictly below its maximum, and its deadzone is
/// non-negative.
pub proof fn lemma_axis_info_well_formed()
    ensures
        forall|c: EvCode| (#[trigger] spec_axis_info(c)) matches Some(info)
            ==> info.min < info.max && info.deadzone >= 0,
{
}

} // verus!
