//! The consumer-facing device handle: identity, power state, the
//! force-feedback capability object, and the capability lists drawn from
//! the canonical code table.

use vstd::prelude::*;

use crate::codes::{
    axis_codes, axis_info, button_codes, spec_axis_codes, spec_axis_info, spec_button_codes,
    AxisInfo, EvCode,
};

verus! {

// Native battery query constants: the device class handed to the power
// query, and the battery types and charge levels it reports.
pub const BATTERY_DEVTYPE_GAMEPAD: u8 = 0x00;

pub const BATTERY_TYPE_WIRED: u8 = 0x01;

pub const BATTERY_TYPE_ALKALINE: u8 = 0x02;

pub const BATTERY_TYPE_NIMH: u8 = 0x03;

pub const BATTERY_LEVEL_EMPTY: u8 = 0x00;

pub const BATTERY_LEVEL_LOW: u8 = 0x01;

pub const BATTERY_LEVEL_MEDIUM: u8 = 0x02;

pub const BATTERY_LEVEL_FULL: u8 = 0x03;

/// The slot index carried by the shared placeholder handle that stands in
/// for every id outside the valid range.
pub const PLACEHOLDER_ID: u32 = 0xFFFF_FFFF;

/// Connectivity of a device handle as recorded when it was constructed.
#[derive(Clone, Copy, Debug, Eq, PartialEq, Structural)]
pub enum Status {
    Connected,
    Disconnected,
    NotObserved,
}

/// The power state of one device, as reported by a fresh native battery
/// query.
#[derive(Clone, Copy, Debug, Eq, PartialEq, Structural)]
pub enum PowerInfo {
    Unknown,
    Wired,
    Discharging(u8),
    Charged,
}

/// One battery reading handed back by the native power query: the battery
/// type and its coarse charge level.
#[derive(Clone, Copy, Debug, Eq, PartialEq, Structural)]
pub struct BatteryReading {
    pub battery_type: u8,
    pub battery_level: u8,
}

/// The force-feedback control surface for one slot. Handed out per device;
/// its actual control calls live outside this crate.
#[derive(Clone, Copy, Debug, Eq, PartialEq, Structural)]
pub struct FfDevice {
    pub id: u32,
}

impl FfDevice {
    pub fn new(id: u32) -> (r: FfDevice)
        ensures
            r == (FfDevice { id }),
    {
        FfDevice { id }
    }
}

#[verifier::external_type_specification]
#[verifier::external_body]
pub struct ExUuid(uuid::Uuid);

/// Relies on uuid::Uuid::nil: the all-zero identity, used because this
/// backend cannot resolve a real device identity.
#[verifier::external_body]
fn nil_uuid() -> (r: uuid::Uuid) {
    uuid::Uuid::nil()
}

/// What a battery reading means: wired power, a charged or discharging
/// battery with its level mapped to a percentage, or unknown — also when
/// the query itself failed (`None`).
pub open spec fn spec_power_info(reading: Option<BatteryReading>) -> PowerInfo {
    match reading {
        Option::None => PowerInfo::Unknown,
        Option::Some(b) => {
            if b.battery_type == BATTERY_TYPE_WIRED {
                PowerInfo::Wired
            } else if b.battery_type == BATTERY_TYPE_ALKALINE || b.battery_type
                == BATTERY_TYPE_NIMH {
                if b.battery_level == BATTERY_LEVEL_FULL {
                    PowerInfo::Charged
                } else if b.battery_level == BATTERY_LEVEL_LOW {
                    PowerInfo::Discharging(33u8)
                } else if b.battery_level == BATTERY_LEVEL_MEDIUM {
                    PowerInfo::Discharging(67u8)
                } else {
                    PowerInfo::Discharging(0u8)
                }
            } else {
                PowerInfo::Unknown
            }
        },
    }
}

/// One device handle: the (placeholder) identity, the slot index, and the
/// connectivity recorded at construction.
pub struct Gamepad {
    pub uuid: uuid::Uuid,
    pub id: u32,
    pub status: Status,
}

impl Gamepad {
    /// The shared placeholder handle returned for every id outside the
    /// valid slot range: never observed, empty capabilities.
    pub fn none() -> (r: Gamepad)
        ensures
            r.id == PLACEHOLDER_ID,
            r.status == Status::NotObserved,
    {
        Gamepad { uuid: nil_uuid(), id: PLACEHOLDER_ID, status: Status::NotObserved }
    }

    pub fn is_connected(&self) -> (r: bool)
        ensures
            r == (self.status == Status::Connected),
    {
        match self.status {
            Status::Connected => true,
            _ => false,
        }
    }

    /// The static display name; this backend cannot resolve real names.
    pub fn name(&self) -> (r: &'static str)
        ensures
            r@ == "Xbox Controller"@,
    {
        "Xbox Controller"
    }

    pub fn uuid(&self) -> (r: uuid::Uuid)
        ensures
            r == self.uuid,
    {
        self.uuid
    }

    /// The power state for a battery reading from a fresh native query
    /// (`None` when the query failed). A battery-powered reading must
    /// carry one of the four defined charge levels.
    pub fn power_info(&self, reading: Option<BatteryReading>) -> (r: PowerInfo)
        requires
            reading matches Some(b) ==> ((b.battery_type == BATTERY_TYPE_ALKALINE
                || b.battery_type == BATTERY_TYPE_NIMH) ==> b.battery_level
                <= BATTERY_LEVEL_FULL),
        ensures
            r == spec_power_info(reading),
    {
        match reading {
            Option::None => PowerInfo::Unknown,
            Option::Some(b) => {
                if b.battery_type == BATTERY_TYPE_WIRED {
                    PowerInfo::Wired
                } else if b.battery_type == BATTERY_TYPE_ALKALINE || b.battery_type
                    == BATTERY_TYPE_NIMH {
                    if b.battery_level == BATTERY_LEVEL_FULL {
                        PowerInfo::Charged
                    } else if b.battery_level == BATTERY_LEVEL_LOW {
                        PowerInfo::Discharging(33)
                    } else if b.battery_level == BATTERY_LEVEL_MEDIUM {
                        PowerInfo::Discharging(67)
                    } else {
                        PowerInfo::Discharging(0)
                    }
                } else {
                    PowerInfo::Unknown
                }
            },
        }
    }

    pub fn is_ff_supported(&self) -> (r: bool)
        ensures
            r,
    {
        true
    }

    pub fn ff_device(&self) -> (r: Option<FfDevice>)
        ensures
            r == (Some(FfDevice { id: self.id })),
    {
        Some(FfDevice::new(self.id))
    }

    /// The ordered list of button codes this handle supports: the full
    /// table for a real slot, empty for the placeholder.
    pub fn buttons(&self) -> (r: Vec<EvCode>)
        ensures
            self.id == PLACEHOLDER_ID ==> r@ == Seq::<EvCode>::empty(),
            self.id != PLACEHOLDER_ID ==> r@ == spec_button_codes(),
    {
        if self.id == PLACEHOLDER_ID {
            Vec::new()
        } else {
            button_codes()
        }
    }

    /// The ordered list of axis codes this handle supports: the full
    /// table for a real slot, empty for the placeholder.
    pub fn axes(&self) -> (r: Vec<EvCode>)
        ensures
            self.id == PLACEHOLDER_ID ==> r@ == Seq::<EvCode>::empty(),
            self.id != PLACEHOLDER_ID ==> r@ == spec_axis_codes(),
    {
        if self.id == PLACEHOLDER_ID {
            Vec::new()
        } else {
            axis_codes()
        }
    }

    /// Calibration lookup, delegating to the canonical code table.
    pub fn axis_info(&self, nec: EvCode) -> (r: Option<AxisInfo>)
        ensures
            r == spec_axis_info(nec),
    {
        axis_info(nec)
    }
}

/// A fresh handle for slot `id` with the given startup connectivity.
pub fn gamepad_new(id: u32, connected: bool) -> (g: Gamepad)
    ensures
        g.id == id,
        g.status == (if connected {
            Status::Connected
        } else {
            Status::NotObserved
        }),
{
    let status = if connected {
        Status::Connected
    } else {
        Status::NotObserved
    };
    Gamepad { uuid: nil_uuid(), id, status }
}

} // verus!
