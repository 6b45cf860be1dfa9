//! Battery states.
use vstd::prelude::*;
use crate::text::owned;

verus! {

/// Battery status.
#[derive(Debug, Clone, PartialEq, Eq, Structural)]
pub enum BatteryStatus {
    Charging,
    Discharging,
    Full,
    NotCharging,
    Unknown,
}

pub open spec fn battery_status_label(v: BatteryStatus) -> Seq<char> {
    match v {
        BatteryStatus::Charging => "Charging"@,
        BatteryStatus::Discharging => "Discharging"@,
        BatteryStatus::Full => "Full"@,
        BatteryStatus::NotCharging => "Not Charging"@,
        BatteryStatus::Unknown => "Unknown"@,
    }
}

impl BatteryStatus {
    /// The display name.
    pub fn label(&self) -> (r: String)
        ensures
            r@ == battery_status_label(*self),
    {
        match self {
            BatteryStatus::Charging => owned("Charging"),
            BatteryStatus::Discharging => owned("Discharging"),
            BatteryStatus::Full => owned("Full"),
            BatteryStatus::NotCharging => owned("Not Charging"),
            BatteryStatus::Unknown => owned("Unknown"),
        }
    }
}
} // verus!
