//! Power states and optimization kinds.
use vstd::prelude::*;
use crate::text::{owned, push_str};

verus! {

/// Risk level for thermal throttling.
#[derive(Debug, Clone, PartialEq, Eq, Structural)]
pub enum ThrottlingRisk {
    /// No risk of throttling
    NoRisk,
    /// Low risk of throttling under sustained load
    Low,
    /// Moderate risk, throttling may occur
    Moderate,
    /// High risk, throttling likely
    High,
    /// Critical, throttling is occurring
    Critical,
}

pub open spec fn throttling_risk_label(v: ThrottlingRisk) -> Seq<char> {
    match v {
        ThrottlingRisk::NoRisk => "None"@,
        ThrottlingRisk::Low => "Low"@,
        ThrottlingRisk::Moderate => "Moderate"@,
        ThrottlingRisk::High => "High"@,
        ThrottlingRisk::Critical => "Critical"@,
    }
}

impl ThrottlingRisk {
    /// The display name.
    pub fn label(&self) -> (r: String)
        ensures
            r@ == throttling_risk_label(*self),
    {
        match self {
            ThrottlingRisk::NoRisk => owned("None"),
            ThrottlingRisk::Low => owned("Low"),
            ThrottlingRisk::Moderate => owned("Moderate"),
            ThrottlingRisk::High => owned("High"),
            ThrottlingRisk::Critical => owned("Critical"),
        }
    }
}

/// Current system power state.
#[derive(Debug, Clone)]
pub enum PowerState {
    /// Maximum performance mode
    HighPerformance,
    /// Balanced mode
    Balanced,
    /// Power saving mode
    PowerSaver,
    /// Battery optimization mode
    BatteryOptimized,
    /// Custom power profile
    Custom(String),
    /// Unknown state
    Unknown,
}

pub open spec fn power_state_label(v: PowerState) -> Seq<char> {
    match v {
        PowerState::HighPerformance => "High Performance"@,
        PowerState::Balanced => "Balanced"@,
        PowerState::PowerSaver => "Power Saver"@,
        PowerState::BatteryOptimized => "Battery Optimized"@,
        PowerState::Custom(s) => "Custom: "@ + s@,
        PowerState::Unknown => "Unknown"@,
    }
}

impl PowerState {
    /// The display name.
    pub fn label(&self) -> (r: String)
        ensures
            r@ == power_state_label(*self),
    {
        match self {
            PowerState::HighPerformance => owned("High Performance"),
            PowerState::Balanced => owned("Balanced"),
            PowerState::PowerSaver => owned("Power Saver"),
            PowerState::BatteryOptimized => owned("Battery Optimized"),
            PowerState::Custom(s) => {
                let mut r = owned("Custom: ");
                push_str(&mut r, s.as_str());
                r
            },
            PowerState::Unknown => owned("Unknown"),
        }
    }
}

/// Category of power optimization.
#[derive(Debug, Clone, PartialEq, Eq, Structural)]
pub enum OptimizationCategory {
    /// CPU frequency scaling
    CPUScaling,
    /// GPU power limiting
    GPUPowerLimit,
    /// Display brightness
    DisplayBrightness,
    /// Background processes
    BackgroundProcesses,
    /// Network interfaces
    NetworkInterfaces,
    /// Storage devices
    StorageDevices,
    /// Thermal management
    ThermalManagement,
    /// System settings
    SystemSettings,
}

/// Priority level for optimizations.
#[derive(Debug, Clone, PartialEq, Eq, Structural)]
pub enum OptimizationPriority {
    /// Low impact, minor savings
    Low,
    /// Medium impact, moderate savings
    Medium,
    /// High impact, significant savings
    High,
    /// Critical for system stability
    Critical,
}
} // verus!
