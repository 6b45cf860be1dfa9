//! Thermal states and cooling advice kinds.
use vstd::prelude::*;
use crate::text::owned;

verus! {

/// Severity of thermal throttling.
#[derive(Debug, Clone, PartialEq, Eq, Structural)]
pub enum ThrottlingSeverity {
    /// No throttling
    NoThrottling,
    /// Light throttling (less than 10% performance loss)
    Light,
    /// Moderate throttling (10-25% performance loss)
    Moderate,
    /// Heavy throttling (25-50% performance loss)
    Heavy,
    /// Severe throttling (more than 50% performance loss)
    Severe,
}

pub open spec fn throttling_severity_label(v: ThrottlingSeverity) -> Seq<char> {
    match v {
        ThrottlingSeverity::NoThrottling => "None"@,
        ThrottlingSeverity::Light => "Light"@,
        ThrottlingSeverity::Moderate => "Moderate"@,
        ThrottlingSeverity::Heavy => "Heavy"@,
        ThrottlingSeverity::Severe => "Severe"@,
    }
}

impl ThrottlingSeverity {
    /// The display name.
    pub fn label(&self) -> (r: String)
        ensures
            r@ == throttling_severity_label(*self),
    {
        match self {
            ThrottlingSeverity::NoThrottling => owned("None"),
            ThrottlingSeverity::Light => owned("Light"),
            ThrottlingSeverity::Moderate => owned("Moderate"),
            ThrottlingSeverity::Heavy => owned("Heavy"),
            ThrottlingSeverity::Severe => owned("Severe"),
        }
    }
}

/// Type of cooling recommendation.
#[derive(Debug, Clone, PartialEq, Eq, Structural)]
pub enum CoolingRecommendationType {
    /// Fan curve optimization
    FanCurveOptimization,
    /// Thermal paste replacement
    ThermalPasteReplacement,
    /// Additional case fans
    AdditionalFans,
    /// CPU cooler upgrade
    CPUCoolerUpgrade,
    /// GPU cooling solution
    GPUCooling,
    /// Case ventilation improvement
    CaseVentilation,
    /// Undervolting components
    Undervolting,
    /// Workload adjustment
    WorkloadAdjustment,
    /// Environmental changes
    EnvironmentalChanges,
}

/// Implementation difficulty level.
#[derive(Debug, Clone, PartialEq, Eq, Structural)]
pub enum ImplementationDifficulty {
    /// Easy to implement (software changes)
    Easy,
    /// Moderate difficulty (minor hardware changes)
    Moderate,
    /// Difficult (major hardware changes)
    Difficult,
    /// Expert level (professional installation recommended)
    Expert,
}

pub open spec fn implementation_difficulty_label(v: ImplementationDifficulty) -> Seq<char> {
    match v {
        ImplementationDifficulty::Easy => "Easy"@,
        ImplementationDifficulty::Moderate => "Moderate"@,
        ImplementationDifficulty::Difficult => "Difficult"@,
        ImplementationDifficulty::Expert => "Expert"@,
    }
}

impl ImplementationDifficulty {
    /// The display name.
    pub fn label(&self) -> (r: String)
        ensures
            r@ == implementation_difficulty_label(*self),
    {
        match self {
            ImplementationDifficulty::Easy => owned("Easy"),
            ImplementationDifficulty::Moderate => owned("Moderate"),
            ImplementationDifficulty::Difficult => owned("Difficult"),
            ImplementationDifficulty::Expert => owned("Expert"),
        }
    }
}

/// Cost category for recommendations.
#[derive(Debug, Clone, PartialEq, Eq, Structural)]
pub enum CostCategory {
    /// Free (software or settings changes)
    Free,
    /// Low cost (under $50)
    Low,
    /// Medium cost ($50-200)
    Medium,
    /// High cost (over $200)
    High,
}

pub open spec fn cost_category_label(v: CostCategory) -> Seq<char> {
    match v {
        CostCategory::Free => "Free"@,
        CostCategory::Low => "Low cost"@,
        CostCategory::Medium => "Medium cost"@,
        CostCategory::High => "High cost"@,
    }
}

impl CostCategory {
    /// The display name.
    pub fn label(&self) -> (r: String)
        ensures
            r@ == cost_category_label(*self),
    {
        match self {
            CostCategory::Free => owned("Free"),
            CostCategory::Low => owned("Low cost"),
            CostCategory::Medium => owned("Medium cost"),
            CostCategory::High => owned("High cost"),
        }
    }
}

/// System thermal status.
#[derive(Debug, Clone, PartialEq, Eq, Structural)]
pub enum ThermalStatus {
    Normal,
    Warm,
    Hot,
    Critical,
    Unknown,
}

pub open spec fn thermal_status_label(v: ThermalStatus) -> Seq<char> {
    match v {
        ThermalStatus::Normal => "Normal"@,
        ThermalStatus::Warm => "Warm"@,
        ThermalStatus::Hot => "Hot"@,
        ThermalStatus::Critical => "Critical"@,
        ThermalStatus::Unknown => "Unknown"@,
    }
}

impl ThermalStatus {
    /// The display name.
    pub fn label(&self) -> (r: String)
        ensures
            r@ == thermal_status_label(*self),
    {
        match self {
            ThermalStatus::Normal => owned("Normal"),
            ThermalStatus::Warm => owned("Warm"),
            ThermalStatus::Hot => owned("Hot"),
            ThermalStatus::Critical => owned("Critical"),
            ThermalStatus::Unknown => owned("Unknown"),
        }
    }
}
} // verus!
