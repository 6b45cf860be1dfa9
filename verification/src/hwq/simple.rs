//! The short system overview: health, readiness for AI work, and advice.
use vstd::prelude::*;
use crate::hwq::cpu::{has_feature, has_feature_named, CPUFeature};
use crate::hwq::gpu::{gpu_vendor_label, memory_gb_tenths, memory_tenths_gb, GPUVendor};
use crate::hwq::storage::{storage_type_label, StorageType};
use crate::protocol::string_views;
use crate::text::{contains_lit, has_sub, lowercase, owned, to_lowercase};

verus! {

/// Overall system health status.
#[derive(Debug, Clone, PartialEq, Eq, Structural)]
pub enum HealthStatus {
    /// Everything is running optimally
    Excellent,
    /// System is running well
    Good,
    /// Minor issues detected
    Fair,
    /// Significant issues that should be addressed
    Poor,
    /// Critical issues requiring immediate attention
    Critical,
}

pub open spec fn health_status_label(v: HealthStatus) -> Seq<char> {
    match v {
        HealthStatus::Excellent => "Excellent"@,
        HealthStatus::Good => "Good"@,
        HealthStatus::Fair => "Fair"@,
        HealthStatus::Poor => "Poor"@,
        HealthStatus::Critical => "Critical"@,
    }
}

impl HealthStatus {
    /// The display name.
    pub fn label(&self) -> (r: String)
        ensures
            r@ == health_status_label(*self),
    {
        match self {
            HealthStatus::Excellent => owned("Excellent"),
            HealthStatus::Good => owned("Good"),
            HealthStatus::Fair => owned("Fair"),
            HealthStatus::Poor => owned("Poor"),
            HealthStatus::Critical => owned("Critical"),
        }
    }
}

/// Temperature status.
#[derive(Debug, Clone, Copy, PartialEq, Eq, Structural)]
pub enum TemperatureStatus {
    /// Temperatures are normal
    Normal,
    /// Temperatures are elevated but acceptable
    Warm,
    /// High temperatures detected
    Hot,
    /// Critical temperatures that may cause throttling
    Critical,
}

pub open spec fn temperature_status_label(v: TemperatureStatus) -> Seq<char> {
    match v {
        TemperatureStatus::Normal => "Normal"@,
        TemperatureStatus::Warm => "Warm"@,
        TemperatureStatus::Hot => "Hot"@,
        TemperatureStatus::Critical => "Critical"@,
    }
}

impl TemperatureStatus {
    /// The display name.
    pub fn label(&self) -> (r: String)
        ensures
            r@ == temperature_status_label(*self),
    {
        match self {
            TemperatureStatus::Normal => owned("Normal"),
            TemperatureStatus::Warm => owned("Warm"),
            TemperatureStatus::Hot => owned("Hot"),
            TemperatureStatus::Critical => owned("Critical"),
        }
    }
}

/// Power consumption status.
#[derive(Debug, Clone, Copy, PartialEq, Eq, Structural)]
pub enum PowerStatus {
    /// Low power consumption
    Low,
    /// Normal power consumption
    Normal,
    /// High power consumption
    High,
    /// Very high power consumption
    VeryHigh,
}

pub open spec fn power_status_label(v: PowerStatus) -> Seq<char> {
    match v {
        PowerStatus::Low => "Low"@,
        PowerStatus::Normal => "Normal"@,
        PowerStatus::High => "High"@,
        PowerStatus::VeryHigh => "Very High"@,
    }
}

impl PowerStatus {
    /// The display name.
    pub fn label(&self) -> (r: String)
        ensures
            r@ == power_status_label(*self),
    {
        match self {
            PowerStatus::Low => owned("Low"),
            PowerStatus::Normal => owned("Normal"),
            PowerStatus::High => owned("High"),
            PowerStatus::VeryHigh => owned("Very High"),
        }
    }
}

/// Simplified CPU information.
#[derive(Debug, Clone)]
pub struct SimpleCPU {
    /// CPU model name
    pub name: String,
    /// Number of physical cores
    pub cores: u32,
    /// Number of logical cores (threads)
    pub threads: u32,
    /// Vendor (Intel, AMD, Apple, etc.)
    pub vendor: String,
    /// Supports AI acceleration features
    pub ai_capable: bool,
}

/// System health overview.
#[derive(Debug, Clone)]
pub struct SystemHealth {
    pub status: HealthStatus,
    pub temperature: TemperatureStatus,
    pub power: PowerStatus,
    /// Warnings raised while assessing the system
    pub warnings: Vec<String>,
}

/// The warning that a temperature level raises, if any.
pub open spec fn temperature_warning(t: TemperatureStatus) -> Option<Seq<char>> {
    match t {
        TemperatureStatus::Critical => Some("High CPU/GPU temperatures detected"@),
        TemperatureStatus::Hot => Some("Elevated temperatures detected"@),
        _ => None,
    }
}

/// The overall health for the given temperature and power levels and number of warnings.
pub open spec fn overall_status(t: TemperatureStatus, p: PowerStatus, warnings: nat) -> HealthStatus {
    if t is Critical {
        HealthStatus::Critical
    } else if t is Hot && p is VeryHigh {
        HealthStatus::Poor
    } else if t is Hot {
        HealthStatus::Fair
    } else if p is VeryHigh {
        HealthStatus::Fair
    } else if warnings > 2 {
        HealthStatus::Poor
    } else if warnings > 0 {
        HealthStatus::Fair
    } else if t is Normal && (p is Normal || p is Low) {
        HealthStatus::Excellent
    } else {
        HealthStatus::Good
    }
}

impl SystemHealth {
    /// The health overview for the given temperature and power levels: a warning for a
    /// hot or critical temperature, and the overall status that follows.
    pub fn assess(temperature: TemperatureStatus, power: PowerStatus) -> (r: SystemHealth)
        ensures
            r.temperature == temperature,
            r.power == power,
            string_views(r.warnings@) == (match temperature_warning(temperature) {
                Some(w) => seq![w],
                None => Seq::<Seq<char>>::empty(),
            }),
            r.status == overall_status(temperature, power, r.warnings@.len()),
    {
        let mut warnings: Vec<String> = Vec::new();
        match temperature {
            TemperatureStatus::Critical => warnings.push(owned("High CPU/GPU temperatures detected")),
            TemperatureStatus::Hot => warnings.push(owned("Elevated temperatures detected")),
            _ => {},
        }
        let n = warnings.len();
        let status = match (temperature, power) {
            (TemperatureStatus::Critical, _) => HealthStatus::Critical,
            (TemperatureStatus::Hot, PowerStatus::VeryHigh) => HealthStatus::Poor,
            (TemperatureStatus::Hot, _) => HealthStatus::Fair,
            (_, PowerStatus::VeryHigh) => HealthStatus::Fair,
            _ => {
                if n > 2 {
                    HealthStatus::Poor
                } else if n > 0 {
                    HealthStatus::Fair
                } else {
                    match (temperature, power) {
                        (TemperatureStatus::Normal, PowerStatus::Normal) => HealthStatus::Excellent,
                        (TemperatureStatus::Normal, PowerStatus::Low) => HealthStatus::Excellent,
                        _ => HealthStatus::Good,
                    }
                }
            },
        };
        proof {
            assert(string_views(warnings@) =~= (match temperature_warning(temperature) {
                Some(w) => seq![w],
                None => Seq::<Seq<char>>::empty(),
            }));
        }
        SystemHealth { status, temperature, power, warnings }
    }
}

/// A primary GPU as the overview sees it: its memory in megabytes (reported in
/// gigabytes rounded to a tenth) and whether it accelerates AI work.
#[derive(Debug, Clone)]
pub struct GpuSummary {
    pub name: String,
    pub vendor: String,
    pub memory_mb: u64,
    pub ai_capable: bool,
}

/// The figures of a system overview that scores and advice are drawn from, in whole
/// units: memory in megabytes (reported in gigabytes, `memory_mb / 1024`).
#[derive(Debug, Clone)]
pub struct SystemSummary {
    pub cpu: SimpleCPU,
    pub memory_mb: u64,
    pub gpu: Option<GpuSummary>,
    /// Primary drive type, as its display name
    pub drive_type: String,
    pub health: SystemHealth,
}

/// The GPU's memory in tenths of a gigabyte, when there is a GPU.
pub open spec fn gpu_tenths(s: SystemSummary) -> Option<nat> {
    match s.gpu {
        Some(g) => Some(memory_tenths_gb(g.memory_mb)),
        None => None,
    }
}

/// The system has an AI-capable GPU.
pub open spec fn gpu_ai(s: SystemSummary) -> bool {
    s.gpu matches Some(g) && g.ai_capable
}

/// Points for GPU memory.
pub open spec fn ai_gpu_points(s: SystemSummary) -> nat {
    match s.gpu {
        Some(g) => if g.ai_capable {
            30 + if memory_tenths_gb(g.memory_mb) >= 80 {
                15nat
            } else if memory_tenths_gb(g.memory_mb) >= 40 {
                10nat
            } else {
                5nat
            }
        } else {
            0
        },
        None => 0,
    }
}

/// Points for total memory, in megabytes.
pub open spec fn ai_memory_points(memory_mb: u64) -> nat {
    if memory_mb >= 32768 {
        25
    } else if memory_mb >= 16384 {
        20
    } else if memory_mb >= 8192 {
        15
    } else {
        5
    }
}

/// The AI/ML suitability score (0 to 100).
pub open spec fn ai_score_spec(s: SystemSummary) -> nat {
    let total = ai_gpu_points(s) + (if s.cpu.ai_capable {
        15nat
    } else {
        0nat
    }) + (if s.cpu.cores >= 8 {
        10nat
    } else if s.cpu.cores >= 4 {
        5nat
    } else {
        0nat
    }) + ai_memory_points(s.memory_mb);
    if total > 100 {
        100
    } else {
        total
    }
}

/// Advice for the system, in this order: memory under 16 GB, no GPU or one with under
/// 4 GB, a hard disk, then the health warnings.
pub open spec fn recommendations_spec(s: SystemSummary) -> Seq<Seq<char>> {
    (if s.memory_mb < 16384 {
        seq!["Consider upgrading to 16GB+ RAM for better performance"@]
    } else {
        Seq::<Seq<char>>::empty()
    }) + (match gpu_tenths(s) {
        None => seq!["Add a dedicated GPU for AI/ML acceleration"@],
        Some(t) => if t < 40 {
            seq!["Consider a GPU with more VRAM for large AI models"@]
        } else {
            Seq::<Seq<char>>::empty()
        },
    }) + (if has_sub(lowercase(s.drive_type@), "hdd"@) {
        seq!["Upgrade to SSD for faster data access"@]
    } else {
        Seq::<Seq<char>>::empty()
    }) + string_views(s.health.warnings@)
}

/// Appends copies of `items` to `out`.
pub fn extend_strings(out: &mut Vec<String>, items: &[String])
    ensures
        string_views(final(out)@) == string_views(old(out)@) + string_views(items@),
{
    let ghost start = string_views(out@);
    let n = items.len();
    let mut i: usize = 0;
    while i < n
        invariant
            i <= n,
            n == items@.len(),
            string_views(out@) == start + string_views(items@).take(i as int),
        decreases n - i,
    {
        let ghost before = string_views(out@);
        out.push(items[i].clone());
        proof {
            assert(string_views(out@) =~= before.push(items@[i as int]@));
            assert(string_views(items@).take(i + 1) =~= string_views(items@).take(i as int).push(
                items@[i as int]@,
            ));
        }
        i += 1;
    }
    proof {
        assert(string_views(items@).take(n as int) =~= string_views(items@));
    }
}

/// Whether the lower-case form of `s` contains `pat`.
pub fn lower_contains(s: &str, pat: &str) -> (r: bool)
    ensures
        r == has_sub(lowercase(s@), pat@),
{
    let lower = to_lowercase(s);
    let lv = crate::text::chars_of(lower.as_str());
    contains_lit(lv.as_slice(), pat)
}

impl SystemSummary {
    /// The primary GPU's memory in tenths of a gigabyte, when there is a GPU.
    pub fn gpu_memory_tenths(&self) -> (r: Option<u64>)
        ensures
            match gpu_tenths(*self) {
                Some(t) => r == Some(t as u64),
                None => r is None,
            },
    {
        match &self.gpu {
            Some(g) => Some(memory_gb_tenths(g.memory_mb)),
            None => None,
        }
    }

    /// AI/ML suitability score (0 to 100).
    pub fn ai_score(&self) -> (r: u8)
        ensures
            r == ai_score_spec(*self),
            r <= 100,
    {
        let mut score: u8 = 0;
        match &self.gpu {
            Some(g) => {
                if g.ai_capable {
                    let tenths = memory_gb_tenths(g.memory_mb);
                    score = 30;
                    if tenths >= 80 {
                        score = score + 15;
                    } else if tenths >= 40 {
                        score = score + 10;
                    } else {
                        score = score + 5;
                    }
                }
            },
            None => {},
        }
        if self.cpu.ai_capable {
            score = score + 15;
        }
        if self.cpu.cores >= 8 {
            score = score + 10;
        } else if self.cpu.cores >= 4 {
            score = score + 5;
        }
        if self.memory_mb >= 32768 {
            score = score + 25;
        } else if self.memory_mb >= 16384 {
            score = score + 20;
        } else if self.memory_mb >= 8192 {
            score = score + 15;
        } else {
            score = score + 5;
        }
        if score > 100 {
            100
        } else {
            score
        }
    }

    /// Whether the system suits AI/ML work: an AI-capable CPU or GPU, or at least 8 GB
    /// of memory.
    pub fn is_ai_ready(&self) -> (r: bool)
        ensures
            r == (self.cpu.ai_capable || gpu_ai(*self) || self.memory_mb >= 8192),
    {
        let gpu_ai = match &self.gpu {
            Some(g) => g.ai_capable,
            None => false,
        };
        self.cpu.ai_capable || gpu_ai || self.memory_mb >= 8192
    }

    /// Simple recommendations for improving system performance.
    pub fn get_recommendations(&self) -> (r: Vec<String>)
        ensures
            string_views(r@) == recommendations_spec(*self),
    {
        let mut out: Vec<String> = Vec::new();
        if self.memory_mb < 16384 {
            out.push(owned("Consider upgrading to 16GB+ RAM for better performance"));
        }
        match self.gpu_memory_tenths() {
            None => out.push(owned("Add a dedicated GPU for AI/ML acceleration")),
            Some(t) => {
                if t < 40 {
                    out.push(owned("Consider a GPU with more VRAM for large AI models"));
                }
            },
        }
        if lower_contains(self.drive_type.as_str(), "hdd") {
            out.push(owned("Upgrade to SSD for faster data access"));
        }
        extend_strings(&mut out, self.health.warnings.as_slice());
        proof {
            assert(string_views(out@) =~= recommendations_spec(*self));
        }
        out
    }
}

/// Whether a CPU with these features accelerates AI work: AVX2, AVX-512 or AMX, or an
/// NPU beside it.
pub fn cpu_ai_capable(features: &[CPUFeature], npu_count: usize) -> (r: bool)
    ensures
        r == (has_feature_named(features@, "avx2"@) || has_feature_named(features@, "avx512"@)
            || has_feature_named(features@, "amx"@) || npu_count > 0),
{
    has_feature(features, "avx2") || has_feature(features, "avx512") || has_feature(
        features,
        "amx",
    ) || npu_count > 0
}

/// A GPU accelerates AI work when its vendor is NVIDIA, AMD with an RX or Radeon name,
/// or Intel with an Arc name (names compared in lower case).
pub open spec fn gpu_ai_capable_spec(vendor: Seq<char>, name: Seq<char>) -> bool {
    ||| has_sub(vendor, "nvidia"@)
    ||| has_sub(vendor, "amd"@) && (has_sub(name, "rx"@) || has_sub(name, "radeon"@))
    ||| has_sub(vendor, "intel"@) && has_sub(name, "arc"@)
}

/// Whether a GPU of this vendor and model accelerates AI work.
pub fn gpu_ai_capable(vendor: &GPUVendor, model_name: &str) -> (r: bool)
    ensures
        r == gpu_ai_capable_spec(
            lowercase(gpu_vendor_label(*vendor)),
            lowercase(model_name@),
        ),
{
    let label = vendor.label();
    let v = to_lowercase(label.as_str());
    let n = to_lowercase(model_name);
    let vv = crate::text::chars_of(v.as_str());
    let nv = crate::text::chars_of(n.as_str());
    if contains_lit(vv.as_slice(), "nvidia") {
        return true;
    }
    if contains_lit(vv.as_slice(), "amd") && (contains_lit(nv.as_slice(), "rx") || contains_lit(
        nv.as_slice(),
        "radeon",
    )) {
        return true;
    }
    contains_lit(vv.as_slice(), "intel") && contains_lit(nv.as_slice(), "arc")
}

/// Performance points before any virtualization penalty: for logical cores, memory in
/// megabytes, the primary GPU's memory and the primary drive's type (NVMe, SSD or other
/// by its lower-case name).
pub open spec fn performance_points_spec(
    logical_cores: u32,
    memory_mb: u64,
    gpu_memory_mb: Option<u64>,
    storage: Option<Seq<char>>,
) -> nat {
    (if logical_cores >= 16 {
        30nat
    } else if logical_cores >= 8 {
        25nat
    } else if logical_cores >= 4 {
        20nat
    } else {
        10nat
    }) + (if memory_mb >= 32768 {
        25nat
    } else if memory_mb >= 16384 {
        20nat
    } else if memory_mb >= 8192 {
        15nat
    } else {
        5nat
    }) + (match gpu_memory_mb {
        Some(mb) => if memory_tenths_gb(mb) >= 120 {
            30nat
        } else if memory_tenths_gb(mb) >= 80 {
            25nat
        } else if memory_tenths_gb(mb) >= 40 {
            20nat
        } else {
            10nat
        },
        None => 0nat,
    }) + (match storage {
        Some(t) => if has_sub(t, "nvme"@) {
            15nat
        } else if has_sub(t, "ssd"@) {
            12nat
        } else {
            5nat
        },
        None => 0nat,
    })
}

/// The performance score (0 to 100) before the virtualization penalty.
pub fn performance_points(
    logical_cores: u32,
    memory_mb: u64,
    gpu_memory_mb: Option<u64>,
    storage: Option<&StorageType>,
) -> (r: u8)
    ensures
        r == performance_points_spec(
            logical_cores,
            memory_mb,
            gpu_memory_mb,
            match storage {
                Some(t) => Some(lowercase(storage_type_label(*t))),
                None => None,
            },
        ),
{
    let mut score: u8 = if logical_cores >= 16 {
        30
    } else if logical_cores >= 8 {
        25
    } else if logical_cores >= 4 {
        20
    } else {
        10
    };
    score = score + if memory_mb >= 32768 {
        25
    } else if memory_mb >= 16384 {
        20
    } else if memory_mb >= 8192 {
        15
    } else {
        5
    };
    match gpu_memory_mb {
        Some(mb) => {
            let tenths = memory_gb_tenths(mb);
            score = score + if tenths >= 120 {
                30
            } else if tenths >= 80 {
                25
            } else if tenths >= 40 {
                20
            } else {
                10
            };
        },
        None => {},
    }
    match storage {
        Some(t) => {
            let label = t.label();
            let lower = to_lowercase(label.as_str());
            let lv = crate::text::chars_of(lower.as_str());
            score = score + if contains_lit(lv.as_slice(), "nvme") {
                15
            } else if contains_lit(lv.as_slice(), "ssd") {
                12
            } else {
                5
            };
        },
        None => {},
    }
    score
}

} // verus!
