//! Assessments for common uses of a machine (AI work, gaming, development, serving),
//! drawn from a system summary.
use vstd::prelude::*;
use crate::hwq::gpu::memory_gb_tenths;
use crate::hwq::simple::{
    gpu_ai, gpu_tenths, lower_contains, recommendations_spec, PowerStatus, SystemSummary,
    TemperatureStatus, extend_strings,
};
use crate::protocol::string_views;
use crate::text::{has_sub, lowercase, owned, str_eq};

verus! {

/// How well a tool or framework suits the system.
#[derive(Debug, Clone, PartialEq, Eq, Structural)]
pub enum CompatibilityLevel {
    Excellent,
    Good,
    Fair,
    Poor,
    Incompatible,
}

/// Expected performance level.
#[derive(Debug, Clone, PartialEq, Eq, Structural)]
pub enum PerformanceLevel {
    Excellent,
    Good,
    Fair,
    Poor,
    Inadequate,
}

/// Quality or stability grade.
#[derive(Debug, Clone, PartialEq, Eq, Structural)]
pub enum QualityLevel {
    Ultra,
    High,
    Medium,
    Low,
    Minimum,
}

/// An AI framework and how well the system suits it.
#[derive(Debug)]
pub struct AIFramework {
    pub name: String,
    pub compatibility: CompatibilityLevel,
    pub performance_estimate: PerformanceLevel,
    pub requirements_met: bool,
    pub notes: String,
}

/// Expected AI performance by kind of work.
#[derive(Debug)]
pub struct AIPerformanceEstimate {
    pub training_capability: PerformanceLevel,
    pub inference_capability: PerformanceLevel,
    pub batch_processing: PerformanceLevel,
    pub real_time_processing: PerformanceLevel,
}

/// Recommended game settings.
#[derive(Debug)]
pub struct GameSettings {
    pub resolution: String,
    pub quality_preset: QualityLevel,
    pub raytracing_support: bool,
    pub target_fps: u32,
    pub vram_usage_percent: u8,
}

/// A development environment and how well the system suits it.
#[derive(Debug)]
pub struct DevEnvironment {
    pub name: String,
    pub suitability: CompatibilityLevel,
    pub container_support: bool,
    pub vm_support: bool,
    pub recommended_config: String,
}

/// What the system offers for virtual machines and containers.
#[derive(Debug)]
pub struct VirtualizationSupport {
    pub hardware_acceleration: bool,
    pub nested_virtualization: bool,
    pub max_recommended_vms: u32,
    pub docker_performance: PerformanceLevel,
}

/// How well the system suits a kind of server workload.
#[derive(Debug)]
pub struct WorkloadSuitability {
    pub workload_type: String,
    pub suitability_score: u8,
    pub max_concurrent_users: Option<u32>,
    pub notes: String,
}

/// An AI model and whether the system can run it: the memory it needs, in megabytes
/// (its gigabytes times 1024).
#[derive(Debug)]
pub struct ModelRecommendation {
    pub name: String,
    pub parameter_count: String,
    pub memory_required_mb: u64,
    pub feasible: bool,
    pub performance_estimate: PerformanceLevel,
}

/// AI models by size and whether the system can run each.
#[derive(Debug)]
pub struct ModelRecommendations {
    pub small_models: Vec<ModelRecommendation>,
    pub medium_models: Vec<ModelRecommendation>,
    pub large_models: Vec<ModelRecommendation>,
}

/// `m` is the recommendation with these name, parameter count, memory, feasibility and
/// performance.
pub open spec fn recommendation_is(
    m: ModelRecommendation,
    name: Seq<char>,
    params: Seq<char>,
    memory_mb: u64,
    feasible: bool,
    perf: PerformanceLevel,
) -> bool {
    &&& m.name@ == name
    &&& m.parameter_count@ == params
    &&& m.memory_required_mb == memory_mb
    &&& m.feasible == feasible
    &&& m.performance_estimate == perf
}

/// Hardware assessments for common use cases.
pub struct HardwarePresets;

/// The system's GPU memory in tenths of a gigabyte, 0 without a GPU.
pub open spec fn vram_tenths(s: SystemSummary) -> nat {
    match gpu_tenths(s) {
        Some(t) => t,
        None => 0,
    }
}

/// Frames per second before the resolution and quality factors, by GPU memory.
pub open spec fn base_fps(s: SystemSummary) -> nat {
    match gpu_tenths(s) {
        Some(t) => if t >= 80 {
            120
        } else if t >= 40 {
            80
        } else {
            30
        },
        None => 15,
    }
}

/// The resolution factor in tenths: 1.0 for 1080p and for any resolution not listed,
/// 0.7 for 1440p, 0.4 for 4K.
pub open spec fn resolution_tenths(r: Seq<char>) -> nat {
    if r == "1440p"@ {
        7
    } else if r == "4K"@ {
        4
    } else {
        10
    }
}

/// The quality factor in tenths: 1.2 for Low, 1.0 for Medium and any preset not
/// listed, 0.8 for High, 0.6 for Ultra.
pub open spec fn quality_tenths(q: Seq<char>) -> nat {
    if q == "Low"@ {
        12
    } else if q == "High"@ {
        8
    } else if q == "Ultra"@ {
        6
    } else {
        10
    }
}

/// The estimated frame rate: the base rate times both factors, rounded down, and at
/// least 15.
pub open spec fn fps_estimate_spec(s: SystemSummary, resolution: Seq<char>, quality: Seq<char>) -> nat {
    let fps = base_fps(s) * resolution_tenths(resolution) * quality_tenths(quality) / 100;
    if fps < 15 {
        15
    } else {
        fps
    }
}

/// At 1080p and Medium quality the frame-rate estimate goes by the GPU's memory, in
/// tenths of a gigabyte: 120 frames per second from 8 GB up, 80 from 4 GB up to 8 GB, 30
/// below 4 GB, and 15 without a GPU.
pub proof fn law_fps_by_vram_band(s: SystemSummary)
    ensures
        fps_estimate_spec(s, "1080p"@, "Medium"@) == (match gpu_tenths(s) {
            Some(t) => if t >= 80 {
                120nat
            } else if t >= 40 {
                80nat
            } else {
                30nat
            },
            None => 15nat,
        }),
{
    reveal_strlit("1080p");
    reveal_strlit("1440p");
    reveal_strlit("4K");
    reveal_strlit("Medium");
    reveal_strlit("Low");
    reveal_strlit("High");
    reveal_strlit("Ultra");
    assert("1080p"@.len() == 5 && "1440p"@.len() == 5 && "4K"@.len() == 2);
    assert("1080p"@[1] != "1440p"@[1]);
    assert("Medium"@.len() == 6 && "Low"@.len() == 3 && "High"@.len() == 4 && "Ultra"@.len() == 5);
    assert(resolution_tenths("1080p"@) == 10);
    assert(quality_tenths("Medium"@) == 10);
}

/// For any resolution and quality, more GPU memory never lowers the frame-rate estimate,
/// and a system without a GPU is estimated no higher than one with a GPU.
pub proof fn law_fps_monotone_in_vram(
    s1: SystemSummary,
    s2: SystemSummary,
    resolution: Seq<char>,
    quality: Seq<char>,
)
    requires
        s2.gpu is Some,
        s1.gpu is Some ==> vram_tenths(s1) <= vram_tenths(s2),
    ensures
        fps_estimate_spec(s1, resolution, quality) <= fps_estimate_spec(s2, resolution, quality),
{
    let b1 = base_fps(s1);
    let b2 = base_fps(s2);
    assert(b1 <= b2);
    let r = resolution_tenths(resolution);
    let q = quality_tenths(quality);
    assert(b1 * r * q / 100 <= b2 * r * q / 100) by (nonlinear_arith)
        requires
            b1 <= b2,
    ;
}

/// The frame-rate estimate is never below 15, a higher resolution never raises it
/// (4K <= 1440p <= 1080p) and a higher quality preset never raises it
/// (Ultra <= High <= Medium <= Low).
pub proof fn law_fps_falls_with_resolution_and_quality(
    s: SystemSummary,
    resolution: Seq<char>,
    quality: Seq<char>,
)
    ensures
        fps_estimate_spec(s, resolution, quality) >= 15,
        fps_estimate_spec(s, "4K"@, quality) <= fps_estimate_spec(s, "1440p"@, quality),
        fps_estimate_spec(s, "1440p"@, quality) <= fps_estimate_spec(s, "1080p"@, quality),
        fps_estimate_spec(s, resolution, "Ultra"@) <= fps_estimate_spec(s, resolution, "High"@),
        fps_estimate_spec(s, resolution, "High"@) <= fps_estimate_spec(s, resolution, "Medium"@),
        fps_estimate_spec(s, resolution, "Medium"@) <= fps_estimate_spec(s, resolution, "Low"@),
{
    reveal_strlit("1080p");
    reveal_strlit("1440p");
    reveal_strlit("4K");
    reveal_strlit("Medium");
    reveal_strlit("Low");
    reveal_strlit("High");
    reveal_strlit("Ultra");
    assert("1080p"@.len() == 5 && "1440p"@.len() == 5 && "4K"@.len() == 2);
    assert("1080p"@[1] != "1440p"@[1]);
    assert("Medium"@.len() == 6 && "Low"@.len() == 3 && "High"@.len() == 4 && "Ultra"@.len() == 5);
    let b = base_fps(s);
    let q = quality_tenths(quality);
    let r = resolution_tenths(resolution);
    assert(resolution_tenths("4K"@) == 4 && resolution_tenths("1440p"@) == 7 && resolution_tenths(
        "1080p"@,
    ) == 10);
    assert(quality_tenths("Ultra"@) == 6 && quality_tenths("High"@) == 8 && quality_tenths(
        "Medium"@,
    ) == 10 && quality_tenths("Low"@) == 12);
    assert(b * 4 * q / 100 <= b * 7 * q / 100 && b * 7 * q / 100 <= b * 10 * q / 100)
        by (nonlinear_arith);
    assert(b * r * 6 / 100 <= b * r * 8 / 100 && b * r * 8 / 100 <= b * r * 10 / 100 && b * r * 10
        / 100 <= b * r * 12 / 100) by (nonlinear_arith);
}

/// One framework entry, as a predicate over its fields.
pub open spec fn framework_is(
    f: AIFramework,
    name: Seq<char>,
    compatibility: CompatibilityLevel,
    performance: PerformanceLevel,
    met: bool,
    notes: Seq<char>,
) -> bool {
    &&& f.name@ == name
    &&& f.compatibility == compatibility
    &&& f.performance_estimate == performance
    &&& f.requirements_met == met
    &&& f.notes@ == notes
}

/// One development environment entry, as a predicate over its fields.
pub open spec fn environment_is(
    e: DevEnvironment,
    name: Seq<char>,
    suitability: CompatibilityLevel,
    containers: bool,
    vms: bool,
    config: Seq<char>,
) -> bool {
    &&& e.name@ == name
    &&& e.suitability == suitability
    &&& e.container_support == containers
    &&& e.vm_support == vms
    &&& e.recommended_config@ == config
}

/// One workload entry, as a predicate over its fields.
pub open spec fn workload_is(
    w: WorkloadSuitability,
    kind: Seq<char>,
    score: u8,
    users: Option<u32>,
    notes: Seq<char>,
) -> bool {
    &&& w.workload_type@ == kind
    &&& w.suitability_score == score
    &&& w.max_concurrent_users == users
    &&& w.notes@ == notes
}

/// Points for the primary drive by its lower-case type name: NVMe, else SSD, else other.
pub open spec fn drive_points(s: SystemSummary, nvme: nat, ssd: nat, other: nat) -> nat {
    if has_sub(lowercase(s.drive_type@), "nvme"@) {
        nvme
    } else if has_sub(lowercase(s.drive_type@), "ssd"@) {
        ssd
    } else {
        other
    }
}

pub open spec fn gaming_score_spec(s: SystemSummary) -> nat {
    let total = (match gpu_tenths(s) {
        Some(t) => if t >= 120 {
            60nat
        } else if t >= 80 {
            50nat
        } else if t >= 60 {
            40nat
        } else if t >= 40 {
            30nat
        } else {
            15nat
        },
        None => 0nat,
    }) + (if s.cpu.cores >= 8 {
        25nat
    } else if s.cpu.cores >= 6 {
        20nat
    } else if s.cpu.cores >= 4 {
        15nat
    } else {
        5nat
    }) + (if s.memory_mb >= 32768 {
        15nat
    } else if s.memory_mb >= 16384 {
        12nat
    } else if s.memory_mb >= 8192 {
        8nat
    } else {
        3nat
    });
    if total > 100 {
        100
    } else {
        total
    }
}

pub open spec fn dev_score_spec(s: SystemSummary) -> nat {
    let total = (if s.cpu.cores >= 16 {
        40nat
    } else if s.cpu.cores >= 8 {
        35nat
    } else if s.cpu.cores >= 6 {
        25nat
    } else {
        15nat
    }) + (if s.memory_mb >= 32768 {
        35nat
    } else if s.memory_mb >= 16384 {
        25nat
    } else if s.memory_mb >= 8192 {
        15nat
    } else {
        5nat
    }) + drive_points(s, 25, 20, 10);
    if total > 100 {
        100
    } else {
        total
    }
}

pub open spec fn server_score_spec(s: SystemSummary) -> nat {
    let total = (if s.cpu.cores >= 32 {
        40nat
    } else if s.cpu.cores >= 16 {
        35nat
    } else if s.cpu.cores >= 8 {
        25nat
    } else {
        10nat
    }) + (if s.memory_mb >= 65536 {
        35nat
    } else if s.memory_mb >= 32768 {
        25nat
    } else if s.memory_mb >= 16384 {
        15nat
    } else {
        5nat
    }) + drive_points(s, 25, 20, 10);
    if total > 100 {
        100
    } else {
        total
    }
}

/// Thermal stability grade for a temperature level.
pub open spec fn thermal_stability_spec(t: TemperatureStatus) -> QualityLevel {
    match t {
        TemperatureStatus::Normal => QualityLevel::High,
        TemperatureStatus::Warm => QualityLevel::Medium,
        TemperatureStatus::Hot => QualityLevel::Low,
        TemperatureStatus::Critical => QualityLevel::Minimum,
    }
}

/// Power stability grade for a power level.
pub open spec fn power_stability_spec(p: PowerStatus) -> QualityLevel {
    match p {
        PowerStatus::Low | PowerStatus::Normal => QualityLevel::High,
        PowerStatus::High => QualityLevel::Medium,
        PowerStatus::VeryHigh => QualityLevel::Low,
    }
}

impl HardwarePresets {
    /// Quick gaming frame-rate estimate for a resolution ("1080p", "1440p", "4K") and a
    /// quality preset ("Low", "Medium", "High", "Ultra").
    pub fn gaming_fps_estimate(s: &SystemSummary, resolution: &str, quality: &str) -> (r: u32)
        ensures
            r == fps_estimate_spec(*s, resolution@, quality@),
    {
        let base: u32 = match s.gpu_memory_tenths() {
            Some(t) => if t >= 80 {
                120
            } else if t >= 40 {
                80
            } else {
                30
            },
            None => 15,
        };
        let res: u32 = if str_eq(resolution, "1440p") {
            7
        } else if str_eq(resolution, "4K") {
            4
        } else {
            10
        };
        let q: u32 = if str_eq(quality, "Low") {
            12
        } else if str_eq(quality, "High") {
            8
        } else if str_eq(quality, "Ultra") {
            6
        } else {
            10
        };
        proof {
            reveal_strlit("1440p");
            reveal_strlit("4K");
            reveal_strlit("Low");
            reveal_strlit("High");
            reveal_strlit("Ultra");
            assert(base * res * q <= 120 * 10 * 12) by (nonlinear_arith)
                requires
                    base <= 120,
                    res <= 10,
                    q <= 12,
            ;
        }
        let fps = base * res * q / 100;
        if fps < 15 {
            15
        } else {
            fps
        }
    }

    /// How well PyTorch, TensorFlow and ONNX Runtime suit the system.
    pub fn assess_ai_frameworks(s: &SystemSummary) -> (r: Vec<AIFramework>)
        ensures
            r@.len() == 3,
            framework_is(
                r@[0],
                "PyTorch"@,
                if s.gpu is Some {
                    CompatibilityLevel::Excellent
                } else {
                    CompatibilityLevel::Good
                },
                if gpu_ai(*s) {
                    PerformanceLevel::Excellent
                } else {
                    PerformanceLevel::Fair
                },
                s.memory_mb >= 4096,
                "Popular deep learning framework with excellent GPU support"@,
            ),
            framework_is(
                r@[1],
                "TensorFlow"@,
                if s.gpu is Some {
                    CompatibilityLevel::Excellent
                } else {
                    CompatibilityLevel::Good
                },
                if gpu_ai(*s) {
                    PerformanceLevel::Excellent
                } else {
                    PerformanceLevel::Fair
                },
                s.memory_mb >= 4096,
                "Google's ML framework with strong production support"@,
            ),
            framework_is(
                r@[2],
                "ONNX Runtime"@,
                CompatibilityLevel::Excellent,
                PerformanceLevel::Good,
                true,
                "Cross-platform inference with broad hardware support"@,
            ),
    {
        let has_gpu = s.gpu.is_some();
        let gpu_ai = match &s.gpu {
            Some(g) => g.ai_capable,
            None => false,
        };
        let mut out: Vec<AIFramework> = Vec::new();
        out.push(
            AIFramework {
                name: owned("PyTorch"),
                compatibility: if has_gpu {
                    CompatibilityLevel::Excellent
                } else {
                    CompatibilityLevel::Good
                },
                performance_estimate: if gpu_ai {
                    PerformanceLevel::Excellent
                } else {
                    PerformanceLevel::Fair
                },
                requirements_met: s.memory_mb >= 4096,
                notes: owned("Popular deep learning framework with excellent GPU support"),
            },
        );
        out.push(
            AIFramework {
                name: owned("TensorFlow"),
                compatibility: if has_gpu {
                    CompatibilityLevel::Excellent
                } else {
                    CompatibilityLevel::Good
                },
                performance_estimate: if gpu_ai {
                    PerformanceLevel::Excellent
                } else {
                    PerformanceLevel::Fair
                },
                requirements_met: s.memory_mb >= 4096,
                notes: owned("Google's ML framework with strong production support"),
            },
        );
        out.push(
            AIFramework {
                name: owned("ONNX Runtime"),
                compatibility: CompatibilityLevel::Excellent,
                performance_estimate: PerformanceLevel::Good,
                requirements_met: true,
                notes: owned("Cross-platform inference with broad hardware support"),
            },
        );
        out
    }

    /// Expected training, inference, batch and real-time performance.
    pub fn estimate_ai_performance(s: &SystemSummary) -> (r: AIPerformanceEstimate)
        ensures
            r.training_capability == (if gpu_ai(*s) && s.memory_mb >= 16384 {
                PerformanceLevel::Good
            } else if s.gpu is Some {
                PerformanceLevel::Fair
            } else {
                PerformanceLevel::Poor
            }),
            r.inference_capability == (if gpu_ai(*s) {
                PerformanceLevel::Excellent
            } else if s.gpu is Some {
                PerformanceLevel::Good
            } else {
                PerformanceLevel::Fair
            }),
            r.batch_processing == (if gpu_ai(*s) && s.memory_mb >= 16384 {
                PerformanceLevel::Excellent
            } else {
                PerformanceLevel::Fair
            }),
            r.real_time_processing == (if gpu_ai(*s) {
                PerformanceLevel::Good
            } else {
                PerformanceLevel::Fair
            }),
    {
        let has_gpu = s.gpu.is_some();
        let gpu_ai = match &s.gpu {
            Some(g) => g.ai_capable,
            None => false,
        };
        let sufficient_memory = s.memory_mb >= 16384;
        AIPerformanceEstimate {
            training_capability: if gpu_ai && sufficient_memory {
                PerformanceLevel::Good
            } else if has_gpu {
                PerformanceLevel::Fair
            } else {
                PerformanceLevel::Poor
            },
            inference_capability: if gpu_ai {
                PerformanceLevel::Excellent
            } else if has_gpu {
                PerformanceLevel::Good
            } else {
                PerformanceLevel::Fair
            },
            batch_processing: if gpu_ai && sufficient_memory {
                PerformanceLevel::Excellent
            } else {
                PerformanceLevel::Fair
            },
            real_time_processing: if gpu_ai {
                PerformanceLevel::Good
            } else {
                PerformanceLevel::Fair
            },
        }
    }

    /// Advice for AI work: a GPU, more memory, more GPU memory, then the general advice.
    pub fn get_ai_optimizations(s: &SystemSummary) -> (r: Vec<String>)
        ensures
            string_views(r@) == (if s.gpu is None {
                seq!["Consider adding a dedicated GPU for AI acceleration"@]
            } else {
                Seq::<Seq<char>>::empty()
            }) + (if s.memory_mb < 16384 {
                seq!["Increase system RAM to 16GB+ for better model performance"@]
            } else {
                Seq::<Seq<char>>::empty()
            }) + (if gpu_tenths(*s) matches Some(t) && t < 80 {
                seq!["Consider GPU with more VRAM for larger models"@]
            } else {
                Seq::<Seq<char>>::empty()
            }) + recommendations_spec(*s),
    {
        let mut out: Vec<String> = Vec::new();
        if s.gpu.is_none() {
            out.push(owned("Consider adding a dedicated GPU for AI acceleration"));
        }
        if s.memory_mb < 16384 {
            out.push(owned("Increase system RAM to 16GB+ for better model performance"));
        }
        match s.gpu_memory_tenths() {
            Some(t) => {
                if t < 80 {
                    out.push(owned("Consider GPU with more VRAM for larger models"));
                }
            },
            None => {},
        }
        let general = s.get_recommendations();
        extend_strings(&mut out, general.as_slice());
        proof {
            assert(string_views(out@) =~= (if s.gpu is None {
                seq!["Consider adding a dedicated GPU for AI acceleration"@]
            } else {
                Seq::<Seq<char>>::empty()
            }) + (if s.memory_mb < 16384 {
                seq!["Increase system RAM to 16GB+ for better model performance"@]
            } else {
                Seq::<Seq<char>>::empty()
            }) + (if gpu_tenths(*s) matches Some(t) && t < 80 {
                seq!["Consider GPU with more VRAM for larger models"@]
            } else {
                Seq::<Seq<char>>::empty()
            }) + recommendations_spec(*s));
        }
        out
    }

    /// Gaming score (0 to 100): GPU memory, CPU cores and memory.
    pub fn calculate_gaming_score(s: &SystemSummary) -> (r: u8)
        ensures
            r == gaming_score_spec(*s),
            r <= 100,
    {
        let mut score: u8 = match s.gpu_memory_tenths() {
            Some(t) => if t >= 120 {
                60
            } else if t >= 80 {
                50
            } else if t >= 60 {
                40
            } else if t >= 40 {
                30
            } else {
                15
            },
            None => 0,
        };
        score = score + if s.cpu.cores >= 8 {
            25
        } else if s.cpu.cores >= 6 {
            20
        } else if s.cpu.cores >= 4 {
            15
        } else {
            5
        };
        score = score + if s.memory_mb >= 32768 {
            15
        } else if s.memory_mb >= 16384 {
            12
        } else if s.memory_mb >= 8192 {
            8
        } else {
            3
        };
        if score > 100 {
            100
        } else {
            score
        }
    }

    /// Recommended game settings by GPU memory (none counts as no memory).
    pub fn get_game_settings(s: &SystemSummary) -> (r: GameSettings)
        ensures
            vram_tenths(*s) >= 120 ==> r.resolution@ == "4K"@ && r.quality_preset
                == QualityLevel::Ultra && r.target_fps == 60,
            80 <= vram_tenths(*s) < 120 ==> r.resolution@ == "1440p"@ && r.quality_preset
                == QualityLevel::High && r.target_fps == 75,
            60 <= vram_tenths(*s) < 80 ==> r.resolution@ == "1080p"@ && r.quality_preset
                == QualityLevel::High && r.target_fps == 60,
            40 <= vram_tenths(*s) < 60 ==> r.resolution@ == "1080p"@ && r.quality_preset
                == QualityLevel::Medium && r.target_fps == 60,
            vram_tenths(*s) < 40 ==> r.resolution@ == "1080p"@ && r.quality_preset
                == QualityLevel::Low && r.target_fps == 30,
            r.raytracing_support == (vram_tenths(*s) >= 80),
            r.vram_usage_percent == 85,
    {
        let vram: u64 = match s.gpu_memory_tenths() {
            Some(t) => t,
            None => 0,
        };
        let (resolution, quality, target_fps) = if vram >= 120 {
            (owned("4K"), QualityLevel::Ultra, 60u32)
        } else if vram >= 80 {
            (owned("1440p"), QualityLevel::High, 75u32)
        } else if vram >= 60 {
            (owned("1080p"), QualityLevel::High, 60u32)
        } else if vram >= 40 {
            (owned("1080p"), QualityLevel::Medium, 60u32)
        } else {
            (owned("1080p"), QualityLevel::Low, 30u32)
        };
        GameSettings {
            resolution,
            quality_preset: quality,
            raytracing_support: vram >= 80,
            target_fps,
            vram_usage_percent: 85,
        }
    }

    /// What limits gaming performance on the system.
    pub fn identify_gaming_bottlenecks(s: &SystemSummary) -> (r: Vec<String>)
        ensures
            string_views(r@) == (match gpu_tenths(*s) {
                None => seq!["No dedicated GPU - severely limits gaming performance"@],
                Some(t) => if t < 40 {
                    seq!["Low GPU VRAM limits texture quality and resolution"@]
                } else {
                    Seq::<Seq<char>>::empty()
                },
            }) + (if s.cpu.cores < 4 {
                seq!["Low CPU core count may limit performance in modern games"@]
            } else {
                Seq::<Seq<char>>::empty()
            }) + (if s.memory_mb < 16384 {
                seq!["Low system RAM may cause stuttering in memory-intensive games"@]
            } else {
                Seq::<Seq<char>>::empty()
            }) + (if has_sub(lowercase(s.drive_type@), "hdd"@) {
                seq!["HDD storage may cause slow loading times"@]
            } else {
                Seq::<Seq<char>>::empty()
            }),
    {
        let mut out: Vec<String> = Vec::new();
        match s.gpu_memory_tenths() {
            None => out.push(owned("No dedicated GPU - severely limits gaming performance")),
            Some(t) => {
                if t < 40 {
                    out.push(owned("Low GPU VRAM limits texture quality and resolution"));
                }
            },
        }
        if s.cpu.cores < 4 {
            out.push(owned("Low CPU core count may limit performance in modern games"));
        }
        if s.memory_mb < 16384 {
            out.push(owned("Low system RAM may cause stuttering in memory-intensive games"));
        }
        if lower_contains(s.drive_type.as_str(), "hdd") {
            out.push(owned("HDD storage may cause slow loading times"));
        }
        proof {
            assert(string_views(out@) =~= (match gpu_tenths(*s) {
                None => seq!["No dedicated GPU - severely limits gaming performance"@],
                Some(t) => if t < 40 {
                    seq!["Low GPU VRAM limits texture quality and resolution"@]
                } else {
                    Seq::<Seq<char>>::empty()
                },
            }) + (if s.cpu.cores < 4 {
                seq!["Low CPU core count may limit performance in modern games"@]
            } else {
                Seq::<Seq<char>>::empty()
            }) + (if s.memory_mb < 16384 {
                seq!["Low system RAM may cause stuttering in memory-intensive games"@]
            } else {
                Seq::<Seq<char>>::empty()
            }) + (if has_sub(lowercase(s.drive_type@), "hdd"@) {
                seq!["HDD storage may cause slow loading times"@]
            } else {
                Seq::<Seq<char>>::empty()
            }));
        }
        out
    }

    /// Upgrades that would help gaming.
    pub fn get_gaming_upgrades(s: &SystemSummary) -> (r: Vec<String>)
        ensures
            string_views(r@) == (match gpu_tenths(*s) {
                None => seq!["Add dedicated gaming GPU"@],
                Some(t) => if t < 80 {
                    seq!["Upgrade to GPU with 8GB+ VRAM for modern games"@]
                } else {
                    Seq::<Seq<char>>::empty()
                },
            }) + (if s.memory_mb < 16384 {
                seq!["Upgrade to 16GB+ RAM"@]
            } else {
                Seq::<Seq<char>>::empty()
            }) + (if has_sub(lowercase(s.drive_type@), "hdd"@) {
                seq!["Upgrade to NVMe SSD for faster loading"@]
            } else {
                Seq::<Seq<char>>::empty()
            }),
    {
        let mut out: Vec<String> = Vec::new();
        match s.gpu_memory_tenths() {
            Some(t) => {
                if t < 80 {
                    out.push(owned("Upgrade to GPU with 8GB+ VRAM for modern games"));
                }
            },
            None => out.push(owned("Add dedicated gaming GPU")),
        }
        if s.memory_mb < 16384 {
            out.push(owned("Upgrade to 16GB+ RAM"));
        }
        if lower_contains(s.drive_type.as_str(), "hdd") {
            out.push(owned("Upgrade to NVMe SSD for faster loading"));
        }
        proof {
            assert(string_views(out@) =~= (match gpu_tenths(*s) {
                None => seq!["Add dedicated gaming GPU"@],
                Some(t) => if t < 80 {
                    seq!["Upgrade to GPU with 8GB+ VRAM for modern games"@]
                } else {
                    Seq::<Seq<char>>::empty()
                },
            }) + (if s.memory_mb < 16384 {
                seq!["Upgrade to 16GB+ RAM"@]
            } else {
                Seq::<Seq<char>>::empty()
            }) + (if has_sub(lowercase(s.drive_type@), "hdd"@) {
                seq!["Upgrade to NVMe SSD for faster loading"@]
            } else {
                Seq::<Seq<char>>::empty()
            }));
        }
        out
    }

    /// Development score (0 to 100): CPU cores, memory and the primary drive.
    pub fn calculate_dev_score(s: &SystemSummary) -> (r: u8)
        ensures
            r == dev_score_spec(*s),
            r <= 100,
    {
        let mut score: u8 = if s.cpu.cores >= 16 {
            40
        } else if s.cpu.cores >= 8 {
            35
        } else if s.cpu.cores >= 6 {
            25
        } else {
            15
        };
        score = score + if s.memory_mb >= 32768 {
            35
        } else if s.memory_mb >= 16384 {
            25
        } else if s.memory_mb >= 8192 {
            15
        } else {
            5
        };
        score = score + if lower_contains(s.drive_type.as_str(), "nvme") {
            25
        } else if lower_contains(s.drive_type.as_str(), "ssd") {
            20
        } else {
            10
        };
        if score > 100 {
            100
        } else {
            score
        }
    }

    /// How well VS Code, Docker Desktop and IntelliJ IDEA suit the system.
    pub fn assess_dev_environments(s: &SystemSummary) -> (r: Vec<DevEnvironment>)
        ensures
            r@.len() == 3,
            environment_is(
                r@[0],
                "Visual Studio Code"@,
                CompatibilityLevel::Excellent,
                true,
                false,
                "Lightweight, excellent for most development tasks"@,
            ),
            environment_is(
                r@[1],
                "Docker Desktop"@,
                if s.memory_mb >= 8192 {
                    CompatibilityLevel::Excellent
                } else {
                    CompatibilityLevel::Fair
                },
                true,
                true,
                "Requires 8GB+ RAM for optimal performance"@,
            ),
            environment_is(
                r@[2],
                "IntelliJ IDEA"@,
                if s.memory_mb >= 16384 {
                    CompatibilityLevel::Excellent
                } else {
                    CompatibilityLevel::Good
                },
                true,
                false,
                "Heavy IDE, benefits from 16GB+ RAM"@,
            ),
    {
        let mut out: Vec<DevEnvironment> = Vec::new();
        out.push(
            DevEnvironment {
                name: owned("Visual Studio Code"),
                suitability: CompatibilityLevel::Excellent,
                container_support: true,
                vm_support: false,
                recommended_config: owned("Lightweight, excellent for most development tasks"),
            },
        );
        out.push(
            DevEnvironment {
                name: owned("Docker Desktop"),
                suitability: if s.memory_mb >= 8192 {
                    CompatibilityLevel::Excellent
                } else {
                    CompatibilityLevel::Fair
                },
                container_support: true,
                vm_support: true,
                recommended_config: owned("Requires 8GB+ RAM for optimal performance"),
            },
        );
        out.push(
            DevEnvironment {
                name: owned("IntelliJ IDEA"),
                suitability: if s.memory_mb >= 16384 {
                    CompatibilityLevel::Excellent
                } else {
                    CompatibilityLevel::Good
                },
                container_support: true,
                vm_support: false,
                recommended_config: owned("Heavy IDE, benefits from 16GB+ RAM"),
            },
        );
        out
    }

    /// What the system offers for virtual machines and containers.
    pub fn assess_virtualization(s: &SystemSummary) -> (r: VirtualizationSupport)
        ensures
            r.hardware_acceleration == (s.cpu.cores >= 4),
            r.nested_virtualization == (s.cpu.cores >= 8),
            r.max_recommended_vms == (if s.memory_mb >= 32768 {
                4u32
            } else if s.memory_mb >= 16384 {
                2u32
            } else {
                1u32
            }),
            r.docker_performance == (if s.memory_mb >= 16384 {
                PerformanceLevel::Excellent
            } else {
                PerformanceLevel::Good
            }),
    {
        VirtualizationSupport {
            hardware_acceleration: s.cpu.cores >= 4,
            nested_virtualization: s.cpu.cores >= 8,
            max_recommended_vms: if s.memory_mb >= 32768 {
                4
            } else if s.memory_mb >= 16384 {
                2
            } else {
                1
            },
            docker_performance: if s.memory_mb >= 16384 {
                PerformanceLevel::Excellent
            } else {
                PerformanceLevel::Good
            },
        }
    }

    /// Development tools worth installing.
    pub fn get_dev_tool_recommendations(s: &SystemSummary) -> (r: Vec<String>)
        ensures
            string_views(r@) == seq!["Git for version control"@] + (if s.memory_mb >= 16384 {
                seq!["Docker for containerized development"@]
            } else {
                Seq::<Seq<char>>::empty()
            }) + (if s.cpu.cores >= 8 {
                seq!["Parallel build tools (ninja, etc.)"@]
            } else {
                Seq::<Seq<char>>::empty()
            }) + seq!["Terminal with good performance (Windows Terminal, iTerm2)"@],
    {
        let mut out: Vec<String> = Vec::new();
        out.push(owned("Git for version control"));
        if s.memory_mb >= 16384 {
            out.push(owned("Docker for containerized development"));
        }
        if s.cpu.cores >= 8 {
            out.push(owned("Parallel build tools (ninja, etc.)"));
        }
        out.push(owned("Terminal with good performance (Windows Terminal, iTerm2)"));
        proof {
            assert(string_views(out@) =~= seq!["Git for version control"@] + (if s.memory_mb
                >= 16384 {
                seq!["Docker for containerized development"@]
            } else {
                Seq::<Seq<char>>::empty()
            }) + (if s.cpu.cores >= 8 {
                seq!["Parallel build tools (ninja, etc.)"@]
            } else {
                Seq::<Seq<char>>::empty()
            }) + seq!["Terminal with good performance (Windows Terminal, iTerm2)"@]);
        }
        out
    }

    /// Server score (0 to 100): CPU cores, memory and the primary drive.
    pub fn calculate_server_score(s: &SystemSummary) -> (r: u8)
        ensures
            r == server_score_spec(*s),
            r <= 100,
    {
        let mut score: u8 = if s.cpu.cores >= 32 {
            40
        } else if s.cpu.cores >= 16 {
            35
        } else if s.cpu.cores >= 8 {
            25
        } else {
            10
        };
        score = score + if s.memory_mb >= 65536 {
            35
        } else if s.memory_mb >= 32768 {
            25
        } else if s.memory_mb >= 16384 {
            15
        } else {
            5
        };
        score = score + if lower_contains(s.drive_type.as_str(), "nvme") {
            25
        } else if lower_contains(s.drive_type.as_str(), "ssd") {
            20
        } else {
            10
        };
        if score > 100 {
            100
        } else {
            score
        }
    }

    /// How well the system suits web, database and container-orchestration work. The
    /// user estimates are 100 per core and 10 per whole gigabyte of memory, which must
    /// fit in 32 bits.
    pub fn assess_server_workloads(s: &SystemSummary) -> (r: Vec<WorkloadSuitability>)
        requires
            s.cpu.cores * 100 <= u32::MAX,
            s.memory_mb / 1024 * 10 <= u32::MAX,
        ensures
            r@.len() == 3,
            workload_is(
                r@[0],
                "Web Server"@,
                if s.cpu.cores >= 8 {
                    90u8
                } else {
                    70u8
                },
                Some((s.cpu.cores * 100) as u32),
                "Good for serving web applications"@,
            ),
            workload_is(
                r@[1],
                "Database Server"@,
                if s.memory_mb >= 32768 {
                    85u8
                } else {
                    60u8
                },
                Some((s.memory_mb / 1024 * 10) as u32),
                "Memory-intensive workload"@,
            ),
            workload_is(
                r@[2],
                "Container Orchestration"@,
                if s.cpu.cores >= 16 && s.memory_mb >= 32768 {
                    95u8
                } else {
                    70u8
                },
                None,
                "Requires high CPU and memory for container management"@,
            ),
    {
        let whole_gb: u32 = (s.memory_mb / 1024) as u32;
        let mut out: Vec<WorkloadSuitability> = Vec::new();
        out.push(
            WorkloadSuitability {
                workload_type: owned("Web Server"),
                suitability_score: if s.cpu.cores >= 8 {
                    90
                } else {
                    70
                },
                max_concurrent_users: Some(s.cpu.cores * 100),
                notes: owned("Good for serving web applications"),
            },
        );
        out.push(
            WorkloadSuitability {
                workload_type: owned("Database Server"),
                suitability_score: if s.memory_mb >= 32768 {
                    85
                } else {
                    60
                },
                max_concurrent_users: Some(whole_gb * 10),
                notes: owned("Memory-intensive workload"),
            },
        );
        out.push(
            WorkloadSuitability {
                workload_type: owned("Container Orchestration"),
                suitability_score: if s.cpu.cores >= 16 && s.memory_mb >= 32768 {
                    95
                } else {
                    70
                },
                max_concurrent_users: None,
                notes: owned("Requires high CPU and memory for container management"),
            },
        );
        out
    }

    fn recommendation(
        name: &str,
        params: &str,
        memory_mb: u64,
        feasible: bool,
        perf: PerformanceLevel,
    ) -> (r: ModelRecommendation)
        ensures
            recommendation_is(r, name@, params@, memory_mb, feasible, perf),
    {
        ModelRecommendation {
            name: owned(name),
            parameter_count: owned(params),
            memory_required_mb: memory_mb,
            feasible,
            performance_estimate: perf,
        }
    }

    /// Which AI models the system can run: small models whenever there is a gigabyte
    /// of GPU memory or two of system memory (the smallest always), a medium one with
    /// 8 GB of GPU memory, a large one with 80 GB.
    pub fn get_model_recommendations(s: &SystemSummary) -> (r: ModelRecommendations)
        ensures
            r.small_models@.len() == 2,
            recommendation_is(
                r.small_models@[0],
                "BERT-base"@,
                "110M"@,
                1024,
                vram_tenths(*s) >= 10 || s.memory_mb >= 2048,
                PerformanceLevel::Excellent,
            ),
            recommendation_is(
                r.small_models@[1],
                "DistilBERT"@,
                "66M"@,
                512,
                true,
                PerformanceLevel::Excellent,
            ),
            r.medium_models@.len() == 1,
            recommendation_is(
                r.medium_models@[0],
                "GPT-3.5"@,
                "175B"@,
                8192,
                vram_tenths(*s) >= 80,
                if vram_tenths(*s) >= 80 {
                    PerformanceLevel::Good
                } else {
                    PerformanceLevel::Poor
                },
            ),
            r.large_models@.len() == 1,
            recommendation_is(
                r.large_models@[0],
                "GPT-4"@,
                "1.7T"@,
                81920,
                vram_tenths(*s) >= 800,
                if vram_tenths(*s) >= 800 {
                    PerformanceLevel::Fair
                } else {
                    PerformanceLevel::Inadequate
                },
            ),
    {
        let vram: u64 = match s.gpu_memory_tenths() {
            Some(t) => t,
            None => 0,
        };
        let small_models = vec![
            Self::recommendation(
                "BERT-base",
                "110M",
                1024,
                vram >= 10 || s.memory_mb >= 2048,
                PerformanceLevel::Excellent,
            ),
            Self::recommendation("DistilBERT", "66M", 512, true, PerformanceLevel::Excellent),
        ];
        let medium_models = vec![
            Self::recommendation(
                "GPT-3.5",
                "175B",
                8192,
                vram >= 80,
                if vram >= 80 {
                    PerformanceLevel::Good
                } else {
                    PerformanceLevel::Poor
                },
            ),
        ];
        let large_models = vec![
            Self::recommendation(
                "GPT-4",
                "1.7T",
                81920,
                vram >= 800,
                if vram >= 800 {
                    PerformanceLevel::Fair
                } else {
                    PerformanceLevel::Inadequate
                },
            ),
        ];
        ModelRecommendations { small_models, medium_models, large_models }
    }

    /// How many virtual machines to plan for: 8 with 64 GB of memory, 4 with 32 GB,
    /// else 2.
    pub fn recommended_vm_count(s: &SystemSummary) -> (r: u32)
        ensures
            r == if s.memory_mb >= 65536 {
                8u32
            } else if s.memory_mb >= 32768 {
                4u32
            } else {
                2u32
            },
    {
        if s.memory_mb >= 65536 {
            8
        } else if s.memory_mb >= 32768 {
            4
        } else {
            2
        }
    }

    /// The CPU cores each recommended virtual machine gets: the cores shared evenly,
    /// rounded down.
    pub fn cpu_cores_per_vm(s: &SystemSummary) -> (r: u32)
        ensures
            r == s.cpu.cores / (if s.memory_mb >= 65536 {
                8u32
            } else if s.memory_mb >= 32768 {
                4u32
            } else {
                2u32
            }),
    {
        s.cpu.cores / Self::recommended_vm_count(s)
    }

    /// Thermal stability grade for a temperature level.
    pub fn thermal_stability(t: TemperatureStatus) -> (r: QualityLevel)
        ensures
            r == thermal_stability_spec(t),
    {
        match t {
            TemperatureStatus::Normal => QualityLevel::High,
            TemperatureStatus::Warm => QualityLevel::Medium,
            TemperatureStatus::Hot => QualityLevel::Low,
            TemperatureStatus::Critical => QualityLevel::Minimum,
        }
    }

    /// Power stability grade for a power level.
    pub fn power_stability(p: PowerStatus) -> (r: QualityLevel)
        ensures
            r == power_stability_spec(p),
    {
        match p {
            PowerStatus::Low | PowerStatus::Normal => QualityLevel::High,
            PowerStatus::High => QualityLevel::Medium,
            PowerStatus::VeryHigh => QualityLevel::Low,
        }
    }
}

} // verus!
