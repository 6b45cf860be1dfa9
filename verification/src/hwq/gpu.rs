//! GPU description and the rules that classify a GPU by its name.
use vstd::prelude::*;
use crate::text::{chars_of, contains_lit, has_sub, lowercase, owned, to_lowercase};

verus! {

/// GPU vendor.
#[derive(Debug, Clone)]
pub enum GPUVendor {
    NVIDIA,
    AMD,
    Intel,
    Apple,
    ARM,
    Qualcomm,
    Unknown(String),
}

pub open spec fn gpu_vendor_label(v: GPUVendor) -> Seq<char> {
    match v {
        GPUVendor::NVIDIA => "NVIDIA"@,
        GPUVendor::AMD => "AMD"@,
        GPUVendor::Intel => "Intel"@,
        GPUVendor::Apple => "Apple"@,
        GPUVendor::ARM => "ARM"@,
        GPUVendor::Qualcomm => "Qualcomm"@,
        GPUVendor::Unknown(name) => name@,
    }
}

impl GPUVendor {
    /// The vendor's display name.
    pub fn label(&self) -> (r: String)
        ensures
            r@ == gpu_vendor_label(*self),
    {
        match self {
            GPUVendor::NVIDIA => owned("NVIDIA"),
            GPUVendor::AMD => owned("AMD"),
            GPUVendor::Intel => owned("Intel"),
            GPUVendor::Apple => owned("Apple"),
            GPUVendor::ARM => owned("ARM"),
            GPUVendor::Qualcomm => owned("Qualcomm"),
            GPUVendor::Unknown(name) => owned(name.as_str()),
        }
    }
}

/// GPU type classification.
#[derive(Debug, Clone, Copy, PartialEq, Eq, Structural)]
pub enum GPUType {
    /// Consumer discrete GPU
    Discrete,
    Integrated,
    /// Workstation GPU (Quadro, Radeon Pro, etc.)
    Workstation,
    /// Datacenter GPU (Tesla, Instinct, etc.)
    Datacenter,
    Virtual,
    Unknown,
}

pub open spec fn gpu_type_label(t: GPUType) -> Seq<char> {
    match t {
        GPUType::Discrete => "Discrete"@,
        GPUType::Integrated => "Integrated"@,
        GPUType::Workstation => "Workstation"@,
        GPUType::Datacenter => "Datacenter"@,
        GPUType::Virtual => "Virtual"@,
        GPUType::Unknown => "Unknown"@,
    }
}

impl GPUType {
    /// The type's display name.
    pub fn label(&self) -> (r: String)
        ensures
            r@ == gpu_type_label(*self),
    {
        match self {
            GPUType::Discrete => owned("Discrete"),
            GPUType::Integrated => owned("Integrated"),
            GPUType::Workstation => owned("Workstation"),
            GPUType::Datacenter => owned("Datacenter"),
            GPUType::Virtual => owned("Virtual"),
            GPUType::Unknown => owned("Unknown"),
        }
    }
}

/// GPU compute capabilities.
#[derive(Debug, Clone)]
pub struct ComputeCapabilities {
    /// CUDA support and compute capability
    pub cuda: Option<String>,
    pub rocm: bool,
    pub directml: bool,
    pub opencl: bool,
    pub vulkan: bool,
    pub metal: bool,
    pub compute_units: Option<u32>,
    pub max_workgroup_size: Option<u32>,
}

pub open spec fn datacenter_name(name: Seq<char>, vendor: GPUVendor) -> bool {
    match vendor {
        GPUVendor::NVIDIA => {
            ||| has_sub(name, "tesla"@)
            ||| has_sub(name, "a100"@)
            ||| has_sub(name, "h100"@)
            ||| has_sub(name, "h200"@)
            ||| has_sub(name, "v100"@)
            ||| has_sub(name, "p100"@)
            ||| has_sub(name, "k80"@)
            ||| has_sub(name, "k40"@)
            ||| has_sub(name, "l40"@)
            ||| has_sub(name, "l4"@)
            ||| has_sub(name, "data center"@)
            ||| has_sub(name, "datacenter"@)
            ||| has_sub(name, "dgx"@)
            ||| has_sub(name, "hgx"@)
        },
        GPUVendor::AMD => {
            ||| has_sub(name, "instinct"@)
            ||| has_sub(name, "mi50"@)
            ||| has_sub(name, "mi100"@)
            ||| has_sub(name, "mi200"@)
            ||| has_sub(name, "mi250"@)
            ||| has_sub(name, "mi300"@)
            ||| has_sub(name, "cdna"@)
            ||| has_sub(name, "datacenter"@)
            ||| has_sub(name, "server"@)
        },
        GPUVendor::Intel => {
            ||| has_sub(name, "ponte vecchio"@)
            ||| has_sub(name, "data center"@)
            ||| has_sub(name, "max"@) && (has_sub(name, "1100"@) || has_sub(name, "1550"@))
        },
        _ => false,
    }
}

pub open spec fn workstation_name(name: Seq<char>, vendor: GPUVendor) -> bool {
    match vendor {
        GPUVendor::NVIDIA => {
            ||| has_sub(name, "quadro"@)
            ||| has_sub(name, "rtx a"@)
            ||| has_sub(name, "rtx 4000"@)
            ||| has_sub(name, "rtx 5000"@)
            ||| has_sub(name, "rtx 6000"@)
            ||| has_sub(name, "rtx 8000"@)
            ||| has_sub(name, "titan"@)
            ||| has_sub(name, "nvs"@)
            ||| has_sub(name, "t1000"@)
            ||| has_sub(name, "t400"@)
            ||| has_sub(name, "t600"@)
            ||| has_sub(name, "professional"@) && !has_sub(name, "geforce"@)
        },
        GPUVendor::AMD => {
            ||| has_sub(name, "radeon pro"@)
            ||| has_sub(name, "firepro"@)
            ||| has_sub(name, "wx "@)
            ||| has_sub(name, "w6"@)
            ||| has_sub(name, "w7"@)
            ||| has_sub(name, "workstation"@)
            ||| has_sub(name, "professional"@)
        },
        GPUVendor::Intel => {
            ||| has_sub(name, "pro"@)
            ||| has_sub(name, "workstation"@)
            ||| has_sub(name, "professional"@)
        },
        _ => false,
    }
}

pub open spec fn integrated_name(name: Seq<char>, vendor: GPUVendor, adapter_ram: u64) -> bool {
    ||| has_sub(name, "integrated"@)
    ||| has_sub(name, "uhd"@)
    ||| has_sub(name, "iris"@)
    ||| has_sub(name, "vega"@) && has_sub(name, "graphics"@)
    ||| has_sub(name, "radeon graphics"@)
    ||| has_sub(name, "apu"@)
    ||| has_sub(name, "mobile"@) && !has_sub(name, "rtx"@)
    ||| has_sub(name, "embedded"@)
    ||| (vendor is AMD && adapter_ram < 2000000000)
}

/// The type of a GPU from its lower-case name: datacenter, else workstation, else
/// integrated, else discrete.
pub open spec fn gpu_type_for(lower: Seq<char>, vendor: GPUVendor, adapter_ram: u64) -> GPUType {
    if datacenter_name(lower, vendor) {
        GPUType::Datacenter
    } else if workstation_name(lower, vendor) {
        GPUType::Workstation
    } else if integrated_name(lower, vendor, adapter_ram) {
        GPUType::Integrated
    } else {
        GPUType::Discrete
    }
}

/// Whether a lower-case GPU name is a datacenter model of its vendor.
pub fn is_datacenter_gpu(name: &str, vendor: &GPUVendor) -> (r: bool)
    ensures
        r == datacenter_name(name@, *vendor),
{
    let v = chars_of(name);
    let s = v.as_slice();
    match vendor {
        GPUVendor::NVIDIA => contains_lit(s, "tesla") || contains_lit(s, "a100") || contains_lit(
            s,
            "h100",
        ) || contains_lit(s, "h200") || contains_lit(s, "v100") || contains_lit(s, "p100")
            || contains_lit(s, "k80") || contains_lit(s, "k40") || contains_lit(s, "l40")
            || contains_lit(s, "l4") || contains_lit(s, "data center") || contains_lit(
            s,
            "datacenter",
        ) || contains_lit(s, "dgx") || contains_lit(s, "hgx"),
        GPUVendor::AMD => contains_lit(s, "instinct") || contains_lit(s, "mi50") || contains_lit(
            s,
            "mi100",
        ) || contains_lit(s, "mi200") || contains_lit(s, "mi250") || contains_lit(s, "mi300")
            || contains_lit(s, "cdna") || contains_lit(s, "datacenter") || contains_lit(
            s,
            "server",
        ),
        GPUVendor::Intel => contains_lit(s, "ponte vecchio") || contains_lit(s, "data center")
            || contains_lit(s, "max") && (contains_lit(s, "1100") || contains_lit(s, "1550")),
        _ => false,
    }
}

/// Whether a lower-case GPU name is a workstation model of its vendor.
pub fn is_workstation_gpu(name: &str, vendor: &GPUVendor) -> (r: bool)
    ensures
        r == workstation_name(name@, *vendor),
{
    let v = chars_of(name);
    let s = v.as_slice();
    match vendor {
        GPUVendor::NVIDIA => contains_lit(s, "quadro") || contains_lit(s, "rtx a")
            || contains_lit(s, "rtx 4000") || contains_lit(s, "rtx 5000") || contains_lit(
            s,
            "rtx 6000",
        ) || contains_lit(s, "rtx 8000") || contains_lit(s, "titan") || contains_lit(s, "nvs")
            || contains_lit(s, "t1000") || contains_lit(s, "t400") || contains_lit(s, "t600") || (
        contains_lit(s, "professional") && !contains_lit(s, "geforce")),
        GPUVendor::AMD => contains_lit(s, "radeon pro") || contains_lit(s, "firepro")
            || contains_lit(s, "wx ") || contains_lit(s, "w6") || contains_lit(s, "w7")
            || contains_lit(s, "workstation") || contains_lit(s, "professional"),
        GPUVendor::Intel => contains_lit(s, "pro") || contains_lit(s, "workstation")
            || contains_lit(s, "professional"),
        _ => false,
    }
}

/// Whether a lower-case GPU name (or, for AMD, less than 2 GB of dedicated memory)
/// marks an integrated GPU.
pub fn is_integrated_gpu(name: &str, vendor: &GPUVendor, adapter_ram: u64) -> (r: bool)
    ensures
        r == integrated_name(name@, *vendor, adapter_ram),
{
    let v = chars_of(name);
    let s = v.as_slice();
    let integrated_keywords = contains_lit(s, "integrated") || contains_lit(s, "uhd")
        || contains_lit(s, "iris") || contains_lit(s, "vega") && contains_lit(s, "graphics")
        || contains_lit(s, "radeon graphics") || contains_lit(s, "apu") || contains_lit(
        s,
        "mobile",
    ) && !contains_lit(s, "rtx") || contains_lit(s, "embedded");
    let low_memory = match vendor {
        GPUVendor::AMD => adapter_ram < 2000000000,
        _ => false,
    };
    integrated_keywords || low_memory
}

/// The type of a GPU from its name, vendor and dedicated memory.
pub fn classify_gpu_type(name: &str, vendor: &GPUVendor, adapter_ram: u64) -> (r: GPUType)
    ensures
        r == gpu_type_for(lowercase(name@), *vendor, adapter_ram),
{
    let l = to_lowercase(name);
    if is_datacenter_gpu(l.as_str(), vendor) {
        return GPUType::Datacenter;
    }
    if is_workstation_gpu(l.as_str(), vendor) {
        return GPUType::Workstation;
    }
    if is_integrated_gpu(l.as_str(), vendor, adapter_ram) {
        return GPUType::Integrated;
    }
    GPUType::Discrete
}

/// The vendor of a GPU reported by name and PnP device id.
pub open spec fn generic_vendor_for(lower_name: Seq<char>, device_id: Seq<char>) -> Option<
    GPUVendor,
> {
    if has_sub(lower_name, "nvidia"@) || has_sub(device_id, "VEN_10DE"@) {
        Some(GPUVendor::NVIDIA)
    } else if has_sub(lower_name, "amd"@) || has_sub(lower_name, "radeon"@) || has_sub(
        device_id,
        "VEN_1002"@,
    ) {
        Some(GPUVendor::AMD)
    } else if has_sub(lower_name, "intel"@) || has_sub(device_id, "VEN_8086"@) {
        Some(GPUVendor::Intel)
    } else {
        None
    }
}

/// The vendor of a GPU from its name and PnP device id; unrecognised ones are
/// "Generic".
pub fn generic_gpu_vendor(name: &str, device_id: &str) -> (r: GPUVendor)
    ensures
        match generic_vendor_for(lowercase(name@), device_id@) {
            Some(v) => r == v,
            None => r matches GPUVendor::Unknown(n) && n@ == "Generic"@,
        },
{
    let l = to_lowercase(name);
    let lv = chars_of(l.as_str());
    let dv = chars_of(device_id);
    let n = lv.as_slice();
    let d = dv.as_slice();
    if contains_lit(n, "nvidia") || contains_lit(d, "VEN_10DE") {
        GPUVendor::NVIDIA
    } else if contains_lit(n, "amd") || contains_lit(n, "radeon") || contains_lit(d, "VEN_1002") {
        GPUVendor::AMD
    } else if contains_lit(n, "intel") || contains_lit(d, "VEN_8086") {
        GPUVendor::Intel
    } else {
        GPUVendor::Unknown(owned("Generic"))
    }
}

/// The memory, in MB, of a GPU that reports `adapter_ram` bytes; when it reports none,
/// an estimate by vendor and type.
pub open spec fn gpu_memory_mb(adapter_ram: u64, vendor: GPUVendor, gpu_type: GPUType) -> u64 {
    if adapter_ram > 0 {
        (adapter_ram / 1048576) as u64
    } else {
        match (vendor, gpu_type) {
            (GPUVendor::NVIDIA, GPUType::Datacenter) => 32768,
            (GPUVendor::NVIDIA, GPUType::Workstation) => 16384,
            (GPUVendor::NVIDIA, GPUType::Discrete) => 8192,
            (GPUVendor::AMD, GPUType::Datacenter) => 32768,
            (GPUVendor::AMD, GPUType::Workstation) => 16384,
            (GPUVendor::AMD, GPUType::Discrete) => 8192,
            (_, GPUType::Integrated) => 512,
            _ => 4096,
        }
    }
}

/// The memory of a GPU in MB, estimated when the GPU does not report it.
pub fn memory_mb_for(adapter_ram: u64, vendor: &GPUVendor, gpu_type: GPUType) -> (r: u64)
    ensures
        r == gpu_memory_mb(adapter_ram, *vendor, gpu_type),
{
    if adapter_ram > 0 {
        adapter_ram / (1024 * 1024)
    } else {
        match (vendor, gpu_type) {
            (GPUVendor::NVIDIA, GPUType::Datacenter) => 32768,
            (GPUVendor::NVIDIA, GPUType::Workstation) => 16384,
            (GPUVendor::NVIDIA, GPUType::Discrete) => 8192,
            (GPUVendor::AMD, GPUType::Datacenter) => 32768,
            (GPUVendor::AMD, GPUType::Workstation) => 16384,
            (GPUVendor::AMD, GPUType::Discrete) => 8192,
            (_, GPUType::Integrated) => 512,
            _ => 4096,
        }
    }
}

/// A GPU's memory in tenths of a gigabyte, rounded to the nearest tenth (half up), as
/// the memory size in gigabytes is reported.
pub open spec fn memory_tenths_gb(mb: u64) -> nat {
    ((mb * 10 + 512) / 1024) as nat
}

/// The memory of a GPU with `mb` megabytes, in tenths of a gigabyte.
pub fn memory_gb_tenths(mb: u64) -> (r: u64)
    ensures
        r == memory_tenths_gb(mb),
{
    let wide: u128 = (mb as u128) * 10 + 512;
    (wide / 1024) as u64
}

/// The compute capabilities assumed for a GPU found by the generic detector: CUDA
/// (version unknown) for NVIDIA, ROCm for discrete AMD, DirectML, OpenCL and Vulkan.
pub fn generic_compute_capabilities(vendor: &GPUVendor, gpu_type: GPUType) -> (r:
    ComputeCapabilities)
    ensures
        (vendor is NVIDIA) ==> (r.cuda matches Some(c) && c@ == "Unknown"@),
        !(vendor is NVIDIA) ==> r.cuda is None,
        r.rocm == (vendor is AMD && gpu_type == GPUType::Discrete),
        r.directml && r.opencl && r.vulkan && !r.metal,
        r.compute_units is None && r.max_workgroup_size is None,
{
    let is_nvidia = match vendor {
        GPUVendor::NVIDIA => true,
        _ => false,
    };
    let is_amd = match vendor {
        GPUVendor::AMD => true,
        _ => false,
    };
    ComputeCapabilities {
        cuda: if is_nvidia {
            Some(owned("Unknown"))
        } else {
            None
        },
        rocm: is_amd && gpu_type == GPUType::Discrete,
        directml: true,
        opencl: true,
        vulkan: true,
        metal: false,
        compute_units: None,
        max_workgroup_size: None,
    }
}

} // verus!
