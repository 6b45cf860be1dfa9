//! Neural processing units: their kinds, and how each is recognised from what the
//! system reports (lsusb, the CPU brand string, device names).
use vstd::prelude::*;
use crate::hwq::lists::{pair_views, string_pairs, strings};
use crate::protocol::string_views;
use crate::text::{
    chars_of, contains_lit, contains_str, has_sub, lines, lines_of, lowercase, owned,
    to_lowercase, views,
};

verus! {

/// NPU vendor.
#[derive(Debug, Clone)]
pub enum NPUVendor {
    Intel,
    Qualcomm,
    Apple,
    AMD,
    Google,
    MediaTek,
    Samsung,
    Hailo,
    Kneron,
    Unknown(String),
}

pub open spec fn npu_vendor_label(v: NPUVendor) -> Seq<char> {
    match v {
        NPUVendor::Intel => "Intel"@,
        NPUVendor::Qualcomm => "Qualcomm"@,
        NPUVendor::Apple => "Apple"@,
        NPUVendor::AMD => "AMD"@,
        NPUVendor::Google => "Google"@,
        NPUVendor::MediaTek => "MediaTek"@,
        NPUVendor::Samsung => "Samsung"@,
        NPUVendor::Hailo => "Hailo"@,
        NPUVendor::Kneron => "Kneron"@,
        NPUVendor::Unknown(s) => s@,
    }
}

impl NPUVendor {
    /// The display name.
    pub fn label(&self) -> (r: String)
        ensures
            r@ == npu_vendor_label(*self),
    {
        match self {
            NPUVendor::Intel => owned("Intel"),
            NPUVendor::Qualcomm => owned("Qualcomm"),
            NPUVendor::Apple => owned("Apple"),
            NPUVendor::AMD => owned("AMD"),
            NPUVendor::Google => owned("Google"),
            NPUVendor::MediaTek => owned("MediaTek"),
            NPUVendor::Samsung => owned("Samsung"),
            NPUVendor::Hailo => owned("Hailo"),
            NPUVendor::Kneron => owned("Kneron"),
            NPUVendor::Unknown(s) => owned(s.as_str()),
        }
    }
}

/// NPU type classification.
#[derive(Debug, Clone, PartialEq, Eq, Structural)]
pub enum NPUType {
    /// Built into the CPU or SoC
    Integrated,
    /// Separate accelerator card
    Discrete,
    /// USB-connected device
    USB,
    /// PCIe card
    PCIe,
    /// M.2 module
    M2,
    Unknown,
}

/// NPU architecture.
#[derive(Debug, Clone)]
pub enum NPUArchitecture {
    IntelMovidius,
    IntelGNA,
    IntelXDNA,
    QualcommHexagon,
    AppleNeuralEngine,
    GoogleTPU,
    AMDRyzenAI,
    MediaTekAPU,
    SamsungNPU,
    HailoNPU,
    KneronKL,
    Unknown(String),
}

/// NPU information. Performance, power and temperature are kept in tenths of their unit,
/// so that 4 TOPS is 40 and half a watt is 5.
#[derive(Debug, Clone)]
pub struct NPUInfo {
    pub vendor: NPUVendor,
    pub model_name: String,
    pub npu_type: NPUType,
    pub architecture: NPUArchitecture,
    /// Memory size in MB (if applicable)
    pub memory_mb: Option<u64>,
    pub driver_version: Option<String>,
    pub firmware_version: Option<String>,
    pub pci_device_id: Option<String>,
    pub usb_device_id: Option<String>,
    pub supported_frameworks: Vec<String>,
    /// Clock frequency in MHz
    pub clock_frequency: Option<u32>,
    /// Additional capabilities, as name and value
    pub capabilities: Vec<(String, String)>,
    /// Performance in tenths of a TOPS (trillions of operations per second)
    pub tops_tenths: Option<u32>,
    /// Power draw in tenths of a watt
    pub power_tenths_watt: Option<u32>,
    /// Temperature in tenths of a degree Celsius
    pub temperature_tenths_celsius: Option<i32>,
}

/// The view of an optional string.
pub open spec fn opt_string(o: Option<String>) -> Option<Seq<char>> {
    match o {
        Some(s) => Some(s@),
        None => None,
    }
}

fn copy_opt(o: &Option<String>) -> (r: Option<String>)
    ensures
        opt_string(r) == opt_string(*o),
{
    match o {
        Some(s) => Some(s.clone()),
        None => None,
    }
}

/// The Movidius stick an lsusb line shows: `Some(true)` for the Neural Compute Stick 2
/// (03e7:2485), `Some(false)` for the first one (03e7:f63b).
pub open spec fn ncs_kind(line: Seq<char>) -> Option<bool> {
    if has_sub(line, "03e7"@) {
        if has_sub(line, "2485"@) {
            Some(true)
        } else if has_sub(line, "f63b"@) {
            Some(false)
        } else {
            None
        }
    } else {
        None
    }
}

/// The sticks shown by the lines `ls`, in order.
pub open spec fn ncs_kinds(ls: Seq<Seq<char>>) -> Seq<bool>
    decreases ls.len(),
{
    if ls.len() == 0 {
        seq![]
    } else {
        match ncs_kind(ls.last()) {
            Some(k) => ncs_kinds(ls.drop_last()).push(k),
            None => ncs_kinds(ls.drop_last()),
        }
    }
}

/// The fields every Intel NPU record built here shares.
pub open spec fn intel_npu(r: NPUInfo, driver: Option<Seq<char>>) -> bool {
    &&& r.vendor is Intel
    &&& r.memory_mb is None
    &&& opt_string(r.driver_version) == driver
    &&& r.firmware_version is None
    &&& r.pci_device_id is None
    &&& r.temperature_tenths_celsius is None
}

/// `r` is the record of a Neural Compute Stick (the second one when `stick2`).
pub open spec fn ncs_record(r: NPUInfo, stick2: bool, driver: Option<Seq<char>>) -> bool {
    &&& intel_npu(r, driver)
    &&& r.npu_type is USB
    &&& r.architecture is IntelMovidius
    &&& r.clock_frequency is None
    &&& r.capabilities@.len() == 0
    &&& r.tops_tenths == (if stick2 { Some(40u32) } else { Some(1u32) })
    &&& r.power_tenths_watt == Some(10u32)
    &&& if stick2 {
        &&& r.model_name@ == "Intel Neural Compute Stick 2"@
        &&& r.usb_device_id matches Some(u) && u@ == "03e7:2485"@
        &&& string_views(r.supported_frameworks@) == seq!["OpenVINO"@, "ONNX Runtime"@]
    } else {
        &&& r.model_name@ == "Intel Neural Compute Stick"@
        &&& r.usb_device_id matches Some(u) && u@ == "03e7:f63b"@
        &&& string_views(r.supported_frameworks@) == seq!["OpenVINO"@]
    }
}

/// `r` is the record of Intel's Gaussian Neural Accelerator.
pub open spec fn gna_record(r: NPUInfo, driver: Option<Seq<char>>) -> bool {
    &&& intel_npu(r, driver)
    &&& r.model_name@ == "Intel Gaussian Neural Accelerator"@
    &&& r.npu_type is Integrated
    &&& r.architecture is IntelGNA
    &&& r.usb_device_id is None
    &&& string_views(r.supported_frameworks@) == seq!["OpenVINO"@, "Intel GNA Library"@]
    &&& r.clock_frequency == Some(400u32)
    &&& r.tops_tenths == Some(10u32)
    &&& r.power_tenths_watt == Some(5u32)
    &&& pair_views(r.capabilities@) == seq![
        ("keyword_spotting"@, "true"@),
        ("noise_reduction"@, "true"@),
    ]
}

/// `r` is the record of an Intel XDNA NPU.
pub open spec fn xdna_record(r: NPUInfo, driver: Option<Seq<char>>) -> bool {
    &&& intel_npu(r, driver)
    &&& r.model_name@ == "Intel XDNA NPU"@
    &&& r.npu_type is Integrated
    &&& r.architecture is IntelXDNA
    &&& r.usb_device_id is None
    &&& string_views(r.supported_frameworks@) == seq![
        "OpenVINO"@,
        "ONNX Runtime"@,
        "DirectML"@,
    ]
    &&& r.clock_frequency == Some(1400u32)
    &&& r.tops_tenths == Some(115u32)
    &&& r.power_tenths_watt == Some(20u32)
    &&& pair_views(r.capabilities@) == seq![
        ("int8"@, "true"@),
        ("fp16"@, "true"@),
        ("dynamic_shapes"@, "true"@),
    ]
}

/// The name of the Neural Engine of an Apple M-series chip, by its brand string.
pub open spec fn neural_engine_name(brand: Seq<char>) -> Seq<char> {
    if has_sub(brand, "M1"@) {
        "Apple Neural Engine (M1)"@
    } else if has_sub(brand, "M2"@) {
        "Apple Neural Engine (M2)"@
    } else if has_sub(brand, "M3"@) {
        "Apple Neural Engine (M3)"@
    } else {
        "Apple Neural Engine"@
    }
}

/// The performance of the Neural Engine of an Apple M-series chip, in tenths of a TOPS.
pub open spec fn neural_engine_tops_tenths(brand: Seq<char>) -> u32 {
    if has_sub(brand, "M1"@) || has_sub(brand, "M2"@) {
        158
    } else if has_sub(brand, "M3"@) {
        180
    } else {
        158
    }
}

/// `r` is the record of the Neural Engine of the chip with this brand string.
pub open spec fn neural_engine_record(r: NPUInfo, brand: Seq<char>) -> bool {
    &&& r.vendor is Apple
    &&& r.model_name@ == neural_engine_name(brand)
    &&& r.npu_type is Integrated
    &&& r.architecture is AppleNeuralEngine
    &&& r.memory_mb is None
    &&& r.driver_version is None
    &&& r.firmware_version is None
    &&& r.pci_device_id is None
    &&& r.usb_device_id is None
    &&& string_views(r.supported_frameworks@) == seq![
        "Core ML"@,
        "ONNX Runtime"@,
        "TensorFlow Lite"@,
    ]
    &&& r.clock_frequency is None
    &&& r.tops_tenths == Some(neural_engine_tops_tenths(brand))
    &&& r.power_tenths_watt == Some(10u32)
    &&& r.temperature_tenths_celsius is None
    &&& pair_views(r.capabilities@) == seq![
        ("16_core"@, "true"@),
        ("matrix_operations"@, "true"@),
        ("convolution"@, "true"@),
    ]
}

/// Some framework among `fs` contains `framework`, both in lower case.
pub open spec fn supports_named(fs: Seq<Seq<char>>, framework: Seq<char>) -> bool {
    exists|i: int| 0 <= i < fs.len() && has_sub(lowercase(#[trigger] fs[i]), lowercase(framework))
}

/// Whether some name among `names` contains `wanted` once both are lower-cased.
pub fn any_contains_lowercase(names: &[String], wanted: &str) -> (r: bool)
    ensures
        r == supports_named(string_views(names@), wanted@),
{
    let want = to_lowercase(wanted);
    let n = names.len();
    let mut i: usize = 0;
    while i < n
        invariant
            i <= n,
            n == names@.len(),
            want@ == lowercase(wanted@),
            forall|k: int|
                0 <= k < i ==> !has_sub(lowercase(#[trigger] string_views(names@)[k]), lowercase(wanted@)),
        decreases n - i,
    {
        let l = to_lowercase(names[i].as_str());
        if contains_str(l.as_str(), want.as_str()) {
            proof {
                assert(string_views(names@)[i as int] == names@[i as int]@);
            }
            return true;
        }
        proof {
            assert(string_views(names@)[i as int] == names@[i as int]@);
        }
        i += 1;
    }
    false
}

impl NPUInfo {
    /// The Neural Compute Sticks listed by `lsusb`, one per line that shows one.
    pub fn intel_sticks_from_lsusb(output: &str, driver_version: Option<String>) -> (r: Vec<NPUInfo>)
        ensures
            r@.len() == ncs_kinds(lines(output@)).len(),
            forall|i: int|
                0 <= i < r@.len() ==> ncs_record(
                    #[trigger] r@[i],
                    ncs_kinds(lines(output@))[i],
                    opt_string(driver_version),
                ),
    {
        let v = chars_of(output);
        let ls = lines_of(v.as_slice());
        let ghost lv = views(ls@);
        let mut out: Vec<NPUInfo> = Vec::new();
        let n = ls.len();
        let mut i: usize = 0;
        while i < n
            invariant
                i <= n,
                n == ls@.len(),
                lv == views(ls@),
                lv == lines(output@),
                out@.len() == ncs_kinds(lv.take(i as int)).len(),
                forall|k: int|
                    0 <= k < out@.len() ==> ncs_record(
                        #[trigger] out@[k],
                        ncs_kinds(lv.take(i as int))[k],
                        opt_string(driver_version),
                    ),
            decreases n - i,
        {
            proof {
                assert(lv.take(i + 1).drop_last() =~= lv.take(i as int));
                assert(lv.take(i + 1).last() == ls@[i as int]@);
            }
            let line = ls[i].as_slice();
            if contains_lit(line, "03e7") {
                let stick2 = contains_lit(line, "2485");
                if stick2 || contains_lit(line, "f63b") {
                    let (model, usb, frameworks) = if stick2 {
                        (
                            owned("Intel Neural Compute Stick 2"),
                            owned("03e7:2485"),
                            strings(&["OpenVINO", "ONNX Runtime"]),
                        )
                    } else {
                        (owned("Intel Neural Compute Stick"), owned("03e7:f63b"), strings(&["OpenVINO"]))
                    };
                    let rec = NPUInfo {
                        vendor: NPUVendor::Intel,
                        model_name: model,
                        npu_type: NPUType::USB,
                        architecture: NPUArchitecture::IntelMovidius,
                        memory_mb: None,
                        driver_version: copy_opt(&driver_version),
                        firmware_version: None,
                        pci_device_id: None,
                        usb_device_id: Some(usb),
                        supported_frameworks: frameworks,
                        clock_frequency: None,
                        capabilities: Vec::new(),
                        tops_tenths: Some(if stick2 { 40 } else { 1 }),
                        power_tenths_watt: Some(10),
                        temperature_tenths_celsius: None,
                    };
                    proof {
                        if stick2 {
                            assert(string_views(rec.supported_frameworks@) =~= seq![
                                "OpenVINO"@,
                                "ONNX Runtime"@,
                            ]);
                        } else {
                            assert(string_views(rec.supported_frameworks@) =~= seq!["OpenVINO"@]);
                        }
                    }
                    out.push(rec);
                }
            }
            i += 1;
        }
        proof {
            assert(lv.take(n as int) =~= lv);
        }
        out
    }

    /// The record of Intel's Gaussian Neural Accelerator, found present.
    pub fn intel_gna(driver_version: Option<String>) -> (r: NPUInfo)
        ensures
            gna_record(r, opt_string(driver_version)),
    {
        let r = NPUInfo {
            vendor: NPUVendor::Intel,
            model_name: owned("Intel Gaussian Neural Accelerator"),
            npu_type: NPUType::Integrated,
            architecture: NPUArchitecture::IntelGNA,
            memory_mb: None,
            driver_version,
            firmware_version: None,
            pci_device_id: None,
            usb_device_id: None,
            supported_frameworks: strings(&["OpenVINO", "Intel GNA Library"]),
            clock_frequency: Some(400),
            capabilities: string_pairs(&[("keyword_spotting", "true"), ("noise_reduction", "true")]),
            tops_tenths: Some(10),
            power_tenths_watt: Some(5),
            temperature_tenths_celsius: None,
        };
        proof {
            assert(string_views(r.supported_frameworks@) =~= seq!["OpenVINO"@, "Intel GNA Library"@]);
            assert(pair_views(r.capabilities@) =~= seq![
                ("keyword_spotting"@, "true"@),
                ("noise_reduction"@, "true"@),
            ]);
        }
        r
    }

    /// The XDNA record for a device whose reported name mentions Intel and an NPU or a
    /// neural engine; `None` for any other device.
    pub fn intel_xdna_for(device_name: &str, driver_version: Option<String>) -> (r: Option<NPUInfo>)
        ensures
            (has_sub(device_name@, "Intel"@) && (has_sub(device_name@, "NPU"@) || has_sub(
                device_name@,
                "Neural"@,
            ))) ==> (r matches Some(x) && xdna_record(x, opt_string(driver_version))),
            !(has_sub(device_name@, "Intel"@) && (has_sub(device_name@, "NPU"@) || has_sub(
                device_name@,
                "Neural"@,
            ))) ==> r is None,
    {
        let v = chars_of(device_name);
        if contains_lit(v.as_slice(), "Intel") && (contains_lit(v.as_slice(), "NPU") || contains_lit(
            v.as_slice(),
            "Neural",
        )) {
            let r = NPUInfo {
                vendor: NPUVendor::Intel,
                model_name: owned("Intel XDNA NPU"),
                npu_type: NPUType::Integrated,
                architecture: NPUArchitecture::IntelXDNA,
                memory_mb: None,
                driver_version,
                firmware_version: None,
                pci_device_id: None,
                usb_device_id: None,
                supported_frameworks: strings(&["OpenVINO", "ONNX Runtime", "DirectML"]),
                clock_frequency: Some(1400),
                capabilities: string_pairs(
                    &[("int8", "true"), ("fp16", "true"), ("dynamic_shapes", "true")],
                ),
                tops_tenths: Some(115),
                power_tenths_watt: Some(20),
                temperature_tenths_celsius: None,
            };
            proof {
                assert(string_views(r.supported_frameworks@) =~= seq![
                    "OpenVINO"@,
                    "ONNX Runtime"@,
                    "DirectML"@,
                ]);
                assert(pair_views(r.capabilities@) =~= seq![
                    ("int8"@, "true"@),
                    ("fp16"@, "true"@),
                    ("dynamic_shapes"@, "true"@),
                ]);
            }
            Some(r)
        } else {
            None
        }
    }

    /// The Neural Engine of an Apple M-series chip, from the CPU brand string; `None`
    /// when the brand is not an Apple M chip.
    pub fn apple_neural_engine(cpu_brand: &str) -> (r: Option<NPUInfo>)
        ensures
            has_sub(cpu_brand@, "Apple M"@) ==> (r matches Some(x) && neural_engine_record(
                x,
                cpu_brand@,
            )),
            !has_sub(cpu_brand@, "Apple M"@) ==> r is None,
    {
        let v = chars_of(cpu_brand);
        if !contains_lit(v.as_slice(), "Apple M") {
            return None;
        }
        let (tops, model) = if contains_lit(v.as_slice(), "M1") {
            (158u32, owned("Apple Neural Engine (M1)"))
        } else if contains_lit(v.as_slice(), "M2") {
            (158u32, owned("Apple Neural Engine (M2)"))
        } else if contains_lit(v.as_slice(), "M3") {
            (180u32, owned("Apple Neural Engine (M3)"))
        } else {
            (158u32, owned("Apple Neural Engine"))
        };
        let r = NPUInfo {
            vendor: NPUVendor::Apple,
            model_name: model,
            npu_type: NPUType::Integrated,
            architecture: NPUArchitecture::AppleNeuralEngine,
            memory_mb: None,
            driver_version: None,
            firmware_version: None,
            pci_device_id: None,
            usb_device_id: None,
            supported_frameworks: strings(&["Core ML", "ONNX Runtime", "TensorFlow Lite"]),
            clock_frequency: None,
            capabilities: string_pairs(
                &[("16_core", "true"), ("matrix_operations", "true"), ("convolution", "true")],
            ),
            tops_tenths: Some(tops),
            power_tenths_watt: Some(10),
            temperature_tenths_celsius: None,
        };
        proof {
            assert(string_views(r.supported_frameworks@) =~= seq![
                "Core ML"@,
                "ONNX Runtime"@,
                "TensorFlow Lite"@,
            ]);
            assert(pair_views(r.capabilities@) =~= seq![
                ("16_core"@, "true"@),
                ("matrix_operations"@, "true"@),
                ("convolution"@, "true"@),
            ]);
        }
        Some(r)
    }

    pub fn vendor(&self) -> (r: &NPUVendor)
        ensures
            *r == self.vendor,
    {
        &self.vendor
    }

    pub fn model_name(&self) -> (r: &str)
        ensures
            r@ == self.model_name@,
    {
        self.model_name.as_str()
    }

    /// Performance, in tenths of a TOPS.
    pub fn tops_performance(&self) -> (r: Option<u32>)
        ensures
            r == self.tops_tenths,
    {
        self.tops_tenths
    }

    pub fn npu_type(&self) -> (r: &NPUType)
        ensures
            *r == self.npu_type,
    {
        &self.npu_type
    }

    /// Whether a supported framework's name contains `framework`, ignoring case.
    pub fn supports_framework(&self, framework: &str) -> (r: bool)
        ensures
            r == supports_named(string_views(self.supported_frameworks@), framework@),
    {
        any_contains_lowercase(self.supported_frameworks.as_slice(), framework)
    }
}

} // verus!
