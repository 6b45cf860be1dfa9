//! Tensor processing units: their kinds, and how each is recognised from what the
//! system reports (the TPU name, lsusb, lspci, sysfs vendor and device codes).
use vstd::prelude::*;
use crate::hwq::lists::{pair_views, string_pairs, strings};
use crate::hwq::npu::{any_contains_lowercase, opt_string, supports_named};
use crate::protocol::string_views;
use crate::text::{
    chars_of, contains_lit, has_sub, lines, lines_of, lowercase, owned, push_str, str_eq,
    to_lowercase, trim, trim_str, views,
};

verus! {

/// TPU vendor.
#[derive(Debug, Clone)]
pub enum TPUVendor {
    Google,
    Intel,
    Groq,
    Cerebras,
    Unknown(String),
}

pub open spec fn tpu_vendor_label(v: TPUVendor) -> Seq<char> {
    match v {
        TPUVendor::Google => "Google"@,
        TPUVendor::Intel => "Intel"@,
        TPUVendor::Groq => "Groq"@,
        TPUVendor::Cerebras => "Cerebras"@,
        TPUVendor::Unknown(s) => s@,
    }
}

impl TPUVendor {
    /// The display name.
    pub fn label(&self) -> (r: String)
        ensures
            r@ == tpu_vendor_label(*self),
    {
        match self {
            TPUVendor::Google => owned("Google"),
            TPUVendor::Intel => owned("Intel"),
            TPUVendor::Groq => owned("Groq"),
            TPUVendor::Cerebras => owned("Cerebras"),
            TPUVendor::Unknown(s) => owned(s.as_str()),
        }
    }
}

/// TPU generation and architecture.
#[derive(Debug, Clone)]
pub enum TPUArchitecture {
    GoogleTPUv2,
    GoogleTPUv3,
    GoogleTPUv4,
    GoogleTPUv5,
    GoogleCoralEdge,
    IntelHabanaGaudi,
    IntelHabanaGaudi2,
    IntelHabanaGoya,
    GroqLPU,
    CerebrasWSE,
    Unknown(String),
}

/// TPU connection type.
#[derive(Debug, Clone, PartialEq, Eq, Structural)]
pub enum TPUConnectionType {
    /// Google Cloud TPU
    CloudTPU,
    /// PCIe card
    PCIe,
    /// USB device (Edge TPU)
    USB,
    /// M.2 module
    M2,
    /// Network-attached
    Network,
    Unknown,
}

/// TPU information. Performance, memory size and bandwidth, power and temperature are
/// kept in tenths of their unit, so that 4 TOPS is 40 and 2.5 watts is 25.
#[derive(Debug, Clone)]
pub struct TPUInfo {
    pub vendor: TPUVendor,
    pub model_name: String,
    pub architecture: TPUArchitecture,
    pub connection_type: TPUConnectionType,
    /// Number of cores or processing units
    pub core_count: Option<u32>,
    pub driver_version: Option<String>,
    pub firmware_version: Option<String>,
    pub device_id: Option<String>,
    pub supported_frameworks: Vec<String>,
    /// Clock frequency in MHz
    pub clock_frequency: Option<u32>,
    pub supported_dtypes: Vec<String>,
    /// Additional capabilities, as name and value
    pub capabilities: Vec<(String, String)>,
    /// Performance in tenths of a TOPS (trillions of operations per second)
    pub tops_tenths: Option<u32>,
    /// Memory in tenths of a gigabyte
    pub memory_tenths_gb: Option<u32>,
    /// Memory bandwidth in tenths of a gigabyte per second
    pub bandwidth_tenths_gbps: Option<u32>,
    /// Power draw in tenths of a watt
    pub power_tenths_watt: Option<u32>,
    /// Temperature in tenths of a degree Celsius
    pub temperature_tenths_celsius: Option<i32>,
}

/// The generation of a Google Cloud TPU by its name; v4 when the name shows none.
pub open spec fn cloud_tpu_architecture(name: Seq<char>) -> TPUArchitecture {
    if has_sub(name, "v5"@) {
        TPUArchitecture::GoogleTPUv5
    } else if has_sub(name, "v4"@) {
        TPUArchitecture::GoogleTPUv4
    } else if has_sub(name, "v3"@) {
        TPUArchitecture::GoogleTPUv3
    } else if has_sub(name, "v2"@) {
        TPUArchitecture::GoogleTPUv2
    } else {
        TPUArchitecture::GoogleTPUv4
    }
}

/// An lsusb line that shows a Coral Edge TPU (18d1:9302).
pub open spec fn edge_usb_line(line: Seq<char>) -> bool {
    has_sub(line, "18d1"@) && has_sub(line, "9302"@)
}

/// An lspci line that shows a Coral Edge TPU.
pub open spec fn edge_pci_line(line: Seq<char>) -> bool {
    has_sub(line, "Coral"@) || (has_sub(line, "Google"@) && has_sub(line, "Edge"@))
}

/// The number of lines of `ls` that show an Edge TPU (over USB when `usb`, else PCIe).
pub open spec fn edge_lines(ls: Seq<Seq<char>>, usb: bool) -> nat
    decreases ls.len(),
{
    if ls.len() == 0 {
        0
    } else {
        edge_lines(ls.drop_last(), usb) + if (if usb {
            edge_usb_line(ls.last())
        } else {
            edge_pci_line(ls.last())
        }) {
            1nat
        } else {
            0nat
        }
    }
}

/// `r` is the record of a Coral Edge TPU, over USB when `usb`, else on an M.2 card.
pub open spec fn edge_record(r: TPUInfo, usb: bool, driver: Option<Seq<char>>) -> bool {
    &&& r.vendor is Google
    &&& r.architecture is GoogleCoralEdge
    &&& r.core_count == Some(1u32)
    &&& opt_string(r.driver_version) == driver
    &&& r.firmware_version is None
    &&& r.clock_frequency == Some(500u32)
    &&& string_views(r.supported_dtypes@) == seq!["int8"@, "uint8"@]
    &&& r.tops_tenths == Some(40u32)
    &&& r.memory_tenths_gb is None
    &&& r.bandwidth_tenths_gbps == (if usb { Some(20u32) } else { Some(80u32) })
    &&& r.power_tenths_watt == (if usb { Some(20u32) } else { Some(25u32) })
    &&& r.temperature_tenths_celsius is None
    &&& if usb {
        &&& r.model_name@ == "Google Coral Edge TPU"@
        &&& r.connection_type is USB
        &&& r.device_id matches Some(d) && d@ == "18d1:9302"@
        &&& string_views(r.supported_frameworks@) == seq![
            "TensorFlow Lite"@,
            "PyCoral"@,
            "OpenVINO"@,
        ]
        &&& pair_views(r.capabilities@) == seq![
            ("quantized_only"@, "true"@),
            ("edge_optimized"@, "true"@),
        ]
    } else {
        &&& r.model_name@ == "Google Coral Edge TPU (PCIe)"@
        &&& r.connection_type is M2
        &&& r.device_id is None
        &&& string_views(r.supported_frameworks@) == seq!["TensorFlow Lite"@, "PyCoral"@]
        &&& pair_views(r.capabilities@) == seq![
            ("quantized_only"@, "true"@),
            ("edge_optimized"@, "true"@),
            ("pcie_interface"@, "true"@),
        ]
    }
}

/// The performance and memory of a Google Cloud TPU by its name, in tenths of a TOPS and
/// of a gigabyte; those of a v4 when the name shows no generation.
pub open spec fn cloud_tpu_figures(name: Seq<char>) -> (u32, u32) {
    if has_sub(name, "v5"@) {
        (2750, 160)
    } else if has_sub(name, "v4"@) {
        (2750, 320)
    } else if has_sub(name, "v3"@) {
        (1230, 160)
    } else if has_sub(name, "v2"@) {
        (450, 80)
    } else {
        (2750, 320)
    }
}

/// `r` is the record of the Google Cloud TPU with this name.
pub open spec fn cloud_record(r: TPUInfo, name: Seq<char>, driver: Option<Seq<char>>) -> bool {
    &&& r.vendor is Google
    &&& r.model_name@ == "Google Cloud TPU ("@ + name + ")"@
    &&& r.architecture == cloud_tpu_architecture(name)
    &&& r.connection_type is CloudTPU
    &&& r.core_count == Some(2u32)
    &&& opt_string(r.driver_version) == driver
    &&& r.firmware_version is None
    &&& r.device_id matches Some(d) && d@ == name
    &&& string_views(r.supported_frameworks@) == seq!["TensorFlow"@, "JAX"@, "PyTorch/XLA"@]
    &&& r.clock_frequency == Some(1000u32)
    &&& r.tops_tenths == Some(cloud_tpu_figures(name).0)
    &&& r.memory_tenths_gb == Some(cloud_tpu_figures(name).1)
    &&& r.bandwidth_tenths_gbps == Some(6000u32)
    &&& r.power_tenths_watt == Some(2000u32)
    &&& r.temperature_tenths_celsius is None
    &&& string_views(r.supported_dtypes@) == seq![
        "bfloat16"@,
        "float32"@,
        "int8"@,
        "int32"@,
    ]
    &&& pair_views(r.capabilities@) == seq![
        ("matrix_units"@, "true"@),
        ("vector_units"@, "true"@),
        ("scalar_units"@, "true"@),
    ]
}

/// The model and architecture of a Habana device by its trimmed device code.
pub open spec fn habana_part(device: Seq<char>) -> (Seq<char>, TPUArchitecture) {
    if device == "0x1000"@ {
        ("Intel Habana Gaudi"@, TPUArchitecture::IntelHabanaGaudi)
    } else if device == "0x1020"@ {
        ("Intel Habana Gaudi2"@, TPUArchitecture::IntelHabanaGaudi2)
    } else if device == "0x1050"@ {
        ("Intel Habana Goya"@, TPUArchitecture::IntelHabanaGoya)
    } else {
        ("Intel Habana Device"@, TPUArchitecture::IntelHabanaGaudi)
    }
}

/// The performance of a Habana device by its trimmed device code, in tenths of a TOPS.
pub open spec fn habana_tops_tenths(device: Seq<char>) -> u32 {
    if device == "0x1000"@ {
        4000
    } else if device == "0x1020"@ {
        8000
    } else if device == "0x1050"@ {
        1000
    } else {
        4000
    }
}

/// `r` is the record of the Habana device with this (trimmed) device code.
pub open spec fn habana_record(r: TPUInfo, device: Seq<char>, driver: Option<Seq<char>>) -> bool {
    &&& r.vendor is Intel
    &&& r.model_name@ == habana_part(device).0
    &&& r.architecture == habana_part(device).1
    &&& r.connection_type is PCIe
    &&& r.core_count == Some(8u32)
    &&& opt_string(r.driver_version) == driver
    &&& r.firmware_version is None
    &&& r.device_id matches Some(d) && d@ == device
    &&& string_views(r.supported_frameworks@) == seq![
        "PyTorch"@,
        "TensorFlow"@,
        "ONNX Runtime"@,
        "Habana SynapseAI"@,
    ]
    &&& r.clock_frequency == Some(1300u32)
    &&& r.tops_tenths == Some(habana_tops_tenths(device))
    &&& r.memory_tenths_gb == Some(320u32)
    &&& r.bandwidth_tenths_gbps == Some(24000u32)
    &&& r.power_tenths_watt == Some(3500u32)
    &&& r.temperature_tenths_celsius is None
    &&& string_views(r.supported_dtypes@) == seq![
        "float32"@,
        "bfloat16"@,
        "float16"@,
        "int8"@,
    ]
    &&& pair_views(r.capabilities@) == seq![
        ("matrix_multiply_engine"@, "true"@),
        ("tensor_processor_core"@, "true"@),
        ("high_bandwidth_memory"@, "true"@),
    ]
}

/// Some entry of `ds` equals `dtype`, both in lower case.
pub open spec fn has_dtype(ds: Seq<Seq<char>>, dtype: Seq<char>) -> bool {
    exists|i: int| 0 <= i < ds.len() && lowercase(#[trigger] ds[i]) == lowercase(dtype)
}

fn copy_opt(o: &Option<String>) -> (r: Option<String>)
    ensures
        opt_string(r) == opt_string(*o),
{
    match o {
        Some(s) => Some(s.clone()),
        None => None,
    }
}

fn edge_tpu(usb: bool, driver_version: &Option<String>) -> (r: TPUInfo)
    ensures
        edge_record(r, usb, opt_string(*driver_version)),
{
    let r = if usb {
        TPUInfo {
            vendor: TPUVendor::Google,
            model_name: owned("Google Coral Edge TPU"),
            architecture: TPUArchitecture::GoogleCoralEdge,
            connection_type: TPUConnectionType::USB,
            core_count: Some(1),
            driver_version: copy_opt(driver_version),
            firmware_version: None,
            device_id: Some(owned("18d1:9302")),
            supported_frameworks: strings(&["TensorFlow Lite", "PyCoral", "OpenVINO"]),
            clock_frequency: Some(500),
            supported_dtypes: strings(&["int8", "uint8"]),
            capabilities: string_pairs(&[("quantized_only", "true"), ("edge_optimized", "true")]),
            tops_tenths: Some(40),
            memory_tenths_gb: None,
            bandwidth_tenths_gbps: Some(20),
            power_tenths_watt: Some(20),
            temperature_tenths_celsius: None,
        }
    } else {
        TPUInfo {
            vendor: TPUVendor::Google,
            model_name: owned("Google Coral Edge TPU (PCIe)"),
            architecture: TPUArchitecture::GoogleCoralEdge,
            connection_type: TPUConnectionType::M2,
            core_count: Some(1),
            driver_version: copy_opt(driver_version),
            firmware_version: None,
            device_id: None,
            supported_frameworks: strings(&["TensorFlow Lite", "PyCoral"]),
            clock_frequency: Some(500),
            supported_dtypes: strings(&["int8", "uint8"]),
            capabilities: string_pairs(
                &[("quantized_only", "true"), ("edge_optimized", "true"), ("pcie_interface", "true")],
            ),
            tops_tenths: Some(40),
            memory_tenths_gb: None,
            bandwidth_tenths_gbps: Some(80),
            power_tenths_watt: Some(25),
            temperature_tenths_celsius: None,
        }
    };
    proof {
        assert(string_views(r.supported_dtypes@) =~= seq!["int8"@, "uint8"@]);
        if usb {
            assert(string_views(r.supported_frameworks@) =~= seq![
                "TensorFlow Lite"@,
                "PyCoral"@,
                "OpenVINO"@,
            ]);
            assert(pair_views(r.capabilities@) =~= seq![
                ("quantized_only"@, "true"@),
                ("edge_optimized"@, "true"@),
            ]);
        } else {
            assert(string_views(r.supported_frameworks@) =~= seq!["TensorFlow Lite"@, "PyCoral"@]);
            assert(pair_views(r.capabilities@) =~= seq![
                ("quantized_only"@, "true"@),
                ("edge_optimized"@, "true"@),
                ("pcie_interface"@, "true"@),
            ]);
        }
    }
    r
}

fn edge_tpus(output: &str, usb: bool, driver_version: &Option<String>) -> (r: Vec<TPUInfo>)
    ensures
        r@.len() == edge_lines(lines(output@), usb),
        forall|i: int|
            0 <= i < r@.len() ==> edge_record(#[trigger] r@[i], usb, opt_string(*driver_version)),
{
    let v = chars_of(output);
    let ls = lines_of(v.as_slice());
    let ghost lv = views(ls@);
    let mut out: Vec<TPUInfo> = Vec::new();
    let n = ls.len();
    let mut i: usize = 0;
    while i < n
        invariant
            i <= n,
            n == ls@.len(),
            lv == views(ls@),
            lv == lines(output@),
            out@.len() == edge_lines(lv.take(i as int), usb),
            forall|k: int|
                0 <= k < out@.len() ==> edge_record(
                    #[trigger] out@[k],
                    usb,
                    opt_string(*driver_version),
                ),
        decreases n - i,
    {
        proof {
            assert(lv.take(i + 1).drop_last() =~= lv.take(i as int));
            assert(lv.take(i + 1).last() == ls@[i as int]@);
        }
        let line = ls[i].as_slice();
        let shows = if usb {
            contains_lit(line, "18d1") && contains_lit(line, "9302")
        } else {
            contains_lit(line, "Coral") || (contains_lit(line, "Google") && contains_lit(
                line,
                "Edge",
            ))
        };
        if shows {
            out.push(edge_tpu(usb, driver_version));
        }
        i += 1;
    }
    proof {
        assert(lv.take(n as int) =~= lv);
    }
    out
}

impl TPUInfo {
    /// The generation of a Google Cloud TPU by its name.
    pub fn cloud_tpu_generation(tpu_name: &str) -> (r: TPUArchitecture)
        ensures
            r == cloud_tpu_architecture(tpu_name@),
    {
        let v = chars_of(tpu_name);
        if contains_lit(v.as_slice(), "v5") {
            TPUArchitecture::GoogleTPUv5
        } else if contains_lit(v.as_slice(), "v4") {
            TPUArchitecture::GoogleTPUv4
        } else if contains_lit(v.as_slice(), "v3") {
            TPUArchitecture::GoogleTPUv3
        } else if contains_lit(v.as_slice(), "v2") {
            TPUArchitecture::GoogleTPUv2
        } else {
            TPUArchitecture::GoogleTPUv4
        }
    }

    /// The performance and memory of a Google Cloud TPU by its name, in tenths of a TOPS
    /// and of a gigabyte.
    pub fn cloud_tpu_figures(tpu_name: &str) -> (r: (u32, u32))
        ensures
            r == cloud_tpu_figures(tpu_name@),
    {
        let v = chars_of(tpu_name);
        if contains_lit(v.as_slice(), "v5") {
            (2750, 160)
        } else if contains_lit(v.as_slice(), "v4") {
            (2750, 320)
        } else if contains_lit(v.as_slice(), "v3") {
            (1230, 160)
        } else if contains_lit(v.as_slice(), "v2") {
            (450, 80)
        } else {
            (2750, 320)
        }
    }

    /// The record of the Google Cloud TPU named by the environment.
    pub fn google_cloud(tpu_name: &str, driver_version: Option<String>) -> (r: TPUInfo)
        ensures
            cloud_record(r, tpu_name@, opt_string(driver_version)),
    {
        let mut model = owned("Google Cloud TPU (");
        push_str(&mut model, tpu_name);
        push_str(&mut model, ")");
        let (tops, memory) = Self::cloud_tpu_figures(tpu_name);
        let r = TPUInfo {
            vendor: TPUVendor::Google,
            model_name: model,
            architecture: Self::cloud_tpu_generation(tpu_name),
            connection_type: TPUConnectionType::CloudTPU,
            core_count: Some(2),
            driver_version,
            firmware_version: None,
            device_id: Some(owned(tpu_name)),
            supported_frameworks: strings(&["TensorFlow", "JAX", "PyTorch/XLA"]),
            clock_frequency: Some(1000),
            supported_dtypes: strings(&["bfloat16", "float32", "int8", "int32"]),
            capabilities: string_pairs(
                &[("matrix_units", "true"), ("vector_units", "true"), ("scalar_units", "true")],
            ),
            tops_tenths: Some(tops),
            memory_tenths_gb: Some(memory),
            bandwidth_tenths_gbps: Some(6000),
            power_tenths_watt: Some(2000),
            temperature_tenths_celsius: None,
        };
        proof {
            assert(string_views(r.supported_frameworks@) =~= seq![
                "TensorFlow"@,
                "JAX"@,
                "PyTorch/XLA"@,
            ]);
            assert(string_views(r.supported_dtypes@) =~= seq![
                "bfloat16"@,
                "float32"@,
                "int8"@,
                "int32"@,
            ]);
            assert(pair_views(r.capabilities@) =~= seq![
                ("matrix_units"@, "true"@),
                ("vector_units"@, "true"@),
                ("scalar_units"@, "true"@),
            ]);
        }
        r
    }

    /// The Coral Edge TPUs listed by `lsusb`, one per line that shows one.
    pub fn edge_tpus_from_lsusb(output: &str, driver_version: Option<String>) -> (r: Vec<TPUInfo>)
        ensures
            r@.len() == edge_lines(lines(output@), true),
            forall|i: int|
                0 <= i < r@.len() ==> edge_record(#[trigger] r@[i], true, opt_string(driver_version)),
    {
        edge_tpus(output, true, &driver_version)
    }

    /// The Coral Edge TPUs on PCIe listed by `lspci`, one per line that shows one.
    pub fn edge_tpus_from_lspci(output: &str, driver_version: Option<String>) -> (r: Vec<TPUInfo>)
        ensures
            r@.len() == edge_lines(lines(output@), false),
            forall|i: int|
                0 <= i < r@.len() ==> edge_record(#[trigger] r@[i], false, opt_string(driver_version)),
    {
        edge_tpus(output, false, &driver_version)
    }

    /// The record of an accelerator from its sysfs vendor and device files, when the vendor
    /// is Habana (0x1da3); `None` otherwise.
    pub fn habana(vendor: &str, device: &str, driver_version: Option<String>) -> (r: Option<TPUInfo>)
        ensures
            trim(vendor@) == "0x1da3"@ ==> (r matches Some(x) && habana_record(
                x,
                trim(device@),
                opt_string(driver_version),
            )),
            trim(vendor@) != "0x1da3"@ ==> r is None,
    {
        let vt = trim_str(vendor);
        if !str_eq(vt.as_str(), "0x1da3") {
            return None;
        }
        let dt = trim_str(device);
        let (model, arch, tops) = if str_eq(dt.as_str(), "0x1000") {
            (owned("Intel Habana Gaudi"), TPUArchitecture::IntelHabanaGaudi, 4000u32)
        } else if str_eq(dt.as_str(), "0x1020") {
            (owned("Intel Habana Gaudi2"), TPUArchitecture::IntelHabanaGaudi2, 8000u32)
        } else if str_eq(dt.as_str(), "0x1050") {
            (owned("Intel Habana Goya"), TPUArchitecture::IntelHabanaGoya, 1000u32)
        } else {
            (owned("Intel Habana Device"), TPUArchitecture::IntelHabanaGaudi, 4000u32)
        };
        let r = TPUInfo {
            vendor: TPUVendor::Intel,
            model_name: model,
            architecture: arch,
            connection_type: TPUConnectionType::PCIe,
            core_count: Some(8),
            driver_version,
            firmware_version: None,
            device_id: Some(dt),
            supported_frameworks: strings(
                &["PyTorch", "TensorFlow", "ONNX Runtime", "Habana SynapseAI"],
            ),
            clock_frequency: Some(1300),
            supported_dtypes: strings(&["float32", "bfloat16", "float16", "int8"]),
            capabilities: string_pairs(
                &[
                    ("matrix_multiply_engine", "true"),
                    ("tensor_processor_core", "true"),
                    ("high_bandwidth_memory", "true"),
                ],
            ),
            tops_tenths: Some(tops),
            memory_tenths_gb: Some(320),
            bandwidth_tenths_gbps: Some(24000),
            power_tenths_watt: Some(3500),
            temperature_tenths_celsius: None,
        };
        proof {
            assert(string_views(r.supported_frameworks@) =~= seq![
                "PyTorch"@,
                "TensorFlow"@,
                "ONNX Runtime"@,
                "Habana SynapseAI"@,
            ]);
            assert(string_views(r.supported_dtypes@) =~= seq![
                "float32"@,
                "bfloat16"@,
                "float16"@,
                "int8"@,
            ]);
            assert(pair_views(r.capabilities@) =~= seq![
                ("matrix_multiply_engine"@, "true"@),
                ("tensor_processor_core"@, "true"@),
                ("high_bandwidth_memory"@, "true"@),
            ]);
        }
        Some(r)
    }

    /// The driver version reported as "TensorFlow" and the version TensorFlow prints.
    pub fn driver_version_from(tensorflow_version: &str) -> (r: String)
        ensures
            r@ == "TensorFlow "@ + trim(tensorflow_version@),
    {
        let mut r = owned("TensorFlow ");
        let t = trim_str(tensorflow_version);
        push_str(&mut r, t.as_str());
        r
    }

    pub fn vendor(&self) -> (r: &TPUVendor)
        ensures
            *r == self.vendor,
    {
        &self.vendor
    }

    pub fn model_name(&self) -> (r: &str)
        ensures
            r@ == self.model_name@,
    {
        self.model_name.as_str()
    }

    /// Performance, in tenths of a TOPS.
    pub fn tops_performance(&self) -> (r: Option<u32>)
        ensures
            r == self.tops_tenths,
    {
        self.tops_tenths
    }

    pub fn architecture(&self) -> (r: &TPUArchitecture)
        ensures
            *r == self.architecture,
    {
        &self.architecture
    }

    /// Whether a supported framework's name contains `framework`, ignoring case.
    pub fn supports_framework(&self, framework: &str) -> (r: bool)
        ensures
            r == supports_named(string_views(self.supported_frameworks@), framework@),
    {
        any_contains_lowercase(self.supported_frameworks.as_slice(), framework)
    }

    /// Whether a supported data type equals `dtype`, ignoring case.
    pub fn supports_dtype(&self, dtype: &str) -> (r: bool)
        ensures
            r == has_dtype(string_views(self.supported_dtypes@), dtype@),
    {
        let want = to_lowercase(dtype);
        let n = self.supported_dtypes.len();
        let mut i: usize = 0;
        while i < n
            invariant
                i <= n,
                n == self.supported_dtypes@.len(),
                want@ == lowercase(dtype@),
                forall|k: int|
                    0 <= k < i ==> lowercase(#[trigger] string_views(self.supported_dtypes@)[k])
                        != lowercase(dtype@),
            decreases n - i,
        {
            let l = to_lowercase(self.supported_dtypes[i].as_str());
            proof {
                assert(string_views(self.supported_dtypes@)[i as int]
                    == self.supported_dtypes@[i as int]@);
            }
            if str_eq(l.as_str(), want.as_str()) {
                return true;
            }
            i += 1;
        }
        false
    }
}

} // verus!
