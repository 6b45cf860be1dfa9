//! ARM boards: their kinds, and how a Raspberry Pi, an NVIDIA Jetson or an Apple
//! Silicon machine is recognised from what the system reports.
use vstd::prelude::*;
use crate::hwq::cpu::strip_trailing;
use crate::hwq::lists::{pair_views, string_pairs, strings};
use crate::protocol::string_views;
use crate::text::{
    chars_of, contains_lit, has_prefix, has_sub, lines, lines_of, lowercase, owned, parse_unsigned,
    parse_unsigned_chars, push_str, second_field, second_field_chars, starts_with_chars,
    string_of, to_lowercase, trim, trim_chars, trim_str, views, words, words_of,
};

verus! {

/// ARM-based system type.
#[derive(Debug, Clone)]
pub enum ARMSystemType {
    RaspberryPi,
    NVIDIAJetson,
    AppleSilicon,
    QualcommSnapdragon,
    MediaTekDimensity,
    SamsungExynos,
    HiSiliconKirin,
    AmazonGraviton,
    AmpereAltra,
    Unknown(String),
}

pub open spec fn arm_system_label(v: ARMSystemType) -> Seq<char> {
    match v {
        ARMSystemType::RaspberryPi => "Raspberry Pi"@,
        ARMSystemType::NVIDIAJetson => "NVIDIA Jetson"@,
        ARMSystemType::AppleSilicon => "Apple Silicon"@,
        ARMSystemType::QualcommSnapdragon => "Qualcomm Snapdragon"@,
        ARMSystemType::MediaTekDimensity => "MediaTek Dimensity"@,
        ARMSystemType::SamsungExynos => "Samsung Exynos"@,
        ARMSystemType::HiSiliconKirin => "HiSilicon Kirin"@,
        ARMSystemType::AmazonGraviton => "Amazon Graviton"@,
        ARMSystemType::AmpereAltra => "Ampere Altra"@,
        ARMSystemType::Unknown(s) => s@,
    }
}

impl ARMSystemType {
    /// The display name.
    pub fn label(&self) -> (r: String)
        ensures
            r@ == arm_system_label(*self),
    {
        match self {
            ARMSystemType::RaspberryPi => owned("Raspberry Pi"),
            ARMSystemType::NVIDIAJetson => owned("NVIDIA Jetson"),
            ARMSystemType::AppleSilicon => owned("Apple Silicon"),
            ARMSystemType::QualcommSnapdragon => owned("Qualcomm Snapdragon"),
            ARMSystemType::MediaTekDimensity => owned("MediaTek Dimensity"),
            ARMSystemType::SamsungExynos => owned("Samsung Exynos"),
            ARMSystemType::HiSiliconKirin => owned("HiSilicon Kirin"),
            ARMSystemType::AmazonGraviton => owned("Amazon Graviton"),
            ARMSystemType::AmpereAltra => owned("Ampere Altra"),
            ARMSystemType::Unknown(s) => owned(s.as_str()),
        }
    }
}

/// Whether a device-tree model names a Raspberry Pi, in any case.
pub fn is_raspberry_pi_model(model: &str) -> (r: bool)
    ensures
        r == has_sub(lowercase(model@), "raspberry pi"@),
{
    let lower = to_lowercase(model);
    let v = chars_of(lower.as_str());
    contains_lit(v.as_slice(), "raspberry pi")
}

/// The board model in a device-tree model string: its trailing NUL characters dropped.
pub fn board_model(model: &str) -> (r: String)
    ensures
        r@ == strip_trailing(model@, '\0'),
{
    let v = chars_of(model);
    let mut j = v.len();
    proof {
        assert(v@.take(j as int) =~= v@);
    }
    while j > 0 && v[j - 1] == '\0'
        invariant
            j <= v@.len(),
            strip_trailing(model@, '\0') == strip_trailing(v@.take(j as int), '\0'),
            v@ == model@,
        decreases j,
    {
        proof {
            assert(v@.take(j as int).drop_last() =~= v@.take(j - 1));
        }
        j -= 1;
    }
    let t = crate::text::slice_range(v.as_slice(), 0, j);
    proof {
        assert(t@ =~= v@.take(j as int));
    }
    string_of(t.as_slice())
}

/// The extra GPU and inference grade of a Raspberry Pi 5 or 4, by its model.
pub open spec fn pi_extras(model: Seq<char>) -> Option<(Seq<char>, Seq<char>)> {
    if has_sub(model, "Pi 5"@) {
        Some(("VideoCore VII GPU"@, "High (ARM Cortex-A76)"@))
    } else if has_sub(model, "Pi 4"@) {
        Some(("VideoCore VI GPU"@, "Medium (ARM Cortex-A72)"@))
    } else {
        None
    }
}

/// The extra acceleration feature and inference grade of a Raspberry Pi 5 or 4.
pub fn pi_model_extras(model: &str) -> (r: Option<(String, String)>)
    ensures
        match pi_extras(model@) {
            Some((f, g)) => r matches Some((x, y)) && x@ == f && y@ == g,
            None => r is None,
        },
{
    let v = chars_of(model);
    if contains_lit(v.as_slice(), "Pi 5") {
        Some((owned("VideoCore VII GPU"), owned("High (ARM Cortex-A76)")))
    } else if contains_lit(v.as_slice(), "Pi 4") {
        Some((owned("VideoCore VI GPU"), owned("Medium (ARM Cortex-A72)")))
    } else {
        None
    }
}

/// The acceleration features every Raspberry Pi has.
pub fn pi_acceleration_features() -> (r: Vec<String>)
    ensures
        string_views(r@) == seq!["VideoCore GPU"@, "Hardware Video Decode"@],
{
    let r = strings(&["VideoCore GPU", "Hardware Video Decode"]);
    proof {
        assert(string_views(r@) =~= seq!["VideoCore GPU"@, "Hardware Video Decode"@]);
    }
    r
}

/// The machine-learning capabilities every Raspberry Pi has.
pub fn pi_ml_capabilities() -> (r: Vec<(String, String)>)
    ensures
        pair_views(r@) == seq![
            ("cpu_inference"@, "true"@),
            ("frameworks"@, "TensorFlow Lite, PyTorch"@),
        ],
{
    let r = string_pairs(&[("cpu_inference", "true"), ("frameworks", "TensorFlow Lite, PyTorch")]);
    proof {
        assert(pair_views(r@) =~= seq![
            ("cpu_inference"@, "true"@),
            ("frameworks"@, "TensorFlow Lite, PyTorch"@),
        ]);
    }
    r
}

/// The interfaces every Raspberry Pi has.
pub fn pi_interfaces() -> (r: Vec<String>)
    ensures
        string_views(r@) == seq!["GPIO"@, "I2C"@, "SPI"@, "UART"@],
{
    let r = strings(&["GPIO", "I2C", "SPI", "UART"]);
    proof {
        assert(string_views(r@) =~= seq!["GPIO"@, "I2C"@, "SPI"@, "UART"@]);
    }
    r
}

/// The second `:` field of the first line of `ls` that begins with `key`, trimmed; none
/// when no line begins with it or that line has no second field.
pub open spec fn first_line_field(ls: Seq<Seq<char>>, key: Seq<char>) -> Option<Seq<char>>
    decreases ls.len(),
{
    if ls.len() == 0 {
        None
    } else if has_prefix(ls[0], key) {
        match second_field(ls[0], ':') {
            Some(f) => Some(trim(f)),
            None => None,
        }
    } else {
        first_line_field(ls.drop_first(), key)
    }
}

/// The trimmed value of the first `/proc/cpuinfo` line that begins with `key` (such as
/// "Revision" or "Serial").
pub fn cpuinfo_line_value(cpuinfo: &str, key: &str) -> (r: Option<String>)
    ensures
        match first_line_field(lines(cpuinfo@), key@) {
            Some(f) => r matches Some(x) && x@ == f,
            None => r is None,
        },
{
    let v = chars_of(cpuinfo);
    let ls = lines_of(v.as_slice());
    let kv = chars_of(key);
    let ghost lv = views(ls@);
    let n = ls.len();
    let mut i: usize = 0;
    proof {
        assert(lv.skip(0) =~= lv);
    }
    while i < n
        invariant
            i <= n,
            n == ls@.len(),
            lv == views(ls@),
            lv == lines(cpuinfo@),
            kv@ == key@,
            first_line_field(lv, key@) == first_line_field(lv.skip(i as int), key@),
        decreases n - i,
    {
        proof {
            assert(lv.skip(i as int)[0] == ls@[i as int]@);
            assert(lv.skip(i as int).drop_first() =~= lv.skip(i + 1));
        }
        let line = ls[i].as_slice();
        if starts_with_chars(line, kv.as_slice()) {
            return match second_field_chars(line, ':') {
                Some(f) => {
                    let t = trim_chars(f.as_slice());
                    Some(string_of(t.as_slice()))
                },
                None => None,
            };
        }
        i += 1;
    }
    None
}

/// The Raspberry Pi board model named in `/proc/cpuinfo`: when it mentions both a BCM
/// chip and a Raspberry Pi, the first `Model` line's value ("Unknown" when that line has
/// no value).
pub open spec fn pi_model_in_cpuinfo(cpuinfo: Seq<char>) -> Option<Seq<char>> {
    if has_sub(cpuinfo, "BCM"@) && has_sub(cpuinfo, "Raspberry Pi"@) {
        pi_model_line(lines(cpuinfo))
    } else {
        None
    }
}

/// The value of the first line of `ls` that begins with "Model" ("Unknown" when it has no
/// second `:` field), trimmed.
pub open spec fn pi_model_line(ls: Seq<Seq<char>>) -> Option<Seq<char>>
    decreases ls.len(),
{
    if ls.len() == 0 {
        None
    } else if has_prefix(ls[0], "Model"@) {
        Some(
            trim(
                match second_field(ls[0], ':') {
                    Some(f) => f,
                    None => "Unknown"@,
                },
            ),
        )
    } else {
        pi_model_line(ls.drop_first())
    }
}

/// The Raspberry Pi board model in `/proc/cpuinfo`, when it names one.
pub fn raspberry_pi_from_cpuinfo(cpuinfo: &str) -> (r: Option<String>)
    ensures
        match pi_model_in_cpuinfo(cpuinfo@) {
            Some(m) => r matches Some(x) && x@ == m,
            None => r is None,
        },
{
    let v = chars_of(cpuinfo);
    if !(contains_lit(v.as_slice(), "BCM") && contains_lit(v.as_slice(), "Raspberry Pi")) {
        return None;
    }
    let ls = lines_of(v.as_slice());
    let kv = chars_of("Model");
    let ghost lv = views(ls@);
    let n = ls.len();
    let mut i: usize = 0;
    proof {
        assert(lv.skip(0) =~= lv);
    }
    while i < n
        invariant
            i <= n,
            n == ls@.len(),
            lv == views(ls@),
            lv == lines(cpuinfo@),
            kv@ == "Model"@,
            has_sub(cpuinfo@, "BCM"@) && has_sub(cpuinfo@, "Raspberry Pi"@),
            pi_model_line(lv) == pi_model_line(lv.skip(i as int)),
        decreases n - i,
    {
        proof {
            assert(lv.skip(i as int)[0] == ls@[i as int]@);
            assert(lv.skip(i as int).drop_first() =~= lv.skip(i + 1));
        }
        let line = ls[i].as_slice();
        if starts_with_chars(line, kv.as_slice()) {
            let f = match second_field_chars(line, ':') {
                Some(f) => f,
                None => chars_of("Unknown"),
            };
            let t = trim_chars(f.as_slice());
            return Some(string_of(t.as_slice()));
        }
        i += 1;
    }
    None
}

/// Megabytes of memory from `/proc/meminfo`: the first `MemTotal:` line whose second word
/// is a number of kB.
pub open spec fn meminfo_total_mb(ls: Seq<Seq<char>>) -> Option<nat>
    decreases ls.len(),
{
    if ls.len() == 0 {
        None
    } else if has_prefix(ls[0], "MemTotal:"@) && words(ls[0]).len() > 1 && parse_unsigned(
        words(ls[0])[1],
        u64::MAX as nat,
    ) is Some {
        Some(parse_unsigned(words(ls[0])[1], u64::MAX as nat)->0 / 1024)
    } else {
        meminfo_total_mb(ls.drop_first())
    }
}

/// The memory size in megabytes given by `/proc/meminfo`.
pub fn memory_mb_from_meminfo(meminfo: &str) -> (r: Option<u64>)
    ensures
        match meminfo_total_mb(lines(meminfo@)) {
            Some(m) => r == Some(m as u64),
            None => r is None,
        },
{
    let v = chars_of(meminfo);
    let ls = lines_of(v.as_slice());
    let kv = chars_of("MemTotal:");
    let ghost lv = views(ls@);
    let n = ls.len();
    let mut i: usize = 0;
    proof {
        assert(lv.skip(0) =~= lv);
    }
    while i < n
        invariant
            i <= n,
            n == ls@.len(),
            lv == views(ls@),
            lv == lines(meminfo@),
            kv@ == "MemTotal:"@,
            meminfo_total_mb(lv) == meminfo_total_mb(lv.skip(i as int)),
        decreases n - i,
    {
        proof {
            assert(lv.skip(i as int)[0] == ls@[i as int]@);
            assert(lv.skip(i as int).drop_first() =~= lv.skip(i + 1));
        }
        let line = ls[i].as_slice();
        if starts_with_chars(line, kv.as_slice()) {
            let ws = words_of(line);
            if ws.len() > 1 {
                proof {
                    assert(ws@[1]@ == words(line@)[1]);
                }
                match parse_unsigned_chars(ws[1].as_slice(), u64::MAX) {
                    Some(kb) => {
                        return Some(kb / 1024);
                    },
                    None => {},
                }
            }
        }
        i += 1;
    }
    None
}

/// The Jetson model named by a device-tree model string (compared in lower case), when
/// it names a Jetson or a Tegra.
pub open spec fn jetson_model_spec(lower: Seq<char>) -> Option<Seq<char>> {
    if has_sub(lower, "jetson"@) || has_sub(lower, "tegra"@) {
        Some(
            if has_sub(lower, "nano"@) {
                "NVIDIA Jetson Nano"@
            } else if has_sub(lower, "xavier"@) {
                if has_sub(lower, "nx"@) {
                    "NVIDIA Jetson Xavier NX"@
                } else {
                    "NVIDIA Jetson AGX Xavier"@
                }
            } else if has_sub(lower, "orin"@) {
                if has_sub(lower, "nx"@) {
                    "NVIDIA Jetson Orin NX"@
                } else if has_sub(lower, "nano"@) {
                    "NVIDIA Jetson Orin Nano"@
                } else {
                    "NVIDIA Jetson AGX Orin"@
                }
            } else {
                "NVIDIA Jetson"@
            },
        )
    } else {
        None
    }
}

/// The Jetson model named by a device-tree model string.
pub fn jetson_model_name(model: &str) -> (r: Option<String>)
    ensures
        match jetson_model_spec(lowercase(model@)) {
            Some(m) => r matches Some(x) && x@ == m,
            None => r is None,
        },
{
    let lower = to_lowercase(model);
    let v = chars_of(lower.as_str());
    let l = v.as_slice();
    if !(contains_lit(l, "jetson") || contains_lit(l, "tegra")) {
        return None;
    }
    let name = if contains_lit(l, "nano") {
        "NVIDIA Jetson Nano"
    } else if contains_lit(l, "xavier") {
        if contains_lit(l, "nx") {
            "NVIDIA Jetson Xavier NX"
        } else {
            "NVIDIA Jetson AGX Xavier"
        }
    } else if contains_lit(l, "orin") {
        if contains_lit(l, "nx") {
            "NVIDIA Jetson Orin NX"
        } else if contains_lit(l, "nano") {
            "NVIDIA Jetson Orin Nano"
        } else {
            "NVIDIA Jetson AGX Orin"
        }
    } else {
        "NVIDIA Jetson"
    };
    Some(owned(name))
}

/// The acceleration features of a Jetson model: CUDA and TensorRT, and the GPU and media
/// or deep-learning engines of an Orin or a Xavier.
pub fn jetson_acceleration_features(model: &str) -> (r: Vec<String>)
    ensures
        string_views(r@) == seq!["CUDA"@, "TensorRT"@] + (if has_sub(model@, "Orin"@) {
            seq!["Ampere GPU"@, "NVENC/NVDEC"@]
        } else if has_sub(model@, "Xavier"@) {
            seq!["Volta GPU"@, "Deep Learning Accelerator"@]
        } else {
            Seq::<Seq<char>>::empty()
        }),
{
    let v = chars_of(model);
    let r = if contains_lit(v.as_slice(), "Orin") {
        strings(&["CUDA", "TensorRT", "Ampere GPU", "NVENC/NVDEC"])
    } else if contains_lit(v.as_slice(), "Xavier") {
        strings(&["CUDA", "TensorRT", "Volta GPU", "Deep Learning Accelerator"])
    } else {
        strings(&["CUDA", "TensorRT"])
    };
    proof {
        assert(string_views(r@) =~= seq!["CUDA"@, "TensorRT"@] + (if has_sub(model@, "Orin"@) {
            seq!["Ampere GPU"@, "NVENC/NVDEC"@]
        } else if has_sub(model@, "Xavier"@) {
            seq!["Volta GPU"@, "Deep Learning Accelerator"@]
        } else {
            Seq::<Seq<char>>::empty()
        }));
    }
    r
}

/// The machine-learning capabilities of a Jetson model: CUDA, TensorRT and the deep
/// learning accelerator, and the inference and training grades of an Orin or a Xavier.
pub fn jetson_ml_capabilities(model: &str) -> (r: Vec<(String, String)>)
    ensures
        pair_views(r@) == seq![
            ("cuda_support"@, "true"@),
            ("tensorrt_support"@, "true"@),
            ("deep_learning_accelerator"@, "true"@),
        ] + (if has_sub(model@, "Orin"@) {
            seq![("inference_performance"@, "Very High"@), ("training_support"@, "Yes"@)]
        } else if has_sub(model@, "Xavier"@) {
            seq![("inference_performance"@, "High"@), ("training_support"@, "Limited"@)]
        } else {
            Seq::<(Seq<char>, Seq<char>)>::empty()
        }),
{
    let v = chars_of(model);
    let r = if contains_lit(v.as_slice(), "Orin") {
        string_pairs(
            &[
                ("cuda_support", "true"),
                ("tensorrt_support", "true"),
                ("deep_learning_accelerator", "true"),
                ("inference_performance", "Very High"),
                ("training_support", "Yes"),
            ],
        )
    } else if contains_lit(v.as_slice(), "Xavier") {
        string_pairs(
            &[
                ("cuda_support", "true"),
                ("tensorrt_support", "true"),
                ("deep_learning_accelerator", "true"),
                ("inference_performance", "High"),
                ("training_support", "Limited"),
            ],
        )
    } else {
        string_pairs(
            &[
                ("cuda_support", "true"),
                ("tensorrt_support", "true"),
                ("deep_learning_accelerator", "true"),
            ],
        )
    };
    proof {
        assert(pair_views(r@) =~= seq![
            ("cuda_support"@, "true"@),
            ("tensorrt_support"@, "true"@),
            ("deep_learning_accelerator"@, "true"@),
        ] + (if has_sub(model@, "Orin"@) {
            seq![("inference_performance"@, "Very High"@), ("training_support"@, "Yes"@)]
        } else if has_sub(model@, "Xavier"@) {
            seq![("inference_performance"@, "High"@), ("training_support"@, "Limited"@)]
        } else {
            Seq::<(Seq<char>, Seq<char>)>::empty()
        }));
    }
    r
}

/// The interfaces every Jetson has.
pub fn jetson_interfaces() -> (r: Vec<String>)
    ensures
        string_views(r@) == seq![
            "USB"@,
            "Ethernet"@,
            "WiFi"@,
            "GPIO"@,
            "I2C"@,
            "SPI"@,
            "UART"@,
            "CSI Camera"@,
            "HDMI"@,
        ],
{
    let r = strings(&["USB", "Ethernet", "WiFi", "GPIO", "I2C", "SPI", "UART", "CSI Camera", "HDMI"]);
    proof {
        assert(string_views(r@) =~= seq![
            "USB"@,
            "Ethernet"@,
            "WiFi"@,
            "GPIO"@,
            "I2C"@,
            "SPI"@,
            "UART"@,
            "CSI Camera"@,
            "HDMI"@,
        ]);
    }
    r
}

/// The GPU description from `nvidia-smi -L` when it lists a Tegra or a Jetson.
pub fn jetson_gpu_from_nvidia_smi(output: &str) -> (r: Option<String>)
    ensures
        (has_sub(output@, "Tegra"@) || has_sub(output@, "Jetson"@)) ==> (r matches Some(x) && x@
            == trim(output@)),
        !(has_sub(output@, "Tegra"@) || has_sub(output@, "Jetson"@)) ==> r is None,
{
    let v = chars_of(output);
    if contains_lit(v.as_slice(), "Tegra") || contains_lit(v.as_slice(), "Jetson") {
        Some(trim_str(output))
    } else {
        None
    }
}

/// The board model of an Apple Silicon machine from its CPU brand string, when the brand
/// names an Apple M chip.
pub fn apple_silicon_board(cpu_brand: &str) -> (r: Option<String>)
    ensures
        has_sub(cpu_brand@, "Apple M"@) ==> (r matches Some(x) && x@ == "Apple Silicon ("@ + trim(
            cpu_brand@,
        ) + ")"@),
        !has_sub(cpu_brand@, "Apple M"@) ==> r is None,
{
    let v = chars_of(cpu_brand);
    if !contains_lit(v.as_slice(), "Apple M") {
        return None;
    }
    let mut r = owned("Apple Silicon (");
    let t = trim_str(cpu_brand);
    push_str(&mut r, t.as_str());
    push_str(&mut r, ")");
    Some(r)
}

} // verus!
