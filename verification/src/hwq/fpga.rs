//! FPGA accelerators: their vendors and families, and how a PCI device is recognised
//! as one by its vendor, device and class codes.
use vstd::prelude::*;
use crate::hwq::lists::{pair_views, string_pairs, strings};
use crate::protocol::string_views;
use crate::text::{
    chars_of, hex_upper, owned, parse_hex, parse_hex_chars, push_hex_padded, push_str,
    strip_prefixes, strip_prefixes_chars, trim, trim_chars, zero_pad,
};

verus! {

/// FPGA vendor.
#[derive(Debug, Clone)]
pub enum FPGAVendor {
    Intel,
    Xilinx,
    Microsemi,
    Lattice,
    /// Legacy, now part of Intel
    Altera,
    Unknown(String),
}

pub open spec fn fpga_vendor_label(v: FPGAVendor) -> Seq<char> {
    match v {
        FPGAVendor::Intel => "Intel"@,
        FPGAVendor::Xilinx => "Xilinx"@,
        FPGAVendor::Microsemi => "Microsemi"@,
        FPGAVendor::Lattice => "Lattice"@,
        FPGAVendor::Altera => "Altera"@,
        FPGAVendor::Unknown(s) => s@,
    }
}

impl FPGAVendor {
    /// The display name.
    pub fn label(&self) -> (r: String)
        ensures
            r@ == fpga_vendor_label(*self),
    {
        match self {
            FPGAVendor::Intel => owned("Intel"),
            FPGAVendor::Xilinx => owned("Xilinx"),
            FPGAVendor::Microsemi => owned("Microsemi"),
            FPGAVendor::Lattice => owned("Lattice"),
            FPGAVendor::Altera => owned("Altera"),
            FPGAVendor::Unknown(s) => owned(s.as_str()),
        }
    }
}

/// FPGA family or series.
#[derive(Debug, Clone)]
pub enum FPGAFamily {
    IntelArria10,
    IntelStratix10,
    IntelCyclone5,
    IntelAgilex,
    XilinxKintex7,
    XilinxVirtex7,
    XilinxZynq7000,
    XilinxZynqUltraScale,
    XilinxKintexUltraScale,
    XilinxVirtexUltraScale,
    XilinxVersal,
    MicrosemiPolarFire,
    LatticeECP5,
    Unknown(String),
}

pub open spec fn fpga_family_label(v: FPGAFamily) -> Seq<char> {
    match v {
        FPGAFamily::IntelArria10 => "Intel Arria 10"@,
        FPGAFamily::IntelStratix10 => "Intel Stratix 10"@,
        FPGAFamily::IntelCyclone5 => "Intel Cyclone V"@,
        FPGAFamily::IntelAgilex => "Intel Agilex"@,
        FPGAFamily::XilinxKintex7 => "Xilinx Kintex-7"@,
        FPGAFamily::XilinxVirtex7 => "Xilinx Virtex-7"@,
        FPGAFamily::XilinxZynq7000 => "Xilinx Zynq-7000"@,
        FPGAFamily::XilinxZynqUltraScale => "Xilinx Zynq UltraScale+"@,
        FPGAFamily::XilinxKintexUltraScale => "Xilinx Kintex UltraScale+"@,
        FPGAFamily::XilinxVirtexUltraScale => "Xilinx Virtex UltraScale+"@,
        FPGAFamily::XilinxVersal => "Xilinx Versal"@,
        FPGAFamily::MicrosemiPolarFire => "Microsemi PolarFire"@,
        FPGAFamily::LatticeECP5 => "Lattice ECP5"@,
        FPGAFamily::Unknown(s) => s@,
    }
}

impl FPGAFamily {
    /// The display name.
    pub fn label(&self) -> (r: String)
        ensures
            r@ == fpga_family_label(*self),
    {
        match self {
            FPGAFamily::IntelArria10 => owned("Intel Arria 10"),
            FPGAFamily::IntelStratix10 => owned("Intel Stratix 10"),
            FPGAFamily::IntelCyclone5 => owned("Intel Cyclone V"),
            FPGAFamily::IntelAgilex => owned("Intel Agilex"),
            FPGAFamily::XilinxKintex7 => owned("Xilinx Kintex-7"),
            FPGAFamily::XilinxVirtex7 => owned("Xilinx Virtex-7"),
            FPGAFamily::XilinxZynq7000 => owned("Xilinx Zynq-7000"),
            FPGAFamily::XilinxZynqUltraScale => owned("Xilinx Zynq UltraScale+"),
            FPGAFamily::XilinxKintexUltraScale => owned("Xilinx Kintex UltraScale+"),
            FPGAFamily::XilinxVirtexUltraScale => owned("Xilinx Virtex UltraScale+"),
            FPGAFamily::XilinxVersal => owned("Xilinx Versal"),
            FPGAFamily::MicrosemiPolarFire => owned("Microsemi PolarFire"),
            FPGAFamily::LatticeECP5 => owned("Lattice ECP5"),
            FPGAFamily::Unknown(s) => owned(s.as_str()),
        }
    }
}

/// FPGA interface type.
#[derive(Debug, Clone)]
pub enum FPGAInterface {
    PCIe,
    USB,
    Ethernet,
    SPI,
    I2C,
    JTAG,
    Embedded,
    Unknown(String),
}

/// FPGA accelerator information. Power and temperature are kept in tenths of a watt and
/// of a degree Celsius.
#[derive(Debug, Clone)]
pub struct FPGAInfo {
    pub vendor: FPGAVendor,
    pub family: FPGAFamily,
    /// Device model or part number
    pub model: String,
    /// Device ID (PCI, USB, etc.)
    pub device_id: Option<String>,
    pub vendor_id: Option<String>,
    pub interface: FPGAInterface,
    /// Logic elements or cells
    pub logic_elements: Option<u64>,
    /// Block RAM size in bits
    pub block_ram_bits: Option<u64>,
    /// DSP slices or blocks
    pub dsp_blocks: Option<u32>,
    /// Maximum operating frequency (MHz)
    pub max_frequency_mhz: Option<u32>,
    /// AI/ML acceleration capabilities, as name and value
    pub ml_capabilities: Vec<(String, String)>,
    /// Supported development tools
    pub development_tools: Vec<String>,
    /// Current configuration or bitstream
    pub current_config: Option<String>,
    pub driver_version: Option<String>,
    /// Power draw in tenths of a watt
    pub power_tenths_watt: Option<u32>,
    /// Temperature in tenths of a degree Celsius
    pub temperature_tenths_celsius: Option<i32>,
}

/// What `format!("0x{:04X}", n)` gives.
pub open spec fn hex4(n: u32) -> Seq<char> {
    "0x"@ + zero_pad(hex_upper(n as nat), 4)
}

/// A part whose figures are known.
pub struct KnownPart {
    pub family: FPGAFamily,
    pub model: Seq<char>,
    pub logic_elements: u64,
    pub block_ram_bits: u64,
    pub dsp_blocks: u32,
    pub max_frequency_mhz: u32,
}

pub open spec fn intel_part(d: u32) -> Option<KnownPart> {
    if d == 0x09C4 {
        Some(KnownPart { family: FPGAFamily::IntelArria10, model: "Arria 10 GX"@, logic_elements: 1150000, block_ram_bits: 53248000, dsp_blocks: 1518, max_frequency_mhz: 800 })
    } else if d == 0x09C5 {
        Some(KnownPart { family: FPGAFamily::IntelArria10, model: "Arria 10 GT"@, logic_elements: 1150000, block_ram_bits: 65536000, dsp_blocks: 1518, max_frequency_mhz: 800 })
    } else if d == 0x1D1C {
        Some(KnownPart { family: FPGAFamily::IntelStratix10, model: "Stratix 10 GX"@, logic_elements: 2753000, block_ram_bits: 229376000, dsp_blocks: 5760, max_frequency_mhz: 1000 })
    } else if d == 0x1D1D {
        Some(KnownPart { family: FPGAFamily::IntelStratix10, model: "Stratix 10 TX"@, logic_elements: 2753000, block_ram_bits: 229376000, dsp_blocks: 5760, max_frequency_mhz: 1000 })
    } else if d == 0x4350 {
        Some(KnownPart { family: FPGAFamily::IntelAgilex, model: "Agilex F-Series"@, logic_elements: 2700000, block_ram_bits: 270000000, dsp_blocks: 5760, max_frequency_mhz: 1100 })
    } else {
        None
    }
}
pub open spec fn xilinx_part(d: u32) -> Option<KnownPart> {
    if d == 0x7028 {
        Some(KnownPart { family: FPGAFamily::XilinxKintex7, model: "Kintex-7 K325T"@, logic_elements: 326080, block_ram_bits: 16020000, dsp_blocks: 840, max_frequency_mhz: 464 })
    } else if d == 0x7034 {
        Some(KnownPart { family: FPGAFamily::XilinxVirtex7, model: "Virtex-7 V485T"@, logic_elements: 485760, block_ram_bits: 37080000, dsp_blocks: 2800, max_frequency_mhz: 600 })
    } else if d == 0x7020 {
        Some(KnownPart { family: FPGAFamily::XilinxZynq7000, model: "Zynq-7000 Z020"@, logic_elements: 85000, block_ram_bits: 4900000, dsp_blocks: 220, max_frequency_mhz: 766 })
    } else if d == 0x9038 {
        Some(KnownPart { family: FPGAFamily::XilinxZynqUltraScale, model: "Zynq UltraScale+ ZU19EG"@, logic_elements: 1143000, block_ram_bits: 75900000, dsp_blocks: 1968, max_frequency_mhz: 850 })
    } else if d == 0x906C {
        Some(KnownPart { family: FPGAFamily::XilinxKintexUltraScale, model: "Kintex UltraScale+ KU15P"@, logic_elements: 1451000, block_ram_bits: 75900000, dsp_blocks: 1968, max_frequency_mhz: 925 })
    } else if d == 0x9058 {
        Some(KnownPart { family: FPGAFamily::XilinxVirtexUltraScale, model: "Virtex UltraScale+ VU19P"@, logic_elements: 8938000, block_ram_bits: 270000000, dsp_blocks: 12288, max_frequency_mhz: 750 })
    } else if d == 0x5008 {
        Some(KnownPart { family: FPGAFamily::XilinxVersal, model: "Versal Prime VP1202"@, logic_elements: 899000, block_ram_bits: 57600000, dsp_blocks: 1968, max_frequency_mhz: 1300 })
    } else {
        None
    }
}

/// The fields every PCIe FPGA record shares: its interface, device ID, vendor ID, and no
/// configuration, driver, power or temperature read yet.
pub open spec fn pcie_record(r: FPGAInfo, vendor_hex: Seq<char>, device_id: u32) -> bool {
    &&& r.interface is PCIe
    &&& r.device_id matches Some(s) && s@ == hex4(device_id)
    &&& r.vendor_id matches Some(s) && s@ == vendor_hex
    &&& r.current_config is None
    &&& r.driver_version is None
    &&& r.power_tenths_watt is None
    &&& r.temperature_tenths_celsius is None
}

/// `r` holds the figures of `part`, or none when the part is not known.
pub open spec fn part_figures(r: FPGAInfo, part: Option<KnownPart>) -> bool {
    match part {
        Some(p) => {
            &&& r.family == p.family
            &&& r.model@ == p.model
            &&& r.logic_elements == Some(p.logic_elements)
            &&& r.block_ram_bits == Some(p.block_ram_bits)
            &&& r.dsp_blocks == Some(p.dsp_blocks)
            &&& r.max_frequency_mhz == Some(p.max_frequency_mhz)
        },
        None => {
            &&& r.logic_elements is None
            &&& r.block_ram_bits is None
            &&& r.dsp_blocks is None
            &&& r.max_frequency_mhz is None
        },
    }
}

pub open spec fn intel_record(r: FPGAInfo, device_id: u32) -> bool {
    &&& r.vendor is Intel
    &&& pcie_record(r, "0x1172"@, device_id)
    &&& part_figures(r, intel_part(device_id))
    &&& intel_part(device_id) is None ==> (r.family matches FPGAFamily::Unknown(s) && s@
        == "Intel Device "@ + hex4(device_id)) && r.model@ == "Intel FPGA Device "@ + hex4(
        device_id,
    )
    &&& pair_views(r.ml_capabilities@) == seq![
        ("openCL_support"@, "true"@),
        ("oneAPI_support"@, "true"@),
        ("dsp_optimization"@, "true"@),
    ]
    &&& string_views(r.development_tools@) == seq![
        "Intel Quartus Prime"@,
        "Intel OpenCL SDK"@,
        "Intel oneAPI"@,
    ]
}

pub open spec fn xilinx_record(r: FPGAInfo, device_id: u32) -> bool {
    &&& r.vendor is Xilinx
    &&& pcie_record(r, "0x10EE"@, device_id)
    &&& part_figures(r, xilinx_part(device_id))
    &&& xilinx_part(device_id) is None ==> (r.family matches FPGAFamily::Unknown(s) && s@
        == "Xilinx Device "@ + hex4(device_id)) && r.model@ == "Xilinx FPGA Device "@ + hex4(
        device_id,
    )
    &&& pair_views(r.ml_capabilities@) == seq![
        ("vitis_ai_support"@, "true"@),
        ("dpu_acceleration"@, "true"@),
        ("hls_support"@, "true"@),
    ]
    &&& string_views(r.development_tools@) == seq![
        "Xilinx Vivado"@,
        "Xilinx Vitis"@,
        "Xilinx Vitis AI"@,
    ]
}

pub open spec fn microsemi_record(r: FPGAInfo, device_id: u32) -> bool {
    &&& r.vendor is Microsemi
    &&& r.family == FPGAFamily::MicrosemiPolarFire
    &&& r.model@ == "Microsemi Device "@ + hex4(device_id)
    &&& pcie_record(r, "0x11F8"@, device_id)
    &&& part_figures(r, None)
    &&& pair_views(r.ml_capabilities@) == seq![("low_power_inference"@, "true"@)]
    &&& string_views(r.development_tools@) == seq!["Libero SoC"@]
}

pub open spec fn lattice_record(r: FPGAInfo, device_id: u32) -> bool {
    &&& r.vendor is Lattice
    &&& r.family == FPGAFamily::LatticeECP5
    &&& r.model@ == "Lattice Device "@ + hex4(device_id)
    &&& pcie_record(r, "0x1204"@, device_id)
    &&& part_figures(r, None)
    &&& pair_views(r.ml_capabilities@) == seq![("edge_ai_inference"@, "true"@), ("low_power"@, "true"@)]
    &&& string_views(r.development_tools@) == seq!["Lattice Diamond"@, "Lattice Radiant"@]
}

pub open spec fn generic_record(r: FPGAInfo, vendor_id: u32, device_id: u32) -> bool {
    &&& r.vendor matches FPGAVendor::Unknown(s) && s@ == hex4(vendor_id)
    &&& r.family matches FPGAFamily::Unknown(s) && s@ == "Unknown"@
    &&& r.model@ == "FPGA Device "@ + hex4(vendor_id) + ":"@ + hex4(device_id)
    &&& pcie_record(r, hex4(vendor_id), device_id)
    &&& part_figures(r, None)
    &&& r.ml_capabilities@.len() == 0
    &&& r.development_tools@.len() == 0
}

/// The record for a device of a known FPGA vendor: Intel (0x1172), Xilinx (0x10EE),
/// Microsemi (0x11F8) or Lattice (0x1204).
pub open spec fn known_vendor_record(r: FPGAInfo, vendor_id: u32, device_id: u32) -> bool {
    if vendor_id == 0x1172 {
        intel_record(r, device_id)
    } else if vendor_id == 0x10EE {
        xilinx_record(r, device_id)
    } else if vendor_id == 0x11F8 {
        microsemi_record(r, device_id)
    } else {
        lattice_record(r, device_id)
    }
}

pub open spec fn is_fpga_vendor(vendor_id: u32) -> bool {
    vendor_id == 0x1172 || vendor_id == 0x10EE || vendor_id == 0x11F8 || vendor_id == 0x1204
}

/// The value of a sysfs hex file: trimmed, leading "0x"s taken off, read as a base-16
/// 32-bit number.
pub open spec fn hex_file_value(content: Seq<char>) -> Option<u32> {
    match parse_hex(strip_prefixes(trim(content), "0x"@), u32::MAX as nat) {
        Some(x) => Some(x as u32),
        None => None,
    }
}

fn hex4_string(prefix: &str, n: u32) -> (r: String)
    ensures
        r@ == prefix@ + hex4(n),
{
    let mut s = owned(prefix);
    push_str(&mut s, "0x");
    push_hex_padded(&mut s, n as u64, 4);
    proof {
        assert(s@ =~= prefix@ + hex4(n));
    }
    s
}

impl FPGAInfo {
    /// The value of a sysfs `vendor`, `device` or `class` file.
    pub fn read_hex_value(content: &str) -> (r: Option<u32>)
        ensures
            r == hex_file_value(content@),
    {
        let raw = chars_of(content);
        let t = trim_chars(raw.as_slice());
        let digits = strip_prefixes_chars(t.as_slice(), chars_of("0x").as_slice());
        match parse_hex_chars(digits.as_slice(), u32::MAX as u64) {
            Some(x) => Some(x as u32),
            None => None,
        }
    }

    /// The record for an Intel (formerly Altera) FPGA with this PCI device ID.
    pub fn create_intel_fpga_info(device_id: u32) -> (r: FPGAInfo)
        ensures
            intel_record(r, device_id),
    {
        let known: Option<(FPGAFamily, &'static str, u64, u64, u32, u32)> = 
        if device_id == 0x09C4 {
            Some((FPGAFamily::IntelArria10, "Arria 10 GX", 1150000, 53248000, 1518, 800))
        } else if device_id == 0x09C5 {
            Some((FPGAFamily::IntelArria10, "Arria 10 GT", 1150000, 65536000, 1518, 800))
        } else if device_id == 0x1D1C {
            Some((FPGAFamily::IntelStratix10, "Stratix 10 GX", 2753000, 229376000, 5760, 1000))
        } else if device_id == 0x1D1D {
            Some((FPGAFamily::IntelStratix10, "Stratix 10 TX", 2753000, 229376000, 5760, 1000))
        } else if device_id == 0x4350 {
            Some((FPGAFamily::IntelAgilex, "Agilex F-Series", 2700000, 270000000, 5760, 1100))
        } else {
            None
        };
        proof {
            reveal_strlit("Arria 10 GX");
            reveal_strlit("Arria 10 GT");
            reveal_strlit("Stratix 10 GX");
            reveal_strlit("Stratix 10 TX");
            reveal_strlit("Agilex F-Series");
        }
        let (family, model, logic, bram, dsp, mhz) = match known {
            Some((f, m, a, b, c, d)) => (f, owned(m), Some(a), Some(b), Some(c), Some(d)),
            None => (
                FPGAFamily::Unknown(hex4_string("Intel Device ", device_id)),
                hex4_string("Intel FPGA Device ", device_id),
                None,
                None,
                None,
                None,
            ),
        };
        let caps = string_pairs(
            &[("openCL_support", "true"), ("oneAPI_support", "true"), ("dsp_optimization", "true")],
        );
        let tools = strings(&["Intel Quartus Prime", "Intel OpenCL SDK", "Intel oneAPI"]);
        let r = FPGAInfo {
            vendor: FPGAVendor::Intel,
            family,
            model,
            device_id: Some(hex4_string("", device_id)),
            vendor_id: Some(owned("0x1172")),
            interface: FPGAInterface::PCIe,
            logic_elements: logic,
            block_ram_bits: bram,
            dsp_blocks: dsp,
            max_frequency_mhz: mhz,
            ml_capabilities: caps,
            development_tools: tools,
            current_config: None,
            driver_version: None,
            power_tenths_watt: None,
            temperature_tenths_celsius: None,
        };
        proof {
            assert(pair_views(r.ml_capabilities@) =~= seq![
                ("openCL_support"@, "true"@),
                ("oneAPI_support"@, "true"@),
                ("dsp_optimization"@, "true"@),
            ]);
            assert(string_views(r.development_tools@) =~= seq![
                "Intel Quartus Prime"@,
                "Intel OpenCL SDK"@,
                "Intel oneAPI"@,
            ]);
            reveal_strlit("");
            assert(""@ + hex4(device_id) =~= hex4(device_id));
        }
        r
    }

    /// The record for a Xilinx FPGA with this PCI device ID.
    pub fn create_xilinx_fpga_info(device_id: u32) -> (r: FPGAInfo)
        ensures
            xilinx_record(r, device_id),
    {
        let known: Option<(FPGAFamily, &'static str, u64, u64, u32, u32)> = 
        if device_id == 0x7028 {
            Some((FPGAFamily::XilinxKintex7, "Kintex-7 K325T", 326080, 16020000, 840, 464))
        } else if device_id == 0x7034 {
            Some((FPGAFamily::XilinxVirtex7, "Virtex-7 V485T", 485760, 37080000, 2800, 600))
        } else if device_id == 0x7020 {
            Some((FPGAFamily::XilinxZynq7000, "Zynq-7000 Z020", 85000, 4900000, 220, 766))
        } else if device_id == 0x9038 {
            Some((FPGAFamily::XilinxZynqUltraScale, "Zynq UltraScale+ ZU19EG", 1143000, 75900000, 1968, 850))
        } else if device_id == 0x906C {
            Some((FPGAFamily::XilinxKintexUltraScale, "Kintex UltraScale+ KU15P", 1451000, 75900000, 1968, 925))
        } else if device_id == 0x9058 {
            Some((FPGAFamily::XilinxVirtexUltraScale, "Virtex UltraScale+ VU19P", 8938000, 270000000, 12288, 750))
        } else if device_id == 0x5008 {
            Some((FPGAFamily::XilinxVersal, "Versal Prime VP1202", 899000, 57600000, 1968, 1300))
        } else {
            None
        };
        proof {
            reveal_strlit("Kintex-7 K325T");
            reveal_strlit("Virtex-7 V485T");
            reveal_strlit("Zynq-7000 Z020");
            reveal_strlit("Zynq UltraScale+ ZU19EG");
            reveal_strlit("Kintex UltraScale+ KU15P");
            reveal_strlit("Virtex UltraScale+ VU19P");
            reveal_strlit("Versal Prime VP1202");
        }
        let (family, model, logic, bram, dsp, mhz) = match known {
            Some((f, m, a, b, c, d)) => (f, owned(m), Some(a), Some(b), Some(c), Some(d)),
            None => (
                FPGAFamily::Unknown(hex4_string("Xilinx Device ", device_id)),
                hex4_string("Xilinx FPGA Device ", device_id),
                None,
                None,
                None,
                None,
            ),
        };
        let caps = string_pairs(
            &[("vitis_ai_support", "true"), ("dpu_acceleration", "true"), ("hls_support", "true")],
        );
        let tools = strings(&["Xilinx Vivado", "Xilinx Vitis", "Xilinx Vitis AI"]);
        let r = FPGAInfo {
            vendor: FPGAVendor::Xilinx,
            family,
            model,
            device_id: Some(hex4_string("", device_id)),
            vendor_id: Some(owned("0x10EE")),
            interface: FPGAInterface::PCIe,
            logic_elements: logic,
            block_ram_bits: bram,
            dsp_blocks: dsp,
            max_frequency_mhz: mhz,
            ml_capabilities: caps,
            development_tools: tools,
            current_config: None,
            driver_version: None,
            power_tenths_watt: None,
            temperature_tenths_celsius: None,
        };
        proof {
            assert(pair_views(r.ml_capabilities@) =~= seq![
                ("vitis_ai_support"@, "true"@),
                ("dpu_acceleration"@, "true"@),
                ("hls_support"@, "true"@),
            ]);
            assert(string_views(r.development_tools@) =~= seq![
                "Xilinx Vivado"@,
                "Xilinx Vitis"@,
                "Xilinx Vitis AI"@,
            ]);
            reveal_strlit("");
            assert(""@ + hex4(device_id) =~= hex4(device_id));
        }
        r
    }

    /// The record for a Microsemi FPGA with this PCI device ID.
    pub fn create_microsemi_fpga_info(device_id: u32) -> (r: FPGAInfo)
        ensures
            microsemi_record(r, device_id),
    {
        let caps = string_pairs(&[("low_power_inference", "true")]);
        let tools = strings(&["Libero SoC"]);
        let r = FPGAInfo {
            vendor: FPGAVendor::Microsemi,
            family: FPGAFamily::MicrosemiPolarFire,
            model: hex4_string("Microsemi Device ", device_id),
            device_id: Some(hex4_string("", device_id)),
            vendor_id: Some(owned("0x11F8")),
            interface: FPGAInterface::PCIe,
            logic_elements: None,
            block_ram_bits: None,
            dsp_blocks: None,
            max_frequency_mhz: None,
            ml_capabilities: caps,
            development_tools: tools,
            current_config: None,
            driver_version: None,
            power_tenths_watt: None,
            temperature_tenths_celsius: None,
        };
        proof {
            assert(pair_views(r.ml_capabilities@) =~= seq![("low_power_inference"@, "true"@)]);
            assert(string_views(r.development_tools@) =~= seq!["Libero SoC"@]);
            reveal_strlit("");
            assert(""@ + hex4(device_id) =~= hex4(device_id));
        }
        r
    }

    /// The record for a Lattice FPGA with this PCI device ID.
    pub fn create_lattice_fpga_info(device_id: u32) -> (r: FPGAInfo)
        ensures
            lattice_record(r, device_id),
    {
        let caps = string_pairs(&[("edge_ai_inference", "true"), ("low_power", "true")]);
        let tools = strings(&["Lattice Diamond", "Lattice Radiant"]);
        let r = FPGAInfo {
            vendor: FPGAVendor::Lattice,
            family: FPGAFamily::LatticeECP5,
            model: hex4_string("Lattice Device ", device_id),
            device_id: Some(hex4_string("", device_id)),
            vendor_id: Some(owned("0x1204")),
            interface: FPGAInterface::PCIe,
            logic_elements: None,
            block_ram_bits: None,
            dsp_blocks: None,
            max_frequency_mhz: None,
            ml_capabilities: caps,
            development_tools: tools,
            current_config: None,
            driver_version: None,
            power_tenths_watt: None,
            temperature_tenths_celsius: None,
        };
        proof {
            assert(pair_views(r.ml_capabilities@) =~= seq![
                ("edge_ai_inference"@, "true"@),
                ("low_power"@, "true"@),
            ]);
            assert(string_views(r.development_tools@) =~= seq![
                "Lattice Diamond"@,
                "Lattice Radiant"@,
            ]);
            reveal_strlit("");
            assert(""@ + hex4(device_id) =~= hex4(device_id));
        }
        r
    }

    /// The record for an FPGA-class device of any other vendor.
    pub fn create_generic_fpga_info(vendor_id: u32, device_id: u32) -> (r: FPGAInfo)
        ensures
            generic_record(r, vendor_id, device_id),
    {
        let mut model = hex4_string("FPGA Device ", vendor_id);
        push_str(&mut model, ":");
        let tail = hex4_string("", device_id);
        push_str(&mut model, tail.as_str());
        let r = FPGAInfo {
            vendor: FPGAVendor::Unknown(hex4_string("", vendor_id)),
            family: FPGAFamily::Unknown(owned("Unknown")),
            model,
            device_id: Some(hex4_string("", device_id)),
            vendor_id: Some(hex4_string("", vendor_id)),
            interface: FPGAInterface::PCIe,
            logic_elements: None,
            block_ram_bits: None,
            dsp_blocks: None,
            max_frequency_mhz: None,
            ml_capabilities: Vec::new(),
            development_tools: Vec::new(),
            current_config: None,
            driver_version: None,
            power_tenths_watt: None,
            temperature_tenths_celsius: None,
        };
        proof {
            reveal_strlit("");
            assert(""@ + hex4(device_id) =~= hex4(device_id));
            assert(""@ + hex4(vendor_id) =~= hex4(vendor_id));
        }
        r
    }

    /// The record for a device of a known FPGA vendor, or `None`.
    pub fn identify_fpga_by_ids(vendor_id: u32, device_id: u32) -> (r: Option<FPGAInfo>)
        ensures
            match r {
                Some(f) => is_fpga_vendor(vendor_id) && known_vendor_record(f, vendor_id, device_id),
                None => !is_fpga_vendor(vendor_id),
            },
    {
        if vendor_id == 0x1172 {
            Some(Self::create_intel_fpga_info(device_id))
        } else if vendor_id == 0x10EE {
            Some(Self::create_xilinx_fpga_info(device_id))
        } else if vendor_id == 0x11F8 {
            Some(Self::create_microsemi_fpga_info(device_id))
        } else if vendor_id == 0x1204 {
            Some(Self::create_lattice_fpga_info(device_id))
        } else {
            None
        }
    }

    /// Whether a PCI device is an FPGA, from its vendor and device codes (when they could
    /// be read) and its class code: a known FPGA vendor, else class 0x120000 or 0x058000.
    pub fn check_pci_device(vendor: Option<u32>, device: Option<u32>, class: Option<u32>) -> (r:
        Option<FPGAInfo>)
        ensures
            match (vendor, device) {
                (Some(v), Some(d)) => if is_fpga_vendor(v) {
                    r matches Some(f) && known_vendor_record(f, v, d)
                } else if class == Some(0x120000u32) || class == Some(0x058000u32) {
                    r matches Some(f) && generic_record(f, v, d)
                } else {
                    r is None
                },
                _ => r is None,
            },
    {
        match (vendor, device) {
            (Some(v), Some(d)) => {
                match Self::identify_fpga_by_ids(v, d) {
                    Some(f) => Some(f),
                    None => {
                        match class {
                            Some(c) => {
                                if c == 0x120000 || c == 0x058000 {
                                    Some(Self::create_generic_fpga_info(v, d))
                                } else {
                                    None
                                }
                            },
                            None => None,
                        }
                    },
                }
            },
            _ => None,
        }
    }

    /// The AI frameworks the FPGA's vendor supports.
    pub fn get_ai_framework_support(&self) -> (r: Vec<String>)
        ensures
            string_views(r@) == (match self.vendor {
                FPGAVendor::Intel => seq!["Intel OpenVINO"@, "Intel oneAPI"@, "OpenCL"@],
                FPGAVendor::Xilinx => seq![
                    "Xilinx Vitis AI"@,
                    "TensorFlow"@,
                    "PyTorch"@,
                    "ONNX"@,
                ],
                _ => seq!["Custom FPGA frameworks"@],
            }),
    {
        let r = match self.vendor {
            FPGAVendor::Intel => strings(&["Intel OpenVINO", "Intel oneAPI", "OpenCL"]),
            FPGAVendor::Xilinx => strings(&["Xilinx Vitis AI", "TensorFlow", "PyTorch", "ONNX"]),
            _ => strings(&["Custom FPGA frameworks"]),
        };
        proof {
            assert(string_views(r@) =~= (match self.vendor {
                FPGAVendor::Intel => seq!["Intel OpenVINO"@, "Intel oneAPI"@, "OpenCL"@],
                FPGAVendor::Xilinx => seq![
                    "Xilinx Vitis AI"@,
                    "TensorFlow"@,
                    "PyTorch"@,
                    "ONNX"@,
                ],
                _ => seq!["Custom FPGA frameworks"@],
            }));
        }
        r
    }
}

} // verus!
