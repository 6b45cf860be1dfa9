use humours_server::hwq::arm::{
    apple_silicon_board, board_model, cpuinfo_line_value, is_raspberry_pi_model,
    jetson_acceleration_features, jetson_gpu_from_nvidia_smi, jetson_ml_capabilities,
    jetson_model_name, memory_mb_from_meminfo, pi_model_extras, raspberry_pi_from_cpuinfo,
    ARMSystemType,
};
use humours_server::hwq::battery::BatteryStatus;
use humours_server::hwq::builder::{has_requested_component, query_summary_text, HardwareQueryBuilder};
use humours_server::hwq::cpu::{
    cache_kb_from_sysctl, extract_model_name, features_from_cpuinfo, features_from_flags, has_feature,
    macos_feature_checks, max_frequency_from_sysctl, parse_vendor, physical_cores_from_cpuinfo,
    physical_cores_from_sysctl, vulnerability_entry, CPUFeature, CPUVendor,
};
use humours_server::hwq::fpga::{FPGAFamily, FPGAInfo, FPGAVendor};
use humours_server::hwq::gpu::{
    classify_gpu_type, generic_gpu_vendor, memory_gb_tenths, memory_mb_for, GPUType, GPUVendor,
};
use humours_server::hwq::memory::MemoryType;
use humours_server::hwq::monitoring::{
    begin_monitoring, pass_event_kinds, MonitoringEventKind, MonitoringStats, ProbeOutcome, UpdateTimes,
};
use humours_server::hwq::npu::{NPUInfo, NPUVendor};
use humours_server::hwq::platform::{
    cache_entry, frequency_entries, memory_modules_from_dmidecode, LinuxCPUInfo, LinuxGPUInfo,
    LinuxMemoryInfo, MacOSCPUInfo, MacOSMemoryInfo, MacOSSystemInfo, WindowsMemoryInfo,
    WindowsMemoryModule,
};
use humours_server::hwq::power::{PowerState, ThrottlingRisk};
use humours_server::hwq::presets::{HardwarePresets, PerformanceLevel, QualityLevel};
use humours_server::hwq::simple::{
    cpu_ai_capable, gpu_ai_capable, performance_points, GpuSummary, HealthStatus, PowerStatus,
    SimpleCPU, SystemHealth, SystemSummary, TemperatureStatus,
};
use humours_server::hwq::storage::StorageType;
use humours_server::hwq::summary::{accelerator_count, accelerator_summary};
use humours_server::hwq::thermal::{CostCategory, ThermalStatus, ThrottlingSeverity};
use humours_server::hwq::tpu::{TPUArchitecture, TPUInfo};
use humours_server::hwq::virtualization::{
    environment_type_from, get_security_recommendations, version_marks_wsl, GPUPassthroughType,
    SecurityFeature, VirtualizationType,
};
use std::time::{Duration, SystemTime};

// ---------------------------------------------------------------------------
// Display names
// ---------------------------------------------------------------------------

#[test]
fn display_names_of_kinds() {
    assert_eq!(MemoryType::DDR4.label(), "DDR4");
    assert_eq!(MemoryType::Unknown("HBM".to_string()).label(), "HBM");
    assert_eq!(BatteryStatus::NotCharging.label(), "Not Charging");
    assert_eq!(StorageType::EMmc.label(), "eMMC");
    assert_eq!(StorageType::SD.label(), "SD Card");
    assert_eq!(ThrottlingSeverity::NoThrottling.label(), "None");
    assert_eq!(CostCategory::Medium.label(), "Medium cost");
    assert_eq!(ThermalStatus::Hot.label(), "Hot");
    assert_eq!(ThrottlingRisk::NoRisk.label(), "None");
    assert_eq!(PowerState::Custom("Quiet".to_string()).label(), "Custom: Quiet");
    assert_eq!(PowerState::BatteryOptimized.label(), "Battery Optimized");
    assert_eq!(PowerStatus::VeryHigh.label(), "Very High");
    assert_eq!(VirtualizationType::MacOSVirtualization.label(), "macOS Virtualization");
    assert_eq!(ARMSystemType::NVIDIAJetson.label(), "NVIDIA Jetson");
    assert_eq!(FPGAFamily::XilinxZynqUltraScale.label(), "Xilinx Zynq UltraScale+");
    assert_eq!(NPUVendor::Unknown("Acme".to_string()).label(), "Acme");
}

// ---------------------------------------------------------------------------
// CPU
// ---------------------------------------------------------------------------

#[test]
fn cpu_vendor_and_model_from_brand() {
    assert!(matches!(parse_vendor("Intel(R) Core(TM) i7-8700 CPU @ 3.20GHz"), CPUVendor::Intel));
    assert!(matches!(parse_vendor("AMD Ryzen 9 5950X"), CPUVendor::AMD));
    match parse_vendor("Loongson-3A5000") {
        CPUVendor::Unknown(n) => assert_eq!(n, "Loongson-3A5000"),
        _ => panic!("expected an unknown vendor"),
    }
    assert_eq!(extract_model_name("Intel(R) Core(TM) i7-8700 CPU @ 3.20GHz"), "Intel(R) Core(TM) i7-8700 CPU");
    assert_eq!(extract_model_name("  Apple M2 "), "Apple M2");
}

#[test]
fn cpu_features_from_proc_cpuinfo() {
    let text = "processor : 0\nflags : fpu sse sse2 avx2 aes unknownflag\ncore id : 0\n\nprocessor : 1\ncore id : 1\nprocessor : 2\ncore id : 1\n";
    let f = features_from_cpuinfo(text);
    assert!(has_feature(&f, "AVX2"));
    assert!(has_feature(&f, "sse2"));
    assert!(!has_feature(&f, "avx512"));
    assert_eq!(physical_cores_from_cpuinfo(text, 8), 2);
    assert_eq!(physical_cores_from_cpuinfo("processor : 0\n", 8), 4);
}

#[test]
fn vulnerability_lines_skip_mitigated_ones() {
    assert_eq!(vulnerability_entry("spectre_v1", "Vulnerable\n"), Some("spectre_v1: Vulnerable".to_string()));
    assert_eq!(vulnerability_entry("meltdown", "Not affected"), None);
    assert_eq!(vulnerability_entry("mds", "  Mitigation: Clear CPU buffers"), None);
}

#[test]
fn macos_sysctl_values_with_fallbacks() {
    assert_eq!(physical_cores_from_sysctl(Some("10\n"), 20), 10);
    assert_eq!(physical_cores_from_sysctl(Some("x"), 20), 10);
    assert_eq!(physical_cores_from_sysctl(None, 7), 3);
    assert_eq!(max_frequency_from_sysctl(Some("3200000000")), 3200);
    assert_eq!(max_frequency_from_sysctl(None), 3000);
    assert_eq!(cache_kb_from_sysctl(Some("65536\n"), 32), 64);
    assert_eq!(cache_kb_from_sysctl(Some(""), 256), 256);
    let checks = macos_feature_checks();
    assert_eq!(checks.len(), 8);
    assert_eq!(checks[5].0, "hw.optional.avx1_0");
    let f = features_from_flags(vec![
        (CPUFeature::SSE, Some("1\n".to_string())),
        (CPUFeature::AVX, Some("0".to_string())),
        (CPUFeature::AES, None),
        (CPUFeature::AVX2, Some(" 1 ".to_string())),
    ]);
    assert_eq!(f.len(), 2);
    assert!(matches!(f[0], CPUFeature::SSE));
    assert!(matches!(f[1], CPUFeature::AVX2));
}

#[test]
fn linux_cpuinfo_fields() {
    let text = "vendor_id\t: GenuineIntel\ncpu family\t: 6\nmodel\t\t: 158\nmodel name\t: Intel(R) Core(TM) i7\nstepping\t: 10\nmicrocode\t: 0xf4\ncache size\t: 12288 KB\nphysical id\t: 0\ncore id\t\t: 0\ncore id\t\t: 3\ncpu cores\t: 6\nsiblings\t: 12\nflags\t\t: fpu vme sse\nclflush size\t: 64\naddress sizes\t: 39 bits physical\n";
    let info = LinuxCPUInfo::from_cpuinfo(text, vec!["spectre_v2: Vulnerable".to_string()]);
    assert_eq!(info.vendor_id, "GenuineIntel");
    assert_eq!(info.model_name, "Intel(R) Core(TM) i7");
    assert_eq!(info.cpu_family, Some(6));
    assert_eq!(info.model, Some(158));
    assert_eq!(info.stepping, Some(10));
    assert_eq!(info.microcode, Some("0xf4".to_string()));
    assert_eq!(info.cache_size, 12288);
    assert_eq!(info.core_id, vec![0, 3]);
    assert_eq!(info.physical_id, vec![0]);
    assert_eq!(info.cpu_cores, 6);
    assert_eq!(info.siblings, 12);
    assert_eq!(info.flags, vec!["fpu".to_string(), "vme".to_string(), "sse".to_string()]);
    assert_eq!(info.clflush_size, Some(64));
    assert_eq!(info.cache_alignment, None);
    assert_eq!(info.address_sizes, Some("39 bits physical".to_string()));
    assert_eq!(info.vulnerabilities, vec!["spectre_v2: Vulnerable".to_string()]);
}

#[test]
fn cache_and_frequency_entries() {
    assert_eq!(cache_entry(1, "data", "Data\n", "32K\n"), None);
    assert_eq!(cache_entry(2, "data", "Unified\n", "256K\n"), Some(("L2 data".to_string(), 256)));
    assert_eq!(cache_entry(1, "data", "data", "48K"), Some(("L1 data".to_string(), 48)));
    assert_eq!(cache_entry(1, "data", "data", "big"), None);
    let f = frequency_entries(Some("800000\n"), None, Some("oops"));
    assert_eq!(f, vec![("min_frequency_khz".to_string(), 800000)]);
}

// ---------------------------------------------------------------------------
// GPU
// ---------------------------------------------------------------------------

#[test]
fn gpu_classification_by_name() {
    assert!(matches!(classify_gpu_type("NVIDIA A100-SXM4-40GB", &GPUVendor::NVIDIA, 0), GPUType::Datacenter));
    assert!(matches!(classify_gpu_type("Quadro RTX 5000", &GPUVendor::NVIDIA, 0), GPUType::Workstation));
    assert!(matches!(classify_gpu_type("Intel(R) UHD Graphics 630", &GPUVendor::Intel, 1 << 30), GPUType::Integrated));
    assert!(matches!(classify_gpu_type("GeForce RTX 3080", &GPUVendor::NVIDIA, 0), GPUType::Discrete));
    assert!(matches!(generic_gpu_vendor("Radeon RX 6800", "PCI\\VEN_1002&DEV_73BF"), GPUVendor::AMD));
    assert!(matches!(generic_gpu_vendor("Basic Display", "PCI\\VEN_10DE&DEV_1"), GPUVendor::NVIDIA));
    match generic_gpu_vendor("Basic Display", "ROOT\\DISPLAY") {
        GPUVendor::Unknown(n) => assert_eq!(n, "Generic"),
        _ => panic!("expected a generic vendor"),
    }
    assert_eq!(memory_mb_for(8 * 1024 * 1024 * 1024, &GPUVendor::NVIDIA, GPUType::Discrete), 8192);
    assert_eq!(memory_mb_for(0, &GPUVendor::NVIDIA, GPUType::Datacenter), 32768);
    assert_eq!(memory_mb_for(0, &GPUVendor::Intel, GPUType::Integrated), 512);
    assert_eq!(memory_mb_for(0, &GPUVendor::Intel, GPUType::Discrete), 4096);
    assert_eq!(memory_gb_tenths(8192), 80);
    assert_eq!(memory_gb_tenths(8140), 79);
    assert_eq!(memory_gb_tenths(8141), 80);
}

#[test]
fn nvidia_smi_report_lists_gpus() {
    let out = "NVIDIA GeForce RTX 3080, 535.54, 10240, 00000000:01:00.0\nbroken line\nTesla T4 ,525.1,15360,00000000:3B:00.0\n";
    let gpus = LinuxGPUInfo::from_nvidia_smi(out);
    assert_eq!(gpus.len(), 2);
    assert_eq!(gpus[0].device_name, "NVIDIA GeForce RTX 3080");
    assert_eq!(gpus[0].vendor_name, "NVIDIA");
    assert_eq!(gpus[0].driver, "nvidia");
    assert_eq!(gpus[0].memory_info, Some("10240 MB".to_string()));
    assert_eq!(gpus[0].driver_version, Some("535.54".to_string()));
    assert_eq!(gpus[1].device_name, "Tesla T4");
    assert_eq!(gpus[1].pci_id, "00000000:3B:00.0");
}

// ---------------------------------------------------------------------------
// Memory reports
// ---------------------------------------------------------------------------

#[test]
fn meminfo_counters() {
    let text = "MemTotal:       16303228 kB\nMemFree:         1000 kB\nMemAvailable:   9000000 kB\nBuffers:  12 kB\nCached: x kB\nSwapTotal: 2097148 kB\nSwapFree: 2097148 kB\nMemFree: 2000 kB\n";
    let info = LinuxMemoryInfo::from_meminfo(text, Vec::new());
    assert_eq!(info.mem_total_kb, 16303228);
    assert_eq!(info.mem_free_kb, 2000);
    assert_eq!(info.mem_available_kb, 9000000);
    assert_eq!(info.buffers_kb, 12);
    assert_eq!(info.cached_kb, 0);
    assert_eq!(info.swap_total_kb, 2097148);
    assert!(info.modules.is_empty());
}

#[test]
fn dmidecode_memory_modules() {
    let text = "Handle 0x0040\nSize: 4096 MB\nMemory Device\n\tSize: 8 GB\n\tLocator: DIMM 0\n\tBank Locator: BANK 0\n\tType: DDR4\n\tSpeed: 3200 MT/s\nMemory Device\n\tSize: No Module Installed\n\tLocator: DIMM 1\nMemory Device\n\tSize: 16384 MB\n\tSpeed: 2666 MHz\n\tType: DDR4\n\tLocator: DIMM 2\n";
    let modules = memory_modules_from_dmidecode(text).unwrap();
    assert_eq!(modules.len(), 2);
    assert_eq!(modules[0].size_mb, 8192);
    assert_eq!(modules[0].locator, "DIMM 0");
    assert_eq!(modules[0].memory_type, "DDR4");
    assert_eq!(modules[0].speed_mhz, None);
    assert_eq!(modules[1].size_mb, 16384);
    assert_eq!(modules[1].speed_mhz, Some(2666));
    assert_eq!(modules[1].locator, "DIMM 2");
}

#[test]
fn dmidecode_size_too_large_is_refused() {
    let text = "Memory Device\n\tSize: 18446744073709551615 GB\n";
    assert!(memory_modules_from_dmidecode(text).is_none());
    assert_eq!(memory_modules_from_dmidecode("").unwrap().len(), 0);
}

#[test]
fn windows_memory_from_wmi_values() {
    assert_eq!(WindowsMemoryInfo::parse_memory_type(26), "DDR4");
    assert_eq!(WindowsMemoryInfo::parse_memory_type(22), "DDR2 FB-DIMM");
    assert_eq!(WindowsMemoryInfo::parse_memory_type(0), "Unknown (0)");
    assert_eq!(WindowsMemoryInfo::parse_memory_type(99), "Unknown (99)");
    let m = WindowsMemoryModule::from_wmi(Some(8 * 1024 * 1024 * 1024), Some(3200), Some(34), None, None, Some("BANK 0".to_string()), None);
    assert_eq!(m.capacity_mb, 8192);
    assert_eq!(m.speed_mhz, 3200);
    assert_eq!(m.memory_type, "DDR5");
    assert_eq!(m.bank_label, Some("BANK 0".to_string()));
    let w = WindowsMemoryInfo::from_wmi(Some(17_179_869_184), None, Some(1_048_575), Some(3 * 1_048_576), vec![m]);
    assert_eq!(w.total_physical_mb, 16384);
    assert_eq!(w.available_physical_mb, 0);
    assert_eq!(w.total_virtual_mb, 0);
    assert_eq!(w.available_virtual_mb, 3);
    assert_eq!(w.modules.len(), 1);
}

#[test]
fn macos_memory_from_reports() {
    let vm = "Mach Virtual Memory Statistics: (page size of 4096 bytes)\nPages free:                               10.\nPages active:                            100.\nPages inactive:                           50.\nPages wired down:                         20.\nPages occupied by compressor:              5.\n";
    let swap = "total = 2048.00M  used = 1024.00M  free = 1024.00M  (encrypted)";
    let m = MacOSMemoryInfo::from_reports(Some("17179869184\n"), Some(vm), Some(" The system has normal pressure \n"), Some(swap)).unwrap();
    assert_eq!(m.physical_memory, 17179869184);
    assert_eq!(m.user_memory, 150 * 4096);
    assert_eq!(m.wired_memory, 20 * 4096);
    assert_eq!(m.compressed_memory, 5 * 4096);
    assert_eq!(m.memory_pressure, "The system has normal pressure");
    // "1024.00" is not an integer, so the swap in use is not read.
    assert_eq!(m.swap_usage, 0);
    let m2 = MacOSMemoryInfo::from_reports(None, None, None, Some("used = 3M")).unwrap();
    assert_eq!(m2.swap_usage, 3 * 1024 * 1024);
    assert_eq!(m2.physical_memory, 0);
    assert!(MacOSMemoryInfo::from_reports(None, Some("Pages active: 18446744073709551615."), None, None).is_none());
}

#[test]
fn macos_cpu_from_sysctl() {
    let mut c = MacOSCPUInfo::new();
    let keys = MacOSCPUInfo::sysctl_keys();
    assert_eq!(keys.len(), 14);
    c.set_sysctl_value("machdep.cpu.brand_string", "Apple M1 Pro\n");
    c.set_sysctl_value("hw.physicalcpu", "8\n");
    c.set_sysctl_value("hw.logicalcpu", "ten");
    c.set_sysctl_value("hw.l2cachesize", "4194304");
    c.set_sysctl_value("hw.unknown", "42");
    c.add_features("FPU VME  DE\n");
    c.add_features("AVX2");
    assert_eq!(c.brand_string, "Apple M1 Pro");
    assert_eq!(c.physical_cpu, 8);
    assert_eq!(c.logical_cpu, 0);
    assert_eq!(c.l2_cache_size, 4194304);
    assert_eq!(c.features, vec!["FPU", "VME", "DE", "AVX2"]);
    assert_eq!(MacOSCPUInfo::feature_sysctl_keys().len(), 3);
}

#[test]
fn sw_vers_report() {
    let out = "ProductName:\tmacOS\nProductVersion:\t14.2.1\nBuildVersion:\t23C71\n";
    let v = MacOSSystemInfo::system_version_from(out);
    assert_eq!(v, vec![
        ("product_name".to_string(), "macOS".to_string()),
        ("product_version".to_string(), "14.2.1".to_string()),
        ("build_version".to_string(), "23C71".to_string()),
    ]);
    assert_eq!(MacOSSystemInfo::system_version_from("BuildVersion: 1\n"), vec![("build_version".to_string(), "1".to_string())]);
    assert_eq!(MacOSSystemInfo::hardware_model_from(" MacBookPro18,3\n"), "MacBookPro18,3");
}

// ---------------------------------------------------------------------------
// Accelerators
// ---------------------------------------------------------------------------

#[test]
fn fpga_identified_by_pci_ids() {
    let f = FPGAInfo::identify_fpga_by_ids(0x10EE, 0x7028).unwrap();
    assert!(matches!(f.vendor, FPGAVendor::Xilinx));
    assert!(matches!(f.family, FPGAFamily::XilinxKintex7));
    assert_eq!(f.model, "Kintex-7 K325T");
    assert_eq!(f.device_id, Some("0x7028".to_string()));
    assert_eq!(f.vendor_id, Some("0x10EE".to_string()));
    assert_eq!(f.logic_elements, Some(326080));
    assert_eq!(f.dsp_blocks, Some(840));
    assert_eq!(f.development_tools, vec!["Xilinx Vivado", "Xilinx Vitis", "Xilinx Vitis AI"]);
    let unknown = FPGAInfo::identify_fpga_by_ids(0x1172, 0xabc).unwrap();
    assert_eq!(unknown.model, "Intel FPGA Device 0x0ABC");
    match &unknown.family {
        FPGAFamily::Unknown(n) => assert_eq!(n, "Intel Device 0x0ABC"),
        _ => panic!("expected an unknown family"),
    }
    assert_eq!(unknown.logic_elements, None);
    assert!(FPGAInfo::identify_fpga_by_ids(0x8086, 1).is_none());
    let lattice = FPGAInfo::identify_fpga_by_ids(0x1204, 0x1).unwrap();
    assert_eq!(lattice.model, "Lattice Device 0x0001");
}

#[test]
fn fpga_class_codes_and_hex_files() {
    assert_eq!(FPGAInfo::read_hex_value("0x10ee\n"), Some(0x10EE));
    assert_eq!(FPGAInfo::read_hex_value("0x0x1a"), Some(0x1A));
    assert_eq!(FPGAInfo::read_hex_value("zz"), None);
    assert_eq!(FPGAInfo::read_hex_value("0x"), None);
    assert_eq!(FPGAInfo::read_hex_value("0x1ffffffff"), None);
    let g = FPGAInfo::check_pci_device(Some(0x1d0f), Some(0xf010), Some(0x120000)).unwrap();
    assert_eq!(g.model, "FPGA Device 0x1D0F:0xF010");
    match &g.vendor {
        FPGAVendor::Unknown(n) => assert_eq!(n, "0x1D0F"),
        _ => panic!("expected an unknown vendor"),
    }
    assert!(FPGAInfo::check_pci_device(Some(0x1d0f), Some(0xf010), Some(0x030000)).is_none());
    assert!(FPGAInfo::check_pci_device(None, Some(0xf010), Some(0x120000)).is_none());
    assert_eq!(g.get_ai_framework_support(), vec!["Custom FPGA frameworks"]);
}

#[test]
fn npu_sticks_and_neural_engine() {
    let out = "Bus 001 Device 004: ID 03e7:2485 Intel Movidius MyriadX\nBus 001 Device 002: ID 8087:0024 Intel Hub\nBus 002 Device 003: ID 03e7:f63b Myriad VPU\n";
    let sticks = NPUInfo::intel_sticks_from_lsusb(out, Some("2023.1".to_string()));
    assert_eq!(sticks.len(), 2);
    assert_eq!(sticks[0].model_name, "Intel Neural Compute Stick 2");
    assert_eq!(sticks[0].usb_device_id, Some("03e7:2485".to_string()));
    assert_eq!(sticks[0].driver_version, Some("2023.1".to_string()));
    assert_eq!(sticks[1].model_name, "Intel Neural Compute Stick");
    assert!(sticks[0].supports_framework("onnx"));
    assert!(!sticks[1].supports_framework("onnx"));
    let ane = NPUInfo::apple_neural_engine("Apple M3 Max").unwrap();
    assert_eq!(ane.model_name, "Apple Neural Engine (M3)");
    assert!(NPUInfo::apple_neural_engine("Intel Core i9").is_none());
    assert!(NPUInfo::intel_xdna_for("Intel(R) AI Boost NPU", None).is_some());
    assert!(NPUInfo::intel_xdna_for("Realtek Audio", None).is_none());
    assert_eq!(NPUInfo::intel_gna(None).clock_frequency, Some(400));
}

#[test]
fn tpu_detection() {
    let cloud = TPUInfo::google_cloud("node-v3-8", None);
    assert_eq!(cloud.model_name, "Google Cloud TPU (node-v3-8)");
    assert!(matches!(cloud.architecture, TPUArchitecture::GoogleTPUv3));
    assert!(matches!(TPUInfo::cloud_tpu_generation("my-tpu"), TPUArchitecture::GoogleTPUv4));
    assert!(cloud.supports_dtype("BFLOAT16"));
    assert!(!cloud.supports_dtype("bfloat"));
    let usb = TPUInfo::edge_tpus_from_lsusb("ID 18d1:9302 Google Inc.\nID 18d1:0001\n", None);
    assert_eq!(usb.len(), 1);
    assert_eq!(usb[0].device_id, Some("18d1:9302".to_string()));
    let pci = TPUInfo::edge_tpus_from_lspci("03:00.0 System peripheral: Global Unichip Corp. Coral Edge TPU\n04:00.0 Google Edge\n05:00.0 VGA\n", None);
    assert_eq!(pci.len(), 2);
    assert_eq!(pci[0].model_name, "Google Coral Edge TPU (PCIe)");
    let gaudi = TPUInfo::habana("0x1da3\n", "0x1020\n", None).unwrap();
    assert_eq!(gaudi.model_name, "Intel Habana Gaudi2");
    assert_eq!(gaudi.device_id, Some("0x1020".to_string()));
    assert!(TPUInfo::habana("0x10de", "0x1020", None).is_none());
    assert_eq!(TPUInfo::driver_version_from("2.15.0\n"), "TensorFlow 2.15.0");
}

#[test]
fn accelerator_counts() {
    assert_eq!(accelerator_count(1, 0, 2), 3);
    assert_eq!(accelerator_summary(1, 0, 2), vec![("NPUs".to_string(), 1), ("FPGAs".to_string(), 2)]);
    assert!(accelerator_summary(0, 0, 0).is_empty());
}

// ---------------------------------------------------------------------------
// ARM boards
// ---------------------------------------------------------------------------

#[test]
fn arm_board_detection() {
    assert!(is_raspberry_pi_model("Raspberry Pi 4 Model B Rev 1.4\0"));
    assert_eq!(board_model("Raspberry Pi 4 Model B\0\0"), "Raspberry Pi 4 Model B");
    let (feature, grade) = pi_model_extras("Raspberry Pi 5 Model B").unwrap();
    assert_eq!(feature, "VideoCore VII GPU");
    assert_eq!(grade, "High (ARM Cortex-A76)");
    assert!(pi_model_extras("Raspberry Pi 3").is_none());
    let cpuinfo = "Hardware\t: BCM2835\nRevision\t: c03114\nSerial\t\t: 10000000abcdef\nModel\t\t: Raspberry Pi 4 Model B Rev 1.4\n";
    assert_eq!(raspberry_pi_from_cpuinfo(cpuinfo), Some("Raspberry Pi 4 Model B Rev 1.4".to_string()));
    assert_eq!(cpuinfo_line_value(cpuinfo, "Revision"), Some("c03114".to_string()));
    assert_eq!(cpuinfo_line_value(cpuinfo, "Missing"), None);
    assert_eq!(raspberry_pi_from_cpuinfo("Model : x\n"), None);
    assert_eq!(memory_mb_from_meminfo("MemTotal:        8000000 kB\n"), Some(7812));
    assert_eq!(jetson_model_name("NVIDIA Jetson Xavier NX Developer Kit"), Some("NVIDIA Jetson Xavier NX".to_string()));
    assert_eq!(jetson_model_name("NVIDIA Jetson Orin Nano"), Some("NVIDIA Jetson Nano".to_string()));
    assert_eq!(jetson_model_name("tegra orin"), Some("NVIDIA Jetson AGX Orin".to_string()));
    assert_eq!(jetson_model_name("Raspberry Pi"), None);
    assert_eq!(jetson_acceleration_features("NVIDIA Jetson AGX Orin"), vec!["CUDA", "TensorRT", "Ampere GPU", "NVENC/NVDEC"]);
    assert_eq!(jetson_ml_capabilities("NVIDIA Jetson Xavier NX").len(), 5);
    assert_eq!(jetson_gpu_from_nvidia_smi(" GPU 0: Orin (nvgpu) Tegra \n"), Some("GPU 0: Orin (nvgpu) Tegra".to_string()));
    assert_eq!(apple_silicon_board(" Apple M1\n"), Some("Apple Silicon (Apple M1)".to_string()));
}

// ---------------------------------------------------------------------------
// Builder
// ---------------------------------------------------------------------------

#[test]
fn builder_requested_components_and_summary() {
    let b = HardwareQueryBuilder::new().with_cpu().with_memory();
    let names = b.requested_components();
    assert_eq!(names, vec!["CPU".to_string(), "Memory".to_string()]);
    assert!(has_requested_component(&names, "cpu"));
    assert!(!has_requested_component(&names, "gpu"));
    assert_eq!(query_summary_text(&names, 12), "Queried 2 components in 12ms: CPU, Memory");
    assert_eq!(HardwareQueryBuilder::new().with_all().requested_components().len(), 11);
}

// ---------------------------------------------------------------------------
// Overview, presets and virtualization
// ---------------------------------------------------------------------------

fn summary(cores: u32, memory_mb: u64, gpu: Option<(u64, bool)>, drive: &str) -> SystemSummary {
    SystemSummary {
        cpu: SimpleCPU { name: "cpu".to_string(), cores, threads: cores * 2, vendor: "Intel".to_string(), ai_capable: false },
        memory_mb,
        gpu: gpu.map(|(mb, ai)| GpuSummary { name: "gpu".to_string(), vendor: "NVIDIA".to_string(), memory_mb: mb, ai_capable: ai }),
        drive_type: drive.to_string(),
        health: SystemHealth::assess(TemperatureStatus::Normal, PowerStatus::Normal),
    }
}

#[test]
fn health_assessment() {
    let h = SystemHealth::assess(TemperatureStatus::Critical, PowerStatus::Low);
    assert!(matches!(h.status, HealthStatus::Critical));
    assert_eq!(h.warnings, vec!["High CPU/GPU temperatures detected".to_string()]);
    let h = SystemHealth::assess(TemperatureStatus::Hot, PowerStatus::VeryHigh);
    assert!(matches!(h.status, HealthStatus::Poor));
    let h = SystemHealth::assess(TemperatureStatus::Normal, PowerStatus::Low);
    assert!(matches!(h.status, HealthStatus::Excellent));
    assert!(h.warnings.is_empty());
    let h = SystemHealth::assess(TemperatureStatus::Warm, PowerStatus::Normal);
    assert!(matches!(h.status, HealthStatus::Good));
    let h = SystemHealth::assess(TemperatureStatus::Normal, PowerStatus::VeryHigh);
    assert!(matches!(h.status, HealthStatus::Fair));
}

#[test]
fn ai_score_and_advice() {
    let s = summary(8, 32768, Some((8192, true)), "NVMe");
    // 30 + 15 (GPU) + 10 (cores) + 25 (memory)
    assert_eq!(s.ai_score(), 80);
    assert!(s.is_ai_ready());
    assert!(s.get_recommendations().is_empty());
    let weak = summary(2, 4096, None, "HDD");
    assert_eq!(weak.ai_score(), 5);
    assert!(!weak.is_ai_ready());
    assert_eq!(weak.get_recommendations(), vec![
        "Consider upgrading to 16GB+ RAM for better performance".to_string(),
        "Add a dedicated GPU for AI/ML acceleration".to_string(),
        "Upgrade to SSD for faster data access".to_string(),
    ]);
    assert!(gpu_ai_capable(&GPUVendor::AMD, "Radeon RX 7900"));
    assert!(!gpu_ai_capable(&GPUVendor::Intel, "UHD Graphics"));
    assert!(cpu_ai_capable(&[CPUFeature::AVX2], 0));
    assert!(!cpu_ai_capable(&[CPUFeature::SSE], 0));
    assert!(cpu_ai_capable(&[], 1));
    assert_eq!(performance_points(16, 32768, Some(12288), Some(&StorageType::NVMe)), 100);
    assert_eq!(performance_points(2, 1024, None, None), 15);
}

#[test]
fn gaming_fps_estimates() {
    let s = summary(8, 16384, Some((8192, true)), "SSD");
    assert_eq!(HardwarePresets::gaming_fps_estimate(&s, "1080p", "Medium"), 120);
    assert_eq!(HardwarePresets::gaming_fps_estimate(&s, "1440p", "High"), 67);
    assert_eq!(HardwarePresets::gaming_fps_estimate(&s, "4K", "Ultra"), 28);
    assert_eq!(HardwarePresets::gaming_fps_estimate(&s, "8K", "Low"), 144);
    let none = summary(4, 8192, None, "SSD");
    assert_eq!(HardwarePresets::gaming_fps_estimate(&none, "4K", "Ultra"), 15);
    let small = summary(4, 8192, Some((2048, false)), "SSD");
    assert_eq!(HardwarePresets::gaming_fps_estimate(&small, "1080p", "Low"), 36);
}

#[test]
fn preset_scores_and_settings() {
    let s = summary(8, 16384, Some((12288, true)), "NVMe SSD");
    assert_eq!(HardwarePresets::calculate_gaming_score(&s), 60 + 25 + 12);
    assert_eq!(HardwarePresets::calculate_dev_score(&s), 35 + 25 + 25);
    assert_eq!(HardwarePresets::calculate_server_score(&s), 25 + 15 + 25);
    let settings = HardwarePresets::get_game_settings(&s);
    assert_eq!(settings.resolution, "4K");
    assert!(matches!(settings.quality_preset, QualityLevel::Ultra));
    assert!(settings.raytracing_support);
    assert_eq!(settings.target_fps, 60);
    let perf = HardwarePresets::estimate_ai_performance(&s);
    assert!(matches!(perf.training_capability, PerformanceLevel::Good));
    assert!(matches!(perf.inference_capability, PerformanceLevel::Excellent));
    let frameworks = HardwarePresets::assess_ai_frameworks(&s);
    assert_eq!(frameworks.len(), 3);
    assert_eq!(frameworks[2].name, "ONNX Runtime");
    let w = HardwarePresets::assess_server_workloads(&s);
    assert_eq!(w[0].max_concurrent_users, Some(800));
    assert_eq!(w[1].max_concurrent_users, Some(160));
    assert_eq!(w[2].suitability_score, 70);
    let v = HardwarePresets::assess_virtualization(&s);
    assert_eq!(v.max_recommended_vms, 2);
    assert!(v.nested_virtualization);
    assert_eq!(HardwarePresets::get_dev_tool_recommendations(&s).len(), 4);
    let hdd = summary(2, 4096, Some((2048, false)), "HDD");
    assert_eq!(HardwarePresets::identify_gaming_bottlenecks(&hdd).len(), 4);
    assert_eq!(HardwarePresets::get_gaming_upgrades(&hdd), vec![
        "Upgrade to GPU with 8GB+ VRAM for modern games".to_string(),
        "Upgrade to 16GB+ RAM".to_string(),
        "Upgrade to NVMe SSD for faster loading".to_string(),
    ]);
    assert!(matches!(HardwarePresets::thermal_stability(TemperatureStatus::Hot), QualityLevel::Low));
    assert!(matches!(HardwarePresets::power_stability(PowerStatus::Normal), QualityLevel::High));
}

#[test]
fn virtualization_environment_and_advice() {
    assert!(matches!(environment_type_from(false, true, true, false), VirtualizationType::Kubernetes));
    assert!(matches!(environment_type_from(false, false, false, false), VirtualizationType::Native));
    assert!(version_marks_wsl("Linux version 5.15.90.1-microsoft-standard-WSL2"));
    assert!(!version_marks_wsl("Linux version 6.1.0-debian"));
    assert!(VirtualizationType::Docker.is_containerized());
    assert!(VirtualizationType::WSL2.is_virtual_machine());
    assert!(!VirtualizationType::Native.is_virtualized());
    let advice = get_security_recommendations(&VirtualizationType::VirtualMachine, None, &[SecurityFeature::ASLR], true, &GPUPassthroughType::Full);
    assert_eq!(advice, vec![
        "Enable Secure Boot for enhanced security".to_string(),
        "GPU passthrough detected - ensure IOMMU isolation is properly configured".to_string(),
    ]);
    let none = get_security_recommendations(&VirtualizationType::VirtualMachine, None, &[SecurityFeature::SecureBoot], false, &GPUPassthroughType::Full);
    assert!(none.is_empty());
}

// ---------------------------------------------------------------------------
// Monitoring
// ---------------------------------------------------------------------------

#[test]
fn monitoring_bookkeeping() {
    let mut running = false;
    assert!(begin_monitoring(&mut running).is_ok());
    assert!(running);
    assert!(begin_monitoring(&mut running).is_err());
    let kinds = pass_event_kinds(ProbeOutcome::Failed, ProbeOutcome::Alerts(2), ProbeOutcome::Disabled);
    assert_eq!(kinds, vec![
        MonitoringEventKind::MonitoringError,
        MonitoringEventKind::ThermalAlert,
        MonitoringEventKind::ThermalAlert,
        MonitoringEventKind::MetricsUpdate,
    ]);
    let mut stats = MonitoringStats {
        total_events: 0,
        thermal_alerts: 0,
        power_alerts: 0,
        hardware_changes: 0,
        errors: 0,
        uptime: Duration::from_secs(0),
        last_update: SystemTime::UNIX_EPOCH,
        average_update_interval: Duration::from_secs(0),
    };
    let now = SystemTime::now();
    stats.record_events(&kinds, now);
    assert_eq!(stats.total_events, 4);
    assert_eq!(stats.thermal_alerts, 2);
    assert_eq!(stats.errors, 1);
    assert_eq!(stats.power_alerts, 0);
    assert_eq!(stats.last_update, now);
    let mut times = UpdateTimes::new();
    for i in 0..105u64 {
        times.record(Duration::from_millis(i));
    }
    assert_eq!(times.times.len(), 100);
    assert_eq!(times.times[0], Duration::from_millis(5));
    assert_eq!(times.times[99], Duration::from_millis(104));
}

#[test]
fn model_recommendations_follow_memory() {
    let r = HardwarePresets::get_model_recommendations(&summary(8, 16384, Some((8192, true)), "SSD"));
    assert_eq!(r.small_models.len(), 2);
    assert_eq!(r.small_models[0].name, "BERT-base");
    assert!(r.small_models[0].feasible);
    assert_eq!(r.small_models[1].memory_required_mb, 512);
    assert!(r.medium_models[0].feasible);
    assert!(matches!(r.medium_models[0].performance_estimate, PerformanceLevel::Good));
    assert!(!r.large_models[0].feasible);
    assert!(matches!(r.large_models[0].performance_estimate, PerformanceLevel::Inadequate));
    let r = HardwarePresets::get_model_recommendations(&summary(2, 1024, None, "HDD"));
    assert!(!r.small_models[0].feasible);
    assert!(r.small_models[1].feasible);
    assert!(matches!(r.medium_models[0].performance_estimate, PerformanceLevel::Poor));
}

#[test]
fn resource_allocation_by_memory() {
    assert_eq!(HardwarePresets::recommended_vm_count(&summary(16, 65536, None, "SSD")), 8);
    assert_eq!(HardwarePresets::recommended_vm_count(&summary(16, 32768, None, "SSD")), 4);
    assert_eq!(HardwarePresets::recommended_vm_count(&summary(16, 16384, None, "SSD")), 2);
    assert_eq!(HardwarePresets::cpu_cores_per_vm(&summary(16, 65536, None, "SSD")), 2);
    assert_eq!(HardwarePresets::cpu_cores_per_vm(&summary(5, 1024, None, "SSD")), 2);
}
