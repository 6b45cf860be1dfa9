use humours_server::hwq::builder::HardwareQueryBuilder;
use humours_server::hwq::network::NetworkInfo;
use humours_server::hwq::error::HardwareQueryError;
use humours_server::hwq::lists::push_window;
use humours_server::hwq::monitoring::average_nanos;
use humours_server::hwq::npu::NPUInfo;
use humours_server::hwq::tpu::TPUInfo;
use humours_server::hwq::fpga::FPGAInfo;
use humours_server::hwq::pci::{pci_id_from_sysfs, PCIDevice};
use humours_server::hwq::usb::USBDevice;
use std::time::SystemTime;

fn usb(version: &str, class: &str) -> USBDevice {
    USBDevice {
        vendor_id: "1234".to_string(),
        product_id: "5678".to_string(),
        vendor_name: "v".to_string(),
        product_name: "p".to_string(),
        device_class: class.to_string(),
        usb_version: version.to_string(),
        serial_number: None,
        bus_number: 1,
        device_address: 2,
        port_path: None,
        driver: None,
        connected: true,
    }
}

fn pci(class: &str) -> PCIDevice {
    PCIDevice {
        device_id: "8086:1234".to_string(),
        vendor_name: "Intel".to_string(),
        device_name: "d".to_string(),
        bus_location: "00:1f.6".to_string(),
        device_class: class.to_string(),
        subsystem_id: None,
        driver: None,
        revision: None,
        irq: None,
        memory_regions: Vec::new(),
    }
}

#[test]
fn usb_three_and_above_is_high_speed() {
    for v in ["3.0", "3.1", "3.2", "4.0", "USB 3.2"] {
        assert!(usb(v, "").is_high_speed(), "{v}");
    }
    for v in ["1.0", "1.1", "2.0", ""] {
        assert!(!usb(v, "").is_high_speed(), "{v}");
    }
}

#[test]
fn class_tests_ignore_ascii_case() {
    assert!(usb("2.0", "AUDIO").is_audio_device());
    assert!(usb("2.0", "audio").is_audio_device());
    assert!(!usb("2.0", "Video").is_audio_device());
    assert!(pci("ETHERNET CONTROLLER").is_network_device());
    assert!(pci("Network controller").is_network_device());
    assert!(!pci("VGA compatible controller").is_network_device());
}

#[test]
fn focused_presets_set_only_their_components() {
    let ai = HardwareQueryBuilder::new().with_ai_focused();
    assert!(ai.include_cpu && ai.include_gpu && ai.include_memory);
    assert!(!ai.include_thermal && !ai.include_virtualization && !ai.include_power && !ai.include_storage);
    let gaming = HardwareQueryBuilder::new().with_gaming_focused();
    assert!(gaming.include_cpu && gaming.include_gpu && gaming.include_memory && gaming.include_thermal);
    assert!(!gaming.include_storage && !gaming.include_network);
    let kept = HardwareQueryBuilder::new().with_usb().with_ai_focused();
    assert!(kept.include_usb);
}

#[test]
fn select_keeps_only_requested_components() {
    let b = HardwareQueryBuilder::new().with_cpu().with_storage().with_battery();
    let info = b.select(
        "cpu", vec!["gpu"], "mem", vec!["disk"], vec!["eth0"], Some("bat"), "therm", vec!["pci"],
        vec!["usb"], "native", Some("power"), SystemTime::now(), 7,
    );
    assert_eq!(info.cpu, Some("cpu"));
    assert!(info.gpus.is_empty());
    assert_eq!(info.memory, None);
    assert_eq!(info.storage_devices, vec!["disk"]);
    assert!(info.network_interfaces.is_empty());
    assert_eq!(info.battery, Some("bat"));
    assert_eq!(info.thermal, None);
    assert!(info.pci_devices.is_empty() && info.usb_devices.is_empty());
    assert_eq!(info.virtualization, None);
    assert_eq!(info.power_profile, None);
    assert_eq!(info.query_time_ms, 7);
    assert_eq!(info.requested_components, vec!["CPU", "Storage", "Battery"]);
    assert!(info.has_component("storage"));
    assert!(!info.has_component("gpu"));
    assert_eq!(info.component_count(), 3);
    assert_eq!(info.query_summary(), "Queried 3 components in 7ms: CPU, Storage, Battery");
}

#[test]
fn window_keeps_the_most_recent_items() {
    let mut v: Vec<u32> = Vec::new();
    for i in 0..12u32 {
        push_window(&mut v, i, 10);
    }
    assert_eq!(v, (2..12).collect::<Vec<u32>>());
}

#[test]
fn error_constructors_carry_their_message() {
    assert!(matches!(HardwareQueryError::thermal_error("hot".to_string()), HardwareQueryError::ThermalError(m) if m == "hot"));
    assert!(matches!(HardwareQueryError::invalid_configuration("x".to_string()), HardwareQueryError::InvalidConfiguration(m) if m == "x"));
    assert!(matches!(HardwareQueryError::gpu_driver_error("g".to_string()), HardwareQueryError::GPUDriverError(m) if m == "g"));
}

#[test]
fn average_interval_rounds_down_and_needs_a_sample() {
    assert_eq!(average_nanos(&[]), None);
    assert_eq!(average_nanos(&[10, 20, 35]), Some(21));
    assert_eq!(average_nanos(&[1_000_000_000]), Some(1_000_000_000));
}

#[test]
fn accelerator_figures_are_kept_in_tenths() {
    let gna = NPUInfo::intel_gna(None);
    assert_eq!(gna.tops_performance(), Some(10));
    assert_eq!(gna.power_tenths_watt, Some(5));
    let sticks = NPUInfo::intel_sticks_from_lsusb(
        "Bus 001 Device 002: ID 03e7:2485 Movidius\nBus 001 Device 003: ID 03e7:f63b Movidius",
        None,
    );
    assert_eq!(sticks[0].tops_performance(), Some(40));
    assert_eq!(sticks[1].tops_performance(), Some(1));
    let m3 = NPUInfo::apple_neural_engine("Apple M3 Pro").unwrap();
    assert_eq!(m3.tops_performance(), Some(180));
    assert_eq!(m3.temperature_tenths_celsius, None);

    let v3 = TPUInfo::google_cloud("node-v3-8", None);
    assert_eq!(v3.tops_performance(), Some(1230));
    assert_eq!(v3.memory_tenths_gb, Some(160));
    assert_eq!(v3.power_tenths_watt, Some(2000));
    let gaudi2 = TPUInfo::habana("0x1da3\n", "0x1020\n", None).unwrap();
    assert_eq!(gaudi2.tops_performance(), Some(8000));
    assert_eq!(gaudi2.bandwidth_tenths_gbps, Some(24000));
    let pcie = TPUInfo::edge_tpus_from_lspci("03:00.0 System peripheral: Global Unichip Corp. Coral Edge TPU", None);
    assert_eq!(pcie.len(), 1);
    assert_eq!(pcie[0].power_tenths_watt, Some(25));
    assert_eq!(pcie[0].bandwidth_tenths_gbps, Some(80));

    let xilinx = FPGAInfo::identify_fpga_by_ids(0x10EE, 0x7028).unwrap();
    assert_eq!(xilinx.power_tenths_watt, None);
}

fn iface(name: &str) -> NetworkInfo {
    NetworkInfo::from_counters(name, 0, 0, 0, 0, 0, 0)
}

#[test]
fn filters_keep_exactly_the_accepted_items_in_order() {
    let b = HardwareQueryBuilder::new()
        .with_network()
        .with_gpu()
        .with_storage()
        .filter_network(|n: &NetworkInfo| n.name.starts_with("eth"))
        .filter_gpus(|g: &&str| g.contains("RTX"))
        .filter_storage(|s: &&str| s.starts_with("nvme"));
    assert!(b.include_network && b.include_gpu && b.include_storage && !b.include_cpu);
    let info = b.select(
        "cpu",
        vec!["RTX 4090", "Arc A770", "RTX 3060"],
        "mem",
        vec!["sda", "nvme0n1", "nvme1n1"],
        vec![iface("eth0"), iface("wlan0"), iface("eth1"), iface("lo")],
        None::<&str>,
        "therm",
        Vec::<&str>::new(),
        Vec::<&str>::new(),
        "native",
        None::<&str>,
        SystemTime::now(),
        1,
    );
    let names: Vec<&str> = info.network_interfaces.iter().map(|n| n.name.as_str()).collect();
    assert_eq!(names, vec!["eth0", "eth1"]);
    assert_eq!(info.gpus, vec!["RTX 4090", "RTX 3060"]);
    assert_eq!(info.storage_devices, vec!["nvme0n1", "nvme1n1"]);
    assert_eq!(info.requested_components, vec!["GPU", "Storage", "Network"]);
}

#[test]
fn unfiltered_and_unrequested_kinds() {
    let unfiltered = HardwareQueryBuilder::new().with_network();
    let info = unfiltered.select(
        "cpu", vec!["gpu"], "mem", vec!["disk"], vec![iface("eth0"), iface("wlan0")], None::<&str>,
        "therm", Vec::<&str>::new(), Vec::<&str>::new(), "native", None::<&str>, SystemTime::now(), 0,
    );
    assert_eq!(info.network_interfaces.len(), 2);
    assert!(info.gpus.is_empty());
    let filtered_not_requested =
        HardwareQueryBuilder::new().filter_network(|_n: &NetworkInfo| true);
    let info = filtered_not_requested.select(
        "cpu", vec!["gpu"], "mem", vec!["disk"], vec![iface("eth0")], None::<&str>,
        "therm", Vec::<&str>::new(), Vec::<&str>::new(), "native", None::<&str>, SystemTime::now(), 0,
    );
    assert!(info.network_interfaces.is_empty());
}

#[test]
fn pci_ids_drop_the_hex_prefix() {
    assert_eq!(pci_id_from_sysfs("0x8086", "0x1234"), "8086:1234");
    assert_eq!(pci_id_from_sysfs("10de", "0x0x2204"), "10de:2204");
    assert_eq!(pci_id_from_sysfs("", ""), ":");
}
