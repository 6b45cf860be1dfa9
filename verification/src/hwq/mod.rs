//! Hardware description: what the detectors report and the rules by which they
//! classify devices and read the system's text files.
pub mod error;
pub mod pci;
pub mod usb;
pub mod network;
pub mod builder;
pub mod cpu;
pub mod gpu;
pub mod memory;
pub mod battery;
pub mod storage;
pub mod thermal;
pub mod power;
pub mod simple;
pub mod presets;
pub mod virtualization;
pub mod platform;
pub mod fpga;
pub mod lists;
pub mod npu;
pub mod tpu;
pub mod arm;
pub mod monitoring;
pub mod summary;
