//! Storage device kinds.
use vstd::prelude::*;
use crate::text::owned;

verus! {

/// Storage device type.
#[derive(Debug, Clone, PartialEq, Eq, Structural)]
pub enum StorageType {
    SSD,
    HDD,
    NVMe,
    EMmc,
    SD,
    USB,
    Unknown,
}

pub open spec fn storage_type_label(v: StorageType) -> Seq<char> {
    match v {
        StorageType::SSD => "SSD"@,
        StorageType::HDD => "HDD"@,
        StorageType::NVMe => "NVMe"@,
        StorageType::EMmc => "eMMC"@,
        StorageType::SD => "SD Card"@,
        StorageType::USB => "USB"@,
        StorageType::Unknown => "Unknown"@,
    }
}

impl StorageType {
    /// The display name.
    pub fn label(&self) -> (r: String)
        ensures
            r@ == storage_type_label(*self),
    {
        match self {
            StorageType::SSD => owned("SSD"),
            StorageType::HDD => owned("HDD"),
            StorageType::NVMe => owned("NVMe"),
            StorageType::EMmc => owned("eMMC"),
            StorageType::SD => owned("SD Card"),
            StorageType::USB => owned("USB"),
            StorageType::Unknown => owned("Unknown"),
        }
    }
}
} // verus!
