//! Memory module kinds.
use vstd::prelude::*;
use crate::text::{owned, push_str};

verus! {

/// Memory type classification.
#[derive(Debug, Clone)]
pub enum MemoryType {
    DDR3,
    DDR4,
    DDR5,
    LPDDR3,
    LPDDR4,
    LPDDR5,
    Unknown(String),
}

pub open spec fn memory_type_label(v: MemoryType) -> Seq<char> {
    match v {
        MemoryType::DDR3 => "DDR3"@,
        MemoryType::DDR4 => "DDR4"@,
        MemoryType::DDR5 => "DDR5"@,
        MemoryType::LPDDR3 => "LPDDR3"@,
        MemoryType::LPDDR4 => "LPDDR4"@,
        MemoryType::LPDDR5 => "LPDDR5"@,
        MemoryType::Unknown(s) => s@,
    }
}

impl MemoryType {
    /// The display name.
    pub fn label(&self) -> (r: String)
        ensures
            r@ == memory_type_label(*self),
    {
        match self {
            MemoryType::DDR3 => owned("DDR3"),
            MemoryType::DDR4 => owned("DDR4"),
            MemoryType::DDR5 => owned("DDR5"),
            MemoryType::LPDDR3 => owned("LPDDR3"),
            MemoryType::LPDDR4 => owned("LPDDR4"),
            MemoryType::LPDDR5 => owned("LPDDR5"),
            MemoryType::Unknown(s) => owned(s.as_str()),
        }
    }
}
} // verus!
