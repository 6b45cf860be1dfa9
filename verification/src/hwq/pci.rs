use vstd::prelude::*;
use crate::text::{strip_prefixes, strip_prefixes_chars, string_of, push_char, ascii_lowercase, ascii_uppercase, is_ascii_text, law_ascii_case_folds, chars_of, contains_lit, has_sub, lowercase, to_lowercase};

verus! {

/// The ID "vendor:device" of a PCI device from its sysfs `vendor` and `device` (or
/// `subsystem_vendor` and `subsystem_device`) attributes: each without its leading "0x".
pub fn pci_id_from_sysfs(vendor: &str, device: &str) -> (r: String)
    ensures
        r@ == strip_prefixes(vendor@, "0x"@) + ":"@ + strip_prefixes(device@, "0x"@),
{
    let prefix = chars_of("0x");
    let v = strip_prefixes_chars(chars_of(vendor).as_slice(), prefix.as_slice());
    let d = strip_prefixes_chars(chars_of(device).as_slice(), prefix.as_slice());
    let mut out = string_of(v.as_slice());
    push_char(&mut out, ':');
    let ghost before = out@;
    let mut i: usize = 0;
    while i < d.len()
        invariant
            i <= d@.len(),
            out@ == before + d@.take(i as int),
        decreases d.len() - i,
    {
        push_char(&mut out, d[i]);
        proof {
            assert(d@.take(i + 1) =~= d@.take(i as int).push(d@[i as int]));
        }
        i += 1;
    }
    proof {
        reveal_strlit(":");
        assert(d@.take(d@.len() as int) =~= d@);
        assert(before =~= v@ + ":"@);
    }
    out
}

/// PCI device information.
#[derive(Debug, Clone)]
pub struct PCIDevice {
    /// PCI device ID (vendor:device)
    pub device_id: String,
    pub vendor_name: String,
    pub device_name: String,
    /// PCI bus location
    pub bus_location: String,
    pub device_class: String,
    pub subsystem_id: Option<String>,
    /// Driver name (if loaded)
    pub driver: Option<String>,
    pub revision: Option<String>,
    pub irq: Option<u32>,
    pub memory_regions: Vec<String>,
}

pub open spec fn graphics_class(lower: Seq<char>) -> bool {
    has_sub(lower, "vga"@) || has_sub(lower, "display"@) || has_sub(lower, "graphics"@)
}

pub open spec fn network_class(lower: Seq<char>) -> bool {
    has_sub(lower, "network"@) || has_sub(lower, "ethernet"@) || has_sub(lower, "wireless"@)
}

pub open spec fn storage_class(lower: Seq<char>) -> bool {
    has_sub(lower, "storage"@) || has_sub(lower, "sata"@) || has_sub(lower, "nvme"@) || has_sub(
        lower,
        "scsi"@,
    )
}

/// Whether a lower-case PCI class names a display controller.
pub fn is_graphics_class(lower: &str) -> (r: bool)
    ensures
        r == graphics_class(lower@),
{
    let v = chars_of(lower);
    contains_lit(v.as_slice(), "vga") || contains_lit(v.as_slice(), "display") || contains_lit(
        v.as_slice(),
        "graphics",
    )
}

/// Whether a lower-case PCI class names a network controller.
pub fn is_network_class(lower: &str) -> (r: bool)
    ensures
        r == network_class(lower@),
{
    let v = chars_of(lower);
    contains_lit(v.as_slice(), "network") || contains_lit(v.as_slice(), "ethernet")
        || contains_lit(v.as_slice(), "wireless")
}

/// Whether a lower-case PCI class names a storage controller.
pub fn is_storage_class(lower: &str) -> (r: bool)
    ensures
        r == storage_class(lower@),
{
    let v = chars_of(lower);
    contains_lit(v.as_slice(), "storage") || contains_lit(v.as_slice(), "sata") || contains_lit(
        v.as_slice(),
        "nvme",
    ) || contains_lit(v.as_slice(), "scsi")
}

impl PCIDevice {
    pub fn device_id(&self) -> (r: &str)
        ensures
            r@ == self.device_id@,
    {
        self.device_id.as_str()
    }

    pub fn vendor_name(&self) -> (r: &str)
        ensures
            r@ == self.vendor_name@,
    {
        self.vendor_name.as_str()
    }

    pub fn device_name(&self) -> (r: &str)
        ensures
            r@ == self.device_name@,
    {
        self.device_name.as_str()
    }

    pub fn device_class(&self) -> (r: &str)
        ensures
            r@ == self.device_class@,
    {
        self.device_class.as_str()
    }

    /// Whether the device is a graphics card: its class, in lower case, mentions
    /// "vga", "display" or "graphics".
    pub fn is_graphics_device(&self) -> (r: bool)
        ensures
            r == graphics_class(lowercase(self.device_class@)),
            is_ascii_text(self.device_class@) ==> r == graphics_class(ascii_lowercase(self.device_class@)),
    {
        let l = to_lowercase(self.device_class.as_str());
        is_graphics_class(l.as_str())
    }

    /// Whether the device is a network controller: its class, in lower case, mentions
    /// "network", "ethernet" or "wireless".
    pub fn is_network_device(&self) -> (r: bool)
        ensures
            r == network_class(lowercase(self.device_class@)),
            is_ascii_text(self.device_class@) ==> r == network_class(ascii_lowercase(self.device_class@)),
    {
        let l = to_lowercase(self.device_class.as_str());
        is_network_class(l.as_str())
    }

    /// Whether the device is a storage controller: its class, in lower case, mentions
    /// "storage", "sata", "nvme" or "scsi".
    pub fn is_storage_device(&self) -> (r: bool)
        ensures
            r == storage_class(lowercase(self.device_class@)),
            is_ascii_text(self.device_class@) ==> r == storage_class(ascii_lowercase(self.device_class@)),
    {
        let l = to_lowercase(self.device_class.as_str());
        is_storage_class(l.as_str())
    }
}

/// Whether a PCI device is a network controller does not depend on the ASCII case of
/// its class: an ASCII class and its upper-case form test alike, as the class in ASCII
/// lower case mentions "network", "ethernet" or "wireless".
pub proof fn law_network_class_ignores_case(class: Seq<char>)
    requires
        is_ascii_text(class),
    ensures
        is_ascii_text(ascii_uppercase(class)),
        network_class(ascii_lowercase(ascii_uppercase(class))) == network_class(
            ascii_lowercase(class),
        ),
{
    law_ascii_case_folds(class);
}

} // verus!
