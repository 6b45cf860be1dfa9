use vstd::prelude::*;
use crate::text::{chars_of, contains_lit, has_sub, lowercase, owned, to_lowercase};

verus! {

/// Network interface type.
#[derive(Debug, Clone, PartialEq, Eq, Structural)]
pub enum NetworkType {
    Ethernet,
    WiFi,
    Bluetooth,
    Cellular,
    VPN,
    Loopback,
    Unknown,
}

pub open spec fn network_type_label(t: NetworkType) -> Seq<char> {
    match t {
        NetworkType::Ethernet => "Ethernet"@,
        NetworkType::WiFi => "WiFi"@,
        NetworkType::Bluetooth => "Bluetooth"@,
        NetworkType::Cellular => "Cellular"@,
        NetworkType::VPN => "VPN"@,
        NetworkType::Loopback => "Loopback"@,
        NetworkType::Unknown => "Unknown"@,
    }
}

impl NetworkType {
    /// The type's display name.
    pub fn label(&self) -> (r: String)
        ensures
            r@ == network_type_label(*self),
    {
        match self {
            NetworkType::Ethernet => owned("Ethernet"),
            NetworkType::WiFi => owned("WiFi"),
            NetworkType::Bluetooth => owned("Bluetooth"),
            NetworkType::Cellular => owned("Cellular"),
            NetworkType::VPN => owned("VPN"),
            NetworkType::Loopback => owned("Loopback"),
            NetworkType::Unknown => owned("Unknown"),
        }
    }
}

/// Network interface information.
#[derive(Debug, Clone)]
pub struct NetworkInfo {
    pub name: String,
    pub network_type: NetworkType,
    pub mac_address: String,
    pub ip_addresses: Vec<String>,
    /// Interface speed in Mbps (if available)
    pub speed_mbps: Option<u32>,
    /// Is interface up/active
    pub is_up: bool,
    pub bytes_received: u64,
    pub bytes_transmitted: u64,
    pub packets_received: u64,
    pub packets_transmitted: u64,
    pub receive_errors: u64,
    pub transmit_errors: u64,
}

/// The type an interface name suggests, read from its lower-case form; the first
/// rule that matches decides.
pub open spec fn network_type_for(lower: Seq<char>) -> NetworkType {
    if has_sub(lower, "lo"@) || has_sub(lower, "loopback"@) {
        NetworkType::Loopback
    } else if has_sub(lower, "eth"@) || has_sub(lower, "ethernet"@) {
        NetworkType::Ethernet
    } else if has_sub(lower, "wlan"@) || has_sub(lower, "wifi"@) || has_sub(lower, "wi-fi"@) {
        NetworkType::WiFi
    } else if has_sub(lower, "bluetooth"@) || has_sub(lower, "bt"@) {
        NetworkType::Bluetooth
    } else if has_sub(lower, "cellular"@) || has_sub(lower, "mobile"@) {
        NetworkType::Cellular
    } else if has_sub(lower, "vpn"@) || has_sub(lower, "tunnel"@) {
        NetworkType::VPN
    } else {
        NetworkType::Unknown
    }
}

/// The interface type for a lower-case interface name.
pub fn network_type_of_lowercase(lower: &str) -> (r: NetworkType)
    ensures
        r == network_type_for(lower@),
{
    let v = chars_of(lower);
    let s = v.as_slice();
    if contains_lit(s, "lo") || contains_lit(s, "loopback") {
        NetworkType::Loopback
    } else if contains_lit(s, "eth") || contains_lit(s, "ethernet") {
        NetworkType::Ethernet
    } else if contains_lit(s, "wlan") || contains_lit(s, "wifi") || contains_lit(s, "wi-fi") {
        NetworkType::WiFi
    } else if contains_lit(s, "bluetooth") || contains_lit(s, "bt") {
        NetworkType::Bluetooth
    } else if contains_lit(s, "cellular") || contains_lit(s, "mobile") {
        NetworkType::Cellular
    } else if contains_lit(s, "vpn") || contains_lit(s, "tunnel") {
        NetworkType::VPN
    } else {
        NetworkType::Unknown
    }
}

impl NetworkInfo {
    /// The record for an interface from its name and counters: its type from its name,
    /// placeholder MAC and addresses, no speed, and up when it has received or sent bytes.
    pub fn from_counters(
        name: &str,
        received: u64,
        transmitted: u64,
        packets_received: u64,
        packets_transmitted: u64,
        errors_on_received: u64,
        errors_on_transmitted: u64,
    ) -> (r: Self)
        ensures
            r.name@ == name@,
            r.network_type == network_type_for(lowercase(name@)),
            r.mac_address@ == "00:00:00:00:00:00"@,
            r.ip_addresses@.len() == 0,
            r.speed_mbps is None,
            r.is_up == (received > 0 || transmitted > 0),
            r.bytes_received == received,
            r.bytes_transmitted == transmitted,
            r.packets_received == packets_received,
            r.packets_transmitted == packets_transmitted,
            r.receive_errors == errors_on_received,
            r.transmit_errors == errors_on_transmitted,
    {
        NetworkInfo {
            name: owned(name),
            network_type: Self::detect_network_type(name),
            mac_address: Self::get_mac_address(name),
            ip_addresses: Self::get_ip_addresses(name),
            speed_mbps: None,
            is_up: received > 0 || transmitted > 0,
            bytes_received: received,
            bytes_transmitted: transmitted,
            packets_received,
            packets_transmitted,
            receive_errors: errors_on_received,
            transmit_errors: errors_on_transmitted,
        }
    }

    pub fn name(&self) -> (r: &str)
        ensures
            r@ == self.name@,
    {
        self.name.as_str()
    }

    pub fn network_type(&self) -> (r: &NetworkType)
        ensures
            *r == self.network_type,
    {
        &self.network_type
    }

    pub fn mac_address(&self) -> (r: &str)
        ensures
            r@ == self.mac_address@,
    {
        self.mac_address.as_str()
    }

    pub fn ip_addresses(&self) -> (r: &[String])
        ensures
            r@ == self.ip_addresses@,
    {
        self.ip_addresses.as_slice()
    }

    pub fn is_active(&self) -> (r: bool)
        ensures
            r == self.is_up,
    {
        self.is_up
    }

    /// Bytes received and transmitted.
    pub fn total_bytes(&self) -> (r: u64)
        requires
            self.bytes_received + self.bytes_transmitted <= u64::MAX,
        ensures
            r == self.bytes_received + self.bytes_transmitted,
    {
        self.bytes_received + self.bytes_transmitted
    }

    /// Packets received and transmitted.
    pub fn total_packets(&self) -> (r: u64)
        requires
            self.packets_received + self.packets_transmitted <= u64::MAX,
        ensures
            r == self.packets_received + self.packets_transmitted,
    {
        self.packets_received + self.packets_transmitted
    }

    /// Receive and transmit errors.
    pub fn total_errors(&self) -> (r: u64)
        requires
            self.receive_errors + self.transmit_errors <= u64::MAX,
        ensures
            r == self.receive_errors + self.transmit_errors,
    {
        self.receive_errors + self.transmit_errors
    }

    /// The interface type an interface name suggests.
    pub fn detect_network_type(name: &str) -> (r: NetworkType)
        ensures
            r == network_type_for(lowercase(name@)),
    {
        let l = to_lowercase(name);
        network_type_of_lowercase(l.as_str())
    }

    /// The MAC address of an interface: no platform reads it yet, so it is all zeros.
    pub fn get_mac_address(_interface_name: &str) -> (r: String)
        ensures
            r@ == "00:00:00:00:00:00"@,
    {
        owned("00:00:00:00:00:00")
    }

    /// The IP addresses of an interface: no platform reads them yet, so there are none.
    pub fn get_ip_addresses(_interface_name: &str) -> (r: Vec<String>)
        ensures
            r@.len() == 0,
    {
        Vec::new()
    }
}

} // verus!
