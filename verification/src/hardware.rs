//! The metric catalog and the rules by which samples are requested and converted.
use vstd::prelude::*;
use crate::protocol::{CatalogMetric, CatalogMetricView, MetricDataType, string_views};
use crate::text::{
    chars_of, has_prefix, lines, lines_of, owned, starts_with_chars, str_eq, string_of, trim,
    trim_chars, views,
};

verus! {

/// The poll loop's tick: every refresh rate is a multiple of it.
pub const POLL_QUANTUM_MS: u64 = 50;

/// The largest rate that can be rounded up to a multiple of the quantum in a `u64`.
pub const MAX_ROUNDABLE_MS: u64 = 18446744073709551600;

/// `ms` rounded up to a whole number of quanta, and at least one quantum.
pub open spec fn quantum_ceil(ms: nat) -> nat {
    if ms == 0 {
        50
    } else if ms % 50 == 0 {
        ms
    } else {
        (ms / 50 + 1) * 50
    }
}

/// Rounds a refresh rate up to the poll quantum (50 ms), with 0 mapped to one quantum.
pub fn round_to_quantum(ms: u64) -> (r: u64)
    requires
        ms <= MAX_ROUNDABLE_MS,
    ensures
        r == quantum_ceil(ms as nat),
        r % 50 == 0,
        r >= 50,
        r >= ms,
        ms > 0 ==> r < ms + 50,
{
    if ms == 0 {
        return POLL_QUANTUM_MS;
    }
    let q = POLL_QUANTUM_MS;
    let up: u64 = if ms % q != 0 {
        1
    } else {
        0
    };
    let rounded = (ms / q + up) * q;
    if rounded < q {
        q
    } else {
        rounded
    }
}

/// Rounding to the quantum is idempotent and monotone, and gives the least multiple
/// of the quantum that is at least the rate and at least one quantum.
pub proof fn law_quantum_rounding(a: nat, b: nat, m: nat)
    ensures
        quantum_ceil(quantum_ceil(a)) == quantum_ceil(a),
        a <= b ==> quantum_ceil(a) <= quantum_ceil(b),
        m % 50 == 0 && m >= a && m >= 50 ==> quantum_ceil(a) <= m,
        quantum_ceil(a) % 50 == 0,
        quantum_ceil(a) >= a,
{
    let qa = quantum_ceil(a);
    assert(qa % 50 == 0 && qa >= a && qa >= 50) by (nonlinear_arith)
        requires
            qa == quantum_ceil(a),
    ;
    assert(a <= b ==> qa <= quantum_ceil(b)) by (nonlinear_arith)
        requires
            qa == quantum_ceil(a),
    ;
    assert(m % 50 == 0 && m >= a && m >= 50 ==> qa <= m) by (nonlinear_arith)
        requires
            qa == quantum_ceil(a),
    ;
}

// ---------------------------------------------------------------------------
// The catalog
// ---------------------------------------------------------------------------

pub open spec fn catalog_row(
    id: Seq<char>,
    name: Seq<char>,
    default_unit: Seq<char>,
    available_units: Seq<Seq<char>>,
    is_static: bool,
    data_type: MetricDataType,
) -> CatalogMetricView {
    CatalogMetricView { id, name, default_unit, available_units, is_static, data_type }
}

/// The metrics the server offers.
pub open spec fn catalog_spec() -> Seq<CatalogMetricView> {
    seq![
        catalog_row("cpu.usage"@, "CPU Usage"@, "%"@, seq!["%"@], false, MetricDataType::Float),
        catalog_row("cpu.cores"@, "CPU Core Count"@, "cores"@, seq!["cores"@], true, MetricDataType::Integer),
        catalog_row("mem.used"@, "Memory Used"@, "GB"@, seq!["B"@, "KB"@, "MB"@, "GB"@, "TB"@, "KiB"@, "MiB"@, "GiB"@, "TiB"@], false, MetricDataType::Float),
        catalog_row("mem.total"@, "Memory Total"@, "GB"@, seq!["B"@, "KB"@, "MB"@, "GB"@, "TB"@, "KiB"@, "MiB"@, "GiB"@, "TiB"@], true, MetricDataType::Integer),
        catalog_row("mem.usage"@, "Memory Usage"@, "%"@, seq!["%"@], false, MetricDataType::Float),
        catalog_row("swap.used"@, "Swap Used"@, "GB"@, seq!["B"@, "KB"@, "MB"@, "GB"@, "TB"@, "KiB"@, "MiB"@, "GiB"@, "TiB"@], false, MetricDataType::Float),
        catalog_row("swap.total"@, "Swap Total"@, "GB"@, seq!["B"@, "KB"@, "MB"@, "GB"@, "TB"@, "KiB"@, "MiB"@, "GiB"@, "TiB"@], true, MetricDataType::Integer),
        catalog_row("sys.uptime"@, "System Uptime"@, "s"@, seq!["s"@, "ms"@, "m"@, "h"@], false, MetricDataType::Float),
        catalog_row("sys.load1"@, "Load Average (1m)"@, ""@, seq![""@], false, MetricDataType::Float),
        catalog_row("sys.load5"@, "Load Average (5m)"@, ""@, seq![""@], false, MetricDataType::Float),
        catalog_row("sys.load15"@, "Load Average (15m)"@, ""@, seq![""@], false, MetricDataType::Float),
        catalog_row("proc.count"@, "Process Count"@, "procs"@, seq!["procs"@], false, MetricDataType::Integer),
        catalog_row("net.interfaces"@, "Network Interface Names"@, ""@, seq![""@], false, MetricDataType::StringList),
        catalog_row("net.ip_addresses"@, "Network IP Addresses"@, ""@, seq![""@], false, MetricDataType::StringList),
        catalog_row("net.wifi_ssids"@, "Visible Wi-Fi Network Names (SSIDs)"@, ""@, seq![""@], false, MetricDataType::StringList),
        catalog_row("net.routes"@, "Network Routes"@, ""@, seq![""@], false, MetricDataType::StringList),
        catalog_row("net.default_gateway"@, "Default Gateway"@, ""@, seq![""@], false, MetricDataType::String),
        catalog_row("net.iface_count"@, "Network Interface Count"@, "ifaces"@, seq!["ifaces"@], false, MetricDataType::Integer),
        catalog_row("net.rx_bytes"@, "Network Received (count, per-interface)"@, "B"@, seq!["B"@, "KB"@, "MB"@, "GB"@, "TB"@, "KiB"@, "MiB"@, "GiB"@, "TiB"@], false, MetricDataType::StringList),
        catalog_row("net.tx_bytes"@, "Network Transmitted (count, per-interface)"@, "B"@, seq!["B"@, "KB"@, "MB"@, "GB"@, "TB"@, "KiB"@, "MiB"@, "GiB"@, "TiB"@], false, MetricDataType::StringList),
        catalog_row("net.rx_packets"@, "Network Packets Received (count, per-interface)"@, "pkts"@, seq!["pkts"@], false, MetricDataType::StringList),
        catalog_row("net.tx_packets"@, "Network Packets Transmitted (count, per-interface)"@, "pkts"@, seq!["pkts"@], false, MetricDataType::StringList),
        catalog_row("net.rx_bytes_rate"@, "Network Received (rate, per-interface)"@, "B/s"@, seq!["B/s"@, "KB/s"@, "MB/s"@, "KiB/s"@, "MiB/s"@], false, MetricDataType::StringList),
        catalog_row("net.tx_bytes_rate"@, "Network Transmitted (rate, per-interface)"@, "B/s"@, seq!["B/s"@, "KB/s"@, "MB/s"@, "KiB/s"@, "MiB/s"@], false, MetricDataType::StringList),
        catalog_row("net.rx_packets_rate"@, "Network Packets Received (rate, per-interface)"@, "pps"@, seq!["pps"@], false, MetricDataType::StringList),
        catalog_row("net.tx_packets_rate"@, "Network Packets Transmitted (rate, per-interface)"@, "pps"@, seq!["pps"@], false, MetricDataType::StringList),
        catalog_row("disk.count"@, "Disk Count"@, "disks"@, seq!["disks"@], false, MetricDataType::Integer),
        catalog_row("disk.total"@, "Disk Total Space"@, "GB"@, seq!["B"@, "KB"@, "MB"@, "GB"@, "TB"@, "KiB"@, "MiB"@, "GiB"@, "TiB"@], false, MetricDataType::Float),
        catalog_row("disk.used"@, "Disk Used Space"@, "GB"@, seq!["B"@, "KB"@, "MB"@, "GB"@, "TB"@, "KiB"@, "MiB"@, "GiB"@, "TiB"@], false, MetricDataType::Float),
        catalog_row("disk.available"@, "Disk Available Space"@, "GB"@, seq!["B"@, "KB"@, "MB"@, "GB"@, "TB"@, "KiB"@, "MiB"@, "GiB"@, "TiB"@], false, MetricDataType::Float),
        catalog_row("disk.usage"@, "Disk Usage"@, "%"@, seq!["%"@], false, MetricDataType::Float),
    ]
}

/// The catalog's static metrics, which are sampled once and take no refresh rate, are
/// exactly the CPU core count, the total memory and the total swap; every other metric
/// is live.
pub proof fn law_static_metrics(i: int)
    requires
        0 <= i < catalog_spec().len(),
    ensures
        catalog_spec()[i].is_static <==> (catalog_spec()[i].id == "cpu.cores"@ || catalog_spec()[
            i
        ].id == "mem.total"@ || catalog_spec()[i].id == "swap.total"@),
{
    reveal_strlit("cpu.usage");
    reveal_strlit("cpu.cores");
    reveal_strlit("mem.used");
    reveal_strlit("mem.total");
    reveal_strlit("mem.usage");
    reveal_strlit("swap.used");
    reveal_strlit("swap.total");
    reveal_strlit("sys.uptime");
    reveal_strlit("sys.load1");
    reveal_strlit("sys.load5");
    reveal_strlit("sys.load15");
    reveal_strlit("proc.count");
    reveal_strlit("net.interfaces");
    reveal_strlit("net.ip_addresses");
    reveal_strlit("net.wifi_ssids");
    reveal_strlit("net.routes");
    reveal_strlit("net.default_gateway");
    reveal_strlit("net.iface_count");
    reveal_strlit("net.rx_bytes");
    reveal_strlit("net.tx_bytes");
    reveal_strlit("net.rx_packets");
    reveal_strlit("net.tx_packets");
    reveal_strlit("net.rx_bytes_rate");
    reveal_strlit("net.tx_bytes_rate");
    reveal_strlit("net.rx_packets_rate");
    reveal_strlit("net.tx_packets_rate");
    reveal_strlit("disk.count");
    reveal_strlit("disk.total");
    reveal_strlit("disk.used");
    reveal_strlit("disk.available");
    reveal_strlit("disk.usage");
    let c = catalog_spec();
    let id = c[i].id;
    if i == 0 {
        assert(id == "cpu.usage"@);
        assert(id[4] != "cpu.cores"@[4]);
        assert(id[0] != "mem.total"@[0]);
        assert(id.len() != "swap.total"@.len());
    } else if i == 1 {
        assert(id == "cpu.cores"@);
    } else if i == 2 {
        assert(id == "mem.used"@);
        assert(id.len() != "cpu.cores"@.len());
        assert(id.len() != "mem.total"@.len());
        assert(id.len() != "swap.total"@.len());
    } else if i == 3 {
        assert(id == "mem.total"@);
    } else if i == 4 {
        assert(id == "mem.usage"@);
        assert(id[0] != "cpu.cores"@[0]);
        assert(id[4] != "mem.total"@[4]);
        assert(id.len() != "swap.total"@.len());
    } else if i == 5 {
        assert(id == "swap.used"@);
        assert(id[0] != "cpu.cores"@[0]);
        assert(id[0] != "mem.total"@[0]);
        assert(id.len() != "swap.total"@.len());
    } else if i == 6 {
        assert(id == "swap.total"@);
    } else if i == 7 {
        assert(id == "sys.uptime"@);
        assert(id.len() != "cpu.cores"@.len());
        assert(id.len() != "mem.total"@.len());
        assert(id[1] != "swap.total"@[1]);
    } else if i == 8 {
        assert(id == "sys.load1"@);
        assert(id[0] != "cpu.cores"@[0]);
        assert(id[0] != "mem.total"@[0]);
        assert(id.len() != "swap.total"@.len());
    } else if i == 9 {
        assert(id == "sys.load5"@);
        assert(id[0] != "cpu.cores"@[0]);
        assert(id[0] != "mem.total"@[0]);
        assert(id.len() != "swap.total"@.len());
    } else if i == 10 {
        assert(id == "sys.load15"@);
        assert(id.len() != "cpu.cores"@.len());
        assert(id.len() != "mem.total"@.len());
        assert(id[1] != "swap.total"@[1]);
    } else if i == 11 {
        assert(id == "proc.count"@);
        assert(id.len() != "cpu.cores"@.len());
        assert(id.len() != "mem.total"@.len());
        assert(id[0] != "swap.total"@[0]);
    } else if i == 12 {
        assert(id == "net.interfaces"@);
        assert(id.len() != "cpu.cores"@.len());
        assert(id.len() != "mem.total"@.len());
        assert(id.len() != "swap.total"@.len());
    } else if i == 13 {
        assert(id == "net.ip_addresses"@);
        assert(id.len() != "cpu.cores"@.len());
        assert(id.len() != "mem.total"@.len());
        assert(id.len() != "swap.total"@.len());
    } else if i == 14 {
        assert(id == "net.wifi_ssids"@);
        assert(id.len() != "cpu.cores"@.len());
        assert(id.len() != "mem.total"@.len());
        assert(id.len() != "swap.total"@.len());
    } else if i == 15 {
        assert(id == "net.routes"@);
        assert(id.len() != "cpu.cores"@.len());
        assert(id.len() != "mem.total"@.len());
        assert(id[0] != "swap.total"@[0]);
    } else if i == 16 {
        assert(id == "net.default_gateway"@);
        assert(id.len() != "cpu.cores"@.len());
        assert(id.len() != "mem.total"@.len());
        assert(id.len() != "swap.total"@.len());
    } else if i == 17 {
        assert(id == "net.iface_count"@);
        assert(id.len() != "cpu.cores"@.len());
        assert(id.len() != "mem.total"@.len());
        assert(id.len() != "swap.total"@.len());
    } else if i == 18 {
        assert(id == "net.rx_bytes"@);
        assert(id.len() != "cpu.cores"@.len());
        assert(id.len() != "mem.total"@.len());
        assert(id.len() != "swap.total"@.len());
    } else if i == 19 {
        assert(id == "net.tx_bytes"@);
        assert(id.len() != "cpu.cores"@.len());
        assert(id.len() != "mem.total"@.len());
        assert(id.len() != "swap.total"@.len());
    } else if i == 20 {
        assert(id == "net.rx_packets"@);
        assert(id.len() != "cpu.cores"@.len());
        assert(id.len() != "mem.total"@.len());
        assert(id.len() != "swap.total"@.len());
    } else if i == 21 {
        assert(id == "net.tx_packets"@);
        assert(id.len() != "cpu.cores"@.len());
        assert(id.len() != "mem.total"@.len());
        assert(id.len() != "swap.total"@.len());
    } else if i == 22 {
        assert(id == "net.rx_bytes_rate"@);
        assert(id.len() != "cpu.cores"@.len());
        assert(id.len() != "mem.total"@.len());
        assert(id.len() != "swap.total"@.len());
    } else if i == 23 {
        assert(id == "net.tx_bytes_rate"@);
        assert(id.len() != "cpu.cores"@.len());
        assert(id.len() != "mem.total"@.len());
        assert(id.len() != "swap.total"@.len());
    } else if i == 24 {
        assert(id == "net.rx_packets_rate"@);
        assert(id.len() != "cpu.cores"@.len());
        assert(id.len() != "mem.total"@.len());
        assert(id.len() != "swap.total"@.len());
    } else if i == 25 {
        assert(id == "net.tx_packets_rate"@);
        assert(id.len() != "cpu.cores"@.len());
        assert(id.len() != "mem.total"@.len());
        assert(id.len() != "swap.total"@.len());
    } else if i == 26 {
        assert(id == "disk.count"@);
        assert(id.len() != "cpu.cores"@.len());
        assert(id.len() != "mem.total"@.len());
        assert(id[0] != "swap.total"@[0]);
    } else if i == 27 {
        assert(id == "disk.total"@);
        assert(id.len() != "cpu.cores"@.len());
        assert(id.len() != "mem.total"@.len());
        assert(id[0] != "swap.total"@[0]);
    } else if i == 28 {
        assert(id == "disk.used"@);
        assert(id[0] != "cpu.cores"@[0]);
        assert(id[0] != "mem.total"@[0]);
        assert(id.len() != "swap.total"@.len());
    } else if i == 29 {
        assert(id == "disk.available"@);
        assert(id.len() != "cpu.cores"@.len());
        assert(id.len() != "mem.total"@.len());
        assert(id.len() != "swap.total"@.len());
    } else if i == 30 {
        assert(id == "disk.usage"@);
        assert(id.len() != "cpu.cores"@.len());
        assert(id.len() != "mem.total"@.len());
        assert(id[0] != "swap.total"@[0]);
    }
}

/// No two metrics of the catalog share an id, so looking a metric up by id finds the
/// one metric with that id.
#[verifier::rlimit(100)]
pub proof fn law_catalog_ids_distinct(i: int, j: int)
    requires
        0 <= i < j < catalog_spec().len(),
    ensures
        catalog_spec()[i].id != catalog_spec()[j].id,
{
    reveal_strlit("cpu.usage");
    reveal_strlit("cpu.cores");
    reveal_strlit("mem.used");
    reveal_strlit("mem.total");
    reveal_strlit("mem.usage");
    reveal_strlit("swap.used");
    reveal_strlit("swap.total");
    reveal_strlit("sys.uptime");
    reveal_strlit("sys.load1");
    reveal_strlit("sys.load5");
    reveal_strlit("sys.load15");
    reveal_strlit("proc.count");
    reveal_strlit("net.interfaces");
    reveal_strlit("net.ip_addresses");
    reveal_strlit("net.wifi_ssids");
    reveal_strlit("net.routes");
    reveal_strlit("net.default_gateway");
    reveal_strlit("net.iface_count");
    reveal_strlit("net.rx_bytes");
    reveal_strlit("net.tx_bytes");
    reveal_strlit("net.rx_packets");
    reveal_strlit("net.tx_packets");
    reveal_strlit("net.rx_bytes_rate");
    reveal_strlit("net.tx_bytes_rate");
    reveal_strlit("net.rx_packets_rate");
    reveal_strlit("net.tx_packets_rate");
    reveal_strlit("disk.count");
    reveal_strlit("disk.total");
    reveal_strlit("disk.used");
    reveal_strlit("disk.available");
    reveal_strlit("disk.usage");
    let c = catalog_spec();
    if i == 0 && j == 1 {
        assert(c[0].id[4] != c[1].id[4]);
    } else if i == 0 && j == 2 {
        assert(c[0].id.len() != c[2].id.len());
    } else if i == 0 && j == 3 {
        assert(c[0].id[0] != c[3].id[0]);
    } else if i == 0 && j == 4 {
        assert(c[0].id[0] != c[4].id[0]);
    } else if i == 0 && j == 5 {
        assert(c[0].id[0] != c[5].id[0]);
    } else if i == 0 && j == 6 {
        assert(c[0].id.len() != c[6].id.len());
    } else if i == 0 && j == 7 {
        assert(c[0].id.len() != c[7].id.len());
    } else if i == 0 && j == 8 {
        assert(c[0].id[0] != c[8].id[0]);
    } else if i == 0 && j == 9 {
        assert(c[0].id[0] != c[9].id[0]);
    } else if i == 0 && j == 10 {
        assert(c[0].id.len() != c[10].id.len());
    } else if i == 0 && j == 11 {
        assert(c[0].id.len() != c[11].id.len());
    } else if i == 0 && j == 12 {
        assert(c[0].id.len() != c[12].id.len());
    } else if i == 0 && j == 13 {
        assert(c[0].id.len() != c[13].id.len());
    } else if i == 0 && j == 14 {
        assert(c[0].id.len() != c[14].id.len());
    } else if i == 0 && j == 15 {
        assert(c[0].id.len() != c[15].id.len());
    } else if i == 0 && j == 16 {
        assert(c[0].id.len() != c[16].id.len());
    } else if i == 0 && j == 17 {
        assert(c[0].id.len() != c[17].id.len());
    } else if i == 0 && j == 18 {
        assert(c[0].id.len() != c[18].id.len());
    } else if i == 0 && j == 19 {
        assert(c[0].id.len() != c[19].id.len());
    } else if i == 0 && j == 20 {
        assert(c[0].id.len() != c[20].id.len());
    } else if i == 0 && j == 21 {
        assert(c[0].id.len() != c[21].id.len());
    } else if i == 0 && j == 22 {
        assert(c[0].id.len() != c[22].id.len());
    } else if i == 0 && j == 23 {
        assert(c[0].id.len() != c[23].id.len());
    } else if i == 0 && j == 24 {
        assert(c[0].id.len() != c[24].id.len());
    } else if i == 0 && j == 25 {
        assert(c[0].id.len() != c[25].id.len());
    } else if i == 0 && j == 26 {
        assert(c[0].id.len() != c[26].id.len());
    } else if i == 0 && j == 27 {
        assert(c[0].id.len() != c[27].id.len());
    } else if i == 0 && j == 28 {
        assert(c[0].id[0] != c[28].id[0]);
    } else if i == 0 && j == 29 {
        assert(c[0].id.len() != c[29].id.len());
    } else if i == 0 && j == 30 {
        assert(c[0].id.len() != c[30].id.len());
    } else if i == 1 && j == 2 {
        assert(c[1].id.len() != c[2].id.len());
    } else if i == 1 && j == 3 {
        assert(c[1].id[0] != c[3].id[0]);
    } else if i == 1 && j == 4 {
        assert(c[1].id[0] != c[4].id[0]);
    } else if i == 1 && j == 5 {
        assert(c[1].id[0] != c[5].id[0]);
    } else if i == 1 && j == 6 {
        assert(c[1].id.len() != c[6].id.len());
    } else if i == 1 && j == 7 {
        assert(c[1].id.len() != c[7].id.len());
    } else if i == 1 && j == 8 {
        assert(c[1].id[0] != c[8].id[0]);
    } else if i == 1 && j == 9 {
        assert(c[1].id[0] != c[9].id[0]);
    } else if i == 1 && j == 10 {
        assert(c[1].id.len() != c[10].id.len());
    } else if i == 1 && j == 11 {
        assert(c[1].id.len() != c[11].id.len());
    } else if i == 1 && j == 12 {
        assert(c[1].id.len() != c[12].id.len());
    } else if i == 1 && j == 13 {
        assert(c[1].id.len() != c[13].id.len());
    } else if i == 1 && j == 14 {
        assert(c[1].id.len() != c[14].id.len());
    } else if i == 1 && j == 15 {
        assert(c[1].id.len() != c[15].id.len());
    } else if i == 1 && j == 16 {
        assert(c[1].id.len() != c[16].id.len());
    } else if i == 1 && j == 17 {
        assert(c[1].id.len() != c[17].id.len());
    } else if i == 1 && j == 18 {
        assert(c[1].id.len() != c[18].id.len());
    } else if i == 1 && j == 19 {
        assert(c[1].id.len() != c[19].id.len());
    } else if i == 1 && j == 20 {
        assert(c[1].id.len() != c[20].id.len());
    } else if i == 1 && j == 21 {
        assert(c[1].id.len() != c[21].id.len());
    } else if i == 1 && j == 22 {
        assert(c[1].id.len() != c[22].id.len());
    } else if i == 1 && j == 23 {
        assert(c[1].id.len() != c[23].id.len());
    } else if i == 1 && j == 24 {
        assert(c[1].id.len() != c[24].id.len());
    } else if i == 1 && j == 25 {
        assert(c[1].id.len() != c[25].id.len());
    } else if i == 1 && j == 26 {
        assert(c[1].id.len() != c[26].id.len());
    } else if i == 1 && j == 27 {
        assert(c[1].id.len() != c[27].id.len());
    } else if i == 1 && j == 28 {
        assert(c[1].id[0] != c[28].id[0]);
    } else if i == 1 && j == 29 {
        assert(c[1].id.len() != c[29].id.len());
    } else if i == 1 && j == 30 {
        assert(c[1].id.len() != c[30].id.len());
    } else if i == 2 && j == 3 {
        assert(c[2].id.len() != c[3].id.len());
    } else if i == 2 && j == 4 {
        assert(c[2].id.len() != c[4].id.len());
    } else if i == 2 && j == 5 {
        assert(c[2].id.len() != c[5].id.len());
    } else if i == 2 && j == 6 {
        assert(c[2].id.len() != c[6].id.len());
    } else if i == 2 && j == 7 {
        assert(c[2].id.len() != c[7].id.len());
    } else if i == 2 && j == 8 {
        assert(c[2].id.len() != c[8].id.len());
    } else if i == 2 && j == 9 {
        assert(c[2].id.len() != c[9].id.len());
    } else if i == 2 && j == 10 {
        assert(c[2].id.len() != c[10].id.len());
    } else if i == 2 && j == 11 {
        assert(c[2].id.len() != c[11].id.len());
    } else if i == 2 && j == 12 {
        assert(c[2].id.len() != c[12].id.len());
    } else if i == 2 && j == 13 {
        assert(c[2].id.len() != c[13].id.len());
    } else if i == 2 && j == 14 {
        assert(c[2].id.len() != c[14].id.len());
    } else if i == 2 && j == 15 {
        assert(c[2].id.len() != c[15].id.len());
    } else if i == 2 && j == 16 {
        assert(c[2].id.len() != c[16].id.len());
    } else if i == 2 && j == 17 {
        assert(c[2].id.len() != c[17].id.len());
    } else if i == 2 && j == 18 {
        assert(c[2].id.len() != c[18].id.len());
    } else if i == 2 && j == 19 {
        assert(c[2].id.len() != c[19].id.len());
    } else if i == 2 && j == 20 {
        assert(c[2].id.len() != c[20].id.len());
    } else if i == 2 && j == 21 {
        assert(c[2].id.len() != c[21].id.len());
    } else if i == 2 && j == 22 {
        assert(c[2].id.len() != c[22].id.len());
    } else if i == 2 && j == 23 {
        assert(c[2].id.len() != c[23].id.len());
    } else if i == 2 && j == 24 {
        assert(c[2].id.len() != c[24].id.len());
    } else if i == 2 && j == 25 {
        assert(c[2].id.len() != c[25].id.len());
    } else if i == 2 && j == 26 {
        assert(c[2].id.len() != c[26].id.len());
    } else if i == 2 && j == 27 {
        assert(c[2].id.len() != c[27].id.len());
    } else if i == 2 && j == 28 {
        assert(c[2].id.len() != c[28].id.len());
    } else if i == 2 && j == 29 {
        assert(c[2].id.len() != c[29].id.len());
    } else if i == 2 && j == 30 {
        assert(c[2].id.len() != c[30].id.len());
    } else if i == 3 && j == 4 {
        assert(c[3].id[4] != c[4].id[4]);
    } else if i == 3 && j == 5 {
        assert(c[3].id[0] != c[5].id[0]);
    } else if i == 3 && j == 6 {
        assert(c[3].id.len() != c[6].id.len());
    } else if i == 3 && j == 7 {
        assert(c[3].id.len() != c[7].id.len());
    } else if i == 3 && j == 8 {
        assert(c[3].id[0] != c[8].id[0]);
    } else if i == 3 && j == 9 {
        assert(c[3].id[0] != c[9].id[0]);
    } else if i == 3 && j == 10 {
        assert(c[3].id.len() != c[10].id.len());
    } else if i == 3 && j == 11 {
        assert(c[3].id.len() != c[11].id.len());
    } else if i == 3 && j == 12 {
        assert(c[3].id.len() != c[12].id.len());
    } else if i == 3 && j == 13 {
        assert(c[3].id.len() != c[13].id.len());
    } else if i == 3 && j == 14 {
        assert(c[3].id.len() != c[14].id.len());
    } else if i == 3 && j == 15 {
        assert(c[3].id.len() != c[15].id.len());
    } else if i == 3 && j == 16 {
        assert(c[3].id.len() != c[16].id.len());
    } else if i == 3 && j == 17 {
        assert(c[3].id.len() != c[17].id.len());
    } else if i == 3 && j == 18 {
        assert(c[3].id.len() != c[18].id.len());
    } else if i == 3 && j == 19 {
        assert(c[3].id.len() != c[19].id.len());
    } else if i == 3 && j == 20 {
        assert(c[3].id.len() != c[20].id.len());
    } else if i == 3 && j == 21 {
        assert(c[3].id.len() != c[21].id.len());
    } else if i == 3 && j == 22 {
        assert(c[3].id.len() != c[22].id.len());
    } else if i == 3 && j == 23 {
        assert(c[3].id.len() != c[23].id.len());
    } else if i == 3 && j == 24 {
        assert(c[3].id.len() != c[24].id.len());
    } else if i == 3 && j == 25 {
        assert(c[3].id.len() != c[25].id.len());
    } else if i == 3 && j == 26 {
        assert(c[3].id.len() != c[26].id.len());
    } else if i == 3 && j == 27 {
        assert(c[3].id.len() != c[27].id.len());
    } else if i == 3 && j == 28 {
        assert(c[3].id[0] != c[28].id[0]);
    } else if i == 3 && j == 29 {
        assert(c[3].id.len() != c[29].id.len());
    } else if i == 3 && j == 30 {
        assert(c[3].id.len() != c[30].id.len());
    } else if i == 4 && j == 5 {
        assert(c[4].id[0] != c[5].id[0]);
    } else if i == 4 && j == 6 {
        assert(c[4].id.len() != c[6].id.len());
    } else if i == 4 && j == 7 {
        assert(c[4].id.len() != c[7].id.len());
    } else if i == 4 && j == 8 {
        assert(c[4].id[0] != c[8].id[0]);
    } else if i == 4 && j == 9 {
        assert(c[4].id[0] != c[9].id[0]);
    } else if i == 4 && j == 10 {
        assert(c[4].id.len() != c[10].id.len());
    } else if i == 4 && j == 11 {
        assert(c[4].id.len() != c[11].id.len());
    } else if i == 4 && j == 12 {
        assert(c[4].id.len() != c[12].id.len());
    } else if i == 4 && j == 13 {
        assert(c[4].id.len() != c[13].id.len());
    } else if i == 4 && j == 14 {
        assert(c[4].id.len() != c[14].id.len());
    } else if i == 4 && j == 15 {
        assert(c[4].id.len() != c[15].id.len());
    } else if i == 4 && j == 16 {
        assert(c[4].id.len() != c[16].id.len());
    } else if i == 4 && j == 17 {
        assert(c[4].id.len() != c[17].id.len());
    } else if i == 4 && j == 18 {
        assert(c[4].id.len() != c[18].id.len());
    } else if i == 4 && j == 19 {
        assert(c[4].id.len() != c[19].id.len());
    } else if i == 4 && j == 20 {
        assert(c[4].id.len() != c[20].id.len());
    } else if i == 4 && j == 21 {
        assert(c[4].id.len() != c[21].id.len());
    } else if i == 4 && j == 22 {
        assert(c[4].id.len() != c[22].id.len());
    } else if i == 4 && j == 23 {
        assert(c[4].id.len() != c[23].id.len());
    } else if i == 4 && j == 24 {
        assert(c[4].id.len() != c[24].id.len());
    } else if i == 4 && j == 25 {
        assert(c[4].id.len() != c[25].id.len());
    } else if i == 4 && j == 26 {
        assert(c[4].id.len() != c[26].id.len());
    } else if i == 4 && j == 27 {
        assert(c[4].id.len() != c[27].id.len());
    } else if i == 4 && j == 28 {
        assert(c[4].id[0] != c[28].id[0]);
    } else if i == 4 && j == 29 {
        assert(c[4].id.len() != c[29].id.len());
    } else if i == 4 && j == 30 {
        assert(c[4].id.len() != c[30].id.len());
    } else if i == 5 && j == 6 {
        assert(c[5].id.len() != c[6].id.len());
    } else if i == 5 && j == 7 {
        assert(c[5].id.len() != c[7].id.len());
    } else if i == 5 && j == 8 {
        assert(c[5].id[1] != c[8].id[1]);
    } else if i == 5 && j == 9 {
        assert(c[5].id[1] != c[9].id[1]);
    } else if i == 5 && j == 10 {
        assert(c[5].id.len() != c[10].id.len());
    } else if i == 5 && j == 11 {
        assert(c[5].id.len() != c[11].id.len());
    } else if i == 5 && j == 12 {
        assert(c[5].id.len() != c[12].id.len());
    } else if i == 5 && j == 13 {
        assert(c[5].id.len() != c[13].id.len());
    } else if i == 5 && j == 14 {
        assert(c[5].id.len() != c[14].id.len());
    } else if i == 5 && j == 15 {
        assert(c[5].id.len() != c[15].id.len());
    } else if i == 5 && j == 16 {
        assert(c[5].id.len() != c[16].id.len());
    } else if i == 5 && j == 17 {
        assert(c[5].id.len() != c[17].id.len());
    } else if i == 5 && j == 18 {
        assert(c[5].id.len() != c[18].id.len());
    } else if i == 5 && j == 19 {
        assert(c[5].id.len() != c[19].id.len());
    } else if i == 5 && j == 20 {
        assert(c[5].id.len() != c[20].id.len());
    } else if i == 5 && j == 21 {
        assert(c[5].id.len() != c[21].id.len());
    } else if i == 5 && j == 22 {
        assert(c[5].id.len() != c[22].id.len());
    } else if i == 5 && j == 23 {
        assert(c[5].id.len() != c[23].id.len());
    } else if i == 5 && j == 24 {
        assert(c[5].id.len() != c[24].id.len());
    } else if i == 5 && j == 25 {
        assert(c[5].id.len() != c[25].id.len());
    } else if i == 5 && j == 26 {
        assert(c[5].id.len() != c[26].id.len());
    } else if i == 5 && j == 27 {
        assert(c[5].id.len() != c[27].id.len());
    } else if i == 5 && j == 28 {
        assert(c[5].id[0] != c[28].id[0]);
    } else if i == 5 && j == 29 {
        assert(c[5].id.len() != c[29].id.len());
    } else if i == 5 && j == 30 {
        assert(c[5].id.len() != c[30].id.len());
    } else if i == 6 && j == 7 {
        assert(c[6].id[1] != c[7].id[1]);
    } else if i == 6 && j == 8 {
        assert(c[6].id.len() != c[8].id.len());
    } else if i == 6 && j == 9 {
        assert(c[6].id.len() != c[9].id.len());
    } else if i == 6 && j == 10 {
        assert(c[6].id[1] != c[10].id[1]);
    } else if i == 6 && j == 11 {
        assert(c[6].id[0] != c[11].id[0]);
    } else if i == 6 && j == 12 {
        assert(c[6].id.len() != c[12].id.len());
    } else if i == 6 && j == 13 {
        assert(c[6].id.len() != c[13].id.len());
    } else if i == 6 && j == 14 {
        assert(c[6].id.len() != c[14].id.len());
    } else if i == 6 && j == 15 {
        assert(c[6].id[0] != c[15].id[0]);
    } else if i == 6 && j == 16 {
        assert(c[6].id.len() != c[16].id.len());
    } else if i == 6 && j == 17 {
        assert(c[6].id.len() != c[17].id.len());
    } else if i == 6 && j == 18 {
        assert(c[6].id.len() != c[18].id.len());
    } else if i == 6 && j == 19 {
        assert(c[6].id.len() != c[19].id.len());
    } else if i == 6 && j == 20 {
        assert(c[6].id.len() != c[20].id.len());
    } else if i == 6 && j == 21 {
        assert(c[6].id.len() != c[21].id.len());
    } else if i == 6 && j == 22 {
        assert(c[6].id.len() != c[22].id.len());
    } else if i == 6 && j == 23 {
        assert(c[6].id.len() != c[23].id.len());
    } else if i == 6 && j == 24 {
        assert(c[6].id.len() != c[24].id.len());
    } else if i == 6 && j == 25 {
        assert(c[6].id.len() != c[25].id.len());
    } else if i == 6 && j == 26 {
        assert(c[6].id[0] != c[26].id[0]);
    } else if i == 6 && j == 27 {
        assert(c[6].id[0] != c[27].id[0]);
    } else if i == 6 && j == 28 {
        assert(c[6].id.len() != c[28].id.len());
    } else if i == 6 && j == 29 {
        assert(c[6].id.len() != c[29].id.len());
    } else if i == 6 && j == 30 {
        assert(c[6].id[0] != c[30].id[0]);
    } else if i == 7 && j == 8 {
        assert(c[7].id.len() != c[8].id.len());
    } else if i == 7 && j == 9 {
        assert(c[7].id.len() != c[9].id.len());
    } else if i == 7 && j == 10 {
        assert(c[7].id[4] != c[10].id[4]);
    } else if i == 7 && j == 11 {
        assert(c[7].id[0] != c[11].id[0]);
    } else if i == 7 && j == 12 {
        assert(c[7].id.len() != c[12].id.len());
    } else if i == 7 && j == 13 {
        assert(c[7].id.len() != c[13].id.len());
    } else if i == 7 && j == 14 {
        assert(c[7].id.len() != c[14].id.len());
    } else if i == 7 && j == 15 {
        assert(c[7].id[0] != c[15].id[0]);
    } else if i == 7 && j == 16 {
        assert(c[7].id.len() != c[16].id.len());
    } else if i == 7 && j == 17 {
        assert(c[7].id.len() != c[17].id.len());
    } else if i == 7 && j == 18 {
        assert(c[7].id.len() != c[18].id.len());
    } else if i == 7 && j == 19 {
        assert(c[7].id.len() != c[19].id.len());
    } else if i == 7 && j == 20 {
        assert(c[7].id.len() != c[20].id.len());
    } else if i == 7 && j == 21 {
        assert(c[7].id.len() != c[21].id.len());
    } else if i == 7 && j == 22 {
        assert(c[7].id.len() != c[22].id.len());
    } else if i == 7 && j == 23 {
        assert(c[7].id.len() != c[23].id.len());
    } else if i == 7 && j == 24 {
        assert(c[7].id.len() != c[24].id.len());
    } else if i == 7 && j == 25 {
        assert(c[7].id.len() != c[25].id.len());
    } else if i == 7 && j == 26 {
        assert(c[7].id[0] != c[26].id[0]);
    } else if i == 7 && j == 27 {
        assert(c[7].id[0] != c[27].id[0]);
    } else if i == 7 && j == 28 {
        assert(c[7].id.len() != c[28].id.len());
    } else if i == 7 && j == 29 {
        assert(c[7].id.len() != c[29].id.len());
    } else if i == 7 && j == 30 {
        assert(c[7].id[0] != c[30].id[0]);
    } else if i == 8 && j == 9 {
        assert(c[8].id[8] != c[9].id[8]);
    } else if i == 8 && j == 10 {
        assert(c[8].id.len() != c[10].id.len());
    } else if i == 8 && j == 11 {
        assert(c[8].id.len() != c[11].id.len());
    } else if i == 8 && j == 12 {
        assert(c[8].id.len() != c[12].id.len());
    } else if i == 8 && j == 13 {
        assert(c[8].id.len() != c[13].id.len());
    } else if i == 8 && j == 14 {
        assert(c[8].id.len() != c[14].id.len());
    } else if i == 8 && j == 15 {
        assert(c[8].id.len() != c[15].id.len());
    } else if i == 8 && j == 16 {
        assert(c[8].id.len() != c[16].id.len());
    } else if i == 8 && j == 17 {
        assert(c[8].id.len() != c[17].id.len());
    } else if i == 8 && j == 18 {
        assert(c[8].id.len() != c[18].id.len());
    } else if i == 8 && j == 19 {
        assert(c[8].id.len() != c[19].id.len());
    } else if i == 8 && j == 20 {
        assert(c[8].id.len() != c[20].id.len());
    } else if i == 8 && j == 21 {
        assert(c[8].id.len() != c[21].id.len());
    } else if i == 8 && j == 22 {
        assert(c[8].id.len() != c[22].id.len());
    } else if i == 8 && j == 23 {
        assert(c[8].id.len() != c[23].id.len());
    } else if i == 8 && j == 24 {
        assert(c[8].id.len() != c[24].id.len());
    } else if i == 8 && j == 25 {
        assert(c[8].id.len() != c[25].id.len());
    } else if i == 8 && j == 26 {
        assert(c[8].id.len() != c[26].id.len());
    } else if i == 8 && j == 27 {
        assert(c[8].id.len() != c[27].id.len());
    } else if i == 8 && j == 28 {
        assert(c[8].id[0] != c[28].id[0]);
    } else if i == 8 && j == 29 {
        assert(c[8].id.len() != c[29].id.len());
    } else if i == 8 && j == 30 {
        assert(c[8].id.len() != c[30].id.len());
    } else if i == 9 && j == 10 {
        assert(c[9].id.len() != c[10].id.len());
    } else if i == 9 && j == 11 {
        assert(c[9].id.len() != c[11].id.len());
    } else if i == 9 && j == 12 {
        assert(c[9].id.len() != c[12].id.len());
    } else if i == 9 && j == 13 {
        assert(c[9].id.len() != c[13].id.len());
    } else if i == 9 && j == 14 {
        assert(c[9].id.len() != c[14].id.len());
    } else if i == 9 && j == 15 {
        assert(c[9].id.len() != c[15].id.len());
    } else if i == 9 && j == 16 {
        assert(c[9].id.len() != c[16].id.len());
    } else if i == 9 && j == 17 {
        assert(c[9].id.len() != c[17].id.len());
    } else if i == 9 && j == 18 {
        assert(c[9].id.len() != c[18].id.len());
    } else if i == 9 && j == 19 {
        assert(c[9].id.len() != c[19].id.len());
    } else if i == 9 && j == 20 {
        assert(c[9].id.len() != c[20].id.len());
    } else if i == 9 && j == 21 {
        assert(c[9].id.len() != c[21].id.len());
    } else if i == 9 && j == 22 {
        assert(c[9].id.len() != c[22].id.len());
    } else if i == 9 && j == 23 {
        assert(c[9].id.len() != c[23].id.len());
    } else if i == 9 && j == 24 {
        assert(c[9].id.len() != c[24].id.len());
    } else if i == 9 && j == 25 {
        assert(c[9].id.len() != c[25].id.len());
    } else if i == 9 && j == 26 {
        assert(c[9].id.len() != c[26].id.len());
    } else if i == 9 && j == 27 {
        assert(c[9].id.len() != c[27].id.len());
    } else if i == 9 && j == 28 {
        assert(c[9].id[0] != c[28].id[0]);
    } else if i == 9 && j == 29 {
        assert(c[9].id.len() != c[29].id.len());
    } else if i == 9 && j == 30 {
        assert(c[9].id.len() != c[30].id.len());
    } else if i == 10 && j == 11 {
        assert(c[10].id[0] != c[11].id[0]);
    } else if i == 10 && j == 12 {
        assert(c[10].id.len() != c[12].id.len());
    } else if i == 10 && j == 13 {
        assert(c[10].id.len() != c[13].id.len());
    } else if i == 10 && j == 14 {
        assert(c[10].id.len() != c[14].id.len());
    } else if i == 10 && j == 15 {
        assert(c[10].id[0] != c[15].id[0]);
    } else if i == 10 && j == 16 {
        assert(c[10].id.len() != c[16].id.len());
    } else if i == 10 && j == 17 {
        assert(c[10].id.len() != c[17].id.len());
    } else if i == 10 && j == 18 {
        assert(c[10].id.len() != c[18].id.len());
    } else if i == 10 && j == 19 {
        assert(c[10].id.len() != c[19].id.len());
    } else if i == 10 && j == 20 {
        assert(c[10].id.len() != c[20].id.len());
    } else if i == 10 && j == 21 {
        assert(c[10].id.len() != c[21].id.len());
    } else if i == 10 && j == 22 {
        assert(c[10].id.len() != c[22].id.len());
    } else if i == 10 && j == 23 {
        assert(c[10].id.len() != c[23].id.len());
    } else if i == 10 && j == 24 {
        assert(c[10].id.len() != c[24].id.len());
    } else if i == 10 && j == 25 {
        assert(c[10].id.len() != c[25].id.len());
    } else if i == 10 && j == 26 {
        assert(c[10].id[0] != c[26].id[0]);
    } else if i == 10 && j == 27 {
        assert(c[10].id[0] != c[27].id[0]);
    } else if i == 10 && j == 28 {
        assert(c[10].id.len() != c[28].id.len());
    } else if i == 10 && j == 29 {
        assert(c[10].id.len() != c[29].id.len());
    } else if i == 10 && j == 30 {
        assert(c[10].id[0] != c[30].id[0]);
    } else if i == 11 && j == 12 {
        assert(c[11].id.len() != c[12].id.len());
    } else if i == 11 && j == 13 {
        assert(c[11].id.len() != c[13].id.len());
    } else if i == 11 && j == 14 {
        assert(c[11].id.len() != c[14].id.len());
    } else if i == 11 && j == 15 {
        assert(c[11].id[0] != c[15].id[0]);
    } else if i == 11 && j == 16 {
        assert(c[11].id.len() != c[16].id.len());
    } else if i == 11 && j == 17 {
        assert(c[11].id.len() != c[17].id.len());
    } else if i == 11 && j == 18 {
        assert(c[11].id.len() != c[18].id.len());
    } else if i == 11 && j == 19 {
        assert(c[11].id.len() != c[19].id.len());
    } else if i == 11 && j == 20 {
        assert(c[11].id.len() != c[20].id.len());
    } else if i == 11 && j == 21 {
        assert(c[11].id.len() != c[21].id.len());
    } else if i == 11 && j == 22 {
        assert(c[11].id.len() != c[22].id.len());
    } else if i == 11 && j == 23 {
        assert(c[11].id.len() != c[23].id.len());
    } else if i == 11 && j == 24 {
        assert(c[11].id.len() != c[24].id.len());
    } else if i == 11 && j == 25 {
        assert(c[11].id.len() != c[25].id.len());
    } else if i == 11 && j == 26 {
        assert(c[11].id[0] != c[26].id[0]);
    } else if i == 11 && j == 27 {
        assert(c[11].id[0] != c[27].id[0]);
    } else if i == 11 && j == 28 {
        assert(c[11].id.len() != c[28].id.len());
    } else if i == 11 && j == 29 {
        assert(c[11].id.len() != c[29].id.len());
    } else if i == 11 && j == 30 {
        assert(c[11].id[0] != c[30].id[0]);
    } else if i == 12 && j == 13 {
        assert(c[12].id.len() != c[13].id.len());
    } else if i == 12 && j == 14 {
        assert(c[12].id[4] != c[14].id[4]);
    } else if i == 12 && j == 15 {
        assert(c[12].id.len() != c[15].id.len());
    } else if i == 12 && j == 16 {
        assert(c[12].id.len() != c[16].id.len());
    } else if i == 12 && j == 17 {
        assert(c[12].id.len() != c[17].id.len());
    } else if i == 12 && j == 18 {
        assert(c[12].id.len() != c[18].id.len());
    } else if i == 12 && j == 19 {
        assert(c[12].id.len() != c[19].id.len());
    } else if i == 12 && j == 20 {
        assert(c[12].id[4] != c[20].id[4]);
    } else if i == 12 && j == 21 {
        assert(c[12].id[4] != c[21].id[4]);
    } else if i == 12 && j == 22 {
        assert(c[12].id.len() != c[22].id.len());
    } else if i == 12 && j == 23 {
        assert(c[12].id.len() != c[23].id.len());
    } else if i == 12 && j == 24 {
        assert(c[12].id.len() != c[24].id.len());
    } else if i == 12 && j == 25 {
        assert(c[12].id.len() != c[25].id.len());
    } else if i == 12 && j == 26 {
        assert(c[12].id.len() != c[26].id.len());
    } else if i == 12 && j == 27 {
        assert(c[12].id.len() != c[27].id.len());
    } else if i == 12 && j == 28 {
        assert(c[12].id.len() != c[28].id.len());
    } else if i == 12 && j == 29 {
        assert(c[12].id[0] != c[29].id[0]);
    } else if i == 12 && j == 30 {
        assert(c[12].id.len() != c[30].id.len());
    } else if i == 13 && j == 14 {
        assert(c[13].id.len() != c[14].id.len());
    } else if i == 13 && j == 15 {
        assert(c[13].id.len() != c[15].id.len());
    } else if i == 13 && j == 16 {
        assert(c[13].id.len() != c[16].id.len());
    } else if i == 13 && j == 17 {
        assert(c[13].id.len() != c[17].id.len());
    } else if i == 13 && j == 18 {
        assert(c[13].id.len() != c[18].id.len());
    } else if i == 13 && j == 19 {
        assert(c[13].id.len() != c[19].id.len());
    } else if i == 13 && j == 20 {
        assert(c[13].id.len() != c[20].id.len());
    } else if i == 13 && j == 21 {
        assert(c[13].id.len() != c[21].id.len());
    } else if i == 13 && j == 22 {
        assert(c[13].id.len() != c[22].id.len());
    } else if i == 13 && j == 23 {
        assert(c[13].id.len() != c[23].id.len());
    } else if i == 13 && j == 24 {
        assert(c[13].id.len() != c[24].id.len());
    } else if i == 13 && j == 25 {
        assert(c[13].id.len() != c[25].id.len());
    } else if i == 13 && j == 26 {
        assert(c[13].id.len() != c[26].id.len());
    } else if i == 13 && j == 27 {
        assert(c[13].id.len() != c[27].id.len());
    } else if i == 13 && j == 28 {
        assert(c[13].id.len() != c[28].id.len());
    } else if i == 13 && j == 29 {
        assert(c[13].id.len() != c[29].id.len());
    } else if i == 13 && j == 30 {
        assert(c[13].id.len() != c[30].id.len());
    } else if i == 14 && j == 15 {
        assert(c[14].id.len() != c[15].id.len());
    } else if i == 14 && j == 16 {
        assert(c[14].id.len() != c[16].id.len());
    } else if i == 14 && j == 17 {
        assert(c[14].id.len() != c[17].id.len());
    } else if i == 14 && j == 18 {
        assert(c[14].id.len() != c[18].id.len());
    } else if i == 14 && j == 19 {
        assert(c[14].id.len() != c[19].id.len());
    } else if i == 14 && j == 20 {
        assert(c[14].id[4] != c[20].id[4]);
    } else if i == 14 && j == 21 {
        assert(c[14].id[4] != c[21].id[4]);
    } else if i == 14 && j == 22 {
        assert(c[14].id.len() != c[22].id.len());
    } else if i == 14 && j == 23 {
        assert(c[14].id.len() != c[23].id.len());
    } else if i == 14 && j == 24 {
        assert(c[14].id.len() != c[24].id.len());
    } else if i == 14 && j == 25 {
        assert(c[14].id.len() != c[25].id.len());
    } else if i == 14 && j == 26 {
        assert(c[14].id.len() != c[26].id.len());
    } else if i == 14 && j == 27 {
        assert(c[14].id.len() != c[27].id.len());
    } else if i == 14 && j == 28 {
        assert(c[14].id.len() != c[28].id.len());
    } else if i == 14 && j == 29 {
        assert(c[14].id[0] != c[29].id[0]);
    } else if i == 14 && j == 30 {
        assert(c[14].id.len() != c[30].id.len());
    } else if i == 15 && j == 16 {
        assert(c[15].id.len() != c[16].id.len());
    } else if i == 15 && j == 17 {
        assert(c[15].id.len() != c[17].id.len());
    } else if i == 15 && j == 18 {
        assert(c[15].id.len() != c[18].id.len());
    } else if i == 15 && j == 19 {
        assert(c[15].id.len() != c[19].id.len());
    } else if i == 15 && j == 20 {
        assert(c[15].id.len() != c[20].id.len());
    } else if i == 15 && j == 21 {
        assert(c[15].id.len() != c[21].id.len());
    } else if i == 15 && j == 22 {
        assert(c[15].id.len() != c[22].id.len());
    } else if i == 15 && j == 23 {
        assert(c[15].id.len() != c[23].id.len());
    } else if i == 15 && j == 24 {
        assert(c[15].id.len() != c[24].id.len());
    } else if i == 15 && j == 25 {
        assert(c[15].id.len() != c[25].id.len());
    } else if i == 15 && j == 26 {
        assert(c[15].id[0] != c[26].id[0]);
    } else if i == 15 && j == 27 {
        assert(c[15].id[0] != c[27].id[0]);
    } else if i == 15 && j == 28 {
        assert(c[15].id.len() != c[28].id.len());
    } else if i == 15 && j == 29 {
        assert(c[15].id.len() != c[29].id.len());
    } else if i == 15 && j == 30 {
        assert(c[15].id[0] != c[30].id[0]);
    } else if i == 16 && j == 17 {
        assert(c[16].id.len() != c[17].id.len());
    } else if i == 16 && j == 18 {
        assert(c[16].id.len() != c[18].id.len());
    } else if i == 16 && j == 19 {
        assert(c[16].id.len() != c[19].id.len());
    } else if i == 16 && j == 20 {
        assert(c[16].id.len() != c[20].id.len());
    } else if i == 16 && j == 21 {
        assert(c[16].id.len() != c[21].id.len());
    } else if i == 16 && j == 22 {
        assert(c[16].id.len() != c[22].id.len());
    } else if i == 16 && j == 23 {
        assert(c[16].id.len() != c[23].id.len());
    } else if i == 16 && j == 24 {
        assert(c[16].id[4] != c[24].id[4]);
    } else if i == 16 && j == 25 {
        assert(c[16].id[4] != c[25].id[4]);
    } else if i == 16 && j == 26 {
        assert(c[16].id.len() != c[26].id.len());
    } else if i == 16 && j == 27 {
        assert(c[16].id.len() != c[27].id.len());
    } else if i == 16 && j == 28 {
        assert(c[16].id.len() != c[28].id.len());
    } else if i == 16 && j == 29 {
        assert(c[16].id.len() != c[29].id.len());
    } else if i == 16 && j == 30 {
        assert(c[16].id.len() != c[30].id.len());
    } else if i == 17 && j == 18 {
        assert(c[17].id.len() != c[18].id.len());
    } else if i == 17 && j == 19 {
        assert(c[17].id.len() != c[19].id.len());
    } else if i == 17 && j == 20 {
        assert(c[17].id.len() != c[20].id.len());
    } else if i == 17 && j == 21 {
        assert(c[17].id.len() != c[21].id.len());
    } else if i == 17 && j == 22 {
        assert(c[17].id.len() != c[22].id.len());
    } else if i == 17 && j == 23 {
        assert(c[17].id.len() != c[23].id.len());
    } else if i == 17 && j == 24 {
        assert(c[17].id.len() != c[24].id.len());
    } else if i == 17 && j == 25 {
        assert(c[17].id.len() != c[25].id.len());
    } else if i == 17 && j == 26 {
        assert(c[17].id.len() != c[26].id.len());
    } else if i == 17 && j == 27 {
        assert(c[17].id.len() != c[27].id.len());
    } else if i == 17 && j == 28 {
        assert(c[17].id.len() != c[28].id.len());
    } else if i == 17 && j == 29 {
        assert(c[17].id.len() != c[29].id.len());
    } else if i == 17 && j == 30 {
        assert(c[17].id.len() != c[30].id.len());
    } else if i == 18 && j == 19 {
        assert(c[18].id[4] != c[19].id[4]);
    } else if i == 18 && j == 20 {
        assert(c[18].id.len() != c[20].id.len());
    } else if i == 18 && j == 21 {
        assert(c[18].id.len() != c[21].id.len());
    } else if i == 18 && j == 22 {
        assert(c[18].id.len() != c[22].id.len());
    } else if i == 18 && j == 23 {
        assert(c[18].id.len() != c[23].id.len());
    } else if i == 18 && j == 24 {
        assert(c[18].id.len() != c[24].id.len());
    } else if i == 18 && j == 25 {
        assert(c[18].id.len() != c[25].id.len());
    } else if i == 18 && j == 26 {
        assert(c[18].id.len() != c[26].id.len());
    } else if i == 18 && j == 27 {
        assert(c[18].id.len() != c[27].id.len());
    } else if i == 18 && j == 28 {
        assert(c[18].id.len() != c[28].id.len());
    } else if i == 18 && j == 29 {
        assert(c[18].id.len() != c[29].id.len());
    } else if i == 18 && j == 30 {
        assert(c[18].id.len() != c[30].id.len());
    } else if i == 19 && j == 20 {
        assert(c[19].id.len() != c[20].id.len());
    } else if i == 19 && j == 21 {
        assert(c[19].id.len() != c[21].id.len());
    } else if i == 19 && j == 22 {
        assert(c[19].id.len() != c[22].id.len());
    } else if i == 19 && j == 23 {
        assert(c[19].id.len() != c[23].id.len());
    } else if i == 19 && j == 24 {
        assert(c[19].id.len() != c[24].id.len());
    } else if i == 19 && j == 25 {
        assert(c[19].id.len() != c[25].id.len());
    } else if i == 19 && j == 26 {
        assert(c[19].id.len() != c[26].id.len());
    } else if i == 19 && j == 27 {
        assert(c[19].id.len() != c[27].id.len());
    } else if i == 19 && j == 28 {
        assert(c[19].id.len() != c[28].id.len());
    } else if i == 19 && j == 29 {
        assert(c[19].id.len() != c[29].id.len());
    } else if i == 19 && j == 30 {
        assert(c[19].id.len() != c[30].id.len());
    } else if i == 20 && j == 21 {
        assert(c[20].id[4] != c[21].id[4]);
    } else if i == 20 && j == 22 {
        assert(c[20].id.len() != c[22].id.len());
    } else if i == 20 && j == 23 {
        assert(c[20].id.len() != c[23].id.len());
    } else if i == 20 && j == 24 {
        assert(c[20].id.len() != c[24].id.len());
    } else if i == 20 && j == 25 {
        assert(c[20].id.len() != c[25].id.len());
    } else if i == 20 && j == 26 {
        assert(c[20].id.len() != c[26].id.len());
    } else if i == 20 && j == 27 {
        assert(c[20].id.len() != c[27].id.len());
    } else if i == 20 && j == 28 {
        assert(c[20].id.len() != c[28].id.len());
    } else if i == 20 && j == 29 {
        assert(c[20].id[0] != c[29].id[0]);
    } else if i == 20 && j == 30 {
        assert(c[20].id.len() != c[30].id.len());
    } else if i == 21 && j == 22 {
        assert(c[21].id.len() != c[22].id.len());
    } else if i == 21 && j == 23 {
        assert(c[21].id.len() != c[23].id.len());
    } else if i == 21 && j == 24 {
        assert(c[21].id.len() != c[24].id.len());
    } else if i == 21 && j == 25 {
        assert(c[21].id.len() != c[25].id.len());
    } else if i == 21 && j == 26 {
        assert(c[21].id.len() != c[26].id.len());
    } else if i == 21 && j == 27 {
        assert(c[21].id.len() != c[27].id.len());
    } else if i == 21 && j == 28 {
        assert(c[21].id.len() != c[28].id.len());
    } else if i == 21 && j == 29 {
        assert(c[21].id[0] != c[29].id[0]);
    } else if i == 21 && j == 30 {
        assert(c[21].id.len() != c[30].id.len());
    } else if i == 22 && j == 23 {
        assert(c[22].id[4] != c[23].id[4]);
    } else if i == 22 && j == 24 {
        assert(c[22].id.len() != c[24].id.len());
    } else if i == 22 && j == 25 {
        assert(c[22].id.len() != c[25].id.len());
    } else if i == 22 && j == 26 {
        assert(c[22].id.len() != c[26].id.len());
    } else if i == 22 && j == 27 {
        assert(c[22].id.len() != c[27].id.len());
    } else if i == 22 && j == 28 {
        assert(c[22].id.len() != c[28].id.len());
    } else if i == 22 && j == 29 {
        assert(c[22].id.len() != c[29].id.len());
    } else if i == 22 && j == 30 {
        assert(c[22].id.len() != c[30].id.len());
    } else if i == 23 && j == 24 {
        assert(c[23].id.len() != c[24].id.len());
    } else if i == 23 && j == 25 {
        assert(c[23].id.len() != c[25].id.len());
    } else if i == 23 && j == 26 {
        assert(c[23].id.len() != c[26].id.len());
    } else if i == 23 && j == 27 {
        assert(c[23].id.len() != c[27].id.len());
    } else if i == 23 && j == 28 {
        assert(c[23].id.len() != c[28].id.len());
    } else if i == 23 && j == 29 {
        assert(c[23].id.len() != c[29].id.len());
    } else if i == 23 && j == 30 {
        assert(c[23].id.len() != c[30].id.len());
    } else if i == 24 && j == 25 {
        assert(c[24].id[4] != c[25].id[4]);
    } else if i == 24 && j == 26 {
        assert(c[24].id.len() != c[26].id.len());
    } else if i == 24 && j == 27 {
        assert(c[24].id.len() != c[27].id.len());
    } else if i == 24 && j == 28 {
        assert(c[24].id.len() != c[28].id.len());
    } else if i == 24 && j == 29 {
        assert(c[24].id.len() != c[29].id.len());
    } else if i == 24 && j == 30 {
        assert(c[24].id.len() != c[30].id.len());
    } else if i == 25 && j == 26 {
        assert(c[25].id.len() != c[26].id.len());
    } else if i == 25 && j == 27 {
        assert(c[25].id.len() != c[27].id.len());
    } else if i == 25 && j == 28 {
        assert(c[25].id.len() != c[28].id.len());
    } else if i == 25 && j == 29 {
        assert(c[25].id.len() != c[29].id.len());
    } else if i == 25 && j == 30 {
        assert(c[25].id.len() != c[30].id.len());
    } else if i == 26 && j == 27 {
        assert(c[26].id[5] != c[27].id[5]);
    } else if i == 26 && j == 28 {
        assert(c[26].id.len() != c[28].id.len());
    } else if i == 26 && j == 29 {
        assert(c[26].id.len() != c[29].id.len());
    } else if i == 26 && j == 30 {
        assert(c[26].id[5] != c[30].id[5]);
    } else if i == 27 && j == 28 {
        assert(c[27].id.len() != c[28].id.len());
    } else if i == 27 && j == 29 {
        assert(c[27].id.len() != c[29].id.len());
    } else if i == 27 && j == 30 {
        assert(c[27].id[5] != c[30].id[5]);
    } else if i == 28 && j == 29 {
        assert(c[28].id.len() != c[29].id.len());
    } else if i == 28 && j == 30 {
        assert(c[28].id.len() != c[30].id.len());
    } else if i == 29 && j == 30 {
        assert(c[29].id.len() != c[30].id.len());
    }
}

/// Every metric's default unit is one of the units it can be asked for in.
pub proof fn law_default_unit_available(i: int)
    requires
        0 <= i < catalog_spec().len(),
    ensures
        exists|k: int|
            0 <= k < catalog_spec()[i].available_units.len() && catalog_spec()[i].available_units[k]
                == catalog_spec()[i].default_unit,
{
    let c = catalog_spec();
    if i == 0 {
        assert(c[0].available_units[0] == c[0].default_unit);
    } else if i == 1 {
        assert(c[1].available_units[0] == c[1].default_unit);
    } else if i == 2 {
        assert(c[2].available_units[3] == c[2].default_unit);
    } else if i == 3 {
        assert(c[3].available_units[3] == c[3].default_unit);
    } else if i == 4 {
        assert(c[4].available_units[0] == c[4].default_unit);
    } else if i == 5 {
        assert(c[5].available_units[3] == c[5].default_unit);
    } else if i == 6 {
        assert(c[6].available_units[3] == c[6].default_unit);
    } else if i == 7 {
        assert(c[7].available_units[0] == c[7].default_unit);
    } else if i == 8 {
        assert(c[8].available_units[0] == c[8].default_unit);
    } else if i == 9 {
        assert(c[9].available_units[0] == c[9].default_unit);
    } else if i == 10 {
        assert(c[10].available_units[0] == c[10].default_unit);
    } else if i == 11 {
        assert(c[11].available_units[0] == c[11].default_unit);
    } else if i == 12 {
        assert(c[12].available_units[0] == c[12].default_unit);
    } else if i == 13 {
        assert(c[13].available_units[0] == c[13].default_unit);
    } else if i == 14 {
        assert(c[14].available_units[0] == c[14].default_unit);
    } else if i == 15 {
        assert(c[15].available_units[0] == c[15].default_unit);
    } else if i == 16 {
        assert(c[16].available_units[0] == c[16].default_unit);
    } else if i == 17 {
        assert(c[17].available_units[0] == c[17].default_unit);
    } else if i == 18 {
        assert(c[18].available_units[0] == c[18].default_unit);
    } else if i == 19 {
        assert(c[19].available_units[0] == c[19].default_unit);
    } else if i == 20 {
        assert(c[20].available_units[0] == c[20].default_unit);
    } else if i == 21 {
        assert(c[21].available_units[0] == c[21].default_unit);
    } else if i == 22 {
        assert(c[22].available_units[0] == c[22].default_unit);
    } else if i == 23 {
        assert(c[23].available_units[0] == c[23].default_unit);
    } else if i == 24 {
        assert(c[24].available_units[0] == c[24].default_unit);
    } else if i == 25 {
        assert(c[25].available_units[0] == c[25].default_unit);
    } else if i == 26 {
        assert(c[26].available_units[0] == c[26].default_unit);
    } else if i == 27 {
        assert(c[27].available_units[3] == c[27].default_unit);
    } else if i == 28 {
        assert(c[28].available_units[3] == c[28].default_unit);
    } else if i == 29 {
        assert(c[29].available_units[3] == c[29].default_unit);
    } else if i == 30 {
        assert(c[30].available_units[0] == c[30].default_unit);
    }
}

/// The views of the entries of a catalog.
pub open spec fn catalog_views(c: Seq<CatalogMetric>) -> Seq<CatalogMetricView> {
    c.map_values(|m: CatalogMetric| m@)
}

fn str_list1(a: &str) -> (r: Vec<String>)
    ensures
        string_views(r@) == seq![a@],
{
    let mut r: Vec<String> = Vec::new();
    r.push(owned(a));
    proof {
        assert(string_views(r@) =~= seq![a@]);
    }
    r
}

fn str_list4(a: &str, b: &str, c: &str, d: &str) -> (r: Vec<String>)
    ensures
        string_views(r@) == seq![a@, b@, c@, d@],
{
    let mut r: Vec<String> = Vec::new();
    r.push(owned(a));
    r.push(owned(b));
    r.push(owned(c));
    r.push(owned(d));
    proof {
        assert(string_views(r@) =~= seq![a@, b@, c@, d@]);
    }
    r
}

fn str_list5(a: &str, b: &str, c: &str, d: &str, e: &str) -> (r: Vec<String>)
    ensures
        string_views(r@) == seq![a@, b@, c@, d@, e@],
{
    let mut r: Vec<String> = Vec::new();
    r.push(owned(a));
    r.push(owned(b));
    r.push(owned(c));
    r.push(owned(d));
    r.push(owned(e));
    proof {
        assert(string_views(r@) =~= seq![a@, b@, c@, d@, e@]);
    }
    r
}

fn memory_units() -> (r: Vec<String>)
    ensures
        string_views(r@) == seq![
            "B"@,
            "KB"@,
            "MB"@,
            "GB"@,
            "TB"@,
            "KiB"@,
            "MiB"@,
            "GiB"@,
            "TiB"@,
        ],
{
    let mut r: Vec<String> = Vec::new();
    r.push(owned("B"));
    r.push(owned("KB"));
    r.push(owned("MB"));
    r.push(owned("GB"));
    r.push(owned("TB"));
    r.push(owned("KiB"));
    r.push(owned("MiB"));
    r.push(owned("GiB"));
    r.push(owned("TiB"));
    proof {
        assert(string_views(r@) =~= seq![
            "B"@,
            "KB"@,
            "MB"@,
            "GB"@,
            "TB"@,
            "KiB"@,
            "MiB"@,
            "GiB"@,
            "TiB"@,
        ]);
    }
    r
}

fn make_metric(
    id: &str,
    name: &str,
    default_unit: &str,
    available_units: Vec<String>,
    is_static: bool,
    data_type: MetricDataType,
) -> (m: CatalogMetric)
    ensures
        m@ == catalog_row(
            id@,
            name@,
            default_unit@,
            string_views(available_units@),
            is_static,
            data_type,
        ),
{
    CatalogMetric {
        id: owned(id),
        name: owned(name),
        default_unit: owned(default_unit),
        available_units,
        is_static,
        data_type,
    }
}

/// The catalog of metrics the server offers.
pub fn build_catalog() -> (r: Vec<CatalogMetric>)
    ensures
        catalog_views(r@) == catalog_spec(),
{
    let r = vec![
        make_metric("cpu.usage", "CPU Usage", "%", str_list1("%"), false, MetricDataType::Float),
        make_metric("cpu.cores", "CPU Core Count", "cores", str_list1("cores"), true, MetricDataType::Integer),
        make_metric("mem.used", "Memory Used", "GB", memory_units(), false, MetricDataType::Float),
        make_metric("mem.total", "Memory Total", "GB", memory_units(), true, MetricDataType::Integer),
        make_metric("mem.usage", "Memory Usage", "%", str_list1("%"), false, MetricDataType::Float),
        make_metric("swap.used", "Swap Used", "GB", memory_units(), false, MetricDataType::Float),
        make_metric("swap.total", "Swap Total", "GB", memory_units(), true, MetricDataType::Integer),
        make_metric("sys.uptime", "System Uptime", "s", str_list4("s", "ms", "m", "h"), false, MetricDataType::Float),
        make_metric("sys.load1", "Load Average (1m)", "", str_list1(""), false, MetricDataType::Float),
        make_metric("sys.load5", "Load Average (5m)", "", str_list1(""), false, MetricDataType::Float),
        make_metric("sys.load15", "Load Average (15m)", "", str_list1(""), false, MetricDataType::Float),
        make_metric("proc.count", "Process Count", "procs", str_list1("procs"), false, MetricDataType::Integer),
        make_metric("net.interfaces", "Network Interface Names", "", str_list1(""), false, MetricDataType::StringList),
        make_metric("net.ip_addresses", "Network IP Addresses", "", str_list1(""), false, MetricDataType::StringList),
        make_metric("net.wifi_ssids", "Visible Wi-Fi Network Names (SSIDs)", "", str_list1(""), false, MetricDataType::StringList),
        make_metric("net.routes", "Network Routes", "", str_list1(""), false, MetricDataType::StringList),
        make_metric("net.default_gateway", "Default Gateway", "", str_list1(""), false, MetricDataType::String),
        make_metric("net.iface_count", "Network Interface Count", "ifaces", str_list1("ifaces"), false, MetricDataType::Integer),
        make_metric("net.rx_bytes", "Network Received (count, per-interface)", "B", memory_units(), false, MetricDataType::StringList),
        make_metric("net.tx_bytes", "Network Transmitted (count, per-interface)", "B", memory_units(), false, MetricDataType::StringList),
        make_metric("net.rx_packets", "Network Packets Received (count, per-interface)", "pkts", str_list1("pkts"), false, MetricDataType::StringList),
        make_metric("net.tx_packets", "Network Packets Transmitted (count, per-interface)", "pkts", str_list1("pkts"), false, MetricDataType::StringList),
        make_metric("net.rx_bytes_rate", "Network Received (rate, per-interface)", "B/s", str_list5("B/s", "KB/s", "MB/s", "KiB/s", "MiB/s"), false, MetricDataType::StringList),
        make_metric("net.tx_bytes_rate", "Network Transmitted (rate, per-interface)", "B/s", str_list5("B/s", "KB/s", "MB/s", "KiB/s", "MiB/s"), false, MetricDataType::StringList),
        make_metric("net.rx_packets_rate", "Network Packets Received (rate, per-interface)", "pps", str_list1("pps"), false, MetricDataType::StringList),
        make_metric("net.tx_packets_rate", "Network Packets Transmitted (rate, per-interface)", "pps", str_list1("pps"), false, MetricDataType::StringList),
        make_metric("disk.count", "Disk Count", "disks", str_list1("disks"), false, MetricDataType::Integer),
        make_metric("disk.total", "Disk Total Space", "GB", memory_units(), false, MetricDataType::Float),
        make_metric("disk.used", "Disk Used Space", "GB", memory_units(), false, MetricDataType::Float),
        make_metric("disk.available", "Disk Available Space", "GB", memory_units(), false, MetricDataType::Float),
        make_metric("disk.usage", "Disk Usage", "%", str_list1("%"), false, MetricDataType::Float),
    ];
    proof {
        assert(catalog_views(r@) =~= catalog_spec());
    }
    r
}


/// The position of the first catalog entry with the given id, or -1.
pub open spec fn find_metric(c: Seq<CatalogMetric>, id: Seq<char>) -> int
    decreases c.len(),
{
    if c.len() == 0 {
        -1
    } else if c[0].id@ == id {
        0
    } else {
        let r = find_metric(c.drop_first(), id);
        if r < 0 {
            -1
        } else {
            r + 1
        }
    }
}

pub proof fn lemma_find_metric(c: Seq<CatalogMetric>, id: Seq<char>, i: int)
    requires
        0 <= i <= c.len(),
        forall|k: int| 0 <= k < i ==> c[k].id@ != id,
        i < c.len() ==> c[i].id@ == id,
    ensures
        find_metric(c, id) == (if i < c.len() {
            i
        } else {
            -1
        }),
    decreases c.len(),
{
    if c.len() > 0 && i > 0 {
        let t = c.drop_first();
        assert forall|k: int| 0 <= k < i - 1 implies t[k].id@ != id by {
            assert(t[k] == c[k + 1]);
        }
        lemma_find_metric(t, id, i - 1);
    }
}

/// The position of the catalog entry for `id` (the first, should ids repeat).
pub fn catalog_index(catalog: &[CatalogMetric], id: &str) -> (r: Option<usize>)
    ensures
        match r {
            Some(i) => i < catalog@.len() && find_metric(catalog@, id@) == i as int,
            None => find_metric(catalog@, id@) == -1,
        },
{
    let n = catalog.len();
    let mut i: usize = 0;
    while i < n
        invariant
            i <= n,
            n == catalog@.len(),
            forall|k: int| 0 <= k < i ==> catalog@[k].id@ != id@,
        decreases n - i,
    {
        if str_eq(catalog[i].id.as_str(), id) {
            proof {
                lemma_find_metric(catalog@, id@, i as int);
            }
            return Some(i);
        }
        i += 1;
    }
    proof {
        lemma_find_metric(catalog@, id@, n as int);
    }
    None
}

/// The catalog entry for `id`, if the catalog lists it.
pub fn catalog_entry<'a>(catalog: &'a [CatalogMetric], id: &str) -> (r: Option<&'a CatalogMetric>)
    ensures
        match r {
            Some(m) => {
                &&& 0 <= find_metric(catalog@, id@)
                &&& *m == catalog@[find_metric(catalog@, id@)]
            },
            None => find_metric(catalog@, id@) == -1,
        },
{
    match catalog_index(catalog, id) {
        Some(i) => Some(&catalog[i]),
        None => None,
    }
}

// ---------------------------------------------------------------------------
// Units
// ---------------------------------------------------------------------------

/// How many bytes one unit of a memory unit holds.
pub open spec fn byte_divisor(u: Seq<char>) -> Option<u64> {
    if u == "B"@ {
        Some(1)
    } else if u == "KB"@ {
        Some(1000)
    } else if u == "MB"@ {
        Some(1000000)
    } else if u == "GB"@ {
        Some(1000000000)
    } else if u == "TB"@ {
        Some(1000000000000)
    } else if u == "KiB"@ {
        Some(1024)
    } else if u == "MiB"@ {
        Some(1048576)
    } else if u == "GiB"@ {
        Some(1073741824)
    } else if u == "TiB"@ {
        Some(1099511627776)
    } else {
        None
    }
}

/// The divisor that converts a byte count to `unit`, or `None` for a unit that is
/// not a memory unit.
pub fn bytes_unit_divisor(unit: &str) -> (r: Option<u64>)
    ensures
        r == byte_divisor(unit@),
{
    if str_eq(unit, "B") {
        Some(1)
    } else if str_eq(unit, "KB") {
        Some(1000)
    } else if str_eq(unit, "MB") {
        Some(1000000)
    } else if str_eq(unit, "GB") {
        Some(1000000000)
    } else if str_eq(unit, "TB") {
        Some(1000000000000)
    } else if str_eq(unit, "KiB") {
        Some(1024)
    } else if str_eq(unit, "MiB") {
        Some(1048576)
    } else if str_eq(unit, "GiB") {
        Some(1073741824)
    } else if str_eq(unit, "TiB") {
        Some(1099511627776)
    } else {
        None
    }
}

/// How many bytes per second one unit of a transfer-rate unit is.
pub open spec fn byte_rate_divisor(u: Seq<char>) -> Option<u64> {
    if u == "B/s"@ {
        Some(1)
    } else if u == "KB/s"@ {
        Some(1000)
    } else if u == "MB/s"@ {
        Some(1000000)
    } else if u == "KiB/s"@ {
        Some(1024)
    } else if u == "MiB/s"@ {
        Some(1048576)
    } else {
        None
    }
}

/// The divisor that converts bytes per second to `unit`, or `None` for another unit.
pub fn bytes_rate_unit_divisor(unit: &str) -> (r: Option<u64>)
    ensures
        r == byte_rate_divisor(unit@),
{
    if str_eq(unit, "B/s") {
        Some(1)
    } else if str_eq(unit, "KB/s") {
        Some(1000)
    } else if str_eq(unit, "MB/s") {
        Some(1000000)
    } else if str_eq(unit, "KiB/s") {
        Some(1024)
    } else if str_eq(unit, "MiB/s") {
        Some(1048576)
    } else {
        None
    }
}

/// How a number of seconds becomes a number in another time unit.
#[derive(Debug, Clone, Copy, PartialEq, Eq, Structural)]
pub enum TimeScale {
    /// Multiply the seconds by this factor.
    Multiply(u64),
    /// Divide the seconds by this divisor.
    Divide(u64),
}

pub open spec fn time_scale_for(u: Seq<char>) -> Option<TimeScale> {
    if u == "s"@ {
        Some(TimeScale::Multiply(1))
    } else if u == "ms"@ {
        Some(TimeScale::Multiply(1000))
    } else if u == "m"@ {
        Some(TimeScale::Divide(60))
    } else if u == "h"@ {
        Some(TimeScale::Divide(3600))
    } else {
        None
    }
}

/// The scale that converts seconds to `unit`, or `None` for a unit that is not a time unit.
pub fn seconds_unit_scale(unit: &str) -> (r: Option<TimeScale>)
    ensures
        r == time_scale_for(unit@),
{
    if str_eq(unit, "s") {
        Some(TimeScale::Multiply(1))
    } else if str_eq(unit, "ms") {
        Some(TimeScale::Multiply(1000))
    } else if str_eq(unit, "m") {
        Some(TimeScale::Divide(60))
    } else if str_eq(unit, "h") {
        Some(TimeScale::Divide(3600))
    } else {
        None
    }
}

/// The length of a time unit in milliseconds: a second is 1000, a millisecond 1, a
/// minute 60 000 and an hour 3 600 000; 0 for a name that is not one of these units.
pub open spec fn time_unit_ms(u: Seq<char>) -> int {
    if u == "h"@ {
        3600000
    } else if u == "m"@ {
        60000
    } else if u == "ms"@ {
        1
    } else if u == "s"@ {
        1000
    } else {
        0
    }
}

/// `sc` turns a number of seconds into that many units of `unit_ms` milliseconds each:
/// x seconds become x * 1000 / unit_ms units.
pub open spec fn scales_seconds_to(sc: TimeScale, unit_ms: int) -> bool {
    match sc {
        TimeScale::Multiply(f) => f * unit_ms == 1000,
        TimeScale::Divide(d) => unit_ms == d * 1000,
    }
}

/// The time scale of a unit converts seconds into that unit by its length: seconds are
/// kept, a minute is 60 s and an hour 3600 s (x seconds become x / 60 and x / 3600), a
/// millisecond is 1/1000 s (x seconds become 1000 x); any other name has no time scale.
pub proof fn law_time_scale_by_unit_length(u: Seq<char>)
    ensures
        (time_scale_for(u) is Some) <==> time_unit_ms(u) > 0,
        time_scale_for(u) matches Some(sc) ==> scales_seconds_to(sc, time_unit_ms(u)),
{
    reveal_strlit("s");
    reveal_strlit("ms");
    reveal_strlit("m");
    reveal_strlit("h");
    assert("ms"@.len() == 2 && "m"@.len() == 1 && "h"@.len() == 1 && "s"@.len() == 1);
    assert("s"@[0] == 's' && "m"@[0] == 'm' && "h"@[0] == 'h' && "ms"@[0] == 'm');
    assert("s"@ != "h"@ && "s"@ != "m"@ && "s"@ != "ms"@);
    assert("m"@ != "h"@ && "m"@ != "ms"@ && "ms"@ != "h"@);
    if u == "s"@ {
        assert(time_scale_for(u) == Some(TimeScale::Multiply(1)));
        assert(time_unit_ms(u) == 1000);
    } else if u == "ms"@ {
        assert(time_scale_for(u) == Some(TimeScale::Multiply(1000)));
        assert(time_unit_ms(u) == 1);
    } else if u == "m"@ {
        assert(time_scale_for(u) == Some(TimeScale::Divide(60)));
        assert(time_unit_ms(u) == 60000);
    } else if u == "h"@ {
        assert(time_scale_for(u) == Some(TimeScale::Divide(3600)));
        assert(time_unit_ms(u) == 3600000);
    }
}

/// Which unit conversion a metric's raw value goes through.
#[derive(Debug, Clone, Copy, PartialEq, Eq, Structural)]
pub enum ValueConversion {
    /// A byte count: divided by the unit's size in bytes.
    Bytes,
    /// A number of seconds: scaled to the time unit.
    Seconds,
    /// Reported as read.
    Identity,
}

pub open spec fn conversion_for(id: Seq<char>) -> ValueConversion {
    if has_prefix(id, "mem."@) || has_prefix(id, "swap."@) || id == "disk.total"@ || id
        == "disk.used"@ || id == "disk.available"@ {
        ValueConversion::Bytes
    } else if id == "sys.uptime"@ {
        ValueConversion::Seconds
    } else {
        ValueConversion::Identity
    }
}

fn starts_with_lit(s: &str, p: &str) -> (r: bool)
    ensures
        r == has_prefix(s@, p@),
{
    let a = chars_of(s);
    let b = chars_of(p);
    starts_with_chars(a.as_slice(), b.as_slice())
}

/// The conversion that a metric's raw value goes through before it is reported.
pub fn value_conversion(metric_id: &str) -> (r: ValueConversion)
    ensures
        r == conversion_for(metric_id@),
{
    if starts_with_lit(metric_id, "mem.") || starts_with_lit(metric_id, "swap.") || str_eq(
        metric_id,
        "disk.total",
    ) || str_eq(metric_id, "disk.used") || str_eq(metric_id, "disk.available") {
        ValueConversion::Bytes
    } else if str_eq(metric_id, "sys.uptime") {
        ValueConversion::Seconds
    } else {
        ValueConversion::Identity
    }
}

// ---------------------------------------------------------------------------
// What a sample needs refreshed
// ---------------------------------------------------------------------------

pub open spec fn spec_needs_sys(id: Seq<char>) -> bool {
    ||| has_prefix(id, "cpu."@)
    ||| has_prefix(id, "mem."@)
    ||| has_prefix(id, "swap."@)
    ||| has_prefix(id, "proc."@)
    ||| id == "sys.uptime"@
    ||| id == "sys.load1"@
    ||| id == "sys.load5"@
    ||| id == "sys.load15"@
}

pub open spec fn spec_needs_disks(id: Seq<char>) -> bool {
    has_prefix(id, "disk."@)
}

pub open spec fn spec_needs_networks(id: Seq<char>) -> bool {
    has_prefix(id, "net."@)
}

/// Whether sampling `id` reads the system table (CPU, memory, processes, load).
pub fn needs_sys(id: &str) -> (r: bool)
    ensures
        r == spec_needs_sys(id@),
{
    starts_with_lit(id, "cpu.") || starts_with_lit(id, "mem.") || starts_with_lit(id, "swap.")
        || starts_with_lit(id, "proc.") || str_eq(id, "sys.uptime") || str_eq(id, "sys.load1")
        || str_eq(id, "sys.load5") || str_eq(id, "sys.load15")
}

/// Whether sampling `id` reads the disk list.
pub fn needs_disks(id: &str) -> (r: bool)
    ensures
        r == spec_needs_disks(id@),
{
    starts_with_lit(id, "disk.")
}

/// Whether sampling `id` reads the network interfaces.
pub fn needs_networks(id: &str) -> (r: bool)
    ensures
        r == spec_needs_networks(id@),
{
    starts_with_lit(id, "net.")
}

/// Which system tables a batch of samples needs refreshed first.
#[derive(Debug, Clone, Copy, PartialEq, Eq, Structural)]
pub struct RefreshTargets {
    pub system: bool,
    pub disks: bool,
    pub networks: bool,
}

/// The tables to refresh before sampling the metrics `ids`: each one that any id needs.
pub fn refresh_targets(ids: &[String]) -> (r: RefreshTargets)
    ensures
        r.system == exists|i: int| 0 <= i < ids@.len() && spec_needs_sys(#[trigger] ids@[i]@),
        r.disks == exists|i: int| 0 <= i < ids@.len() && spec_needs_disks(#[trigger] ids@[i]@),
        r.networks == exists|i: int|
            0 <= i < ids@.len() && spec_needs_networks(#[trigger] ids@[i]@),
{
    let n = ids.len();
    let mut t = RefreshTargets { system: false, disks: false, networks: false };
    let mut i: usize = 0;
    while i < n
        invariant
            i <= n,
            n == ids@.len(),
            t.system == exists|k: int| 0 <= k < i && spec_needs_sys(#[trigger] ids@[k]@),
            t.disks == exists|k: int| 0 <= k < i && spec_needs_disks(#[trigger] ids@[k]@),
            t.networks == exists|k: int| 0 <= k < i && spec_needs_networks(#[trigger] ids@[k]@),
        decreases n - i,
    {
        let id = ids[i].as_str();
        if needs_sys(id) {
            t.system = true;
        }
        if needs_disks(id) {
            t.disks = true;
        }
        if needs_networks(id) {
            t.networks = true;
        }
        i += 1;
    }
    t
}

// ---------------------------------------------------------------------------
// Visible Wi-Fi networks
// ---------------------------------------------------------------------------

/// The non-empty trimmed lines among `ls`, in order.
pub open spec fn nonempty_trimmed(ls: Seq<Seq<char>>) -> Seq<Seq<char>>
    decreases ls.len(),
{
    if ls.len() == 0 {
        seq![]
    } else {
        let rest = nonempty_trimmed(ls.drop_last());
        let t = trim(ls.last());
        if t.len() > 0 {
            rest.push(t)
        } else {
            rest
        }
    }
}

/// The network names in the output of `nmcli -t -f SSID device wifi list`: its
/// lines, trimmed, without the empty ones.
pub fn parse_wifi_ssids(output: &str) -> (r: Vec<String>)
    ensures
        string_views(r@) == nonempty_trimmed(lines(output@)),
{
    let v = chars_of(output);
    let ls = lines_of(v.as_slice());
    let ghost lv = views(ls@);
    let n = ls.len();
    let mut out: Vec<String> = Vec::new();
    let mut i: usize = 0;
    proof {
        assert(lv.take(0) =~= Seq::<Seq<char>>::empty());
        assert(string_views(out@) =~= Seq::<Seq<char>>::empty());
    }
    while i < n
        invariant
            i <= n,
            n == ls@.len(),
            lv == views(ls@),
            string_views(out@) == nonempty_trimmed(lv.take(i as int)),
        decreases n - i,
    {
        let t = trim_chars(ls[i].as_slice());
        proof {
            assert(lv.take(i + 1).drop_last() =~= lv.take(i as int));
            assert(lv.take(i + 1).last() == ls@[i as int]@);
        }
        if t.len() > 0 {
            let ghost before = out@;
            out.push(string_of(t.as_slice()));
            proof {
                assert(string_views(out@) =~= string_views(before).push(t@));
            }
        }
        i += 1;
    }
    proof {
        assert(lv.take(n as int) =~= lv);
    }
    out
}

// ---------------------------------------------------------------------------
// Network counters
// ---------------------------------------------------------------------------

/// Byte and packet counters of one network interface.
#[derive(Debug, Clone, Copy, PartialEq, Eq, Structural)]
pub struct IfaceCounters {
    pub rx_bytes: u64,
    pub tx_bytes: u64,
    pub rx_packets: u64,
    pub tx_packets: u64,
}

/// `a - b`, or 0 when `b` is larger (what `u64::saturating_sub` gives).
pub open spec fn sat_sub(a: u64, b: u64) -> u64 {
    if a >= b {
        (a - b) as u64
    } else {
        0
    }
}

/// How far each counter moved from `prior` to `cur`; a counter that went down counts 0.
pub open spec fn counters_delta(cur: IfaceCounters, prior: IfaceCounters) -> IfaceCounters {
    IfaceCounters {
        rx_bytes: sat_sub(cur.rx_bytes, prior.rx_bytes),
        tx_bytes: sat_sub(cur.tx_bytes, prior.tx_bytes),
        rx_packets: sat_sub(cur.rx_packets, prior.rx_packets),
        tx_packets: sat_sub(cur.tx_packets, prior.tx_packets),
    }
}

/// The counters recorded for interface `name` (the first entry, should names repeat).
pub open spec fn lookup_counters(s: Seq<(String, IfaceCounters)>, name: Seq<char>) -> Option<
    IfaceCounters,
>
    decreases s.len(),
{
    if s.len() == 0 {
        None
    } else if s[0].0@ == name {
        Some(s[0].1)
    } else {
        lookup_counters(s.drop_first(), name)
    }
}

/// For each interface of `current` that `last` also lists, in the order of `current`:
/// its name and how far its counters moved.
pub open spec fn deltas_spec(
    last: Seq<(String, IfaceCounters)>,
    current: Seq<(String, IfaceCounters)>,
) -> Seq<(Seq<char>, IfaceCounters)>
    decreases current.len(),
{
    if current.len() == 0 {
        seq![]
    } else {
        let rest = deltas_spec(last, current.drop_last());
        let (name, cur) = current.last();
        match lookup_counters(last, name@) {
            Some(prior) => rest.push((name@, counters_delta(cur, prior))),
            None => rest,
        }
    }
}

pub open spec fn named_views(v: Seq<(String, IfaceCounters)>) -> Seq<(Seq<char>, IfaceCounters)> {
    v.map_values(|p: (String, IfaceCounters)| (p.0@, p.1))
}

fn lookup_counters_exec(s: &[(String, IfaceCounters)], name: &str) -> (r: Option<IfaceCounters>)
    ensures
        r == lookup_counters(s@, name@),
{
    let n = s.len();
    let mut i: usize = 0;
    proof {
        assert(s@.skip(0) =~= s@);
    }
    while i < n
        invariant
            i <= n,
            n == s@.len(),
            lookup_counters(s@, name@) == lookup_counters(s@.skip(i as int), name@),
        decreases n - i,
    {
        proof {
            assert(s@.skip(i as int).drop_first() =~= s@.skip(i + 1));
        }
        if str_eq(s[i].0.as_str(), name) {
            return Some(s[i].1);
        }
        i += 1;
    }
    None
}

fn sat_sub_exec(a: u64, b: u64) -> (r: u64)
    ensures
        r == sat_sub(a, b),
{
    if a >= b {
        a - b
    } else {
        0
    }
}

/// How far the counters of each interface moved since the previous reading `last`,
/// for the interfaces of `current` that `last` also lists, in the order of `current`.
pub fn counter_deltas(
    last: &[(String, IfaceCounters)],
    current: &[(String, IfaceCounters)],
) -> (r: Vec<(String, IfaceCounters)>)
    ensures
        named_views(r@) == deltas_spec(last@, current@),
{
    let n = current.len();
    let mut out: Vec<(String, IfaceCounters)> = Vec::new();
    let mut i: usize = 0;
    proof {
        assert(current@.take(0) =~= Seq::<(String, IfaceCounters)>::empty());
        assert(named_views(out@) =~= Seq::<(Seq<char>, IfaceCounters)>::empty());
    }
    while i < n
        invariant
            i <= n,
            n == current@.len(),
            named_views(out@) == deltas_spec(last@, current@.take(i as int)),
        decreases n - i,
    {
        let name = current[i].0.as_str();
        let cur = current[i].1;
        proof {
            assert(current@.take(i + 1).drop_last() =~= current@.take(i as int));
            assert(current@.take(i + 1).last() == current@[i as int]);
        }
        match lookup_counters_exec(last, name) {
            Some(prior) => {
                let d = IfaceCounters {
                    rx_bytes: sat_sub_exec(cur.rx_bytes, prior.rx_bytes),
                    tx_bytes: sat_sub_exec(cur.tx_bytes, prior.tx_bytes),
                    rx_packets: sat_sub_exec(cur.rx_packets, prior.rx_packets),
                    tx_packets: sat_sub_exec(cur.tx_packets, prior.tx_packets),
                };
                let ghost before = out@;
                out.push((owned(name), d));
                proof {
                    assert(named_views(out@) =~= named_views(before).push((name@, d)));
                }
            },
            None => {},
        }
        i += 1;
    }
    proof {
        assert(current@.take(n as int) =~= current@);
    }
    out
}

} // verus!
