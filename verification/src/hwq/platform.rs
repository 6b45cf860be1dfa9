//! What the platform tools report (nvidia-smi, /proc/meminfo, dmidecode, sysctl,
//! vm_stat, sw_vers, WMI) and how each report is read.
use vstd::prelude::*;
use crate::hwq::lists::pair_views;
use crate::protocol::string_views;
use crate::text::{
    chars_eq_str, chars_of, fields, fields_of, has_prefix, has_sub, lines, lines_of,
    parse_unsigned, parse_unsigned_chars, push_str, remove_all, remove_all_chars, split_once,
    split_once_chars, starts_with_chars, string_of, trim, trim_chars, views, contains_lit,
    decimal, owned, push_decimal, str_eq, trim_str, words, words_of, find_sub, sub_index,
    find_char_from, index_of, lemma_first_from, slice_range,
};

verus! {

/// The value of `s` as a `u64`, as `str::parse` gives it.
pub open spec fn parsed_u64(s: Seq<char>) -> Option<u64> {
    match parse_unsigned(s, u64::MAX as nat) {
        Some(x) => Some(x as u64),
        None => None,
    }
}

/// The value of `s` as a `u32`, as `str::parse` gives it.
pub open spec fn parsed_u32(s: Seq<char>) -> Option<u32> {
    match parse_unsigned(s, u32::MAX as nat) {
        Some(x) => Some(x as u32),
        None => None,
    }
}

fn parse_u64_chars(v: &[char]) -> (r: Option<u64>)
    ensures
        r == parsed_u64(v@),
{
    parse_unsigned_chars(v, u64::MAX)
}

fn parse_u32_chars(v: &[char]) -> (r: Option<u32>)
    ensures
        r == parsed_u32(v@),
{
    match parse_unsigned_chars(v, u32::MAX as u64) {
        Some(x) => Some(x as u32),
        None => None,
    }
}

// ---------------------------------------------------------------------------
// Linux: GPUs listed by nvidia-smi
// ---------------------------------------------------------------------------

/// Linux-specific GPU information.
#[derive(Debug, Clone)]
pub struct LinuxGPUInfo {
    pub device_name: String,
    pub vendor_name: String,
    pub driver: String,
    pub pci_id: String,
    pub memory_info: Option<String>,
    pub driver_version: Option<String>,
}

/// The fields of one line of nvidia-smi's CSV report, trimmed.
pub struct NvidiaRow {
    pub name: Seq<char>,
    pub driver_version: Seq<char>,
    pub memory_total: Seq<char>,
    pub bus_id: Seq<char>,
}

/// A line with at least four comma-separated fields describes a GPU.
pub open spec fn nvidia_row(line: Seq<char>) -> Option<NvidiaRow> {
    let parts = fields(line, ',');
    if parts.len() >= 4 {
        Some(
            NvidiaRow {
                name: trim(parts[0]),
                driver_version: trim(parts[1]),
                memory_total: trim(parts[2]),
                bus_id: trim(parts[3]),
            },
        )
    } else {
        None
    }
}

/// The rows of the lines that describe a GPU, in order.
pub open spec fn nvidia_rows(ls: Seq<Seq<char>>) -> Seq<NvidiaRow>
    decreases ls.len(),
{
    if ls.len() == 0 {
        seq![]
    } else {
        let prev = nvidia_rows(ls.drop_last());
        match nvidia_row(ls.last()) {
            Some(r) => prev.push(r),
            None => prev,
        }
    }
}

/// `g` is the GPU that row `r` describes.
pub open spec fn gpu_from_row(g: LinuxGPUInfo, r: NvidiaRow) -> bool {
    &&& g.device_name@ == r.name
    &&& g.vendor_name@ == "NVIDIA"@
    &&& g.driver@ == "nvidia"@
    &&& g.pci_id@ == r.bus_id
    &&& g.memory_info matches Some(m) && m@ == r.memory_total + " MB"@
    &&& g.driver_version matches Some(d) && d@ == r.driver_version
}

impl LinuxGPUInfo {
    /// The GPUs in the report of `nvidia-smi
    /// --query-gpu=name,driver_version,memory.total,pci.bus_id --format=csv,noheader,nounits`.
    pub fn from_nvidia_smi(output: &str) -> (r: Vec<LinuxGPUInfo>)
        ensures
            r@.len() == nvidia_rows(lines(output@)).len(),
            forall|i: int|
                0 <= i < r@.len() ==> gpu_from_row(#[trigger] r@[i], nvidia_rows(lines(output@))[i]),
    {
        let v = chars_of(output);
        let ls = lines_of(v.as_slice());
        let ghost lv = views(ls@);
        let mut out: Vec<LinuxGPUInfo> = Vec::new();
        let n = ls.len();
        let mut i: usize = 0;
        while i < n
            invariant
                i <= n,
                n == ls@.len(),
                lv == views(ls@),
                lv == lines(output@),
                out@.len() == nvidia_rows(lv.take(i as int)).len(),
                forall|k: int|
                    0 <= k < out@.len() ==> gpu_from_row(
                        #[trigger] out@[k],
                        nvidia_rows(lv.take(i as int))[k],
                    ),
            decreases n - i,
        {
            proof {
                assert(lv.take(i + 1).drop_last() =~= lv.take(i as int));
                assert(lv.take(i + 1).last() == ls@[i as int]@);
            }
            let parts = fields_of(ls[i].as_slice(), ',');
            if parts.len() >= 4 {
                proof {
                    assert(parts@[0]@ == fields(ls@[i as int]@, ',')[0]);
                    assert(parts@[1]@ == fields(ls@[i as int]@, ',')[1]);
                    assert(parts@[2]@ == fields(ls@[i as int]@, ',')[2]);
                    assert(parts@[3]@ == fields(ls@[i as int]@, ',')[3]);
                }
                let name = trim_chars(parts[0].as_slice());
                let driver_version = trim_chars(parts[1].as_slice());
                let memory = trim_chars(parts[2].as_slice());
                let bus = trim_chars(parts[3].as_slice());
                let mut memory_info = string_of(memory.as_slice());
                push_str(&mut memory_info, " MB");
                let gpu = LinuxGPUInfo {
                    device_name: string_of(name.as_slice()),
                    vendor_name: crate::text::owned("NVIDIA"),
                    driver: crate::text::owned("nvidia"),
                    pci_id: string_of(bus.as_slice()),
                    memory_info: Some(memory_info),
                    driver_version: Some(string_of(driver_version.as_slice())),
                };
                out.push(gpu);
            }
            i += 1;
        }
        proof {
            assert(lv.take(n as int) =~= lv);
        }
        out
    }
}

// ---------------------------------------------------------------------------
// Linux: /proc/meminfo and dmidecode
// ---------------------------------------------------------------------------

/// A memory module listed by dmidecode.
#[derive(Debug, Clone)]
pub struct LinuxMemoryModule {
    pub size_mb: u64,
    pub speed_mhz: Option<u32>,
    pub memory_type: String,
    pub locator: String,
}

pub struct LinuxMemoryModuleView {
    pub size_mb: u64,
    pub speed_mhz: Option<u32>,
    pub memory_type: Seq<char>,
    pub locator: Seq<char>,
}

impl View for LinuxMemoryModule {
    type V = LinuxMemoryModuleView;

    open spec fn view(&self) -> LinuxMemoryModuleView {
        LinuxMemoryModuleView {
            size_mb: self.size_mb,
            speed_mhz: self.speed_mhz,
            memory_type: self.memory_type@,
            locator: self.locator@,
        }
    }
}

/// Linux-specific memory information, in kB as /proc/meminfo gives it.
#[derive(Debug, Clone)]
pub struct LinuxMemoryInfo {
    pub mem_total_kb: u64,
    pub mem_free_kb: u64,
    pub mem_available_kb: u64,
    pub buffers_kb: u64,
    pub cached_kb: u64,
    pub swap_total_kb: u64,
    pub swap_free_kb: u64,
    pub modules: Vec<LinuxMemoryModule>,
}

/// The key and value of a /proc/meminfo line `Key:  value kB`, when the value (with
/// every " kB" taken out) is a number.
pub open spec fn meminfo_entry(line: Seq<char>) -> Option<(Seq<char>, u64)> {
    match split_once(line, ':') {
        Some((k, v)) => match parsed_u64(remove_all(trim(v), " kB"@)) {
            Some(x) => Some((trim(k), x)),
            None => None,
        },
        None => None,
    }
}

/// The value of the last line for `key` among `ls`, or 0 when there is none.
pub open spec fn meminfo_value(ls: Seq<Seq<char>>, key: Seq<char>) -> u64
    decreases ls.len(),
{
    if ls.len() == 0 {
        0
    } else {
        match meminfo_entry(ls.last()) {
            Some((k, x)) => if k == key {
                x
            } else {
                meminfo_value(ls.drop_last(), key)
            },
            None => meminfo_value(ls.drop_last(), key),
        }
    }
}

/// A module as a `Memory Device` section starts it.
pub open spec fn blank_module() -> LinuxMemoryModuleView {
    LinuxMemoryModuleView { size_mb: 0, speed_mhz: None, memory_type: seq![], locator: seq![] }
}

/// `m` with the field `key: val` of a dmidecode section applied; `None` when a size in GB
/// does not fit in 64 bits as megabytes.
pub open spec fn module_with(m: LinuxMemoryModuleView, key: Seq<char>, val: Seq<char>) -> Option<
    LinuxMemoryModuleView,
> {
    if key == "Size"@ {
        if has_sub(val, "MB"@) {
            Some(
                LinuxMemoryModuleView {
                    size_mb: match parsed_u64(remove_all(val, " MB"@)) {
                        Some(x) => x,
                        None => 0,
                    },
                    ..m
                },
            )
        } else if has_sub(val, "GB"@) {
            match parsed_u64(remove_all(val, " GB"@)) {
                Some(g) => if g * 1024 <= u64::MAX {
                    Some(LinuxMemoryModuleView { size_mb: (g * 1024) as u64, ..m })
                } else {
                    None
                },
                None => Some(m),
            }
        } else {
            Some(m)
        }
    } else if key == "Speed"@ {
        Some(LinuxMemoryModuleView { speed_mhz: parsed_u32(remove_all(val, " MHz"@)), ..m })
    } else if key == "Type"@ {
        Some(LinuxMemoryModuleView { memory_type: val, ..m })
    } else if key == "Locator"@ {
        Some(LinuxMemoryModuleView { locator: val, ..m })
    } else {
        Some(m)
    }
}

/// The modules read so far, the one being read, and whether a size overflowed.
pub struct DmiState {
    pub done: Seq<LinuxMemoryModuleView>,
    pub current: Option<LinuxMemoryModuleView>,
    pub overflow: bool,
}

/// One line of dmidecode's report: a `Memory Device` line closes the current module and
/// starts a new one; a `key: value` line inside a module sets one of its fields.
pub open spec fn dmi_step(st: DmiState, raw: Seq<char>) -> DmiState {
    let line = trim(raw);
    if st.overflow {
        st
    } else if has_prefix(line, "Memory Device"@) {
        DmiState {
            done: match st.current {
                Some(m) => st.done.push(m),
                None => st.done,
            },
            current: Some(blank_module()),
            overflow: false,
        }
    } else {
        match st.current {
            None => st,
            Some(m) => match split_once(line, ':') {
                None => st,
                Some((k, v)) => match module_with(m, trim(k), trim(v)) {
                    Some(m2) => DmiState { current: Some(m2), ..st },
                    None => DmiState { overflow: true, ..st },
                },
            },
        }
    }
}

/// The state after the lines `ls`, in order.
pub open spec fn dmi_fold(ls: Seq<Seq<char>>) -> DmiState
    decreases ls.len(),
{
    if ls.len() == 0 {
        DmiState { done: seq![], current: None, overflow: false }
    } else {
        dmi_step(dmi_fold(ls.drop_last()), ls.last())
    }
}

/// The modules with a size, in order.
pub open spec fn sized_modules(ms: Seq<LinuxMemoryModuleView>) -> Seq<LinuxMemoryModuleView>
    decreases ms.len(),
{
    if ms.len() == 0 {
        seq![]
    } else if ms.last().size_mb > 0 {
        sized_modules(ms.drop_last()).push(ms.last())
    } else {
        sized_modules(ms.drop_last())
    }
}

/// The modules of a `dmidecode -t memory` report: every section, closed or still open
/// at the end, that has a size; `None` when a size does not fit.
pub open spec fn dmi_modules(text: Seq<char>) -> Option<Seq<LinuxMemoryModuleView>> {
    let st = dmi_fold(lines(text));
    if st.overflow {
        None
    } else {
        Some(
            sized_modules(
                match st.current {
                    Some(m) => st.done.push(m),
                    None => st.done,
                },
            ),
        )
    }
}

/// The views of a vector of modules.
pub open spec fn module_views(v: Seq<LinuxMemoryModule>) -> Seq<LinuxMemoryModuleView> {
    v.map_values(|m: LinuxMemoryModule| m@)
}

/// Applies one `key: value` field of a dmidecode section to `m`; false when a size in GB
/// does not fit in 64 bits as megabytes (and `m` is then unchanged).
fn apply_module_field(m: &mut LinuxMemoryModule, key: &[char], val: &[char]) -> (ok: bool)
    ensures
        match module_with(old(m)@, key@, val@) {
            Some(m2) => ok && final(m)@ == m2,
            None => !ok && final(m)@ == old(m)@,
        },
{
    if chars_eq_str(key, "Size") {
        if contains_lit(val, "MB") {
            let digits = remove_all_chars(val, chars_of(" MB").as_slice());
            m.size_mb = match parse_u64_chars(digits.as_slice()) {
                Some(x) => x,
                None => 0,
            };
        } else if contains_lit(val, "GB") {
            let digits = remove_all_chars(val, chars_of(" GB").as_slice());
            match parse_u64_chars(digits.as_slice()) {
                Some(g) => {
                    if g <= u64::MAX / 1024 {
                        m.size_mb = g * 1024;
                    } else {
                        return false;
                    }
                },
                None => {},
            }
        }
    } else if chars_eq_str(key, "Speed") {
        let digits = remove_all_chars(val, chars_of(" MHz").as_slice());
        m.speed_mhz = parse_u32_chars(digits.as_slice());
    } else if chars_eq_str(key, "Type") {
        m.memory_type = string_of(val);
    } else if chars_eq_str(key, "Locator") {
        m.locator = string_of(val);
    }
    true
}

/// The memory modules of a `dmidecode -t memory` report, or `None` when a module's size
/// in GB does not fit in 64 bits as megabytes.
pub fn memory_modules_from_dmidecode(text: &str) -> (r: Option<Vec<LinuxMemoryModule>>)
    ensures
        match dmi_modules(text@) {
            Some(ms) => r matches Some(v) && module_views(v@) == ms,
            None => r is None,
        },
{
    let v = chars_of(text);
    let ls = lines_of(v.as_slice());
    let ghost lv = views(ls@);
    let mut done: Vec<LinuxMemoryModule> = Vec::new();
    let mut current: Option<LinuxMemoryModule> = None;
    let n = ls.len();
    let mut i: usize = 0;
    while i < n
        invariant
            i <= n,
            n == ls@.len(),
            lv == views(ls@),
            lv == lines(text@),
            !dmi_fold(lv.take(i as int)).overflow,
            module_views(done@) == sized_modules(dmi_fold(lv.take(i as int)).done),
            match current {
                Some(m) => dmi_fold(lv.take(i as int)).current == Some(m@),
                None => dmi_fold(lv.take(i as int)).current is None,
            },
        decreases n - i,
    {
        proof {
            assert(lv.take(i + 1).drop_last() =~= lv.take(i as int));
            assert(lv.take(i + 1).last() == ls@[i as int]@);
        }
        let line = trim_chars(ls[i].as_slice());
        if starts_with_chars(line.as_slice(), chars_of("Memory Device").as_slice()) {
            match current {
                Some(m) => {
                    let ghost d = dmi_fold(lv.take(i as int)).done;
                    proof {
                        assert(d.push(m@).drop_last() =~= d);
                    }
                    if m.size_mb > 0 {
                        let ghost before = module_views(done@);
                        done.push(m);
                        proof {
                            assert(module_views(done@) =~= before.push(m@));
                        }
                    }
                },
                None => {},
            }
            current = Some(
                LinuxMemoryModule {
                    size_mb: 0,
                    speed_mhz: None,
                    memory_type: String::new(),
                    locator: String::new(),
                },
            );
            proof {
                assert(current.unwrap()@ =~= blank_module());
            }
        } else {
            match current {
                Some(mut m) => {
                    match split_once_chars(line.as_slice(), ':') {
                        Some((k, val)) => {
                            let key = trim_chars(k.as_slice());
                            let value = trim_chars(val.as_slice());
                            if !apply_module_field(&mut m, key.as_slice(), value.as_slice()) {
                                proof {
                                    lemma_dmi_overflow_sticks(lv, i as int + 1);
                                }
                                return None;
                            }
                        },
                        None => {},
                    }
                    current = Some(m);
                },
                None => {},
            }
        }
        i += 1;
    }
    proof {
        assert(lv.take(n as int) =~= lv);
    }
    match current {
        Some(m) => {
            let ghost d = dmi_fold(lv).done;
            proof {
                assert(d.push(m@).drop_last() =~= d);
            }
            if m.size_mb > 0 {
                let ghost before = module_views(done@);
                done.push(m);
                proof {
                    assert(module_views(done@) =~= before.push(m@));
                }
            }
        },
        None => {},
    }
    Some(done)
}

/// Once a size has overflowed, the report's reading stays overflowed.
pub proof fn lemma_dmi_overflow_sticks(ls: Seq<Seq<char>>, i: int)
    requires
        0 <= i <= ls.len(),
        dmi_fold(ls.take(i)).overflow,
    ensures
        dmi_fold(ls).overflow,
    decreases ls.len() - i,
{
    if i < ls.len() {
        assert(ls.take(i + 1).drop_last() =~= ls.take(i));
        lemma_dmi_overflow_sticks(ls, i + 1);
    } else {
        assert(ls.take(i) =~= ls);
    }
}

impl LinuxMemoryInfo {
    /// The counters of a /proc/meminfo report (each the last line for its key whose value
    /// is a number, 0 when there is none), with the given modules.
    pub fn from_meminfo(text: &str, modules: Vec<LinuxMemoryModule>) -> (r: LinuxMemoryInfo)
        ensures
            r.mem_total_kb == meminfo_value(lines(text@), "MemTotal"@),
            r.mem_free_kb == meminfo_value(lines(text@), "MemFree"@),
            r.mem_available_kb == meminfo_value(lines(text@), "MemAvailable"@),
            r.buffers_kb == meminfo_value(lines(text@), "Buffers"@),
            r.cached_kb == meminfo_value(lines(text@), "Cached"@),
            r.swap_total_kb == meminfo_value(lines(text@), "SwapTotal"@),
            r.swap_free_kb == meminfo_value(lines(text@), "SwapFree"@),
            r.modules == modules,
    {
        let v = chars_of(text);
        let ls = lines_of(v.as_slice());
        let ghost lv = views(ls@);
        let mut info = LinuxMemoryInfo {
            mem_total_kb: 0,
            mem_free_kb: 0,
            mem_available_kb: 0,
            buffers_kb: 0,
            cached_kb: 0,
            swap_total_kb: 0,
            swap_free_kb: 0,
            modules,
        };
        let n = ls.len();
        let mut i: usize = 0;
        while i < n
            invariant
                i <= n,
                n == ls@.len(),
                lv == views(ls@),
                lv == lines(text@),
                info.modules == modules,
                info.mem_total_kb == meminfo_value(lv.take(i as int), "MemTotal"@),
                info.mem_free_kb == meminfo_value(lv.take(i as int), "MemFree"@),
                info.mem_available_kb == meminfo_value(lv.take(i as int), "MemAvailable"@),
                info.buffers_kb == meminfo_value(lv.take(i as int), "Buffers"@),
                info.cached_kb == meminfo_value(lv.take(i as int), "Cached"@),
                info.swap_total_kb == meminfo_value(lv.take(i as int), "SwapTotal"@),
                info.swap_free_kb == meminfo_value(lv.take(i as int), "SwapFree"@),
            decreases n - i,
        {
            proof {
                assert(lv.take(i + 1).drop_last() =~= lv.take(i as int));
                assert(lv.take(i + 1).last() == ls@[i as int]@);
            }
            match split_once_chars(ls[i].as_slice(), ':') {
                Some((k, val)) => {
                    let t = trim_chars(val.as_slice());
                    let digits = remove_all_chars(t.as_slice(), chars_of(" kB").as_slice());
                    match parse_u64_chars(digits.as_slice()) {
                        Some(x) => {
                            let key = trim_chars(k.as_slice());
                            if chars_eq_str(key.as_slice(), "MemTotal") {
                                info.mem_total_kb = x;
                            } else if chars_eq_str(key.as_slice(), "MemFree") {
                                info.mem_free_kb = x;
                            } else if chars_eq_str(key.as_slice(), "MemAvailable") {
                                info.mem_available_kb = x;
                            } else if chars_eq_str(key.as_slice(), "Buffers") {
                                info.buffers_kb = x;
                            } else if chars_eq_str(key.as_slice(), "Cached") {
                                info.cached_kb = x;
                            } else if chars_eq_str(key.as_slice(), "SwapTotal") {
                                info.swap_total_kb = x;
                            } else if chars_eq_str(key.as_slice(), "SwapFree") {
                                info.swap_free_kb = x;
                            }
                            proof {
                                reveal_strlit("MemTotal");
                                reveal_strlit("MemFree");
                                reveal_strlit("MemAvailable");
                                reveal_strlit("Buffers");
                                reveal_strlit("Cached");
                                reveal_strlit("SwapTotal");
                                reveal_strlit("SwapFree");
                                assert("MemTotal"@[3] != "MemFree"@[3]);
                                assert("MemTotal"@[3] != "MemAvailable"@[3]);
                                assert("MemFree"@[3] != "MemAvailable"@[3]);
                                assert("MemFree"@[0] != "Buffers"@[0]);
                                assert("MemTotal"@[0] != "SwapFree"@[0]);
                                assert("SwapTotal"@[4] != "SwapFree"@[4]);
                            }
                        },
                        None => {},
                    }
                },
                None => {},
            }
            i += 1;
        }
        proof {
            assert(lv.take(n as int) =~= lv);
        }
        info
    }
}

// ---------------------------------------------------------------------------
// Windows: memory as WMI reports it
// ---------------------------------------------------------------------------

/// Windows-specific memory information, in megabytes.
#[derive(Debug, Clone)]
pub struct WindowsMemoryInfo {
    pub total_physical_mb: u64,
    pub available_physical_mb: u64,
    pub total_virtual_mb: u64,
    pub available_virtual_mb: u64,
    pub modules: Vec<WindowsMemoryModule>,
}

/// A memory module as WMI reports it.
#[derive(Debug, Clone)]
pub struct WindowsMemoryModule {
    pub capacity_mb: u64,
    pub speed_mhz: u32,
    pub memory_type: String,
    pub manufacturer: Option<String>,
    pub part_number: Option<String>,
    pub bank_label: Option<String>,
    pub device_locator: Option<String>,
}

/// The name of a WMI memory type code.
pub open spec fn memory_type_name(code: u64) -> Seq<char> {
    if code == 20 {
        "DDR"@
    } else if code == 21 {
        "DDR2"@
    } else if code == 22 {
        "DDR2 FB-DIMM"@
    } else if code == 24 {
        "DDR3"@
    } else if code == 26 {
        "DDR4"@
    } else if code == 34 {
        "DDR5"@
    } else {
        "Unknown ("@ + decimal(code as nat) + ")"@
    }
}

/// Megabytes in a WMI byte count, 0 when the count is missing.
pub open spec fn megabytes(bytes: Option<u64>) -> u64 {
    (match bytes {
        Some(b) => b,
        None => 0u64,
    }) / 1048576u64
}

fn megabytes_of(bytes: Option<u64>) -> (r: u64)
    ensures
        r == megabytes(bytes),
{
    match bytes {
        Some(b) => b / (1024 * 1024),
        None => 0,
    }
}

impl WindowsMemoryInfo {
    /// The name of a WMI memory type code.
    pub fn parse_memory_type(type_code: u64) -> (r: String)
        ensures
            r@ == memory_type_name(type_code),
    {
        if type_code == 20 {
            owned("DDR")
        } else if type_code == 21 {
            owned("DDR2")
        } else if type_code == 22 {
            owned("DDR2 FB-DIMM")
        } else if type_code == 24 {
            owned("DDR3")
        } else if type_code == 26 {
            owned("DDR4")
        } else if type_code == 34 {
            owned("DDR5")
        } else {
            let mut r = owned("Unknown (");
            push_decimal(&mut r, type_code);
            push_str(&mut r, ")");
            r
        }
    }

    /// The memory information from the byte counts WMI reports (a missing count is 0).
    pub fn from_wmi(
        total_physical: Option<u64>,
        available_physical: Option<u64>,
        total_virtual: Option<u64>,
        available_virtual: Option<u64>,
        modules: Vec<WindowsMemoryModule>,
    ) -> (r: WindowsMemoryInfo)
        ensures
            r.total_physical_mb == megabytes(total_physical),
            r.available_physical_mb == megabytes(available_physical),
            r.total_virtual_mb == megabytes(total_virtual),
            r.available_virtual_mb == megabytes(available_virtual),
            r.modules == modules,
    {
        WindowsMemoryInfo {
            total_physical_mb: megabytes_of(total_physical),
            available_physical_mb: megabytes_of(available_physical),
            total_virtual_mb: megabytes_of(total_virtual),
            available_virtual_mb: megabytes_of(available_virtual),
            modules,
        }
    }
}

impl WindowsMemoryModule {
    /// A module from the values WMI reports: capacity in bytes, speed (its low 32 bits),
    /// and the memory type code (each 0 when missing).
    pub fn from_wmi(
        capacity: Option<u64>,
        speed: Option<u64>,
        type_code: Option<u64>,
        manufacturer: Option<String>,
        part_number: Option<String>,
        bank_label: Option<String>,
        device_locator: Option<String>,
    ) -> (r: WindowsMemoryModule)
        ensures
            r.capacity_mb == megabytes(capacity),
            r.speed_mhz == (match speed {
                Some(x) => x,
                None => 0u64,
            }) as u32,
            r.memory_type@ == memory_type_name(
                match type_code {
                    Some(c) => c,
                    None => 0u64,
                },
            ),
            r.manufacturer == manufacturer,
            r.part_number == part_number,
            r.bank_label == bank_label,
            r.device_locator == device_locator,
    {
        let raw_speed: u64 = match speed {
            Some(x) => x,
            None => 0,
        };
        let code: u64 = match type_code {
            Some(c) => c,
            None => 0,
        };
        WindowsMemoryModule {
            capacity_mb: megabytes_of(capacity),
            speed_mhz: raw_speed as u32,
            memory_type: WindowsMemoryInfo::parse_memory_type(code),
            manufacturer,
            part_number,
            bank_label,
            device_locator,
        }
    }
}

// ---------------------------------------------------------------------------
// macOS: sysctl, vm_stat, sw_vers
// ---------------------------------------------------------------------------

/// macOS-specific CPU information, as sysctl reports it.
#[derive(Debug, Clone)]
pub struct MacOSCPUInfo {
    pub brand_string: String,
    pub vendor: String,
    pub cpu_type: String,
    pub cpu_subtype: String,
    pub physical_cpu: u32,
    pub logical_cpu: u32,
    pub cpu_freq: u64,
    pub cpu_freq_max: u64,
    pub cpu_freq_min: u64,
    pub l1_icache_size: u64,
    pub l1_dcache_size: u64,
    pub l2_cache_size: u64,
    pub l3_cache_size: u64,
    pub cache_line_size: u64,
    pub features: Vec<String>,
}

pub struct MacOSCPUInfoView {
    pub brand_string: Seq<char>,
    pub vendor: Seq<char>,
    pub cpu_type: Seq<char>,
    pub cpu_subtype: Seq<char>,
    pub physical_cpu: u32,
    pub logical_cpu: u32,
    pub cpu_freq: u64,
    pub cpu_freq_max: u64,
    pub cpu_freq_min: u64,
    pub l1_icache_size: u64,
    pub l1_dcache_size: u64,
    pub l2_cache_size: u64,
    pub l3_cache_size: u64,
    pub cache_line_size: u64,
    pub features: Seq<Seq<char>>,
}

impl View for MacOSCPUInfo {
    type V = MacOSCPUInfoView;

    open spec fn view(&self) -> MacOSCPUInfoView {
        MacOSCPUInfoView {
            brand_string: self.brand_string@,
            vendor: self.vendor@,
            cpu_type: self.cpu_type@,
            cpu_subtype: self.cpu_subtype@,
            physical_cpu: self.physical_cpu,
            logical_cpu: self.logical_cpu,
            cpu_freq: self.cpu_freq,
            cpu_freq_max: self.cpu_freq_max,
            cpu_freq_min: self.cpu_freq_min,
            l1_icache_size: self.l1_icache_size,
            l1_dcache_size: self.l1_dcache_size,
            l2_cache_size: self.l2_cache_size,
            l3_cache_size: self.l3_cache_size,
            cache_line_size: self.cache_line_size,
            features: string_views(self.features@),
        }
    }
}

pub open spec fn or_zero_u32(o: Option<u32>) -> u32 {
    match o {
        Some(x) => x,
        None => 0,
    }
}

pub open spec fn or_zero_u64(o: Option<u64>) -> u64 {
    match o {
        Some(x) => x,
        None => 0,
    }
}

/// `c` with the value `v` of the sysctl `key` recorded in its field; numbers that do not
/// parse count as 0, and a key with no field changes nothing.
pub open spec fn sysctl_applied(c: MacOSCPUInfoView, key: Seq<char>, v: Seq<char>) -> MacOSCPUInfoView {
    if key == "machdep.cpu.brand_string"@ {
        MacOSCPUInfoView { brand_string: v, ..c }
    } else if key == "machdep.cpu.vendor"@ {
        MacOSCPUInfoView { vendor: v, ..c }
    } else if key == "hw.cputype"@ {
        MacOSCPUInfoView { cpu_type: v, ..c }
    } else if key == "hw.cpusubtype"@ {
        MacOSCPUInfoView { cpu_subtype: v, ..c }
    } else if key == "hw.physicalcpu"@ {
        MacOSCPUInfoView { physical_cpu: or_zero_u32(parsed_u32(v)), ..c }
    } else if key == "hw.logicalcpu"@ {
        MacOSCPUInfoView { logical_cpu: or_zero_u32(parsed_u32(v)), ..c }
    } else if key == "hw.cpufrequency"@ {
        MacOSCPUInfoView { cpu_freq: or_zero_u64(parsed_u64(v)), ..c }
    } else if key == "hw.cpufrequency_max"@ {
        MacOSCPUInfoView { cpu_freq_max: or_zero_u64(parsed_u64(v)), ..c }
    } else if key == "hw.cpufrequency_min"@ {
        MacOSCPUInfoView { cpu_freq_min: or_zero_u64(parsed_u64(v)), ..c }
    } else if key == "hw.l1icachesize"@ {
        MacOSCPUInfoView { l1_icache_size: or_zero_u64(parsed_u64(v)), ..c }
    } else if key == "hw.l1dcachesize"@ {
        MacOSCPUInfoView { l1_dcache_size: or_zero_u64(parsed_u64(v)), ..c }
    } else if key == "hw.l2cachesize"@ {
        MacOSCPUInfoView { l2_cache_size: or_zero_u64(parsed_u64(v)), ..c }
    } else if key == "hw.l3cachesize"@ {
        MacOSCPUInfoView { l3_cache_size: or_zero_u64(parsed_u64(v)), ..c }
    } else if key == "hw.cachelinesize"@ {
        MacOSCPUInfoView { cache_line_size: or_zero_u64(parsed_u64(v)), ..c }
    } else {
        c
    }
}

impl MacOSCPUInfo {
    /// CPU information with nothing read yet.
    pub fn new() -> (r: MacOSCPUInfo)
        ensures
            r@.brand_string.len() == 0 && r@.vendor.len() == 0 && r@.cpu_type.len() == 0
                && r@.cpu_subtype.len() == 0,
            r.physical_cpu == 0 && r.logical_cpu == 0 && r.cpu_freq == 0 && r.cpu_freq_max == 0
                && r.cpu_freq_min == 0,
            r.l1_icache_size == 0 && r.l1_dcache_size == 0 && r.l2_cache_size == 0
                && r.l3_cache_size == 0 && r.cache_line_size == 0,
            r.features@.len() == 0,
    {
        MacOSCPUInfo {
            brand_string: String::new(),
            vendor: String::new(),
            cpu_type: String::new(),
            cpu_subtype: String::new(),
            physical_cpu: 0,
            logical_cpu: 0,
            cpu_freq: 0,
            cpu_freq_max: 0,
            cpu_freq_min: 0,
            l1_icache_size: 0,
            l1_dcache_size: 0,
            l2_cache_size: 0,
            l3_cache_size: 0,
            cache_line_size: 0,
            features: Vec::new(),
        }
    }

    /// The sysctl keys whose values fill the CPU information, in the order they are read.
    pub fn sysctl_keys() -> (r: Vec<&'static str>)
        ensures
            r@.map_values(|k: &str| k@) == seq!["machdep.cpu.brand_string"@, "machdep.cpu.vendor"@, "hw.cputype"@, "hw.cpusubtype"@, "hw.physicalcpu"@, "hw.logicalcpu"@, "hw.cpufrequency"@, "hw.cpufrequency_max"@, "hw.cpufrequency_min"@, "hw.l1icachesize"@, "hw.l1dcachesize"@, "hw.l2cachesize"@, "hw.l3cachesize"@, "hw.cachelinesize"@],
    {
        let mut r: Vec<&'static str> = Vec::new();
        r.push("machdep.cpu.brand_string");
        r.push("machdep.cpu.vendor");
        r.push("hw.cputype");
        r.push("hw.cpusubtype");
        r.push("hw.physicalcpu");
        r.push("hw.logicalcpu");
        r.push("hw.cpufrequency");
        r.push("hw.cpufrequency_max");
        r.push("hw.cpufrequency_min");
        r.push("hw.l1icachesize");
        r.push("hw.l1dcachesize");
        r.push("hw.l2cachesize");
        r.push("hw.l3cachesize");
        r.push("hw.cachelinesize");
        proof {
            assert(r@.map_values(|k: &str| k@) =~= seq!["machdep.cpu.brand_string"@, "machdep.cpu.vendor"@, "hw.cputype"@, "hw.cpusubtype"@, "hw.physicalcpu"@, "hw.logicalcpu"@, "hw.cpufrequency"@, "hw.cpufrequency_max"@, "hw.cpufrequency_min"@, "hw.l1icachesize"@, "hw.l1dcachesize"@, "hw.l2cachesize"@, "hw.l3cachesize"@, "hw.cachelinesize"@]);
        }
        r
    }

    /// Records the output of `sysctl -n <key>` (trimmed) in the field for that key.
    pub fn set_sysctl_value(&mut self, sysctl_key: &str, output: &str)
        ensures
            final(self)@ == sysctl_applied(old(self)@, sysctl_key@, trim(output@)),
    {
        let raw = chars_of(output);
        let value = trim_chars(raw.as_slice());
        if str_eq(sysctl_key, "machdep.cpu.brand_string") {
            self.brand_string = string_of(value.as_slice());
        } else if str_eq(sysctl_key, "machdep.cpu.vendor") {
            self.vendor = string_of(value.as_slice());
        } else if str_eq(sysctl_key, "hw.cputype") {
            self.cpu_type = string_of(value.as_slice());
        } else if str_eq(sysctl_key, "hw.cpusubtype") {
            self.cpu_subtype = string_of(value.as_slice());
        } else if str_eq(sysctl_key, "hw.physicalcpu") {
            self.physical_cpu = match parse_u32_chars(value.as_slice()) { Some(x) => x, None => 0 };
        } else if str_eq(sysctl_key, "hw.logicalcpu") {
            self.logical_cpu = match parse_u32_chars(value.as_slice()) { Some(x) => x, None => 0 };
        } else if str_eq(sysctl_key, "hw.cpufrequency") {
            self.cpu_freq = match parse_u64_chars(value.as_slice()) { Some(x) => x, None => 0 };
        } else if str_eq(sysctl_key, "hw.cpufrequency_max") {
            self.cpu_freq_max = match parse_u64_chars(value.as_slice()) { Some(x) => x, None => 0 };
        } else if str_eq(sysctl_key, "hw.cpufrequency_min") {
            self.cpu_freq_min = match parse_u64_chars(value.as_slice()) { Some(x) => x, None => 0 };
        } else if str_eq(sysctl_key, "hw.l1icachesize") {
            self.l1_icache_size = match parse_u64_chars(value.as_slice()) { Some(x) => x, None => 0 };
        } else if str_eq(sysctl_key, "hw.l1dcachesize") {
            self.l1_dcache_size = match parse_u64_chars(value.as_slice()) { Some(x) => x, None => 0 };
        } else if str_eq(sysctl_key, "hw.l2cachesize") {
            self.l2_cache_size = match parse_u64_chars(value.as_slice()) { Some(x) => x, None => 0 };
        } else if str_eq(sysctl_key, "hw.l3cachesize") {
            self.l3_cache_size = match parse_u64_chars(value.as_slice()) { Some(x) => x, None => 0 };
        } else if str_eq(sysctl_key, "hw.cachelinesize") {
            self.cache_line_size = match parse_u64_chars(value.as_slice()) { Some(x) => x, None => 0 };
        }
    }

    /// The sysctl keys whose outputs list CPU features.
    pub fn feature_sysctl_keys() -> (r: Vec<&'static str>)
        ensures
            r@.map_values(|k: &str| k@) == seq![
                "machdep.cpu.features"@,
                "machdep.cpu.leaf7_features"@,
                "machdep.cpu.extfeatures"@,
            ],
    {
        let mut r: Vec<&'static str> = Vec::new();
        r.push("machdep.cpu.features");
        r.push("machdep.cpu.leaf7_features");
        r.push("machdep.cpu.extfeatures");
        proof {
            assert(r@.map_values(|k: &str| k@) =~= seq![
                "machdep.cpu.features"@,
                "machdep.cpu.leaf7_features"@,
                "machdep.cpu.extfeatures"@,
            ]);
        }
        r
    }

    /// Appends the white-space separated features of a sysctl feature list.
    pub fn add_features(&mut self, output: &str)
        ensures
            final(self)@ == (MacOSCPUInfoView {
                features: old(self)@.features + words(output@),
                ..old(self)@
            }),
    {
        let raw = chars_of(output);
        let ws = words_of(raw.as_slice());
        let n = ws.len();
        let ghost start = string_views(self.features@);
        let mut i: usize = 0;
        while i < n
            invariant
                i <= n,
                n == ws@.len(),
                views(ws@) == words(output@),
                string_views(self.features@) == start + views(ws@).take(i as int),
                self@ == (MacOSCPUInfoView { features: self@.features, ..old(self)@ }),
                start == old(self)@.features,
            decreases n - i,
        {
            let ghost before = string_views(self.features@);
            self.features.push(string_of(ws[i].as_slice()));
            proof {
                assert(string_views(self.features@) =~= before.push(ws@[i as int]@));
                assert(views(ws@).take(i + 1) =~= views(ws@).take(i as int).push(ws@[i as int]@));
            }
            i += 1;
        }
        proof {
            assert(views(ws@).take(n as int) =~= views(ws@));
        }
    }
}

/// macOS-specific GPU information.
#[derive(Debug, Clone)]
pub struct MacOSGPUInfo {
    pub device_name: String,
    pub vendor_name: String,
    pub device_id: String,
    pub vendor_id: String,
    pub pci_class: String,
    pub metal_support: bool,
    pub memory_mb: u64,
}

/// A memory module as system_profiler reports it.
#[derive(Debug, Clone)]
pub struct MacOSMemoryModule {
    pub size_gb: u64,
    pub speed_mhz: u32,
    pub memory_type: String,
    pub manufacturer: String,
    pub part_number: String,
    pub serial_number: String,
    pub slot: String,
}

/// macOS-specific memory information, in bytes.
#[derive(Debug, Clone)]
pub struct MacOSMemoryInfo {
    pub physical_memory: u64,
    pub user_memory: u64,
    pub wired_memory: u64,
    pub compressed_memory: u64,
    pub memory_pressure: String,
    pub swap_usage: u64,
}

/// The key and page count of a vm_stat line `Pages active:   12345.` (dots and the word
/// "pages" taken out of the value).
pub open spec fn vm_stat_entry(line: Seq<char>) -> Option<(Seq<char>, u64)> {
    match split_once(line, ':') {
        Some((k, v)) => match parsed_u64(trim(remove_all(remove_all(trim(v), "."@), "pages"@))) {
            Some(p) => Some((trim(k), p)),
            None => None,
        },
        None => None,
    }
}

/// Bytes of user (active and inactive), wired and compressed pages read so far, and
/// whether a byte count overflowed.
pub struct VmStatState {
    pub user: u64,
    pub wired: u64,
    pub compressed: u64,
    pub overflow: bool,
}

/// One vm_stat line, with pages of 4096 bytes.
pub open spec fn vm_stat_step(st: VmStatState, line: Seq<char>) -> VmStatState {
    if st.overflow {
        st
    } else {
        match vm_stat_entry(line) {
            None => st,
            Some((k, pages)) => if pages * 4096 > u64::MAX {
                VmStatState { overflow: true, ..st }
            } else {
                let bytes = (pages * 4096) as u64;
                if k == "Pages wired down"@ {
                    VmStatState { wired: bytes, ..st }
                } else if k == "Pages active"@ || k == "Pages inactive"@ {
                    if st.user + bytes > u64::MAX {
                        VmStatState { overflow: true, ..st }
                    } else {
                        VmStatState { user: (st.user + bytes) as u64, ..st }
                    }
                } else if k == "Pages occupied by compressor"@ {
                    VmStatState { compressed: bytes, ..st }
                } else {
                    st
                }
            },
        }
    }
}

/// The state after the lines `ls`, in order.
pub open spec fn vm_stat_fold(ls: Seq<Seq<char>>) -> VmStatState
    decreases ls.len(),
{
    if ls.len() == 0 {
        VmStatState { user: 0, wired: 0, compressed: 0, overflow: false }
    } else {
        vm_stat_step(vm_stat_fold(ls.drop_last()), ls.last())
    }
}

/// The megabytes after `used = ` and before the next `M` in `sysctl -n vm.swapusage`.
pub open spec fn swap_used_mb(text: Seq<char>) -> Option<u64> {
    let i = sub_index(text, "used = "@);
    if i < 0 {
        None
    } else {
        let rest = text.skip(i + 7);
        let j = index_of(rest, 'M');
        if j < 0 {
            None
        } else {
            parsed_u64(rest.take(j))
        }
    }
}

/// The memory information from the reports of `sysctl -n hw.memsize`, `vm_stat`,
/// `memory_pressure` and `sysctl -n vm.swapusage` (each `None` when the tool could not
/// be run); `None` when a byte count does not fit in 64 bits.
pub open spec fn macos_memory_spec(
    memsize: Option<Seq<char>>,
    vm_stat: Option<Seq<char>>,
    pressure: Option<Seq<char>>,
    swap: Option<Seq<char>>,
) -> Option<(u64, VmStatState, Seq<char>, u64)> {
    let physical = match memsize {
        Some(t) => or_zero_u64(parsed_u64(trim(t))),
        None => 0,
    };
    let vm = match vm_stat {
        Some(t) => vm_stat_fold(lines(t)),
        None => VmStatState { user: 0, wired: 0, compressed: 0, overflow: false },
    };
    let pressure_text = match pressure {
        Some(t) => trim(t),
        None => seq![],
    };
    let swap_mb = match swap {
        Some(t) => swap_used_mb(t),
        None => None,
    };
    if vm.overflow {
        None
    } else {
        match swap_mb {
            Some(mb) => if mb * 1048576 > u64::MAX {
                None
            } else {
                Some((physical, vm, pressure_text, (mb * 1048576) as u64))
            },
            None => Some((physical, vm, pressure_text, 0u64)),
        }
    }
}

/// The spec view of an optional string slice.
pub open spec fn opt_str(o: Option<&str>) -> Option<Seq<char>> {
    match o {
        Some(t) => Some(t@),
        None => None,
    }
}

/// The user, wired and compressed byte counts of a vm_stat report, or `None` when one
/// overflows.
pub fn vm_stat_counts(text: &str) -> (r: Option<(u64, u64, u64)>)
    ensures
        vm_stat_fold(lines(text@)).overflow ==> r is None,
        !vm_stat_fold(lines(text@)).overflow ==> r == Some(
            (
                vm_stat_fold(lines(text@)).user,
                vm_stat_fold(lines(text@)).wired,
                vm_stat_fold(lines(text@)).compressed,
            ),
        ),
{
    let v = chars_of(text);
    let ls = lines_of(v.as_slice());
    let ghost lv = views(ls@);
    let mut user: u64 = 0;
    let mut wired: u64 = 0;
    let mut compressed: u64 = 0;
    let n = ls.len();
    let mut i: usize = 0;
    while i < n
        invariant
            i <= n,
            n == ls@.len(),
            lv == views(ls@),
            lv == lines(text@),
            vm_stat_fold(lv.take(i as int)) == (VmStatState {
                user,
                wired,
                compressed,
                overflow: false,
            }),
        decreases n - i,
    {
        proof {
            assert(lv.take(i + 1).drop_last() =~= lv.take(i as int));
            assert(lv.take(i + 1).last() == ls@[i as int]@);
        }
        match split_once_chars(ls[i].as_slice(), ':') {
            Some((k, val)) => {
                let t = trim_chars(val.as_slice());
                let no_dots = remove_all_chars(t.as_slice(), chars_of(".").as_slice());
                let no_word = remove_all_chars(no_dots.as_slice(), chars_of("pages").as_slice());
                let digits = trim_chars(no_word.as_slice());
                match parse_u64_chars(digits.as_slice()) {
                    Some(pages) => {
                        if pages > u64::MAX / 4096 {
                            proof {
                                lemma_vm_stat_overflow_sticks(lv, i as int + 1);
                            }
                            return None;
                        }
                        let bytes = pages * 4096;
                        let key = trim_chars(k.as_slice());
                        if chars_eq_str(key.as_slice(), "Pages wired down") {
                            wired = bytes;
                        } else if chars_eq_str(key.as_slice(), "Pages active") || chars_eq_str(
                            key.as_slice(),
                            "Pages inactive",
                        ) {
                            if user > u64::MAX - bytes {
                                proof {
                                    lemma_vm_stat_overflow_sticks(lv, i as int + 1);
                                }
                                return None;
                            }
                            user = user + bytes;
                        } else if chars_eq_str(key.as_slice(), "Pages occupied by compressor") {
                            compressed = bytes;
                        }
                    },
                    None => {},
                }
            },
            None => {},
        }
        i += 1;
    }
    proof {
        assert(lv.take(n as int) =~= lv);
    }
    Some((user, wired, compressed))
}

/// Once a byte count has overflowed, the report's reading stays overflowed.
pub proof fn lemma_vm_stat_overflow_sticks(ls: Seq<Seq<char>>, i: int)
    requires
        0 <= i <= ls.len(),
        vm_stat_fold(ls.take(i)).overflow,
    ensures
        vm_stat_fold(ls).overflow,
    decreases ls.len() - i,
{
    if i < ls.len() {
        assert(ls.take(i + 1).drop_last() =~= ls.take(i));
        lemma_vm_stat_overflow_sticks(ls, i + 1);
    } else {
        assert(ls.take(i) =~= ls);
    }
}

/// The swap in use, in megabytes, from `sysctl -n vm.swapusage`.
pub fn swap_usage_mb(text: &str) -> (r: Option<u64>)
    ensures
        r == swap_used_mb(text@),
{
    let v = chars_of(text);
    let pat = chars_of("used = ");
    proof {
        reveal_strlit("used = ");
    }
    match find_sub(v.as_slice(), pat.as_slice()) {
        None => None,
        Some(i) => {
            let n = v.len();
            proof {
                crate::text::lemma_sub_index(v@, pat@);
                assert(pat@.len() == 7);
                assert(crate::text::occurs_at(v@, pat@, i as int));
                assert(i + 7 <= n);
            }
            let start = i + 7;
            let rest = slice_range(v.as_slice(), start, n);
            let j = find_char_from(rest.as_slice(), 0, 'M');
            proof {
                lemma_first_from(rest@, 0, 'M', j as int);
                assert(rest@.skip(0) =~= rest@);
                assert(rest@ =~= v@.skip(i + 7));
            }
            if j == rest.len() {
                None
            } else {
                let digits = slice_range(rest.as_slice(), 0, j);
                proof {
                    assert(digits@ =~= rest@.take(j as int));
                }
                parse_u64_chars(digits.as_slice())
            }
        },
    }
}

impl MacOSMemoryInfo {
    /// The memory information from the reports of `sysctl -n hw.memsize`, `vm_stat`,
    /// `memory_pressure` and `sysctl -n vm.swapusage` (each `None` when its tool could
    /// not be run), or `None` when a byte count does not fit in 64 bits.
    pub fn from_reports(
        memsize: Option<&str>,
        vm_stat: Option<&str>,
        pressure: Option<&str>,
        swap: Option<&str>,
    ) -> (r: Option<MacOSMemoryInfo>)
        ensures
            match macos_memory_spec(
                opt_str(memsize),
                opt_str(vm_stat),
                opt_str(pressure),
                opt_str(swap),
            ) {
                None => r is None,
                Some((physical, vm, pressure_text, swap_bytes)) => r matches Some(m) && m.physical_memory
                    == physical && m.user_memory == vm.user && m.wired_memory == vm.wired
                    && m.compressed_memory == vm.compressed && m.memory_pressure@ == pressure_text
                    && m.swap_usage == swap_bytes,
            },
    {
        let physical: u64 = match memsize {
            Some(t) => {
                let raw = chars_of(t);
                let tv = trim_chars(raw.as_slice());
                match parse_u64_chars(tv.as_slice()) {
                    Some(x) => x,
                    None => 0,
                }
            },
            None => 0,
        };
        let (user, wired, compressed) = match vm_stat {
            Some(t) => match vm_stat_counts(t) {
                Some(c) => c,
                None => {
                    return None;
                },
            },
            None => (0, 0, 0),
        };
        let memory_pressure = match pressure {
            Some(t) => trim_str(t),
            None => String::new(),
        };
        let swap_usage: u64 = match swap {
            Some(t) => match swap_usage_mb(t) {
                Some(mb) => {
                    if mb > u64::MAX / 1048576 {
                        return None;
                    }
                    mb * 1048576
                },
                None => 0,
            },
            None => 0,
        };
        Some(
            MacOSMemoryInfo {
                physical_memory: physical,
                user_memory: user,
                wired_memory: wired,
                compressed_memory: compressed,
                memory_pressure,
                swap_usage,
            },
        )
    }
}

/// macOS-specific system information.
pub struct MacOSSystemInfo;

/// The value of the last `key: value` line of `ls` whose trimmed key is `key`.
pub open spec fn last_field(ls: Seq<Seq<char>>, key: Seq<char>) -> Option<Seq<char>>
    decreases ls.len(),
{
    if ls.len() == 0 {
        None
    } else {
        match split_once(ls.last(), ':') {
            Some((k, v)) => if trim(k) == key {
                Some(trim(v))
            } else {
                last_field(ls.drop_last(), key)
            },
            None => last_field(ls.drop_last(), key),
        }
    }
}

/// The entries of `sw_vers`' report: product name, product version and build version,
/// in this order, each present when a line gives it (the last such line).
pub open spec fn system_version_spec(text: Seq<char>) -> Seq<(Seq<char>, Seq<char>)> {
    let ls = lines(text);
    (match last_field(ls, "ProductName"@) {
        Some(v) => seq![("product_name"@, v)],
        None => seq![],
    }) + (match last_field(ls, "ProductVersion"@) {
        Some(v) => seq![("product_version"@, v)],
        None => seq![],
    }) + (match last_field(ls, "BuildVersion"@) {
        Some(v) => seq![("build_version"@, v)],
        None => seq![],
    })
}

impl MacOSSystemInfo {
    /// The product name, product version and build version in the report of `sw_vers`.
    pub fn system_version_from(output: &str) -> (r: Vec<(String, String)>)
        ensures
            pair_views(r@) == system_version_spec(output@),
    {
        let v = chars_of(output);
        let ls = lines_of(v.as_slice());
        let ghost lv = views(ls@);
        let mut name: Option<Vec<char>> = None;
        let mut version: Option<Vec<char>> = None;
        let mut build: Option<Vec<char>> = None;
        let n = ls.len();
        let mut i: usize = 0;
        while i < n
            invariant
                i <= n,
                n == ls@.len(),
                lv == views(ls@),
                lv == lines(output@),
                match name {
                    Some(x) => last_field(lv.take(i as int), "ProductName"@) == Some(x@),
                    None => last_field(lv.take(i as int), "ProductName"@) is None,
                },
                match version {
                    Some(x) => last_field(lv.take(i as int), "ProductVersion"@) == Some(x@),
                    None => last_field(lv.take(i as int), "ProductVersion"@) is None,
                },
                match build {
                    Some(x) => last_field(lv.take(i as int), "BuildVersion"@) == Some(x@),
                    None => last_field(lv.take(i as int), "BuildVersion"@) is None,
                },
            decreases n - i,
        {
            proof {
                assert(lv.take(i + 1).drop_last() =~= lv.take(i as int));
                assert(lv.take(i + 1).last() == ls@[i as int]@);
                reveal_strlit("ProductName");
                reveal_strlit("ProductVersion");
                reveal_strlit("BuildVersion");
                assert("ProductName"@[7] != "ProductVersion"@[7]);
            }
            match split_once_chars(ls[i].as_slice(), ':') {
                Some((k, val)) => {
                    let key = trim_chars(k.as_slice());
                    let value = trim_chars(val.as_slice());
                    if chars_eq_str(key.as_slice(), "ProductName") {
                        name = Some(value);
                    } else if chars_eq_str(key.as_slice(), "ProductVersion") {
                        version = Some(value);
                    } else if chars_eq_str(key.as_slice(), "BuildVersion") {
                        build = Some(value);
                    }
                },
                None => {},
            }
            i += 1;
        }
        proof {
            assert(lv.take(n as int) =~= lv);
        }
        let mut out: Vec<(String, String)> = Vec::new();
        match name {
            Some(x) => out.push((owned("product_name"), string_of(x.as_slice()))),
            None => {},
        }
        match version {
            Some(x) => out.push((owned("product_version"), string_of(x.as_slice()))),
            None => {},
        }
        match build {
            Some(x) => out.push((owned("build_version"), string_of(x.as_slice()))),
            None => {},
        }
        proof {
            assert(pair_views(out@) =~= system_version_spec(output@));
        }
        out
    }

    /// The hardware model in the output of `sysctl -n hw.model`.
    pub fn hardware_model_from(output: &str) -> (r: String)
        ensures
            r@ == trim(output@),
    {
        trim_str(output)
    }
}

// ---------------------------------------------------------------------------
// Linux: /proc/cpuinfo
// ---------------------------------------------------------------------------

/// Linux-specific CPU information from /proc/cpuinfo (the clock and BogoMIPS readings,
/// which are fractional, are kept by the caller that reads them).
#[derive(Debug, Clone)]
pub struct LinuxCPUInfo {
    pub vendor_id: String,
    pub model_name: String,
    pub cpu_family: Option<u32>,
    pub model: Option<u32>,
    pub stepping: Option<u32>,
    pub microcode: Option<String>,
    pub cpu_cores: u32,
    pub siblings: u32,
    pub core_id: Vec<u32>,
    pub apicid: Vec<u32>,
    pub initial_apicid: Vec<u32>,
    /// Cache size in KB
    pub cache_size: u32,
    pub physical_id: Vec<u32>,
    pub flags: Vec<String>,
    pub clflush_size: Option<u32>,
    pub cache_alignment: Option<u32>,
    pub address_sizes: Option<String>,
    pub power_management: Option<String>,
    pub vulnerabilities: Vec<String>,
}

#[verifier::ext_equal]
pub struct LinuxCPUInfoView {
    pub vendor_id: Seq<char>,
    pub model_name: Seq<char>,
    pub cpu_family: Option<u32>,
    pub model: Option<u32>,
    pub stepping: Option<u32>,
    pub microcode: Option<Seq<char>>,
    pub cpu_cores: u32,
    pub siblings: u32,
    pub core_id: Seq<u32>,
    pub apicid: Seq<u32>,
    pub initial_apicid: Seq<u32>,
    pub cache_size: u32,
    pub physical_id: Seq<u32>,
    pub flags: Seq<Seq<char>>,
    pub clflush_size: Option<u32>,
    pub cache_alignment: Option<u32>,
    pub address_sizes: Option<Seq<char>>,
    pub power_management: Option<Seq<char>>,
    pub vulnerabilities: Seq<Seq<char>>,
}

pub open spec fn opt_string_view(o: Option<String>) -> Option<Seq<char>> {
    match o {
        Some(s) => Some(s@),
        None => None,
    }
}

impl View for LinuxCPUInfo {
    type V = LinuxCPUInfoView;

    open spec fn view(&self) -> LinuxCPUInfoView {
        LinuxCPUInfoView {
            vendor_id: self.vendor_id@,
            model_name: self.model_name@,
            cpu_family: self.cpu_family,
            model: self.model,
            stepping: self.stepping,
            microcode: opt_string_view(self.microcode),
            cpu_cores: self.cpu_cores,
            siblings: self.siblings,
            core_id: self.core_id@,
            apicid: self.apicid@,
            initial_apicid: self.initial_apicid@,
            cache_size: self.cache_size,
            physical_id: self.physical_id@,
            flags: string_views(self.flags@),
            clflush_size: self.clflush_size,
            cache_alignment: self.cache_alignment,
            address_sizes: opt_string_view(self.address_sizes),
            power_management: opt_string_view(self.power_management),
            vulnerabilities: string_views(self.vulnerabilities@),
        }
    }
}

/// `c` with the field `key: v` of a /proc/cpuinfo line recorded: text fields take `v`,
/// numbers that do not parse count as 0 (or as absent for optional ones), per-CPU ids
/// are appended, the cache size is its first word, and the flags are its words.
pub open spec fn cpuinfo_applied(c: LinuxCPUInfoView, key: Seq<char>, v: Seq<char>) -> LinuxCPUInfoView {
    if key == "vendor_id"@ {
        LinuxCPUInfoView { vendor_id: v, ..c }
    } else if key == "model name"@ {
        LinuxCPUInfoView { model_name: v, ..c }
    } else if key == "cpu family"@ {
        LinuxCPUInfoView { cpu_family: parsed_u32(v), ..c }
    } else if key == "model"@ {
        LinuxCPUInfoView { model: parsed_u32(v), ..c }
    } else if key == "stepping"@ {
        LinuxCPUInfoView { stepping: parsed_u32(v), ..c }
    } else if key == "microcode"@ {
        LinuxCPUInfoView { microcode: Some(v), ..c }
    } else if key == "cpu cores"@ {
        LinuxCPUInfoView { cpu_cores: or_zero_u32(parsed_u32(v)), ..c }
    } else if key == "siblings"@ {
        LinuxCPUInfoView { siblings: or_zero_u32(parsed_u32(v)), ..c }
    } else if key == "core id"@ {
        LinuxCPUInfoView { core_id: c.core_id.push(or_zero_u32(parsed_u32(v))), ..c }
    } else if key == "apicid"@ {
        LinuxCPUInfoView { apicid: c.apicid.push(or_zero_u32(parsed_u32(v))), ..c }
    } else if key == "initial apicid"@ {
        LinuxCPUInfoView { initial_apicid: c.initial_apicid.push(or_zero_u32(parsed_u32(v))), ..c }
    } else if key == "cache size"@ {
        if words(v).len() > 0 {
            LinuxCPUInfoView { cache_size: or_zero_u32(parsed_u32(words(v)[0])), ..c }
        } else {
            c
        }
    } else if key == "physical id"@ {
        LinuxCPUInfoView { physical_id: c.physical_id.push(or_zero_u32(parsed_u32(v))), ..c }
    } else if key == "flags"@ {
        LinuxCPUInfoView { flags: words(v), ..c }
    } else if key == "clflush size"@ {
        LinuxCPUInfoView { clflush_size: parsed_u32(v), ..c }
    } else if key == "cache_alignment"@ {
        LinuxCPUInfoView { cache_alignment: parsed_u32(v), ..c }
    } else if key == "address sizes"@ {
        LinuxCPUInfoView { address_sizes: Some(v), ..c }
    } else if key == "power management"@ {
        LinuxCPUInfoView { power_management: Some(v), ..c }
    } else {
        c
    }
}

/// One /proc/cpuinfo line: a `key: value` line records its field.
pub open spec fn cpuinfo_step(c: LinuxCPUInfoView, line: Seq<char>) -> LinuxCPUInfoView {
    match split_once(line, ':') {
        Some((k, v)) => cpuinfo_applied(c, trim(k), trim(v)),
        None => c,
    }
}

/// The information after the lines `ls`, in order, from `c`.
pub open spec fn cpuinfo_fold(c: LinuxCPUInfoView, ls: Seq<Seq<char>>) -> LinuxCPUInfoView
    decreases ls.len(),
{
    if ls.len() == 0 {
        c
    } else {
        cpuinfo_step(cpuinfo_fold(c, ls.drop_last()), ls.last())
    }
}

/// The information before any line is read.
pub open spec fn blank_cpuinfo(vulnerabilities: Seq<Seq<char>>) -> LinuxCPUInfoView {
    LinuxCPUInfoView {
        vendor_id: seq![],
        model_name: seq![],
        cpu_family: None,
        model: None,
        stepping: None,
        microcode: None,
        cpu_cores: 0,
        siblings: 0,
        core_id: seq![],
        apicid: seq![],
        initial_apicid: seq![],
        cache_size: 0,
        physical_id: seq![],
        flags: seq![],
        clflush_size: None,
        cache_alignment: None,
        address_sizes: None,
        power_management: None,
        vulnerabilities,
    }
}

fn strings_of(ws: Vec<Vec<char>>) -> (r: Vec<String>)
    ensures
        string_views(r@) == views(ws@),
{
    let mut out: Vec<String> = Vec::new();
    let n = ws.len();
    let mut i: usize = 0;
    while i < n
        invariant
            i <= n,
            n == ws@.len(),
            string_views(out@) == views(ws@).take(i as int),
        decreases n - i,
    {
        let ghost before = string_views(out@);
        out.push(string_of(ws[i].as_slice()));
        proof {
            assert(string_views(out@) =~= before.push(ws@[i as int]@));
            assert(views(ws@).take(i + 1) =~= views(ws@).take(i as int).push(ws@[i as int]@));
        }
        i += 1;
    }
    proof {
        assert(views(ws@).take(n as int) =~= views(ws@));
    }
    out
}

fn u32_or_zero(v: &[char]) -> (r: u32)
    ensures
        r == or_zero_u32(parsed_u32(v@)),
{
    match parse_u32_chars(v) {
        Some(x) => x,
        None => 0,
    }
}

impl LinuxCPUInfo {
    /// Records one field of a /proc/cpuinfo line.
    fn apply_field(&mut self, key: &[char], value: &[char])
        ensures
            final(self)@ == cpuinfo_applied(old(self)@, key@, value@),
    {
        if chars_eq_str(key, "vendor_id") {
            self.vendor_id = string_of(value);
        } else if chars_eq_str(key, "model name") {
            self.model_name = string_of(value);
        } else if chars_eq_str(key, "cpu family") {
            self.cpu_family = parse_u32_chars(value);
        } else if chars_eq_str(key, "model") {
            self.model = parse_u32_chars(value);
        } else if chars_eq_str(key, "stepping") {
            self.stepping = parse_u32_chars(value);
        } else if chars_eq_str(key, "microcode") {
            self.microcode = Some(string_of(value));
        } else if chars_eq_str(key, "cpu cores") {
            self.cpu_cores = u32_or_zero(value);
        } else if chars_eq_str(key, "siblings") {
            self.siblings = u32_or_zero(value);
        } else if chars_eq_str(key, "core id") {
            self.core_id.push(u32_or_zero(value));
        } else if chars_eq_str(key, "apicid") {
            self.apicid.push(u32_or_zero(value));
        } else if chars_eq_str(key, "initial apicid") {
            self.initial_apicid.push(u32_or_zero(value));
        } else if chars_eq_str(key, "cache size") {
            let ws = words_of(value);
            if ws.len() > 0 {
                proof {
                    assert(ws@[0]@ == words(value@)[0]);
                }
                self.cache_size = u32_or_zero(ws[0].as_slice());
            }
        } else if chars_eq_str(key, "physical id") {
            self.physical_id.push(u32_or_zero(value));
        } else if chars_eq_str(key, "flags") {
            let ws = words_of(value);
            self.flags = strings_of(ws);
        } else if chars_eq_str(key, "clflush size") {
            self.clflush_size = parse_u32_chars(value);
        } else if chars_eq_str(key, "cache_alignment") {
            self.cache_alignment = parse_u32_chars(value);
        } else if chars_eq_str(key, "address sizes") {
            self.address_sizes = Some(string_of(value));
        } else if chars_eq_str(key, "power management") {
            self.power_management = Some(string_of(value));
        }
    }

    /// The information in a /proc/cpuinfo report, with the given vulnerability notes.
    pub fn from_cpuinfo(text: &str, vulnerabilities: Vec<String>) -> (r: LinuxCPUInfo)
        ensures
            r@ == cpuinfo_fold(blank_cpuinfo(string_views(vulnerabilities@)), lines(text@)),
    {
        let ghost start = blank_cpuinfo(string_views(vulnerabilities@));
        let mut info = LinuxCPUInfo {
            vendor_id: String::new(),
            model_name: String::new(),
            cpu_family: None,
            model: None,
            stepping: None,
            microcode: None,
            cpu_cores: 0,
            siblings: 0,
            core_id: Vec::new(),
            apicid: Vec::new(),
            initial_apicid: Vec::new(),
            cache_size: 0,
            physical_id: Vec::new(),
            flags: Vec::new(),
            clflush_size: None,
            cache_alignment: None,
            address_sizes: None,
            power_management: None,
            vulnerabilities,
        };
        let v = chars_of(text);
        let ls = lines_of(v.as_slice());
        let ghost lv = views(ls@);
        proof {
            assert(info@.vendor_id =~= start.vendor_id);
            assert(info@.model_name =~= start.model_name);
            assert(info@.core_id =~= start.core_id);
            assert(info@.apicid =~= start.apicid);
            assert(info@.initial_apicid =~= start.initial_apicid);
            assert(info@.physical_id =~= start.physical_id);
            assert(info@.flags =~= start.flags);
            assert(info@ == start);
            assert(lv.take(0) =~= Seq::<Seq<char>>::empty());
        }
        let n = ls.len();
        let mut i: usize = 0;
        while i < n
            invariant
                i <= n,
                n == ls@.len(),
                lv == views(ls@),
                lv == lines(text@),
                info@ == cpuinfo_fold(start, lv.take(i as int)),
            decreases n - i,
        {
            proof {
                assert(lv.take(i + 1).drop_last() =~= lv.take(i as int));
                assert(lv.take(i + 1).last() == ls@[i as int]@);
            }
            match split_once_chars(ls[i].as_slice(), ':') {
                Some((k, val)) => {
                    let key = trim_chars(k.as_slice());
                    let value = trim_chars(val.as_slice());
                    info.apply_field(key.as_slice(), value.as_slice());
                },
                None => {},
            }
            i += 1;
        }
        proof {
            assert(lv.take(n as int) =~= lv);
        }
        info
    }
}

/// The cache types looked up for each level.
pub fn cache_types() -> (r: Vec<&'static str>)
    ensures
        r@.map_values(|t: &str| t@) == seq!["data"@, "instruction"@, "unified"@],
{
    let mut r: Vec<&'static str> = Vec::new();
    r.push("data");
    r.push("instruction");
    r.push("unified");
    proof {
        assert(r@.map_values(|t: &str| t@) =~= seq!["data"@, "instruction"@, "unified"@]);
    }
    r
}

/// The cache entry for a level and type from the `type` and `size` files of its sysfs
/// cache index: present when the type file names that type or "Unified" and the size
/// (every `K` taken out) is a number of KB.
pub open spec fn cache_entry_spec(level: u32, cache_type: Seq<char>, type_text: Seq<char>, size_text: Seq<char>) -> Option<(Seq<char>, u32)> {
    if trim(type_text) == cache_type || trim(type_text) == "Unified"@ {
        match parsed_u32(remove_all(trim(size_text), "K"@)) {
            Some(kb) => Some(("L"@ + decimal(level as nat) + " "@ + cache_type, kb)),
            None => None,
        }
    } else {
        None
    }
}

/// The cache entry named "L<level> <type>" with its size in KB, when the files show one.
pub fn cache_entry(level: u32, cache_type: &str, type_text: &str, size_text: &str) -> (r: Option<(String, u32)>)
    ensures
        match cache_entry_spec(level, cache_type@, type_text@, size_text@) {
            Some((name, kb)) => r matches Some((n, k)) && n@ == name && k == kb,
            None => r is None,
        },
{
    let tv = chars_of(type_text);
    let tt = trim_chars(tv.as_slice());
    if !(crate::text::chars_eq(tt.as_slice(), chars_of(cache_type).as_slice()) || chars_eq_str(
        tt.as_slice(),
        "Unified",
    )) {
        return None;
    }
    let sv = chars_of(size_text);
    let st = trim_chars(sv.as_slice());
    let digits = remove_all_chars(st.as_slice(), chars_of("K").as_slice());
    match parse_u32_chars(digits.as_slice()) {
        Some(kb) => {
            let mut name = owned("L");
            push_decimal(&mut name, level as u64);
            push_str(&mut name, " ");
            push_str(&mut name, cache_type);
            Some((name, kb))
        },
        None => None,
    }
}

/// A frequency entry when its sysfs file could be read and holds a number.
pub open spec fn frequency_entry(name: Seq<char>, text: Option<Seq<char>>) -> Seq<(Seq<char>, u32)> {
    match text {
        Some(t) => match parsed_u32(trim(t)) {
            Some(khz) => seq![(name, khz)],
            None => seq![],
        },
        None => seq![],
    }
}

fn push_frequency(out: &mut Vec<(String, u32)>, name: &str, text: Option<&str>)
    ensures
        final(out)@.map_values(|e: (String, u32)| (e.0@, e.1)) == old(out)@.map_values(
            |e: (String, u32)| (e.0@, e.1),
        ) + frequency_entry(name@, opt_str(text)),
{
    let ghost before = out@.map_values(|e: (String, u32)| (e.0@, e.1));
    match text {
        Some(t) => {
            let tv = chars_of(t);
            let tt = trim_chars(tv.as_slice());
            match parse_u32_chars(tt.as_slice()) {
                Some(khz) => {
                    out.push((owned(name), khz));
                    proof {
                        assert(out@.map_values(|e: (String, u32)| (e.0@, e.1)) =~= before.push(
                            (name@, khz),
                        ));
                    }
                },
                None => {},
            }
        },
        None => {},
    }
    proof {
        assert(out@.map_values(|e: (String, u32)| (e.0@, e.1)) =~= before + frequency_entry(
            name@,
            opt_str(text),
        ));
    }
}

/// The frequency entries (in kHz) from the cpufreq files for the minimum, maximum and
/// current frequency, each `None` when it could not be read.
pub fn frequency_entries(min: Option<&str>, max: Option<&str>, current: Option<&str>) -> (r: Vec<(String, u32)>)
    ensures
        r@.map_values(|e: (String, u32)| (e.0@, e.1)) == frequency_entry(
            "min_frequency_khz"@,
            opt_str(min),
        ) + frequency_entry("max_frequency_khz"@, opt_str(max)) + frequency_entry(
            "current_frequency_khz"@,
            opt_str(current),
        ),
{
    let mut out: Vec<(String, u32)> = Vec::new();
    proof {
        assert(out@.map_values(|e: (String, u32)| (e.0@, e.1)) =~= Seq::<(Seq<char>, u32)>::empty());
    }
    push_frequency(&mut out, "min_frequency_khz", min);
    push_frequency(&mut out, "max_frequency_khz", max);
    push_frequency(&mut out, "current_frequency_khz", current);
    proof {
        assert(Seq::<(Seq<char>, u32)>::empty() + frequency_entry("min_frequency_khz"@, opt_str(min))
            =~= frequency_entry("min_frequency_khz"@, opt_str(min)));
    }
    out
}

} // verus!
