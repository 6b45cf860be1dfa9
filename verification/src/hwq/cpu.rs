//! CPU description, and what the detectors read from `/proc/cpuinfo` and `/sys`.
use vstd::prelude::*;
use crate::text::{
    all_digits, chars_eq, chars_of, contains_lit, decimal, first_keyed_field, has_prefix,
    has_sub, keyed_field, lines, lines_of, lowercase, owned, parse_unsigned, parse_unsigned_chars,
    push_str, second_field, second_field_chars, starts_with_chars, starts_with_str, str_eq,
    string_of, to_lowercase, trim, trim_chars, trim_str, views, words, words_of,
};

verus! {

/// CPU vendor.
#[derive(Debug, Clone)]
pub enum CPUVendor {
    Intel,
    AMD,
    ARM,
    Apple,
    Unknown(String),
}

pub open spec fn cpu_vendor_label(v: CPUVendor) -> Seq<char> {
    match v {
        CPUVendor::Intel => "Intel"@,
        CPUVendor::AMD => "AMD"@,
        CPUVendor::ARM => "ARM"@,
        CPUVendor::Apple => "Apple"@,
        CPUVendor::Unknown(name) => name@,
    }
}

impl CPUVendor {
    /// The vendor's display name.
    pub fn label(&self) -> (r: String)
        ensures
            r@ == cpu_vendor_label(*self),
    {
        match self {
            CPUVendor::Intel => owned("Intel"),
            CPUVendor::AMD => owned("AMD"),
            CPUVendor::ARM => owned("ARM"),
            CPUVendor::Apple => owned("Apple"),
            CPUVendor::Unknown(name) => owned(name.as_str()),
        }
    }
}

/// CPU feature flags.
#[derive(Debug, Clone)]
pub enum CPUFeature {
    AVX,
    AVX2,
    AVX512,
    SSE,
    SSE2,
    SSE3,
    SSE41,
    SSE42,
    FMA,
    AES,
    SHA,
    BMI1,
    BMI2,
    RDRAND,
    RDSEED,
    POPCNT,
    LZCNT,
    MOVBE,
    PREFETCHWT1,
    CLFLUSHOPT,
    CLWB,
    XSAVE,
    XSAVEOPT,
    XSAVEC,
    XSAVES,
    FSGSBASE,
    RDTSCP,
    F16C,
    Unknown(String),
}

pub open spec fn cpu_feature_label(f: CPUFeature) -> Seq<char> {
    match f {
        CPUFeature::AVX => "AVX"@,
        CPUFeature::AVX2 => "AVX2"@,
        CPUFeature::AVX512 => "AVX512"@,
        CPUFeature::SSE => "SSE"@,
        CPUFeature::SSE2 => "SSE2"@,
        CPUFeature::SSE3 => "SSE3"@,
        CPUFeature::SSE41 => "SSE4.1"@,
        CPUFeature::SSE42 => "SSE4.2"@,
        CPUFeature::FMA => "FMA"@,
        CPUFeature::AES => "AES"@,
        CPUFeature::SHA => "SHA"@,
        CPUFeature::BMI1 => "BMI1"@,
        CPUFeature::BMI2 => "BMI2"@,
        CPUFeature::RDRAND => "RDRAND"@,
        CPUFeature::RDSEED => "RDSEED"@,
        CPUFeature::POPCNT => "POPCNT"@,
        CPUFeature::LZCNT => "LZCNT"@,
        CPUFeature::MOVBE => "MOVBE"@,
        CPUFeature::PREFETCHWT1 => "PREFETCHWT1"@,
        CPUFeature::CLFLUSHOPT => "CLFLUSHOPT"@,
        CPUFeature::CLWB => "CLWB"@,
        CPUFeature::XSAVE => "XSAVE"@,
        CPUFeature::XSAVEOPT => "XSAVEOPT"@,
        CPUFeature::XSAVEC => "XSAVEC"@,
        CPUFeature::XSAVES => "XSAVES"@,
        CPUFeature::FSGSBASE => "FSGSBASE"@,
        CPUFeature::RDTSCP => "RDTSCP"@,
        CPUFeature::F16C => "F16C"@,
        CPUFeature::Unknown(name) => name@,
    }
}

impl CPUFeature {
    /// The feature's display name.
    pub fn label(&self) -> (r: String)
        ensures
            r@ == cpu_feature_label(*self),
    {
        match self {
            CPUFeature::AVX => owned("AVX"),
            CPUFeature::AVX2 => owned("AVX2"),
            CPUFeature::AVX512 => owned("AVX512"),
            CPUFeature::SSE => owned("SSE"),
            CPUFeature::SSE2 => owned("SSE2"),
            CPUFeature::SSE3 => owned("SSE3"),
            CPUFeature::SSE41 => owned("SSE4.1"),
            CPUFeature::SSE42 => owned("SSE4.2"),
            CPUFeature::FMA => owned("FMA"),
            CPUFeature::AES => owned("AES"),
            CPUFeature::SHA => owned("SHA"),
            CPUFeature::BMI1 => owned("BMI1"),
            CPUFeature::BMI2 => owned("BMI2"),
            CPUFeature::RDRAND => owned("RDRAND"),
            CPUFeature::RDSEED => owned("RDSEED"),
            CPUFeature::POPCNT => owned("POPCNT"),
            CPUFeature::LZCNT => owned("LZCNT"),
            CPUFeature::MOVBE => owned("MOVBE"),
            CPUFeature::PREFETCHWT1 => owned("PREFETCHWT1"),
            CPUFeature::CLFLUSHOPT => owned("CLFLUSHOPT"),
            CPUFeature::CLWB => owned("CLWB"),
            CPUFeature::XSAVE => owned("XSAVE"),
            CPUFeature::XSAVEOPT => owned("XSAVEOPT"),
            CPUFeature::XSAVEC => owned("XSAVEC"),
            CPUFeature::XSAVES => owned("XSAVES"),
            CPUFeature::FSGSBASE => owned("FSGSBASE"),
            CPUFeature::RDTSCP => owned("RDTSCP"),
            CPUFeature::F16C => owned("F16C"),
            CPUFeature::Unknown(name) => owned(name.as_str()),
        }
    }
}

/// The vendor a lower-case brand string names.
pub open spec fn vendor_for(lower: Seq<char>) -> Option<CPUVendor> {
    if has_sub(lower, "intel"@) {
        Some(CPUVendor::Intel)
    } else if has_sub(lower, "amd"@) {
        Some(CPUVendor::AMD)
    } else if has_sub(lower, "arm"@) {
        Some(CPUVendor::ARM)
    } else if has_sub(lower, "apple"@) {
        Some(CPUVendor::Apple)
    } else {
        None
    }
}

/// The vendor that a brand string names, by its lower-case form; an unrecognised brand
/// is kept as the vendor's name.
pub fn parse_vendor(brand: &str) -> (r: CPUVendor)
    ensures
        match vendor_for(lowercase(brand@)) {
            Some(v) => r == v,
            None => r matches CPUVendor::Unknown(n) && n@ == brand@,
        },
{
    let l = to_lowercase(brand);
    let v = chars_of(l.as_str());
    let s = v.as_slice();
    if contains_lit(s, "intel") {
        CPUVendor::Intel
    } else if contains_lit(s, "amd") {
        CPUVendor::AMD
    } else if contains_lit(s, "arm") {
        CPUVendor::ARM
    } else if contains_lit(s, "apple") {
        CPUVendor::Apple
    } else {
        CPUVendor::Unknown(owned(brand))
    }
}

/// The model part of a brand string: what precedes its first `@`, trimmed.
pub open spec fn model_name_of(brand: Seq<char>) -> Seq<char> {
    let i = crate::text::index_of(brand, '@');
    if i < 0 {
        trim(brand)
    } else {
        trim(brand.take(i))
    }
}

/// The model name in a brand string such as "Intel(R) Core(TM) i7 CPU @ 2.60GHz".
pub fn extract_model_name(brand: &str) -> (r: String)
    ensures
        r@ == model_name_of(brand@),
{
    let v = chars_of(brand);
    let i = crate::text::find_char_from(v.as_slice(), 0, '@');
    proof {
        crate::text::lemma_first_from(v@, 0, '@', i as int);
        assert(v@.skip(0) =~= v@);
    }
    let head = crate::text::slice_range(v.as_slice(), 0, i);
    proof {
        if i == v.len() {
            assert(head@ =~= brand@);
        } else {
            assert(head@ =~= brand@.take(i as int));
        }
    }
    let t = trim_chars(head.as_slice());
    string_of(t.as_slice())
}

/// `features` holds one whose display name equals `feature`, both in lower case.
pub open spec fn has_feature_named(features: Seq<CPUFeature>, feature: Seq<char>) -> bool {
    exists|i: int|
        0 <= i < features.len() && lowercase(cpu_feature_label(#[trigger] features[i]))
            == lowercase(feature)
}

/// Whether `features` includes the named feature, compared without regard to case.
pub fn has_feature(features: &[CPUFeature], feature: &str) -> (r: bool)
    ensures
        r == has_feature_named(features@, feature@),
{
    let want = to_lowercase(feature);
    let n = features.len();
    let mut i: usize = 0;
    while i < n
        invariant
            i <= n,
            n == features@.len(),
            want@ == lowercase(feature@),
            forall|k: int|
                0 <= k < i ==> lowercase(cpu_feature_label(#[trigger] features@[k]))
                    != lowercase(feature@),
        decreases n - i,
    {
        let name = features[i].label();
        let l = to_lowercase(name.as_str());
        if str_eq(l.as_str(), want.as_str()) {
            return true;
        }
        i += 1;
    }
    false
}

// ---------------------------------------------------------------------------
// /proc/cpuinfo
// ---------------------------------------------------------------------------

/// The feature a `/proc/cpuinfo` flag stands for, among those this library knows.
pub open spec fn flag_feature(w: Seq<char>) -> Option<CPUFeature> {
    if w == "sse"@ {
        Some(CPUFeature::SSE)
    } else if w == "sse2"@ {
        Some(CPUFeature::SSE2)
    } else if w == "sse3"@ {
        Some(CPUFeature::SSE3)
    } else if w == "sse4_1"@ {
        Some(CPUFeature::SSE41)
    } else if w == "sse4_2"@ {
        Some(CPUFeature::SSE42)
    } else if w == "avx"@ {
        Some(CPUFeature::AVX)
    } else if w == "avx2"@ {
        Some(CPUFeature::AVX2)
    } else if w == "avx512f"@ {
        Some(CPUFeature::AVX512)
    } else if w == "fma"@ {
        Some(CPUFeature::FMA)
    } else if w == "aes"@ {
        Some(CPUFeature::AES)
    } else if w == "sha_ni"@ {
        Some(CPUFeature::SHA)
    } else if w == "bmi1"@ {
        Some(CPUFeature::BMI1)
    } else if w == "bmi2"@ {
        Some(CPUFeature::BMI2)
    } else if w == "rdrand"@ {
        Some(CPUFeature::RDRAND)
    } else if w == "rdseed"@ {
        Some(CPUFeature::RDSEED)
    } else if w == "popcnt"@ {
        Some(CPUFeature::POPCNT)
    } else if w == "lzcnt"@ {
        Some(CPUFeature::LZCNT)
    } else {
        None
    }
}

fn flag_feature_exec(w: &[char]) -> (r: Option<CPUFeature>)
    ensures
        r == flag_feature(w@),
{
    let lit_sse = chars_of("sse");
    let lit_sse2 = chars_of("sse2");
    let lit_sse3 = chars_of("sse3");
    let lit_sse4_1 = chars_of("sse4_1");
    let lit_sse4_2 = chars_of("sse4_2");
    let lit_avx = chars_of("avx");
    let lit_avx2 = chars_of("avx2");
    let lit_avx512f = chars_of("avx512f");
    let lit_fma = chars_of("fma");
    let lit_aes = chars_of("aes");
    let lit_sha_ni = chars_of("sha_ni");
    let lit_bmi1 = chars_of("bmi1");
    let lit_bmi2 = chars_of("bmi2");
    let lit_rdrand = chars_of("rdrand");
    let lit_rdseed = chars_of("rdseed");
    let lit_popcnt = chars_of("popcnt");
    let lit_lzcnt = chars_of("lzcnt");
    if chars_eq(w, lit_sse.as_slice()) {
        Some(CPUFeature::SSE)
    } else if chars_eq(w, lit_sse2.as_slice()) {
        Some(CPUFeature::SSE2)
    } else if chars_eq(w, lit_sse3.as_slice()) {
        Some(CPUFeature::SSE3)
    } else if chars_eq(w, lit_sse4_1.as_slice()) {
        Some(CPUFeature::SSE41)
    } else if chars_eq(w, lit_sse4_2.as_slice()) {
        Some(CPUFeature::SSE42)
    } else if chars_eq(w, lit_avx.as_slice()) {
        Some(CPUFeature::AVX)
    } else if chars_eq(w, lit_avx2.as_slice()) {
        Some(CPUFeature::AVX2)
    } else if chars_eq(w, lit_avx512f.as_slice()) {
        Some(CPUFeature::AVX512)
    } else if chars_eq(w, lit_fma.as_slice()) {
        Some(CPUFeature::FMA)
    } else if chars_eq(w, lit_aes.as_slice()) {
        Some(CPUFeature::AES)
    } else if chars_eq(w, lit_sha_ni.as_slice()) {
        Some(CPUFeature::SHA)
    } else if chars_eq(w, lit_bmi1.as_slice()) {
        Some(CPUFeature::BMI1)
    } else if chars_eq(w, lit_bmi2.as_slice()) {
        Some(CPUFeature::BMI2)
    } else if chars_eq(w, lit_rdrand.as_slice()) {
        Some(CPUFeature::RDRAND)
    } else if chars_eq(w, lit_rdseed.as_slice()) {
        Some(CPUFeature::RDSEED)
    } else if chars_eq(w, lit_popcnt.as_slice()) {
        Some(CPUFeature::POPCNT)
    } else if chars_eq(w, lit_lzcnt.as_slice()) {
        Some(CPUFeature::LZCNT)
    } else {
        None
    }
}

/// The known features among the flags `ws`, in order.
pub open spec fn features_of_flags(ws: Seq<Seq<char>>) -> Seq<CPUFeature>
    decreases ws.len(),
{
    if ws.len() == 0 {
        seq![]
    } else {
        let rest = features_of_flags(ws.drop_last());
        match flag_feature(ws.last()) {
            Some(f) => rest.push(f),
            None => rest,
        }
    }
}

/// The features on the first `flags` line of a `/proc/cpuinfo` text.
pub open spec fn cpuinfo_features(text: Seq<char>) -> Seq<CPUFeature> {
    match first_keyed_field(lines(text), "flags"@, None, ':') {
        None => seq![],
        Some(f) => features_of_flags(words(f)),
    }
}

/// The CPU features listed on the first `flags` line of a `/proc/cpuinfo` text that
/// has a value: each known flag, in order; unknown flags are skipped.
pub fn features_from_cpuinfo(text: &str) -> (r: Vec<CPUFeature>)
    ensures
        r@ == cpuinfo_features(text@),
{
    match keyed_field(text, "flags", None, ':') {
        None => Vec::new(),
        Some(f) => {
            let ws = words_of(f.as_slice());
            let ghost wv = views(ws@);
            let n = ws.len();
            let mut out: Vec<CPUFeature> = Vec::new();
            let mut i: usize = 0;
            proof {
                assert(wv.take(0) =~= Seq::<Seq<char>>::empty());
                assert(out@ =~= Seq::<CPUFeature>::empty());
            }
            while i < n
                invariant
                    i <= n,
                    n == ws@.len(),
                    wv == views(ws@),
                    out@ == features_of_flags(wv.take(i as int)),
                decreases n - i,
            {
                proof {
                    assert(wv.take(i + 1).drop_last() =~= wv.take(i as int));
                    assert(wv.take(i + 1).last() == ws@[i as int]@);
                }
                match flag_feature_exec(ws[i].as_slice()) {
                    Some(feat) => out.push(feat),
                    None => {},
                }
                i += 1;
            }
            proof {
                assert(wv.take(n as int) =~= wv);
            }
            out
        },
    }
}

/// The number in the value of the first line of `text` keyed `key` (and not `exclude`).
pub open spec fn keyed_number(text: Seq<char>, key: Seq<char>, exclude: Option<Seq<char>>) -> Option<
    nat,
> {
    match first_keyed_field(lines(text), key, exclude, ':') {
        None => None,
        Some(f) => parse_unsigned(trim(f), u32::MAX as nat),
    }
}

fn keyed_u32(text: &str, key: &str, exclude: Option<&str>) -> (r: Option<u32>)
    ensures
        match keyed_number(text@, key@, crate::text::opt_view(exclude)) {
            None => r is None,
            Some(x) => r == Some(x as u32),
        },
{
    match keyed_field(text, key, exclude, ':') {
        None => None,
        Some(f) => {
            let t = trim_chars(f.as_slice());
            match parse_unsigned_chars(t.as_slice(), u32::MAX as u64) {
                None => None,
                Some(x) => Some(x as u32),
            }
        },
    }
}

/// The stepping in a `/proc/cpuinfo` text: the value of the first `stepping` line.
pub fn cpuinfo_stepping(text: &str) -> (r: Option<u32>)
    ensures
        match keyed_number(text@, "stepping"@, None) {
            None => r is None,
            Some(x) => r == Some(x as u32),
        },
{
    keyed_u32(text, "stepping", None)
}

/// The CPU family in a `/proc/cpuinfo` text: the value of the first `cpu family` line.
pub fn cpuinfo_family(text: &str) -> (r: Option<u32>)
    ensures
        match keyed_number(text@, "cpu family"@, None) {
            None => r is None,
            Some(x) => r == Some(x as u32),
        },
{
    keyed_u32(text, "cpu family", None)
}

/// The model number in a `/proc/cpuinfo` text: the value of the first line keyed
/// `model` that is not a `model name` line.
pub fn cpuinfo_model(text: &str) -> (r: Option<u32>)
    ensures
        match keyed_number(text@, "model"@, Some("model name"@)) {
            None => r is None,
            Some(x) => r == Some(x as u32),
        },
{
    keyed_u32(text, "model", Some("model name"))
}

/// The microcode version in a `/proc/cpuinfo` text, trimmed.
pub fn cpuinfo_microcode(text: &str) -> (r: Option<String>)
    ensures
        match first_keyed_field(lines(text@), "microcode"@, None, ':') {
            None => r is None,
            Some(f) => r matches Some(s) && s@ == trim(f),
        },
{
    match keyed_field(text, "microcode", None, ':') {
        None => None,
        Some(f) => {
            let t = trim_chars(f.as_slice());
            Some(string_of(t.as_slice()))
        },
    }
}

/// The core ids on the `core id` lines of a `/proc/cpuinfo` text whose value parses.
pub open spec fn core_ids(ls: Seq<Seq<char>>) -> Seq<u32>
    decreases ls.len(),
{
    if ls.len() == 0 {
        seq![]
    } else {
        let rest = core_ids(ls.drop_last());
        let l = ls.last();
        if has_prefix(l, "core id"@) {
            match second_field(l, ':') {
                Some(f) => match parse_unsigned(trim(f), u32::MAX as nat) {
                    Some(x) => rest.push(x as u32),
                    None => rest,
                },
                None => rest,
            }
        } else {
            rest
        }
    }
}

/// The distinct core ids of a `/proc/cpuinfo` text, each once.
pub fn distinct_core_ids(text: &str) -> (r: Vec<u32>)
    ensures
        r@.no_duplicates(),
        r@.to_set() == core_ids(lines(text@)).to_set(),
{
    let v = chars_of(text);
    let ls = lines_of(v.as_slice());
    let ghost lv = views(ls@);
    let key = chars_of("core id");
    let n = ls.len();
    let mut out: Vec<u32> = Vec::new();
    let mut i: usize = 0;
    proof {
        assert(lv.take(0) =~= Seq::<Seq<char>>::empty());
        assert(out@.to_set() =~= core_ids(lv.take(0)).to_set());
    }
    while i < n
        invariant
            i <= n,
            n == ls@.len(),
            lv == views(ls@),
            lv == lines(text@),
            key@ == "core id"@,
            out@.no_duplicates(),
            out@.to_set() == core_ids(lv.take(i as int)).to_set(),
        decreases n - i,
    {
        let line = ls[i].as_slice();
        proof {
            assert(lv.take(i + 1).drop_last() =~= lv.take(i as int));
            assert(lv.take(i + 1).last() == line@);
        }
        let ghost prev = core_ids(lv.take(i as int));
        if starts_with_chars(line, key.as_slice()) {
            match second_field_chars(line, ':') {
                Some(f) => {
                    let t = trim_chars(f.as_slice());
                    match parse_unsigned_chars(t.as_slice(), u32::MAX as u64) {
                        Some(x) => {
                            let id = x as u32;
                            let mut seen = false;
                            let m = out.len();
                            let mut k: usize = 0;
                            while k < m
                                invariant
                                    k <= m,
                                    m == out@.len(),
                                    seen == exists|j: int| 0 <= j < k && out@[j] == id,
                                decreases m - k,
                            {
                                if out[k] == id {
                                    seen = true;
                                }
                                k += 1;
                            }
                            let ghost before = out@;
                            if !seen {
                                out.push(id);
                                proof {
                                    assert forall|a: int, b: int|
                                        0 <= a < out@.len() && 0 <= b < out@.len() && a != b implies out@[a]
                                        != out@[b] by {
                                        if a < before.len() && b < before.len() {
                                        } else if a == before.len() {
                                            assert(out@[b] == before[b]);
                                        } else {
                                            assert(out@[a] == before[a]);
                                        }
                                    }
                                }
                            }
                            proof {
                                assert(core_ids(lv.take(i + 1)) == prev.push(id));
                                assert(out@.to_set() =~= prev.push(id).to_set()) by {
                                    assert forall|y: u32| out@.to_set().contains(y)
                                        == prev.push(id).to_set().contains(y) by {
                                        if y == id {
                                            if seen {
                                                let j = choose|j: int|
                                                    0 <= j < m && before[j] == id;
                                                assert(before.contains(id));
                                            } else {
                                                assert(out@[out@.len() - 1] == id);
                                            }
                                            assert(prev.push(id)[prev.len() as int] == id);
                                        } else {
                                            if out@.to_set().contains(y) {
                                                let j = choose|j: int|
                                                    0 <= j < out@.len() && out@[j] == y;
                                                if !seen && j == before.len() {
                                                } else {
                                                    assert(before[j] == y);
                                                    assert(before.to_set().contains(y));
                                                    assert(prev.to_set().contains(y));
                                                    let q = choose|q: int|
                                                        0 <= q < prev.len() && prev[q] == y;
                                                    assert(prev.push(id)[q] == y);
                                                }
                                            }
                                            if prev.push(id).to_set().contains(y) {
                                                let q = choose|q: int|
                                                    0 <= q < prev.len() + 1 && prev.push(id)[q]
                                                        == y;
                                                assert(q < prev.len());
                                                assert(prev[q] == y);
                                                assert(prev.to_set().contains(y));
                                                assert(before.to_set().contains(y));
                                                let j = choose|j: int|
                                                    0 <= j < before.len() && before[j] == y;
                                                assert(out@[j] == y);
                                            }
                                        }
                                    }
                                }
                            }
                        },
                        None => {},
                    }
                },
                None => {},
            }
        }
        i += 1;
    }
    proof {
        assert(lv.take(n as int) =~= lv);
    }
    out
}

/// Physical cores from a `/proc/cpuinfo` text: the number of distinct core ids, or,
/// when it lists none, half the logical CPU count.
pub fn physical_cores_from_cpuinfo(text: &str, logical_cpus: usize) -> (r: u32)
    ensures
        core_ids(lines(text@)).len() > 0 ==> r == core_ids(lines(text@)).to_set().len() as u32,
        core_ids(lines(text@)).len() == 0 ==> r == (logical_cpus / 2) as u32,
{
    let ids = distinct_core_ids(text);
    proof {
        ids@.unique_seq_to_set();
        let c = core_ids(lines(text@));
        if c.len() > 0 {
            assert(c.to_set().contains(c[0]));
        } else {
            assert(c.to_set() =~= Set::<u32>::empty());
            if ids@.len() > 0 {
                assert(ids@.to_set().contains(ids@[0]));
            }
        }
    }
    if ids.len() > 0 {
        #[verifier::truncate]
        (ids.len() as u32)
    } else {
        #[verifier::truncate]
        ((logical_cpus / 2) as u32)
    }
}

/// `s` without the trailing `c` characters (what `str::trim_end_matches` with a char gives).
pub open spec fn strip_trailing(s: Seq<char>, c: char) -> Seq<char>
    decreases s.len(),
{
    if s.len() > 0 && s.last() == c {
        strip_trailing(s.drop_last(), c)
    } else {
        s
    }
}

/// A cache size from `/sys/devices/system/cpu/cpu0/cache/index*/size`, such as "32K":
/// the text trimmed, its trailing `K`s dropped, read as a number of KB.
pub open spec fn cache_size_kb(text: Seq<char>) -> Option<nat> {
    parse_unsigned(strip_trailing(trim(text), 'K'), u32::MAX as nat)
}

/// The size in KB given by a cache size file.
pub fn parse_cache_size(text: &str) -> (r: Option<u32>)
    ensures
        match cache_size_kb(text@) {
            None => r is None,
            Some(x) => r == Some(x as u32),
        },
{
    let v = chars_of(text);
    let t = trim_chars(v.as_slice());
    let mut j = t.len();
    proof {
        assert(t@.take(t@.len() as int) =~= t@);
    }
    while j > 0 && t[j - 1] == 'K'
        invariant
            j <= t@.len(),
            strip_trailing(t@, 'K') == strip_trailing(t@.take(j as int), 'K'),
        decreases j,
    {
        proof {
            assert(t@.take(j as int).drop_last() =~= t@.take(j - 1));
        }
        j -= 1;
    }
    proof {
        assert(t@.take(t@.len() as int) =~= t@);
    }
    let s = crate::text::slice_range(t.as_slice(), 0, j);
    proof {
        assert(s@ =~= t@.take(j as int));
    }
    match parse_unsigned_chars(s.as_slice(), u32::MAX as u64) {
        None => None,
        Some(x) => Some(x as u32),
    }
}

/// The maximum frequency in MHz from `scaling_max_freq` (a number of kHz).
pub fn max_frequency_from_scaling(text: &str) -> (r: Option<u32>)
    ensures
        match parse_unsigned(trim(text@), u32::MAX as nat) {
            None => r is None,
            Some(x) => r == Some((x / 1000) as u32),
        },
{
    let v = chars_of(text);
    let t = trim_chars(v.as_slice());
    match parse_unsigned_chars(t.as_slice(), u32::MAX as u64) {
        None => None,
        Some(x) => Some((x as u32) / 1000),
    }
}

/// The report line for a CPU vulnerability file: "<name>: <status>" with the status
/// trimmed, unless the status begins with "Not affected" or "Mitigation".
pub fn vulnerability_entry(name: &str, status: &str) -> (r: Option<String>)
    ensures
        ({
            let s = trim(status@);
            if has_prefix(s, "Not affected"@) || has_prefix(s, "Mitigation"@) {
                r is None
            } else {
                r matches Some(x) && x@ == name@ + ": "@ + s
            }
        }),
{
    let s = trim_str(status);
    if starts_with_str(s.as_str(), "Not affected") || starts_with_str(s.as_str(), "Mitigation") {
        None
    } else {
        let mut out = owned(name);
        push_str(&mut out, ": ");
        push_str(&mut out, s.as_str());
        Some(out)
    }
}

// ---------------------------------------------------------------------------
// macOS sysctl values
// ---------------------------------------------------------------------------

/// The physical core count from `sysctl -n hw.physicalcpu` (`None` when it failed), else
/// half the logical CPUs.
pub fn physical_cores_from_sysctl(output: Option<&str>, logical_cpus: usize) -> (r: u32)
    ensures
        match output {
            Some(t) => match parse_unsigned(trim(t@), u32::MAX as nat) {
                Some(x) => r == x,
                None => r == (logical_cpus / 2) as u32,
            },
            None => r == (logical_cpus / 2) as u32,
        },
{
    match output {
        Some(t) => {
            let v = chars_of(t);
            let tv = trim_chars(v.as_slice());
            match parse_unsigned_chars(tv.as_slice(), u32::MAX as u64) {
                Some(x) => x as u32,
                None => (logical_cpus / 2) as u32,
            }
        },
        None => (logical_cpus / 2) as u32,
    }
}

/// The maximum frequency in MHz (its low 32 bits) from `sysctl -n hw.cpufrequency_max`
/// in Hz (`None` when it failed), else 3000.
pub fn max_frequency_from_sysctl(output: Option<&str>) -> (r: u32)
    ensures
        match output {
            Some(t) => match parse_unsigned(trim(t@), u64::MAX as nat) {
                Some(x) => r == ((x / 1000000) as u64) as u32,
                None => r == 3000,
            },
            None => r == 3000,
        },
{
    match output {
        Some(t) => {
            let v = chars_of(t);
            let tv = trim_chars(v.as_slice());
            match parse_unsigned_chars(tv.as_slice(), u64::MAX) {
                Some(x) => (x / 1000000) as u32,
                None => 3000,
            }
        },
        None => 3000,
    }
}

/// A cache size in KB from `sysctl -n hw.l<n>cachesize` in bytes (`None` when it
/// failed), else `fallback`.
pub fn cache_kb_from_sysctl(output: Option<&str>, fallback: u32) -> (r: u32)
    ensures
        match output {
            Some(t) => match parse_unsigned(trim(t@), u32::MAX as nat) {
                Some(x) => r == x / 1024,
                None => r == fallback,
            },
            None => r == fallback,
        },
{
    match output {
        Some(t) => {
            let v = chars_of(t);
            let tv = trim_chars(v.as_slice());
            match parse_unsigned_chars(tv.as_slice(), u32::MAX as u64) {
                Some(x) => (x as u32) / 1024,
                None => fallback,
            }
        },
        None => fallback,
    }
}

/// The sysctl flags that show CPU features on macOS, with the feature each shows.
pub fn macos_feature_checks() -> (r: Vec<(&'static str, CPUFeature)>)
    ensures
        r@.len() == 8,
        r@[0].0@ == "hw.optional.sse"@ && r@[0].1 == CPUFeature::SSE,
        r@[1].0@ == "hw.optional.sse2"@ && r@[1].1 == CPUFeature::SSE2,
        r@[2].0@ == "hw.optional.sse3"@ && r@[2].1 == CPUFeature::SSE3,
        r@[3].0@ == "hw.optional.sse4_1"@ && r@[3].1 == CPUFeature::SSE41,
        r@[4].0@ == "hw.optional.sse4_2"@ && r@[4].1 == CPUFeature::SSE42,
        r@[5].0@ == "hw.optional.avx1_0"@ && r@[5].1 == CPUFeature::AVX,
        r@[6].0@ == "hw.optional.avx2_0"@ && r@[6].1 == CPUFeature::AVX2,
        r@[7].0@ == "hw.optional.aes"@ && r@[7].1 == CPUFeature::AES,
{
    let mut r: Vec<(&'static str, CPUFeature)> = Vec::new();
    r.push(("hw.optional.sse", CPUFeature::SSE));
    r.push(("hw.optional.sse2", CPUFeature::SSE2));
    r.push(("hw.optional.sse3", CPUFeature::SSE3));
    r.push(("hw.optional.sse4_1", CPUFeature::SSE41));
    r.push(("hw.optional.sse4_2", CPUFeature::SSE42));
    r.push(("hw.optional.avx1_0", CPUFeature::AVX));
    r.push(("hw.optional.avx2_0", CPUFeature::AVX2));
    r.push(("hw.optional.aes", CPUFeature::AES));
    r
}

/// A feature flag is set when its sysctl printed "1" (white space aside).
pub open spec fn flag_set(output: Option<Seq<char>>) -> bool {
    output matches Some(t) && trim(t) == "1"@
}

/// The features whose flags are set, in order.
pub open spec fn features_set(checks: Seq<(CPUFeature, Option<Seq<char>>)>) -> Seq<CPUFeature>
    decreases checks.len(),
{
    if checks.len() == 0 {
        seq![]
    } else if flag_set(checks.last().1) {
        features_set(checks.drop_last()).push(checks.last().0)
    } else {
        features_set(checks.drop_last())
    }
}

/// The view of the sysctl outputs beside their features.
pub open spec fn check_views(checks: Seq<(CPUFeature, Option<String>)>) -> Seq<
    (CPUFeature, Option<Seq<char>>),
> {
    checks.map_values(
        |c: (CPUFeature, Option<String>)|
            (
                c.0,
                match c.1 {
                    Some(s) => Some(s@),
                    None => None,
                },
            ),
    )
}

/// The features whose sysctl flag printed "1" (each output `None` when the sysctl
/// failed).
pub fn features_from_flags(checks: Vec<(CPUFeature, Option<String>)>) -> (r: Vec<CPUFeature>)
    ensures
        r@ == features_set(check_views(checks@)),
{
    let ghost cv = check_views(checks@);
    let mut rest = checks;
    let mut out: Vec<CPUFeature> = Vec::new();
    let n = rest.len();
    let mut i: usize = 0;
    while i < n
        invariant
            i <= n,
            n == cv.len(),
            rest@.len() == n - i,
            check_views(rest@) == cv.skip(i as int),
            out@ == features_set(cv.take(i as int)),
        decreases n - i,
    {
        proof {
            assert(cv.take(i + 1).drop_last() =~= cv.take(i as int));
            assert(cv.take(i + 1).last() == cv[i as int]);
            assert(check_views(rest@)[0] == cv[i as int]);
        }
        let ghost before = rest@;
        let (feature, output) = rest.remove(0);
        proof {
            assert(rest@ =~= before.subrange(1, before.len() as int));
            assert forall|k: int| 0 <= k < rest@.len() implies check_views(rest@)[k] == cv.skip(
                i + 1,
            )[k] by {
                assert(rest@[k] == before[k + 1]);
                assert(check_views(before)[k + 1] == cv.skip(i as int)[k + 1]);
            }
            assert(check_views(rest@) =~= cv.skip(i + 1));
        }
        let set = match &output {
            Some(t) => {
                let tt = trim_str(t.as_str());
                str_eq(tt.as_str(), "1")
            },
            None => false,
        };
        if set {
            out.push(feature);
        }
        i += 1;
    }
    proof {
        assert(cv.take(n as int) =~= cv);
    }
    out
}

} // verus!
