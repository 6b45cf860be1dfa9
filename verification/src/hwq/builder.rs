use vstd::prelude::*;
use crate::hwq::network::NetworkInfo;
use crate::text::{ascii_lower, decimal, owned, push_decimal, push_str};

verus! {

/// A test a query applies to each item of one kind, to decide which items it keeps.
pub trait ItemFilter<T> {
    /// The test may be applied to `x`.
    spec fn admits(&self, x: &T) -> bool;

    /// `keep` is an answer the test may give for `x`.
    spec fn answers(&self, x: &T, keep: bool) -> bool;

    /// Applies the test to `x`: whether to keep it.
    fn keeps(&self, x: &T) -> (r: bool)
        requires
            self.admits(x),
        ensures
            self.answers(x, r),
    ;
}

/// The test of a query that filters nothing: it keeps every item.
#[derive(Debug, Clone, Copy)]
pub struct KeepAll;

impl<T> ItemFilter<T> for KeepAll {
    open spec fn admits(&self, x: &T) -> bool {
        true
    }

    open spec fn answers(&self, x: &T, keep: bool) -> bool {
        keep
    }

    fn keeps(&self, x: &T) -> (r: bool) {
        true
    }
}

/// The test of a query given by a predicate over items: it keeps what the predicate
/// accepts.
#[derive(Clone, Copy)]
pub struct Predicate<F>(pub F);

impl<T, F: Fn(&T) -> bool> ItemFilter<T> for Predicate<F> {
    open spec fn admits(&self, x: &T) -> bool {
        self.0.requires((x,))
    }

    open spec fn answers(&self, x: &T, keep: bool) -> bool {
        self.0.ensures((x,), keep)
    }

    fn keeps(&self, x: &T) -> (r: bool) {
        (self.0)(x)
    }
}

/// What a predicate's test may be applied to, and the answers it gives, are what the
/// predicate requires and ensures.
pub proof fn lemma_predicate_test<T, F: Fn(&T) -> bool>(p: Predicate<F>)
    ensures
        forall|x: &T| #[trigger] p.admits(x) == p.0.requires((x,)),
        forall|x: &T, keep: bool| #[trigger] p.answers(x, keep) == p.0.ensures((x,), keep),
{
}

/// The items of `items` whose entry in `keep` is true, in order.
pub open spec fn kept_by<T>(items: Seq<T>, keep: Seq<bool>) -> Seq<T>
    decreases items.len(),
{
    if items.len() == 0 || keep.len() == 0 {
        seq![]
    } else {
        let rest = kept_by(items.drop_last(), keep.drop_last());
        if keep.last() {
            rest.push(items.last())
        } else {
            rest
        }
    }
}

/// `out` is what the test `p` leaves of `items`: for some answers the test gives, one
/// per item, exactly the items it was answered to keep, in their order.
pub open spec fn chosen_by<T, P: ItemFilter<T>>(p: P, items: Seq<T>, out: Seq<T>) -> bool {
    exists|keep: Seq<bool>|
        #![trigger kept_by(items, keep)]
        keep.len() == items.len() && (forall|i: int|
            0 <= i < items.len() ==> p.answers(&items[i], #[trigger] keep[i])) && out == kept_by(
            items,
            keep,
        )
}

/// Answering "keep" for every item keeps every item.
proof fn lemma_kept_by_all<T>(items: Seq<T>, keep: Seq<bool>)
    requires
        keep.len() == items.len(),
        forall|i: int| 0 <= i < keep.len() ==> #[trigger] keep[i],
    ensures
        kept_by(items, keep) == items,
    decreases items.len(),
{
    if items.len() > 0 {
        let k2 = keep.drop_last();
        assert forall|i: int| 0 <= i < k2.len() implies #[trigger] k2[i] by {
            assert(k2[i] == keep[i]);
        }
        lemma_kept_by_all(items.drop_last(), k2);
        assert(keep.last() == keep[keep.len() - 1]);
        assert(items.drop_last().push(items.last()) =~= items);
    } else {
        assert(items =~= Seq::<T>::empty());
    }
}

/// A query with no test on a kind of item keeps every item of that kind it gathers, in
/// their order.
pub proof fn law_unfiltered_keeps_everything<T>(items: Seq<T>, out: Seq<T>)
    requires
        chosen_by::<T, KeepAll>(KeepAll, items, out),
    ensures
        out == items,
{
    let keep = choose|keep: Seq<bool>|
        #![trigger kept_by(items, keep)]
        keep.len() == items.len() && (forall|i: int|
            0 <= i < items.len() ==> KeepAll.answers(&items[i], #[trigger] keep[i])) && out
            == kept_by(items, keep);
    assert forall|i: int| 0 <= i < keep.len() implies #[trigger] keep[i] by {
        assert(KeepAll.answers(&items[i], keep[i]));
    }
    lemma_kept_by_all(items, keep);
}

/// Which hardware components a query gathers, and the tests it applies to the GPUs,
/// storage devices and network interfaces it gathers.
#[derive(Debug, Clone, Copy)]
pub struct HardwareQueryBuilder<G = KeepAll, S = KeepAll, N = KeepAll> {
    pub include_cpu: bool,
    pub include_gpu: bool,
    pub include_memory: bool,
    pub include_storage: bool,
    pub include_network: bool,
    pub include_battery: bool,
    pub include_thermal: bool,
    pub include_pci: bool,
    pub include_usb: bool,
    pub include_virtualization: bool,
    pub include_capabilities: bool,
    pub include_power: bool,
    /// Which GPUs the query keeps
    pub gpu_filter: G,
    /// Which storage devices the query keeps
    pub storage_filter: S,
    /// Which network interfaces the query keeps
    pub network_filter: N,
}

/// `a` and `b` gather the same components.
pub open spec fn same_flags<G1, S1, N1, G2, S2, N2>(
    a: HardwareQueryBuilder<G1, S1, N1>,
    b: HardwareQueryBuilder<G2, S2, N2>,
) -> bool {
    &&& a.include_cpu == b.include_cpu
    &&& a.include_gpu == b.include_gpu
    &&& a.include_memory == b.include_memory
    &&& a.include_storage == b.include_storage
    &&& a.include_network == b.include_network
    &&& a.include_battery == b.include_battery
    &&& a.include_thermal == b.include_thermal
    &&& a.include_pci == b.include_pci
    &&& a.include_usb == b.include_usb
    &&& a.include_virtualization == b.include_virtualization
    &&& a.include_capabilities == b.include_capabilities
    &&& a.include_power == b.include_power
}

/// `n` if `b`, else nothing.
pub open spec fn name_if(b: bool, n: Seq<char>) -> Seq<Seq<char>> {
    if b {
        seq![n]
    } else {
        seq![]
    }
}

/// The names of the components a query gathers, in the order the query visits them.
pub open spec fn requested_names<G, S, N>(b: HardwareQueryBuilder<G, S, N>) -> Seq<Seq<char>> {
    name_if(b.include_cpu, "CPU"@) + name_if(b.include_gpu, "GPU"@) + name_if(
        b.include_memory,
        "Memory"@,
    ) + name_if(b.include_storage, "Storage"@) + name_if(b.include_network, "Network"@)
        + name_if(b.include_battery, "Battery"@) + name_if(b.include_thermal, "Thermal"@)
        + name_if(b.include_pci, "PCI"@) + name_if(b.include_usb, "USB"@) + name_if(
        b.include_virtualization,
        "Virtualization"@,
    ) + name_if(b.include_power, "Power"@)
}

pub open spec fn string_views(v: Seq<String>) -> Seq<Seq<char>> {
    v.map_values(|s: String| s@)
}

fn push_name_if(v: &mut Vec<String>, b: bool, n: &str)
    ensures
        string_views(final(v)@) == string_views(old(v)@) + name_if(b, n@),
{
    let ghost before = string_views(v@);
    if b {
        v.push(owned(n));
        proof {
            assert(string_views(v@) =~= before + seq![n@]);
        }
    } else {
        proof {
            assert(before + Seq::<Seq<char>>::empty() =~= before);
        }
    }
}

impl HardwareQueryBuilder {
    /// A query that gathers nothing yet.
    pub fn new() -> (r: Self)
        ensures
            r == (HardwareQueryBuilder {
                include_cpu: false,
                include_gpu: false,
                include_memory: false,
                include_storage: false,
                include_network: false,
                include_battery: false,
                include_thermal: false,
                include_pci: false,
                include_usb: false,
                include_virtualization: false,
                include_capabilities: false,
                include_power: false,
                gpu_filter: KeepAll,
                storage_filter: KeepAll,
                network_filter: KeepAll,
            }),
    {
        HardwareQueryBuilder {
            include_cpu: false,
            include_gpu: false,
            include_memory: false,
            include_storage: false,
            include_network: false,
            include_battery: false,
            include_thermal: false,
            include_pci: false,
            include_usb: false,
            include_virtualization: false,
            include_capabilities: false,
            include_power: false,
            gpu_filter: KeepAll,
            storage_filter: KeepAll,
            network_filter: KeepAll,
        }
    }
}

impl<G, S, N> HardwareQueryBuilder<G, S, N> {
    pub fn with_cpu(self) -> (r: Self)
        ensures
            r == (HardwareQueryBuilder { include_cpu: true, ..self }),
    {
        HardwareQueryBuilder { include_cpu: true, ..self }
    }

    pub fn with_gpu(self) -> (r: Self)
        ensures
            r == (HardwareQueryBuilder { include_gpu: true, ..self }),
    {
        HardwareQueryBuilder { include_gpu: true, ..self }
    }

    pub fn with_memory(self) -> (r: Self)
        ensures
            r == (HardwareQueryBuilder { include_memory: true, ..self }),
    {
        HardwareQueryBuilder { include_memory: true, ..self }
    }

    pub fn with_storage(self) -> (r: Self)
        ensures
            r == (HardwareQueryBuilder { include_storage: true, ..self }),
    {
        HardwareQueryBuilder { include_storage: true, ..self }
    }

    pub fn with_network(self) -> (r: Self)
        ensures
            r == (HardwareQueryBuilder { include_network: true, ..self }),
    {
        HardwareQueryBuilder { include_network: true, ..self }
    }

    pub fn with_battery(self) -> (r: Self)
        ensures
            r == (HardwareQueryBuilder { include_battery: true, ..self }),
    {
        HardwareQueryBuilder { include_battery: true, ..self }
    }

    pub fn with_thermal(self) -> (r: Self)
        ensures
            r == (HardwareQueryBuilder { include_thermal: true, ..self }),
    {
        HardwareQueryBuilder { include_thermal: true, ..self }
    }

    pub fn with_pci(self) -> (r: Self)
        ensures
            r == (HardwareQueryBuilder { include_pci: true, ..self }),
    {
        HardwareQueryBuilder { include_pci: true, ..self }
    }

    pub fn with_usb(self) -> (r: Self)
        ensures
            r == (HardwareQueryBuilder { include_usb: true, ..self }),
    {
        HardwareQueryBuilder { include_usb: true, ..self }
    }

    pub fn with_virtualization(self) -> (r: Self)
        ensures
            r == (HardwareQueryBuilder { include_virtualization: true, ..self }),
    {
        HardwareQueryBuilder { include_virtualization: true, ..self }
    }

    /// Include power management information.
    pub fn with_power(self) -> (r: Self)
        ensures
            r == (HardwareQueryBuilder { include_power: true, ..self }),
    {
        HardwareQueryBuilder { include_power: true, ..self }
    }

    /// Include every component (capabilities excepted).
    pub fn with_all(self) -> (r: Self)
        ensures
            r == (HardwareQueryBuilder {
                include_cpu: true,
                include_gpu: true,
                include_memory: true,
                include_storage: true,
                include_network: true,
                include_battery: true,
                include_thermal: true,
                include_pci: true,
                include_usb: true,
                include_virtualization: true,
                include_power: true,
                ..self
            }),
    {
        HardwareQueryBuilder {
            include_cpu: true,
            include_gpu: true,
            include_memory: true,
            include_storage: true,
            include_network: true,
            include_battery: true,
            include_thermal: true,
            include_pci: true,
            include_usb: true,
            include_virtualization: true,
            include_power: true,
            ..self
        }
    }

    /// Include CPU, memory and storage.
    pub fn with_basic(self) -> (r: Self)
        ensures
            r == (HardwareQueryBuilder {
                include_cpu: true,
                include_memory: true,
                include_storage: true,
                ..self
            }),
    {
        HardwareQueryBuilder { include_cpu: true, include_memory: true, include_storage: true, ..self }
    }

    /// Include what AI workloads depend on: CPU, GPU and memory; every other component
    /// stays as it was.
    pub fn with_ai_focused(self) -> (r: Self)
        ensures
            r == (HardwareQueryBuilder {
                include_cpu: true,
                include_gpu: true,
                include_memory: true,
                ..self
            }),
    {
        HardwareQueryBuilder { include_cpu: true, include_gpu: true, include_memory: true, ..self }
    }

    /// Include what games depend on: CPU, GPU, memory and thermal; every other component
    /// stays as it was.
    pub fn with_gaming_focused(self) -> (r: Self)
        ensures
            r == (HardwareQueryBuilder {
                include_cpu: true,
                include_gpu: true,
                include_memory: true,
                include_thermal: true,
                ..self
            }),
    {
        HardwareQueryBuilder {
            include_cpu: true,
            include_gpu: true,
            include_memory: true,
            include_thermal: true,
            ..self
        }
    }

    /// Include what servers depend on: CPU, memory, storage, network, thermal, PCI,
    /// virtualization, power.
    pub fn with_server_focused(self) -> (r: Self)
        ensures
            r == (HardwareQueryBuilder {
                include_cpu: true,
                include_memory: true,
                include_storage: true,
                include_network: true,
                include_thermal: true,
                include_pci: true,
                include_virtualization: true,
                include_power: true,
                ..self
            }),
    {
        HardwareQueryBuilder {
            include_cpu: true,
            include_memory: true,
            include_storage: true,
            include_network: true,
            include_thermal: true,
            include_pci: true,
            include_virtualization: true,
            include_power: true,
            ..self
        }
    }

    /// Filter GPUs by a predicate: the query keeps exactly the GPUs it accepts, in order.
    pub fn filter_gpus<T, F>(self, filter: F) -> (r: HardwareQueryBuilder<Predicate<F>, S, N>) where
        F: Fn(&T) -> bool,
        ensures
            same_flags(r, self),
            r.gpu_filter == Predicate(filter),
            r.storage_filter == self.storage_filter,
            r.network_filter == self.network_filter,
    {
        HardwareQueryBuilder {
            include_cpu: self.include_cpu,
            include_gpu: self.include_gpu,
            include_memory: self.include_memory,
            include_storage: self.include_storage,
            include_network: self.include_network,
            include_battery: self.include_battery,
            include_thermal: self.include_thermal,
            include_pci: self.include_pci,
            include_usb: self.include_usb,
            include_virtualization: self.include_virtualization,
            include_capabilities: self.include_capabilities,
            include_power: self.include_power,
            gpu_filter: Predicate(filter),
            storage_filter: self.storage_filter,
            network_filter: self.network_filter,
        }
    }

    /// Filter storage devices by a predicate: the query keeps exactly the devices it
    /// accepts, in order.
    pub fn filter_storage<T, F>(self, filter: F) -> (r: HardwareQueryBuilder<G, Predicate<F>, N>) where
        F: Fn(&T) -> bool,
        ensures
            same_flags(r, self),
            r.gpu_filter == self.gpu_filter,
            r.storage_filter == Predicate(filter),
            r.network_filter == self.network_filter,
    {
        HardwareQueryBuilder {
            include_cpu: self.include_cpu,
            include_gpu: self.include_gpu,
            include_memory: self.include_memory,
            include_storage: self.include_storage,
            include_network: self.include_network,
            include_battery: self.include_battery,
            include_thermal: self.include_thermal,
            include_pci: self.include_pci,
            include_usb: self.include_usb,
            include_virtualization: self.include_virtualization,
            include_capabilities: self.include_capabilities,
            include_power: self.include_power,
            gpu_filter: self.gpu_filter,
            storage_filter: Predicate(filter),
            network_filter: self.network_filter,
        }
    }

    /// Filter network interfaces by a predicate: the query keeps exactly the interfaces it
    /// accepts, in order.
    pub fn filter_network<F>(self, filter: F) -> (r: HardwareQueryBuilder<G, S, Predicate<F>>) where
        F: Fn(&NetworkInfo) -> bool,
        ensures
            same_flags(r, self),
            r.gpu_filter == self.gpu_filter,
            r.storage_filter == self.storage_filter,
            r.network_filter == Predicate(filter),
    {
        HardwareQueryBuilder {
            include_cpu: self.include_cpu,
            include_gpu: self.include_gpu,
            include_memory: self.include_memory,
            include_storage: self.include_storage,
            include_network: self.include_network,
            include_battery: self.include_battery,
            include_thermal: self.include_thermal,
            include_pci: self.include_pci,
            include_usb: self.include_usb,
            include_virtualization: self.include_virtualization,
            include_capabilities: self.include_capabilities,
            include_power: self.include_power,
            gpu_filter: self.gpu_filter,
            storage_filter: self.storage_filter,
            network_filter: Predicate(filter),
        }
    }

    /// The names of the components this query gathers, in order:
    /// CPU, GPU, Memory, Storage, Network, Battery, Thermal, PCI, USB, Virtualization, Power.
    pub fn requested_components(&self) -> (r: Vec<String>)
        ensures
            string_views(r@) == requested_names(*self),
    {
        let mut v: Vec<String> = Vec::new();
        proof {
            assert(string_views(v@) =~= Seq::<Seq<char>>::empty());
        }
        push_name_if(&mut v, self.include_cpu, "CPU");
        push_name_if(&mut v, self.include_gpu, "GPU");
        push_name_if(&mut v, self.include_memory, "Memory");
        push_name_if(&mut v, self.include_storage, "Storage");
        push_name_if(&mut v, self.include_network, "Network");
        push_name_if(&mut v, self.include_battery, "Battery");
        push_name_if(&mut v, self.include_thermal, "Thermal");
        push_name_if(&mut v, self.include_pci, "PCI");
        push_name_if(&mut v, self.include_usb, "USB");
        push_name_if(&mut v, self.include_virtualization, "Virtualization");
        push_name_if(&mut v, self.include_power, "Power");
        proof {
            assert(string_views(v@) =~= requested_names(*self));
        }
        v
    }
}

/// `a` and `b` are equal up to ASCII case (what `str::eq_ignore_ascii_case` tests).
#[verifier::opaque]
pub open spec fn eq_ignore_ascii_case(a: Seq<char>, b: Seq<char>) -> bool {
    a.len() == b.len() && forall|i: int| 0 <= i < a.len() ==> ascii_lower(a[i]) == ascii_lower(b[i])
}

fn to_ascii_lower(c: char) -> (r: char)
    ensures
        r == ascii_lower(c),
{
    let u = c as u32;
    if 65 <= u && u <= 90 {
        ((u + 32) as u8) as char
    } else {
        c
    }
}

/// Whether two strings are equal up to ASCII case.
pub fn equal_ignoring_ascii_case(a: &str, b: &str) -> (r: bool)
    ensures
        r == eq_ignore_ascii_case(a@, b@),
{
    reveal(eq_ignore_ascii_case);
    let x = crate::text::chars_of(a);
    let y = crate::text::chars_of(b);
    if x.len() != y.len() {
        return false;
    }
    let n = x.len();
    let mut i: usize = 0;
    while i < n
        invariant
            i <= n,
            n == x@.len(),
            n == y@.len(),
            x@ == a@,
            y@ == b@,
            forall|k: int| 0 <= k < i ==> ascii_lower(a@[k]) == ascii_lower(b@[k]),
        decreases n - i,
    {
        if to_ascii_lower(x[i]) != to_ascii_lower(y[i]) {
            proof {
                reveal(eq_ignore_ascii_case);
            }
            return false;
        }
        i += 1;
    }
    true
}

/// Whether `component` is among the requested components, ignoring ASCII case.
pub fn has_requested_component(requested: &[String], component: &str) -> (r: bool)
    ensures
        r == exists|i: int|
            0 <= i < requested@.len() && eq_ignore_ascii_case(#[trigger] requested@[i]@, component@),
{
    let n = requested.len();
    let mut i: usize = 0;
    while i < n
        invariant
            i <= n,
            n == requested@.len(),
            forall|k: int| 0 <= k < i ==> !eq_ignore_ascii_case(#[trigger] requested@[k]@, component@),
        decreases n - i,
    {
        if equal_ignoring_ascii_case(requested[i].as_str(), component) {
            return true;
        }
        i += 1;
    }
    false
}

/// `parts` joined with `sep` between consecutive parts.
pub open spec fn join(parts: Seq<Seq<char>>, sep: Seq<char>) -> Seq<char>
    decreases parts.len(),
{
    if parts.len() == 0 {
        seq![]
    } else if parts.len() == 1 {
        parts[0]
    } else {
        join(parts.drop_last(), sep) + sep + parts.last()
    }
}

/// The parts joined with `sep` (what `[String]::join` gives).
pub fn join_strings(parts: &[String], sep: &str) -> (r: String)
    ensures
        r@ == join(string_views(parts@), sep@),
{
    let mut s = String::new();
    let n = parts.len();
    let mut i: usize = 0;
    proof {
        assert(string_views(parts@).take(0) =~= Seq::<Seq<char>>::empty());
    }
    while i < n
        invariant
            i <= n,
            n == parts@.len(),
            s@ == join(string_views(parts@).take(i as int), sep@),
        decreases n - i,
    {
        proof {
            assert(string_views(parts@).take(i + 1).drop_last() =~= string_views(parts@).take(
                i as int,
            ));
            assert(string_views(parts@).take(i + 1).last() == parts@[i as int]@);
        }
        if i > 0 {
            push_str(&mut s, sep);
        } else {
            proof {
                assert(string_views(parts@).take(1)[0] == parts@[0]@);
                assert(Seq::<char>::empty() + parts@[0]@ =~= parts@[0]@);
            }
        }
        push_str(&mut s, parts[i].as_str());
        i += 1;
    }
    proof {
        assert(string_views(parts@).take(n as int) =~= string_views(parts@));
    }
    s
}

/// The summary of a query: "Queried <n> components in <t>ms: <names joined by comma>".
pub fn query_summary_text(requested: &[String], query_time_ms: u64) -> (r: String)
    ensures
        r@ == "Queried "@ + decimal(requested@.len() as nat) + " components in "@ + decimal(
            query_time_ms as nat,
        ) + "ms: "@ + join(string_views(requested@), ", "@),
{
    let mut s = owned("Queried ");
    push_decimal(&mut s, requested.len() as u64);
    push_str(&mut s, " components in ");
    push_decimal(&mut s, query_time_ms);
    push_str(&mut s, "ms: ");
    let joined = join_strings(requested, ", ");
    push_str(&mut s, joined.as_str());
    s
}

/// Some name of `names` equals `c` up to ASCII case.
#[verifier::opaque]
pub open spec fn names_include(names: Seq<Seq<char>>, c: Seq<char>) -> bool {
    exists|i: int| 0 <= i < names.len() && eq_ignore_ascii_case(#[trigger] names[i], c)
}

/// The `k`-th component a query can report, in the order it visits them.
pub open spec fn component_name(k: int) -> Seq<char> {
    if k == 0 {
        "CPU"@
    } else if k == 1 {
        "GPU"@
    } else if k == 2 {
        "Memory"@
    } else if k == 3 {
        "Storage"@
    } else if k == 4 {
        "Network"@
    } else if k == 5 {
        "Battery"@
    } else if k == 6 {
        "Thermal"@
    } else if k == 7 {
        "PCI"@
    } else if k == 8 {
        "USB"@
    } else if k == 9 {
        "Virtualization"@
    } else {
        "Power"@
    }
}

/// Whether the query gathers the `k`-th component of `component_name`.
pub open spec fn component_flag<G, S, N>(b: HardwareQueryBuilder<G, S, N>, k: int) -> bool {
    if k == 0 {
        b.include_cpu
    } else if k == 1 {
        b.include_gpu
    } else if k == 2 {
        b.include_memory
    } else if k == 3 {
        b.include_storage
    } else if k == 4 {
        b.include_network
    } else if k == 5 {
        b.include_battery
    } else if k == 6 {
        b.include_thermal
    } else if k == 7 {
        b.include_pci
    } else if k == 8 {
        b.include_usb
    } else if k == 9 {
        b.include_virtualization
    } else {
        b.include_power
    }
}

proof fn lemma_include_step(s: Seq<Seq<char>>, f: bool, n: Seq<char>, c: Seq<char>)
    ensures
        names_include(s + name_if(f, n), c) == (names_include(s, c) || (f
            && eq_ignore_ascii_case(n, c))),
{
    reveal(names_include);
    let t = s + name_if(f, n);
    if names_include(s, c) {
        let i = choose|i: int| 0 <= i < s.len() && eq_ignore_ascii_case(#[trigger] s[i], c);
        assert(t[i] == s[i]);
    }
    if f && eq_ignore_ascii_case(n, c) {
        assert(t[s.len() as int] == n);
    }
    if names_include(t, c) {
        let i = choose|i: int| 0 <= i < t.len() && eq_ignore_ascii_case(#[trigger] t[i], c);
        if i < s.len() {
            assert(t[i] == s[i]);
        } else {
            assert(t[i] == n);
        }
    }
}

proof fn lemma_names_distinct(j: int, k: int)
    requires
        0 <= j < 11,
        0 <= k < 11,
    ensures
        eq_ignore_ascii_case(component_name(j), component_name(k)) == (j == k),
{
    reveal(eq_ignore_ascii_case);
    reveal_strlit("CPU");
    reveal_strlit("GPU");
    reveal_strlit("Memory");
    reveal_strlit("Storage");
    reveal_strlit("Network");
    reveal_strlit("Battery");
    reveal_strlit("Thermal");
    reveal_strlit("PCI");
    reveal_strlit("USB");
    reveal_strlit("Virtualization");
    reveal_strlit("Power");
    let a = component_name(j);
    let b = component_name(k);
    if j != k && a.len() == b.len() {
        assert(ascii_lower(a[0]) != ascii_lower(b[0]));
    }
}

proof fn lemma_requested_include<G, S, N>(b: HardwareQueryBuilder<G, S, N>, c: Seq<char>)
    ensures
        names_include(requested_names(b), c) == ((b.include_cpu && eq_ignore_ascii_case("CPU"@, c))
            || (b.include_gpu && eq_ignore_ascii_case("GPU"@, c)) || (b.include_memory
            && eq_ignore_ascii_case("Memory"@, c)) || (b.include_storage && eq_ignore_ascii_case(
            "Storage"@,
            c,
        )) || (b.include_network && eq_ignore_ascii_case("Network"@, c)) || (b.include_battery
            && eq_ignore_ascii_case("Battery"@, c)) || (b.include_thermal && eq_ignore_ascii_case(
            "Thermal"@,
            c,
        )) || (b.include_pci && eq_ignore_ascii_case("PCI"@, c)) || (b.include_usb
            && eq_ignore_ascii_case("USB"@, c)) || (b.include_virtualization
            && eq_ignore_ascii_case("Virtualization"@, c)) || (b.include_power
            && eq_ignore_ascii_case("Power"@, c))),
{
    let e = Seq::<Seq<char>>::empty();
    let s0 = e + name_if(b.include_cpu, "CPU"@);
    assert(s0 =~= name_if(b.include_cpu, "CPU"@));
    lemma_include_step(e, b.include_cpu, "CPU"@, c);
    let s1 = s0 + name_if(b.include_gpu, "GPU"@);
    lemma_include_step(s0, b.include_gpu, "GPU"@, c);
    let s2 = s1 + name_if(b.include_memory, "Memory"@);
    lemma_include_step(s1, b.include_memory, "Memory"@, c);
    let s3 = s2 + name_if(b.include_storage, "Storage"@);
    lemma_include_step(s2, b.include_storage, "Storage"@, c);
    let s4 = s3 + name_if(b.include_network, "Network"@);
    lemma_include_step(s3, b.include_network, "Network"@, c);
    let s5 = s4 + name_if(b.include_battery, "Battery"@);
    lemma_include_step(s4, b.include_battery, "Battery"@, c);
    let s6 = s5 + name_if(b.include_thermal, "Thermal"@);
    lemma_include_step(s5, b.include_thermal, "Thermal"@, c);
    let s7 = s6 + name_if(b.include_pci, "PCI"@);
    lemma_include_step(s6, b.include_pci, "PCI"@, c);
    let s8 = s7 + name_if(b.include_usb, "USB"@);
    lemma_include_step(s7, b.include_usb, "USB"@, c);
    let s9 = s8 + name_if(b.include_virtualization, "Virtualization"@);
    lemma_include_step(s8, b.include_virtualization, "Virtualization"@, c);
    lemma_include_step(s9, b.include_power, "Power"@, c);
    assert(!names_include(e, c)) by {
        reveal(names_include);
    }
}

proof fn lemma_component_distinct_all(k: int)
    requires
        0 <= k < 11,
    ensures
        eq_ignore_ascii_case("CPU"@, component_name(k)) == (k == 0),
        eq_ignore_ascii_case("GPU"@, component_name(k)) == (k == 1),
        eq_ignore_ascii_case("Memory"@, component_name(k)) == (k == 2),
        eq_ignore_ascii_case("Storage"@, component_name(k)) == (k == 3),
        eq_ignore_ascii_case("Network"@, component_name(k)) == (k == 4),
        eq_ignore_ascii_case("Battery"@, component_name(k)) == (k == 5),
        eq_ignore_ascii_case("Thermal"@, component_name(k)) == (k == 6),
        eq_ignore_ascii_case("PCI"@, component_name(k)) == (k == 7),
        eq_ignore_ascii_case("USB"@, component_name(k)) == (k == 8),
        eq_ignore_ascii_case("Virtualization"@, component_name(k)) == (k == 9),
        eq_ignore_ascii_case("Power"@, component_name(k)) == (k == 10),
{
    lemma_names_distinct(0, k);
    lemma_names_distinct(1, k);
    lemma_names_distinct(2, k);
    lemma_names_distinct(3, k);
    lemma_names_distinct(4, k);
    lemma_names_distinct(5, k);
    lemma_names_distinct(6, k);
    lemma_names_distinct(7, k);
    lemma_names_distinct(8, k);
    lemma_names_distinct(9, k);
    lemma_names_distinct(10, k);
}

/// A query reports a component, whatever the case in which it is asked for, exactly when
/// the builder included that component.
pub proof fn law_requested_component_reported<G, S, N>(b: HardwareQueryBuilder<G, S, N>, k: int)
    requires
        0 <= k < 11,
    ensures
        names_include(requested_names(b), component_name(k)) == component_flag(b, k),
{
    let c = component_name(k);
    lemma_requested_include(b, c);
    lemma_component_distinct_all(k);
}

/// The hardware information a custom query gathered: each component the query asked
/// for, nothing of the others, when it was collected, how long it took, and the names
/// of the components asked for.
#[derive(Debug)]
pub struct CustomHardwareInfo<Cpu, Gpu, Mem, Sto, Net, Bat, Thm, Pci, Usb, Virt, Pwr> {
    pub cpu: Option<Cpu>,
    pub gpus: Vec<Gpu>,
    pub memory: Option<Mem>,
    pub storage_devices: Vec<Sto>,
    pub network_interfaces: Vec<Net>,
    pub battery: Option<Bat>,
    pub thermal: Option<Thm>,
    pub pci_devices: Vec<Pci>,
    pub usb_devices: Vec<Usb>,
    pub virtualization: Option<Virt>,
    pub power_profile: Option<Pwr>,
    /// When this information was collected
    pub timestamp: std::time::SystemTime,
    /// How long the query took, in milliseconds
    pub query_time_ms: u64,
    /// Which components were requested
    pub requested_components: Vec<String>,
}

/// `v` when the component is asked for, else nothing.
pub open spec fn kept<T>(b: bool, v: Seq<T>) -> Seq<T> {
    if b {
        v
    } else {
        Seq::empty()
    }
}

fn keep_vec<T>(b: bool, v: Vec<T>) -> (r: Vec<T>)
    ensures
        r@ == kept(b, v@),
{
    if b {
        v
    } else {
        Vec::new()
    }
}

fn keep_one<T>(b: bool, v: T) -> (r: Option<T>)
    ensures
        r == (if b {
            Some(v)
        } else {
            None
        }),
{
    if b {
        Some(v)
    } else {
        None
    }
}

fn keep_opt<T>(b: bool, v: Option<T>) -> (r: Option<T>)
    ensures
        r == (if b {
            v
        } else {
            None
        }),
{
    if b {
        v
    } else {
        None
    }
}

/// The items of `v` that the test `p` keeps, in order, when the component is asked for;
/// nothing otherwise.
fn filter_items<T, P: ItemFilter<T>>(wanted: bool, v: Vec<T>, p: &P) -> (r: Vec<T>)
    requires
        forall|x: T| p.admits(&x),
    ensures
        wanted ==> chosen_by(*p, v@, r@),
        !wanted ==> r@.len() == 0,
        forall|j: int| 0 <= j < r@.len() ==> p.answers(&r@[j], true),
{
    if !wanted {
        return Vec::new();
    }
    let ghost orig = v@;
    let mut v = v;
    let mut out: Vec<T> = Vec::new();
    let ghost mut keep: Seq<bool> = Seq::empty();
    let n = v.len();
    let mut k: usize = 0;
    proof {
        assert(orig.skip(0) =~= orig);
        assert(orig.take(0) =~= Seq::<T>::empty());
    }
    while k < n
        invariant
            k <= n,
            n == orig.len(),
            v@ == orig.skip(k as int),
            keep.len() == k,
            forall|i: int| 0 <= i < k ==> p.answers(&orig[i], #[trigger] keep[i]),
            out@ == kept_by(orig.take(k as int), keep),
            forall|j: int| 0 <= j < out@.len() ==> p.answers(&out@[j], true),
            forall|x: T| p.admits(&x),
        decreases n - k,
    {
        let ghost before = v@;
        let x = v.remove(0);
        proof {
            assert(x == orig[k as int]);
            assert(v@ =~= orig.skip(k + 1));
        }
        let b = p.keeps(&x);
        let ghost out_before = out@;
        if b {
            out.push(x);
        }
        proof {
            let keep2 = keep.push(b);
            assert(orig.take(k + 1).drop_last() =~= orig.take(k as int));
            assert(keep2.drop_last() =~= keep);
            assert(orig.take(k + 1).last() == orig[k as int]);
            if b {
                assert(out@ =~= out_before.push(orig[k as int]));
            }
            assert(out@ == kept_by(orig.take(k + 1), keep2));
            assert forall|i: int| 0 <= i < k + 1 implies p.answers(&orig[i], #[trigger] keep2[i]) by {
                if i < k {
                    assert(keep2[i] == keep[i]);
                }
            }
            keep = keep2;
        }
        k = k + 1;
    }
    proof {
        assert(orig.take(n as int) =~= orig);
        assert(kept_by(orig, keep) == out@);
    }
    out
}

impl<G, S, N> HardwareQueryBuilder<G, S, N> {
    /// The custom result of this query from the full hardware information read at
    /// `timestamp` in `query_time_ms` milliseconds: each component the query asks for,
    /// nothing of the others, of the GPUs, storage devices and network interfaces those
    /// its tests keep, and the names of the components asked for, in order.
    pub fn select<Cpu, Gpu, Mem, Sto, Net, Bat, Thm, Pci, Usb, Virt, Pwr>(
        &self,
        cpu: Cpu,
        gpus: Vec<Gpu>,
        memory: Mem,
        storage: Vec<Sto>,
        network: Vec<Net>,
        battery: Option<Bat>,
        thermal: Thm,
        pci: Vec<Pci>,
        usb: Vec<Usb>,
        virt: Virt,
        power: Option<Pwr>,
        timestamp: std::time::SystemTime,
        query_time_ms: u64,
    ) -> (r: CustomHardwareInfo<Cpu, Gpu, Mem, Sto, Net, Bat, Thm, Pci, Usb, Virt, Pwr>) where
        G: ItemFilter<Gpu>,
        S: ItemFilter<Sto>,
        N: ItemFilter<Net>,
        requires
            forall|x: Gpu| self.gpu_filter.admits(&x),
            forall|x: Sto| self.storage_filter.admits(&x),
            forall|x: Net| self.network_filter.admits(&x),
        ensures
            r.cpu == (if self.include_cpu {
                Some(cpu)
            } else {
                None
            }),
            self.include_gpu ==> chosen_by(self.gpu_filter, gpus@, r.gpus@),
            !self.include_gpu ==> r.gpus@.len() == 0,
            forall|j: int| 0 <= j < r.gpus@.len() ==> self.gpu_filter.answers(&r.gpus@[j], true),
            r.memory == (if self.include_memory {
                Some(memory)
            } else {
                None
            }),
            self.include_storage ==> chosen_by(self.storage_filter, storage@, r.storage_devices@),
            !self.include_storage ==> r.storage_devices@.len() == 0,
            forall|j: int|
                0 <= j < r.storage_devices@.len() ==> self.storage_filter.answers(
                    &r.storage_devices@[j],
                    true,
                ),
            self.include_network ==> chosen_by(
                self.network_filter,
                network@,
                r.network_interfaces@,
            ),
            !self.include_network ==> r.network_interfaces@.len() == 0,
            forall|j: int|
                0 <= j < r.network_interfaces@.len() ==> self.network_filter.answers(
                    &r.network_interfaces@[j],
                    true,
                ),
            r.battery == (if self.include_battery {
                battery
            } else {
                None
            }),
            r.thermal == (if self.include_thermal {
                Some(thermal)
            } else {
                None
            }),
            r.pci_devices@ == kept(self.include_pci, pci@),
            r.usb_devices@ == kept(self.include_usb, usb@),
            r.virtualization == (if self.include_virtualization {
                Some(virt)
            } else {
                None
            }),
            r.power_profile == (if self.include_power {
                power
            } else {
                None
            }),
            r.timestamp == timestamp,
            r.query_time_ms == query_time_ms,
            string_views(r.requested_components@) == requested_names(*self),
    {
        CustomHardwareInfo {
            cpu: keep_one(self.include_cpu, cpu),
            gpus: filter_items(self.include_gpu, gpus, &self.gpu_filter),
            memory: keep_one(self.include_memory, memory),
            storage_devices: filter_items(self.include_storage, storage, &self.storage_filter),
            network_interfaces: filter_items(self.include_network, network, &self.network_filter),
            battery: keep_opt(self.include_battery, battery),
            thermal: keep_one(self.include_thermal, thermal),
            pci_devices: keep_vec(self.include_pci, pci),
            usb_devices: keep_vec(self.include_usb, usb),
            virtualization: keep_one(self.include_virtualization, virt),
            power_profile: keep_opt(self.include_power, power),
            timestamp,
            query_time_ms,
            requested_components: self.requested_components(),
        }
    }
}

impl<Cpu, Gpu, Mem, Sto, Net, Bat, Thm, Pci, Usb, Virt, Pwr> CustomHardwareInfo<
    Cpu,
    Gpu,
    Mem,
    Sto,
    Net,
    Bat,
    Thm,
    Pci,
    Usb,
    Virt,
    Pwr,
> {
    /// Whether a component was asked for, ignoring ASCII case.
    pub fn has_component(&self, component: &str) -> (r: bool)
        ensures
            r == names_include(string_views(self.requested_components@), component@),
    {
        let b = has_requested_component(self.requested_components.as_slice(), component);
        proof {
            reveal(names_include);
            let v = string_views(self.requested_components@);
            if b {
                let i = choose|i: int|
                    0 <= i < self.requested_components@.len() && eq_ignore_ascii_case(
                        #[trigger] self.requested_components@[i]@,
                        component@,
                    );
                assert(v[i] == self.requested_components@[i]@);
            }
            if names_include(v, component@) {
                let i = choose|i: int| 0 <= i < v.len() && eq_ignore_ascii_case(#[trigger] v[i], component@);
                assert(v[i] == self.requested_components@[i]@);
            }
        }
        b
    }

    /// How many components were asked for.
    pub fn component_count(&self) -> (r: usize)
        ensures
            r == self.requested_components@.len(),
    {
        self.requested_components.len()
    }

    /// "Queried <n> components in <t>ms: <names joined by comma>".
    pub fn query_summary(&self) -> (r: String)
        ensures
            r@ == "Queried "@ + decimal(self.requested_components@.len() as nat) + " components in "@
                + decimal(self.query_time_ms as nat) + "ms: "@ + join(
                string_views(self.requested_components@),
                ", "@,
            ),
    {
        query_summary_text(self.requested_components.as_slice(), self.query_time_ms)
    }
}

} // verus!
