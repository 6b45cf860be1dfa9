//! The decisions of the websocket server: who may connect, what a subscribe message
//! asks for, and which metrics are due on each tick of the poll loop.
use vstd::prelude::*;
use crate::hardware::{catalog_index, find_metric, quantum_ceil, round_to_quantum, MAX_ROUNDABLE_MS};
use crate::protocol::{CatalogMetric, ErrorMessage, MetricDataType, SubscribeEntry};
use crate::text::{owned, push_str, str_eq};

verus! {

// ---------------------------------------------------------------------------
// Authorization
// ---------------------------------------------------------------------------

/// The query string of a WebSocket upgrade request.
#[derive(Debug, Clone)]
pub struct AuthQuery {
    pub token: Option<String>,
}

/// A client may open a session when the token in its query equals the configured one.
pub fn is_authorized(expected: &str, token: Option<&str>) -> (r: bool)
    ensures
        r == (token matches Some(t) && t@ == expected@),
{
    match token {
        Some(t) => str_eq(t, expected),
        None => false,
    }
}

/// What a client that opens a session is told first: nothing when its token is the
/// configured one, else an "unauthorized" error, after which the session closes.
pub fn admission(expected: &str, token: Option<&str>) -> (r: Option<ErrorMessage>)
    ensures
        (token matches Some(t) && t@ == expected@) ==> r is None,
        !(token matches Some(t) && t@ == expected@) ==> (r matches Some(m) && m.msg_type@
            == "error"@ && m.message@ == "unauthorized"@),
{
    if is_authorized(expected, token) {
        None
    } else {
        Some(ErrorMessage::new(owned("unauthorized")))
    }
}

/// The error sent back for a message that is not a well-formed subscribe message, with
/// the parser's explanation.
pub fn invalid_subscribe_notice(detail: &str) -> (r: ErrorMessage)
    ensures
        r.msg_type@ == "error"@,
        r.message@ == "invalid subscribe message: "@ + detail@,
{
    let mut m = owned("invalid subscribe message: ");
    push_str(&mut m, detail);
    ErrorMessage::new(m)
}

// ---------------------------------------------------------------------------
// Subscriptions
// ---------------------------------------------------------------------------

/// A live subscription: the metric is sampled every `rate` milliseconds, in `unit`.
#[derive(Debug, Clone)]
pub struct Subscription {
    pub rate: u64,
    pub unit: String,
    pub data_type: MetricDataType,
}

impl View for Subscription {
    type V = (u64, Seq<char>, MetricDataType);

    open spec fn view(&self) -> (u64, Seq<char>, MetricDataType) {
        (self.rate, self.unit@, self.data_type)
    }
}

/// A request for one sample of a metric, in a unit.
#[derive(Debug, Clone)]
pub struct SampleRequest {
    pub id: String,
    pub unit: String,
    pub data_type: MetricDataType,
}

impl View for SampleRequest {
    type V = (Seq<char>, Seq<char>, MetricDataType);

    open spec fn view(&self) -> (Seq<char>, Seq<char>, MetricDataType) {
        (self.id@, self.unit@, self.data_type)
    }
}

/// What the server makes of one entry of a subscribe message.
pub enum EntryCheck {
    /// The catalog has no metric with this id.
    UnknownMetric,
    /// The requested unit is not one of the metric's units.
    InvalidUnit(Seq<char>),
    /// A refresh rate was given for a static metric.
    StaticWithRate,
    /// A static metric: sampled once, in this unit.
    Static(Seq<char>, MetricDataType),
    /// A live metric: sampled at this rate, in this unit.
    Live(u64, Seq<char>, MetricDataType),
}

/// The unit listed among `units`.
pub open spec fn unit_listed(units: Seq<Seq<char>>, u: Seq<char>) -> bool {
    exists|i: int| 0 <= i < units.len() && units[i] == u
}

pub open spec fn entry_check(
    catalog: Seq<CatalogMetric>,
    default_rate: u64,
    e: SubscribeEntry,
) -> EntryCheck {
    let i = find_metric(catalog, e.id@);
    if i < 0 {
        EntryCheck::UnknownMetric
    } else {
        let m = catalog[i]@;
        if e.unit is Some && !unit_listed(m.available_units, e.unit->0@) {
            EntryCheck::InvalidUnit(e.unit->0@)
        } else {
            let unit = if e.unit is Some {
                e.unit->0@
            } else {
                m.default_unit
            };
            if m.is_static {
                if e.refresh_rate_ms is Some {
                    EntryCheck::StaticWithRate
                } else {
                    EntryCheck::Static(unit, m.data_type)
                }
            } else {
                let requested = if e.refresh_rate_ms is Some {
                    e.refresh_rate_ms->0
                } else {
                    default_rate
                };
                EntryCheck::Live(quantum_ceil(requested as nat) as u64, unit, m.data_type)
            }
        }
    }
}

/// The rate that an entry asks for, when it is one that gets rounded to the quantum.
pub open spec fn live_rate_request(
    catalog: Seq<CatalogMetric>,
    default_rate: u64,
    e: SubscribeEntry,
) -> Option<u64> {
    let i = find_metric(catalog, e.id@);
    if i < 0 {
        None
    } else {
        let m = catalog[i]@;
        if e.unit is Some && !unit_listed(m.available_units, e.unit->0@) {
            None
        } else if m.is_static {
            None
        } else if e.refresh_rate_ms is Some {
            Some(e.refresh_rate_ms->0)
        } else {
            Some(default_rate)
        }
    }
}

/// Every rate that the entries have rounded fits the rounding's range.
pub open spec fn rates_roundable(
    catalog: Seq<CatalogMetric>,
    default_rate: u64,
    entries: Seq<SubscribeEntry>,
) -> bool {
    forall|i: int|
        0 <= i < entries.len() ==> match live_rate_request(catalog, default_rate, #[trigger] entries[i]) {
            Some(r) => r <= MAX_ROUNDABLE_MS,
            None => true,
        }
}

/// The error text for an entry, if the entry is an error.
pub open spec fn entry_error(e: SubscribeEntry, c: EntryCheck) -> Option<Seq<char>> {
    match c {
        EntryCheck::UnknownMetric => Some("unknown metric `"@ + e.id@ + "`"@),
        EntryCheck::InvalidUnit(u) => Some(
            "unit `"@ + u + "` is not valid for metric `"@ + e.id@ + "`"@,
        ),
        EntryCheck::StaticWithRate => Some(
            "metric `"@ + e.id@ + "` is static; refresh_rate_ms is not allowed"@,
        ),
        _ => None,
    }
}

/// The error texts of a subscribe message's entries, in order.
pub open spec fn plan_errors(
    catalog: Seq<CatalogMetric>,
    default_rate: u64,
    entries: Seq<SubscribeEntry>,
) -> Seq<Seq<char>>
    decreases entries.len(),
{
    if entries.len() == 0 {
        seq![]
    } else {
        let rest = plan_errors(catalog, default_rate, entries.drop_last());
        let e = entries.last();
        match entry_error(e, entry_check(catalog, default_rate, e)) {
            Some(t) => rest.push(t),
            None => rest,
        }
    }
}

/// The position of key `k` in a table of keyed entries, or -1.
pub open spec fn key_index<V>(t: Seq<(Seq<char>, V)>, k: Seq<char>) -> int
    decreases t.len(),
{
    if t.len() == 0 {
        -1
    } else if t.last().0 == k {
        t.len() - 1
    } else {
        key_index(t.drop_last(), k)
    }
}

/// `t` with the value of key `k` set to `v`: replaced in place, or appended.
pub open spec fn upsert<V>(t: Seq<(Seq<char>, V)>, k: Seq<char>, v: V) -> Seq<(Seq<char>, V)> {
    let i = key_index(t, k);
    if i < 0 {
        t.push((k, v))
    } else {
        t.update(i, (k, v))
    }
}

/// The live subscriptions a subscribe message sets up, keyed by metric id; a later
/// entry for the same id replaces an earlier one.
pub open spec fn plan_table(
    catalog: Seq<CatalogMetric>,
    default_rate: u64,
    entries: Seq<SubscribeEntry>,
) -> Seq<(Seq<char>, (u64, Seq<char>, MetricDataType))>
    decreases entries.len(),
{
    if entries.len() == 0 {
        seq![]
    } else {
        let rest = plan_table(catalog, default_rate, entries.drop_last());
        let e = entries.last();
        match entry_check(catalog, default_rate, e) {
            EntryCheck::Live(rate, unit, dt) => upsert(rest, e.id@, (rate, unit, dt)),
            _ => rest,
        }
    }
}

/// The static metrics a subscribe message asks for, in order.
pub open spec fn plan_statics(
    catalog: Seq<CatalogMetric>,
    default_rate: u64,
    entries: Seq<SubscribeEntry>,
) -> Seq<(Seq<char>, Seq<char>, MetricDataType)>
    decreases entries.len(),
{
    if entries.len() == 0 {
        seq![]
    } else {
        let rest = plan_statics(catalog, default_rate, entries.drop_last());
        let e = entries.last();
        match entry_check(catalog, default_rate, e) {
            EntryCheck::Static(unit, dt) => rest.push((e.id@, unit, dt)),
            _ => rest,
        }
    }
}

/// The message that closes the errors of a rejected subscribe.
pub open spec fn rejection_notice() -> Seq<char> {
    "subscribe rejected due to previous error(s)"@
}

/// No two entries of a subscription table are for the same metric.
pub open spec fn keys_distinct(t: Seq<(String, Subscription)>) -> bool {
    forall|j1: int, j2: int| 0 <= j1 < j2 < t.len() ==> (#[trigger] t[j1]).0@ != (#[trigger] t[j2]).0@
}

/// Whether no two entries of a subscription table are for the same metric.
pub fn subscription_keys_distinct(t: &[(String, Subscription)]) -> (r: bool)
    ensures
        r == keys_distinct(t@),
{
    let n = t.len();
    let mut i: usize = 0;
    while i < n
        invariant
            i <= n,
            n == t@.len(),
            forall|j1: int, j2: int| 0 <= j1 < i && j1 < j2 < n ==> (#[trigger] t@[j1]).0@ != (
            #[trigger] t@[j2]).0@,
        decreases n - i,
    {
        let mut j: usize = i + 1;
        while j < n
            invariant
                i < n,
                i + 1 <= j <= n,
                n == t@.len(),
                forall|j1: int, j2: int| 0 <= j1 < i && j1 < j2 < n ==> (#[trigger] t@[j1]).0@ != (
                #[trigger] t@[j2]).0@,
                forall|j2: int| i < j2 < j ==> t@[i as int].0@ != (#[trigger] t@[j2]).0@,
            decreases n - j,
        {
            if str_eq(t[i].0.as_str(), t[j].0.as_str()) {
                return false;
            }
            j += 1;
        }
        i += 1;
    }
    true
}

/// What a subscribe message comes to.
pub enum SubscribeOutcome {
    /// Some entry was in error: these messages go back to the client, one error each,
    /// and the subscriptions stay as they were.
    Rejected(Vec<String>),
    /// The live subscriptions that replace the current ones, and the static metrics to
    /// sample once now.
    Accepted { table: Vec<(String, Subscription)>, static_requests: Vec<SampleRequest> },
}

pub open spec fn table_views(t: Seq<(String, Subscription)>) -> Seq<
    (Seq<char>, (u64, Seq<char>, MetricDataType)),
> {
    t.map_values(|p: (String, Subscription)| (p.0@, p.1@))
}

pub open spec fn request_views(r: Seq<SampleRequest>) -> Seq<(Seq<char>, Seq<char>, MetricDataType)> {
    r.map_values(|x: SampleRequest| x@)
}

pub open spec fn string_seq_views(v: Seq<String>) -> Seq<Seq<char>> {
    v.map_values(|s: String| s@)
}

fn unit_in(units: &[String], u: &str) -> (r: bool)
    ensures
        r == unit_listed(string_seq_views(units@), u@),
{
    let n = units.len();
    let mut i: usize = 0;
    while i < n
        invariant
            i <= n,
            n == units@.len(),
            forall|k: int| 0 <= k < i ==> units@[k]@ != u@,
        decreases n - i,
    {
        if str_eq(units[i].as_str(), u) {
            proof {
                assert(string_seq_views(units@)[i as int] == u@);
            }
            return true;
        }
        i += 1;
    }
    proof {
        if unit_listed(string_seq_views(units@), u@) {
            let k = choose|k: int|
                0 <= k < units@.len() && string_seq_views(units@)[k] == u@;
            assert(units@[k]@ == u@);
        }
    }
    false
}

fn find_key(t: &[(String, Subscription)], k: &str) -> (r: Option<usize>)
    ensures
        match r {
            Some(i) => i < t@.len() && key_index(table_views(t@), k@) == i as int,
            None => key_index(table_views(t@), k@) == -1,
        },
{
    let mut i = t.len();
    proof {
        assert(table_views(t@).take(i as int) =~= table_views(t@));
    }
    while i > 0
        invariant
            i <= t@.len(),
            key_index(table_views(t@), k@) == key_index(table_views(t@).take(i as int), k@),
        decreases i,
    {
        proof {
            assert(table_views(t@).take(i as int).drop_last() =~= table_views(t@).take(i - 1));
        }
        if str_eq(t[i - 1].0.as_str(), k) {
            return Some(i - 1);
        }
        i -= 1;
    }
    None
}

fn check_message(id: &str, unit: Option<&str>, kind: u8) -> (r: String)
    requires
        kind < 3,
        kind == 1 ==> unit is Some,
    ensures
        kind == 0 ==> r@ == "unknown metric `"@ + id@ + "`"@,
        kind == 1 ==> r@ == "unit `"@ + unit->0@ + "` is not valid for metric `"@ + id@ + "`"@,
        kind == 2 ==> r@ == "metric `"@ + id@ + "` is static; refresh_rate_ms is not allowed"@,
{
    let mut s = String::new();
    if kind == 0 {
        push_str(&mut s, "unknown metric `");
        push_str(&mut s, id);
        push_str(&mut s, "`");
    } else if kind == 1 {
        push_str(&mut s, "unit `");
        match unit {
            Some(u) => push_str(&mut s, u),
            None => {},
        }
        push_str(&mut s, "` is not valid for metric `");
        push_str(&mut s, id);
        push_str(&mut s, "`");
    } else {
        push_str(&mut s, "metric `");
        push_str(&mut s, id);
        push_str(&mut s, "` is static; refresh_rate_ms is not allowed");
    }
    proof {
        assert(Seq::<char>::empty() + "unknown metric `"@ =~= "unknown metric `"@);
        assert(Seq::<char>::empty() + "unit `"@ =~= "unit `"@);
        assert(Seq::<char>::empty() + "metric `"@ =~= "metric `"@);
    }
    s
}

/// Checks a subscribe message against the catalog, as the server does entry by entry.
///
/// An entry is in error when the catalog has no metric with its id, when it names a
/// unit that the metric does not offer, or when it gives a refresh rate for a static
/// metric. If any entry is in error the message is rejected: the client gets one error
/// per such entry, in order, then the rejection notice. Otherwise each static metric is
/// to be sampled once, and each live metric is subscribed at its requested rate (or
/// `default_rate`) rounded up to the poll quantum, in its requested unit (or its
/// default unit).
pub fn plan_subscription(
    catalog: &[CatalogMetric],
    default_rate: u64,
    entries: &[SubscribeEntry],
) -> (r: SubscribeOutcome)
    requires
        rates_roundable(catalog@, default_rate, entries@),
    ensures
        (r is Rejected) == (plan_errors(catalog@, default_rate, entries@).len() > 0),
        r matches SubscribeOutcome::Rejected(msgs) ==> string_seq_views(msgs@) == plan_errors(
            catalog@,
            default_rate,
            entries@,
        ).push(rejection_notice()),
        r matches SubscribeOutcome::Accepted { table, static_requests } ==> {
            &&& table_views(table@) == plan_table(catalog@, default_rate, entries@)
            &&& keys_distinct(table@)
            &&& request_views(static_requests@) == plan_statics(catalog@, default_rate, entries@)
        },
{
    let n = entries.len();
    let mut errors: Vec<String> = Vec::new();
    let mut table: Vec<(String, Subscription)> = Vec::new();
    let mut statics: Vec<SampleRequest> = Vec::new();
    let mut i: usize = 0;
    proof {
        assert(entries@.take(0) =~= Seq::<SubscribeEntry>::empty());
        assert(string_seq_views(errors@) =~= Seq::<Seq<char>>::empty());
        assert(table_views(table@) =~= Seq::<(Seq<char>, (u64, Seq<char>, MetricDataType))>::empty());
        assert(request_views(statics@) =~= Seq::<(Seq<char>, Seq<char>, MetricDataType)>::empty());
    }
    while i < n
        invariant
            i <= n,
            n == entries@.len(),
            rates_roundable(catalog@, default_rate, entries@),
            string_seq_views(errors@) == plan_errors(
                catalog@,
                default_rate,
                entries@.take(i as int),
            ),
            table_views(table@) == plan_table(catalog@, default_rate, entries@.take(i as int)),
            request_views(statics@) == plan_statics(
                catalog@,
                default_rate,
                entries@.take(i as int),
            ),
        decreases n - i,
    {
        let e = &entries[i];
        let ghost pre = entries@.take(i as int);
        let ghost ev_errors = errors@;
        let ghost ev_table = table@;
        let ghost ev_statics = statics@;
        proof {
            assert(entries@.take(i + 1).drop_last() =~= pre);
            assert(entries@.take(i + 1).last() == *e);
        }
        let ghost check = entry_check(catalog@, default_rate, *e);
        match catalog_index(catalog, e.id.as_str()) {
            None => {
                errors.push(check_message(e.id.as_str(), None, 0));
                proof {
                    assert(string_seq_views(errors@) =~= string_seq_views(ev_errors).push(
                        "unknown metric `"@ + e.id@ + "`"@,
                    ));
                }
            },
            Some(mi) => {
                let metric = &catalog[mi];
                let unit_ok = match &e.unit {
                    Some(u) => unit_in(metric.available_units.as_slice(), u.as_str()),
                    None => true,
                };
                if !unit_ok {
                    let u = match &e.unit {
                        Some(u) => u.as_str(),
                        None => "",
                    };
                    errors.push(check_message(e.id.as_str(), Some(u), 1));
                    proof {
                        assert(string_seq_views(errors@) =~= string_seq_views(ev_errors).push(
                            "unit `"@ + e.unit->0@ + "` is not valid for metric `"@ + e.id@
                                + "`"@,
                        ));
                    }
                } else {
                    let unit = match &e.unit {
                        Some(u) => owned(u.as_str()),
                        None => owned(metric.default_unit.as_str()),
                    };
                    if metric.is_static {
                        if e.refresh_rate_ms.is_some() {
                            errors.push(check_message(e.id.as_str(), None, 2));
                            proof {
                                assert(string_seq_views(errors@) =~= string_seq_views(
                                    ev_errors,
                                ).push(
                                    "metric `"@ + e.id@
                                        + "` is static; refresh_rate_ms is not allowed"@,
                                ));
                            }
                        } else {
                            statics.push(
                                SampleRequest {
                                    id: owned(e.id.as_str()),
                                    unit,
                                    data_type: metric.data_type,
                                },
                            );
                            proof {
                                assert(request_views(statics@) =~= request_views(
                                    ev_statics,
                                ).push((e.id@, check->Static_0, check->Static_1)));
                            }
                        }
                    } else {
                        let requested = match e.refresh_rate_ms {
                            Some(rr) => rr,
                            None => default_rate,
                        };
                        proof {
                            assert(live_rate_request(catalog@, default_rate, entries@[i as int])
                                == Some(requested));
                        }
                        let rate = round_to_quantum(requested);
                        let sub = Subscription { rate, unit, data_type: metric.data_type };
                        match find_key(table.as_slice(), e.id.as_str()) {
                            Some(k) => {
                                table.set(k, (owned(e.id.as_str()), sub));
                                proof {
                                    assert(table_views(table@) =~= table_views(ev_table).update(
                                        k as int,
                                        (e.id@, (rate, check->Live_1, check->Live_2)),
                                    ));
                                }
                            },
                            None => {
                                table.push((owned(e.id.as_str()), sub));
                                proof {
                                    assert(table_views(table@) =~= table_views(ev_table).push(
                                        (e.id@, (rate, check->Live_1, check->Live_2)),
                                    ));
                                }
                            },
                        }
                    }
                }
            },
        }
        i += 1;
    }
    proof {
        assert(entries@.take(n as int) =~= entries@);
        law_subscriptions_allowed_and_distinct(catalog@, default_rate, entries@);
        let pt = plan_table(catalog@, default_rate, entries@);
        assert forall|j1: int, j2: int| 0 <= j1 < j2 < table@.len() implies (#[trigger] table@[j1]).0@
            != (#[trigger] table@[j2]).0@ by {
            assert(table_views(table@)[j1] == pt[j1]);
            assert(table_views(table@)[j2] == pt[j2]);
        }
    }
    if errors.len() > 0 {
        errors.push(owned("subscribe rejected due to previous error(s)"));
        SubscribeOutcome::Rejected(errors)
    } else {
        SubscribeOutcome::Accepted { table, static_requests: statics }
    }
}


/// Whether every rate that the entries would have rounded is in the rounding's range,
/// the condition under which `plan_subscription` may be called.
pub fn subscription_rates_roundable(
    catalog: &[CatalogMetric],
    default_rate: u64,
    entries: &[SubscribeEntry],
) -> (r: bool)
    ensures
        r == rates_roundable(catalog@, default_rate, entries@),
{
    let n = entries.len();
    let mut i: usize = 0;
    while i < n
        invariant
            i <= n,
            n == entries@.len(),
            forall|k: int|
                0 <= k < i ==> match live_rate_request(catalog@, default_rate, #[trigger] entries@[k]) {
                    Some(r) => r <= MAX_ROUNDABLE_MS,
                    None => true,
                },
        decreases n - i,
    {
        let e = &entries[i];
        match catalog_index(catalog, e.id.as_str()) {
            None => {},
            Some(mi) => {
                let metric = &catalog[mi];
                let unit_ok = match &e.unit {
                    Some(u) => unit_in(metric.available_units.as_slice(), u.as_str()),
                    None => true,
                };
                if unit_ok && !metric.is_static {
                    let requested = match e.refresh_rate_ms {
                        Some(rr) => rr,
                        None => default_rate,
                    };
                    if requested > MAX_ROUNDABLE_MS {
                        return false;
                    }
                }
            },
        }
        i += 1;
    }
    true
}

// ---------------------------------------------------------------------------
// Laws of subscribing
// ---------------------------------------------------------------------------

/// The entry is one the server answers with an error.
pub open spec fn is_error_check(c: EntryCheck) -> bool {
    c is UnknownMetric || c is InvalidUnit || c is StaticWithRate
}

/// A subscribe message is rejected exactly when one of its entries is in error, and
/// then the client gets one error per such entry.
pub proof fn law_rejected_iff_some_entry_in_error(
    catalog: Seq<CatalogMetric>,
    default_rate: u64,
    entries: Seq<SubscribeEntry>,
)
    ensures
        (plan_errors(catalog, default_rate, entries).len() > 0) == (exists|i: int|
            0 <= i < entries.len() && is_error_check(
                entry_check(catalog, default_rate, #[trigger] entries[i]),
            )),
    decreases entries.len(),
{
    if entries.len() > 0 {
        let pre = entries.drop_last();
        law_rejected_iff_some_entry_in_error(catalog, default_rate, pre);
        if exists|i: int|
            0 <= i < pre.len() && is_error_check(entry_check(catalog, default_rate, #[trigger] pre[i])) {
            let i = choose|i: int|
                0 <= i < pre.len() && is_error_check(
                    entry_check(catalog, default_rate, #[trigger] pre[i]),
                );
            assert(entries[i] == pre[i]);
        }
        if exists|i: int|
            0 <= i < entries.len() && is_error_check(
                entry_check(catalog, default_rate, #[trigger] entries[i]),
            ) {
            let i = choose|i: int|
                0 <= i < entries.len() && is_error_check(
                    entry_check(catalog, default_rate, #[trigger] entries[i]),
                );
            if i < pre.len() {
                assert(entries[i] == pre[i]);
            }
        }
    }
}

/// The live subscription `(id, (rate, unit, type))` is one the catalog allows: the id
/// names a metric that is not static, the rate is a positive multiple of the poll
/// quantum, the unit is one of the metric's units or its default unit, and the type is
/// the metric's.
pub open spec fn allowed_subscription(
    catalog: Seq<CatalogMetric>,
    entry: (Seq<char>, (u64, Seq<char>, MetricDataType)),
) -> bool {
    let i = find_metric(catalog, entry.0);
    let (rate, unit, dt) = entry.1;
    &&& 0 <= i < catalog.len()
    &&& !catalog[i]@.is_static
    &&& rate % 50 == 0
    &&& rate >= 50
    &&& (unit_listed(catalog[i]@.available_units, unit) || unit == catalog[i]@.default_unit)
    &&& dt == catalog[i]@.data_type
}

pub proof fn lemma_find_metric_bound(c: Seq<CatalogMetric>, id: Seq<char>)
    ensures
        -1 <= find_metric(c, id) < c.len(),
        find_metric(c, id) >= 0 ==> c[find_metric(c, id)].id@ == id,
    decreases c.len(),
{
    if c.len() > 0 && c[0].id@ != id {
        lemma_find_metric_bound(c.drop_first(), id);
    }
}

pub proof fn lemma_key_index<V>(t: Seq<(Seq<char>, V)>, k: Seq<char>)
    ensures
        -1 <= key_index(t, k) < t.len(),
        key_index(t, k) >= 0 ==> t[key_index(t, k)].0 == k,
        key_index(t, k) < 0 ==> forall|j: int| 0 <= j < t.len() ==> t[j].0 != k,
    decreases t.len(),
{
    if t.len() > 0 && t.last().0 != k {
        lemma_key_index(t.drop_last(), k);
        assert forall|j: int| 0 <= j < t.len() - 1 implies t[j] == t.drop_last()[j] by {}
    }
}

/// A static metric request names a static metric of the catalog, in one of its units (or
/// its default unit), with its data type.
pub open spec fn allowed_static(
    catalog: Seq<CatalogMetric>,
    entry: (Seq<char>, Seq<char>, MetricDataType),
) -> bool {
    let i = find_metric(catalog, entry.0);
    let (id, unit, dt) = entry;
    &&& 0 <= i < catalog.len()
    &&& catalog[i]@.is_static
    &&& (unit_listed(catalog[i]@.available_units, unit) || unit == catalog[i]@.default_unit)
    &&& dt == catalog[i]@.data_type
}

/// The metrics a subscribe message has sampled once are all static metrics of the
/// catalog, each in an allowed unit: a live metric is never answered only once.
pub proof fn law_static_requests_are_static(
    catalog: Seq<CatalogMetric>,
    default_rate: u64,
    entries: Seq<SubscribeEntry>,
)
    ensures
        forall|j: int|
            0 <= j < plan_statics(catalog, default_rate, entries).len() ==> allowed_static(
                catalog,
                #[trigger] plan_statics(catalog, default_rate, entries)[j],
            ),
    decreases entries.len(),
{
    if entries.len() > 0 {
        let pre = entries.drop_last();
        law_static_requests_are_static(catalog, default_rate, pre);
        let rest = plan_statics(catalog, default_rate, pre);
        let e = entries.last();
        let t = plan_statics(catalog, default_rate, entries);
        lemma_find_metric_bound(catalog, e.id@);
        match entry_check(catalog, default_rate, e) {
            EntryCheck::Static(unit, dt) => {
                assert forall|j: int| 0 <= j < t.len() implies allowed_static(
                    catalog,
                    #[trigger] t[j],
                ) by {
                    if j < rest.len() {
                        assert(t[j] == rest[j]);
                    }
                }
            },
            _ => {},
        }
    }
}

/// The last live request for metric `id` among the entries, with its rate, unit and
/// data type.
pub open spec fn last_live(
    catalog: Seq<CatalogMetric>,
    default_rate: u64,
    entries: Seq<SubscribeEntry>,
    id: Seq<char>,
) -> Option<(u64, Seq<char>, MetricDataType)>
    decreases entries.len(),
{
    if entries.len() == 0 {
        None
    } else {
        let e = entries.last();
        match entry_check(catalog, default_rate, e) {
            EntryCheck::Live(rate, unit, dt) => if e.id@ == id {
                Some((rate, unit, dt))
            } else {
                last_live(catalog, default_rate, entries.drop_last(), id)
            },
            _ => last_live(catalog, default_rate, entries.drop_last(), id),
        }
    }
}

proof fn lemma_same_keys<V>(t1: Seq<(Seq<char>, V)>, t2: Seq<(Seq<char>, V)>, id: Seq<char>)
    requires
        t1.len() == t2.len(),
        forall|j: int| 0 <= j < t1.len() ==> (#[trigger] t1[j]).0 == t2[j].0,
    ensures
        key_index(t1, id) == key_index(t2, id),
    decreases t1.len(),
{
    if t1.len() > 0 {
        let a = t1.drop_last();
        let b = t2.drop_last();
        assert forall|j: int| 0 <= j < a.len() implies (#[trigger] a[j]).0 == b[j].0 by {
            assert(a[j] == t1[j]);
            assert(b[j] == t2[j]);
        }
        lemma_same_keys(a, b, id);
    }
}

proof fn lemma_upsert_lookup<V>(t: Seq<(Seq<char>, V)>, k: Seq<char>, v: V, id: Seq<char>)
    ensures
        upsert(t, k, v).len() >= t.len(),
        id == k ==> {
            let u = upsert(t, k, v);
            &&& 0 <= key_index(u, id) < u.len()
            &&& u[key_index(u, id)].1 == v
        },
        id != k ==> {
            let u = upsert(t, k, v);
            &&& key_index(u, id) == key_index(t, id)
            &&& key_index(t, id) >= 0 ==> u[key_index(u, id)] == t[key_index(t, id)]
        },
{
    lemma_key_index(t, k);
    lemma_key_index(t, id);
    let i = key_index(t, k);
    let u = upsert(t, k, v);
    if i < 0 {
        assert(u.drop_last() =~= t);
    } else {
        assert forall|j: int| 0 <= j < u.len() implies (#[trigger] u[j]).0 == t[j].0 by {}
        lemma_same_keys(u, t, id);
        lemma_same_keys(u, t, k);
    }
}

/// A subscribe message that is accepted subscribes each metric at its last live request:
/// a metric is in the table exactly when some entry asks for it live, and then with the
/// rate, unit and data type of the last such entry.
pub proof fn law_last_request_wins(
    catalog: Seq<CatalogMetric>,
    default_rate: u64,
    entries: Seq<SubscribeEntry>,
    id: Seq<char>,
)
    ensures
        ({
            let t = plan_table(catalog, default_rate, entries);
            match last_live(catalog, default_rate, entries, id) {
                Some(p) => 0 <= key_index(t, id) < t.len() && t[key_index(t, id)].1 == p,
                None => key_index(t, id) < 0,
            }
        }),
    decreases entries.len(),
{
    if entries.len() > 0 {
        let pre = entries.drop_last();
        law_last_request_wins(catalog, default_rate, pre, id);
        let rest = plan_table(catalog, default_rate, pre);
        let e = entries.last();
        lemma_key_index(rest, id);
        let t = plan_table(catalog, default_rate, entries);
        match entry_check(catalog, default_rate, e) {
            EntryCheck::Live(rate, unit, dt) => {
                assert(t == upsert(rest, e.id@, (rate, unit, dt)));
                lemma_upsert_lookup(rest, e.id@, (rate, unit, dt), id);
                if e.id@ == id {
                    assert(last_live(catalog, default_rate, entries, id) == Some((rate, unit, dt)));
                } else {
                    assert(last_live(catalog, default_rate, entries, id) == last_live(
                        catalog,
                        default_rate,
                        pre,
                        id,
                    ));
                }
            },
            _ => {
                assert(t == rest);
                assert(last_live(catalog, default_rate, entries, id) == last_live(
                    catalog,
                    default_rate,
                    pre,
                    id,
                ));
            },
        }
    }
}

/// When the entry at `k` is the last for its metric, the last live request for that
/// metric is the one this entry makes.
proof fn lemma_last_entry_is_last_live(
    catalog: Seq<CatalogMetric>,
    default_rate: u64,
    entries: Seq<SubscribeEntry>,
    k: int,
)
    requires
        0 <= k < entries.len(),
        forall|j: int| k < j < entries.len() ==> (#[trigger] entries[j]).id@ != entries[k].id@,
        entry_check(catalog, default_rate, entries[k]) is Live,
    ensures
        last_live(catalog, default_rate, entries, entries[k].id@) == Some(
            (
                entry_check(catalog, default_rate, entries[k])->Live_0,
                entry_check(catalog, default_rate, entries[k])->Live_1,
                entry_check(catalog, default_rate, entries[k])->Live_2,
            ),
        ),
    decreases entries.len(),
{
    if k < entries.len() - 1 {
        let pre = entries.drop_last();
        assert forall|j: int| k < j < pre.len() implies (#[trigger] pre[j]).id@ != pre[k].id@ by {
            assert(pre[j] == entries[j]);
        }
        assert(pre[k] == entries[k]);
        lemma_last_entry_is_last_live(catalog, default_rate, pre, k);
        assert(entries.last().id@ != entries[k].id@);
    }
}

/// The last entry of an accepted subscribe message for a live metric decides that
/// metric's subscription: it is kept in the unit the entry names, and in the metric's
/// default unit only when the entry names none; its rate is the entry's rate (or the
/// default rate) rounded up to the least multiple of the 50 ms quantum, and at least one
/// quantum; its data type is the metric's.
pub proof fn law_live_subscription_follows_last_entry(
    catalog: Seq<CatalogMetric>,
    default_rate: u64,
    entries: Seq<SubscribeEntry>,
    k: int,
)
    requires
        0 <= k < entries.len(),
        forall|j: int| k < j < entries.len() ==> (#[trigger] entries[j]).id@ != entries[k].id@,
        0 <= find_metric(catalog, entries[k].id@),
        !catalog[find_metric(catalog, entries[k].id@)]@.is_static,
        entries[k].unit matches Some(u) ==> unit_listed(
            catalog[find_metric(catalog, entries[k].id@)]@.available_units,
            u@,
        ),
        (match entries[k].refresh_rate_ms {
            Some(r) => r,
            None => default_rate,
        }) <= MAX_ROUNDABLE_MS,
    ensures
        ({
            let t = plan_table(catalog, default_rate, entries);
            let ki = key_index(t, entries[k].id@);
            let m = catalog[find_metric(catalog, entries[k].id@)]@;
            let requested = match entries[k].refresh_rate_ms {
                Some(r) => r,
                None => default_rate,
            };
            let (rate, unit, dt) = t[ki].1;
            &&& 0 <= ki < t.len()
            &&& unit == (match entries[k].unit {
                Some(u) => u@,
                None => m.default_unit,
            })
            &&& dt == m.data_type
            &&& rate % 50 == 0
            &&& rate >= requested
            &&& rate >= 50
            &&& (rate == 50 || rate < requested + 50)
        }),
{
    let e = entries[k];
    let id = e.id@;
    let i = find_metric(catalog, id);
    lemma_find_metric_bound(catalog, id);
    let requested = match e.refresh_rate_ms {
        Some(r) => r,
        None => default_rate,
    };
    let rq = requested as int;
    let qc = quantum_ceil(requested as nat);
    assert(qc <= 18446744073709551600 && qc % 50 == 0 && qc >= rq && qc >= 50 && (qc == 50 || qc
        < rq + 50)) by (nonlinear_arith)
        requires
            0 <= rq <= 18446744073709551600,
            qc == (if rq == 0 {
                50
            } else if rq % 50 == 0 {
                rq
            } else {
                (rq / 50 + 1) * 50
            }),
    ;
    assert(entry_check(catalog, default_rate, e) == EntryCheck::Live(
        qc as u64,
        match e.unit {
            Some(u) => u@,
            None => catalog[i]@.default_unit,
        },
        catalog[i]@.data_type,
    ));
    lemma_last_entry_is_last_live(catalog, default_rate, entries, k);
    law_last_request_wins(catalog, default_rate, entries, id);
}

/// How the last entry of a subscribe message adds to what the message comes to:
/// - an id the catalog lacks adds the error "unknown metric `id`";
/// - a unit the metric does not offer adds "unit `u` is not valid for metric `id`";
/// - a refresh rate on a static metric adds "metric `id` is static; refresh_rate_ms is
///   not allowed";
/// - a valid request for a static metric adds one sample of it, in the unit it names or
///   else the metric's default unit, with the metric's data type, and no error;
/// - a valid request for a live metric adds no error and no one-shot sample.
pub proof fn law_last_entry_effect(
    catalog: Seq<CatalogMetric>,
    default_rate: u64,
    entries: Seq<SubscribeEntry>,
)
    requires
        entries.len() > 0,
    ensures
        ({
            let pre = entries.drop_last();
            let e = entries.last();
            let i = find_metric(catalog, e.id@);
            let errs = plan_errors(catalog, default_rate, entries);
            let errs0 = plan_errors(catalog, default_rate, pre);
            let st = plan_statics(catalog, default_rate, entries);
            let st0 = plan_statics(catalog, default_rate, pre);
            if i < 0 {
                &&& errs == errs0.push("unknown metric `"@ + e.id@ + "`"@)
                &&& st == st0
            } else if e.unit matches Some(u) && !unit_listed(catalog[i]@.available_units, u@) {
                &&& errs == errs0.push(
                    "unit `"@ + e.unit->0@ + "` is not valid for metric `"@ + e.id@ + "`"@,
                )
                &&& st == st0
            } else if catalog[i]@.is_static && e.refresh_rate_ms is Some {
                &&& errs == errs0.push(
                    "metric `"@ + e.id@ + "` is static; refresh_rate_ms is not allowed"@,
                )
                &&& st == st0
            } else if catalog[i]@.is_static {
                &&& errs == errs0
                &&& st == st0.push(
                    (
                        e.id@,
                        match e.unit {
                            Some(u) => u@,
                            None => catalog[i]@.default_unit,
                        },
                        catalog[i]@.data_type,
                    ),
                )
            } else {
                &&& errs == errs0
                &&& st == st0
            }
        }),
{
    let e = entries.last();
    lemma_find_metric_bound(catalog, e.id@);
}

/// Every live subscription an accepted subscribe message sets up is allowed by the
/// catalog, and no metric is subscribed twice.
pub proof fn law_subscriptions_allowed_and_distinct(
    catalog: Seq<CatalogMetric>,
    default_rate: u64,
    entries: Seq<SubscribeEntry>,
)
    requires
        rates_roundable(catalog, default_rate, entries),
    ensures
        forall|j: int|
            0 <= j < plan_table(catalog, default_rate, entries).len() ==> allowed_subscription(
                catalog,
                #[trigger] plan_table(catalog, default_rate, entries)[j],
            ),
        forall|j1: int, j2: int|
            0 <= j1 < j2 < plan_table(catalog, default_rate, entries).len() ==> (#[trigger] plan_table(
                catalog,
                default_rate,
                entries,
            )[j1]).0 != (#[trigger] plan_table(catalog, default_rate, entries)[j2]).0,
    decreases entries.len(),
{
    if entries.len() > 0 {
        let pre = entries.drop_last();
        assert forall|i: int| 0 <= i < pre.len() implies match live_rate_request(
            catalog,
            default_rate,
            #[trigger] pre[i],
        ) {
            Some(r) => r <= MAX_ROUNDABLE_MS,
            None => true,
        } by {
            assert(pre[i] == entries[i]);
        }
        law_subscriptions_allowed_and_distinct(catalog, default_rate, pre);
        let rest = plan_table(catalog, default_rate, pre);
        let e = entries.last();
        let t = plan_table(catalog, default_rate, entries);
        match entry_check(catalog, default_rate, e) {
            EntryCheck::Live(rate, unit, dt) => {
                lemma_find_metric_bound(catalog, e.id@);
                lemma_key_index(rest, e.id@);
                let i = find_metric(catalog, e.id@);
                let requested = if e.refresh_rate_ms is Some {
                    e.refresh_rate_ms->0
                } else {
                    default_rate
                };
                assert(live_rate_request(catalog, default_rate, entries[entries.len() - 1])
                    == Some(requested));
                crate::hardware::law_quantum_rounding(requested as nat, 0, 0);
                let rq = requested as int;
                assert(rq % 50 != 0 ==> (rq / 50 + 1) * 50 <= 18446744073709551600) by (
                nonlinear_arith)
                    requires
                        0 <= rq <= 18446744073709551600,
                ;
                assert(allowed_subscription(catalog, (e.id@, (rate, unit, dt))));
                assert forall|j: int| 0 <= j < t.len() implies allowed_subscription(
                    catalog,
                    #[trigger] t[j],
                ) by {
                    if j < rest.len() && t[j] == rest[j] {
                    }
                }
                assert forall|j1: int, j2: int| 0 <= j1 < j2 < t.len() implies (#[trigger] t[j1]).0
                    != (#[trigger] t[j2]).0 by {
                    if key_index(rest, e.id@) < 0 {
                        if j2 == rest.len() {
                            assert(rest[j1].0 != e.id@);
                        } else {
                            assert(t[j1] == rest[j1] && t[j2] == rest[j2]);
                        }
                    } else {
                        let ki = key_index(rest, e.id@);
                        if j1 == ki {
                            assert(rest[j2].0 != rest[ki].0);
                        } else if j2 == ki {
                            assert(rest[j1].0 != rest[ki].0);
                        } else {
                            assert(t[j1] == rest[j1] && t[j2] == rest[j2]);
                        }
                    }
                }
            },
            _ => {},
        }
    }
}

// ---------------------------------------------------------------------------
// The poll loop
// ---------------------------------------------------------------------------

/// How many ticks of the poll loop lie between two samples of a metric at `rate`.
pub open spec fn ticks_per_sample(rate: u64, quantum: u64) -> u64 {
    if rate / quantum < 1 {
        1
    } else {
        (rate / quantum) as u64
    }
}

/// A subscription at `rate` is sampled on tick `tick`.
pub open spec fn is_due(rate: u64, quantum: u64, tick: u64, force: bool) -> bool {
    force || tick % ticks_per_sample(rate, quantum) == 0
}

/// The samples due on a tick, in the order of the subscription table.
pub open spec fn due_spec(
    subs: Seq<(String, Subscription)>,
    quantum: u64,
    tick: u64,
    force: bool,
) -> Seq<(Seq<char>, Seq<char>, MetricDataType)>
    decreases subs.len(),
{
    if subs.len() == 0 {
        seq![]
    } else {
        let rest = due_spec(subs.drop_last(), quantum, tick, force);
        let (id, sub) = subs.last();
        if is_due(sub.rate, quantum, tick, force) {
            rest.push((id@, sub.unit@, sub.data_type))
        } else {
            rest
        }
    }
}

/// The poll loop's state: the subscriptions it serves, its tick count, and whether the
/// next tick must sample everything (after the subscriptions changed).
#[derive(Debug)]
pub struct PollState {
    pub quantum: u64,
    pub subs: Vec<(String, Subscription)>,
    pub tick_count: u64,
    pub force_sample: bool,
}

/// The poll loop's tick length: the configured interval, and at least the quantum.
pub open spec fn spec_poll_quantum(poll_interval_ms: u64) -> u64 {
    if poll_interval_ms < 50 {
        50
    } else {
        poll_interval_ms
    }
}

/// `t + 1`, wrapping to 0 after `u64::MAX`.
pub open spec fn next_tick(t: u64) -> u64 {
    if t == u64::MAX {
        0
    } else {
        (t + 1) as u64
    }
}

impl PollState {
    pub open spec fn wf(&self) -> bool {
        &&& self.quantum >= 50
        &&& keys_distinct(self.subs@)
    }

    /// A poll loop with no subscriptions yet.
    pub fn new(poll_interval_ms: u64) -> (r: Self)
        ensures
            r.wf(),
            r.quantum == spec_poll_quantum(poll_interval_ms),
            r.subs@.len() == 0,
            r.tick_count == 0,
            !r.force_sample,
    {
        let quantum = if poll_interval_ms < 50 {
            50
        } else {
            poll_interval_ms
        };
        PollState { quantum, subs: Vec::new(), tick_count: 0, force_sample: false }
    }

    /// The subscriptions changed: serve the new table, and sample all of it on the next tick.
    pub fn on_subscriptions_changed(&mut self, subs: Vec<(String, Subscription)>)
        requires
            old(self).wf(),
            keys_distinct(subs@),
        ensures
            final(self).wf(),
            final(self).subs == subs,
            final(self).force_sample,
            final(self).quantum == old(self).quantum,
            final(self).tick_count == old(self).tick_count,
    {
        self.subs = subs;
        self.force_sample = true;
    }

    /// One tick of the poll loop: the samples now due. With no subscriptions nothing is
    /// due and only the tick count moves on.
    pub fn on_tick(&mut self) -> (r: Vec<SampleRequest>)
        requires
            old(self).wf(),
        ensures
            final(self).wf(),
            final(self).quantum == old(self).quantum,
            final(self).subs == old(self).subs,
            final(self).tick_count == next_tick(old(self).tick_count),
            old(self).subs@.len() == 0 ==> r@.len() == 0 && final(self).force_sample == old(
                self,
            ).force_sample,
            old(self).subs@.len() > 0 ==> {
                &&& request_views(r@) == due_spec(
                    old(self).subs@,
                    old(self).quantum,
                    old(self).tick_count,
                    old(self).force_sample,
                )
                &&& !final(self).force_sample
            },
    {
        if self.subs.len() == 0 {
            self.tick_count = self.tick_count.wrapping_add(1);
            return Vec::new();
        }
        let n = self.subs.len();
        let q = self.quantum;
        let tick = self.tick_count;
        let force = self.force_sample;
        let mut due: Vec<SampleRequest> = Vec::new();
        let mut i: usize = 0;
        proof {
            assert(self.subs@.take(0) =~= Seq::<(String, Subscription)>::empty());
            assert(request_views(due@) =~= Seq::<(Seq<char>, Seq<char>, MetricDataType)>::empty());
        }
        while i < n
            invariant
                i <= n,
                n == self.subs@.len(),
                q >= 50,
                request_views(due@) == due_spec(self.subs@.take(i as int), q, tick, force),
            decreases n - i,
        {
            let (id, sub) = &self.subs[i];
            let per = sub.rate / q;
            let ticks = if per < 1 {
                1
            } else {
                per
            };
            proof {
                assert(self.subs@.take(i + 1).drop_last() =~= self.subs@.take(i as int));
                assert(self.subs@.take(i + 1).last() == self.subs@[i as int]);
            }
            if force || tick % ticks == 0 {
                let ghost before = due@;
                due.push(
                    SampleRequest {
                        id: owned(id.as_str()),
                        unit: owned(sub.unit.as_str()),
                        data_type: sub.data_type,
                    },
                );
                proof {
                    assert(request_views(due@) =~= request_views(before).push(
                        (id@, sub.unit@, sub.data_type),
                    ));
                }
            }
            i += 1;
        }
        proof {
            assert(self.subs@.take(n as int) =~= self.subs@);
        }
        self.force_sample = false;
        self.tick_count = self.tick_count.wrapping_add(1);
        due
    }
}

/// After the subscriptions change, the next tick samples every subscription, in order.
pub proof fn law_forced_tick_samples_everything(
    subs: Seq<(String, Subscription)>,
    quantum: u64,
    tick: u64,
)
    ensures
        due_spec(subs, quantum, tick, true) == subs.map_values(
            |p: (String, Subscription)| (p.0@, p.1.unit@, p.1.data_type),
        ),
    decreases subs.len(),
{
    if subs.len() > 0 {
        law_forced_tick_samples_everything(subs.drop_last(), quantum, tick);
        assert(subs.map_values(|p: (String, Subscription)| (p.0@, p.1.unit@, p.1.data_type))
            =~= subs.drop_last().map_values(
            |p: (String, Subscription)| (p.0@, p.1.unit@, p.1.data_type),
        ).push((subs.last().0@, subs.last().1.unit@, subs.last().1.data_type)));
    } else {
        assert(subs.map_values(|p: (String, Subscription)| (p.0@, p.1.unit@, p.1.data_type))
            =~= Seq::<(Seq<char>, Seq<char>, MetricDataType)>::empty());
    }
}

/// A tick samples only subscribed metrics, each in its subscribed unit, and no more
/// samples than there are subscriptions.
pub proof fn law_due_only_subscribed(
    subs: Seq<(String, Subscription)>,
    quantum: u64,
    tick: u64,
    force: bool,
)
    ensures
        due_spec(subs, quantum, tick, force).len() <= subs.len(),
        forall|i: int|
            0 <= i < due_spec(subs, quantum, tick, force).len() ==> exists|j: int|
                0 <= j < subs.len() && #[trigger] due_spec(subs, quantum, tick, force)[i] == (
                    subs[j].0@,
                    subs[j].1.unit@,
                    subs[j].1.data_type,
                ),
    decreases subs.len(),
{
    if subs.len() > 0 {
        let pre = subs.drop_last();
        law_due_only_subscribed(pre, quantum, tick, force);
        let rest = due_spec(pre, quantum, tick, force);
        let d = due_spec(subs, quantum, tick, force);
        assert forall|i: int| 0 <= i < d.len() implies exists|j: int|
            0 <= j < subs.len() && #[trigger] d[i] == (
                subs[j].0@,
                subs[j].1.unit@,
                subs[j].1.data_type,
            ) by {
            if i < rest.len() {
                assert(d[i] == rest[i]);
                let j = choose|j: int|
                    0 <= j < pre.len() && #[trigger] rest[i] == (
                        pre[j].0@,
                        pre[j].1.unit@,
                        pre[j].1.data_type,
                    );
                assert(pre[j] == subs[j]);
            } else {
                let k = subs.len() - 1;
                assert(d[i] == (subs[k].0@, subs[k].1.unit@, subs[k].1.data_type));
            }
        }
    }
}

/// Outside a forced tick, a subscription whose rate is at least one quantum is sampled
/// exactly on the ticks whose count is a multiple of its rate in whole quanta, however
/// slow it is; one faster than the quantum is sampled on every tick; and every
/// subscription is sampled on a forced tick.
pub proof fn law_due_on_every_multiple(rate: u64, quantum: u64, tick: u64)
    requires
        quantum > 0,
    ensures
        rate >= quantum ==> (is_due(rate, quantum, tick, false) <==> tick % (rate / quantum) == 0),
        rate < quantum ==> is_due(rate, quantum, tick, false),
        is_due(rate, quantum, tick, true),
{
    let k = rate / quantum;
    assert(rate >= quantum ==> k >= 1) by (nonlinear_arith)
        requires
            quantum > 0,
            k == rate / quantum,
    ;
    assert(rate < quantum ==> k == 0) by (nonlinear_arith)
        requires
            quantum > 0,
            k == rate / quantum,
    ;
}

/// A subscription whose rate is `k` quanta is sampled on every `k`-th tick: when it is
/// due on tick `t` it is due again on tick `t + k` and on no tick in between.
pub proof fn law_sampling_period(rate: u64, quantum: u64, tick: u64, d: u64)
    requires
        quantum > 0,
        rate % quantum == 0,
        rate >= quantum,
        is_due(rate, quantum, tick, false),
        tick + rate / quantum <= u64::MAX,
        0 < d <= rate / quantum,
    ensures
        is_due(rate, quantum, (tick + d) as u64, false) == (d == rate / quantum),
{
    let k = rate / quantum;
    assert(k >= 1) by (nonlinear_arith)
        requires
            rate >= quantum,
            quantum > 0,
            k == rate / quantum,
    ;
    assert(ticks_per_sample(rate, quantum) == k);
    let ti = tick as int;
    let di = d as int;
    let ki = k as int;
    assert(((ti + di) % ki == 0) == (di == ki)) by (nonlinear_arith)
        requires
            ti % ki == 0,
            0 < di <= ki,
            ki >= 1,
    ;
}

// ---------------------------------------------------------------------------
// Time stamps
// ---------------------------------------------------------------------------

/// `std::time::SystemTimeError`: the clock read earlier than the time asked about.
#[verifier::external_type_specification]
#[verifier::external_body]
pub struct ExSystemTimeError(std::time::SystemTimeError);

/// The system clock's reading (std `SystemTime::now`). Nothing is stated of it: it is
/// the time.
#[verifier::external_body]
fn system_now() -> std::time::SystemTime {
    std::time::SystemTime::now()
}

/// How long after the Unix epoch a clock reading is, or an error when it is earlier (std
/// `SystemTime::duration_since` with `UNIX_EPOCH`). Nothing is stated: the reading is
/// opaque.
#[verifier::external_body]
fn since_unix_epoch(t: std::time::SystemTime) -> Result<
    std::time::Duration,
    std::time::SystemTimeError,
> {
    t.duration_since(std::time::UNIX_EPOCH)
}

/// The whole milliseconds of a duration (std `Duration::as_millis`). Nothing is stated:
/// the duration is opaque.
#[verifier::external_body]
fn whole_millis(d: std::time::Duration) -> u128 {
    d.as_millis()
}

/// A clock reading as a time stamp: the milliseconds truncated to 64 bits, or 0
/// when the clock could not be read.
pub fn timestamp_from_millis(ms: Option<u128>) -> (r: u64)
    ensures
        r == match ms {
            Some(m) => m as u64,
            None => 0,
        },
{
    match ms {
        Some(m) => #[verifier::truncate] (m as u64),
        None => 0,
    }
}

/// The current time stamp in milliseconds since the Unix epoch (0 if the clock reads
/// earlier than the epoch).
pub fn now_ms() -> u64 {
    let ms = match since_unix_epoch(system_now()) {
        Ok(d) => Some(whole_millis(d)),
        Err(_) => None,
    };
    timestamp_from_millis(ms)
}

} // verus!
