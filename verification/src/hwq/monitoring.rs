//! Monitoring bookkeeping: the kinds of events a monitoring pass raises, the statistics
//! kept over them, and the window of recent update times.
use vstd::prelude::*;
use std::time::{Duration, SystemTime};
use crate::hwq::error::HardwareQueryError;
use crate::hwq::lists::push_window;
use crate::text::owned;

verus! {

/// `std::time::SystemTime`, carried as the time of the last update.
#[verifier::external_type_specification]
#[verifier::external_body]
pub struct ExSystemTime(std::time::SystemTime);

/// Type of hardware configuration change.
#[derive(Debug, Clone, Copy, PartialEq, Eq, Structural)]
pub enum HardwareChangeType {
    DeviceConnected,
    DeviceDisconnected,
    DriverChanged,
    ConfigurationChanged,
    PerformanceStateChanged,
}

/// The kind of a monitoring event.
#[derive(Debug, Clone, Copy, PartialEq, Eq, Structural)]
pub enum MonitoringEventKind {
    ThermalAlert,
    PowerAlert,
    HardwareChanged,
    MonitoringError,
    MetricsUpdate,
}

/// Monitoring statistics.
#[derive(Debug)]
pub struct MonitoringStats {
    /// Total monitoring events generated
    pub total_events: u64,
    pub thermal_alerts: u64,
    pub power_alerts: u64,
    /// Hardware change events
    pub hardware_changes: u64,
    /// Monitoring errors encountered
    pub errors: u64,
    pub uptime: Duration,
    /// Last update timestamp
    pub last_update: SystemTime,
    pub average_update_interval: Duration,
}

/// The number of events of kind `k` in `kinds`.
pub open spec fn count_kind(kinds: Seq<MonitoringEventKind>, k: MonitoringEventKind) -> nat
    decreases kinds.len(),
{
    if kinds.len() == 0 {
        0
    } else {
        count_kind(kinds.drop_last(), k) + if kinds.last() == k {
            1nat
        } else {
            0nat
        }
    }
}

/// The counters after counting `kinds` can be held.
pub open spec fn counts_fit(s: MonitoringStats, kinds: Seq<MonitoringEventKind>) -> bool {
    &&& s.total_events + kinds.len() <= u64::MAX
    &&& s.thermal_alerts + count_kind(kinds, MonitoringEventKind::ThermalAlert) <= u64::MAX
    &&& s.power_alerts + count_kind(kinds, MonitoringEventKind::PowerAlert) <= u64::MAX
    &&& s.hardware_changes + count_kind(kinds, MonitoringEventKind::HardwareChanged) <= u64::MAX
    &&& s.errors + count_kind(kinds, MonitoringEventKind::MonitoringError) <= u64::MAX
}

impl MonitoringStats {
    /// Counts one pass's events, by kind, and records when the pass ended.
    pub fn record_events(&mut self, kinds: &[MonitoringEventKind], now: SystemTime)
        requires
            counts_fit(*old(self), kinds@),
        ensures
            final(self).total_events == old(self).total_events + kinds@.len(),
            final(self).thermal_alerts == old(self).thermal_alerts + count_kind(
                kinds@,
                MonitoringEventKind::ThermalAlert,
            ),
            final(self).power_alerts == old(self).power_alerts + count_kind(
                kinds@,
                MonitoringEventKind::PowerAlert,
            ),
            final(self).hardware_changes == old(self).hardware_changes + count_kind(
                kinds@,
                MonitoringEventKind::HardwareChanged,
            ),
            final(self).errors == old(self).errors + count_kind(
                kinds@,
                MonitoringEventKind::MonitoringError,
            ),
            final(self).uptime == old(self).uptime,
            final(self).last_update == now,
            final(self).average_update_interval == old(self).average_update_interval,
    {
        let n = kinds.len();
        self.total_events = self.total_events + n as u64;
        let mut i: usize = 0;
        while i < n
            invariant
                i <= n,
                n == kinds@.len(),
                counts_fit(*old(self), kinds@),
                self.total_events == old(self).total_events + kinds@.len(),
                self.thermal_alerts == old(self).thermal_alerts + count_kind(
                    kinds@.take(i as int),
                    MonitoringEventKind::ThermalAlert,
                ),
                self.power_alerts == old(self).power_alerts + count_kind(
                    kinds@.take(i as int),
                    MonitoringEventKind::PowerAlert,
                ),
                self.hardware_changes == old(self).hardware_changes + count_kind(
                    kinds@.take(i as int),
                    MonitoringEventKind::HardwareChanged,
                ),
                self.errors == old(self).errors + count_kind(
                    kinds@.take(i as int),
                    MonitoringEventKind::MonitoringError,
                ),
                self.uptime == old(self).uptime,
                self.last_update == old(self).last_update,
                self.average_update_interval == old(self).average_update_interval,
            decreases n - i,
        {
            proof {
                assert(kinds@.take(i + 1).drop_last() =~= kinds@.take(i as int));
                assert(kinds@.take(i + 1).last() == kinds@[i as int]);
                lemma_count_prefix(kinds@, i + 1, MonitoringEventKind::ThermalAlert);
                lemma_count_prefix(kinds@, i + 1, MonitoringEventKind::PowerAlert);
                lemma_count_prefix(kinds@, i + 1, MonitoringEventKind::HardwareChanged);
                lemma_count_prefix(kinds@, i + 1, MonitoringEventKind::MonitoringError);
            }
            match kinds[i] {
                MonitoringEventKind::ThermalAlert => {
                    self.thermal_alerts = self.thermal_alerts + 1;
                },
                MonitoringEventKind::PowerAlert => {
                    self.power_alerts = self.power_alerts + 1;
                },
                MonitoringEventKind::HardwareChanged => {
                    self.hardware_changes = self.hardware_changes + 1;
                },
                MonitoringEventKind::MonitoringError => {
                    self.errors = self.errors + 1;
                },
                MonitoringEventKind::MetricsUpdate => {},
            }
            i += 1;
        }
        proof {
            assert(kinds@.take(n as int) =~= kinds@);
        }
        self.last_update = now;
    }
}

/// Counting over a prefix counts no more than over the whole.
pub proof fn lemma_count_prefix(kinds: Seq<MonitoringEventKind>, j: int, k: MonitoringEventKind)
    requires
        0 <= j <= kinds.len(),
    ensures
        count_kind(kinds.take(j), k) <= count_kind(kinds, k),
    decreases kinds.len() - j,
{
    if j < kinds.len() {
        assert(kinds.take(j + 1).drop_last() =~= kinds.take(j));
        lemma_count_prefix(kinds, j + 1, k);
    } else {
        assert(kinds.take(j) =~= kinds);
    }
}

/// How many recent update durations monitoring keeps for its average.
pub const UPDATE_WINDOW: usize = 100;

/// The durations of the most recent monitoring passes, oldest first, at most
/// `UPDATE_WINDOW` of them.
#[derive(Debug)]
pub struct UpdateTimes {
    pub times: Vec<Duration>,
}

impl UpdateTimes {
    /// At most `UPDATE_WINDOW` durations are kept.
    pub open spec fn wf(&self) -> bool {
        self.times@.len() <= UPDATE_WINDOW
    }

    /// No durations yet.
    pub fn new() -> (r: UpdateTimes)
        ensures
            r.wf(),
            r.times@.len() == 0,
    {
        UpdateTimes { times: Vec::new() }
    }

    /// Adds the duration of a pass, dropping the oldest when more than `UPDATE_WINDOW`
    /// would be kept.
    pub fn record(&mut self, d: Duration)
        requires
            old(self).wf(),
        ensures
            final(self).wf(),
            old(self).times@.len() < UPDATE_WINDOW ==> final(self).times@ == old(self).times@.push(d),
            old(self).times@.len() == UPDATE_WINDOW ==> final(self).times@ == old(self).times@.push(
                d,
            ).drop_first(),
    {
        push_window(&mut self.times, d, UPDATE_WINDOW);
    }
}

/// The sum of a sequence of durations given in nanoseconds.
pub open spec fn sum_nanos(s: Seq<u128>) -> int
    decreases s.len(),
{
    if s.len() == 0 {
        0
    } else {
        sum_nanos(s.drop_last()) + s.last()
    }
}

/// A prefix sums to no more than the whole sequence.
pub proof fn lemma_sum_nanos_prefix(s: Seq<u128>, j: int)
    requires
        0 <= j <= s.len(),
    ensures
        0 <= sum_nanos(s.take(j)) <= sum_nanos(s),
    decreases s.len() - j,
{
    if j < s.len() {
        assert(s.take(j + 1).drop_last() =~= s.take(j));
        lemma_sum_nanos_prefix(s, j + 1);
    } else {
        assert(s.take(j) =~= s);
    }
    lemma_sum_nanos_nonneg(s.take(j));
}

/// A sum of durations is never negative.
pub proof fn lemma_sum_nanos_nonneg(s: Seq<u128>)
    ensures
        sum_nanos(s) >= 0,
    decreases s.len(),
{
    if s.len() > 0 {
        lemma_sum_nanos_nonneg(s.drop_last());
    }
}

/// The mean duration of the recorded passes, in nanoseconds: their sum divided by
/// their count, rounded down as `Duration`'s division by a count rounds; `None` when
/// nothing is recorded.
pub fn average_nanos(times: &[u128]) -> (r: Option<u128>)
    requires
        sum_nanos(times@) <= u128::MAX,
    ensures
        times@.len() == 0 <==> r is None,
        r matches Some(a) ==> a == sum_nanos(times@) / (times@.len() as int),
{
    let n = times.len();
    if n == 0 {
        return None;
    }
    let mut total: u128 = 0;
    let mut i: usize = 0;
    proof {
        assert(times@.take(0) =~= Seq::<u128>::empty());
    }
    while i < n
        invariant
            i <= n,
            n == times@.len(),
            total == sum_nanos(times@.take(i as int)),
            sum_nanos(times@) <= u128::MAX,
        decreases n - i,
    {
        proof {
            assert(times@.take(i + 1).drop_last() =~= times@.take(i as int));
            lemma_sum_nanos_prefix(times@, i + 1);
        }
        total = total + times[i];
        i = i + 1;
    }
    proof {
        assert(times@.take(n as int) =~= times@);
    }
    Some(total / (n as u128))
}

/// Starts monitoring unless it already runs: an error, and nothing changed, when it does.
pub fn begin_monitoring(running: &mut bool) -> (r: Result<(), HardwareQueryError>)
    ensures
        *old(running) ==> (r matches Err(HardwareQueryError::InvalidConfiguration(m)) && m@
            == "Monitoring is already running"@) && *final(running),
        !*old(running) ==> r is Ok && *final(running),
{
    if *running {
        return Err(HardwareQueryError::InvalidConfiguration(owned("Monitoring is already running")));
    }
    *running = true;
    Ok(())
}

/// What became of one probe in a monitoring pass.
#[derive(Debug, Clone, Copy, PartialEq, Eq, Structural)]
pub enum ProbeOutcome {
    /// The probe is switched off
    Disabled,
    /// The query failed
    Failed,
    /// The query succeeded and this many readings crossed their threshold
    Alerts(u32),
}

/// The events one probe contributes: an error when its query failed, an alert of kind
/// `alert` per reading over its threshold.
pub open spec fn probe_events(p: ProbeOutcome, alert: MonitoringEventKind) -> Seq<MonitoringEventKind> {
    match p {
        ProbeOutcome::Disabled => seq![],
        ProbeOutcome::Failed => seq![MonitoringEventKind::MonitoringError],
        ProbeOutcome::Alerts(n) => Seq::new(n as nat, |i: int| alert),
    }
}

/// The events of one monitoring pass, in order: those of the hardware, thermal and power
/// probes, then the metrics update.
pub open spec fn pass_events(hardware: ProbeOutcome, thermal: ProbeOutcome, power: ProbeOutcome) -> Seq<
    MonitoringEventKind,
> {
    (match hardware {
        ProbeOutcome::Failed => seq![MonitoringEventKind::MonitoringError],
        _ => seq![],
    }) + probe_events(thermal, MonitoringEventKind::ThermalAlert) + probe_events(
        power,
        MonitoringEventKind::PowerAlert,
    ) + seq![MonitoringEventKind::MetricsUpdate]
}

fn push_probe(out: &mut Vec<MonitoringEventKind>, p: ProbeOutcome, alert: MonitoringEventKind)
    ensures
        final(out)@ == old(out)@ + probe_events(p, alert),
{
    match p {
        ProbeOutcome::Disabled => {
            proof {
                assert(old(out)@ + probe_events(p, alert) =~= old(out)@);
            }
        },
        ProbeOutcome::Failed => {
            out.push(MonitoringEventKind::MonitoringError);
            proof {
                assert(out@ =~= old(out)@ + probe_events(p, alert));
            }
        },
        ProbeOutcome::Alerts(n) => {
            let mut i: u32 = 0;
            while i < n
                invariant
                    i <= n,
                    out@ == old(out)@ + Seq::new(i as nat, |k: int| alert),
                decreases n - i,
            {
                out.push(alert);
                proof {
                    assert(out@ =~= old(out)@ + Seq::new((i + 1) as nat, |k: int| alert));
                }
                i += 1;
            }
        },
    }
}

/// The kinds of the events one monitoring pass raises.
pub fn pass_event_kinds(hardware: ProbeOutcome, thermal: ProbeOutcome, power: ProbeOutcome) -> (r:
    Vec<MonitoringEventKind>)
    ensures
        r@ == pass_events(hardware, thermal, power),
{
    let mut out: Vec<MonitoringEventKind> = Vec::new();
    match hardware {
        ProbeOutcome::Failed => out.push(MonitoringEventKind::MonitoringError),
        _ => {},
    }
    let ghost first = out@;
    push_probe(&mut out, thermal, MonitoringEventKind::ThermalAlert);
    push_probe(&mut out, power, MonitoringEventKind::PowerAlert);
    out.push(MonitoringEventKind::MetricsUpdate);
    proof {
        assert(out@ =~= pass_events(hardware, thermal, power));
    }
    out
}

} // verus!
