use humours_server::hardware::{
    build_catalog, bytes_rate_unit_divisor, bytes_unit_divisor, catalog_entry, counter_deltas,
    needs_disks, needs_networks, needs_sys, parse_wifi_ssids, refresh_targets, round_to_quantum,
    seconds_unit_scale, value_conversion, IfaceCounters, TimeScale, ValueConversion,
    POLL_QUANTUM_MS,
};
use humours_server::protocol::{CatalogMessage, ErrorMessage, MetricDataType, SubscribeEntry};
use humours_server::server::{
    admission, invalid_subscribe_notice, is_authorized, plan_subscription, now_ms,
    subscription_rates_roundable, timestamp_from_millis, PollState, SampleRequest, SubscribeOutcome,
    Subscription,
};

#[test]
fn round_to_quantum_aligns_to_50ms() {
    assert_eq!(round_to_quantum(0), POLL_QUANTUM_MS);
    assert_eq!(round_to_quantum(50), 50);
    assert_eq!(round_to_quantum(51), 100);
    assert_eq!(round_to_quantum(99), 100);
    assert_eq!(round_to_quantum(100), 100);
    assert_eq!(round_to_quantum(150), 150);
    assert_eq!(round_to_quantum(1234), 1250);
}

fn entry(id: &str, rate: Option<u64>, unit: Option<&str>) -> SubscribeEntry {
    SubscribeEntry { id: id.to_string(), refresh_rate_ms: rate, unit: unit.map(|u| u.to_string()) }
}

fn plan(entries: &[SubscribeEntry]) -> SubscribeOutcome {
    let catalog = build_catalog();
    assert!(subscription_rates_roundable(&catalog, 100, entries));
    plan_subscription(&catalog, 100, entries)
}

#[test]
fn catalog_lists_core_metrics_with_their_types() {
    let catalog = build_catalog();
    let ids: Vec<&str> = catalog.iter().map(|m| m.id.as_str()).collect();
    assert!(ids.contains(&"cpu.usage"));
    assert!(ids.contains(&"mem.used"));
    let cores = catalog_entry(&catalog, "cpu.cores").unwrap();
    assert_eq!(cores.data_type, MetricDataType::Integer);
    assert!(cores.is_static);
    let usage = catalog_entry(&catalog, "cpu.usage").unwrap();
    assert_eq!(usage.data_type, MetricDataType::Float);
    assert_eq!(usage.default_unit, "%");
    assert!(catalog_entry(&catalog, "no.such.metric").is_none());
    let msg = CatalogMessage::new(catalog.clone());
    assert_eq!(msg.msg_type, "catalog");
    assert_eq!(msg.metrics.len(), catalog.len());
}

#[test]
fn catalog_ids_are_distinct() {
    let catalog = build_catalog();
    for (i, a) in catalog.iter().enumerate() {
        for b in catalog.iter().skip(i + 1) {
            assert_ne!(a.id, b.id);
        }
    }
}

#[test]
fn wrong_or_missing_token_is_refused() {
    assert!(is_authorized("secret", Some("secret")));
    assert!(!is_authorized("secret", Some("wrong")));
    assert!(!is_authorized("secret", None));
    assert!(admission("secret", Some("secret")).is_none());
    let refused: ErrorMessage = admission("secret", Some("wrong")).unwrap();
    assert_eq!(refused.msg_type, "error");
    assert_eq!(refused.message, "unauthorized");
    assert_eq!(admission("secret", None).unwrap().message, "unauthorized");
}

#[test]
fn malformed_message_gets_invalid_subscribe_error() {
    let e = invalid_subscribe_notice("expected value at line 1 column 1");
    assert_eq!(e.msg_type, "error");
    assert_eq!(e.message, "invalid subscribe message: expected value at line 1 column 1");
}

#[test]
fn live_subscriptions_use_requested_or_default_rate() {
    match plan(&[entry("cpu.usage", Some(100), None), entry("mem.used", None, None)]) {
        SubscribeOutcome::Accepted { table, static_requests } => {
            assert!(static_requests.is_empty());
            assert_eq!(table.len(), 2);
            assert_eq!(table[0].0, "cpu.usage");
            assert_eq!(table[0].1.rate, 100);
            assert_eq!(table[0].1.unit, "%");
            assert_eq!(table[1].0, "mem.used");
            assert_eq!(table[1].1.rate, 100);
        }
        SubscribeOutcome::Rejected(m) => panic!("rejected: {m:?}"),
    }
}

#[test]
fn sub_quantum_rate_rounds_up_to_50ms() {
    match plan(&[entry("cpu.usage", Some(1), None)]) {
        SubscribeOutcome::Accepted { table, .. } => assert_eq!(table[0].1.rate, 50),
        SubscribeOutcome::Rejected(m) => panic!("rejected: {m:?}"),
    }
}

#[test]
fn static_metric_is_sampled_once_not_polled() {
    match plan(&[entry("cpu.cores", None, None), entry("cpu.usage", Some(50), None)]) {
        SubscribeOutcome::Accepted { table, static_requests } => {
            assert_eq!(static_requests.len(), 1);
            assert_eq!(static_requests[0].id, "cpu.cores");
            assert_eq!(table.len(), 1);
            assert_eq!(table[0].0, "cpu.usage");
            let mut poll = PollState::new(50);
            poll.on_subscriptions_changed(table);
            for _ in 0..10 {
                let due: Vec<SampleRequest> = poll.on_tick();
                assert!(due.iter().all(|r| r.id != "cpu.cores"));
            }
        }
        SubscribeOutcome::Rejected(m) => panic!("rejected: {m:?}"),
    }
}

#[test]
fn refresh_rate_on_static_metric_is_rejected() {
    match plan(&[entry("cpu.cores", Some(100), None)]) {
        SubscribeOutcome::Rejected(msgs) => {
            assert_eq!(msgs.len(), 2);
            assert!(msgs[0].contains("static"));
            assert_eq!(msgs[1], "subscribe rejected due to previous error(s)");
        }
        SubscribeOutcome::Accepted { .. } => panic!("accepted"),
    }
}

#[test]
fn invalid_unit_is_rejected() {
    match plan(&[entry("mem.total", None, Some("frobnicate"))]) {
        SubscribeOutcome::Rejected(msgs) => {
            assert!(msgs[0].contains("not valid"));
            assert_eq!(msgs[0], "unit `frobnicate` is not valid for metric `mem.total`");
        }
        SubscribeOutcome::Accepted { .. } => panic!("accepted"),
    }
}

#[test]
fn unknown_metric_is_rejected_and_every_error_reported() {
    match plan(&[
        entry("no.such", None, None),
        entry("cpu.usage", Some(100), None),
        entry("cpu.cores", Some(10), None),
    ]) {
        SubscribeOutcome::Rejected(msgs) => {
            assert_eq!(msgs.len(), 3);
            assert_eq!(msgs[0], "unknown metric `no.such`");
            assert!(msgs[1].contains("static"));
            assert_eq!(msgs[2], "subscribe rejected due to previous error(s)");
        }
        SubscribeOutcome::Accepted { .. } => panic!("accepted"),
    }
}

#[test]
fn custom_unit_is_honored() {
    match plan(&[entry("mem.total", None, Some("MB")), entry("cpu.usage", Some(100), None)]) {
        SubscribeOutcome::Accepted { table, static_requests } => {
            assert_eq!(static_requests.len(), 1);
            assert_eq!(static_requests[0].unit, "MB");
            assert_eq!(table[0].1.unit, "%");
        }
        SubscribeOutcome::Rejected(m) => panic!("rejected: {m:?}"),
    }
}

#[test]
fn repeated_metric_keeps_the_last_request() {
    match plan(&[entry("cpu.usage", Some(100), None), entry("cpu.usage", Some(300), None)]) {
        SubscribeOutcome::Accepted { table, .. } => {
            assert_eq!(table.len(), 1);
            assert_eq!(table[0].1.rate, 300);
        }
        SubscribeOutcome::Rejected(m) => panic!("rejected: {m:?}"),
    }
}

fn sub(rate: u64) -> Subscription {
    Subscription { rate, unit: "%".to_string(), data_type: MetricDataType::Float }
}

#[test]
fn poll_samples_only_subscribed_metrics_at_their_rate() {
    let mut poll = PollState::new(50);
    assert!(poll.on_tick().is_empty());
    poll.on_subscriptions_changed(vec![("cpu.usage".to_string(), sub(100)), ("mem.used".to_string(), sub(50))]);
    // The first tick after a change samples everything.
    let first = poll.on_tick();
    assert_eq!(first.len(), 2);
    let mut cpu_ticks = 0;
    let mut mem_ticks = 0;
    for _ in 0..10 {
        for r in poll.on_tick() {
            assert!(r.id == "cpu.usage" || r.id == "mem.used");
            if r.id == "cpu.usage" {
                cpu_ticks += 1;
            } else {
                mem_ticks += 1;
            }
        }
    }
    assert_eq!(mem_ticks, 10);
    assert_eq!(cpu_ticks, 5);
}

#[test]
fn poll_interval_below_quantum_is_raised() {
    assert_eq!(PollState::new(10).quantum, 50);
    assert_eq!(PollState::new(200).quantum, 200);
}

#[test]
fn timestamps_are_milliseconds() {
    assert_eq!(timestamp_from_millis(Some(1234)), 1234);
    assert!(now_ms() > 0);
}

#[test]
fn units_and_conversions() {
    assert_eq!(bytes_unit_divisor("MB"), Some(1_000_000));
    assert_eq!(bytes_unit_divisor("GiB"), Some(1_073_741_824));
    assert_eq!(bytes_unit_divisor("%"), None);
    assert_eq!(bytes_rate_unit_divisor("KiB/s"), Some(1024));
    assert_eq!(bytes_rate_unit_divisor("MB"), None);
    assert!(matches!(seconds_unit_scale("ms"), Some(TimeScale::Multiply(1000))));
    assert!(matches!(seconds_unit_scale("h"), Some(TimeScale::Divide(3600))));
    assert!(matches!(value_conversion("mem.total"), ValueConversion::Bytes));
    assert!(matches!(value_conversion("disk.used"), ValueConversion::Bytes));
    assert!(matches!(value_conversion("sys.uptime"), ValueConversion::Seconds));
    assert!(matches!(value_conversion("cpu.usage"), ValueConversion::Identity));
}

#[test]
fn refresh_targets_follow_the_metric_families() {
    assert!(needs_sys("cpu.usage"));
    assert!(needs_sys("sys.load5"));
    assert!(!needs_sys("sys.hostname"));
    assert!(needs_disks("disk.total"));
    assert!(needs_networks("net.interfaces"));
    let t = refresh_targets(&["cpu.usage".to_string(), "net.rx_bytes".to_string()]);
    assert!(t.system && t.networks && !t.disks);
}

#[test]
fn wifi_ssids_are_the_nonempty_trimmed_lines() {
    let ssids = parse_wifi_ssids("  home \n\ncafe\r\n   \nwork");
    assert_eq!(ssids, vec!["home".to_string(), "cafe".to_string(), "work".to_string()]);
}

#[test]
fn counter_deltas_saturate_and_skip_new_interfaces() {
    let c = |rx: u64, tx: u64| IfaceCounters { rx_bytes: rx, tx_bytes: tx, rx_packets: rx / 10, tx_packets: tx / 10 };
    let last = vec![("eth0".to_string(), c(1000, 500)), ("wlan0".to_string(), c(300, 300))];
    let current = vec![
        ("eth0".to_string(), c(1500, 400)),
        ("lo".to_string(), c(10, 10)),
        ("wlan0".to_string(), c(300, 900)),
    ];
    let d = counter_deltas(&last, &current);
    assert_eq!(d.len(), 2);
    assert_eq!(d[0].0, "eth0");
    assert_eq!(d[0].1, IfaceCounters { rx_bytes: 500, tx_bytes: 0, rx_packets: 50, tx_packets: 0 });
    assert_eq!(d[1].0, "wlan0");
    assert_eq!(d[1].1, IfaceCounters { rx_bytes: 0, tx_bytes: 600, rx_packets: 0, tx_packets: 60 });
}
