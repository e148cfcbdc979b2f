use telemetry_core::{
    insert_event_to_db, is_anomaly, poll_tick, receive_telemetry, IngestError, MetricType,
    TelemetryEvent, TelemetryStore, Threshold, POLL_INTERVAL_SECS,
};

fn metric(id: i32, name: &str) -> MetricType {
    MetricType { id, name: name.to_string(), description: None }
}

fn threshold(metric_type_id: i32, critical: Option<i64>) -> Threshold {
    Threshold {
        id: metric_type_id,
        metric_type_id: Some(metric_type_id),
        warning_level: Some(5000),
        critical_level: critical,
        created_by: None,
    }
}

fn event(device: &str, ip: &str, location: Option<&str>, metric_type_id: i32, value: i64) -> TelemetryEvent {
    TelemetryEvent {
        device_name: device.to_string(),
        ip_address: ip.to_string(),
        location: location.map(|l| l.to_string()),
        metric_type_id,
        metric_value: value,
        action_description: Some("check".to_string()),
    }
}

fn store() -> TelemetryStore {
    TelemetryStore::new(
        vec![metric(1, "cpu_usage"), metric(2, "latency_ms"), metric(3, "packet_loss")],
        vec![threshold(1, Some(9000)), threshold(2, None)],
    )
}

#[test]
fn no_threshold_row_is_never_anomalous() {
    assert!(!is_anomaly(None, 0));
    assert!(!is_anomaly(None, i64::MAX));
    let mut s = store();
    s.ingest_at(&event("Router-01", "10.0.0.1", None, 3, 1_000_000), 10).unwrap();
    assert!(!s.get_telemetry()[0].is_anomaly);
}

#[test]
fn critical_level_boundary_is_inclusive() {
    let t = threshold(1, Some(9000));
    assert!(is_anomaly(Some(&t), 9000));
    assert!(!is_anomaly(Some(&t), 8999));
    assert!(is_anomaly(Some(&t), 9001));
}

#[test]
fn missing_critical_level_is_not_anomalous() {
    let t = threshold(2, None);
    assert!(!is_anomaly(Some(&t), i64::MAX));
}

#[test]
fn ingest_classifies_against_threshold() {
    let mut s = store();
    s.ingest_at(&event("Router-01", "10.0.0.1", None, 1, 9000), 1).unwrap();
    s.ingest_at(&event("Router-01", "10.0.0.1", None, 1, 8999), 2).unwrap();
    s.ingest_at(&event("Router-01", "10.0.0.1", None, 2, 1_000_000), 3).unwrap();
    let listed = s.get_telemetry();
    assert_eq!(listed.len(), 3);
    assert_eq!(listed[0].recorded_at, 3);
    assert!(!listed[0].is_anomaly);
    assert_eq!(listed[1].metric_value, 8999);
    assert!(!listed[1].is_anomaly);
    assert_eq!(listed[2].metric_value, 9000);
    assert!(listed[2].is_anomaly);
}

#[test]
fn same_device_name_gives_one_row_first_writer_wins() {
    let mut s = store();
    s.ingest_at(&event("Switch-02", "192.168.1.2", Some("Office"), 1, 100), 1).unwrap();
    s.ingest_at(&event("Switch-02", "10.10.10.9", Some("Data center"), 1, 200), 2).unwrap();
    assert_eq!(s.devices.len(), 1);
    assert_eq!(s.devices[0].id, 1);
    assert_eq!(s.devices[0].ip_address, "192.168.1.2");
    assert_eq!(s.devices[0].location, Some("Office".to_string()));
    let listed = s.get_telemetry();
    assert_eq!(listed.len(), 2);
    assert_eq!(listed[0].ip_address, "192.168.1.2");
    assert_eq!(listed[1].ip_address, "192.168.1.2");
    assert_eq!(s.records[0].device_id, Some(1));
    assert_eq!(s.records[1].device_id, Some(1));
}

#[test]
fn resolve_device_creates_then_finds() {
    let mut s = store();
    let a = s.resolve_device(&"A".to_string(), &"1.1.1.1".to_string(), &None).unwrap();
    let b = s.resolve_device(&"B".to_string(), &"2.2.2.2".to_string(), &Some("X".to_string())).unwrap();
    let a2 = s.resolve_device(&"A".to_string(), &"9.9.9.9".to_string(), &Some("Y".to_string())).unwrap();
    assert_eq!((a, b, a2), (1, 2, 1));
    assert_eq!(s.devices.len(), 2);
    assert_eq!(s.devices[0].location, None);
}

#[test]
fn listing_is_newest_first_whatever_the_arrival_order() {
    let mut s = store();
    for (i, t) in [50i64, 10, 40, 20, 30].iter().enumerate() {
        let name = format!("dev-{}", i);
        s.ingest_at(&event(&name, "10.0.0.1", None, 1, *t), *t).unwrap();
    }
    let times: Vec<i64> = s.get_telemetry().iter().map(|r| r.recorded_at).collect();
    assert_eq!(times, vec![50, 40, 30, 20, 10]);
    let values: Vec<i64> = s.get_telemetry().iter().map(|r| r.metric_value).collect();
    assert_eq!(values, vec![50, 40, 30, 20, 10]);
}

#[test]
fn listing_keeps_optional_fields_absent() {
    let mut s = store();
    let mut e = event("Firewall-03", "172.16.0.1", None, 1, 10);
    e.action_description = None;
    s.ingest_at(&e, 7).unwrap();
    let listed = s.get_telemetry();
    assert_eq!(listed[0].device_name, "Firewall-03");
    assert_eq!(listed[0].location, None);
    assert_eq!(listed[0].action_description, None);
    assert_eq!(listed[0].recorded_at, 7);
}

#[test]
fn unknown_metric_type_is_refused_and_writes_nothing() {
    let mut s = store();
    let r = s.ingest_at(&event("Router-05", "10.0.0.1", None, 42, 10), 1);
    assert_eq!(r, Err(IngestError::UnknownMetricType));
    assert!(s.devices.is_empty());
    assert!(s.records.is_empty());
}

#[test]
fn insert_event_stamps_server_time() {
    let mut s = store();
    insert_event_to_db(&mut s, &event("Router-22", "10.0.0.1", None, 1, 9500)).unwrap();
    assert_eq!(s.records.len(), 1);
    assert!(s.records[0].is_anomaly);
    assert!(s.records[0].recorded_at > 1_600_000_000_000_000);
}

#[test]
fn batch_skips_failing_events_and_keeps_going() {
    let mut s = store();
    let events = vec![
        event("a", "1", None, 1, 1),
        event("b", "2", None, 99, 2),
        event("c", "3", None, 2, 3),
    ];
    let n = receive_telemetry(&mut s, &events);
    assert_eq!(n, 2);
    assert_eq!(s.records.len(), 2);
    assert_eq!(s.devices.len(), 2);
}

#[test]
fn failed_poll_tick_leaves_records_and_schedules_next() {
    let mut s = store();
    s.ingest_at(&event("a", "1", None, 1, 1), 1).unwrap();
    let r = poll_tick(&mut s, None);
    assert!(!r.fetched);
    assert_eq!(r.ingested, 0);
    assert_eq!(r.next_delay_secs, 20);
    assert_eq!(POLL_INTERVAL_SECS, 20);
    assert_eq!(s.records.len(), 1);
    let r2 = poll_tick(&mut s, Some(vec![event("b", "2", None, 1, 2)]));
    assert!(r2.fetched);
    assert_eq!(r2.ingested, 1);
    assert_eq!(r2.next_delay_secs, 20);
    assert_eq!(s.records.len(), 2);
}

#[test]
fn empty_batch_leaves_store_unchanged() {
    let mut s = store();
    s.ingest_at(&event("a", "1", None, 1, 1), 1).unwrap();
    assert_eq!(receive_telemetry(&mut s, &Vec::new()), 0);
    assert_eq!(s.devices.len(), 1);
    assert_eq!(s.records.len(), 1);
    let r = poll_tick(&mut s, Some(Vec::new()));
    assert!(r.fetched);
    assert_eq!(r.ingested, 0);
    assert_eq!(s.records.len(), 1);
}

#[test]
fn batch_stores_exactly_its_storable_events() {
    let mut s = store();
    let events = vec![
        event("a", "1", None, 1, 100),
        event("b", "2", None, 7, 200),
        event("c", "3", None, 2, 300),
        event("a", "4", Some("elsewhere"), 1, 9500),
    ];
    assert_eq!(receive_telemetry(&mut s, &events), 3);
    let names: Vec<&str> = s.devices.iter().map(|d| d.device_name.as_str()).collect();
    assert_eq!(names, vec!["a", "c"]);
    assert_eq!(s.devices[0].ip_address, "1");
    let mut values: Vec<i64> = s.records.iter().map(|r| r.metric_value).collect();
    values.sort();
    assert_eq!(values, vec![100, 300, 9500]);
    let hot: Vec<bool> = s.records.iter().filter(|r| r.metric_value == 9500).map(|r| r.is_anomaly).collect();
    assert_eq!(hot, vec![true]);
}
