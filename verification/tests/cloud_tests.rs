use yoyopod::cloud::{
    broker_transport, check_device_config, config_poll_due, join_url, mark_connected, mark_disconnected,
    mqtt_client_id, next_config_poll_at, qos_from_u8, validate_device_config, websocket_broker_url,
    BrokerTransport, DeviceConfigFields, DeviceConfigProblem, DisabledMqttBackend, MqttQos,
    MAX_MQTT_EVENTS_PER_DRAIN,
};
use yoyopod::outbox::{
    outgoing_message, LocationOutbox, OutboxEntry, MAX_LOCATION_OUTBOX_AGE_SECONDS, MAX_LOCATION_OUTBOX_FIXES,
};

fn json(text: &str) -> serde_json::Value {
    serde_json::from_str(text).expect("valid JSON")
}

#[test]
fn validates_new_and_legacy_location_intervals() {
    assert!(validate_device_config(json(
        r#"{
            "config_version": 3,
            "features": {"location_tracking": true},
            "connectivity": {
                "location_moving_interval_seconds": 60,
                "location_stationary_interval_seconds": 300
            }
        }"#
    ))
    .is_ok());
    assert!(validate_device_config(json(
        r#"{
            "config_version": 2,
            "connectivity": {"location_report_interval_seconds": 600}
        }"#
    ))
    .is_ok());
    assert!(validate_device_config(json(
        r#"{
            "config_version": 4,
            "connectivity": {
                "location_moving_interval_seconds": 500,
                "location_stationary_interval_seconds": 300
            }
        }"#
    ))
    .is_err());
}

#[test]
fn config_problems_are_named() {
    let error = validate_device_config(json("[1, 2]")).unwrap_err();
    assert_eq!(error.to_string(), "cloud config must be an object");
    let error = validate_device_config(json(r#"{"features": {}}"#)).unwrap_err();
    assert_eq!(error.to_string(), "cloud config version is missing");
    let error =
        validate_device_config(json(r#"{"config_version": 1, "features": {"location_tracking": "yes"}}"#))
            .unwrap_err();
    assert_eq!(error.to_string(), "cloud location tracking flag is invalid");
    let valid = json(r#"{"config_version": 1, "extra": [true]}"#);
    assert_eq!(validate_device_config(valid.clone()).unwrap(), valid);
}

#[test]
fn interval_limits_are_inclusive() {
    let fields = |moving: Option<u64>, stationary: Option<u64>| {
        Some(DeviceConfigFields {
            config_version: Some(1),
            location_tracking_is_flag: None,
            moving_interval: moving,
            stationary_interval: stationary,
            report_interval: None,
        })
    };
    assert_eq!(check_device_config(fields(Some(30), Some(120))), None);
    assert_eq!(check_device_config(fields(Some(900), Some(3_600))), None);
    assert_eq!(check_device_config(fields(Some(29), None)), Some(DeviceConfigProblem::InvalidIntervals));
    assert_eq!(check_device_config(fields(None, Some(3_601))), Some(DeviceConfigProblem::InvalidIntervals));
    assert_eq!(check_device_config(fields(Some(200), Some(150))), Some(DeviceConfigProblem::InvalidIntervals));
    assert_eq!(check_device_config(None), Some(DeviceConfigProblem::NotAnObject));
    assert_eq!(DeviceConfigProblem::InvalidIntervals.message(), "cloud location intervals are invalid");
}

#[test]
fn disconnect_events_are_reported_once_until_reconnect() {
    let mut connected = true;
    let mut disconnect_reported = false;

    assert!(mark_disconnected(&mut connected, &mut disconnect_reported));
    assert!(!connected);
    assert!(!mark_disconnected(&mut connected, &mut disconnect_reported));

    mark_connected(&mut connected, &mut disconnect_reported);
    assert!(connected);
    assert!(mark_disconnected(&mut connected, &mut disconnect_reported));
}

#[test]
fn mqtt_delivery_levels() {
    assert_eq!(qos_from_u8(0), MqttQos::AtMostOnce);
    assert_eq!(qos_from_u8(1), MqttQos::AtLeastOnce);
    assert_eq!(qos_from_u8(2), MqttQos::ExactlyOnce);
    assert_eq!(qos_from_u8(7), MqttQos::AtLeastOnce);
    assert_eq!(MAX_MQTT_EVENTS_PER_DRAIN, 64);
}

#[test]
fn broker_transport_follows_name_and_tls() {
    assert_eq!(broker_transport(" WebSocket ", false), BrokerTransport::WebSocket);
    assert_eq!(broker_transport("ws", true), BrokerTransport::SecureWebSocket);
    assert_eq!(broker_transport("wss", false), BrokerTransport::SecureWebSocket);
    assert_eq!(broker_transport("tcp", true), BrokerTransport::Tls);
    assert_eq!(broker_transport("", false), BrokerTransport::Tcp);
}

#[test]
fn websocket_broker_url_is_built_or_kept() {
    assert_eq!(websocket_broker_url("broker.example.com", true, 8884), "wss://broker.example.com:8884/mqtt");
    assert_eq!(websocket_broker_url(" broker ", false, 80), "ws://broker:80/mqtt");
    assert_eq!(websocket_broker_url(" wss://host/path ", false, 1), "wss://host/path");
    assert_eq!(mqtt_client_id("  dev-7 "), "yoyopod-dev-7");
}

#[test]
fn urls_join_with_one_slash() {
    assert_eq!(join_url("https://api.example.com/", "/v1/config"), "https://api.example.com/v1/config");
    assert_eq!(join_url("https://api.example.com//", "v1"), "https://api.example.com/v1");
    assert_eq!(join_url("base", ""), "base/");
}

#[test]
fn config_polls_on_schedule() {
    assert_eq!(next_config_poll_at(100, 0), 101);
    assert_eq!(next_config_poll_at(100, 60), 160);
    assert_eq!(next_config_poll_at(u64::MAX - 1, 60), u64::MAX);
    assert!(!config_poll_due(false, true, 10, 0));
    assert!(config_poll_due(true, true, 10, 50));
    assert!(!config_poll_due(true, false, 10, 50));
    assert!(config_poll_due(true, false, 50, 50));
}

#[test]
fn disabled_backend_never_connects() {
    let mut backend = DisabledMqttBackend::default();
    assert!(!backend.is_connected());
    assert!(!backend.publish("topic", "{}", 1).unwrap());
    assert!(backend.drain_events().is_empty());
    backend.stop();
}

#[test]
fn survives_restart_and_removes_only_after_ack() {
    let mut outbox = LocationOutbox::empty();
    assert!(outbox.enqueue(
        "fix-1".to_string(),
        r#"{"payload":{"fixId":"fix-1","reason":"periodic"}}"#.to_string(),
        1_000,
    ));
    outbox.mark_sent("fix-1");
    assert!(outbox.pending_messages(1_000).is_empty());

    let (mut restarted, dropped) = LocationOutbox::open(outbox.entries().clone(), 1_001);
    assert!(!dropped);
    assert_eq!(restarted.len(), 1);
    assert_eq!(restarted.pending_messages(1_001).len(), 1);
    assert!(restarted.acknowledge("fix-1"));
    assert!(restarted.is_empty());
    assert!(!restarted.acknowledge("fix-1"));
}

#[test]
fn same_fix_is_queued_once() {
    let mut outbox = LocationOutbox::empty();
    assert!(outbox.enqueue("fix-1".to_string(), "{}".to_string(), 10));
    assert!(!outbox.enqueue("fix-1".to_string(), "{}".to_string(), 10));
    assert_eq!(outbox.len(), 1);
}

#[test]
fn stale_fixes_are_dropped() {
    let entries = vec![
        OutboxEntry { fix_id: "old".to_string(), queued_at: 0, message: "{}".to_string() },
        OutboxEntry { fix_id: "new".to_string(), queued_at: 5_000, message: "{}".to_string() },
    ];
    let (outbox, dropped) = LocationOutbox::open(entries, MAX_LOCATION_OUTBOX_AGE_SECONDS + 1);
    assert!(dropped);
    assert_eq!(outbox.len(), 1);
    assert_eq!(outbox.entries()[0].fix_id, "new");

    let entries = vec![OutboxEntry { fix_id: "edge".to_string(), queued_at: 0, message: "{}".to_string() }];
    let (outbox, dropped) = LocationOutbox::open(entries, MAX_LOCATION_OUTBOX_AGE_SECONDS);
    assert!(!dropped);
    assert_eq!(outbox.len(), 1);
}

#[test]
fn outbox_keeps_the_newest_fixes() {
    let mut outbox = LocationOutbox::empty();
    for index in 0..(MAX_LOCATION_OUTBOX_FIXES + 2) {
        assert!(outbox.enqueue(format!("fix-{index}"), "{}".to_string(), 100));
    }
    assert_eq!(outbox.len(), MAX_LOCATION_OUTBOX_FIXES);
    assert_eq!(outbox.entries()[0].fix_id, "fix-2");
}

#[test]
fn sent_fixes_wait_for_the_next_connection() {
    let mut outbox = LocationOutbox::empty();
    outbox.enqueue("a".to_string(), "{}".to_string(), 1);
    outbox.enqueue("b".to_string(), "{}".to_string(), 1);
    outbox.mark_sent("a");
    let pending = outbox.pending_messages(1);
    assert_eq!(pending, vec![("b".to_string(), "{}".to_string())]);
    outbox.begin_connection();
    assert_eq!(outbox.pending_messages(1).len(), 2);
}

#[test]
fn delayed_periodic_fixes_go_as_backfill() {
    let mut outbox = LocationOutbox::empty();
    let message = r#"{"payload":{"fixId":"f","reason":"periodic"}}"#;
    outbox.enqueue("f".to_string(), message.to_string(), 100);
    let fresh = outbox.pending_messages(129);
    assert_eq!(fresh[0].1, message);
    let late = outbox.pending_messages(130);
    let value: serde_json::Value = serde_json::from_str(&late[0].1).unwrap();
    assert_eq!(value["payload"]["reason"], "backfill");
    assert_eq!(value["payload"]["fixId"], "f");

    let mut other = LocationOutbox::empty();
    let manual = r#"{"payload":{"reason":"manual"}}"#;
    other.enqueue("m".to_string(), manual.to_string(), 0);
    assert_eq!(other.pending_messages(500)[0].1, manual);
}

#[test]
fn outgoing_message_rules() {
    let backfill = Some("B".to_string());
    assert_eq!(outgoing_message("M", 30, Some("periodic".to_string()), backfill.clone()), "B");
    assert_eq!(outgoing_message("M", 29, Some("periodic".to_string()), backfill.clone()), "M");
    assert_eq!(outgoing_message("M", 30, Some("manual".to_string()), backfill.clone()), "M");
    assert_eq!(outgoing_message("M", 30, Some("periodic".to_string()), None), "M");
    assert_eq!(outgoing_message("M", 30, None, backfill), "M");
}
