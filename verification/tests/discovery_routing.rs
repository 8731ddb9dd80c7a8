use tasproxy::devices::Device;
use tasproxy::discovery::{
    handle_message, query_topics, subscription_topics, DiscoveryAction, DISCOVERY_GRACE_SECS,
    RECONNECT_PAUSE_SECS,
};
use tasproxy::devices::{DeviceState, ResultDocument};
use tasproxy::router::{resolve, route_decision};
use tasproxy::store::DeviceStates;

fn state_with_ip(ip: &str) -> DeviceState {
    let mut state = DeviceState::default();
    state.update(&ResultDocument {
        device_name: None,
        ip_field: Some(ip.to_string()),
    });
    state
}

#[test]
fn route_decision_prefers_primary_and_requires_address() {
    assert_eq!(
        route_decision(Some(state_with_ip("10.0.0.5")), None),
        Some("http://10.0.0.5".to_string())
    );
    assert_eq!(
        route_decision(None, Some(state_with_ip("10.0.0.5"))),
        Some("http://10.0.0.5".to_string())
    );
    assert_eq!(
        route_decision(Some(DeviceState::default()), Some(state_with_ip("10.0.0.5"))),
        None
    );
    assert_eq!(route_decision(None, None), None);
}

#[test]
fn online_announcement_creates_no_entry_and_asks_for_query() {
    let mut store = DeviceStates::new();
    let reader = store.share();
    let action = handle_message(&mut store, "tele/bulb1/LWT", "Online");
    assert!(matches!(action, DiscoveryAction::Query(d) if d.hostname == "bulb1"));
    assert_eq!(resolve(&reader, "bulb1"), None);
}

#[test]
fn result_fills_entry_and_routes() {
    let mut store = DeviceStates::new();
    let reader = store.share();
    let action = handle_message(
        &mut store,
        "stat/living_room/RESULT",
        "{\"IPAddress1\":\"10.0.0.5\"}",
    );
    assert!(matches!(
        action,
        DiscoveryAction::Updated {
            device,
            malformed_ip: false,
        } if device.hostname == "living_room"
    ));
    assert_eq!(
        resolve(&reader, "living_room.example.com"),
        Some("http://10.0.0.5".to_string())
    );
}

#[test]
fn routing_falls_back_to_normalized_label() {
    let mut store = DeviceStates::new();
    let reader = store.share();
    handle_message(
        &mut store,
        "stat/living_room/RESULT",
        "{\"IPAddress1\":\"10.0.0.5\"}",
    );
    assert_eq!(
        resolve(&reader, "living-room.example.com"),
        Some("http://10.0.0.5".to_string())
    );
    assert_eq!(resolve(&reader, "unknown.example.com"), None);
}

#[test]
fn known_device_without_ip_misses() {
    let mut store = DeviceStates::new();
    let reader = store.share();
    handle_message(&mut store, "stat/lamp/RESULT", "{\"DeviceName\":\"Lamp\"}");
    assert_eq!(resolve(&reader, "lamp.example.com"), None);
}

#[test]
fn offline_announcement_removes_entry() {
    let mut store = DeviceStates::new();
    let reader = store.share();
    handle_message(&mut store, "stat/bulb1/RESULT", "{\"IPAddress1\":\"10.0.0.9\"}");
    assert_eq!(resolve(&reader, "bulb1.lan"), Some("http://10.0.0.9".to_string()));
    let action = handle_message(&mut store, "tele/bulb1/LWT", "Offline");
    assert!(matches!(action, DiscoveryAction::Removed(d) if d.hostname == "bulb1"));
    assert_eq!(resolve(&reader, "bulb1.lan"), None);
}

#[test]
fn unknown_lwt_payload_is_ignored() {
    let mut store = DeviceStates::new();
    let action = handle_message(&mut store, "tele/bulb1/LWT", "Sleeping");
    assert!(matches!(action, DiscoveryAction::Ignored));
}

#[test]
fn unparseable_result_payload_is_reported_and_skipped() {
    let mut store = DeviceStates::new();
    let reader = store.share();
    let action = handle_message(&mut store, "stat/bulb1/RESULT", "not json");
    assert!(matches!(action, DiscoveryAction::Unparseable(d) if d.hostname == "bulb1"));
    assert_eq!(resolve(&reader, "bulb1"), None);
}

#[test]
fn malformed_address_token_is_reported_and_field_untouched() {
    let mut store = DeviceStates::new();
    let reader = store.share();
    handle_message(&mut store, "stat/bulb1/RESULT", "{\"IPAddress1\":\"10.0.0.7\"}");
    let action = handle_message(
        &mut store,
        "stat/bulb1/RESULT",
        "{\"IPAddress1\":\"not-an-ip\"}",
    );
    assert!(matches!(
        action,
        DiscoveryAction::Updated {
            device,
            malformed_ip: true,
        } if device.hostname == "bulb1"
    ));
    assert_eq!(resolve(&reader, "bulb1"), Some("http://10.0.0.7".to_string()));
}

#[test]
fn unrelated_topics_are_ignored() {
    let mut store = DeviceStates::new();
    assert!(matches!(
        handle_message(&mut store, "tele/bulb1/SENSOR", "{}"),
        DiscoveryAction::Ignored
    ));
    assert!(matches!(
        handle_message(&mut store, "foo/bulb1/BAR", "Online"),
        DiscoveryAction::Ignored
    ));
}

#[test]
fn partial_result_updates_only_supplied_field() {
    let mut store = DeviceStates::new();
    let reader = store.share();
    handle_message(
        &mut store,
        "stat/bulb1/RESULT",
        "{\"DeviceName\":\"Bulb\",\"IPAddress1\":\"10.0.0.1\"}",
    );
    handle_message(&mut store, "stat/bulb1/RESULT", "{\"IPAddress1\":\"10.0.0.2\"}");
    assert_eq!(resolve(&reader, "bulb1"), Some("http://10.0.0.2".to_string()));
    handle_message(&mut store, "stat/bulb1/RESULT", "{}");
    assert_eq!(resolve(&reader, "bulb1"), Some("http://10.0.0.2".to_string()));
}

#[test]
fn shared_handles_see_the_same_map() {
    let mut store = DeviceStates::new();
    let reader = store.share();
    let second = reader.share();
    handle_message(&mut store, "stat/desk/RESULT", "{\"IPAddress1\":\"1.2.3.4\"}");
    assert_eq!(resolve(&reader, "desk"), Some("http://1.2.3.4".to_string()));
    assert_eq!(resolve(&second, "desk"), Some("http://1.2.3.4".to_string()));
    handle_message(&mut store, "tele/desk/LWT", "Offline");
    assert_eq!(resolve(&reader, "desk"), None);
    assert_eq!(resolve(&second, "desk"), None);
}

#[test]
fn query_and_subscription_topics() {
    let device = Device {
        hostname: "bulb1".to_string(),
    };
    let (ip_topic, name_topic) = query_topics(&device);
    assert_eq!(ip_topic, "cmnd/bulb1/IPADDRESS");
    assert_eq!(name_topic, "cmnd/bulb1/DeviceName");
    let (lwt, result) = subscription_topics();
    assert_eq!(lwt, "tele/+/LWT");
    assert_eq!(result, "stat/+/RESULT");
    assert_eq!(DISCOVERY_GRACE_SECS, 5);
    assert_eq!(RECONNECT_PAUSE_SECS, 1);
}
