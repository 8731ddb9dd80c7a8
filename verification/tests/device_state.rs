use tasproxy::devices::{DeviceState, ResultDocument};
use tasproxy::ip::{extract_ip, IpAddress};

fn doc(name: Option<&str>, ip: Option<&str>) -> ResultDocument {
    ResultDocument {
        device_name: name.map(|s| s.to_string()),
        ip_field: ip.map(|s| s.to_string()),
    }
}

fn addr(a: u8, b: u8, c: u8, d: u8) -> IpAddress {
    IpAddress { a, b, c, d }
}

#[test]
fn update_sets_name_and_ip() {
    let mut state = DeviceState::default();
    state.update(&doc(Some("Bulb"), Some("192.168.1.5")));
    assert_eq!(state.name().as_str(), "Bulb");
    assert_eq!(state.ip(), Some(addr(192, 168, 1, 5)));
}

#[test]
fn update_twice_leaves_same_state() {
    let update = doc(Some("Bulb"), Some("192.168.1.5"));
    let mut once = DeviceState::default();
    once.update(&update);
    let mut twice = DeviceState::default();
    twice.update(&update);
    twice.update(&update);
    assert_eq!(once.name(), twice.name());
    assert_eq!(once.ip(), twice.ip());
}

#[test]
fn update_with_only_ip_keeps_name() {
    let mut state = DeviceState::default();
    state.update(&doc(Some("Bulb"), Some("10.0.0.1")));
    state.update(&doc(None, Some("10.0.0.2")));
    assert_eq!(state.name().as_str(), "Bulb");
    assert_eq!(state.ip(), Some(addr(10, 0, 0, 2)));
}

#[test]
fn update_with_neither_field_keeps_both() {
    let mut state = DeviceState::default();
    state.update(&doc(Some("Bulb"), Some("10.0.0.1")));
    state.update(&doc(None, None));
    assert_eq!(state.name().as_str(), "Bulb");
    assert_eq!(state.ip(), Some(addr(10, 0, 0, 1)));
}

#[test]
fn update_with_empty_name_keeps_name() {
    let mut state = DeviceState::default();
    state.update(&doc(Some("Bulb"), None));
    state.update(&doc(Some(""), None));
    assert_eq!(state.name().as_str(), "Bulb");
}

#[test]
fn update_prefers_parenthesized_ip() {
    let mut state = DeviceState::default();
    state.update(&doc(None, Some("192.168.1.5 (192.168.1.99)")));
    assert_eq!(state.ip(), Some(addr(192, 168, 1, 99)));
}

#[test]
fn update_takes_plain_ip() {
    let mut state = DeviceState::default();
    state.update(&doc(None, Some("192.168.1.5")));
    assert_eq!(state.ip(), Some(addr(192, 168, 1, 5)));
}

#[test]
fn update_ignores_malformed_ip() {
    let mut state = DeviceState::default();
    state.update(&doc(None, Some("10.0.0.7")));
    state.update(&doc(None, Some("not-an-ip")));
    assert_eq!(state.ip(), Some(addr(10, 0, 0, 7)));
}

#[test]
fn extract_ip_cases() {
    assert_eq!(extract_ip("192.168.1.5 (192.168.1.99)"), Some(addr(192, 168, 1, 99)));
    assert_eq!(extract_ip("192.168.1.5"), Some(addr(192, 168, 1, 5)));
    assert_eq!(extract_ip("(10.0.0.1)"), Some(addr(10, 0, 0, 1)));
    assert_eq!(extract_ip("not-an-ip"), None);
    assert_eq!(extract_ip("10.0.0.1 tail"), None);
    assert_eq!(extract_ip(""), None);
}

#[test]
fn parse_ip_accepts_well_formed_quads() {
    assert_eq!(IpAddress::parse("0.0.0.0"), Some(addr(0, 0, 0, 0)));
    assert_eq!(IpAddress::parse("255.255.255.255"), Some(addr(255, 255, 255, 255)));
    assert_eq!(IpAddress::parse("10.0.0.5"), Some(addr(10, 0, 0, 5)));
}

#[test]
fn parse_ip_rejects_malformed_text() {
    assert_eq!(IpAddress::parse("256.1.1.1"), None);
    assert_eq!(IpAddress::parse("01.2.3.4"), None);
    assert_eq!(IpAddress::parse("1.2.3"), None);
    assert_eq!(IpAddress::parse("1.2.3.4.5"), None);
    assert_eq!(IpAddress::parse("1.2.3."), None);
    assert_eq!(IpAddress::parse(".1.2.3"), None);
    assert_eq!(IpAddress::parse("a.b.c.d"), None);
    assert_eq!(IpAddress::parse("::1"), None);
    assert_eq!(IpAddress::parse(""), None);
}

#[test]
fn ip_renders_to_dotted_quad() {
    assert_eq!(addr(10, 0, 0, 5).to_text(), "10.0.0.5");
    assert_eq!(addr(255, 255, 255, 255).to_text(), "255.255.255.255");
    assert_eq!(addr(0, 0, 0, 0).to_text(), "0.0.0.0");
    assert_eq!(addr(192, 168, 99, 1).to_text(), "192.168.99.1");
}
