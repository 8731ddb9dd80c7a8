use tasproxy::devices::Device;
use tasproxy::topic::Topic;

#[test]
fn parse_topic() {
    let device = Device { hostname: "hostname".to_string() };
    assert_eq!(Topic::LWT(device.clone()), Topic::from("tele/hostname/LWT"));
    assert_eq!(Topic::State(device.clone()), Topic::from("tele/hostname/STATE"));
    assert_eq!(Topic::Sensor(device.clone()), Topic::from("tele/hostname/SENSOR"));
    assert_eq!(Topic::Result(device.clone()), Topic::from("stat/hostname/RESULT"));
}

#[test]
fn parse_topic_examples() {
    let device = Device { hostname: "bulb1".to_string() };
    assert_eq!(Topic::LWT(device.clone()), Topic::from("tele/bulb1/LWT"));
    assert_eq!(Topic::State(device.clone()), Topic::from("tele/bulb1/STATE"));
    assert_eq!(Topic::Sensor(device.clone()), Topic::from("tele/bulb1/SENSOR"));
    assert_eq!(Topic::Result(device.clone()), Topic::from("stat/bulb1/RESULT"));
    assert_eq!(
        Topic::Other("foo/bulb1/BAR".to_string()),
        Topic::from("foo/bulb1/BAR")
    );
}

#[test]
fn parse_topic_unmatched_pairs() {
    assert_eq!(
        Topic::Other("stat/bulb1/LWT".to_string()),
        Topic::from("stat/bulb1/LWT")
    );
    assert_eq!(
        Topic::Other("tele/bulb1/RESULT".to_string()),
        Topic::from("tele/bulb1/RESULT")
    );
    assert_eq!(
        Topic::Other("tele/bulb1/lwt".to_string()),
        Topic::from("tele/bulb1/lwt")
    );
}

#[test]
fn parse_topic_too_few_segments() {
    assert_eq!(Topic::Other("".to_string()), Topic::from(""));
    assert_eq!(Topic::Other("tele".to_string()), Topic::from("tele"));
    assert_eq!(Topic::Other("tele/bulb1".to_string()), Topic::from("tele/bulb1"));
}

#[test]
fn parse_topic_extra_segments() {
    let device = Device { hostname: "bulb1".to_string() };
    assert_eq!(Topic::LWT(device), Topic::from("tele/bulb1/LWT/extra"));
}

#[test]
fn parse_topic_empty_hostname() {
    let device = Device { hostname: "".to_string() };
    assert_eq!(Topic::LWT(device), Topic::from("tele//LWT"));
}

#[test]
fn get_topic_builds_command_topics() {
    let device = Device { hostname: "bulb1".to_string() };
    assert_eq!(device.get_topic("cmnd", "IPADDRESS"), "cmnd/bulb1/IPADDRESS");
    assert_eq!(device.get_topic("stat", "RESULT"), "stat/bulb1/RESULT");
}
