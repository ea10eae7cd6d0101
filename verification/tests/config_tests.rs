//! Connection configuration: port parsing, broker address, credentials.

use hairmqtt::config::{parse_port, MqttBroker, MqttCredentials, MqttError};
use hairmqtt::text::decimal_string;

#[test]
fn parse_port_accepts_plain_decimals() {
    assert_eq!(parse_port("1884").unwrap(), 1884);
    assert_eq!(parse_port("0").unwrap(), 0);
    assert_eq!(parse_port("65535").unwrap(), 65535);
    assert_eq!(parse_port("070").unwrap(), 70);
}

#[test]
fn parse_port_accepts_a_leading_plus() {
    assert_eq!(parse_port("+80").unwrap(), 80);
}

#[test]
fn parse_port_rejects_malformed_text() {
    assert!(matches!(parse_port(""), Err(MqttError::InvalidPort)));
    assert!(matches!(parse_port("+"), Err(MqttError::InvalidPort)));
    assert!(matches!(parse_port("80a"), Err(MqttError::InvalidPort)));
    assert!(matches!(parse_port("-1"), Err(MqttError::InvalidPort)));
    assert!(matches!(parse_port("65536"), Err(MqttError::InvalidPort)));
    assert!(matches!(parse_port("99999999999"), Err(MqttError::InvalidPort)));
}

#[test]
fn broker_needs_a_host() {
    assert!(matches!(
        MqttBroker::new(None, Some("1884")),
        Err(MqttError::MissingBrokerHost)
    ));
}

#[test]
fn broker_defaults_the_port() {
    let b = MqttBroker::new(Some("broker.local".to_string()), None).unwrap();
    assert_eq!(b.host, "broker.local".to_string());
    assert_eq!(b.port, 1884);
}

#[test]
fn broker_rejects_a_bad_port() {
    assert!(matches!(
        MqttBroker::new(Some("h".to_string()), Some("not-a-port")),
        Err(MqttError::InvalidPort)
    ));
}

#[test]
fn broker_builds_the_websocket_url() {
    let b = MqttBroker::new(Some("broker.local".to_string()), Some("9001")).unwrap();
    assert_eq!(b.connection_string(), "ws://broker.local:9001".to_string());
}

#[test]
fn credentials_require_both_or_neither() {
    let both = MqttCredentials::new(Some("user".to_string()), Some("pass".to_string()));
    assert_eq!(both.username(), Some("user"));
    assert_eq!(both.password(), Some("pass"));
    assert_eq!(both.credential_pair().unwrap(), Some(("user", "pass")));

    let neither = MqttCredentials::new(None, None);
    assert_eq!(neither.username(), None);
    assert_eq!(neither.credential_pair().unwrap(), None);

    let only_user = MqttCredentials::new(Some("user".to_string()), None);
    assert!(matches!(
        only_user.credential_pair(),
        Err(MqttError::MissingCredendials)
    ));
    let only_pass = MqttCredentials::new(None, Some("pass".to_string()));
    assert!(matches!(
        only_pass.credential_pair(),
        Err(MqttError::MissingCredendials)
    ));
}

#[test]
fn error_messages_name_the_failure() {
    assert_eq!(
        MqttError::MissingCredendials.message(),
        "Missing MQTT credentials".to_string()
    );
    assert_eq!(
        MqttError::MissingBrokerHost.message(),
        "Missing MQTT broker host".to_string()
    );
    assert_eq!(MqttError::InvalidPort.message(), "Invalid MQTT port".to_string());
}

#[test]
fn decimal_rendering_matches_the_value() {
    assert_eq!(decimal_string(0), "0".to_string());
    assert_eq!(decimal_string(7), "7".to_string());
    assert_eq!(decimal_string(1884), "1884".to_string());
    assert_eq!(decimal_string(65535), "65535".to_string());
}
