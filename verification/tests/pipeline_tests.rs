//! The discovery pipeline: emission batches, the announcement state
//! machine, and payload preparation.

use hairmqtt::descriptor::{Device, SessionIdentity, VarHeader};
use hairmqtt::payload::{config_topic, escape_json, prepare_payload, publishable, render_descriptor};
use hairmqtt::pipeline::{discovery_packet, session_discovery_packet, DiscoveryPipeline};
use hairmqtt::publisher::VarCatalog;

fn device() -> Device {
    Device::new("Iracing Telemetry", "Tim Reed", "0.1.0", "hairmqtt")
}

fn catalog(names: &[&str]) -> VarCatalog {
    let mut c = VarCatalog::new();
    for n in names {
        c.push(VarHeader::new(n, "u"));
    }
    c
}

#[test]
fn discovery_packet_emits_recognized_fields_plus_flags() {
    let c = catalog(&["AirTemp", "Lap", "IsOnTrack", "Unmodeled"]);
    let batch = discovery_packet(&c, &device());
    assert_eq!(batch.len(), 3 + 5);
    assert_eq!(batch[0].0, "homeassistant/sensor/hairmqtt-AirTemp/config".to_string());
    assert_eq!(
        batch[7].0,
        "homeassistant/binary_sensor/hairmqtt-checkered-flag/config".to_string()
    );
    for (_, payload) in batch.iter() {
        assert!(payload.is_ok());
    }
}

#[test]
fn discovery_packet_with_empty_catalog_still_emits_the_flags() {
    let batch = discovery_packet(&catalog(&[]), &device());
    assert_eq!(batch.len(), 5);
    assert_eq!(batch[0].0, "homeassistant/binary_sensor/hairmqtt-yellow-flag/config".to_string());
}

#[test]
fn session_packet_holds_the_fixed_four() {
    let session = SessionIdentity { driver_car_idx: 0 };
    let batch = session_discovery_packet(&session, &device());
    assert_eq!(batch.len(), 4);
    assert_eq!(batch[0].0, "homeassistant/sensor/hairmqtt-DriverCarIdx/config".to_string());
    assert_eq!(
        batch[3].0,
        "homeassistant/binary_sensor/hairmqtt-connection/config".to_string()
    );
}

#[test]
fn connection_descriptor_serializes_to_the_exact_json() {
    let session = SessionIdentity { driver_car_idx: 0 };
    let batch = session_discovery_packet(&session, &device());
    let payload = batch[3].1.as_ref().unwrap().clone();
    let expected = "{\"state_topic\":\"hairmqtt/connected\",\"name\":\"Connection\",\"unique_id\":\"hairmqtt-connection\",\"object_id\":\"connection\",\"icon\":\"mdi:connection\",\"payload_on\":\"connected\",\"payload_off\":\"disconnected\",\"device\":{\"identifiers\":[\"hairmqtt\"],\"manufacturer\":\"Tim Reed\",\"name\":\"Iracing Telemetry\",\"sw_version\":\"0.1.0\"}}";
    assert_eq!(String::from_utf8(payload).unwrap(), expected.to_string());
}

#[test]
fn session_announcement_happens_exactly_once_per_link() {
    let mut pipe = DiscoveryPipeline::new(device());
    let session = SessionIdentity { driver_car_idx: 0 };
    let first = pipe.on_session(&session);
    assert_eq!(first.len(), 4);
    let second = pipe.on_session(&session);
    assert_eq!(second.len(), 0);
    let third = pipe.on_session(&session);
    assert_eq!(third.len(), 0);
}

#[test]
fn disconnect_resets_the_announcement() {
    let mut pipe = DiscoveryPipeline::new(device());
    let session = SessionIdentity { driver_car_idx: 0 };
    assert_eq!(pipe.on_session(&session).len(), 4);
    assert_eq!(pipe.on_session(&session).len(), 0);
    pipe.on_disconnect();
    assert!(pipe.catalog.is_none());
    assert_eq!(pipe.on_session(&session).len(), 4);
}

#[test]
fn variable_headers_reemit_on_every_update() {
    let mut pipe = DiscoveryPipeline::new(device());
    let first = pipe.on_variable_headers(catalog(&["Lap"]));
    assert_eq!(first.len(), 1 + 5);
    assert!(pipe.catalog.is_some());
    let second = pipe.on_variable_headers(catalog(&["Lap", "AirTemp"]));
    assert_eq!(second.len(), 2 + 5);
}

#[test]
fn one_failed_pair_loses_only_itself() {
    let batch: Vec<(String, Result<Vec<u8>, String>)> = vec![
        ("a".to_string(), Ok(vec![1u8])),
        ("b".to_string(), Err("went wrong".to_string())),
        ("c".to_string(), Ok(vec![3u8])),
    ];
    let sent = publishable(batch);
    assert_eq!(sent.len(), 2);
    assert_eq!(sent[0], ("a".to_string(), vec![1u8]));
    assert_eq!(sent[1], ("c".to_string(), vec![3u8]));
}

#[test]
fn all_ok_pairs_pass_through_in_order() {
    let batch: Vec<(String, Result<Vec<u8>, String>)> = vec![
        ("x".to_string(), Ok(vec![9u8])),
        ("y".to_string(), Ok(vec![8u8])),
    ];
    let sent = publishable(batch);
    assert_eq!(sent.len(), 2);
    assert_eq!(sent[0].0, "x".to_string());
    assert_eq!(sent[1].0, "y".to_string());
}

#[test]
fn prepare_payload_pairs_topic_with_rendered_json() {
    let var = VarHeader::new("Lap", "");
    let d = hairmqtt::descriptor::SensorBuilder::new_var(&var, "hairmqtt/telemetry", &device())
        .build();
    let rendered = render_descriptor(&d);
    let topic = config_topic(&d);
    let (t, p) = prepare_payload(d);
    assert_eq!(t, topic);
    assert_eq!(t, "homeassistant/sensor/hairmqtt-Lap/config".to_string());
    assert_eq!(p.unwrap(), rendered.into_bytes());
}

#[test]
fn json_escaping_handles_quotes_backslashes_and_controls() {
    assert_eq!(escape_json("plain"), "plain".to_string());
    assert_eq!(escape_json("a\"b"), "a\\\"b".to_string());
    assert_eq!(escape_json("a\\b"), "a\\\\b".to_string());
    assert_eq!(escape_json("a\nb"), "a\\u000ab".to_string());
    assert_eq!(escape_json("\u{1f}"), "\\u001f".to_string());
}
