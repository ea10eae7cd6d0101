//! The fluent descriptor builders.

use hairmqtt::descriptor::{
    BinarySensorBuilder, Device, EntityKind, SensorBuilder, SessionIdentity, VarHeader,
};

fn device() -> Device {
    Device::new("Iracing Telemetry", "Tim Reed", "0.1.0", "hairmqtt")
}

#[test]
fn sensor_new_var_fills_identity_and_template() {
    let var = VarHeader::new("AirTemp", "C");
    let d = SensorBuilder::new_var(&var, "hairmqtt/telemetry", &device()).build();
    assert!(matches!(d.kind, EntityKind::Sensor));
    assert_eq!(d.state_topic, "hairmqtt/telemetry".to_string());
    assert_eq!(d.name, Some("AirTemp".to_string()));
    assert_eq!(d.unique_id, "hairmqtt-AirTemp".to_string());
    assert_eq!(d.object_id, "AirTemp".to_string());
    assert_eq!(d.expire_after, Some(15));
    assert_eq!(d.unit_of_measurement, Some("C".to_string()));
    assert_eq!(d.value_template, Some("{{ value_json.AirTemp }}".to_string()));
    assert_eq!(d.icon, None);
    assert_eq!(d.device_class, None);
    assert_eq!(d.payload_on, None);
    assert_eq!(d.payload_off, None);
    assert_eq!(d.device.name, "Iracing Telemetry".to_string());
    assert_eq!(d.device.identifiers, vec!["hairmqtt".to_string()]);
}

#[test]
fn binary_new_var_expires_sooner_and_has_no_unit() {
    let var = VarHeader::new("IsOnTrack", "");
    let d = BinarySensorBuilder::new_var(&var, "hairmqtt/telemetry", &device()).build();
    assert!(matches!(d.kind, EntityKind::BinarySensor));
    assert_eq!(d.expire_after, Some(10));
    assert_eq!(d.unit_of_measurement, None);
    assert_eq!(d.value_template, Some("{{ value_json.IsOnTrack }}".to_string()));
}

#[test]
fn sensor_new_session_resolves_the_dotted_path() {
    let session = SessionIdentity { driver_car_idx: 0 };
    let d = SensorBuilder::new_session(&session, "DriverCarIdx", "hairmqtt/session", &device(), None)
        .build();
    assert_eq!(d.expire_after, Some(60));
    assert_eq!(
        d.value_template,
        Some("{{ value_json.driver_info.driver_car_idx }}".to_string())
    );
    assert_eq!(d.unique_id, "hairmqtt-DriverCarIdx".to_string());
}

#[test]
fn sensor_new_session_without_a_path_carries_no_template() {
    let session = SessionIdentity { driver_car_idx: 0 };
    let d = SensorBuilder::new_session(&session, "Mystery", "hairmqtt/session", &device(), None)
        .build();
    assert_eq!(d.value_template, None);
    assert_eq!(d.name, Some("Mystery".to_string()));
}

#[test]
fn binary_new_session_uses_the_driver_slot() {
    let session = SessionIdentity { driver_car_idx: 1 };
    let d = BinarySensorBuilder::new_session(&session, "UserName", "hairmqtt/session", &device())
        .build();
    assert_eq!(d.expire_after, Some(15));
    assert_eq!(
        d.value_template,
        Some("{{ value_json.driver_info.drivers.1.user_name }}".to_string())
    );
}

#[test]
fn sensor_mutators_update_their_field() {
    let var = VarHeader::new("WindDir", "rad");
    let d = SensorBuilder::new_var(&var, "t", &device())
        .with_device_class("temperature")
        .with_icon("mdi:thermometer")
        .with_name("Wind Direction")
        .with_unit_of_measurement(Some("degrees"))
        .with_value_tempate("{{ custom }}")
        .build();
    assert_eq!(d.device_class, Some("temperature".to_string()));
    assert_eq!(d.icon, Some("mdi:thermometer".to_string()));
    assert_eq!(d.name, Some("Wind Direction".to_string()));
    assert_eq!(d.unit_of_measurement, Some("degrees".to_string()));
    assert_eq!(d.value_template, Some("{{ custom }}".to_string()));
}

#[test]
fn sensor_unit_can_be_cleared() {
    let var = VarHeader::new("SessionState", "bits");
    let d = SensorBuilder::new_var(&var, "t", &device())
        .with_unit_of_measurement(None)
        .build();
    assert_eq!(d.unit_of_measurement, None);
}

#[test]
fn sensor_template_location_wraps_the_path() {
    let var = VarHeader::new("Lap", "");
    let d = SensorBuilder::new_var(&var, "t", &device())
        .with_template_location("weekend_info.track_name")
        .build();
    assert_eq!(
        d.value_template,
        Some("{{ value_json.weekend_info.track_name }}".to_string())
    );
}

#[test]
fn binary_mutators_update_their_field() {
    let var = VarHeader::new("IsOnTrack", "");
    let d = BinarySensorBuilder::new_var(&var, "t", &device())
        .with_device_class("motion")
        .with_icon("mdi:go-kart-track")
        .with_payload_on("on")
        .with_payload_off("off")
        .with_value_tempate("{{ flag }}")
        .with_name("On Track")
        .build();
    assert_eq!(d.device_class, Some("motion".to_string()));
    assert_eq!(d.icon, Some("mdi:go-kart-track".to_string()));
    assert_eq!(d.payload_on, Some("on".to_string()));
    assert_eq!(d.payload_off, Some("off".to_string()));
    assert_eq!(d.value_template, Some("{{ flag }}".to_string()));
    assert_eq!(d.name, Some("On Track".to_string()));
}

#[test]
fn var_header_accessors_hand_back_the_parts() {
    let var = VarHeader::new("WindVel", "m/s");
    assert_eq!(var.name(), "WindVel");
    assert_eq!(var.units(), "m/s");
}
