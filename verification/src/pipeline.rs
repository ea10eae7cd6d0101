//! The discovery pipeline: which descriptors are emitted for a link's
//! variable catalog and for a session document, and the session-scoped
//! state machine that decides when descriptors are (re-)announced.

use vstd::prelude::*;

use crate::descriptor::{
    BinarySensorBuilder, DescView, Device, DeviceView, EntityDescriptor, EntityKind,
    SensorBuilder, SessionIdentity, spec_sensor_session, spec_sensor_var, template_for,
};
use crate::payload::{prepare_payload, spec_config_topic, json_of_descriptor, DiscoveryPrepPacket};
use crate::descriptor::VarView;
use crate::publisher::{spec_lookup, VarCatalog};

verus! {

/// The topic live telemetry values are published on.
pub const TELEMETRY_STATE: &'static str = "hairmqtt/telemetry";

/// The topic session values are published on.
pub const SESSION_STATE: &'static str = "hairmqtt/session";

/// The topic the connectivity flag is published on.
pub const CONNECTED_STATE: &'static str = "hairmqtt/connected";

/// The views of a list of descriptors.
pub open spec fn descs_view(s: Seq<EntityDescriptor>) -> Seq<DescView> {
    s.map_values(|d: EntityDescriptor| d@)
}

/// A singleton or nothing.
pub open spec fn opt_seq(o: Option<DescView>) -> Seq<DescView> {
    match o {
        Some(d) => seq![d],
        None => Seq::empty(),
    }
}

/// The view of an optional string slice.
pub open spec fn opt_str_view(o: Option<&str>) -> Option<Seq<char>> {
    match o {
        Some(s) => Some(s@),
        None => None,
    }
}

/// The view of an optional unit override.
pub open spec fn opt_unit_view(o: Option<Option<&str>>) -> Option<Option<Seq<char>>> {
    match o {
        Some(u) => Some(opt_str_view(u)),
        None => None,
    }
}

/// The sensor descriptor emitted for one recognized runtime field, when the
/// catalog knows the field: the plain runtime-field descriptor, with the
/// configured display name, classification, icon, unit and extraction
/// template put in place of the defaults.
pub open spec fn spec_var_sensor(
    catalog: Seq<VarView>,
    device: DeviceView,
    field: Seq<char>,
    display: Option<Seq<char>>,
    device_class: Option<Seq<char>>,
    icon: Option<Seq<char>>,
    unit: Option<Option<Seq<char>>>,
    template: Option<Seq<char>>,
) -> Option<DescView> {
    match spec_lookup(catalog, field) {
        Some(v) => Some(
            DescView {
                name: match display {
                    Some(d) => Some(d),
                    None => Some(v.name),
                },
                device_class: device_class,
                icon: icon,
                unit_of_measurement: match unit {
                    Some(u) => u,
                    None => Some(v.unit),
                },
                value_template: match template {
                    Some(t) => Some(t),
                    None => Some(template_for(v.name)),
                },
                ..spec_sensor_var(v, TELEMETRY_STATE@, device)
            },
        ),
        None => None,
    }
}

/// The binary-sensor descriptor emitted for the on-track flag, when the
/// catalog knows the field.
pub open spec fn spec_on_track_sensor(catalog: Seq<VarView>, device: DeviceView) -> Option<
    DescView,
> {
    match spec_lookup(catalog, "IsOnTrack"@) {
        Some(v) => Some(
            DescView {
                icon: Some("mdi:go-kart-track"@),
                payload_on: Some("on"@),
                payload_off: Some("off"@),
                value_template: Some("{{ 'on' if value_json.IsOnTrack == true else 'off' }}"@),
                ..crate::descriptor::spec_binary_var(v, TELEMETRY_STATE@, device)
            },
        ),
        None => None,
    }
}

/// A derived flag indicator: a binary sensor over a set-membership test on
/// the session status field, with a short expiry.
pub open spec fn spec_flag(
    display: Seq<char>,
    template: Seq<char>,
    unique_id: Seq<char>,
    object_id: Seq<char>,
    device: DeviceView,
) -> DescView {
    DescView {
        kind: EntityKind::BinarySensor,
        state_topic: TELEMETRY_STATE@,
        name: Some(display),
        unique_id: unique_id,
        object_id: object_id,
        expire_after: Some(5u32),
        device: device,
        icon: Some("mdi:flag"@),
        device_class: None,
        unit_of_measurement: None,
        value_template: Some(template),
        payload_on: Some("on"@),
        payload_off: Some("off"@),
    }
}

/// The five derived flag indicators, in emission order.
pub open spec fn spec_flags(device: DeviceView) -> Seq<DescView> {
    seq![
        spec_flag(
            "Yellow Flag"@,
            "{{ 'on' if 'Yellow' in value_json.SessionFlags else 'off' }}"@,
            "hairmqtt-yellow-flag"@,
            "yellow_flag"@,
            device,
        ),
        spec_flag(
            "White Flag"@,
            "{{ 'on' if 'White' in value_json.SessionFlags else 'off' }}"@,
            "hairmqtt-white-flag"@,
            "white_flag"@,
            device,
        ),
        spec_flag(
            "Green Flag"@,
            "{{ 'on' if 'Green' in value_json.SessionFlags else 'off' }}"@,
            "hairmqtt-green-flag"@,
            "green_flag"@,
            device,
        ),
        spec_flag(
            "Blue Flag"@,
            "{{ 'on' if 'Blue' in value_json.SessionFlags else 'off' }}"@,
            "hairmqtt-blue-flag"@,
            "blue_flag"@,
            device,
        ),
        spec_flag(
            "Checkered Flag"@,
            "{{ 'on' if 'Checkered' in value_json.SessionFlags else 'off' }}"@,
            "hairmqtt-checkered-flag"@,
            "checkered_flag"@,
            device,
        ),
    ]
}

/// The descriptors announced for a variable catalog: one sensor per
/// recognized runtime field that the catalog knows, then the five derived
/// flag indicators. This is a fixed, curated list, not every field of the
/// catalog.
pub open spec fn spec_discovery_descs(catalog: Seq<VarView>, device: DeviceView) -> Seq<
    DescView,
> {
    opt_seq(
        spec_var_sensor(
            catalog,
            device,
            "AirTemp"@,
            None,
            Some("temperature"@),
            Some("mdi:thermometer"@),
            None,
            Some("{{ value_json.AirTemp | float | round(2) }}"@),
        ),
    ) + opt_seq(
        spec_var_sensor(
            catalog,
            device,
            "TrackTempCrew"@,
            Some("Track Temperature"@),
            Some("temperature"@),
            Some("mdi:thermometer"@),
            None,
            Some("{{ value_json.TrackTempCrew | float | round(2) }}"@),
        ),
    ) + opt_seq(
        spec_var_sensor(
            catalog,
            device,
            "WindDir"@,
            None,
            None,
            None,
            Some(Some("degrees"@)),
            Some("{{ (value_json.WindDir | float * 180 / pi) | float | round(2)}}"@),
        ),
    ) + opt_seq(
        spec_var_sensor(
            catalog,
            device,
            "WindVel"@,
            None,
            None,
            None,
            Some(Some("km/h"@)),
            Some("{{ (value_json.WindVel | float * 3.6) | round(2)}}"@),
        ),
    ) + opt_seq(spec_on_track_sensor(catalog, device)) + opt_seq(
        spec_var_sensor(catalog, device, "Lap"@, None, None, Some("mdi:counter"@), None, None),
    ) + opt_seq(
        spec_var_sensor(
            catalog,
            device,
            "SessionState"@,
            None,
            None,
            Some("mdi:state-machine"@),
            Some(None),
            None,
        ),
    ) + opt_seq(
        spec_var_sensor(
            catalog,
            device,
            "PlayerCarClassPosition"@,
            None,
            None,
            Some("mdi:podium"@),
            None,
            None,
        ),
    ) + opt_seq(
        spec_var_sensor(
            catalog,
            device,
            "TrackWetness"@,
            None,
            None,
            Some("mdi:weather-rainy"@),
            Some(None),
            None,
        ),
    ) + opt_seq(
        spec_var_sensor(
            catalog,
            device,
            "SolarAzimuth"@,
            None,
            None,
            Some("mdi:sun-compass"@),
            Some(Some("degrees"@)),
            Some("{{ (value_json.SolarAzimuth | float * 180 / pi) | float | round(2)}}"@),
        ),
    ) + opt_seq(
        spec_var_sensor(
            catalog,
            device,
            "SolarAltitude"@,
            None,
            None,
            Some("mdi:sun-angle"@),
            Some(Some("degrees"@)),
            Some("{{ (value_json.SolarAltitude | float * 180 / pi) | float | round(2)}}"@),
        ),
    ) + spec_flags(device)
}

/// Builds one recognized runtime-field sensor, when the catalog knows the
/// field, and appends it.
#[verifier::rlimit(60)]
fn push_var_sensor(
    descs: &mut Vec<EntityDescriptor>,
    var_headers: &VarCatalog,
    device: &Device,
    field: &str,
    display: Option<&str>,
    device_class: Option<&str>,
    icon: Option<&str>,
    unit: Option<Option<&str>>,
    template: Option<&str>,
)
    ensures
        descs_view(final(descs)@) == descs_view(old(descs)@) + opt_seq(
            spec_var_sensor(
                var_headers@,
                device@,
                field@,
                opt_str_view(display),
                opt_str_view(device_class),
                opt_str_view(icon),
                opt_unit_view(unit),
                opt_str_view(template),
            ),
        ),
{
    let found = var_headers.get(field);
    match found {
        Some(var) => {
            let mut b = SensorBuilder::new_var(var, TELEMETRY_STATE, device);
            b = match display {
                Some(d) => b.with_name(d),
                None => b,
            };
            b = match device_class {
                Some(d) => b.with_device_class(d),
                None => b,
            };
            b = match icon {
                Some(ic) => b.with_icon(ic),
                None => b,
            };
            b = match unit {
                Some(u) => b.with_unit_of_measurement(u),
                None => b,
            };
            b = match template {
                Some(t) => b.with_value_tempate(t),
                None => b,
            };
            descs.push(b.build());
            proof {
                assert(descs_view(descs@) =~= descs_view(old(descs)@) + opt_seq(
                    spec_var_sensor(
                        var_headers@,
                        device@,
                        field@,
                        opt_str_view(display),
                        opt_str_view(device_class),
                        opt_str_view(icon),
                        opt_unit_view(unit),
                        opt_str_view(template),
                    ),
                ));
            }
        },
        None => {
            proof {
                assert(descs_view(descs@) =~= descs_view(descs@) + opt_seq(
                    spec_var_sensor(
                        var_headers@,
                        device@,
                        field@,
                        opt_str_view(display),
                        opt_str_view(device_class),
                        opt_str_view(icon),
                        opt_unit_view(unit),
                        opt_str_view(template),
                    ),
                ));
            }
        },
    }
}

/// Builds the on-track flag indicator, when the catalog knows the field,
/// and appends it.
fn push_on_track(descs: &mut Vec<EntityDescriptor>, var_headers: &VarCatalog, device: &Device)
    ensures
        descs_view(final(descs)@) == descs_view(old(descs)@) + opt_seq(
            spec_on_track_sensor(var_headers@, device@),
        ),
{
    let found = var_headers.get("IsOnTrack");
    match found {
        Some(var) => {
            let sensor = BinarySensorBuilder::new_var(var, TELEMETRY_STATE, device).with_icon(
                "mdi:go-kart-track",
            ).with_payload_on("on").with_payload_off("off").with_value_tempate(
                "{{ 'on' if value_json.IsOnTrack == true else 'off' }}",
            ).build();
            descs.push(sensor);
            proof {
                assert(descs_view(descs@) =~= descs_view(old(descs)@) + opt_seq(
                    spec_on_track_sensor(var_headers@, device@),
                ));
            }
        },
        None => {
            proof {
                assert(descs_view(descs@) =~= descs_view(descs@) + opt_seq(
                    spec_on_track_sensor(var_headers@, device@),
                ));
            }
        },
    }
}

/// Builds one derived flag indicator.
fn flag_descriptor(
    display: &str,
    template: &str,
    unique_id: &str,
    object_id: &str,
    device: &Device,
) -> (r: EntityDescriptor)
    ensures
        r@ == spec_flag(display@, template@, unique_id@, object_id@, device@),
{
    EntityDescriptor {
        kind: EntityKind::BinarySensor,
        state_topic: String::from_str(TELEMETRY_STATE),
        name: Some(String::from_str(display)),
        unique_id: String::from_str(unique_id),
        object_id: String::from_str(object_id),
        expire_after: Some(5),
        device: device.replicate(),
        icon: Some(String::from_str("mdi:flag")),
        device_class: None,
        unit_of_measurement: None,
        value_template: Some(String::from_str(template)),
        payload_on: Some(String::from_str("on")),
        payload_off: Some(String::from_str("off")),
    }
}

/// The descriptors announced for a variable catalog, as executable values.
fn discovery_descriptors(var_headers: &VarCatalog, device: &Device) -> (r: Vec<EntityDescriptor>)
    ensures
        descs_view(r@) == spec_discovery_descs(var_headers@, device@),
{
    let mut descs: Vec<EntityDescriptor> = Vec::new();
    proof {
        assert(descs_view(descs@) =~= Seq::<DescView>::empty());
    }
    push_var_sensor(
        &mut descs,
        var_headers,
        device,
        "AirTemp",
        None,
        Some("temperature"),
        Some("mdi:thermometer"),
        None,
        Some("{{ value_json.AirTemp | float | round(2) }}"),
    );
    push_var_sensor(
        &mut descs,
        var_headers,
        device,
        "TrackTempCrew",
        Some("Track Temperature"),
        Some("temperature"),
        Some("mdi:thermometer"),
        None,
        Some("{{ value_json.TrackTempCrew | float | round(2) }}"),
    );
    push_var_sensor(
        &mut descs,
        var_headers,
        device,
        "WindDir",
        None,
        None,
        None,
        Some(Some("degrees")),
        Some("{{ (value_json.WindDir | float * 180 / pi) | float | round(2)}}"),
    );
    push_var_sensor(
        &mut descs,
        var_headers,
        device,
        "WindVel",
        None,
        None,
        None,
        Some(Some("km/h")),
        Some("{{ (value_json.WindVel | float * 3.6) | round(2)}}"),
    );
    push_on_track(&mut descs, var_headers, device);
    push_var_sensor(
        &mut descs,
        var_headers,
        device,
        "Lap",
        None,
        None,
        Some("mdi:counter"),
        None,
        None,
    );
    push_var_sensor(
        &mut descs,
        var_headers,
        device,
        "SessionState",
        None,
        None,
        Some("mdi:state-machine"),
        Some(None),
        None,
    );
    push_var_sensor(
        &mut descs,
        var_headers,
        device,
        "PlayerCarClassPosition",
        None,
        None,
        Some("mdi:podium"),
        None,
        None,
    );
    push_var_sensor(
        &mut descs,
        var_headers,
        device,
        "TrackWetness",
        None,
        None,
        Some("mdi:weather-rainy"),
        Some(None),
        None,
    );
    push_var_sensor(
        &mut descs,
        var_headers,
        device,
        "SolarAzimuth",
        None,
        None,
        Some("mdi:sun-compass"),
        Some(Some("degrees")),
        Some("{{ (value_json.SolarAzimuth | float * 180 / pi) | float | round(2)}}"),
    );
    push_var_sensor(
        &mut descs,
        var_headers,
        device,
        "SolarAltitude",
        None,
        None,
        Some("mdi:sun-angle"),
        Some(Some("degrees")),
        Some("{{ (value_json.SolarAltitude | float * 180 / pi) | float | round(2)}}"),
    );
    descs.push(
        flag_descriptor(
            "Yellow Flag",
            "{{ 'on' if 'Yellow' in value_json.SessionFlags else 'off' }}",
            "hairmqtt-yellow-flag",
            "yellow_flag",
            device,
        ),
    );
    descs.push(
        flag_descriptor(
            "White Flag",
            "{{ 'on' if 'White' in value_json.SessionFlags else 'off' }}",
            "hairmqtt-white-flag",
            "white_flag",
            device,
        ),
    );
    descs.push(
        flag_descriptor(
            "Green Flag",
            "{{ 'on' if 'Green' in value_json.SessionFlags else 'off' }}",
            "hairmqtt-green-flag",
            "green_flag",
            device,
        ),
    );
    descs.push(
        flag_descriptor(
            "Blue Flag",
            "{{ 'on' if 'Blue' in value_json.SessionFlags else 'off' }}",
            "hairmqtt-blue-flag",
            "blue_flag",
            device,
        ),
    );
    descs.push(
        flag_descriptor(
            "Checkered Flag",
            "{{ 'on' if 'Checkered' in value_json.SessionFlags else 'off' }}",
            "hairmqtt-checkered-flag",
            "checkered_flag",
            device,
        ),
    );
    proof {
        assert(descs_view(descs@) =~= spec_discovery_descs(var_headers@, device@));
    }
    descs
}

/// Whether a prepared batch carries exactly the topics and payloads of the
/// given descriptors, pair by pair.
pub open spec fn batch_matches(batch: Seq<DiscoveryPrepPacket>, descs: Seq<DescView>) -> bool {
    &&& batch.len() == descs.len()
    &&& forall|i: int|
        0 <= i < batch.len() ==> {
            &&& (#[trigger] batch[i]).0@ == spec_config_topic(descs[i])
            &&& batch[i].1 is Ok
            &&& batch[i].1->Ok_0@ == vstd::utf8::encode_utf8(json_of_descriptor(descs[i]))
        }
}

/// Prepares a list of descriptors into (topic, payload) pairs, each pair
/// serialized independently of the others.
fn prepare_batch(descs: Vec<EntityDescriptor>) -> (r: Vec<DiscoveryPrepPacket>)
    ensures
        batch_matches(r@, descs_view(descs@)),
{
    let ghost all = descs@;
    let mut rest = descs;
    let mut out: Vec<DiscoveryPrepPacket> = Vec::new();
    proof {
        assert(rest@ =~= all.skip(0));
    }
    let ghost mut i: int = 0;
    while rest.len() > 0
        invariant
            0 <= i <= all.len(),
            rest@ =~= all.skip(i),
            out@.len() == i,
            forall|k: int|
                0 <= k < i ==> {
                    &&& (#[trigger] out@[k]).0@ == spec_config_topic(descs_view(all)[k])
                    &&& out@[k].1 is Ok
                    &&& out@[k].1->Ok_0@ == vstd::utf8::encode_utf8(
                        json_of_descriptor(descs_view(all)[k]),
                    )
                },
        decreases rest@.len(),
    {
        let item = rest.remove(0);
        proof {
            assert(item == all[i]);
            assert(rest@ =~= all.skip(i + 1));
            assert(descs_view(all)[i] == all[i]@);
        }
        out.push(prepare_payload(item));
        proof {
            i = i + 1;
        }
    }
    out
}

/// The pairs announced for a variable catalog: the curated descriptors,
/// each converted to its config topic and serialized payload.
pub fn discovery_packet(var_headers: &VarCatalog, device: &Device) -> (r: Vec<
    DiscoveryPrepPacket,
>)
    ensures
        batch_matches(r@, spec_discovery_descs(var_headers@, device@)),
{
    prepare_batch(discovery_descriptors(var_headers, device))
}

/// The connectivity indicator: a binary sensor over the connectivity flag
/// topic, with no expiry.
pub open spec fn spec_connection_desc(device: DeviceView) -> DescView {
    DescView {
        kind: EntityKind::BinarySensor,
        state_topic: CONNECTED_STATE@,
        name: Some("Connection"@),
        unique_id: "hairmqtt-connection"@,
        object_id: "connection"@,
        expire_after: None,
        device: device,
        icon: Some("mdi:connection"@),
        device_class: None,
        unit_of_measurement: None,
        value_template: None,
        payload_on: Some("connected"@),
        payload_off: Some("disconnected"@),
    }
}

/// The fixed session-scoped descriptors: driver identity, car setup name,
/// track name, and the connectivity indicator.
pub open spec fn spec_session_descs(driver_idx: int, device: DeviceView) -> Seq<DescView> {
    seq![
        DescView {
            icon: Some("mdi:account"@),
            ..spec_sensor_session("DriverCarIdx"@, SESSION_STATE@, device, driver_idx)
        },
        DescView {
            icon: Some("mdi:cog"@),
            ..spec_sensor_session("DriverSetupName"@, SESSION_STATE@, device, driver_idx)
        },
        DescView {
            icon: Some("mdi:go-kart-track"@),
            ..spec_sensor_session("TrackName"@, SESSION_STATE@, device, 3)
        },
        spec_connection_desc(device),
    ]
}

/// The pairs announced once per session: the fixed session-scoped
/// descriptors, each converted to its config topic and serialized payload.
pub fn session_discovery_packet(session: &SessionIdentity, device: &Device) -> (r: Vec<
    DiscoveryPrepPacket,
>)
    ensures
        batch_matches(r@, spec_session_descs(session.driver_car_idx as int, device@)),
{
    let mut descs: Vec<EntityDescriptor> = Vec::new();
    descs.push(
        SensorBuilder::new_session(session, "DriverCarIdx", SESSION_STATE, device, None)
            .with_icon("mdi:account").build(),
    );
    descs.push(
        SensorBuilder::new_session(session, "DriverSetupName", SESSION_STATE, device, None)
            .with_icon("mdi:cog").build(),
    );
    descs.push(
        SensorBuilder::new_session(session, "TrackName", SESSION_STATE, device, Some(3))
            .with_icon("mdi:go-kart-track").build(),
    );
    descs.push(
        EntityDescriptor {
            kind: EntityKind::BinarySensor,
            state_topic: String::from_str(CONNECTED_STATE),
            name: Some(String::from_str("Connection")),
            unique_id: String::from_str("hairmqtt-connection"),
            object_id: String::from_str("connection"),
            expire_after: None,
            device: device.replicate(),
            icon: Some(String::from_str("mdi:connection")),
            device_class: None,
            unit_of_measurement: None,
            value_template: None,
            payload_on: Some(String::from_str("connected")),
            payload_off: Some(String::from_str("disconnected")),
        },
    );
    proof {
        assert(descs_view(descs@) =~= spec_session_descs(
            session.driver_car_idx as int,
            device@,
        ));
    }
    prepare_batch(descs)
}

/// The discovery state of one link: the cached variable catalog, if one has
/// arrived, and whether the session descriptors were already announced.
pub ghost struct PipeView {
    pub catalog: Option<Seq<VarView>>,
    pub announced: bool,
}

/// The state after a link loss: no catalog is held and nothing counts as
/// announced, so the next connection re-announces everything.
pub open spec fn spec_on_disconnect(s: PipeView) -> PipeView {
    PipeView { catalog: None, announced: false }
}

/// The state after a variable catalog arrives: the catalog is cached; the
/// announced flag is untouched.
pub open spec fn spec_on_variable_headers(s: PipeView, catalog: Seq<VarView>) -> PipeView {
    PipeView { catalog: Some(catalog), announced: s.announced }
}

/// The state after a session document arrives: announced from then on.
pub open spec fn spec_on_session(s: PipeView) -> PipeView {
    PipeView { catalog: s.catalog, announced: true }
}

/// What a session document emission carries: the full session descriptor
/// set the first time in a link, and nothing once announced.
pub open spec fn spec_session_emission(s: PipeView, driver_idx: int, device: DeviceView) -> Seq<
    DescView,
> {
    if s.announced {
        Seq::empty()
    } else {
        spec_session_descs(driver_idx, device)
    }
}

/// The per-link discovery pipeline: owns the device identity, the cached
/// catalog and the announced flag, and decides what each telemetry event
/// emits.
pub struct DiscoveryPipeline {
    pub device: Device,
    pub catalog: Option<VarCatalog>,
    pub announced: bool,
}

impl View for DiscoveryPipeline {
    type V = PipeView;

    open spec fn view(&self) -> PipeView {
        PipeView {
            catalog: match self.catalog {
                Some(c) => Some(c@),
                None => None,
            },
            announced: self.announced,
        }
    }
}

impl DiscoveryPipeline {
    /// A fresh pipeline for a new link: disconnected, nothing announced.
    pub fn new(device: Device) -> (r: DiscoveryPipeline)
        ensures
            r@ == (PipeView { catalog: None, announced: false }),
            r.device == device,
    {
        DiscoveryPipeline { device, catalog: None, announced: false }
    }

    /// Handles a variable-catalog update: caches the catalog and emits one
    /// descriptor per recognized runtime field plus the derived flag
    /// indicators, unconditionally on every catalog update.
    pub fn on_variable_headers(&mut self, var_headers: VarCatalog) -> (r: Vec<
        DiscoveryPrepPacket,
    >)
        ensures
            final(self)@ == spec_on_variable_headers(old(self)@, var_headers@),
            final(self).device == old(self).device,
            batch_matches(r@, spec_discovery_descs(var_headers@, old(self).device@)),
    {
        let batch = discovery_packet(&var_headers, &self.device);
        self.catalog = Some(var_headers);
        batch
    }

    /// Handles a session document: emits the fixed session descriptor set
    /// the first time a session document arrives in this link, and nothing
    /// afterwards; the flag flips to announced exactly then.
    pub fn on_session(&mut self, session: &SessionIdentity) -> (r: Vec<DiscoveryPrepPacket>)
        ensures
            final(self)@ == spec_on_session(old(self)@),
            final(self).device == old(self).device,
            batch_matches(
                r@,
                spec_session_emission(
                    old(self)@,
                    session.driver_car_idx as int,
                    old(self).device@,
                ),
            ),
    {
        if self.announced {
            let r: Vec<DiscoveryPrepPacket> = Vec::new();
            proof {
                assert(r@.len() == 0);
            }
            r
        } else {
            let batch = session_discovery_packet(session, &self.device);
            self.announced = true;
            batch
        }
    }

    /// Handles a link loss: clears the catalog and resets the announced
    /// flag, so the next connection re-announces everything.
    pub fn on_disconnect(&mut self)
        ensures
            final(self)@ == spec_on_disconnect(old(self)@),
            final(self).device == old(self).device,
    {
        self.catalog = None;
        self.announced = false;
    }
}

/// Announcing is idempotent within one link: however many session documents
/// arrive after the first, only the first emission carries the descriptor
/// set; every later one is empty.
pub proof fn lemma_announce_once(s: PipeView, idx1: int, idx2: int, device: DeviceView)
    ensures
        !s.announced ==> spec_session_emission(s, idx1, device) == spec_session_descs(
            idx1,
            device,
        ),
        spec_session_emission(spec_on_session(s), idx2, device) == Seq::<DescView>::empty(),
{
}

/// A disconnect resets the link: afterwards a variable catalog emits the
/// full curated set again, and the next session document emits the full
/// session set again, whether or not they had been announced before.
pub proof fn lemma_disconnect_reannounces(
    s: PipeView,
    catalog: Seq<VarView>,
    idx: int,
    device: DeviceView,
)
    ensures
        spec_session_emission(spec_on_disconnect(s), idx, device) == spec_session_descs(
            idx,
            device,
        ),
        spec_session_emission(
            spec_on_variable_headers(spec_on_disconnect(s), catalog),
            idx,
            device,
        ) == spec_session_descs(idx, device),
        spec_on_variable_headers(spec_on_disconnect(s), catalog).catalog == Some(catalog),
{
}

} // verus!
