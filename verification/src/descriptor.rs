//! Discovery descriptors: immutable value objects describing one
//! discoverable sensor, and the fluent builders that construct them.

use vstd::prelude::*;

verus! {

/// The device every entity is grouped under on the hub.
pub struct Device {
    pub name: String,
    pub manufacturer: String,
    pub sw_version: String,
    pub identifiers: Vec<String>,
}

/// The mathematical content of a device block.
pub ghost struct DeviceView {
    pub name: Seq<char>,
    pub manufacturer: Seq<char>,
    pub sw_version: Seq<char>,
    pub identifiers: Seq<Seq<char>>,
}

impl View for Device {
    type V = DeviceView;

    open spec fn view(&self) -> DeviceView {
        DeviceView {
            name: self.name@,
            manufacturer: self.manufacturer@,
            sw_version: self.sw_version@,
            identifiers: self.identifiers.deep_view(),
        }
    }
}

impl Device {
    /// Builds a device block from its parts.
    pub fn new(name: &str, manufacturer: &str, sw_version: &str, identifier: &str) -> (d: Device)
        ensures
            d@ == (DeviceView {
                name: name@,
                manufacturer: manufacturer@,
                sw_version: sw_version@,
                identifiers: seq![identifier@],
            }),
    {
        let mut identifiers: Vec<String> = Vec::new();
        identifiers.push(String::from_str(identifier));
        let d = Device {
            name: String::from_str(name),
            manufacturer: String::from_str(manufacturer),
            sw_version: String::from_str(sw_version),
            identifiers,
        };
        proof {
            assert(d.identifiers.deep_view() =~= seq![identifier@]);
        }
        d
    }

    /// A copy of this device block with the same content.
    pub fn replicate(&self) -> (d: Device)
        ensures
            d@ == self@,
    {
        let mut identifiers: Vec<String> = Vec::new();
        let mut i: usize = 0;
        while i < self.identifiers.len()
            invariant
                i <= self.identifiers@.len(),
                identifiers@.len() == i,
                forall|k: int| 0 <= k < i ==> identifiers@[k]@ == self.identifiers@[k]@,
            decreases self.identifiers@.len() - i,
        {
            identifiers.push(self.identifiers[i].clone());
            i = i + 1;
        }
        proof {
            assert(identifiers.deep_view() =~= self.identifiers.deep_view());
        }
        Device {
            name: self.name.clone(),
            manufacturer: self.manufacturer.clone(),
            sw_version: self.sw_version.clone(),
            identifiers,
        }
    }
}

/// Which kind of entity a descriptor announces.
#[derive(Clone, Copy, PartialEq, Eq, Structural)]
pub enum EntityKind {
    Sensor,
    BinarySensor,
}

/// A variable header from the live telemetry catalog: the field's name and
/// its physical unit, both intrinsic to the field.
pub struct VarHeader {
    pub name: String,
    pub unit: String,
}

/// The mathematical content of a variable header.
pub ghost struct VarView {
    pub name: Seq<char>,
    pub unit: Seq<char>,
}

impl View for VarHeader {
    type V = VarView;

    open spec fn view(&self) -> VarView {
        VarView { name: self.name@, unit: self.unit@ }
    }
}

impl VarHeader {
    /// Builds a variable header from its name and unit.
    pub fn new(name: &str, unit: &str) -> (v: VarHeader)
        ensures
            v@ == (VarView { name: name@, unit: unit@ }),
    {
        VarHeader { name: String::from_str(name), unit: String::from_str(unit) }
    }

    /// The field's name.
    pub fn name(&self) -> (r: &str)
        ensures
            r@ == self.name@,
    {
        self.name.as_str()
    }

    /// The field's physical unit.
    pub fn units(&self) -> (r: &str)
        ensures
            r@ == self.unit@,
    {
        self.unit.as_str()
    }
}

/// The session fields a descriptor build reads: the identity of the
/// participant slot driven by this session.
pub struct SessionIdentity {
    pub driver_car_idx: usize,
}

/// An immutable description of one discoverable sensor.
pub struct EntityDescriptor {
    pub kind: EntityKind,
    pub state_topic: String,
    pub name: Option<String>,
    pub unique_id: String,
    pub object_id: String,
    pub expire_after: Option<u32>,
    pub device: Device,
    pub icon: Option<String>,
    pub device_class: Option<String>,
    pub unit_of_measurement: Option<String>,
    pub value_template: Option<String>,
    pub payload_on: Option<String>,
    pub payload_off: Option<String>,
}

/// The mathematical content of a descriptor.
pub ghost struct DescView {
    pub kind: EntityKind,
    pub state_topic: Seq<char>,
    pub name: Option<Seq<char>>,
    pub unique_id: Seq<char>,
    pub object_id: Seq<char>,
    pub expire_after: Option<u32>,
    pub device: DeviceView,
    pub icon: Option<Seq<char>>,
    pub device_class: Option<Seq<char>>,
    pub unit_of_measurement: Option<Seq<char>>,
    pub value_template: Option<Seq<char>>,
    pub payload_on: Option<Seq<char>>,
    pub payload_off: Option<Seq<char>>,
}

impl View for EntityDescriptor {
    type V = DescView;

    open spec fn view(&self) -> DescView {
        DescView {
            kind: self.kind,
            state_topic: self.state_topic@,
            name: self.name.deep_view(),
            unique_id: self.unique_id@,
            object_id: self.object_id@,
            expire_after: self.expire_after,
            device: self.device@,
            icon: self.icon.deep_view(),
            device_class: self.device_class.deep_view(),
            unit_of_measurement: self.unit_of_measurement.deep_view(),
            value_template: self.value_template.deep_view(),
            payload_on: self.payload_on.deep_view(),
            payload_off: self.payload_off.deep_view(),
        }
    }
}

/// The extraction template embedding a field reference in the documented
/// double-brace templating syntax.
pub open spec fn template_for(field: Seq<char>) -> Seq<char> {
    "{{ value_json."@ + field + " }}"@
}

/// The stable unique id derived from a field name.
pub open spec fn unique_id_for(field: Seq<char>) -> Seq<char> {
    "hairmqtt-"@ + field
}

/// Builds the extraction template for a field reference.
pub fn make_template(field: &str) -> (r: String)
    ensures
        r@ == template_for(field@),
{
    String::from_str("{{ value_json.").concat(field).concat(" }}")
}

/// Builds the unique id for a field name.
pub fn make_unique_id(field: &str) -> (r: String)
    ensures
        r@ == unique_id_for(field@),
{
    String::from_str("hairmqtt-").concat(field)
}

/// The descriptor a runtime-field sensor starts from: identity derived from
/// the field name, the field's own unit, a direct field reference as
/// extraction template, and a fifteen-unit expiry.
pub open spec fn spec_sensor_var(var: VarView, state_topic: Seq<char>, device: DeviceView)
    -> DescView {
    DescView {
        kind: EntityKind::Sensor,
        state_topic: state_topic,
        name: Some(var.name),
        unique_id: unique_id_for(var.name),
        object_id: var.name,
        expire_after: Some(15u32),
        device: device,
        icon: None,
        device_class: None,
        unit_of_measurement: Some(var.unit),
        value_template: Some(template_for(var.name)),
        payload_on: None,
        payload_off: None,
    }
}

/// The descriptor a session-field sensor starts from: identity derived from
/// the field name, a sixty-unit expiry, and an extraction template only
/// when the field's dotted path resolves inside the default session schema.
pub open spec fn spec_sensor_session(
    var_name: Seq<char>,
    state_topic: Seq<char>,
    device: DeviceView,
    idx: int,
) -> DescView {
    DescView {
        kind: EntityKind::Sensor,
        state_topic: state_topic,
        name: Some(var_name),
        unique_id: unique_id_for(var_name),
        object_id: var_name,
        expire_after: Some(60u32),
        device: device,
        icon: None,
        device_class: None,
        unit_of_measurement: None,
        value_template: match crate::schema::spec_resolve(
            crate::schema::default_session_shape(),
            var_name,
            idx,
        ) {
            Some(p) => Some(template_for(p)),
            None => None,
        },
        payload_on: None,
        payload_off: None,
    }
}

/// The descriptor a runtime-field binary sensor starts from: identity
/// derived from the field name, a direct field reference as extraction
/// template, and a ten-unit expiry.
pub open spec fn spec_binary_var(var: VarView, state_topic: Seq<char>, device: DeviceView)
    -> DescView {
    DescView {
        kind: EntityKind::BinarySensor,
        state_topic: state_topic,
        name: Some(var.name),
        unique_id: unique_id_for(var.name),
        object_id: var.name,
        expire_after: Some(10u32),
        device: device,
        icon: None,
        device_class: None,
        unit_of_measurement: None,
        value_template: Some(template_for(var.name)),
        payload_on: None,
        payload_off: None,
    }
}

/// The descriptor a session-field binary sensor starts from: a fifteen-unit
/// expiry, and an extraction template only when the field's dotted path
/// resolves inside the default session schema.
pub open spec fn spec_binary_session(
    var_name: Seq<char>,
    state_topic: Seq<char>,
    device: DeviceView,
    idx: int,
) -> DescView {
    DescView {
        kind: EntityKind::BinarySensor,
        state_topic: state_topic,
        name: Some(var_name),
        unique_id: unique_id_for(var_name),
        object_id: var_name,
        expire_after: Some(15u32),
        device: device,
        icon: None,
        device_class: None,
        unit_of_measurement: None,
        value_template: match crate::schema::spec_resolve(
            crate::schema::default_session_shape(),
            var_name,
            idx,
        ) {
            Some(p) => Some(template_for(p)),
            None => None,
        },
        payload_on: None,
        payload_off: None,
    }
}

/// Fluent construction of a sensor descriptor. Every mutator returns the
/// updated builder; `build` finalizes into the immutable descriptor.
pub struct SensorBuilder {
    pub item: EntityDescriptor,
}

impl SensorBuilder {
    /// Starts a descriptor for a field of the live variable catalog.
    pub fn new_var(var: &VarHeader, state_topic: &str, device: &Device) -> (r: Self)
        ensures
            r.item@ == spec_sensor_var(var@, state_topic@, device@),
    {
        let item = EntityDescriptor {
            kind: EntityKind::Sensor,
            state_topic: String::from_str(state_topic),
            name: Some(var.name.clone()),
            unique_id: make_unique_id(var.name.as_str()),
            object_id: var.name.clone(),
            expire_after: Some(15),
            device: device.replicate(),
            icon: None,
            device_class: None,
            unit_of_measurement: Some(var.unit.clone()),
            value_template: Some(make_template(var.name.as_str())),
            payload_on: None,
            payload_off: None,
        };
        SensorBuilder { item }
    }

    /// Starts a descriptor for a field of the session document. The dotted
    /// path is resolved against the default session schema, at the given
    /// array index if one is supplied and at the session's own participant
    /// slot otherwise; when no path is found the descriptor carries no
    /// extraction template.
    pub fn new_session(
        session: &SessionIdentity,
        var_name: &str,
        state_topic: &str,
        device: &Device,
        array_idx: Option<usize>,
    ) -> (r: Self)
        ensures
            r.item@ == spec_sensor_session(
                var_name@,
                state_topic@,
                device@,
                (match array_idx {
                    Some(i) => i,
                    None => session.driver_car_idx,
                }) as int,
            ),
    {
        let idx = match array_idx {
            Some(i) => i,
            None => session.driver_car_idx,
        };
        let value_template = match crate::schema::determine_dot_path(var_name, idx) {
            Some(path) => Some(make_template(path.as_str())),
            None => None,
        };
        let item = EntityDescriptor {
            kind: EntityKind::Sensor,
            state_topic: String::from_str(state_topic),
            name: Some(String::from_str(var_name)),
            unique_id: make_unique_id(var_name),
            object_id: String::from_str(var_name),
            expire_after: Some(60),
            device: device.replicate(),
            icon: None,
            device_class: None,
            unit_of_measurement: None,
            value_template,
            payload_on: None,
            payload_off: None,
        };
        SensorBuilder { item }
    }

    /// Sets the device classification.
    pub fn with_device_class(self, device_class: &str) -> (r: Self)
        ensures
            r.item@ == (DescView { device_class: Some(device_class@), ..self.item@ }),
    {
        let mut b = self;
        b.item.device_class = Some(String::from_str(device_class));
        b
    }

    /// Sets the display icon.
    pub fn with_icon(self, icon: &str) -> (r: Self)
        ensures
            r.item@ == (DescView { icon: Some(icon@), ..self.item@ }),
    {
        let mut b = self;
        b.item.icon = Some(String::from_str(icon));
        b
    }

    /// Sets the extraction template to a reference to the given location.
    pub fn with_template_location(self, template_location: &str) -> (r: Self)
        ensures
            r.item@ == (DescView {
                value_template: Some(template_for(template_location@)),
                ..self.item@
            }),
    {
        let mut b = self;
        b.item.value_template = Some(make_template(template_location));
        b
    }

    /// Sets or clears the physical unit; cleared for fields whose
    /// representation is not directly renderable.
    pub fn with_unit_of_measurement(self, unit: Option<&str>) -> (r: Self)
        ensures
            r.item@ == (DescView {
                unit_of_measurement: match unit {
                    Some(u) => Some(u@),
                    None => None,
                },
                ..self.item@
            }),
    {
        let mut b = self;
        b.item.unit_of_measurement = match unit {
            Some(u) => Some(String::from_str(u)),
            None => None,
        };
        b
    }

    /// Overrides the extraction template verbatim.
    pub fn with_value_tempate(self, template: &str) -> (r: Self)
        ensures
            r.item@ == (DescView { value_template: Some(template@), ..self.item@ }),
    {
        let mut b = self;
        b.item.value_template = Some(String::from_str(template));
        b
    }

    /// Sets the display name.
    pub fn with_name(self, name: &str) -> (r: Self)
        ensures
            r.item@ == (DescView { name: Some(name@), ..self.item@ }),
    {
        let mut b = self;
        b.item.name = Some(String::from_str(name));
        b
    }

    /// Finalizes the descriptor; no further mutation is possible afterward.
    pub fn build(self) -> (r: EntityDescriptor)
        ensures
            r == self.item,
    {
        self.item
    }
}

/// Fluent construction of a binary-sensor descriptor.
pub struct BinarySensorBuilder {
    pub item: EntityDescriptor,
}

impl BinarySensorBuilder {
    /// Starts a descriptor for a field of the live variable catalog.
    pub fn new_var(var: &VarHeader, state_topic: &str, device: &Device) -> (r: Self)
        ensures
            r.item@ == spec_binary_var(var@, state_topic@, device@),
    {
        let item = EntityDescriptor {
            kind: EntityKind::BinarySensor,
            state_topic: String::from_str(state_topic),
            name: Some(var.name.clone()),
            unique_id: make_unique_id(var.name.as_str()),
            object_id: var.name.clone(),
            expire_after: Some(10),
            device: device.replicate(),
            icon: None,
            device_class: None,
            unit_of_measurement: None,
            value_template: Some(make_template(var.name.as_str())),
            payload_on: None,
            payload_off: None,
        };
        BinarySensorBuilder { item }
    }

    /// Starts a descriptor for a field of the session document, resolved at
    /// the session's own participant slot.
    pub fn new_session(
        session: &SessionIdentity,
        var_name: &str,
        state_topic: &str,
        device: &Device,
    ) -> (r: Self)
        ensures
            r.item@ == spec_binary_session(
                var_name@,
                state_topic@,
                device@,
                session.driver_car_idx as int,
            ),
    {
        let value_template = match crate::schema::determine_dot_path(
            var_name,
            session.driver_car_idx,
        ) {
            Some(path) => Some(make_template(path.as_str())),
            None => None,
        };
        let item = EntityDescriptor {
            kind: EntityKind::BinarySensor,
            state_topic: String::from_str(state_topic),
            name: Some(String::from_str(var_name)),
            unique_id: make_unique_id(var_name),
            object_id: String::from_str(var_name),
            expire_after: Some(15),
            device: device.replicate(),
            icon: None,
            device_class: None,
            unit_of_measurement: None,
            value_template,
            payload_on: None,
            payload_off: None,
        };
        BinarySensorBuilder { item }
    }

    /// Sets the device classification.
    pub fn with_device_class(self, device_class: &str) -> (r: Self)
        ensures
            r.item@ == (DescView { device_class: Some(device_class@), ..self.item@ }),
    {
        let mut b = self;
        b.item.device_class = Some(String::from_str(device_class));
        b
    }

    /// Sets the display icon.
    pub fn with_icon(self, icon: &str) -> (r: Self)
        ensures
            r.item@ == (DescView { icon: Some(icon@), ..self.item@ }),
    {
        let mut b = self;
        b.item.icon = Some(String::from_str(icon));
        b
    }

    /// Sets the payload that renders as "on".
    pub fn with_payload_on(self, payload: &str) -> (r: Self)
        ensures
            r.item@ == (DescView { payload_on: Some(payload@), ..self.item@ }),
    {
        let mut b = self;
        b.item.payload_on = Some(String::from_str(payload));
        b
    }

    /// Sets the payload that renders as "off".
    pub fn with_payload_off(self, payload: &str) -> (r: Self)
        ensures
            r.item@ == (DescView { payload_off: Some(payload@), ..self.item@ }),
    {
        let mut b = self;
        b.item.payload_off = Some(String::from_str(payload));
        b
    }

    /// Overrides the extraction template verbatim.
    pub fn with_value_tempate(self, template: &str) -> (r: Self)
        ensures
            r.item@ == (DescView { value_template: Some(template@), ..self.item@ }),
    {
        let mut b = self;
        b.item.value_template = Some(String::from_str(template));
        b
    }

    /// Sets the display name.
    pub fn with_name(self, name: &str) -> (r: Self)
        ensures
            r.item@ == (DescView { name: Some(name@), ..self.item@ }),
    {
        let mut b = self;
        b.item.name = Some(String::from_str(name));
        b
    }

    /// Finalizes the descriptor; no further mutation is possible afterward.
    pub fn build(self) -> (r: EntityDescriptor)
        ensures
            r == self.item,
    {
        self.item
    }
}

} // verus!
