//! Wire payloads: the discovery-config topic of a descriptor, the JSON
//! rendering of a descriptor, and the preparation of a descriptor batch
//! into independent (topic, payload) pairs.

use vstd::prelude::*;

use crate::descriptor::{DescView, DeviceView, EntityDescriptor, EntityKind};

verus! {

/// The hex digit character for a value below sixteen.
pub open spec fn hex_char(d: int) -> char {
    if d < 10 {
        crate::text::digit_char(d)
    } else if d == 10 {
        'a'
    } else if d == 11 {
        'b'
    } else if d == 12 {
        'c'
    } else if d == 13 {
        'd'
    } else if d == 14 {
        'e'
    } else {
        'f'
    }
}

/// How one character renders inside a JSON string: quotes and backslashes
/// are escaped, control characters become a unicode escape, everything else
/// stands as it is.
pub open spec fn esc_char(c: char) -> Seq<char> {
    if c == '"' {
        seq!['\\', '"']
    } else if c == '\\' {
        seq!['\\', '\\']
    } else if (c as int) < 32 {
        seq!['\\', 'u', '0', '0', hex_char((c as int) / 16), hex_char((c as int) % 16)]
    } else {
        seq![c]
    }
}

/// The escaped body of a JSON string.
pub open spec fn json_escape(s: Seq<char>) -> Seq<char>
    decreases s.len(),
{
    if s.len() == 0 {
        Seq::empty()
    } else {
        json_escape(s.drop_last()) + esc_char(s.last())
    }
}

/// A JSON string: the escaped body between quotes.
pub open spec fn json_string(s: Seq<char>) -> Seq<char> {
    seq!['"'] + json_escape(s) + seq!['"']
}

/// An optional JSON object member: the given prefix (a comma, the quoted
/// key and a colon) followed by the string value, or nothing at all.
pub open spec fn opt_member(prefix: Seq<char>, v: Option<Seq<char>>) -> Seq<char> {
    match v {
        Some(s) => prefix + json_string(s),
        None => Seq::empty(),
    }
}

/// The JSON array of device identifiers.
pub open spec fn json_ids(ids: Seq<Seq<char>>) -> Seq<char>
    decreases ids.len(),
{
    if ids.len() == 0 {
        Seq::empty()
    } else if ids.len() == 1 {
        json_string(ids[0])
    } else {
        json_string(ids[0]) + seq![','] + json_ids(ids.drop_first())
    }
}

/// The JSON rendering of the device block.
pub open spec fn json_device(d: DeviceView) -> Seq<char> {
    "{\"identifiers\":["@ + json_ids(d.identifiers) + "],\"manufacturer\":"@ + json_string(
        d.manufacturer,
    ) + ",\"name\":"@ + json_string(d.name) + ",\"sw_version\":"@ + json_string(d.sw_version)
        + "}"@
}

/// The JSON rendering of a discovery descriptor: identity and display
/// metadata, the optional extraction template and payloads, the expiry
/// hint, and the device block. Optional members are simply absent.
pub open spec fn json_of_descriptor(d: DescView) -> Seq<char> {
    "{\"state_topic\":"@ + json_string(d.state_topic) + opt_member(",\"name\":"@, d.name)
        + ",\"unique_id\":"@ + json_string(d.unique_id) + ",\"object_id\":"@ + json_string(
        d.object_id,
    ) + opt_member(",\"device_class\":"@, d.device_class) + opt_member(",\"icon\":"@, d.icon)
        + opt_member(",\"unit_of_measurement\":"@, d.unit_of_measurement) + opt_member(
        ",\"value_template\":"@,
        d.value_template,
    ) + opt_member(",\"payload_on\":"@, d.payload_on) + opt_member(
        ",\"payload_off\":"@,
        d.payload_off,
    ) + (match d.expire_after {
        Some(n) => ",\"expire_after\":"@ + crate::text::dec_of(n as nat),
        None => Seq::empty(),
    }) + ",\"device\":"@ + json_device(d.device) + "}"@
}

/// The hex digit character for a value below sixteen, as a one-character
/// string slice.
fn hex_str(d: u32) -> (r: &'static str)
    requires
        d < 16,
    ensures
        r@ == seq![hex_char(d as int)],
{
    proof {
        reveal_strlit("0");
        reveal_strlit("1");
        reveal_strlit("2");
        reveal_strlit("3");
        reveal_strlit("4");
        reveal_strlit("5");
        reveal_strlit("6");
        reveal_strlit("7");
        reveal_strlit("8");
        reveal_strlit("9");
        reveal_strlit("a");
        reveal_strlit("b");
        reveal_strlit("c");
        reveal_strlit("d");
        reveal_strlit("e");
        reveal_strlit("f");
    }
    match d {
        0 => "0",
        1 => "1",
        2 => "2",
        3 => "3",
        4 => "4",
        5 => "5",
        6 => "6",
        7 => "7",
        8 => "8",
        9 => "9",
        10 => "a",
        11 => "b",
        12 => "c",
        13 => "d",
        14 => "e",
        _ => "f",
    }
}

/// Escapes a string for embedding in JSON.
#[verifier::loop_isolation(false)]
pub fn escape_json(s: &str) -> (r: String)
    ensures
        r@ == json_escape(s@),
{
    let n = s.unicode_len();
    let mut out = String::new();
    let mut i: usize = 0;
    while i < n
        invariant
            i <= n,
            n == s@.len(),
            out@ == json_escape(s@.take(i as int)),
        decreases n - i,
    {
        let c = s.get_char(i);
        if c == '"' {
            out.append("\\\"");
            proof {
                reveal_strlit("\\\"");
            }
        } else if c == '\\' {
            out.append("\\\\");
            proof {
                reveal_strlit("\\\\");
            }
        } else if (c as u32) < 32 {
            out.append("\\u00");
            proof {
                reveal_strlit("\\u00");
            }
            let v = c as u32;
            out.append(hex_str(v / 16));
            out.append(hex_str(v % 16));
        } else {
            let piece = s.substring_char(i, i + 1);
            out.append(piece);
        }
        proof {
            assert(s@.take(i + 1 as int).drop_last() =~= s@.take(i as int));
            assert(s@.take(i + 1 as int).last() == s@[i as int]);
            assert(out@ =~= json_escape(s@.take(i + 1 as int)));
        }
        i = i + 1;
    }
    proof {
        assert(s@.take(n as int) =~= s@);
    }
    out
}

/// Renders a JSON string.
pub fn json_string_of(s: &str) -> (r: String)
    ensures
        r@ == json_string(s@),
{
    let body = escape_json(s);
    let r = String::from_str("\"").concat(body.as_str()).concat("\"");
    proof {
        reveal_strlit("\"");
        assert(r@ =~= json_string(s@));
    }
    r
}

/// The discovery-config topic for a descriptor: a fixed prefix, the
/// entity's component kind, and its unique id, so that announcing the same
/// identity again overwrites rather than duplicates a prior registration.
pub open spec fn spec_config_topic(d: DescView) -> Seq<char> {
    "homeassistant/"@ + (match d.kind {
        EntityKind::Sensor => "sensor"@,
        EntityKind::BinarySensor => "binary_sensor"@,
    }) + "/"@ + d.unique_id + "/config"@
}

/// Renders the discovery-config topic for a descriptor.
pub fn config_topic(item: &EntityDescriptor) -> (r: String)
    ensures
        r@ == spec_config_topic(item@),
{
    let component = match item.kind {
        EntityKind::Sensor => "sensor",
        EntityKind::BinarySensor => "binary_sensor",
    };
    String::from_str("homeassistant/").concat(component).concat("/").concat(
        item.unique_id.as_str(),
    ).concat("/config")
}

/// Appends an optional JSON object member: nothing when the value is
/// absent, the prefix and the quoted value otherwise.
fn append_opt_member(out: &mut String, prefix: &str, v: &Option<String>)
    ensures
        final(out)@ == old(out)@ + opt_member(prefix@, v.deep_view()),
{
    match v {
        Some(s) => {
            out.append(prefix);
            let rendered = json_string_of(s.as_str());
            out.append(rendered.as_str());
        },
        None => {
            proof {
                assert(out@ =~= out@ + opt_member(prefix@, v.deep_view()));
            }
        },
    }
}

/// Appends a required JSON string member: the prefix and the quoted value.
fn append_member(out: &mut String, prefix: &str, v: &str)
    ensures
        final(out)@ == old(out)@ + prefix@ + json_string(v@),
{
    out.append(prefix);
    let rendered = json_string_of(v);
    out.append(rendered.as_str());
}

/// Renders a descriptor as JSON text.
pub fn render_descriptor(item: &EntityDescriptor) -> (r: String)
    ensures
        r@ == json_of_descriptor(item@),
{
    let mut out = String::from_str("{\"state_topic\":");
    out.append(json_string_of(item.state_topic.as_str()).as_str());
    append_opt_member(&mut out, ",\"name\":", &item.name);
    append_member(&mut out, ",\"unique_id\":", item.unique_id.as_str());
    append_member(&mut out, ",\"object_id\":", item.object_id.as_str());
    append_opt_member(&mut out, ",\"device_class\":", &item.device_class);
    append_opt_member(&mut out, ",\"icon\":", &item.icon);
    append_opt_member(&mut out, ",\"unit_of_measurement\":", &item.unit_of_measurement);
    append_opt_member(&mut out, ",\"value_template\":", &item.value_template);
    append_opt_member(&mut out, ",\"payload_on\":", &item.payload_on);
    append_opt_member(&mut out, ",\"payload_off\":", &item.payload_off);
    match item.expire_after {
        Some(n) => {
            out.append(",\"expire_after\":");
            let rendered = crate::text::decimal_string(n as usize);
            out.append(rendered.as_str());
        },
        None => {},
    }
    out.append(",\"device\":");
    out.append(render_device_block(&item.device).as_str());
    out.append("}");
    proof {
        assert(out@ =~= json_of_descriptor(item@));
    }
    out
}

/// Renders the identifier array's body from the given position on.
fn render_ids_from(ids: &Vec<String>, from: usize) -> (r: String)
    requires
        from <= ids@.len(),
    ensures
        r@ == json_ids(ids.deep_view().skip(from as int)),
    decreases ids@.len() - from,
{
    let ghost tail = ids.deep_view().skip(from as int);
    if from >= ids.len() {
        proof {
            assert(tail =~= Seq::<Seq<char>>::empty());
        }
        String::new()
    } else if from + 1 == ids.len() {
        proof {
            assert(tail.len() == 1);
            assert(tail[0] == ids@[from as int]@);
        }
        json_string_of(ids[from].as_str())
    } else {
        let rest = render_ids_from(ids, from + 1);
        let r = json_string_of(ids[from].as_str()).concat(",").concat(rest.as_str());
        proof {
            reveal_strlit(",");
            assert(tail[0] == ids@[from as int]@);
            assert(tail.drop_first() =~= ids.deep_view().skip(from + 1 as int));
            assert(r@ =~= json_ids(tail));
        }
        r
    }
}

/// Renders the device block as JSON text.
fn render_device_block(device: &crate::descriptor::Device) -> (r: String)
    ensures
        r@ == json_device(device@),
{
    let mut out = String::from_str("{\"identifiers\":[");
    proof {
        assert(device.identifiers.deep_view().skip(0) =~= device@.identifiers);
    }
    out.append(render_ids_from(&device.identifiers, 0).as_str());
    out.append("],\"manufacturer\":");
    out.append(json_string_of(device.manufacturer.as_str()).as_str());
    out.append(",\"name\":");
    out.append(json_string_of(device.name.as_str()).as_str());
    out.append(",\"sw_version\":");
    out.append(json_string_of(device.sw_version.as_str()).as_str());
    out.append("}");
    proof {
        assert(out@ =~= json_device(device@));
    }
    out
}

/// One prepared discovery message: the config topic, and the serialized
/// payload or the failure that took its place.
pub type DiscoveryPrepPacket = (String, Result<Vec<u8>, String>);

/// Prepares one descriptor for publication: its config topic and its JSON
/// payload, encoded as bytes.
pub fn prepare_payload(item: EntityDescriptor) -> (r: DiscoveryPrepPacket)
    ensures
        r.0@ == spec_config_topic(item@),
        r.1 matches Ok(b) && b@ == vstd::utf8::encode_utf8(json_of_descriptor(item@)),
{
    let topic = config_topic(&item);
    let body = render_descriptor(&item);
    (topic, Ok(body.as_str().as_bytes_vec()))
}

/// The pairs of a prepared batch whose serialization succeeded, in order.
pub open spec fn spec_publishable(batch: Seq<(String, Result<Vec<u8>, String>)>) -> Seq<
    (String, Vec<u8>),
>
    decreases batch.len(),
{
    if batch.len() == 0 {
        Seq::empty()
    } else {
        let rest = spec_publishable(batch.drop_first());
        match batch[0].1 {
            Ok(payload) => seq![(batch[0].0, payload)] + rest,
            Err(_) => rest,
        }
    }
}

/// How many pairs of a prepared batch failed serialization.
pub open spec fn spec_failed(batch: Seq<(String, Result<Vec<u8>, String>)>) -> nat
    decreases batch.len(),
{
    if batch.len() == 0 {
        0
    } else {
        (if batch[0].1 is Err {
            1nat
        } else {
            0nat
        }) + spec_failed(batch.drop_first())
    }
}

/// Selecting from entry `i` on handles entry `i` first.
proof fn lemma_publishable_skip(batch: Seq<(String, Result<Vec<u8>, String>)>, i: int)
    requires
        0 <= i < batch.len(),
    ensures
        spec_publishable(batch.skip(i)) == match batch[i].1 {
            Ok(payload) => seq![(batch[i].0, payload)] + spec_publishable(batch.skip(i + 1)),
            Err(_) => spec_publishable(batch.skip(i + 1)),
        },
{
    assert(batch.skip(i)[0] == batch[i]);
    assert(batch.skip(i).drop_first() =~= batch.skip(i + 1));
}

/// Keeps the messages of a prepared batch that serialized, in order. Each
/// pair is independent: a failed pair is skipped and never stops the rest
/// of the batch.
#[verifier::loop_isolation(false)]
pub fn publishable(batch: Vec<DiscoveryPrepPacket>) -> (r: Vec<(String, Vec<u8>)>)
    ensures
        r@ == spec_publishable(batch@),
{
    let ghost full = batch@;
    let mut rest = batch;
    let mut out: Vec<(String, Vec<u8>)> = Vec::new();
    proof {
        assert(full.skip(0) =~= full);
    }
    let ghost mut i: int = 0;
    while rest.len() > 0
        invariant
            0 <= i <= full.len(),
            rest@ =~= full.skip(i),
            spec_publishable(full) == out@ + spec_publishable(full.skip(i)),
        decreases rest@.len(),
    {
        proof {
            lemma_publishable_skip(full, i);
        }
        let entry = rest.remove(0);
        proof {
            assert(entry == full[i]);
            assert(rest@ =~= full.skip(i + 1));
        }
        match entry.1 {
            Ok(payload) => {
                let ghost prev = out@;
                out.push((entry.0, payload));
                proof {
                    assert(prev + (seq![(full[i].0, full[i].1->Ok_0)] + spec_publishable(
                        full.skip(i + 1),
                    )) =~= out@ + spec_publishable(full.skip(i + 1)));
                }
            },
            Err(_) => {},
        }
        proof {
            i = i + 1;
        }
    }
    proof {
        assert(full.skip(full.len() as int) =~= Seq::<(String, Result<Vec<u8>, String>)>::empty());
        assert(out@ =~= spec_publishable(full));
    }
    out
}

/// Failures are independent: a batch loses exactly its failed pairs, so a
/// batch with exactly one serialization failure still publishes all of the
/// other pairs.
pub proof fn lemma_independent_failure(batch: Seq<(String, Result<Vec<u8>, String>)>)
    ensures
        spec_failed(batch) <= batch.len(),
        spec_publishable(batch).len() == batch.len() - spec_failed(batch),
        spec_failed(batch) == 1 ==> spec_publishable(batch).len() == batch.len() - 1,
    decreases batch.len(),
{
    if batch.len() > 0 {
        lemma_independent_failure(batch.drop_first());
    }
}

} // verus!
