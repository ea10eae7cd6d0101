//! The value publisher: catalog lookups and sparse flattening.

use hairmqtt::descriptor::VarHeader;
use hairmqtt::publisher::{flatten, TelemetryValue, ValueBatch, VarCatalog};

fn catalog(names: &[&str]) -> VarCatalog {
    let mut c = VarCatalog::new();
    for n in names {
        c.push(VarHeader::new(n, ""));
    }
    c
}

#[test]
fn catalog_lookup_finds_known_fields_only() {
    let c = catalog(&["AirTemp", "Lap"]);
    assert_eq!(c.len(), 2);
    assert!(c.knows("AirTemp"));
    assert!(c.knows("Lap"));
    assert!(!c.knows("WindVel"));
    assert_eq!(c.get("Lap").unwrap().name(), "Lap");
    assert!(c.get("Missing").is_none());
}

#[test]
fn flatten_keeps_known_fields_in_batch_order() {
    let c = catalog(&["AirTemp", "Lap", "IsOnTrack"]);
    let mut batch = ValueBatch::new();
    batch.push("Lap".to_string(), TelemetryValue::Int(12));
    batch.push("AirTemp".to_string(), TelemetryValue::FloatBits(0x4039000000000000));
    batch.push("IsOnTrack".to_string(), TelemetryValue::Bool(true));
    let flat = flatten(batch, &c);
    assert_eq!(flat.len(), 3);
    assert_eq!(flat[0], ("Lap".to_string(), TelemetryValue::Int(12)));
    assert_eq!(
        flat[1],
        ("AirTemp".to_string(), TelemetryValue::FloatBits(0x4039000000000000))
    );
    assert_eq!(flat[2], ("IsOnTrack".to_string(), TelemetryValue::Bool(true)));
}

#[test]
fn flatten_omits_fields_the_catalog_does_not_know() {
    let c = catalog(&["Lap"]);
    let mut batch = ValueBatch::new();
    batch.push("Lap".to_string(), TelemetryValue::Int(3));
    batch.push("Unknown".to_string(), TelemetryValue::Text("x".to_string()));
    let flat = flatten(batch, &c);
    assert_eq!(flat.len(), 1);
    assert_eq!(flat[0].0, "Lap".to_string());
}

#[test]
fn flatten_of_an_empty_batch_is_empty() {
    let c = catalog(&["Lap"]);
    let flat = flatten(ValueBatch::new(), &c);
    assert!(flat.is_empty());
}

#[test]
fn flatten_never_invents_a_value_for_a_known_field() {
    // the catalog knows more fields than the batch carries: the missing
    // one is absent from the result, not null or zero
    let c = catalog(&["AirTemp", "Lap"]);
    let mut batch = ValueBatch::new();
    batch.push("Lap".to_string(), TelemetryValue::Int(1));
    let flat = flatten(batch, &c);
    assert_eq!(flat.len(), 1);
    assert!(flat.iter().all(|(name, _)| name.as_str() != "AirTemp"));
}

#[test]
fn flatten_carries_list_values_through() {
    let c = catalog(&["CarIdxLapTime"]);
    let mut batch = ValueBatch::new();
    batch.push(
        "CarIdxLapTime".to_string(),
        TelemetryValue::FloatBitsList(vec![1, 2, 3]),
    );
    let flat = flatten(batch, &c);
    assert_eq!(
        flat[0],
        (
            "CarIdxLapTime".to_string(),
            TelemetryValue::FloatBitsList(vec![1, 2, 3])
        )
    );
}
