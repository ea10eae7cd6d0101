//! Resolution of field names against the default session schema document.

use hairmqtt::schema::{determine_dot_path, resolve, SchemaNode};
use hairmqtt::text::snake_case;

#[test]
fn test_determine_dot_path() {
    let path = determine_dot_path("SessionInfo", 0);
    assert_eq!(path, Some("session_info".to_string()));
}

#[test]
fn test_determine_dot_path_nested() {
    let path = determine_dot_path("WeekendInfo", 0);
    assert_eq!(path, Some("weekend_info".to_string()));
}

#[test]
fn test_determine_dot_path_nested_nested() {
    let path = determine_dot_path("TrackName", 0);
    assert_eq!(path, Some("weekend_info.track_name".to_string()));
}

#[test]
fn should_determine_car_driver_idx() {
    let path = determine_dot_path("CarDriverIdx", 0);
    assert_eq!(path, Some("driver_info.car_driver_idx".to_string()));
}

#[test]
fn absent_name_resolves_to_none_for_any_index() {
    for idx in [0usize, 1, 3, 7, 100] {
        assert_eq!(determine_dot_path("NoSuchField", idx), None);
    }
}

#[test]
fn array_segment_is_the_queried_index() {
    let path = determine_dot_path("UserName", 2);
    assert_eq!(path, Some("driver_info.drivers.2.user_name".to_string()));
    let path = determine_dot_path("UserName", 1);
    assert_eq!(path, Some("driver_info.drivers.1.user_name".to_string()));
}

#[test]
fn out_of_range_index_dead_ends_the_array_branch() {
    // the participant tables hold four slots; beyond them nothing beneath
    // an array is reachable, while top-level keys still resolve
    assert_eq!(determine_dot_path("UserName", 9), None);
    assert_eq!(
        determine_dot_path("TrackName", 9),
        Some("weekend_info.track_name".to_string())
    );
}

#[test]
fn first_match_wins_on_duplicate_keys() {
    let doc = SchemaNode::Object(vec![
        (
            "alpha".to_string(),
            SchemaNode::Object(vec![("shared".to_string(), SchemaNode::Scalar)]),
        ),
        (
            "beta".to_string(),
            SchemaNode::Object(vec![("shared".to_string(), SchemaNode::Scalar)]),
        ),
    ]);
    assert_eq!(resolve(&doc, "Shared", 0), Some("alpha.shared".to_string()));
}

#[test]
fn resolve_walks_a_custom_document() {
    let doc = SchemaNode::Object(vec![
        (
            "outer".to_string(),
            SchemaNode::Array(vec![
                SchemaNode::Object(vec![("zero_only".to_string(), SchemaNode::Scalar)]),
                SchemaNode::Object(vec![("one_only".to_string(), SchemaNode::Scalar)]),
            ]),
        ),
        ("tail".to_string(), SchemaNode::Scalar),
    ]);
    assert_eq!(resolve(&doc, "ZeroOnly", 0), Some("outer.0.zero_only".to_string()));
    assert_eq!(resolve(&doc, "ZeroOnly", 1), None);
    assert_eq!(resolve(&doc, "OneOnly", 1), Some("outer.1.one_only".to_string()));
    assert_eq!(resolve(&doc, "Tail", 5), Some("tail".to_string()));
}

#[test]
fn scalar_document_resolves_nothing() {
    assert_eq!(resolve(&SchemaNode::Scalar, "Anything", 0), None);
}

#[test]
fn snake_case_renders_capitalized_names() {
    assert_eq!(snake_case("SessionInfo"), "session_info".to_string());
    assert_eq!(snake_case("CarDriverIdx"), "car_driver_idx".to_string());
    assert_eq!(snake_case("X"), "x".to_string());
    assert_eq!(snake_case("ABC"), "a_b_c".to_string());
    assert_eq!(snake_case("already_snake"), "already_snake".to_string());
    assert_eq!(snake_case(""), "".to_string());
}
