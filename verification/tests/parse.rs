use partition_config::json::JsonValue;
use partition_config::schema::parse_group;
use partition_config::schema::parse_partition;
use partition_config::schema::parse_partition_config;
use partition_config::schema::ParseError;
use partition_config::Group;
use partition_config::Partition;

fn full_document() -> &'static [u8] {
    br#"{
        "super_meta": {"path": "/dev/super", "size": "100"},
        "nv_text": "v1",
        "block_devices": [
            {"block_size": "4096", "name": "sda", "alignment": "1", "size": "1000"},
            {"block_size": "512", "name": "sdb", "alignment": "8", "size": "2000"}
        ],
        "groups": [
            {"name": "g1", "maximum_size": "500"},
            {"name": "g2"}
        ],
        "nv_id": "abc",
        "partitions": [
            {"is_dynamic": true, "name": "p1", "group_name": "g1", "path": "/p1.img", "size": "10"},
            {"is_dynamic": false, "name": "p2", "group_name": "g2"}
        ]
    }"#
}

#[test]
fn loads_every_member_verbatim() {
    let c = parse_partition_config(full_document()).unwrap();
    assert_eq!(c.super_meta.path, "/dev/super");
    assert_eq!(c.super_meta.size, "100");
    assert_eq!(c.nv_text, "v1");
    assert_eq!(c.nv_id, "abc");
    assert_eq!(c.block_devices.len(), 2);
    assert_eq!(c.block_devices[0].block_size, "4096");
    assert_eq!(c.block_devices[0].name, "sda");
    assert_eq!(c.block_devices[0].alignment, "1");
    assert_eq!(c.block_devices[0].size, "1000");
    assert_eq!(c.block_devices[1].name, "sdb");
    assert_eq!(c.groups.len(), 2);
    assert_eq!(c.groups[0].name, "g1");
    assert_eq!(c.groups[0].maximum_size, "500");
    assert_eq!(c.groups[1].name, "g2");
    assert_eq!(c.partitions.len(), 2);
    assert!(c.partitions[0].is_dynamic);
    assert_eq!(c.partitions[0].name, "p1");
    assert_eq!(c.partitions[0].group_name, "g1");
    assert_eq!(c.partitions[0].path, "/p1.img");
    assert_eq!(c.partitions[0].size, "10");
    assert!(!c.partitions[1].is_dynamic);
    assert_eq!(c.partitions[1].name, "p2");
}

#[test]
fn keeps_declaration_order() {
    let bytes = br#"{
        "super_meta": {"path": "p", "size": "1"},
        "nv_text": "",
        "block_devices": [],
        "groups": [
            {"name": "z"}, {"name": "a"}, {"name": "m"}
        ],
        "nv_id": "",
        "partitions": [
            {"is_dynamic": true, "name": "late", "group_name": "z"},
            {"is_dynamic": true, "name": "early", "group_name": "a"}
        ]
    }"#;
    let c = parse_partition_config(bytes).unwrap();
    let names: Vec<&str> = c.groups.iter().map(|g| g.name.as_str()).collect();
    assert_eq!(names, vec!["z", "a", "m"]);
    assert_eq!(c.partitions[0].name, "late");
    assert_eq!(c.partitions[1].name, "early");
}

#[test]
fn example_scenario_defaults() {
    let bytes = br#"{"super_meta":{"path":"/dev/super","size":"100"},"nv_text":"v1","block_devices":[{"block_size":"4096","name":"sda","alignment":"1","size":"1000"}],"groups":[{"name":"g1"}],"nv_id":"abc","partitions":[{"is_dynamic":true,"name":"p1","group_name":"g1"}]}"#;
    let c = parse_partition_config(bytes).unwrap();
    assert_eq!(c.groups[0].maximum_size, "");
    assert_eq!(c.partitions[0].path, "");
    assert_eq!(c.partitions[0].size, "");
    assert!(c.partitions[0].is_dynamic);
}

#[test]
fn group_without_maximum_size_gets_empty_string() {
    let v = JsonValue::Object(vec![(
        "name".to_owned(),
        JsonValue::String("g1".to_owned()),
    )]);
    let g: Group = parse_group(&v).unwrap();
    assert_eq!(g.name, "g1");
    assert_eq!(g.maximum_size, "");
}

#[test]
fn partition_without_path_or_size_gets_empty_strings() {
    let v = JsonValue::Object(vec![
        ("is_dynamic".to_owned(), JsonValue::Bool(false)),
        ("name".to_owned(), JsonValue::String("p".to_owned())),
        ("group_name".to_owned(), JsonValue::String("g".to_owned())),
    ]);
    let p: Partition = parse_partition(&v).unwrap();
    assert!(!p.is_dynamic);
    assert_eq!(p.path, "");
    assert_eq!(p.size, "");
}

#[test]
fn empty_input_is_a_syntax_error() {
    match parse_partition_config(b"") {
        Err(ParseError::Syntax(_)) => {}
        other => panic!("expected a syntax error, got {:?}", other),
    }
}

#[test]
fn truncated_document_is_a_syntax_error() {
    let bytes = br#"{"super_meta":{"path":"/dev/super","#;
    match parse_partition_config(bytes) {
        Err(ParseError::Syntax(_)) => {}
        other => panic!("expected a syntax error, got {:?}", other),
    }
}

#[test]
fn missing_required_member_is_a_schema_error() {
    // partitions[0] lacks is_dynamic
    let bytes = br#"{
        "super_meta": {"path": "p", "size": "1"},
        "nv_text": "",
        "block_devices": [],
        "groups": [],
        "nv_id": "",
        "partitions": [{"name": "p1", "group_name": "g1"}]
    }"#;
    match parse_partition_config(bytes) {
        Err(ParseError::Schema(_)) => {}
        other => panic!("expected a schema error, got {:?}", other),
    }
}

#[test]
fn number_where_string_is_expected_is_a_schema_error() {
    let bytes = br#"{
        "super_meta": {"path": "p", "size": 100},
        "nv_text": "",
        "block_devices": [],
        "groups": [],
        "nv_id": "",
        "partitions": []
    }"#;
    match parse_partition_config(bytes) {
        Err(ParseError::Schema(_)) => {}
        other => panic!("expected a schema error, got {:?}", other),
    }
}

#[test]
fn present_optional_member_of_wrong_type_is_a_schema_error() {
    let v = JsonValue::Object(vec![
        ("name".to_owned(), JsonValue::String("g1".to_owned())),
        ("maximum_size".to_owned(), JsonValue::Number),
    ]);
    assert!(parse_group(&v).is_err());
}

#[test]
fn non_object_document_is_a_schema_error() {
    match parse_partition_config(b"[1, 2, 3]") {
        Err(ParseError::Schema(_)) => {}
        other => panic!("expected a schema error, got {:?}", other),
    }
}

#[test]
fn missing_top_level_member_is_a_schema_error() {
    // no nv_id
    let bytes = br#"{
        "super_meta": {"path": "p", "size": "1"},
        "nv_text": "",
        "block_devices": [],
        "groups": [],
        "partitions": []
    }"#;
    match parse_partition_config(bytes) {
        Err(ParseError::Schema(_)) => {}
        other => panic!("expected a schema error, got {:?}", other),
    }
}

#[test]
fn unknown_members_are_ignored() {
    let bytes = br#"{
        "super_meta": {"path": "p", "size": "1", "extra": 7},
        "nv_text": "",
        "block_devices": [],
        "groups": [{"name": "g", "comment": null}],
        "nv_id": "",
        "partitions": [],
        "trailing": {"anything": [true]}
    }"#;
    let c = parse_partition_config(bytes).unwrap();
    assert_eq!(c.super_meta.path, "p");
    assert_eq!(c.groups[0].name, "g");
}

#[test]
fn loading_twice_gives_equal_results() {
    let bytes = full_document();
    let c1 = parse_partition_config(bytes).unwrap();
    let c2 = parse_partition_config(bytes).unwrap();
    assert_eq!(c1, c2);
}
