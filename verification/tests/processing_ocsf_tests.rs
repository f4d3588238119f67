// Tests for the OCSF event builder and its JSON projection.
use perceptlog::ocsf::OcsfEventBuilder;
use perceptlog::render::render_json;

#[test]
fn test_ocsf_event_builder() {
    let event = OcsfEventBuilder::new()
        .with_category(3, "Identity & Access Management")
        .with_class(3002, "Authentication")
        .with_time(1234567890)
        .with_message("Test authentication event")
        .build();

    assert_eq!(event.category_uid, 3);
    assert_eq!(event.category_name, "Identity & Access Management");
    assert_eq!(event.class_uid, 3002);
    assert_eq!(event.class_name, "Authentication");
    assert_eq!(event.time, 1234567890);
    assert_eq!(event.message, Some("Test authentication event".to_string()));
}

#[test]
fn test_ocsf_event_builder_minimal() {
    let event = OcsfEventBuilder::new()
        .with_category(1, "System Activity")
        .with_class(1001, "Process Activity")
        .with_time(1000000000)
        .build();

    assert_eq!(event.category_uid, 1);
    assert_eq!(event.class_uid, 1001);
    assert_eq!(event.message, None);
}

#[test]
fn test_ocsf_event_serialization() {
    let event = OcsfEventBuilder::new()
        .with_category(3, "IAM")
        .with_class(3002, "Auth")
        .with_time(12345)
        .build();

    let json = render_json(&event.to_json());
    assert!(json.contains("category_uid"));
    assert!(json.contains("class_uid"));
}

#[test]
fn test_ocsf_event_json_exact() {
    // One fully pinned rendering: the builder's defaults and the set
    // fields, members in declaration order, absent members omitted.
    let event = OcsfEventBuilder::new()
        .with_category(3, "IAM")
        .with_class(3002, "Auth")
        .with_time(12345)
        .build();
    let json = render_json(&event.to_json());
    let mut expected = String::new();
    expected.push_str("{\"metadata\":{\"version\":\"1.6.0\",\"product\":{\"vendor_name\":\"Linux\",");
    expected.push_str("\"name\":\"Authentication Logs\",\"version\":\"system\"},\"profiles\":[\"host\"]},");
    expected.push_str("\"category_uid\":3,\"category_name\":\"IAM\",\"class_uid\":3002,");
    expected.push_str("\"class_name\":\"Auth\",\"time\":12345,\"type_uid\":0,\"type_name\":\"\",");
    expected.push_str("\"activity_id\":0,\"activity_name\":\"\",\"status\":\"\",\"status_id\":0,");
    expected.push_str("\"severity\":\"\",\"severity_id\":0}");
    assert_eq!(json, expected);
}

#[test]
fn test_ocsf_event_json_matches_reference_serializer() {
    // The verified renderer and the reference JSON serializer agree on
    // the projected value.
    let event = OcsfEventBuilder::new()
        .with_category(3, "Identity & Access Management")
        .with_class(3002, "Authentication")
        .with_time(1234567890)
        .with_status("Success", 1)
        .with_severity("Informational", 1)
        .with_message("quote \" backslash \\ newline \n tab \t done")
        .build();
    let mine = render_json(&event.to_json());
    let parsed: serde_json::Value = serde_json::from_str(&mine).unwrap();
    assert_eq!(parsed["category_uid"], serde_json::Value::from(3));
    assert_eq!(
        parsed["message"],
        serde_json::Value::String("quote \" backslash \\ newline \n tab \t done".to_string())
    );
}
