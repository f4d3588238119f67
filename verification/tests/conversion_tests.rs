// Tests for the record converter.
use perceptlog::convert::{
    log_event_to_vrl_value, parse_ocsf_event, serde_json_to_vrl_value, vrl_value_to_serde_json,
};
use perceptlog::{JsonVal, LogEvent, NativeVal};

fn nested_sample() -> JsonVal {
    JsonVal::Obj(vec![
        ("test".to_string(), JsonVal::Str("value".to_string())),
        ("number".to_string(), JsonVal::Int(42)),
        (
            "nested".to_string(),
            JsonVal::Obj(vec![("field".to_string(), JsonVal::Str("data".to_string()))]),
        ),
    ])
}

fn flat_sample() -> JsonVal {
    JsonVal::Obj(vec![
        ("test".to_string(), JsonVal::Str("value".to_string())),
        ("number".to_string(), JsonVal::Int(42)),
    ])
}

#[test]
fn runtime_test_value_conversions() {
    let json = nested_sample();
    let native = serde_json_to_vrl_value(json.clone());
    let back = vrl_value_to_serde_json(native);
    assert_eq!(json, back);
}

#[test]
fn vrl_test_value_conversions() {
    let json = flat_sample();
    let native = serde_json_to_vrl_value(json.clone());
    let back = vrl_value_to_serde_json(native);
    assert_eq!(json, back);
}

#[test]
fn processing_runtime_tests_test_value_conversions() {
    let json = nested_sample();
    let native = serde_json_to_vrl_value(json.clone());
    let back = vrl_value_to_serde_json(native);
    assert_eq!(json, back);
}

#[test]
fn processing_vrl_tests_test_value_conversions() {
    let json = nested_sample();
    let native = serde_json_to_vrl_value(json.clone());
    let back = vrl_value_to_serde_json(native);
    assert_eq!(json, back);
}

#[test]
fn test_round_trip_every_variant() {
    let json = JsonVal::Obj(vec![
        ("flag".to_string(), JsonVal::Bool(true)),
        ("nothing".to_string(), JsonVal::Null),
        (
            "list".to_string(),
            JsonVal::Arr(vec![JsonVal::Int(1), JsonVal::Num("2.5".to_string())]),
        ),
    ]);
    let native = serde_json_to_vrl_value(json.clone());
    let back = vrl_value_to_serde_json(native);
    assert_eq!(json, back);
}

#[test]
fn test_non_finite_floats_coerce_to_null() {
    // The backward conversion's fixed policy: a non-finite float reads
    // back as null, never as a raw number.
    assert_eq!(
        vrl_value_to_serde_json(NativeVal::Float("inf".to_string())),
        JsonVal::Null
    );
    assert_eq!(
        vrl_value_to_serde_json(NativeVal::Float("-inf".to_string())),
        JsonVal::Null
    );
    assert_eq!(
        vrl_value_to_serde_json(NativeVal::Float("NaN".to_string())),
        JsonVal::Null
    );
    assert_eq!(
        vrl_value_to_serde_json(NativeVal::Float("2.5".to_string())),
        JsonVal::Num("2.5".to_string())
    );
}

#[test]
fn test_forward_conversion_shape() {
    // Strings become engine bytes; non-integral numbers become floats
    // carrying the same text; a converter that handed its argument back
    // unchanged could not produce these.
    let native = serde_json_to_vrl_value(JsonVal::Str("abc".to_string()));
    assert_eq!(native, NativeVal::Bytes("abc".to_string()));
    let native = serde_json_to_vrl_value(JsonVal::Num("2.5".to_string()));
    assert_eq!(native, NativeVal::Float("2.5".to_string()));
}

#[test]
fn test_backward_conversion_shape() {
    // Timestamps and regexes read back as strings.
    let json = vrl_value_to_serde_json(NativeVal::Timestamp("2020-01-01 00:00:00 UTC".to_string()));
    assert_eq!(json, JsonVal::Str("2020-01-01 00:00:00 UTC".to_string()));
    let json = vrl_value_to_serde_json(NativeVal::Regex("a.*b".to_string()));
    assert_eq!(json, JsonVal::Str("a.*b".to_string()));
}

#[test]
fn test_log_event_conversion() {
    let event =
        LogEvent::new("test message").with_metadata("key", JsonVal::Str("value".to_string()));

    let native = log_event_to_vrl_value(event);

    match native {
        NativeVal::Obj(fields) => {
            assert_eq!(fields.len(), 2);
            assert_eq!(fields[0].0, "message");
            assert_eq!(fields[0].1, NativeVal::Bytes("test message".to_string()));
            assert_eq!(fields[1].0, "key");
            assert_eq!(fields[1].1, NativeVal::Bytes("value".to_string()));
        }
        _ => panic!("expected an object"),
    }
}

fn valid_event_json() -> JsonVal {
    JsonVal::Obj(vec![
        (
            "metadata".to_string(),
            JsonVal::Obj(vec![
                ("version".to_string(), JsonVal::Str("1.6.0".to_string())),
                (
                    "product".to_string(),
                    JsonVal::Obj(vec![
                        ("vendor_name".to_string(), JsonVal::Str("Linux".to_string())),
                        ("name".to_string(), JsonVal::Str("Auth".to_string())),
                        ("version".to_string(), JsonVal::Str("system".to_string())),
                    ]),
                ),
            ]),
        ),
        ("category_uid".to_string(), JsonVal::Int(3)),
        ("category_name".to_string(), JsonVal::Str("IAM".to_string())),
        ("class_uid".to_string(), JsonVal::Int(3002)),
        ("class_name".to_string(), JsonVal::Str("Auth".to_string())),
        ("time".to_string(), JsonVal::Int(1234567890)),
        ("type_uid".to_string(), JsonVal::Int(300201)),
        ("type_name".to_string(), JsonVal::Str("Logon".to_string())),
        ("activity_id".to_string(), JsonVal::Int(1)),
        ("activity_name".to_string(), JsonVal::Str("Logon".to_string())),
        ("status".to_string(), JsonVal::Str("Success".to_string())),
        ("status_id".to_string(), JsonVal::Int(1)),
        ("severity".to_string(), JsonVal::Str("Informational".to_string())),
        ("severity_id".to_string(), JsonVal::Int(1)),
        ("message".to_string(), JsonVal::Str("hello".to_string())),
    ])
}

#[test]
fn test_parse_ocsf_event_ok() {
    let parsed = parse_ocsf_event(&valid_event_json()).unwrap();
    assert_eq!(parsed.category_uid, 3);
    assert_eq!(parsed.class_uid, 3002);
    assert_eq!(parsed.time, 1234567890);
    assert_eq!(parsed.metadata.version, "1.6.0");
    assert_eq!(parsed.metadata.product.vendor_name, "Linux");
    assert_eq!(parsed.message, Some("hello".to_string()));
    assert_eq!(parsed.user, None);
}

#[test]
fn test_parse_ocsf_event_missing_required() {
    // Dropping a required member is a schema failure.
    let mut fields = match valid_event_json() {
        JsonVal::Obj(f) => f,
        _ => unreachable!(),
    };
    fields.retain(|(k, _)| k != "time");
    let result = parse_ocsf_event(&JsonVal::Obj(fields));
    assert!(matches!(
        result,
        Err(perceptlog::error::TransformError::ParseError(_))
    ));
}

#[test]
fn test_parse_ocsf_event_wrong_type() {
    // A required member of the wrong shape is a schema failure.
    let mut fields = match valid_event_json() {
        JsonVal::Obj(f) => f,
        _ => unreachable!(),
    };
    for pair in fields.iter_mut() {
        if pair.0 == "category_uid" {
            pair.1 = JsonVal::Str("three".to_string());
        }
    }
    assert!(parse_ocsf_event(&JsonVal::Obj(fields)).is_err());
}

#[test]
fn test_parse_ocsf_event_not_an_object() {
    assert!(parse_ocsf_event(&JsonVal::Str("nope".to_string())).is_err());
    assert!(parse_ocsf_event(&JsonVal::Null).is_err());
}
