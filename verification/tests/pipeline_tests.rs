// End-to-end tests over the verified pipeline: framing of the streamed
// formats, the behaviour of the handle across reloads, the batch error
// policy, and the authentication-log scenario.
use perceptlog::config::OutputFormat;
use perceptlog::error::TransformError;
use perceptlog::ocsf::OcsfEventBuilder;
use perceptlog::output::{OutputFormatter, StreamingOutputFormatter};
use perceptlog::runtime::VrlRuntime;
use perceptlog::transformer::{decide, directory_summary, ErrorDisposition, OcsfTransformer};
use perceptlog::NativeVal;

fn sample_event(n: i32) -> perceptlog::ocsf::OcsfEvent {
    OcsfEventBuilder::new()
        .with_category(n, "System Activity")
        .with_class(1001, "Process Activity")
        .with_time(1234567890)
        .with_message("Test event")
        .build()
}

// A transformation script of literals only: it rebuilds the record as a
// complete OCSF object, carrying the raw line through as the message.
const OCSF_SCRIPT: &str = r#"
.ocsf = {
    "metadata": {
        "version": "1.6.0",
        "product": {
            "vendor_name": "Linux",
            "name": "Authentication Logs",
            "version": "system"
        }
    },
    "category_uid": 3,
    "category_name": "Identity & Access Management",
    "class_uid": 3002,
    "class_name": "Authentication",
    "time": 1234567890,
    "type_uid": 300201,
    "type_name": "Authentication: Logon",
    "activity_id": 1,
    "activity_name": "Logon",
    "status": "Success",
    "status_id": 1,
    "severity": "Informational",
    "severity_id": 1,
    "message": .message
}
. = .ocsf
"#;

#[test]
fn test_json_array_framing() {
    // For N records, the finalized json-array stream parses as a JSON
    // array of exactly N elements, each equal to the record's compact
    // rendering; for N = 0 it is exactly "[]".
    for n in 0..4usize {
        let mut stream = StreamingOutputFormatter::new(OutputFormat::Json, false);
        let mut events = Vec::new();
        for k in 0..n {
            let ev = sample_event(k as i32);
            stream.add_event(&ev).unwrap();
            events.push(ev);
        }
        let out = stream.finalize().unwrap();
        if n == 0 {
            assert_eq!(out, "[]");
        }
        let parsed: serde_json::Value = serde_json::from_str(&out).unwrap();
        let arr = parsed.as_array().unwrap();
        assert_eq!(arr.len(), n);
        for (k, elem) in arr.iter().enumerate() {
            let single = perceptlog::render::render_json(&events[k].to_json());
            let expected: serde_json::Value = serde_json::from_str(&single).unwrap();
            assert_eq!(elem, &expected);
        }
    }
}

#[test]
fn test_ndjson_framing() {
    // For N records the NDJSON output has exactly N lines, each of them
    // independently valid JSON.
    for n in 0..4usize {
        let events: Vec<_> = (0..n).map(|k| sample_event(k as i32)).collect();
        let out = OutputFormatter::format_events(&events, OutputFormat::Ndjson, false).unwrap();
        let lines: Vec<&str> = out.lines().collect();
        assert_eq!(lines.len(), n);
        assert_eq!(out.matches('\n').count(), n);
        for line in lines {
            let parsed: Result<serde_json::Value, _> = serde_json::from_str(line);
            assert!(parsed.is_ok());
        }
    }
}

#[test]
fn test_reload_failure_keeps_program() {
    // A reload with a syntactically invalid script fails and leaves the
    // previously installed program servicing calls unchanged.
    let mut runtime = VrlRuntime::new(". = .message").unwrap();
    let input = NativeVal::Obj(vec![(
        "message".to_string(),
        NativeVal::Bytes("probe".to_string()),
    )]);
    let before = runtime.transform(input.clone()).unwrap();
    assert_eq!(before, NativeVal::Bytes("probe".to_string()));

    let mut transformer = OcsfTransformer::with_script(". = .message".to_string()).unwrap();
    let reload = transformer.reload_script("definitely not [[ valid");
    assert!(matches!(reload, Err(TransformError::CompileError(_))));

    // The handle still behaves as the pre-reload program did.
    let after = runtime.transform(input).unwrap();
    assert_eq!(after, NativeVal::Bytes("probe".to_string()));
}

#[test]
fn test_reload_success_swaps_program() {
    let mut transformer = OcsfTransformer::with_script(". = .message".to_string()).unwrap();
    assert!(transformer.reload_script(OCSF_SCRIPT).is_ok());
    let result = transformer.transform_line("hello after reload");
    let event = result.unwrap();
    assert_eq!(event.message, Some("hello after reload".to_string()));
}

#[test]
fn test_policy_decision() {
    assert_eq!(decide(true), ErrorDisposition::Continue);
    assert_eq!(decide(false), ErrorDisposition::Abort);
}

#[test]
fn test_directory_skip_errors_counts() {
    // Three files, the middle one unreadable: 2 processed, 1 failed,
    // records of the valid files still counted.
    let results = vec![
        Ok(5usize),
        Err(TransformError::IoError("permission denied".to_string())),
        Ok(7usize),
    ];
    let outcome = directory_summary(&results, true).unwrap();
    assert_eq!(outcome.processed_files, 2);
    assert_eq!(outcome.failed_files, 1);
    assert_eq!(outcome.total_events, 12);
}

#[test]
fn test_directory_abort_returns_first_failure() {
    // Under the abort policy the pass stops at, and returns, the first
    // failing file; the files before it keep what they produced.
    let results = vec![
        Ok(5usize),
        Err(TransformError::IoError("permission denied".to_string())),
        Ok(7usize),
    ];
    let err = directory_summary(&results, false).unwrap_err();
    assert_eq!(err, TransformError::IoError("permission denied".to_string()));

    let all_ok = vec![Ok(1usize), Ok(2usize)];
    let outcome = directory_summary(&all_ok, false).unwrap();
    assert_eq!(outcome.processed_files, 2);
    assert_eq!(outcome.failed_files, 0);
    assert_eq!(outcome.total_events, 3);
}

#[test]
fn test_auth_log_scenario() {
    // Two authentication lines around a blank one: two records come out,
    // the blank line is skipped, and alice's record precedes bob's.
    let mut transformer = OcsfTransformer::with_script(OCSF_SCRIPT.to_string()).unwrap();
    let lines = vec![
        "Accepted password for alice from 10.0.0.1 port 22 ssh2".to_string(),
        "".to_string(),
        "Failed password for bob from 10.0.0.2 port 22 ssh2".to_string(),
    ];
    let events = transformer.process_lines(&lines).unwrap();
    assert_eq!(events.len(), 2);
    assert_eq!(
        events[0].message,
        Some("Accepted password for alice from 10.0.0.1 port 22 ssh2".to_string())
    );
    assert_eq!(
        events[1].message,
        Some("Failed password for bob from 10.0.0.2 port 22 ssh2".to_string())
    );
    assert_eq!(events[0].class_uid, 3002);
}

#[test]
fn test_transform_batch_one_result_per_line() {
    // The identity-ish script returns bytes, which do not fit the event
    // schema, so every line yields a per-record parse failure — but
    // still exactly one result per line, in order.
    let mut transformer = OcsfTransformer::with_script(". = .message".to_string()).unwrap();
    let lines = vec!["one".to_string(), "two".to_string(), "three".to_string()];
    let results = transformer.transform_batch(lines);
    assert_eq!(results.len(), 3);
    for r in &results {
        assert!(matches!(r, Err(TransformError::ParseError(_))));
    }
}

#[test]
fn test_process_lines_abort_policy() {
    // With skip_errors off, the first failing line aborts the pass.
    let mut config = perceptlog::config::TransformerConfig::default();
    config.skip_errors = false;
    let mut transformer =
        OcsfTransformer::with_config(config, ". = .message".to_string()).unwrap();
    let lines = vec!["one".to_string(), "two".to_string()];
    assert!(transformer.process_lines(&lines).is_err());

    // With skip_errors on, the pass succeeds and bypasses the failures.
    let mut skipping = OcsfTransformer::with_script(". = .message".to_string()).unwrap();
    let events = skipping.process_lines(&lines).unwrap();
    assert_eq!(events.len(), 0);
}

#[test]
fn test_transform_line_valid_output() {
    let mut transformer = OcsfTransformer::with_script(OCSF_SCRIPT.to_string()).unwrap();
    let event = transformer.transform_line("a line").unwrap();
    assert_eq!(event.category_uid, 3);
    assert_eq!(event.class_name, "Authentication");
    assert_eq!(event.message, Some("a line".to_string()));
    assert_eq!(event.metadata.version, "1.6.0");
}

#[test]
fn test_validate_script() {
    assert!(OcsfTransformer::validate_script(". = .").is_ok());
    assert!(matches!(
        OcsfTransformer::validate_script("not a script {{"),
        Err(TransformError::CompileError(_))
    ));
}

#[test]
fn test_blank_only_input_is_not_a_failure() {
    // A file of zero non-blank lines yields zero records and succeeds,
    // even under the abort policy.
    let mut config = perceptlog::config::TransformerConfig::default();
    config.skip_errors = false;
    let mut transformer =
        OcsfTransformer::with_config(config, ". = .message".to_string()).unwrap();
    let lines = vec!["".to_string(), "   ".to_string(), "\t".to_string()];
    let events = transformer.process_lines(&lines).unwrap();
    assert_eq!(events.len(), 0);
}

#[test]
fn test_empty_directory_outcome() {
    // A directory of zero eligible files is an empty success, not an error.
    let results: Vec<Result<usize, TransformError>> = vec![];
    let outcome = directory_summary(&results, false).unwrap();
    assert_eq!(outcome.processed_files, 0);
    assert_eq!(outcome.failed_files, 0);
    assert_eq!(outcome.total_events, 0);
}

#[test]
fn test_pretty_rendering_matches_reference() {
    // The pretty renderer agrees with the reference serializer's pretty
    // format on a value whose keys are already sorted.
    let v = perceptlog::JsonVal::Obj(vec![
        ("alpha".to_string(), perceptlog::JsonVal::Int(1)),
        (
            "beta".to_string(),
            perceptlog::JsonVal::Arr(vec![
                perceptlog::JsonVal::Int(1),
                perceptlog::JsonVal::Str("x".to_string()),
            ]),
        ),
        ("gamma".to_string(), perceptlog::JsonVal::Obj(vec![])),
    ]);
    let mine = perceptlog::render::render_json_pretty(&v);
    let compact = perceptlog::render::render_json(&v);
    let parsed: serde_json::Value = serde_json::from_str(&compact).unwrap();
    let reference = serde_json::to_string_pretty(&parsed).unwrap();
    assert_eq!(mine, reference);
}

#[test]
fn test_yaml_rendering_shape() {
    let v = perceptlog::JsonVal::Obj(vec![
        ("name".to_string(), perceptlog::JsonVal::Str("a: b".to_string())),
        ("count".to_string(), perceptlog::JsonVal::Int(7)),
        (
            "items".to_string(),
            perceptlog::JsonVal::Arr(vec![perceptlog::JsonVal::Int(1)]),
        ),
    ]);
    let yaml = perceptlog::render::render_yaml(&v);
    assert_eq!(yaml, "name: \"a: b\"\ncount: 7\nitems:\n  - 1\n");
}
