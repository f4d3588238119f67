// Tests for the run configuration and its defaults.
use perceptlog::config::{OutputFormat, TransformerConfig, VectorConfig};
use perceptlog::JsonVal;

#[test]
fn config_test_default_config() {
    let config = TransformerConfig::default();
    assert_eq!(config.batch_size, 100);
    assert_eq!(config.output_format, OutputFormat::Ndjson);
    assert!(config.skip_errors);
}

#[test]
fn core_config_tests_test_default_config() {
    let config = TransformerConfig::default();
    assert_eq!(config.batch_size, 100);
    assert_eq!(config.output_format, OutputFormat::Ndjson);
    assert!(config.skip_errors);
}

#[test]
fn config_test_output_format_extension() {
    assert_eq!(OutputFormat::Json.extension(), "json");
    assert_eq!(OutputFormat::JsonPretty.extension(), "json");
    assert_eq!(OutputFormat::Ndjson.extension(), "ndjson");
    assert_eq!(OutputFormat::Yaml.extension(), "yaml");
}

#[test]
fn core_config_tests_test_output_format_extension() {
    assert_eq!(OutputFormat::Json.extension(), "json");
    assert_eq!(OutputFormat::JsonPretty.extension(), "json");
    assert_eq!(OutputFormat::Ndjson.extension(), "ndjson");
    assert_eq!(OutputFormat::Yaml.extension(), "yaml");
}

#[test]
fn test_validate_config_paths() {
    let config = TransformerConfig::default();
    assert!(config.validate(true, true).is_ok());
    let err = config.validate(false, true).unwrap_err();
    assert_eq!(err, "VRL script file not found: remap.vrl");
    let err = config.validate(true, false).unwrap_err();
    assert_eq!(err, "Input path not found: /var/log/auth.log");

    let mut zero_batch = TransformerConfig::default();
    zero_batch.batch_size = 0;
    assert_eq!(
        zero_batch.validate(true, true).unwrap_err(),
        "Batch size must be greater than 0"
    );
}

#[test]
fn test_vector_config_conversion() {
    // transforms.ocsf_transform.file -> script path;
    // sources.<first>.include[0] -> input path;
    // sinks.ocsf_output.path -> output directory (parent of the file).
    let transforms = vec![(
        "ocsf_transform".to_string(),
        JsonVal::Obj(vec![(
            "file".to_string(),
            JsonVal::Str("custom.vrl".to_string()),
        )]),
    )];
    let sources = vec![(
        "auth_logs".to_string(),
        JsonVal::Obj(vec![(
            "include".to_string(),
            JsonVal::Arr(vec![JsonVal::Str("/var/log/secure".to_string())]),
        )]),
    )];
    let sinks = vec![(
        "ocsf_output".to_string(),
        JsonVal::Obj(vec![(
            "path".to_string(),
            JsonVal::Str("/data/out/events.ndjson".to_string()),
        )]),
    )];
    let vector = VectorConfig {
        data_dir: "/tmp".to_string(),
        sources,
        transforms,
        sinks,
    };
    let config = vector.to_transformer_config();
    assert_eq!(config.vrl_script_path, "custom.vrl");
    assert_eq!(config.input_path, "/var/log/secure");
    assert_eq!(config.output_path, "/data/out");
    assert_eq!(config.output_format, OutputFormat::Ndjson);
}

#[test]
fn test_vector_config_empty_falls_back() {
    let vector = VectorConfig {
        data_dir: "/tmp".to_string(),
        sources: vec![],
        transforms: vec![],
        sinks: vec![],
    };
    let config = vector.to_transformer_config();
    assert_eq!(config.vrl_script_path, "remap.vrl");
    assert_eq!(config.input_path, "/var/log/auth.log");
    assert_eq!(config.output_path, "./ocsf_output");
}
