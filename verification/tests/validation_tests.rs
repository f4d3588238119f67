// Tests for input validation.
use perceptlog::utils::{InputValidator, ValidationResult};

#[test]
fn validation_test_validate_batch_size() {
    assert!(InputValidator::validate_batch_size(100).is_ok());
    assert!(InputValidator::validate_batch_size(0).is_err());
    assert!(InputValidator::validate_batch_size(20000).is_err());
}

#[test]
fn utils_validation_tests_test_validate_batch_size() {
    assert!(InputValidator::validate_batch_size(100).is_ok());
    assert!(InputValidator::validate_batch_size(1).is_ok());
    assert!(InputValidator::validate_batch_size(10000).is_ok());

    assert!(InputValidator::validate_batch_size(0).is_err());
    assert!(InputValidator::validate_batch_size(20000).is_err());
}

#[test]
fn validation_test_validate_log_level() {
    assert!(InputValidator::validate_log_level("info").is_ok());
    assert!(InputValidator::validate_log_level("DEBUG").is_ok()); // Case insensitive
    assert!(InputValidator::validate_log_level("invalid").is_err());
}

#[test]
fn utils_validation_tests_test_validate_log_level() {
    assert!(InputValidator::validate_log_level("info").is_ok());
    assert!(InputValidator::validate_log_level("debug").is_ok());
    assert!(InputValidator::validate_log_level("warn").is_ok());
    assert!(InputValidator::validate_log_level("error").is_ok());
    assert!(InputValidator::validate_log_level("trace").is_ok());
    assert!(InputValidator::validate_log_level("DEBUG").is_ok()); // Case insensitive

    assert!(InputValidator::validate_log_level("invalid").is_err());
    assert!(InputValidator::validate_log_level("").is_err());
}

#[test]
fn validation_test_validation_result() {
    let mut result = ValidationResult::new();
    assert!(result.is_ok());

    result.add_warning("This is a warning");
    assert!(result.is_ok()); // Warnings don't affect validity

    result.add_error("This is an error");
    assert!(!result.is_ok()); // Errors affect validity

    assert_eq!(result.errors.len(), 1);
    assert_eq!(result.warnings.len(), 1);
}

#[test]
fn utils_validation_tests_test_validation_result() {
    let mut result = ValidationResult::new();
    assert!(result.is_ok());
    assert!(result.errors.is_empty());
    assert!(result.warnings.is_empty());

    result.add_warning("This is a warning");
    assert!(result.is_ok()); // Warnings don't affect validity
    assert_eq!(result.warnings.len(), 1);

    result.add_error("This is an error");
    assert!(!result.is_ok()); // Errors affect validity
    assert_eq!(result.errors.len(), 1);
    assert_eq!(result.warnings.len(), 1);
}

#[test]
fn test_validation_result_multiple_errors() {
    let mut result = ValidationResult::new();

    result.add_error("Error 1");
    result.add_error("Error 2");
    result.add_error("Error 3");

    assert!(!result.is_ok());
    assert_eq!(result.errors.len(), 3);
    assert_eq!(result.error_summary(), "Error 1; Error 2; Error 3");
}

#[test]
fn validation_test_validate_file_patterns() {
    let valid_patterns = vec!["*.log".to_string(), "auth*".to_string()];
    assert!(InputValidator::validate_file_patterns(&valid_patterns).is_ok());

    let invalid_patterns = vec!["[invalid".to_string()];
    assert!(InputValidator::validate_file_patterns(&invalid_patterns).is_err());
}

#[test]
fn utils_validation_tests_test_validate_file_patterns() {
    let valid_patterns = vec![
        "*.log".to_string(),
        "auth*".to_string(),
        "**/*.txt".to_string(),
    ];
    assert!(InputValidator::validate_file_patterns(&valid_patterns).is_ok());

    let invalid_patterns = vec!["[invalid".to_string()];
    assert!(InputValidator::validate_file_patterns(&invalid_patterns).is_err());

    let empty_patterns: Vec<String> = vec![];
    assert!(InputValidator::validate_file_patterns(&empty_patterns).is_ok());
}

#[test]
fn test_validate_metrics_port() {
    assert!(InputValidator::validate_metrics_port(9090).is_ok());
    assert!(InputValidator::validate_metrics_port(1024).is_ok());
    assert!(InputValidator::validate_metrics_port(80).is_err());
}

#[test]
fn test_validate_watch_interval() {
    assert!(InputValidator::validate_watch_interval(5).is_ok());
    assert!(InputValidator::validate_watch_interval(0).is_err());
    assert!(InputValidator::validate_watch_interval(4000).is_err());
}

#[test]
fn test_validate_file_type() {
    let expected = vec!["toml".to_string(), "json".to_string()];
    assert!(InputValidator::validate_file_type("config.toml", &expected).is_ok());
    assert!(InputValidator::validate_file_type("a/b/config.JSON", &expected).is_ok());
    assert!(InputValidator::validate_file_type("config.yaml", &expected).is_err());
    assert!(InputValidator::validate_file_type("noextension", &expected).is_err());
}

#[test]
fn test_validate_config_file_shape() {
    assert!(InputValidator::validate_config_file("conf.toml", true, true).is_ok());
    assert!(InputValidator::validate_config_file("conf.yml", true, true).is_ok());
    assert!(InputValidator::validate_config_file("conf.toml", false, false).is_err());
    assert!(InputValidator::validate_config_file("conf.toml", true, false).is_err());
    assert!(InputValidator::validate_config_file("conf.ini", true, true).is_err());
    assert!(InputValidator::validate_config_file("noext", true, true).is_err());
}

#[test]
fn test_validate_vrl_script_content() {
    assert!(InputValidator::validate_vrl_script_content(". = .").is_ok());
    assert!(InputValidator::validate_vrl_script_content("   ").is_err());
    assert!(InputValidator::validate_vrl_script_content("invalid {{").is_err());
}

#[test]
fn test_validate_output_path() {
    assert!(InputValidator::validate_output_path("./out", false, false, true).is_ok());
    assert!(InputValidator::validate_output_path("./out", true, true, true).is_ok());
    assert!(InputValidator::validate_output_path("./out", true, false, true).is_err());
    assert!(InputValidator::validate_output_path("./out", true, true, false).is_err());
    assert!(InputValidator::validate_output_path("./out", false, false, false).is_err());
}

#[test]
fn test_validate_transform_params() {
    assert!(InputValidator::validate_transform_params(
        "s.vrl", true, true, "in.log", true, true, false, "./out", false, false, true, 100
    )
    .is_ok());
    // first failing check decides: missing script
    assert!(InputValidator::validate_transform_params(
        "s.vrl", false, false, "in.log", true, true, false, "./out", false, false, true, 100
    )
    .is_err());
    // bad batch size
    assert!(InputValidator::validate_transform_params(
        "s.vrl", true, true, "in.log", true, true, false, "./out", false, false, true, 0
    )
    .is_err());
}

#[test]
fn test_validate_watch_params() {
    assert!(InputValidator::validate_watch_params(
        "s.vrl", true, true, "in", true, false, true, "./out", true, true, true, 5
    )
    .is_ok());
    assert!(InputValidator::validate_watch_params(
        "s.vrl", true, true, "in", true, false, true, "./out", true, true, true, 0
    )
    .is_err());
}
