// Tests for file-name selection.
use perceptlog::FileReader;

#[test]
fn io_reader_tests_test_file_pattern_matching() {
    let patterns = vec!["*.log".to_string(), "auth*".to_string()];

    // Test that patterns are valid
    for pattern in patterns {
        assert!(glob::Pattern::new(&pattern).is_ok());
    }
}

#[test]
fn io_test_file_pattern_matching() {
    let include_patterns = vec!["*.log".to_string(), "auth*".to_string()];
    let exclude_patterns = vec!["*.tmp".to_string()];

    assert!(FileReader::should_process_file(
        "test.log",
        &include_patterns,
        &exclude_patterns
    ));

    assert!(FileReader::should_process_file(
        "auth.txt",
        &include_patterns,
        &exclude_patterns
    ));

    assert!(!FileReader::should_process_file(
        "test.tmp",
        &include_patterns,
        &exclude_patterns
    ));

    assert!(!FileReader::should_process_file(
        "other.txt",
        &include_patterns,
        &exclude_patterns
    ));
}

#[test]
fn test_empty_include_admits_everything_not_excluded() {
    let inc: Vec<String> = vec![];
    let exc = vec!["*.tmp".to_string()];
    assert!(FileReader::should_process_file("anything.log", &inc, &exc));
    assert!(!FileReader::should_process_file("scratch.tmp", &inc, &exc));
}
