// Tests for the compiled-program handle.
use perceptlog::runtime::VrlRuntime;
use perceptlog::NativeVal;

#[test]
fn lib_test_vrl_runtime_creation() {
    let script = r#".message = "Hello, VRL!""#;
    let runtime = VrlRuntime::new(script);
    assert!(runtime.is_ok());
}

#[test]
fn vrl_test_vrl_runtime_creation() {
    let script = r#".message = "Hello, VRL!""#;
    let result = VrlRuntime::new(script);
    assert!(result.is_ok());
}

#[test]
fn processing_runtime_tests_test_vrl_runtime_creation() {
    let script = r#".message = "Hello, VRL!""#;
    let result = VrlRuntime::new(script);
    assert!(result.is_ok());
}

#[test]
fn processing_vrl_tests_test_vrl_runtime_creation() {
    let script = r#".message = "Hello, VRL!""#;
    let result = VrlRuntime::new(script);
    assert!(result.is_ok());
}

#[test]
fn processing_runtime_tests_test_vrl_runtime_invalid_script() {
    let script = r#"invalid vrl syntax {{"#;
    let result = VrlRuntime::new(script);
    assert!(result.is_err());
}

#[test]
fn processing_vrl_tests_test_vrl_runtime_invalid_script() {
    let script = r#"invalid vrl syntax {{"#;
    let result = VrlRuntime::new(script);
    assert!(result.is_err());
}

#[test]
fn test_vrl_runtime_simple() {
    let script = r#".result = "Hello, VRL!""#;
    let mut runtime = VrlRuntime::new(script).unwrap();

    let input = NativeVal::Obj(vec![]);
    let output = runtime.transform(input).unwrap();

    // The script sets .result, so output could be the result value or modified object.
    // The engine returns the last expression value.
    assert!(matches!(output, NativeVal::Bytes(_) | NativeVal::Obj(_)));
}

#[test]
fn test_vrl_runtime_field_access() {
    let script = r#".message"#;
    let mut runtime = VrlRuntime::new(script).unwrap();

    let input = NativeVal::Obj(vec![(
        "message".to_string(),
        NativeVal::Bytes("test".to_string()),
    )]);

    let output = runtime.transform(input).unwrap();
    assert_eq!(output, NativeVal::Bytes("test".to_string()));
}

#[test]
fn processing_runtime_tests_test_vrl_runtime_simple_transform() {
    let script = r#". = .message"#;
    let result = VrlRuntime::new(script);
    assert!(result.is_ok(), "Simple transform script should compile");
}

#[test]
fn processing_vrl_tests_test_vrl_runtime_simple_transform() {
    let script = r#". = .message"#;
    let result = VrlRuntime::new(script);
    assert!(result.is_ok(), "Simple transform script should compile");
}
