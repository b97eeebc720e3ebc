use lifx_api_server::error::{LifxError, LifxResult};
use std::io;

fn succeed() -> LifxResult<String> {
    Ok("Success".to_string())
}

fn fail_validation() -> LifxResult<String> {
    Err(LifxError::ValidationError("Test error".to_string()))
}

fn simulate_io_error() -> LifxResult<()> {
    let io_err = io::Error::new(io::ErrorKind::NotFound, "File not found");
    Err(io_err.into())
}

fn simulate_json_error() -> LifxResult<serde_json::Value> {
    let invalid_json = "{ invalid json }";
    serde_json::from_str(invalid_json).map_err(|e| e.into())
}

#[test]
fn test_missing_field_error() {
    let err = LifxError::MissingField("brightness".to_string());
    assert_eq!(err.to_string(), "Missing required field: brightness");
}

#[test]
fn test_validation_error() {
    let err = LifxError::ValidationError("Invalid color format".to_string());
    assert_eq!(err.to_string(), "Validation error: Invalid color format");
}

#[test]
fn error_tests_test_scene_not_found_error() {
    let err = LifxError::SceneNotFound("scene-123".to_string());
    assert_eq!(err.to_string(), "Scene not found: scene-123");
}

#[test]
fn test_device_not_found_error() {
    let err = LifxError::DeviceNotFound("device-456".to_string());
    assert_eq!(err.to_string(), "Device not found: device-456");
}

#[test]
fn test_mutex_poisoned_error() {
    let err = LifxError::MutexPoisoned("Test mutex error".to_string());
    assert_eq!(err.to_string(), "Mutex poisoned: Test mutex error");
}

#[test]
fn test_parse_error() {
    let err = LifxError::ParseError("Failed to parse integer".to_string());
    assert_eq!(err.to_string(), "Parse error: Failed to parse integer");
}

#[test]
fn test_config_error() {
    let err = LifxError::ConfigError("Missing SECRET_KEY".to_string());
    assert_eq!(err.to_string(), "Configuration error: Missing SECRET_KEY");
}

#[test]
fn test_remaining_error_texts() {
    assert_eq!(
        LifxError::EnvVarError("not set".to_string()).to_string(),
        "Environment variable error: not set"
    );
    assert_eq!(LifxError::FailureError("boom".to_string()).to_string(), "Failure error: boom");
}

#[test]
fn test_result_type_alias() {
    let result = succeed();
    assert!(result.is_ok());
    assert_eq!(result.unwrap(), "Success");
}

#[test]
fn test_result_error_propagation() {
    let result = fail_validation();
    assert!(result.is_err());

    if let Err(e) = result {
        assert_eq!(e.to_string(), "Validation error: Test error");
    }
}

#[test]
fn test_error_chaining_with_io() {
    let result = simulate_io_error();
    assert!(result.is_err());

    if let Err(e) = result {
        assert!(e.to_string().contains("Network error"));
        assert_eq!(e.to_string(), "Network error: File not found");
    }
}

#[test]
fn test_error_chaining_with_json() {
    let result = simulate_json_error();
    assert!(result.is_err());

    if let Err(e) = result {
        assert!(e.to_string().contains("JSON error"));
        assert!(e.to_string().len() > "JSON error: ".len());
    }
}
