use lens::{LensError, Result};

#[test]
fn test_execution_failed_error() {
    let error = LensError::ExecutionFailed("task crashed".to_string());
    assert_eq!(error.to_string(), "Lens execution failed: task crashed");
}

#[test]
fn test_invalid_context_error() {
    let error = LensError::InvalidContext("missing cwd".to_string());
    assert_eq!(error.to_string(), "Invalid lens context: missing cwd");
}

#[test]
fn test_invalid_input_error() {
    let error = LensError::InvalidInput("expected JSON object".to_string());
    assert_eq!(error.to_string(), "Invalid lens input: expected JSON object");
}

#[test]
fn test_lens_not_found_error() {
    let error = LensError::LensNotFound("figma".to_string());
    assert_eq!(error.to_string(), "Lens not found: figma");
}

#[test]
fn test_initialization_error() {
    let error = LensError::Initialization("no entry point".to_string());
    assert_eq!(error.to_string(), "Lens initialization failed: no entry point");
}

#[test]
fn test_stream_error() {
    let error = LensError::StreamError("channel closed".to_string());
    assert_eq!(error.to_string(), "Event stream error: channel closed");
}

#[test]
fn test_serialization_error_from_serde() {
    let json_error = serde_json::from_str::<serde_json::Value>("invalid").unwrap_err();
    let error: LensError = json_error.into();
    assert!(error.to_string().starts_with("Serialization error:"));
}

#[test]
fn test_serialization_error_carries_the_cause() {
    let json_error = serde_json::from_str::<serde_json::Value>("invalid").unwrap_err();
    let cause = json_error.to_string();
    assert!(!cause.is_empty());
    let error = LensError::from(json_error);
    assert_eq!(error.to_string(), format!("Serialization error: {}", cause));
}

#[test]
fn test_io_error_from_std() {
    let io_error = std::io::Error::new(std::io::ErrorKind::NotFound, "file not found");
    let error: LensError = io_error.into();
    assert!(error.to_string().starts_with("IO error:"));
    assert!(error.to_string().contains("file not found"));
}

#[test]
fn test_other_error() {
    let error = LensError::Other("unknown error".to_string());
    assert_eq!(error.to_string(), "unknown error");
}

#[test]
fn test_error_is_debug() {
    let error = LensError::ExecutionFailed("test".to_string());
    let debug_str = format!("{:?}", error);
    assert!(debug_str.contains("ExecutionFailed"));
}

#[test]
fn test_result_type_ok() {
    let result: Result<i32> = Ok(42);
    assert!(result.is_ok());
    assert_eq!(result.unwrap(), 42);
}

#[test]
fn test_result_type_err() {
    let result: Result<i32> = Err(LensError::Other("fail".to_string()));
    assert!(result.is_err());
}

struct BrokenReader;

impl std::io::Read for BrokenReader {
    fn read(&mut self, _buffer: &mut [u8]) -> std::io::Result<usize> {
        Err(std::io::Error::new(std::io::ErrorKind::BrokenPipe, "the pipe broke"))
    }
}

#[test]
fn test_serialization_error_of_the_io_category() {
    let json_error = serde_json::from_reader::<_, serde_json::Value>(BrokenReader).unwrap_err();
    assert!(json_error.is_io());
    let error = LensError::from(json_error);
    assert!(error.to_string().starts_with("Serialization error: "));
    assert!(error.to_string().contains("the pipe broke"));
}
