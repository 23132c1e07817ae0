use lens::{LensError, LensLoader, LoadEvent, LoadStage, LoadStep, LENS_ENTRY_POINT};
use std::path::PathBuf;

fn failure(step: LoadStep) -> LensError {
    match step {
        LoadStep::Failed(error) => error,
        other => panic!("Expected a failure, got {:?}", other),
    }
}

#[test]
fn test_loader_new() {
    let loader = LensLoader::new();
    assert_eq!(loader.loaded_count(), 0);
    assert_eq!(LensLoader::default().loaded_count(), 0);
}

#[test]
fn test_load_nonexistent_library() {
    let mut loader = LensLoader::new();
    let loading = loader.begin(PathBuf::from("/nonexistent/path/liblens.dylib"));
    assert_eq!(loading.current_stage(), LoadStage::CheckPath);
    let result = loader.advance(loading, LoadEvent::PathMissing);
    match failure(result) {
        LensError::LensNotFound(message) => {
            assert_eq!(message, "Library not found: \"/nonexistent/path/liblens.dylib\"");
        }
        other => panic!("Expected LensNotFound, got {:?}", other),
    }
    assert_eq!(loader.loaded_count(), 0);
}

#[test]
fn test_library_that_does_not_open() {
    let mut loader = LensLoader::new();
    let loading = loader.begin(PathBuf::from("/opt/lenses/libbroken.so"));
    let loading = match loader.advance(loading, LoadEvent::PathFound) {
        LoadStep::Open(loading) => loading,
        other => panic!("Expected to open the library, got {:?}", other),
    };
    assert_eq!(loading.current_stage(), LoadStage::OpenLibrary);
    let step = loader.advance(loading, LoadEvent::OpenFailed("invalid ELF header".to_string()));
    match failure(step) {
        LensError::Initialization(message) => assert_eq!(
            message,
            "Failed to load library \"/opt/lenses/libbroken.so\": invalid ELF header"
        ),
        other => panic!("Expected Initialization, got {:?}", other),
    }
    assert_eq!(loader.loaded_count(), 0);
}

#[test]
fn test_step_out_of_order() {
    let mut loader = LensLoader::new();
    let loading = loader.begin(PathBuf::from("/opt/lenses/libodd.so"));
    let step = loader.advance(loading, LoadEvent::InstanceCreated);
    match failure(step) {
        LensError::Initialization(message) => {
            assert_eq!(message, "Lens \"/opt/lenses/libodd.so\" reported a step out of order")
        }
        other => panic!("Expected Initialization, got {:?}", other),
    }
    assert_eq!(loader.loaded_count(), 0);

    let loading = loader.begin(PathBuf::from("/opt/lenses/libodd.so"));
    let loading = match loader.advance(loading, LoadEvent::PathFound) {
        LoadStep::Open(loading) => loading,
        other => panic!("Expected to open the library, got {:?}", other),
    };
    let step = loader.advance(loading, LoadEvent::EntryPointFound);
    assert!(matches!(failure(step), LensError::Initialization(_)));
    assert_eq!(loader.loaded_count(), 0);
}

#[test]
fn test_entry_point_name() {
    assert_eq!(LENS_ENTRY_POINT, "create_lens");
    assert_eq!(LENS_ENTRY_POINT.as_bytes(), b"create_lens");
}
