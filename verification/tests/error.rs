use gdcef::error::CefError;

#[test]
fn messages_name_the_kind_of_failure() {
    assert_eq!(CefError::FrameworkLoadFailed("x".to_string()).message(), "Failed to load CEF framework: x");
    assert_eq!(CefError::InitializationFailed("y".to_string()).message(), "Failed to initialize CEF: y");
    assert_eq!(CefError::BrowserCreationFailed("z".to_string()).message(), "Failed to create browser: z");
    assert_eq!(CefError::TextureOperationFailed("t".to_string()).message(), "Texture operation failed: t");
    assert_eq!(CefError::ResourceNotFound("dylib path".to_string()).message(), "Resource not found: dylib path");
    assert_eq!(CefError::GpuDeviceError("g".to_string()).message(), "GPU device error: g");
}

#[test]
fn path_errors_carry_the_io_error() {
    let io = std::io::Error::new(std::io::ErrorKind::NotFound, "no such file");
    let e: CefError = CefError::from(io);
    assert!(e.message().starts_with("Path error: "));
    assert!(e.message().ends_with("no such file"));
    assert_eq!(e.source().map(|s| s.kind()), Some(std::io::ErrorKind::NotFound));
    assert!(CefError::GpuDeviceError("g".to_string()).source().is_none());
}

#[test]
fn errors_with_a_cause_keep_its_message() {
    let cause = CefError::ResourceNotFound("dylib path".to_string());
    match CefError::initialization_failure("Failed to get subprocess path", &cause) {
        CefError::InitializationFailed(m) => {
            assert_eq!(m, "Failed to get subprocess path: Resource not found: dylib path")
        }
        _ => panic!("expected an initialization failure"),
    }
    match CefError::framework_load_failure(&cause) {
        CefError::FrameworkLoadFailed(m) => {
            assert_eq!(m, "Failed to get CEF framework path: Resource not found: dylib path")
        }
        _ => panic!("expected a framework load failure"),
    }
}

#[test]
fn initialize_code_one_is_success() {
    assert!(CefError::from_initialize_code(1).is_ok());
    match CefError::from_initialize_code(0) {
        Err(CefError::InitializationFailed(m)) => {
            assert_eq!(m, "CEF initialization returned error code")
        }
        _ => panic!("expected an initialization failure"),
    }
    assert!(CefError::from_initialize_code(-1).is_err());
}
