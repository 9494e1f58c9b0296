use auxin::oxen_backend::{create_backend, create_default_backend, BackendType, OxenBackend, SubprocessBackend};

#[test]
fn test_backend_type_default() {
    assert_eq!(BackendType::default(), BackendType::Subprocess);
}

#[test]
fn test_create_subprocess_backend() {
    let backend = create_backend(BackendType::Subprocess);
    assert!(backend.is_ok());

    let backend = backend.unwrap();
    assert_eq!(backend.backend_type(), BackendType::Subprocess);
    assert_eq!(backend.name(), "OxenSubprocess");
}

#[test]
fn test_create_ffi_backend_not_available() {
    let backend = create_backend(BackendType::FFI);
    assert!(backend.is_err());

    let err = backend.err().unwrap().to_string();
    assert!(err.contains("not yet available"));
}

#[test]
fn test_create_default_backend() {
    let backend = create_default_backend();
    assert!(backend.is_ok());
    assert_eq!(backend.unwrap().backend_type(), BackendType::Subprocess);
}

#[test]
fn test_subprocess_backend_wrapper() {
    let backend = SubprocessBackend::default();
    assert_eq!(backend.backend_type(), BackendType::Subprocess);
    assert_eq!(backend.name(), "OxenSubprocess");
}
