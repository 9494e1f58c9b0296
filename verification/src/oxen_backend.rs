//! The kinds of Oxen backends and their construction.
use vstd::prelude::*;

verus! {

/// Backend implementation type.
#[derive(Debug, Clone, Copy, PartialEq, Eq, Structural)]
pub enum BackendType {
    /// Subprocess calls to the `oxen` command line tool.
    Subprocess,
    /// Direct bindings to liboxen (not available yet).
    FFI,
}

impl Default for BackendType {
    /// The subprocess backend.
    fn default() -> (t: Self)
        ensures
            t == BackendType::Subprocess,
    {
        BackendType::Subprocess
    }
}

/// Operations every backend answers about itself.
pub trait OxenBackend {
    /// The backend type.
    fn backend_type(&self) -> BackendType;

    /// The backend name for logging.
    fn name(&self) -> &'static str;
}

/// Error raised when a backend cannot be created.
#[derive(Debug, Clone)]
pub struct BackendError {
    pub message: String,
}

impl BackendError {
    /// The error message.
    pub fn to_string(&self) -> (s: String)
        ensures
            s@ == self.message@,
    {
        self.message.clone()
    }
}

/// Backend that runs the `oxen` command line tool.
#[derive(Debug, Clone)]
pub struct SubprocessBackend {}

impl SubprocessBackend {
    /// A subprocess backend.
    pub fn new() -> (b: Self) {
        SubprocessBackend {}
    }

    /// A subprocess backend with default settings.
    pub fn default() -> (b: Self) {
        SubprocessBackend {}
    }
}

impl OxenBackend for SubprocessBackend {
    fn backend_type(&self) -> (t: BackendType)
        ensures
            t == BackendType::Subprocess,
    {
        BackendType::Subprocess
    }

    fn name(&self) -> (n: &'static str)
        ensures
            n@ == "OxenSubprocess"@,
    {
        "OxenSubprocess"
    }
}

/// Backend using direct liboxen bindings; not implemented yet.
#[derive(Debug, Clone)]
pub struct FFIBackend {}

/// The message of the error for the FFI backend.
pub open spec fn ffi_unavailable_message() -> Seq<char> {
    "FFI backend not yet available: the liboxen bindings are not implemented"@
}

impl FFIBackend {
    /// Always fails: the FFI backend is not implemented.
    pub fn new() -> (r: Result<Self, BackendError>)
        ensures
            r matches Err(e) && e.message@ == ffi_unavailable_message(),
    {
        Err(BackendError { message: "FFI backend not yet available: the liboxen bindings are not implemented".to_owned() })
    }
}

/// A backend of the given type: the subprocess backend, or an error for the
/// FFI backend, which is not available yet.
pub fn create_backend(backend_type: BackendType) -> (r: Result<SubprocessBackend, BackendError>)
    ensures
        backend_type == BackendType::Subprocess <==> r is Ok,
        r matches Err(e) ==> e.message@ == ffi_unavailable_message(),
{
    match backend_type {
        BackendType::Subprocess => Ok(SubprocessBackend::new()),
        BackendType::FFI => Err(BackendError { message: "FFI backend not yet available: the liboxen bindings are not implemented".to_owned() }),
    }
}

/// The default backend (subprocess).
pub fn create_default_backend() -> (r: Result<SubprocessBackend, BackendError>)
    ensures
        r is Ok,
{
    create_backend(BackendType::default())
}

} // verus!
