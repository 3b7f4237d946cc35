//! The error type shared by initialisation, path lookup and browser setup.

use vstd::prelude::*;
use crate::text::concat;

verus! {

#[verifier::external_type_specification]
#[verifier::external_body]
pub struct ExIoError(std::io::Error);

/// Main error type for CEF operations.
#[derive(Debug)]
pub enum CefError {
    /// CEF framework loading failed (macOS only).
    FrameworkLoadFailed(String),
    /// CEF initialization failed.
    InitializationFailed(String),
    /// Browser creation failed.
    BrowserCreationFailed(String),
    /// Texture import or copy operation failed.
    TextureOperationFailed(String),
    /// Path resolution failed.
    PathError(std::io::Error),
    /// A required resource was not found.
    ResourceNotFound(String),
    /// GPU device access failed.
    GpuDeviceError(String),
}

/// Result type alias for CEF operations.
pub type CefResult<T> = Result<T, CefError>;

/// The fixed text that starts the message of each kind of error.
pub open spec fn message_prefix(e: CefError) -> Seq<char> {
    match e {
        CefError::FrameworkLoadFailed(_) => "Failed to load CEF framework: "@,
        CefError::InitializationFailed(_) => "Failed to initialize CEF: "@,
        CefError::BrowserCreationFailed(_) => "Failed to create browser: "@,
        CefError::TextureOperationFailed(_) => "Texture operation failed: "@,
        CefError::PathError(_) => "Path error: "@,
        CefError::ResourceNotFound(_) => "Resource not found: "@,
        CefError::GpuDeviceError(_) => "GPU device error: "@,
    }
}

/// The detail text carried by an error, where it is a string.
pub open spec fn detail_of(e: CefError) -> Option<Seq<char>> {
    match e {
        CefError::FrameworkLoadFailed(m) => Some(m@),
        CefError::InitializationFailed(m) => Some(m@),
        CefError::BrowserCreationFailed(m) => Some(m@),
        CefError::TextureOperationFailed(m) => Some(m@),
        CefError::PathError(_) => None,
        CefError::ResourceNotFound(m) => Some(m@),
        CefError::GpuDeviceError(m) => Some(m@),
    }
}

/// The operating system's description of an I/O error, as its `Display`
/// writes it. What the text says depends on the platform and is left
/// unsaid.
#[verifier::external_body]
fn io_error_text(e: &std::io::Error) -> String {
    format!("{}", e)
}

impl CefError {
    /// The human-readable message of the error: a fixed text naming the kind
    /// of failure, followed by its detail.
    pub fn message(&self) -> (r: String)
        ensures
            detail_of(*self) matches Some(d) ==> r@ == message_prefix(*self) + d,
            r@.len() >= message_prefix(*self).len(),
            detail_of(*self) is None ==> r@.take(message_prefix(*self).len() as int)
                == message_prefix(*self),
    {
        match self {
            CefError::FrameworkLoadFailed(msg) => concat("Failed to load CEF framework: ", msg.as_str()),
            CefError::InitializationFailed(msg) => concat("Failed to initialize CEF: ", msg.as_str()),
            CefError::BrowserCreationFailed(msg) => concat("Failed to create browser: ", msg.as_str()),
            CefError::TextureOperationFailed(msg) => concat("Texture operation failed: ", msg.as_str()),
            CefError::PathError(err) => {
                let text = io_error_text(err);
                let r = concat("Path error: ", text.as_str());
                assert(r@.take("Path error: "@.len() as int) =~= "Path error: "@);
                r
            },
            CefError::ResourceNotFound(resource) => concat("Resource not found: ", resource.as_str()),
            CefError::GpuDeviceError(msg) => concat("GPU device error: ", msg.as_str()),
        }
    }

    /// The underlying I/O error, which only a path error carries.
    pub fn source(&self) -> (r: Option<&std::io::Error>)
        ensures
            r is Some <==> *self is PathError,
            *self matches CefError::PathError(e) ==> r == Some(&e),
    {
        match self {
            CefError::PathError(err) => Some(err),
            _ => None,
        }
    }
}

/// The message of an error caused by another: the context, a colon, and
/// the cause's message.
pub open spec fn caused_message(context: Seq<char>, cause: CefError, m: Seq<char>) -> bool {
    let prefix = context + ": "@ + message_prefix(cause);
    &&& m.take(prefix.len() as int) == prefix
    &&& detail_of(cause) matches Some(d) ==> m == prefix + d
}

/// Joins a context and the message of its cause.
fn with_cause(context: &str, cause: &CefError) -> (r: String)
    ensures
        caused_message(context@, *cause, r@),
{
    proof {
        reveal_strlit(": ");
    }
    let mut v: Vec<char> = crate::text::chars_of(context);
    crate::text::push_str(&mut v, ": ");
    let m = cause.message();
    crate::text::push_str(&mut v, m.as_str());
    let ghost prefix = context@ + ": "@ + message_prefix(*cause);
    assert(v@ =~= context@ + ": "@ + m@);
    assert(v@.take(prefix.len() as int) =~= prefix) by {
        assert(m@.take(message_prefix(*cause).len() as int) == message_prefix(*cause));
        assert forall|i: int| 0 <= i < prefix.len() implies v@[i] == prefix[i] by {
            if i >= context@.len() + 2 {
                let k = i - context@.len() - 2;
                assert(m@.take(message_prefix(*cause).len() as int)[k] == m@[k]);
            }
        }
    }
    proof {
        if let Some(d) = detail_of(*cause) {
            assert(v@ =~= prefix + d);
        }
    }
    crate::text::string_from_chars(&v)
}

impl CefError {
    /// An initialization failure caused by `cause` while doing `context`
    /// (such as `Failed to get subprocess path`).
    pub fn initialization_failure(context: &str, cause: &CefError) -> (r: CefError)
        ensures
            r matches CefError::InitializationFailed(m) && caused_message(context@, *cause, m@),
    {
        CefError::InitializationFailed(with_cause(context, cause))
    }

    /// What CEF's initialization return code means: `1` is success, and any
    /// other code is an initialization failure.
    pub fn from_initialize_code(code: i32) -> (r: CefResult<()>)
        ensures
            r is Ok <==> code == 1,
            code != 1 ==> (r matches Err(CefError::InitializationFailed(m)) && m@
                == "CEF initialization returned error code"@),
    {
        if code != 1 {
            return Err(
                CefError::InitializationFailed("CEF initialization returned error code".to_string()),
            );
        }
        Ok(())
    }

    /// The failure to load the CEF framework because its path is unknown.
    pub fn framework_load_failure(cause: &CefError) -> (r: CefError)
        ensures
            r matches CefError::FrameworkLoadFailed(m) && caused_message(
                "Failed to get CEF framework path"@,
                *cause,
                m@,
            ),
    {
        CefError::FrameworkLoadFailed(with_cause("Failed to get CEF framework path", cause))
    }
}

impl From<std::io::Error> for CefError {
    fn from(err: std::io::Error) -> (r: CefError) {
        CefError::PathError(err)
    }
}

impl vstd::std_specs::convert::FromSpecImpl<std::io::Error> for CefError {
    open spec fn obeys_from_spec() -> bool {
        true
    }

    open spec fn from_spec(v: std::io::Error) -> CefError {
        CefError::PathError(v)
    }
}

} // verus!
