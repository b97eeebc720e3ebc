//! The errors of the gateway.

use vstd::prelude::*;
use vstd::std_specs::convert::FromSpecImpl;
use crate::text::join;

verus! {

/// `std::io::Error`: an error of input or output.  A value of it is carried
/// through as it is; nothing is known of what it holds.
#[verifier::external_type_specification]
#[verifier::external_body]
pub struct ExIoError(std::io::Error);

/// `serde_json::Error`: an error of reading or writing JSON.  A value of it
/// is carried through as it is; nothing is known of what it holds.
#[verifier::external_type_specification]
#[verifier::external_body]
pub struct ExJsonError(serde_json::Error);

/// What can go wrong in the gateway.
#[derive(Debug)]
pub enum LifxError {
    Network(std::io::Error),
    MissingField(String),
    ValidationError(String),
    ConfigError(String),
    MutexPoisoned(String),
    ParseError(String),
    SceneNotFound(String),
    DeviceNotFound(String),
    JsonError(serde_json::Error),
    EnvVarError(String),
    FailureError(String),
}

/// The result of an operation of the gateway.
pub type LifxResult<T> = Result<T, LifxError>;

/// The `Display` text of a `std::io::Error`.  Nothing is claimed of the
/// text.
#[verifier::external_body]
fn io_error_text(e: &std::io::Error) -> String {
    e.to_string()
}

/// The `Display` text of a `serde_json::Error`.  Nothing is claimed of the
/// text.
#[verifier::external_body]
fn json_error_text(e: &serde_json::Error) -> String {
    e.to_string()
}

/// The words with which the report of an error begins.
pub open spec fn error_heading(e: LifxError) -> Seq<char> {
    match e {
        LifxError::Network(_) => "Network error: "@,
        LifxError::MissingField(_) => "Missing required field: "@,
        LifxError::ValidationError(_) => "Validation error: "@,
        LifxError::ConfigError(_) => "Configuration error: "@,
        LifxError::MutexPoisoned(_) => "Mutex poisoned: "@,
        LifxError::ParseError(_) => "Parse error: "@,
        LifxError::SceneNotFound(_) => "Scene not found: "@,
        LifxError::DeviceNotFound(_) => "Device not found: "@,
        LifxError::JsonError(_) => "JSON error: "@,
        LifxError::EnvVarError(_) => "Environment variable error: "@,
        LifxError::FailureError(_) => "Failure error: "@,
    }
}

/// The detail that an error carries as text, if it carries one.
pub open spec fn error_detail(e: LifxError) -> Option<Seq<char>> {
    match e {
        LifxError::Network(_) => None,
        LifxError::MissingField(s) => Some(s@),
        LifxError::ValidationError(s) => Some(s@),
        LifxError::ConfigError(s) => Some(s@),
        LifxError::MutexPoisoned(s) => Some(s@),
        LifxError::ParseError(s) => Some(s@),
        LifxError::SceneNotFound(s) => Some(s@),
        LifxError::DeviceNotFound(s) => Some(s@),
        LifxError::JsonError(_) => None,
        LifxError::EnvVarError(s) => Some(s@),
        LifxError::FailureError(s) => Some(s@),
    }
}

impl LifxError {
    /// The report of the error: its heading and its detail.  Of an error
    /// that wraps one of another library, the detail is that error's own
    /// text.
    pub fn to_string(&self) -> (r: String)
        ensures
            error_heading(*self).is_prefix_of(r@),
            error_detail(*self).is_some() ==> r@ == error_heading(*self) + error_detail(
                *self,
            ).unwrap(),
    {
        let r = match self {
            LifxError::Network(e) => join("Network error: ", io_error_text(e).as_str()),
            LifxError::MissingField(s) => join("Missing required field: ", s.as_str()),
            LifxError::ValidationError(s) => join("Validation error: ", s.as_str()),
            LifxError::ConfigError(s) => join("Configuration error: ", s.as_str()),
            LifxError::MutexPoisoned(s) => join("Mutex poisoned: ", s.as_str()),
            LifxError::ParseError(s) => join("Parse error: ", s.as_str()),
            LifxError::SceneNotFound(s) => join("Scene not found: ", s.as_str()),
            LifxError::DeviceNotFound(s) => join("Device not found: ", s.as_str()),
            LifxError::JsonError(e) => join("JSON error: ", json_error_text(e).as_str()),
            LifxError::EnvVarError(s) => join("Environment variable error: ", s.as_str()),
            LifxError::FailureError(s) => join("Failure error: ", s.as_str()),
        };
        assert(error_heading(*self).is_prefix_of(r@)) by {
            assert(r@.subrange(0, error_heading(*self).len() as int) =~= error_heading(*self));
        }
        r
    }
}

impl From<std::io::Error> for LifxError {
    fn from(err: std::io::Error) -> (r: LifxError) {
        LifxError::Network(err)
    }
}

impl FromSpecImpl<std::io::Error> for LifxError {
    open spec fn obeys_from_spec() -> bool {
        true
    }

    open spec fn from_spec(err: std::io::Error) -> LifxError {
        LifxError::Network(err)
    }
}

impl From<serde_json::Error> for LifxError {
    fn from(err: serde_json::Error) -> (r: LifxError) {
        LifxError::JsonError(err)
    }
}

impl FromSpecImpl<serde_json::Error> for LifxError {
    open spec fn obeys_from_spec() -> bool {
        true
    }

    open spec fn from_spec(err: serde_json::Error) -> LifxError {
        LifxError::JsonError(err)
    }
}

} // verus!
