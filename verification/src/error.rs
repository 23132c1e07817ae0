//! The error vocabulary of the lens contract.

use vstd::prelude::*;
use crate::json::{error_text, json_error_is_io, json_error_text};
use crate::text::join2;

verus! {

/// `std::io::Error`: what an input or output operation reports.
#[verifier::external_type_specification]
#[verifier::external_body]
pub struct ExIoError(std::io::Error);

/// Lens framework error types.
#[derive(Debug)]
pub enum LensError {
    /// The plugin's own logic failed.
    ExecutionFailed(String),
    /// The execution context handed to a plugin was malformed.
    InvalidContext(String),
    /// A manifest, an output contract or a runtime payload was malformed.
    InvalidInput(String),
    /// A discovery or lookup miss.
    LensNotFound(String),
    /// A loader-side failure.
    Initialization(String),
    /// A failure of the event channel.
    StreamError(String),
    /// A JSON serialization failure, passed through.
    SerializationError(serde_json::Error),
    /// An I/O failure, passed through.
    IoError(std::io::Error),
    /// Anything else.
    Other(String),
}

/// Result type for lens operations.
pub type Result<T> = std::result::Result<T, LensError>;

/// `Display` for `std::io::Error`: the text the error prints as. It may depend
/// on the system that reported the error, so nothing is stated of it.
#[verifier::external_body]
fn io_error_text(e: &std::io::Error) -> (r: String) {
    e.to_string()
}

impl LensError {
    /// What precedes the cause in the printed form of the error.
    pub open spec fn prefix(&self) -> Seq<char> {
        match self {
            LensError::ExecutionFailed(_) => "Lens execution failed: "@,
            LensError::InvalidContext(_) => "Invalid lens context: "@,
            LensError::InvalidInput(_) => "Invalid lens input: "@,
            LensError::LensNotFound(_) => "Lens not found: "@,
            LensError::Initialization(_) => "Lens initialization failed: "@,
            LensError::StreamError(_) => "Event stream error: "@,
            LensError::SerializationError(_) => "Serialization error: "@,
            LensError::IoError(_) => "IO error: "@,
            LensError::Other(_) => Seq::<char>::empty(),
        }
    }

    /// The cause that the error carries, where the library can tell it: not
    /// for `IoError`, nor for a `SerializationError` of the I/O category,
    /// whose text is the system's.
    pub open spec fn cause(&self) -> Option<Seq<char>> {
        match self {
            LensError::ExecutionFailed(s) => Some(s@),
            LensError::InvalidContext(s) => Some(s@),
            LensError::InvalidInput(s) => Some(s@),
            LensError::LensNotFound(s) => Some(s@),
            LensError::Initialization(s) => Some(s@),
            LensError::StreamError(s) => Some(s@),
            LensError::SerializationError(e) => if json_error_is_io(*e) {
                None
            } else {
                Some(json_error_text(*e))
            },
            LensError::IoError(_) => None,
            LensError::Other(s) => Some(s@),
        }
    }

    /// The printed form of the error: its prefix followed by its cause.
    pub fn to_string(&self) -> (r: String)
        ensures
            r@.len() >= self.prefix().len(),
            r@.subrange(0, self.prefix().len() as int) == self.prefix(),
            self.cause() matches Some(c) ==> r@ == self.prefix() + c,
    {
        let r = match self {
            LensError::ExecutionFailed(s) => join2("Lens execution failed: ", s.as_str()),
            LensError::InvalidContext(s) => join2("Invalid lens context: ", s.as_str()),
            LensError::InvalidInput(s) => join2("Invalid lens input: ", s.as_str()),
            LensError::LensNotFound(s) => join2("Lens not found: ", s.as_str()),
            LensError::Initialization(s) => join2("Lens initialization failed: ", s.as_str()),
            LensError::StreamError(s) => join2("Event stream error: ", s.as_str()),
            LensError::SerializationError(e) => {
                let cause = error_text(e);
                join2("Serialization error: ", cause.as_str())
            },
            LensError::IoError(e) => {
                let cause = io_error_text(e);
                join2("IO error: ", cause.as_str())
            },
            LensError::Other(s) => s.clone(),
        };
        assert(r@.subrange(0, self.prefix().len() as int) =~= self.prefix());
        assert(self.cause() matches Some(c) ==> r@ =~= self.prefix() + c);
        r
    }
}

impl From<serde_json::Error> for LensError {
    fn from(e: serde_json::Error) -> (r: LensError) {
        LensError::SerializationError(e)
    }
}

impl vstd::std_specs::convert::FromSpecImpl<serde_json::Error> for LensError {
    open spec fn obeys_from_spec() -> bool {
        true
    }

    open spec fn from_spec(e: serde_json::Error) -> LensError {
        LensError::SerializationError(e)
    }
}

impl From<std::io::Error> for LensError {
    fn from(e: std::io::Error) -> (r: LensError) {
        LensError::IoError(e)
    }
}

impl vstd::std_specs::convert::FromSpecImpl<std::io::Error> for LensError {
    open spec fn obeys_from_spec() -> bool {
        true
    }

    open spec fn from_spec(e: std::io::Error) -> LensError {
        LensError::IoError(e)
    }
}

} // verus!
