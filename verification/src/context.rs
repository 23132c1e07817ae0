//! The result that a lens returns from a run.

use vstd::prelude::*;
use crate::json::{json_is_null, null};

verus! {

/// Result returned from lens execution.
#[derive(Debug, Clone)]
pub struct LensResult {
    /// Success or failure.
    pub success: bool,
    /// Lens-specific output data.
    pub output: serde_json::Value,
    /// Optional message.
    pub message: Option<String>,
}

impl LensResult {
    /// Create a success result.
    pub fn success(output: serde_json::Value) -> (r: Self)
        ensures
            r.success,
            r.output == output,
            r.message is None,
    {
        LensResult { success: true, output, message: None }
    }

    /// Create a success result with message.
    pub fn success_with_message(output: serde_json::Value, message: String) -> (r: Self)
        ensures
            r.success,
            r.output == output,
            r.message == Some(message),
    {
        LensResult { success: true, output, message: Some(message) }
    }

    /// Create a failure result; its output is `null`.
    pub fn failure(message: String) -> (r: Self)
        ensures
            !r.success,
            json_is_null(r.output),
            r.message == Some(message),
    {
        LensResult { success: false, output: null(), message: Some(message) }
    }

    /// Create a failure result with output.
    pub fn failure_with_output(output: serde_json::Value, message: String) -> (r: Self)
        ensures
            !r.success,
            r.output == output,
            r.message == Some(message),
    {
        LensResult { success: false, output, message: Some(message) }
    }
}

} // verus!
