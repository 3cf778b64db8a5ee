//! Error normalization: the single internal error shape that any connector
//! failure, or an un-implemented capability, is reduced to before it reaches
//! the caller.

use vstd::prelude::*;
use vstd::string::StringExecFns;

verus! {

/// The normalized error that crosses the connector boundary: a flattened
/// code / message / optional reason, with no nested or raw error objects.
#[derive(Clone, Debug)]
pub struct ErrorResponse {
    pub code: String,
    pub message: String,
    pub reason: Option<String>,
}

impl ErrorResponse {
    /// A constructed error always carries a non-empty code and message.
    pub open spec fn well_formed(&self) -> bool {
        &&& self.code@.len() > 0
        &&& self.message@.len() > 0
    }

    /// The reserved error for a connector that does not support a requested
    /// flow. Construction is total and the result is always well formed,
    /// with no reason attached.
    pub fn get_not_implemented() -> (r: Self)
        ensures
            r.code@ == "NotImplemented"@,
            r.message@ == "This feature is not implemented by the connector"@,
            r.reason is None,
            r.well_formed(),
    {
        proof {
            reveal_strlit("NotImplemented");
            reveal_strlit("This feature is not implemented by the connector");
        }
        Self {
            code: String::from_str("NotImplemented"),
            message: String::from_str("This feature is not implemented by the connector"),
            reason: None,
        }
    }
}

} // verus!
