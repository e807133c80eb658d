use vstd::prelude::*;

use crate::error::{error_code_of, user_message, ProcessingError};

verus! {

/// Outcome of a checked call as it crosses the boundary: a success flag, the
/// text handed to the caller (the reply, or the failure's message), and the
/// numeric code (`0` on success).
pub struct RustResult {
    pub success: bool,
    pub data: String,
    pub error_code: i32,
}

impl View for RustResult {
    type V = (bool, Seq<char>, i32);

    open spec fn view(&self) -> (bool, Seq<char>, i32) {
        (self.success, self.data@, self.error_code)
    }
}

/// The envelope for the outcome of the transform: the reply with code `0`,
/// or the failure's fixed message and its code.
pub open spec fn outcome_envelope(outcome: Result<String, ProcessingError>) -> (bool, Seq<char>, i32) {
    match outcome {
        Ok(reply) => (true, reply@, 0),
        Err(error) => (false, user_message(error), error_code_of(error)),
    }
}

impl RustResult {
    /// A successful envelope carrying `data`.
    pub fn success(data: String) -> (r: Self)
        ensures
            r@ == (true, data@, 0i32),
    {
        RustResult { success: true, data, error_code: 0 }
    }

    /// A failed envelope carrying the failure's fixed message and its code.
    pub fn error(error: ProcessingError) -> (r: Self)
        ensures
            r@ == (false, user_message(error), error_code_of(error)),
    {
        let message = error.to_user_message().to_owned();
        let code = error.code();
        RustResult { success: false, data: message, error_code: code }
    }

    /// The envelope for the outcome of the transform.
    pub fn from_outcome(outcome: Result<String, ProcessingError>) -> (r: Self)
        ensures
            r@ == outcome_envelope(outcome),
    {
        match outcome {
            Ok(reply) => RustResult::success(reply),
            Err(error) => RustResult::error(error),
        }
    }
}

} // verus!
