use vstd::prelude::*;

verus! {

/// Relies on the type `std::str::Utf8Error`, the decode error of
/// `std::str::from_utf8`; it is only carried, never inspected.
#[verifier::external_type_specification]
#[verifier::external_body]
pub struct ExUtf8Error(std::str::Utf8Error);

/// What can go wrong while turning a foreign message into a reply.
#[derive(Debug, PartialEq)]
pub enum ProcessingError {
    NullPointer,
    InvalidUtf8(std::str::Utf8Error),
    EmptyMessage,
    ProcessingFailure(String),
}

/// Stable numeric code of each failure kind; `0` stands for success.
pub open spec fn error_code_of(e: ProcessingError) -> i32 {
    match e {
        ProcessingError::NullPointer => 1,
        ProcessingError::InvalidUtf8(_) => 2,
        ProcessingError::EmptyMessage => 3,
        ProcessingError::ProcessingFailure(_) => 4,
    }
}

/// The error catalog: the text registered for each numeric code.
pub open spec fn catalog_text(code: i32) -> Seq<char> {
    if code == 1 {
        "No message provided"@
    } else if code == 2 {
        "Message contains invalid characters"@
    } else if code == 3 {
        "Message cannot be empty"@
    } else if code == 4 {
        "Failed to process message"@
    } else {
        "Unknown error"@
    }
}

/// The fixed user-facing message registered for a failure code.
pub open spec fn failure_text(code: i32) -> Seq<char> {
    if code == 1 {
        "Error: No message provided"@
    } else if code == 2 {
        "Error: Message contains invalid characters"@
    } else if code == 3 {
        "Error: Message cannot be empty"@
    } else {
        "Error: Failed to process message"@
    }
}

/// The fixed user-facing message of a failure, whatever detail it carries.
pub open spec fn user_message(e: ProcessingError) -> Seq<char> {
    failure_text(error_code_of(e))
}

impl ProcessingError {
    /// The message shown to the caller for this failure.
    pub fn to_user_message(&self) -> (r: &'static str)
        ensures
            r@ == user_message(*self),
    {
        match self {
            ProcessingError::NullPointer => "Error: No message provided",
            ProcessingError::InvalidUtf8(_) => "Error: Message contains invalid characters",
            ProcessingError::EmptyMessage => "Error: Message cannot be empty",
            ProcessingError::ProcessingFailure(_) => "Error: Failed to process message",
        }
    }

    /// The numeric code that crosses the boundary for this failure.
    pub fn code(&self) -> (r: i32)
        ensures
            r == error_code_of(*self),
            1 <= r <= 4,
    {
        match self {
            ProcessingError::NullPointer => 1,
            ProcessingError::InvalidUtf8(_) => 2,
            ProcessingError::EmptyMessage => 3,
            ProcessingError::ProcessingFailure(_) => 4,
        }
    }
}

/// Looks `code` up in the error catalog; unknown codes give "Unknown error".
pub fn error_message(code: i32) -> (r: &'static str)
    ensures
        r@ == catalog_text(code),
{
    match code {
        1 => "No message provided",
        2 => "Message contains invalid characters",
        3 => "Message cannot be empty",
        4 => "Failed to process message",
        _ => "Unknown error",
    }
}

} // verus!
