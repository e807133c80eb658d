use vstd::prelude::*;
use vstd::utf8::*;

use crate::error::ProcessingError;

verus! {

/// A foreign string handle seen as a value: `None` for the null handle, else
/// the bytes before its terminating zero.
pub open spec fn handle_view(handle: Option<&[u8]>) -> Option<Seq<u8>> {
    match handle {
        Some(bytes) => Some(bytes@),
        None => None,
    }
}

/// Relies on `std::str::from_utf8`: it succeeds exactly on well-formed UTF-8
/// and then borrows the same bytes as text.
#[verifier::external_body]
fn decode_text<'a>(bytes: &'a [u8]) -> (r: Result<&'a str, std::str::Utf8Error>)
    ensures
        r is Ok <==> valid_utf8(bytes@),
        r matches Ok(s) ==> s@ == decode_utf8(bytes@),
{
    std::str::from_utf8(bytes)
}

/// Turns a foreign handle into text borrowed from it, or says why it cannot.
pub fn str_from_handle<'a>(handle: Option<&'a [u8]>) -> (r: Result<&'a str, ProcessingError>)
    ensures
        handle is None ==> r matches Err(ProcessingError::NullPointer),
        handle is Some ==> (r is Ok <==> valid_utf8(handle->0@)),
        r matches Ok(s) ==> s@ == decode_utf8(handle->0@),
        handle is Some && r is Err ==> r->Err_0 is InvalidUtf8,
{
    match handle {
        None => Err(ProcessingError::NullPointer),
        Some(bytes) => match decode_text(bytes) {
            Ok(text) => Ok(text),
            Err(fault) => Err(ProcessingError::InvalidUtf8(fault)),
        },
    }
}

} // verus!
