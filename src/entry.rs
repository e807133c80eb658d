use vstd::prelude::*;
use vstd::string::*;
use vstd::utf8::*;

use crate::bridge::{handle_view, str_from_handle};
use crate::envelope::{outcome_envelope, RustResult};
use crate::error::{failure_text, ProcessingError};
use crate::reply::{
    echo_prefix, generate_reply, greeting, is_blank, reply_holds, text_code, text_code_of, trim_text, trimmed,
    MAX_MESSAGE_CHARS,
};

verus! {

/// The envelope that a checked call produces for a handle:
/// (success flag, text handed back, numeric code).
pub open spec fn checked_view(h: Option<Seq<u8>>) -> (bool, Seq<char>, i32) {
    match h {
        None => (false, failure_text(1), 1),
        Some(bytes) => {
            if !valid_utf8(bytes) {
                (false, failure_text(2), 2)
            } else {
                let text = decode_utf8(bytes);
                if is_blank(text) {
                    (true, greeting(), 0)
                } else if text.len() > MAX_MESSAGE_CHARS {
                    (false, failure_text(4), 4)
                } else {
                    (true, echo_prefix() + text, 0)
                }
            }
        },
    }
}

/// The code of the pre-check: the code that the checked call gives, found by
/// decoding, the blank test and the length limit alone.
pub open spec fn validate_view(h: Option<Seq<u8>>) -> i32 {
    match h {
        None => 1,
        Some(bytes) => {
            if !valid_utf8(bytes) {
                2
            } else {
                let text = decode_utf8(bytes);
                text_code(text, trimmed(text))
            }
        },
    }
}

/// `outcome` is what decoding `h` and running the transform give: the null
/// handle and ill-formed bytes fail at decoding, decoded text goes through
/// the transform.
pub open spec fn outcome_holds(outcome: Result<String, ProcessingError>, h: Option<Seq<u8>>) -> bool {
    match h {
        None => outcome matches Err(ProcessingError::NullPointer),
        Some(bytes) => {
            if !valid_utf8(bytes) {
                outcome matches Err(ProcessingError::InvalidUtf8(_))
            } else {
                let text = decode_utf8(bytes);
                reply_holds(outcome, text, trimmed(text))
            }
        },
    }
}

/// Decodes the message and runs the transform on it.
pub fn process_outcome(message: Option<&[u8]>) -> (r: Result<String, ProcessingError>)
    ensures
        outcome_holds(r, handle_view(message)),
        outcome_envelope(r) == checked_view(handle_view(message)),
{
    match str_from_handle(message) {
        Ok(input) => generate_reply(input),
        Err(error) => Err(error),
    }
}

/// The text handed back for an outcome: the reply, or the failure's message
/// in its place, with no other sign of which it is.
pub fn reply_or_message(outcome: Result<String, ProcessingError>) -> (r: String)
    ensures
        r@ == outcome_envelope(outcome).1,
{
    match outcome {
        Ok(reply) => reply,
        Err(error) => error.to_user_message().to_owned(),
    }
}

/// Decodes the message, runs the transform and wraps the outcome in an
/// envelope.
pub fn process_message_safe(message: Option<&[u8]>) -> (r: RustResult)
    ensures
        r@ == checked_view(handle_view(message)),
{
    RustResult::from_outcome(process_outcome(message))
}

/// Legacy form of the checked call: the reply, or the failure's message in
/// its place, with no other sign of which it is.
pub fn process_message(message: Option<&[u8]>) -> (r: String)
    ensures
        r@ == checked_view(handle_view(message)).1,
{
    reply_or_message(process_outcome(message))
}

/// The code that the checked call would give for the message, without
/// producing a reply: decoding, the blank test and the length limit only.
pub fn validate_message(message: Option<&[u8]>) -> (r: i32)
    ensures
        r == validate_view(handle_view(message)),
{
    match str_from_handle(message) {
        Ok(input) => text_code_of(input, trim_text(input)),
        Err(error) => error.code(),
    }
}

} // verus!
