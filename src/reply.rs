use vstd::prelude::*;
use vstd::string::*;

use crate::error::ProcessingError;

verus! {

/// Longest message, in characters, that the transform accepts.
pub const MAX_MESSAGE_CHARS: usize = 1000;

/// `text` with leading and trailing white space removed, as `str::trim`
/// computes it.
pub uninterp spec fn trimmed(text: Seq<char>) -> Seq<char>;

/// Relies on `str::trim`: the text without its surrounding white space,
/// borrowed from the input; an empty input stays empty.
#[verifier::external_body]
pub(crate) fn trim_text<'a>(text: &'a str) -> (r: &'a str)
    ensures
        r@ == trimmed(text@),
        text@.len() == 0 ==> r@.len() == 0,
{
    text.trim()
}

/// Text that holds nothing but white space (the empty text included).
pub open spec fn is_blank(text: Seq<char>) -> bool {
    trimmed(text).len() == 0
}

/// The reply to blank input.
pub open spec fn greeting() -> Seq<char> {
    "Hello from Rust core!"@
}

/// What precedes the echoed input in a reply.
pub open spec fn echo_prefix() -> Seq<char> {
    "You said: "@
}

/// The detail carried by the failure for an over-long message.
pub open spec fn too_long_detail() -> Seq<char> {
    "Message too long"@
}

/// `r` is the outcome of the transform on `text`, whose trimmed form is
/// `trimmed_text`: blank text is greeted, text over the limit fails, and any
/// other text is echoed after the prefix.
pub open spec fn reply_holds(
    r: Result<String, ProcessingError>,
    text: Seq<char>,
    trimmed_text: Seq<char>,
) -> bool {
    if trimmed_text.len() == 0 {
        r matches Ok(s) && s@ == greeting()
    } else if text.len() > MAX_MESSAGE_CHARS {
        r matches Err(ProcessingError::ProcessingFailure(d)) && d@ == too_long_detail()
    } else {
        r matches Ok(s) && s@ == echo_prefix() + text
    }
}

/// The transform, given the input and its trimmed form.
pub fn compose_reply(input: &str, trimmed_input: &str) -> (r: Result<String, ProcessingError>)
    ensures
        reply_holds(r, input@, trimmed_input@),
{
    if trimmed_input.is_empty() {
        return Ok("Hello from Rust core!".to_owned());
    }
    if input.unicode_len() > MAX_MESSAGE_CHARS {
        return Err(ProcessingError::ProcessingFailure("Message too long".to_owned()));
    }
    let mut output = "You said: ".to_owned();
    output.append(input);
    Ok(output)
}

/// The code of the transform's outcome on `text`, whose trimmed form is
/// `trimmed_text`: `4` for text that is not blank and over the limit, else `0`.
pub open spec fn text_code(text: Seq<char>, trimmed_text: Seq<char>) -> i32 {
    if trimmed_text.len() != 0 && text.len() > MAX_MESSAGE_CHARS {
        4
    } else {
        0
    }
}

/// The code that the transform would give, given the input and its trimmed
/// form, without building the reply.
pub fn text_code_of(input: &str, trimmed_input: &str) -> (r: i32)
    ensures
        r == text_code(input@, trimmed_input@),
{
    if !trimmed_input.is_empty() && input.unicode_len() > MAX_MESSAGE_CHARS {
        4
    } else {
        0
    }
}

/// The reply to a decoded message: a greeting for blank input, a failure for
/// input over the length limit, the input echoed after a prefix otherwise.
pub fn generate_reply(input: &str) -> (r: Result<String, ProcessingError>)
    ensures
        reply_holds(r, input@, trimmed(input@)),
{
    let trimmed_input = trim_text(input);
    compose_reply(input, trimmed_input)
}

} // verus!
