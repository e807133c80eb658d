use vstd::prelude::*;
use vstd::utf8::*;

use crate::entry::{checked_view, validate_view};
use crate::error::{catalog_text, error_code_of, failure_text, user_message, ProcessingError};
use crate::reply::{echo_prefix, greeting, is_blank, MAX_MESSAGE_CHARS};

verus! {

broadcast use {encode_utf8_valid_utf8, encode_utf8_decode_utf8};

/// Any text that is not blank and is at most the length limit is echoed
/// after the prefix, with success and code `0`.
pub proof fn lemma_plain_text_echoed(text: Seq<char>)
    requires
        0 < text.len() <= MAX_MESSAGE_CHARS,
        !is_blank(text),
    ensures
        checked_view(Some(encode_utf8(text))) == (true, echo_prefix() + text, 0i32),
{
}

/// Any blank text, the empty text included, is answered with the greeting,
/// with success and code `0`.
pub proof fn lemma_blank_text_greeted(text: Seq<char>)
    requires
        is_blank(text),
    ensures
        checked_view(Some(encode_utf8(text))) == (true, greeting(), 0i32),
{
}

/// Text over the length limit that is not blank fails with code `4`, in the
/// checked call and in the pre-check alike.
pub proof fn lemma_long_text_rejected(text: Seq<char>)
    requires
        text.len() > MAX_MESSAGE_CHARS,
    ensures
        !is_blank(text) ==> checked_view(Some(encode_utf8(text))).0 == false,
        !is_blank(text) ==> checked_view(Some(encode_utf8(text))).2 == 4,
        !is_blank(text) ==> validate_view(Some(encode_utf8(text))) == 4,
{
}

/// The null handle fails with code `1` on every entry point, and the text
/// handed back is the message of that failure.
pub proof fn lemma_null_handle_refused()
    ensures
        checked_view(None) == (false, user_message(ProcessingError::NullPointer), 1i32),
        validate_view(None) == 1,
{
}

/// The user-facing message of each failure is "Error: " followed by the
/// catalog entry of its code.
pub proof fn lemma_catalog_matches_messages(e: ProcessingError)
    ensures
        user_message(e) == "Error: "@ + catalog_text(error_code_of(e)),
{
    reveal_strlit("Error: ");
    reveal_strlit("No message provided");
    reveal_strlit("Message contains invalid characters");
    reveal_strlit("Message cannot be empty");
    reveal_strlit("Failed to process message");
    reveal_strlit("Error: No message provided");
    reveal_strlit("Error: Message contains invalid characters");
    reveal_strlit("Error: Message cannot be empty");
    reveal_strlit("Error: Failed to process message");
    assert(failure_text(error_code_of(e)) =~= "Error: "@ + catalog_text(error_code_of(e)));
}

/// The pre-check gives the code that the checked call produces, for every
/// handle.
pub proof fn lemma_validate_predicts_checked(h: Option<Seq<u8>>)
    ensures
        validate_view(h) == checked_view(h).2,
        validate_view(h) == 0 <==> checked_view(h).0,
{
}

/// No character of `s` is the zero character, so `s` fits in a C string.
pub open spec fn has_no_nul(s: Seq<char>) -> bool {
    forall|i: int| 0 <= i < s.len() ==> s[i] != '\0'
}

/// A zero character in `chars` shows up as a zero byte in its encoding.
proof fn lemma_encoded_nul(chars: Seq<char>, i: int)
    requires
        0 <= i < chars.len(),
        chars[i] == '\0',
    ensures
        exists|j: int| 0 <= j < encode_utf8(chars).len() && encode_utf8(chars)[j] == 0u8,
    decreases i,
{
    let head = encode_scalar(chars[0] as u32);
    let rest = encode_utf8(chars.drop_first());
    assert(encode_utf8(chars) == head + rest);
    if i == 0 {
        assert(chars[0] as u32 == 0u32);
        assert((0u32 & 0x7Fu32) == 0u32) by (bit_vector);
        assert(head[0] == 0u8);
        assert(encode_utf8(chars)[0] == 0u8);
    } else {
        lemma_encoded_nul(chars.drop_first(), i - 1);
        let j = choose|j: int| 0 <= j < rest.len() && rest[j] == 0u8;
        assert(encode_utf8(chars)[head.len() + j] == 0u8);
    }
}

/// Decoding bytes without a zero byte gives text without a zero character.
proof fn lemma_decoded_has_no_nul(bytes: Seq<u8>)
    requires
        valid_utf8(bytes),
        forall|i: int| 0 <= i < bytes.len() ==> bytes[i] != 0u8,
    ensures
        has_no_nul(decode_utf8(bytes)),
{
    broadcast use decode_utf8_encode_utf8;

    let text = decode_utf8(bytes);
    assert forall|i: int| 0 <= i < text.len() implies text[i] != '\0' by {
        if text[i] == '\0' {
            lemma_encoded_nul(text, i);
        }
    }
}

/// Every text handed back for a handle whose bytes hold no zero byte (as
/// those of a C string never do) is free of zero characters, and so can be
/// returned as a C string.
pub proof fn lemma_replies_fit_c_strings(h: Option<Seq<u8>>)
    requires
        h is Some ==> forall|i: int| 0 <= i < h->0.len() ==> h->0[i] != 0u8,
    ensures
        has_no_nul(checked_view(h).1),
{
    reveal_strlit("Error: No message provided");
    reveal_strlit("Error: Message contains invalid characters");
    reveal_strlit("Error: Failed to process message");
    reveal_strlit("Hello from Rust core!");
    reveal_strlit("You said: ");
    if h is Some && valid_utf8(h->0) {
        let text = decode_utf8(h->0);
        lemma_decoded_has_no_nul(h->0);
        let out = echo_prefix() + text;
        assert forall|i: int| 0 <= i < out.len() implies out[i] != '\0' by {
            if i >= echo_prefix().len() {
                assert(out[i] == text[i - echo_prefix().len()]);
            }
        }
    }
}

/// Every entry in the error catalog is free of zero characters.
pub proof fn lemma_catalog_fits_c_strings(code: i32)
    ensures
        has_no_nul(catalog_text(code)),
{
    reveal_strlit("No message provided");
    reveal_strlit("Message contains invalid characters");
    reveal_strlit("Message cannot be empty");
    reveal_strlit("Failed to process message");
    reveal_strlit("Unknown error");
}

} // verus!
