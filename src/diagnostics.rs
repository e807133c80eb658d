use vstd::prelude::*;
use vstd::string::*;

verus! {

/// The operator line announcing a new state of the diagnostics flag.
pub open spec fn status_text(enabled: bool) -> Seq<char> {
    if enabled {
        "Debug logging enabled"@
    } else {
        "Debug logging disabled"@
    }
}

/// What marks a diagnostics line.
pub open spec fn debug_marker() -> Seq<char> {
    "[LINDOS DEBUG] "@
}

/// The line to print when the diagnostics flag is set to `enabled`.
pub fn debug_status_line(enabled: bool) -> (r: &'static str)
    ensures
        r@ == status_text(enabled),
{
    if enabled {
        "Debug logging enabled"
    } else {
        "Debug logging disabled"
    }
}

/// The diagnostics line for `message`, or `None` while diagnostics are off.
pub fn debug_line(enabled: bool, message: &str) -> (r: Option<String>)
    ensures
        r is Some <==> enabled,
        r matches Some(line) ==> line@ == debug_marker() + message@,
{
    if enabled {
        let mut line = "[LINDOS DEBUG] ".to_owned();
        line.append(message);
        Some(line)
    } else {
        None
    }
}

} // verus!
