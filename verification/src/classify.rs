//! Disconnection classifier: decides whether a failure reported by the
//! bus transport is transient (worth retrying with backoff) or fatal
//! (configuration or permission trouble that retrying cannot help).
//! Bus errors surface as opaque strings, so the classification is a
//! case-insensitive substring match against the known transport-level
//! disconnection phrases.

use vstd::prelude::*;
use crate::text::{chars_of, contains_ci, contains_ci_exec};

verus! {

/// The error text names one of the transport-level disconnection
/// conditions, matched case-insensitively.
pub open spec fn is_transient_error_text(s: Seq<char>) -> bool {
    ||| contains_ci(s, "remote peer disconnected"@)
    ||| contains_ci(s, "connection closed"@)
    ||| contains_ci(s, "no reply"@)
    ||| contains_ci(s, "disconnected"@)
    ||| contains_ci(s, "broken pipe"@)
    ||| contains_ci(s, "transport endpoint is not connected"@)
}

/// Classifies an error description: true means transient (retry), false
/// means fatal (propagate). Matches each known disconnection phrase
/// case-insensitively anywhere in the text.
pub fn is_disconnection_error(text: &str) -> (r: bool)
    ensures
        r == is_transient_error_text(text@),
{
    let hay = chars_of(text);
    let p = chars_of("remote peer disconnected");
    if contains_ci_exec(&hay, &p) {
        return true;
    }
    let p = chars_of("connection closed");
    if contains_ci_exec(&hay, &p) {
        return true;
    }
    let p = chars_of("no reply");
    if contains_ci_exec(&hay, &p) {
        return true;
    }
    let p = chars_of("disconnected");
    if contains_ci_exec(&hay, &p) {
        return true;
    }
    let p = chars_of("broken pipe");
    if contains_ci_exec(&hay, &p) {
        return true;
    }
    let p = chars_of("transport endpoint is not connected");
    if contains_ci_exec(&hay, &p) {
        return true;
    }
    false
}

} // verus!
