//! Error messages for users.

use vstd::prelude::*;
use vstd::string::StringExecFns;
use crate::text::{contains, has_substring, join3, lowercase_of};

verus! {

/// Whether the lowercase text names a device that cannot be reached.
pub open spec fn says_unreachable(lower: Seq<char>) -> bool {
    has_substring(lower, "no route to host"@) || has_substring(lower, "ehostunreach"@)
        || has_substring(lower, "host unreachable"@) || has_substring(lower, "broken pipe"@)
        || has_substring(lower, "os error 32"@) || has_substring(lower, "os error 65"@)
}

/// Whether the lowercase text names a timeout.
pub open spec fn says_timeout(lower: Seq<char>) -> bool {
    has_substring(lower, "timeout"@) || has_substring(lower, "etimedout"@)
}

/// Whether the lowercase text names a refused connection.
pub open spec fn says_refused(lower: Seq<char>) -> bool {
    has_substring(lower, "econnrefused"@) || has_substring(lower, "connection refused"@)
}

/// Whether the lowercase text names a failed authentication.
pub open spec fn says_auth(lower: Seq<char>) -> bool {
    has_substring(lower, "auth"@) || has_substring(lower, "password"@)
}

/// The message for a device that cannot be reached, up to the error.
pub open spec fn unreachable_lead() -> Seq<char> {
    "Device is unreachable — make sure the ZKTeco device is powered on, connected to the network, and on the same subnet as this computer. ("@
}

/// The message for a timeout, up to the error.
pub open spec fn timeout_lead() -> Seq<char> {
    "Connection timeout — the device did not respond in time. It may be off, unreachable, or the IP/port may be wrong. ("@
}

/// The message that a user reads for `error`, whose lowercase form is
/// `lower`. The first category that the text falls under decides:
/// unreachable, timeout, refused, authentication; any other text stays as
/// it is.
pub open spec fn friendly_error(error: Seq<char>, lower: Seq<char>) -> Seq<char> {
    if says_unreachable(lower) {
        unreachable_lead() + error + ")"@
    } else if says_timeout(lower) {
        timeout_lead() + error + ")"@
    } else if says_refused(lower) {
        "Connection refused — check if device is powered on and network accessible"@
    } else if says_auth(lower) {
        "Authentication failed — check communication key"@
    } else {
        error
    }
}

/// Turns an error into the message for a user, given its lowercase form.
pub fn classify_error(error: &str, lower: &str) -> (message: String)
    ensures
        message@ == friendly_error(error@, lower@),
{
    if contains(lower, "no route to host") || contains(lower, "ehostunreach") || contains(
        lower,
        "host unreachable",
    ) || contains(lower, "broken pipe") || contains(lower, "os error 32") || contains(
        lower,
        "os error 65",
    ) {
        return join3(
            "Device is unreachable — make sure the ZKTeco device is powered on, connected to the network, and on the same subnet as this computer. (",
            error,
            ")",
        );
    }
    if contains(lower, "timeout") || contains(lower, "etimedout") {
        return join3(
            "Connection timeout — the device did not respond in time. It may be off, unreachable, or the IP/port may be wrong. (",
            error,
            ")",
        );
    }
    if contains(lower, "econnrefused") || contains(lower, "connection refused") {
        return "Connection refused — check if device is powered on and network accessible"
            .to_string();
    }
    if contains(lower, "auth") || contains(lower, "password") {
        return "Authentication failed — check communication key".to_string();
    }
    String::from_str(error)
}

/// Turns an error into the message for a user: the text is put in
/// lowercase and falls under the first category whose words it holds.
pub fn format_error(error: &str) -> (message: String)
    ensures
        message@ == friendly_error(error@, lowercase_of(error@)),
{
    let lower = error.to_lowercase();
    classify_error(error, lower.as_str())
}

} // verus!
