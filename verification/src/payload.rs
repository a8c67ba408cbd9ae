//! Extracting a printable message from the dynamically-typed panic payload.
//!
//! The runtime hands the hook a payload with no fixed contract. The only
//! representations this crate can read are the two string shapes user code
//! normally panics with; everything else degrades to a fixed fallback
//! literal, a deliberate, documented information loss.

use vstd::prelude::*;

verus! {

/// The panic payload, reduced to the shapes the formatter can distinguish.
///
/// The caller that receives the raw dynamically-typed payload from the
/// runtime probes it in this order and builds the matching variant.
pub enum Payload {
    /// The payload held a statically-known string.
    StaticStr(&'static str),
    /// The payload held an owned, heap-allocated string.
    OwnedString(String),
    /// Any other payload type; its contents cannot be generically
    /// stringified.
    Unknown,
}

/// What `extract_message` returns: the payload's own characters for either
/// string shape, and the fixed fallback literal for everything else.
pub open spec fn message_spec(p: &Payload) -> Seq<char> {
    match p {
        Payload::StaticStr(s) => s@,
        Payload::OwnedString(s) => s@,
        Payload::Unknown => "Box<Any>"@,
    }
}

/// Extracts the message from a fault payload.
///
/// A string payload is handed back exactly; any other payload yields the
/// fallback literal signalling "non-string payload, type unknown".
pub fn extract_message<'a>(p: &'a Payload) -> (msg: &'a str)
    ensures
        msg@ == message_spec(p),
{
    match p {
        Payload::StaticStr(s) => s,
        Payload::OwnedString(s) => s.as_str(),
        Payload::Unknown => "Box<Any>",
    }
}

} // verus!
