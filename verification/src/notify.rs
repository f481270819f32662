//! Construction of the notification message.
//!
//! The message is plain concatenation: a fixed preamble, a fixed link prefix,
//! and the version token, with no other variation.

use vstd::prelude::*;

verus! {

/// Leading sentence of every notification.
pub const PREAMBLE: &'static str = "A new nightly has been released. See what has changed since the last one ";

/// Link prefix; the version token is appended to it.
pub const URL_PREFIX: &'static str = "https://github.com/rust-lang/rust/commits/master?since=";

/// The text published for version `v`: preamble, then link prefix, then `v`.
pub open spec fn spec_notification(v: Seq<char>) -> Seq<char> {
    PREAMBLE@ + URL_PREFIX@ + v
}

/// Build the notification message for `version`.
pub fn notify_message(version: &str) -> (r: String)
    ensures
        r@ == spec_notification(version@),
        r@ == PREAMBLE@ + URL_PREFIX@ + version@,
{
    let mut m = String::new();
    m.append(PREAMBLE);
    m.append(URL_PREFIX);
    m.append(version);
    proof {
        assert(m@ =~= PREAMBLE@ + URL_PREFIX@ + version@);
    }
    m
}

} // verus!
