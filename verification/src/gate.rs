//! Admission of an inbound request, before the dispatcher sees it: the
//! preflight of a browser is answered at once, and a request must carry the
//! shared key where one is set.

use vstd::prelude::*;

verus! {

/// What becomes of an inbound request.
#[derive(Clone, Copy, Debug, PartialEq, Eq, Structural)]
pub enum Admission {
    /// A preflight: answer it, with no body and no work done.
    Preflight,
    /// The request does not carry the shared key: turn it away.
    Unauthorized,
    /// Hand the request to the dispatcher.
    Proceed,
}

/// A request may pass when no key is set, or when it presents the key that
/// is set.
pub open spec fn key_accepted(expected: Seq<char>, presented: Option<Seq<char>>) -> bool {
    expected.len() == 0 || presented == Some(expected)
}

/// The characters of a key that may be absent.
pub open spec fn presented_text(presented: Option<&str>) -> Option<Seq<char>> {
    match presented {
        Some(key) => Some(key@),
        None => None,
    }
}

/// What becomes of a request with this method and this key.
pub open spec fn admission(method: Seq<char>, expected: Seq<char>, presented: Option<Seq<char>>)
    -> Admission {
    if method == "OPTIONS"@ {
        Admission::Preflight
    } else if key_accepted(expected, presented) {
        Admission::Proceed
    } else {
        Admission::Unauthorized
    }
}

/// Checks the key that a request presents against the one that is set. An
/// empty `expected` means that no key is set, and every request passes.
pub fn validate_api_key(expected: &str, presented: Option<&str>) -> (valid: bool)
    ensures
        valid == key_accepted(expected@, presented_text(presented)),
{
    if expected.is_empty() {
        return true;
    }
    match presented {
        Some(key) => key.to_owned() == expected.to_owned(),
        None => false,
    }
}

/// Decides what becomes of an inbound request. The method is compared as it
/// is written; a preflight is not asked for a key.
pub fn screen(method: &str, expected: &str, presented: Option<&str>) -> (decision: Admission)
    ensures
        decision == admission(method@, expected@, presented_text(presented)),
{
    if method.to_owned() == "OPTIONS".to_owned() {
        Admission::Preflight
    } else if validate_api_key(expected, presented) {
        Admission::Proceed
    } else {
        Admission::Unauthorized
    }
}

} // verus!
