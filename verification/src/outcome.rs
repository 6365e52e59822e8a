//! How one outbound call ended, as the caller that made it reports it.

use vstd::prelude::*;

verus! {

/// The end of one outbound HTTP call.
#[derive(Debug, PartialEq, Eq)]
pub enum Outcome {
    /// No reply came: the connection failed or the call timed out.
    Unreachable,
    /// The peer replied with this status code and body.
    Reply { status: u16, body: Vec<u8> },
}

/// The end of an outbound call as a mathematical value.
pub enum OutcomeView {
    Unreachable,
    Reply { status: u16, body: Seq<u8> },
}

impl View for Outcome {
    type V = OutcomeView;

    open spec fn view(&self) -> OutcomeView {
        match self {
            Outcome::Unreachable => OutcomeView::Unreachable,
            Outcome::Reply { status, body } => OutcomeView::Reply { status: *status, body: body@ },
        }
    }
}

/// A status code in the success class, 200 to 299.
pub open spec fn success(status: u16) -> bool {
    200 <= status < 300
}

/// Whether a status code is in the success class.
pub fn is_success(status: u16) -> (ok: bool)
    ensures
        ok == success(status),
{
    200 <= status && status < 300
}

} // verus!
