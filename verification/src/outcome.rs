//! The outcome of one HTTP call, as the transport layer hands it to the
//! decision logic.
//!
//! A provider lookup never inspects a connection or a body itself: the caller
//! performs the call, decodes a success body into the expected payload shape,
//! and passes one [`CallOutcome`] in. Every classification of that outcome is
//! then a verified, plain function.

use vstd::prelude::*;

verus! {

/// What a single HTTP call produced.
#[derive(Debug)]
pub enum CallOutcome<T> {
    /// The call could not complete at the transport level (connection,
    /// timeout, TLS, DNS); holds the transport error's text.
    Transport(String),
    /// The call completed with a status outside the success range
    /// [200, 300); holds the status code and the raw response body.
    Failure(u16, String),
    /// The call completed with a success status and the body decoded as the
    /// expected payload shape.
    Success(T),
    /// The call completed with a success status, but the body could not be
    /// decoded as the expected payload shape; holds the decoder's text.
    Malformed(String),
}

/// Mathematical image of a [`CallOutcome`].
#[verifier::ext_equal]
pub enum CallOutcomeView<TV> {
    Transport(Seq<char>),
    Failure(u16, Seq<char>),
    Success(TV),
    Malformed(Seq<char>),
}

impl<T: View> View for CallOutcome<T> {
    type V = CallOutcomeView<T::V>;

    open spec fn view(&self) -> CallOutcomeView<T::V> {
        match self {
            CallOutcome::Transport(text) => CallOutcomeView::Transport(text@),
            CallOutcome::Failure(status, body) => CallOutcomeView::Failure(*status, body@),
            CallOutcome::Success(payload) => CallOutcomeView::Success(payload@),
            CallOutcome::Malformed(text) => CallOutcomeView::Malformed(text@),
        }
    }
}

/// Whether a status code lies in the HTTP success range [200, 300).
pub open spec fn spec_is_success_status(status: u16) -> bool {
    200 <= status < 300
}

/// Whether a status code lies in the HTTP success range [200, 300).
///
/// The transport layer uses this to decide between building a
/// [`CallOutcome::Failure`] and decoding the body.
pub fn is_success_status(status: u16) -> (r: bool)
    ensures
        r == spec_is_success_status(status),
{
    200 <= status && status < 300
}

} // verus!
