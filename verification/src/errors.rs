//! The failures a dispatch can meet. All of them are recovered where the
//! dispatch is made; none leaves the session without a valid state.

use vstd::prelude::*;

verus! {

/// Why a dispatch, a transition or an update did nothing.
#[derive(Debug, Clone, Copy, PartialEq, Eq, Structural)]
pub enum PlayerError {
    /// A handler asked for a lifecycle state that the session is not in.
    InvalidStateTransition,
    /// A primitive of the media surface reported an error. The session
    /// recovers from it where it happens, so no dispatch returns it: it
    /// names the failure in the host's log.
    MediaOperationFailed,
    /// No event is registered under the key that was dispatched.
    CallbackNotFound,
    /// The update would bring the trim marks closer than the margin. Such
    /// an update is rejected silently, so no function returns it: it names
    /// the rejection where a host reports one.
    ClipBoundViolation,
    /// The dragged element has no width.
    DegenerateGeometry,
}

impl PlayerError {
    /// The text of the diagnostic line for this failure.
    pub open spec fn spec_message(self) -> Seq<char> {
        match self {
            PlayerError::InvalidStateTransition => "Invalid state transition"@,
            PlayerError::MediaOperationFailed => "Media operation failed"@,
            PlayerError::CallbackNotFound => "Callback not found"@,
            PlayerError::ClipBoundViolation => "Clip bound violation"@,
            PlayerError::DegenerateGeometry => "Degenerate geometry"@,
        }
    }

    /// The diagnostic line for this failure.
    pub fn message(&self) -> (text: String)
        ensures
            text@ == self.spec_message(),
    {
        match self {
            PlayerError::InvalidStateTransition => String::from_str("Invalid state transition"),
            PlayerError::MediaOperationFailed => String::from_str("Media operation failed"),
            PlayerError::CallbackNotFound => String::from_str("Callback not found"),
            PlayerError::ClipBoundViolation => String::from_str("Clip bound violation"),
            PlayerError::DegenerateGeometry => String::from_str("Degenerate geometry"),
        }
    }
}

/// An error as the host sees it: the diagnostic text and nothing else.
#[derive(Debug, Clone)]
pub struct RehashError(pub String);

impl RehashError {
    /// The error that carries the diagnostic line of `error`.
    pub fn from_player_error(error: PlayerError) -> (e: RehashError)
        ensures
            e.0@ == error.spec_message(),
    {
        RehashError(error.message())
    }

    /// The error that carries `text`.
    pub fn from_text(text: &str) -> (e: RehashError)
        ensures
            e.0@ == text@,
    {
        RehashError(String::from_str(text))
    }

    /// The diagnostic text.
    pub fn message(&self) -> (text: &String)
        ensures
            text@ == self.0@,
    {
        &self.0
    }
}

/// An error from its diagnostic text.
impl From<String> for RehashError {
    fn from(text: String) -> (e: RehashError) {
        RehashError(text)
    }
}

impl vstd::std_specs::convert::FromSpecImpl<String> for RehashError {
    open spec fn obeys_from_spec() -> bool {
        true
    }

    open spec fn from_spec(text: String) -> RehashError {
        RehashError(text)
    }
}

/// The result of an operation that can fail with a diagnostic text.
pub type RehashResult<T> = Result<T, RehashError>;

/// The result of an operation that returns nothing or fails with a
/// diagnostic text.
pub type RehashResultUnit = Result<(), RehashError>;

} // verus!
