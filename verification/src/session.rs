//! The session as the store's crate defines it, and the two flags of it
//! that the lifecycle rules read.

use async_session::Session;
use vstd::prelude::*;

verus! {

/// `async_session::Session`, carried through as an opaque value.
#[verifier::external_type_specification]
#[verifier::external_body]
pub struct ExSession(async_session::Session);

/// `Session::new` makes a session with a random identifier. Nothing is
/// claimed of the result.
pub assume_specification[ Session::new ]() -> Session;

/// `Session::is_destroyed` reads a flag that the session shares with its
/// clones. Nothing is claimed of the result.
pub assume_specification[ Session::is_destroyed ](session: &Session) -> bool;

/// `Session::data_changed` reads a flag that the session shares with its
/// clones. Nothing is claimed of the result.
pub assume_specification[ Session::data_changed ](session: &Session) -> bool;

/// What the lifecycle rules need to know of a session at the moment it is
/// finalized.
#[derive(Clone, Copy, Debug, PartialEq, Eq, Structural)]
pub struct SessionState {
    /// Data was written or removed since the session was made or loaded.
    pub changed: bool,
    /// The handler asked for the session to be ended.
    pub destroyed: bool,
}

impl SessionState {
    /// Whether this is the state in which every new session starts.
    pub open spec fn is_fresh(self) -> bool {
        !self.changed && !self.destroyed
    }

    /// The state of a session that nothing has touched yet.
    pub fn fresh() -> (state: Self)
        ensures
            state == (SessionState { changed: false, destroyed: false }),
            state.is_fresh(),
    {
        SessionState { changed: false, destroyed: false }
    }

    /// Reads the state of a session as it is right now.
    pub fn observe(session: &Session) -> (state: Self) {
        let changed = session.data_changed();
        let destroyed = session.is_destroyed();
        SessionState { changed, destroyed }
    }
}

} // verus!
