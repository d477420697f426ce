//! The failures of a session's lifecycle, each tagged with the phase in
//! which the backing store failed.

use vstd::prelude::*;

verus! {

/// A failure of the backing store, tagged with the lifecycle phase in which
/// it happened. The store's own error is carried along untouched.
#[derive(Debug)]
pub enum SessionError<E> {
    /// The store failed while a session was looked up.
    LoadError { source: E },
    /// The store failed while a session was saved.
    StoreError { source: E },
    /// The store failed while a session was removed.
    DestroyError { source: E },
}

/// The text that describes a failure to a reader.
pub open spec fn message_text<E>(error: SessionError<E>) -> Seq<char> {
    match error {
        SessionError::LoadError { .. } => "Failed to load session"@,
        SessionError::StoreError { .. } => "Failed to store session"@,
        SessionError::DestroyError { .. } => "Failed to destroy session"@,
    }
}

impl<E> SessionError<E> {
    /// The store's error that this failure wraps.
    pub open spec fn cause(self) -> E {
        match self {
            SessionError::LoadError { source } => source,
            SessionError::StoreError { source } => source,
            SessionError::DestroyError { source } => source,
        }
    }

    /// The store's error behind this failure; there always is one.
    pub fn source(&self) -> (cause: Option<&E>)
        ensures
            cause == Some(&self.cause()),
    {
        match self {
            SessionError::LoadError { source } => Some(source),
            SessionError::StoreError { source } => Some(source),
            SessionError::DestroyError { source } => Some(source),
        }
    }

    /// Gives up the tag and hands back the store's error.
    pub fn into_source(self) -> (cause: E)
        ensures
            cause == self.cause(),
    {
        match self {
            SessionError::LoadError { source } => source,
            SessionError::StoreError { source } => source,
            SessionError::DestroyError { source } => source,
        }
    }

    /// Describes the failure by its phase.
    pub fn to_string(&self) -> (text: String)
        ensures
            text@ == message_text(*self),
    {
        match self {
            SessionError::LoadError { .. } => String::from_str("Failed to load session"),
            SessionError::StoreError { .. } => String::from_str("Failed to store session"),
            SessionError::DestroyError { .. } => String::from_str("Failed to destroy session"),
        }
    }
}

} // verus!
