//! Cookie-bound server-side sessions: the lifecycle rules that tie a session
//! kept in a backing store to the cookie a client carries.
//!
//! A request is served in two steps around its handler. Before it, the
//! session is resolved from the request's cookie ([`request`]). After it,
//! the session is finalized: the store is told to save or remove it where
//! needed, and the cookie of the response follows from the store's answer.
//! Talking to the store is left to the caller, who performs the call that
//! this crate names and hands back the answer.

pub mod cookie;
pub mod error;
pub mod laws;
pub mod request;
pub mod session;

pub use async_session::{MemoryStore, Session, SessionStore};
pub use cookie::CookieOptions;
pub use error::SessionError;
pub use session::SessionState;

use cookie::{emitted_header, text_of, CookieOptionsView};
use vstd::prelude::*;

verus! {

/// A session bound to its backing store and to the options of its cookie,
/// for the time of one request.
pub struct SessionWithStore<S> {
    pub session: Session,
    pub session_store: S,
    pub cookie_options: CookieOptions,
}

/// The call to the store that finalizing a session requires.
#[derive(Clone, Copy, Debug, PartialEq, Eq, Structural)]
pub enum StoreCall {
    /// The session is as it was: the store is left alone.
    Nothing,
    /// The session is to be saved.
    Store,
    /// The session is to be removed.
    Destroy,
}

/// What the store answered to the call that finalizing required.
#[derive(Debug)]
pub enum StoreReply<E> {
    /// No call was made.
    NotCalled,
    /// The answer to saving the session: the identifier to hand to the
    /// client, if the store issued one.
    Stored(Result<Option<String>, E>),
    /// The answer to removing the session.
    Destroyed(Result<(), E>),
}

/// The call that a session in the given state requires: a destroyed
/// session is removed, whether changed or not; otherwise a changed one is
/// saved; otherwise nothing is done.
pub open spec fn planned_call(state: SessionState) -> StoreCall {
    if state.destroyed {
        StoreCall::Destroy
    } else if state.changed {
        StoreCall::Store
    } else {
        StoreCall::Nothing
    }
}

/// Whether the reply is one to the given call.
pub open spec fn answers<E>(call: StoreCall, reply: StoreReply<E>) -> bool {
    match call {
        StoreCall::Nothing => reply is NotCalled,
        StoreCall::Store => reply is Stored,
        StoreCall::Destroy => reply is Destroyed,
    }
}

/// The cookie options after the store's reply, or the failure to report.
///
/// Removing the session empties the cookie and sets its age to zero, so
/// that the client drops it. Saving it puts the identifier that the store
/// issued into the cookie; without one the options stay as they are, as
/// they do when no call was made. A failure leaves no options at all.
pub open spec fn settled<E>(options: CookieOptionsView, reply: StoreReply<E>) -> Result<
    CookieOptionsView,
    SessionError<E>,
> {
    match reply {
        StoreReply::NotCalled => Ok(options),
        StoreReply::Stored(Ok(Some(sid))) => Ok(
            CookieOptionsView { cookie_value: Some(sid@), ..options },
        ),
        StoreReply::Stored(Ok(None)) => Ok(options),
        StoreReply::Stored(Err(source)) => Err(SessionError::StoreError { source }),
        StoreReply::Destroyed(Ok(_)) => Ok(
            CookieOptionsView { cookie_value: Some(Seq::empty()), max_age: Some(0u64), ..options },
        ),
        StoreReply::Destroyed(Err(source)) => Err(SessionError::DestroyError { source }),
    }
}

/// Names the call that a session in the given state requires.
pub fn plan_call(state: SessionState) -> (call: StoreCall)
    ensures
        call == planned_call(state),
{
    if state.destroyed {
        StoreCall::Destroy
    } else if state.changed {
        StoreCall::Store
    } else {
        StoreCall::Nothing
    }
}

/// Works the store's reply into the cookie options.
pub fn settle<E>(cookie_options: CookieOptions, reply: StoreReply<E>) -> (outcome: Result<
    CookieOptions,
    SessionError<E>,
>)
    ensures
        match settled(cookie_options@, reply) {
            Ok(options) => outcome is Ok && outcome->Ok_0@ == options,
            Err(error) => outcome == Err::<CookieOptions, SessionError<E>>(error),
        },
{
    let mut cookie_options = cookie_options;
    match reply {
        StoreReply::NotCalled => Ok(cookie_options),
        StoreReply::Stored(Ok(Some(sid))) => {
            cookie_options.cookie_value = Some(sid);
            Ok(cookie_options)
        },
        StoreReply::Stored(Ok(None)) => Ok(cookie_options),
        StoreReply::Stored(Err(source)) => Err(SessionError::StoreError { source }),
        StoreReply::Destroyed(Ok(_)) => {
            cookie_options.cookie_value = Some(String::new());
            cookie_options.max_age = Some(0);
            Ok(cookie_options)
        },
        StoreReply::Destroyed(Err(source)) => Err(SessionError::DestroyError { source }),
    }
}

impl<S> SessionWithStore<S> {
    /// Reads the state of the bound session as it is right now and names
    /// the call to the store that finalizing it in that state requires.
    pub fn plan(&self) -> (planned: (SessionState, StoreCall))
        ensures
            planned.1 == planned_call(planned.0),
    {
        let state = SessionState::observe(&self.session);
        (state, plan_call(state))
    }
}

/// A handler's reply together with the cookie options that finalizing the
/// session left. The reply itself is never touched: the cookie header is
/// made only when the parts are taken.
pub struct WithSession<T> {
    reply: T,
    cookie_options: CookieOptions,
}

impl<T> WithSession<T> {
    /// The handler's reply.
    pub closed spec fn reply(self) -> T {
        self.reply
    }

    /// The cookie options that go with the reply.
    pub closed spec fn options(self) -> CookieOptionsView {
        self.cookie_options@
    }

    /// Finalizes a session: wraps the handler's reply with the cookie
    /// options that follow from the store's answer, or reports the store's
    /// failure in place of the reply.
    pub fn new<E>(reply: T, cookie_options: CookieOptions, store_reply: StoreReply<E>) -> (wrapped:
        Result<WithSession<T>, SessionError<E>>)
        ensures
            match settled(cookie_options@, store_reply) {
                Ok(options) => wrapped is Ok && wrapped->Ok_0.reply() == reply
                    && wrapped->Ok_0.options() == options,
                Err(error) => wrapped == Err::<WithSession<T>, SessionError<E>>(error),
            },
    {
        match settle(cookie_options, store_reply) {
            Ok(cookie_options) => Ok(WithSession { reply, cookie_options }),
            Err(error) => Err(error),
        }
    }

    /// The cookie options that go with the reply.
    pub fn cookie_options(&self) -> (options: &CookieOptions)
        ensures
            options@ == self.options(),
    {
        &self.cookie_options
    }

    /// The `Set-Cookie` header value to add to the reply, if any.
    pub fn set_cookie_header(&self) -> (header: Option<String>)
        ensures
            text_of(header) == emitted_header(self.options()),
    {
        self.cookie_options.set_cookie_header()
    }

    /// Takes the wrapper apart: the handler's reply as it was given, and
    /// the `Set-Cookie` header value to add to it, if any.
    pub fn into_parts(self) -> (parts: (T, Option<String>))
        ensures
            parts.0 == self.reply(),
            text_of(parts.1) == emitted_header(self.options()),
    {
        let header = self.cookie_options.set_cookie_header();
        (self.reply, header)
    }
}

} // verus!
