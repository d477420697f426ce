//! Resolving the session of an incoming request from its cookie.

use crate::cookie::{default_options, CookieOptions};
use crate::error::SessionError;
use crate::SessionWithStore;
use async_session::Session;
use vstd::prelude::*;

verus! {

/// What has to happen before a request's session is known.
#[derive(Debug, PartialEq, Eq)]
pub enum Lookup {
    /// The request carries no cookie: the session is a new one and the
    /// store is not asked.
    Fresh,
    /// The request carries a cookie: the store is asked to load the session
    /// that belongs to this value.
    Load { cookie_value: String },
}

/// The lookup that a request with the given cookie calls for.
pub open spec fn planned_lookup(incoming_cookie: Option<String>) -> Lookup {
    match incoming_cookie {
        Some(cookie_value) => Lookup::Load { cookie_value },
        None => Lookup::Fresh,
    }
}

/// A store and the cookie options that every session resolved from it is
/// bound to.
#[derive(Clone, Debug)]
pub struct Resolver<S> {
    pub session_store: S,
    pub cookie_options: CookieOptions,
}

/// Sets up session resolution over a store. Without options of the
/// caller's the cookie gets the default ones.
pub fn with_session<S>(session_store: S, cookie_options: Option<CookieOptions>) -> (resolver:
    Resolver<S>)
    ensures
        resolver.session_store == session_store,
        match cookie_options {
            Some(options) => resolver.cookie_options == options,
            None => resolver.cookie_options@ == default_options(),
        },
{
    let cookie_options = match cookie_options {
        Some(options) => options,
        None => CookieOptions::default(),
    };
    Resolver { session_store, cookie_options }
}

impl<S> Resolver<S> {
    /// Decides from the request's cookie whether the store has to be asked.
    pub fn lookup(&self, incoming_cookie: Option<String>) -> (step: Lookup)
        ensures
            step == planned_lookup(incoming_cookie),
    {
        match incoming_cookie {
            Some(cookie_value) => Lookup::Load { cookie_value },
            None => Lookup::Fresh,
        }
    }

    /// Binds a new session to the store and the options. This is the path
    /// of a request without a cookie, and it cannot fail.
    pub fn bind_fresh(self) -> (bound: SessionWithStore<S>)
        ensures
            bound.session_store == self.session_store,
            bound.cookie_options == self.cookie_options,
    {
        SessionWithStore {
            session: Session::new(),
            session_store: self.session_store,
            cookie_options: self.cookie_options,
        }
    }

    /// Binds what the store answered to a load. A session that was found is
    /// bound as it is; a miss gives a new session, as if the request had
    /// carried no cookie; a failure of the store is handed on as a
    /// `LoadError` and no session is made up.
    pub fn bind_loaded<E>(self, loaded: Result<Option<Session>, E>) -> (bound: Result<
        SessionWithStore<S>,
        SessionError<E>,
    >)
        ensures
            match loaded {
                Ok(Some(session)) => bound == Ok::<SessionWithStore<S>, SessionError<E>>(
                    (SessionWithStore {
                        session,
                        session_store: self.session_store,
                        cookie_options: self.cookie_options,
                    }),
                ),
                Ok(None) => bound is Ok && bound->Ok_0.session_store == self.session_store
                    && bound->Ok_0.cookie_options == self.cookie_options,
                Err(source) => bound == Err::<SessionWithStore<S>, SessionError<E>>(
                    SessionError::LoadError { source },
                ),
            },
    {
        match loaded {
            Ok(Some(session)) => Ok(
                SessionWithStore {
                    session,
                    session_store: self.session_store,
                    cookie_options: self.cookie_options,
                },
            ),
            Ok(None) => Ok(self.bind_fresh()),
            Err(source) => Err(SessionError::LoadError { source }),
        }
    }
}

/// The store is asked exactly when the request carries a cookie, and then
/// for the value of that cookie: a request without one is resolved without
/// the store.
pub proof fn store_is_asked_only_for_a_cookie(incoming_cookie: Option<String>)
    ensures
        planned_lookup(incoming_cookie) is Fresh <==> incoming_cookie is None,
        incoming_cookie is Some ==> planned_lookup(incoming_cookie) == (Lookup::Load {
            cookie_value: incoming_cookie->Some_0,
        }),
{
}

} // verus!
