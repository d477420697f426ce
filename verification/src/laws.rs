//! What holds of finalizing a session, whatever the store answers.

use crate::cookie::{
    decimal_text, emitted_header, flag_attribute, header_text, same_site_text, text_attribute,
    CookieOptionsView,
};
use crate::error::SessionError;
use crate::session::SessionState;
use crate::{answers, planned_call, settled, StoreCall, StoreReply};
use vstd::prelude::*;

verus! {

/// The header value begins with the cookie's name, `=` and the cookie's
/// value.
pub proof fn header_begins_with_name_and_value(options: CookieOptionsView)
    requires
        options.cookie_value is Some,
    ensures
        (options.cookie_name + "="@ + options.cookie_value->Some_0).is_prefix_of(
            header_text(options),
        ),
{
    let head = options.cookie_name + "="@ + options.cookie_value->Some_0;
    let full = header_text(options);
    assert(head.len() <= full.len());
    assert(full.subrange(0, head.len() as int) =~= head);
}

/// The header value of a cookie that is cleared: an empty value and
/// `Max-Age=0`, with the other attributes where they always stand.
pub proof fn cleared_cookie_header(options: CookieOptionsView)
    requires
        options.cookie_value == Some(Seq::<char>::empty()),
        options.max_age == Some(0u64),
    ensures
        header_text(options) == options.cookie_name + "="@ + text_attribute(
            "; Path="@,
            options.path,
        ) + text_attribute("; Domain="@, options.domain) + "; Max-Age=0"@ + flag_attribute(
            "; Secure"@,
            options.secure,
        ) + flag_attribute("; HttpOnly"@, options.http_only) + text_attribute(
            "; SameSite="@,
            match options.same_site {
                Some(policy) => Some(same_site_text(policy)),
                None => None,
            },
        ),
{
    reveal_strlit("; Max-Age=");
    reveal_strlit("; Max-Age=0");
    assert(decimal_text(0) =~= seq!['0']);
    assert("; Max-Age="@ + decimal_text(0) =~= "; Max-Age=0"@);
    assert(options.cookie_name + "="@ + Seq::<char>::empty() =~= options.cookie_name + "="@);
}

/// A session that is neither changed nor destroyed is left alone: no call
/// goes to the store, the cookie options stay as they are, and as long as
/// they held no value before, no header is sent.
pub proof fn untouched_session_passes_through<E>(
    state: SessionState,
    options: CookieOptionsView,
    reply: StoreReply<E>,
)
    requires
        !state.changed,
        !state.destroyed,
        answers(planned_call(state), reply),
    ensures
        planned_call(state) == StoreCall::Nothing,
        reply is NotCalled,
        settled(options, reply) == Ok::<CookieOptionsView, SessionError<E>>(options),
        options.cookie_value is None ==> emitted_header(settled(options, reply)->Ok_0) is None,
{
}

/// A changed session that is not destroyed is saved, and nothing else is
/// asked of the store. Where the store issues an identifier, the cookie
/// that is sent carries exactly that identifier and everything else in the
/// options is kept; where it issues none, the options stay as they are;
/// where it fails, the failure is a `StoreError` with the store's error
/// inside.
pub proof fn changed_session_is_stored<E>(
    state: SessionState,
    options: CookieOptionsView,
    reply: StoreReply<E>,
)
    requires
        state.changed,
        !state.destroyed,
        answers(planned_call(state), reply),
    ensures
        planned_call(state) == StoreCall::Store,
        reply is Stored,
        match reply->Stored_0 {
            Ok(Some(sid)) => {
                let after = settled(options, reply);
                &&& after == Ok::<CookieOptionsView, SessionError<E>>(
                    CookieOptionsView { cookie_value: Some(sid@), ..options },
                )
                &&& emitted_header(after->Ok_0) == Some(header_text(after->Ok_0))
                &&& (options.cookie_name + "="@ + sid@).is_prefix_of(header_text(after->Ok_0))
            },
            Ok(None) => {
                &&& settled(options, reply) == Ok::<CookieOptionsView, SessionError<E>>(options)
                &&& options.cookie_value is None ==> emitted_header(options) is None
            },
            Err(source) => settled(options, reply) == Err::<CookieOptionsView, SessionError<E>>(
                SessionError::StoreError { source },
            ),
        },
{
    match reply->Stored_0 {
        Ok(Some(sid)) => {
            header_begins_with_name_and_value(settled(options, reply)->Ok_0);
        },
        _ => {},
    }
}

/// A destroyed session is removed from the store and never saved, changed
/// or not. Once removed, the cookie that is sent has an empty value and a
/// maximal age of zero, and everything else in the options is kept; where
/// the store fails, the failure is a `DestroyError` with the store's error
/// inside.
pub proof fn destroyed_session_clears_cookie<E>(
    state: SessionState,
    options: CookieOptionsView,
    reply: StoreReply<E>,
)
    requires
        state.destroyed,
        answers(planned_call(state), reply),
    ensures
        planned_call(state) == StoreCall::Destroy,
        reply is Destroyed,
        match reply->Destroyed_0 {
            Ok(_) => {
                let after = settled(options, reply);
                &&& after == Ok::<CookieOptionsView, SessionError<E>>(
                    CookieOptionsView {
                        cookie_value: Some(Seq::empty()),
                        max_age: Some(0u64),
                        ..options
                    },
                )
                &&& emitted_header(after->Ok_0) == Some(header_text(after->Ok_0))
                &&& (options.cookie_name + "="@).is_prefix_of(header_text(after->Ok_0))
            },
            Err(source) => settled(options, reply) == Err::<CookieOptionsView, SessionError<E>>(
                SessionError::DestroyError { source },
            ),
        },
{
    match reply->Destroyed_0 {
        Ok(_) => {
            let after = settled(options, reply)->Ok_0;
            header_begins_with_name_and_value(after);
            assert(options.cookie_name + "="@ + Seq::<char>::empty() =~= options.cookie_name
                + "="@);
        },
        _ => {},
    }
}

/// A failure of the store while saving or removing a session comes out
/// tagged with its phase, with the store's error retrievable from it, and
/// with no cookie options beside it.
pub proof fn store_failure_keeps_its_cause<E>(options: CookieOptionsView, source: E)
    ensures
        settled(options, StoreReply::Stored(Err(source))) == Err::<
            CookieOptionsView,
            SessionError<E>,
        >(SessionError::StoreError { source }),
        settled(options, StoreReply::Destroyed(Err(source))) == Err::<
            CookieOptionsView,
            SessionError<E>,
        >(SessionError::DestroyError { source }),
        (SessionError::LoadError { source }).cause() == source,
        (SessionError::StoreError { source }).cause() == source,
        (SessionError::DestroyError { source }).cause() == source,
{
}

} // verus!
