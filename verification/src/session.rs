//! Session identity.
//!
//! A session is the server's answer to "who is the caller" between token
//! validations. The client holds the only copy, as an opaque sealed cookie;
//! the sealing itself is transport work and happens outside this core. Here a
//! session is its decoded content — subject and issue instant — an absent or
//! unsealed cookie being `None`. Sessions live for a fixed window from their
//! issue instant and are never renewed implicitly; ending a session replaces
//! the client's copy with nothing.

use vstd::prelude::*;

use crate::keys::{KeyCache, SigningKey, KEY_TTL_SECONDS};
use crate::token::{spec_validate_refreshing, TokenError, ValidatorConfig,
    validate_bearer_identity_token};

verus! {

/// Number of seconds a session answers for its subject after being started.
pub const SESSION_TTL_SECONDS: u64 = 60 * 60 * 24 * 30;

/// A decoded session: whom it answers for, and when it was started.
pub struct SessionToken {
    pub subject: String,
    pub issued_at: u64,
}

/// Mathematical image of a [`SessionToken`].
pub struct SessionTokenView {
    pub subject: Seq<char>,
    pub issued_at: u64,
}

impl View for SessionToken {
    type V = SessionTokenView;

    open spec fn view(&self) -> SessionTokenView {
        SessionTokenView { subject: self.subject@, issued_at: self.issued_at }
    }
}

impl DeepView for SessionToken {
    type V = SessionTokenView;

    open spec fn deep_view(&self) -> SessionTokenView {
        self.view()
    }
}

impl Clone for SessionToken {
    fn clone(&self) -> (r: Self)
        ensures
            r@ == self@,
    {
        SessionToken { subject: self.subject.clone(), issued_at: self.issued_at }
    }
}

/// Whom a session answers for: its subject, while `now` lies within the
/// session's window; nothing once the window has passed, before it starts,
/// or when there is no session at all.
pub open spec fn spec_current_subject(session: Option<SessionTokenView>, now: u64) -> Option<
    Seq<char>,
> {
    match session {
        Some(t) => if t.issued_at <= now <= t.issued_at + SESSION_TTL_SECONDS {
            Some(t.subject)
        } else {
            None
        },
        None => None,
    }
}

/// Read and check the session attached to a request.
pub fn current_subject(session: Option<&SessionToken>, now: u64) -> (r: Option<String>)
    ensures
        match r {
            Some(s) => spec_current_subject(session.deep_view(), now) == Some(s@),
            None => spec_current_subject(session.deep_view(), now) is None,
        },
{
    match session {
        Some(t) => {
            if t.issued_at <= now && now - t.issued_at <= SESSION_TTL_SECONDS {
                Some(t.subject.clone())
            } else {
                None
            }
        },
        None => None,
    }
}

/// What starting a session for `subject` at `now` yields: the existing
/// session where one still answers — re-authentication mints nothing new —
/// and otherwise a fresh session issued at `now`.
pub open spec fn spec_start(
    session: Option<SessionTokenView>,
    subject: Seq<char>,
    now: u64,
) -> SessionTokenView {
    match session {
        Some(t) if spec_current_subject(session, now) is Some => t,
        _ => SessionTokenView { subject, issued_at: now },
    }
}

/// Start a session for a freshly verified subject. Idempotent: when the
/// request already carries a live session, that session is returned unchanged
/// instead of a new one being minted.
pub fn start(session: Option<&SessionToken>, subject: String, now: u64) -> (r: SessionToken)
    ensures
        r@ == spec_start(session.deep_view(), subject@, now),
{
    match session {
        Some(t) => {
            if t.issued_at <= now && now - t.issued_at <= SESSION_TTL_SECONDS {
                t.clone()
            } else {
                SessionToken { subject, issued_at: now }
            }
        },
        None => SessionToken { subject, issued_at: now },
    }
}

/// End a session: the replacement the client is handed holds no session, so
/// no later request can answer for the subject again.
pub fn end(session: Option<SessionToken>) -> (r: Option<SessionToken>)
    ensures
        r is None,
        forall|later: u64| spec_current_subject(r.deep_view(), later) is None,
{
    let _ = session;
    None
}

/// The whole login flow of one request: answer from the live session if one
/// is attached; otherwise validate the bearer token — refreshing the key
/// cache where due, with `fetched` the outcome of the caller's provider
/// fetch — and start a session for the verified subject.
pub fn authenticate(
    cache: &mut KeyCache,
    session: Option<&SessionToken>,
    token: &String,
    now: u64,
    config: &ValidatorConfig,
    fetched: Option<Vec<SigningKey>>,
) -> (r: Result<SessionToken, TokenError>)
    requires
        now + KEY_TTL_SECONDS <= u64::MAX,
    ensures
        match spec_current_subject(session.deep_view(), now) {
            Some(_) => final(cache)@ == old(cache)@ && match r {
                Ok(t) => Some(t@) == session.deep_view(),
                Err(_) => false,
            },
            None => ({
                let (cache2, vres) = spec_validate_refreshing(
                    old(cache)@,
                    token@,
                    now,
                    config@.audience,
                    config@.issuer,
                    fetched.deep_view(),
                );
                final(cache)@ == cache2 && match (r, vres) {
                    (Ok(t), Ok(subject)) => t@ == (SessionTokenView { subject, issued_at: now }),
                    (Err(a), Err(b)) => a == b,
                    _ => false,
                }
            }),
        },
{
    match session {
        Some(t) => {
            if t.issued_at <= now && now - t.issued_at <= SESSION_TTL_SECONDS {
                return Ok(t.clone());
            }
        },
        None => {},
    }
    match validate_bearer_identity_token(cache, token, now, config, fetched) {
        Ok(subject) => Ok(SessionToken { subject, issued_at: now }),
        Err(e) => Err(e),
    }
}

/// Starting a session is idempotent, and a fresh start answers at once:
/// where a session still answers, starting leaves it exactly as it was;
/// where none answers, the started session answers for the new subject from
/// `now` on.
pub proof fn lemma_start_idempotent(
    session: Option<SessionTokenView>,
    subject: Seq<char>,
    now: u64,
)
    ensures
        spec_current_subject(session, now) is Some ==> spec_start(session, subject, now)
            == session.unwrap(),
        spec_current_subject(session, now) is None ==> spec_current_subject(
            Some(spec_start(session, subject, now)),
            now,
        ) == Some(subject),
{
}

} // verus!
