//! Sessions and the authentication filter that every request passes.

use vstd::prelude::*;
use crate::config::Config;
use crate::ids::{fresh_id, id_of_text, parse_id};
use crate::time::{days_as_nanos, days_to_nanos, is_within_window, within_window, Timestamp};
use crate::users::User;

verus! {

/// A login session: its identifier, the user it belongs to and when it was
/// created.
#[derive(Clone, Copy, Debug, PartialEq, Eq, Structural)]
pub struct Session {
    pub id: u128,
    pub user: u128,
    pub created: Timestamp,
}

/// Whether a session created at `created` is usable at `now` under a
/// maximum age of `max_age_days`. Without a maximum age no session is.
pub open spec fn session_valid(created: Timestamp, now: Timestamp, max_age_days: Option<i64>) -> bool {
    match max_age_days {
        Some(days) => within_window(created, now, days_as_nanos(days as int)),
        None => false,
    }
}

impl Session {
    pub fn new(id: u128, user: u128, created: Timestamp) -> (s: Session)
        ensures
            s == (Session { id, user, created }),
    {
        Session { id, user, created }
    }

    /// Opens a session for `user` at `now` under a fresh identifier.
    pub fn create(user: &User, now: Timestamp) -> (s: Session)
        ensures
            s.user == user.id,
            s.created == now,
    {
        Session::new(fresh_id(), user.id, now)
    }

    /// Whether the session is usable at `now`: strictly less than the
    /// maximum age has passed since it was created.
    pub fn is_valid(&self, now: Timestamp, max_age_days: Option<i64>) -> (valid: bool)
        ensures
            valid == session_valid(self.created, now, max_age_days),
            valid <==> (max_age_days matches Some(days) && now.as_nanos() - self.created.as_nanos()
                < days_as_nanos(days as int)),
    {
        match max_age_days {
            Some(days) => is_within_window(self.created, now, days_to_nanos(days)),
            None => false,
        }
    }
}

/// Where the filter stands while it handles one request.
pub enum GateState {
    /// Nothing has been looked at yet.
    Start,
    /// The session with this identifier is being looked up.
    FindingSession { id: u128 },
    /// An expired session is being deleted.
    Evicting,
    /// The owner of this valid session is being looked up.
    FindingUser { session: Session },
    /// The request has been decided.
    Done,
}

/// What the caller reports to the filter.
pub enum GateEvent {
    /// A request arrived, with the value of its session cookie if it has
    /// one.
    Request { token: Option<String> },
    /// The session lookup that the filter asked for has ended.
    SessionLookup { session: Option<Session> },
    /// The deletion that the filter asked for has ended.
    SessionDeleted,
    /// The user lookup that the filter asked for has ended.
    UserLookup { user: Option<User> },
}

/// What the filter asks of the caller. The last three end the request.
pub enum GateAction {
    /// Look up the session with this identifier.
    FindSession { id: u128 },
    /// Delete the session with this identifier.
    DeleteSession { id: u128 },
    /// Look up the user with this identifier.
    FindUser { id: u128 },
    /// Attach the user to the request and let it pass.
    Authenticated { user: User },
    /// The request carries no session: it may pass only where anonymous
    /// requests are allowed, and is turned away otherwise.
    Anonymous,
    /// Turn the request away and clear its authentication cookies.
    Rejected,
}

/// One step of the filter: the next state and what to do, from the state and
/// what happened. Anything unexpected ends in rejection.
pub open spec fn gate_step(state: GateState, event: GateEvent, now: Timestamp, config: Config) -> (
    GateState,
    GateAction,
) {
    match (state, event) {
        (GateState::Start, GateEvent::Request { token: None }) => (
            GateState::Done,
            GateAction::Anonymous,
        ),
        (GateState::Start, GateEvent::Request { token: Some(text) }) => match id_of_text(text@) {
            Some(id) => (GateState::FindingSession { id }, GateAction::FindSession { id }),
            None => (GateState::Done, GateAction::Rejected),
        },
        (GateState::FindingSession { id }, GateEvent::SessionLookup { session: Some(session) }) => {
            if session.id != id {
                (GateState::Done, GateAction::Rejected)
            } else if session_valid(session.created, now, config.session_duration_days) {
                (GateState::FindingUser { session }, GateAction::FindUser { id: session.user })
            } else {
                (GateState::Evicting, GateAction::DeleteSession { id })
            }
        },
        (GateState::FindingUser { session }, GateEvent::UserLookup { user: Some(user) }) => {
            if user.id == session.user && user.enabled {
                (GateState::Done, GateAction::Authenticated { user })
            } else {
                (GateState::Done, GateAction::Rejected)
            }
        },
        _ => (GateState::Done, GateAction::Rejected),
    }
}

/// The filter: handles one request step by step. The caller starts in
/// [`GateState::Start`] with the request, carries out each action that is
/// asked for, and reports back until the request is decided.
pub fn session_layer(state: GateState, event: GateEvent, now: Timestamp, config: &Config) -> (r: (
    GateState,
    GateAction,
))
    ensures
        r == gate_step(state, event, now, *config),
{
    match (state, event) {
        (GateState::Start, GateEvent::Request { token }) => match token {
            None => (GateState::Done, GateAction::Anonymous),
            Some(text) => match parse_id(text.as_str()) {
                Some(id) => (GateState::FindingSession { id }, GateAction::FindSession { id }),
                None => (GateState::Done, GateAction::Rejected),
            },
        },
        (GateState::FindingSession { id }, GateEvent::SessionLookup { session: found }) => match found {
            Some(session) => {
                if session.id != id {
                    (GateState::Done, GateAction::Rejected)
                } else if session.is_valid(now, config.session_duration_days) {
                    (GateState::FindingUser { session }, GateAction::FindUser { id: session.user })
                } else {
                    (GateState::Evicting, GateAction::DeleteSession { id })
                }
            },
            None => (GateState::Done, GateAction::Rejected),
        },
        (GateState::FindingUser { session }, GateEvent::UserLookup { user: found }) => match found {
            Some(user) => {
                if user.id == session.user && user.is_active() {
                    (GateState::Done, GateAction::Authenticated { user })
                } else {
                    (GateState::Done, GateAction::Rejected)
                }
            },
            None => (GateState::Done, GateAction::Rejected),
        },
        _ => (GateState::Done, GateAction::Rejected),
    }
}

/// How a whole request ends when the filter is driven as asked: `session` is
/// what a session lookup finds and `user` what a user lookup finds.
pub open spec fn gate_run(
    token: Option<String>,
    session: Option<Session>,
    user: Option<User>,
    now: Timestamp,
    config: Config,
) -> GateAction {
    let first = gate_step(GateState::Start, GateEvent::Request { token }, now, config);
    match first.1 {
        GateAction::FindSession { .. } => {
            let second = gate_step(first.0, GateEvent::SessionLookup { session }, now, config);
            match second.1 {
                GateAction::DeleteSession { .. } => gate_step(
                    second.0,
                    GateEvent::SessionDeleted,
                    now,
                    config,
                ).1,
                GateAction::FindUser { .. } => gate_step(
                    second.0,
                    GateEvent::UserLookup { user },
                    now,
                    config,
                ).1,
                other => other,
            }
        },
        other => other,
    }
}

/// Whether a request is let through as `user`: it carries a token that
/// names a stored session, that session is still valid, and its owner
/// exists and is enabled.
pub open spec fn passes(
    token: Option<String>,
    session: Option<Session>,
    user: Option<User>,
    now: Timestamp,
    config: Config,
) -> bool {
    &&& token matches Some(text)
    &&& id_of_text(text@) matches Some(id)
    &&& session matches Some(s)
    &&& s.id == id
    &&& session_valid(s.created, now, config.session_duration_days)
    &&& user matches Some(u)
    &&& u.id == s.user
    &&& u.enabled
}

/// The filter fails closed: a request is authenticated exactly when every
/// check passes, and then as the user that was found; it counts as
/// anonymous exactly when it carries no token; everything else is
/// rejected.
pub proof fn lemma_gate_fails_closed(
    token: Option<String>,
    session: Option<Session>,
    user: Option<User>,
    now: Timestamp,
    config: Config,
)
    ensures
        passes(token, session, user, now, config) <==> gate_run(token, session, user, now, config)
            is Authenticated,
        gate_run(token, session, user, now, config) matches GateAction::Authenticated { user: u }
            ==> user == Some(u),
        token is None <==> gate_run(token, session, user, now, config) is Anonymous,
        (token is Some && !passes(token, session, user, now, config)) ==> gate_run(
            token,
            session,
            user,
            now,
            config,
        ) is Rejected,
{
}

/// An expired session is evicted: when the lookup finds the session that
/// the token names and it is no longer valid, the filter asks for its
/// deletion before it rejects the request.
pub proof fn lemma_gate_evicts_expired(id: u128, session: Session, now: Timestamp, config: Config)
    requires
        session.id == id,
        !session_valid(session.created, now, config.session_duration_days),
    ensures
        gate_step(
            GateState::FindingSession { id },
            GateEvent::SessionLookup { session: Some(session) },
            now,
            config,
        ) == (GateState::Evicting, GateAction::DeleteSession { id }),
        gate_step(GateState::Evicting, GateEvent::SessionDeleted, now, config) == (
            GateState::Done,
            GateAction::Rejected,
        ),
{
}

/// Without a configured maximum age no session is valid, so no request is
/// authenticated.
pub proof fn lemma_gate_closed_without_max_age(
    token: Option<String>,
    session: Option<Session>,
    user: Option<User>,
    now: Timestamp,
    config: Config,
)
    requires
        config.session_duration_days is None,
    ensures
        !(gate_run(token, session, user, now, config) is Authenticated),
{
}

/// What becomes of a request once the filter has decided.
pub enum GateResponse {
    /// The request goes on, as the given user or as nobody.
    Proceed { user: Option<User> },
    /// The request is turned away, and its authentication cookies are
    /// cleared so that no half-valid state lingers with the client.
    ClearAndReject,
}

/// What becomes of a request after `action`, on a route that does or does
/// not allow anonymous requests. A request without token may pass as
/// nobody where that is allowed; one with a token that did not hold is
/// turned away everywhere.
pub open spec fn response_to(action: GateAction, anonymous_allowed: bool) -> GateResponse {
    match action {
        GateAction::Authenticated { user } => GateResponse::Proceed { user: Some(user) },
        GateAction::Anonymous => if anonymous_allowed {
            GateResponse::Proceed { user: None }
        } else {
            GateResponse::ClearAndReject
        },
        _ => GateResponse::ClearAndReject,
    }
}

/// Turns the filter's last action into what the caller does with the
/// request. An action that does not end a request turns it away.
pub fn respond(action: GateAction, anonymous_allowed: bool) -> (r: GateResponse)
    ensures
        r == response_to(action, anonymous_allowed),
{
    match action {
        GateAction::Authenticated { user } => GateResponse::Proceed { user: Some(user) },
        GateAction::Anonymous => {
            if anonymous_allowed {
                GateResponse::Proceed { user: None }
            } else {
                GateResponse::ClearAndReject
            }
        },
        _ => GateResponse::ClearAndReject,
    }
}

/// No request passes as a user unless every check of the filter passed,
/// and none passes at all on a route closed to anonymous requests unless
/// it passes as a user.
pub proof fn lemma_only_checked_requests_pass(
    token: Option<String>,
    session: Option<Session>,
    user: Option<User>,
    now: Timestamp,
    config: Config,
    anonymous_allowed: bool,
)
    ensures
        response_to(gate_run(token, session, user, now, config), anonymous_allowed)
            matches GateResponse::Proceed { user: Some(u) } ==> passes(
            token,
            session,
            user,
            now,
            config,
        ) && user == Some(u),
        !anonymous_allowed && !passes(token, session, user, now, config) ==> response_to(
            gate_run(token, session, user, now, config),
            anonymous_allowed,
        ) is ClearAndReject,
{
}

/// The text of a session's identifier opens the lookup of that session:
/// a request that carries it makes the filter ask for that session and no
/// other.
pub proof fn lemma_token_names_its_session(
    token: String,
    id: u128,
    now: Timestamp,
    config: Config,
)
    requires
        id_of_text(token@) == Some(id),
    ensures
        gate_step(GateState::Start, GateEvent::Request { token: Some(token) }, now, config) == (
            GateState::FindingSession { id },
            GateAction::FindSession { id },
        ),
{
}

} // verus!
