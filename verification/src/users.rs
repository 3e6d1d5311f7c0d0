//! User records: identity, credential, and the one-time code that opens an
//! activation or reset window.

use vstd::prelude::*;
use crate::config::Config;
use crate::crypto::{
    gen_otp, hash_outcome_text, hash_password_with, is_salt_text, is_token_text, salted_hash,
    validate_hash, validation, CostParams, CryptoError,
};
use crate::ids::fresh_id;
use crate::sessions::Session;
use crate::text::{clone_opt_text, opt_text, same_text};
use crate::time::{hours_as_nanos, hours_to_nanos, is_within_window, within_window, Timestamp};

verus! {

/// Why an operation on a user failed.
#[derive(Clone, Copy, Debug, PartialEq, Eq, Structural)]
pub enum AuthError {
    /// No such user or session.
    NotFound,
    /// Wrong password, disabled account or no credential set. Callers
    /// learn no more than that.
    InvalidCredentials,
    /// The one-time code is missing, expired or different.
    InvalidOtp,
    /// The address is already in use.
    DuplicateEmail,
    /// The password and its confirmation differ.
    PasswordMismatch,
    /// The password has fewer than eight characters.
    PasswordTooShort,
    /// The password has more than 512 characters.
    PasswordTooLong,
    /// The credential could not be hashed.
    Hashing,
}

/// What a caller outside may learn of a failure: one of three outcomes,
/// none of which tells a missing user from a wrong password or code.
#[derive(Clone, Copy, Debug, PartialEq, Eq, Structural)]
pub enum Visible {
    /// The request is not authorised.
    Unauthorized,
    /// The request is malformed.
    BadRequest,
    /// The server could not do its part.
    ServerError,
}

impl AuthError {
    /// The outcome that is shown for this failure.
    pub open spec fn shown_as(self) -> Visible {
        match self {
            AuthError::NotFound | AuthError::InvalidCredentials | AuthError::InvalidOtp =>
                Visible::Unauthorized,
            AuthError::DuplicateEmail
            | AuthError::PasswordMismatch
            | AuthError::PasswordTooShort
            | AuthError::PasswordTooLong => Visible::BadRequest,
            AuthError::Hashing => Visible::ServerError,
        }
    }

    /// The outcome that is shown for this failure.
    pub fn visible(&self) -> (v: Visible)
        ensures
            v == self.shown_as(),
    {
        match self {
            AuthError::NotFound => Visible::Unauthorized,
            AuthError::InvalidCredentials => Visible::Unauthorized,
            AuthError::InvalidOtp => Visible::Unauthorized,
            AuthError::DuplicateEmail => Visible::BadRequest,
            AuthError::PasswordMismatch => Visible::BadRequest,
            AuthError::PasswordTooShort => Visible::BadRequest,
            AuthError::PasswordTooLong => Visible::BadRequest,
            AuthError::Hashing => Visible::ServerError,
        }
    }
}

/// A user record.
pub struct User {
    pub id: u128,
    pub email: String,
    pub display_name: Option<String>,
    pub enabled: bool,
    pub created: Timestamp,
    pub otp: Option<String>,
    pub secret: Option<String>,
    pub otp_date: Option<Timestamp>,
}

/// What a user record holds, as plain values.
pub struct UserView {
    pub id: u128,
    pub email: Seq<char>,
    pub display_name: Option<Seq<char>>,
    pub enabled: bool,
    pub created: Timestamp,
    pub otp: Option<Seq<char>>,
    pub secret: Option<Seq<char>>,
    pub otp_date: Option<Timestamp>,
}

impl View for User {
    type V = UserView;

    open spec fn view(&self) -> UserView {
        UserView {
            id: self.id,
            email: self.email@,
            display_name: opt_text(self.display_name),
            enabled: self.enabled,
            created: self.created,
            otp: opt_text(self.otp),
            secret: opt_text(self.secret),
            otp_date: self.otp_date,
        }
    }
}

/// The fields of a user that may be shown: no credential, no one-time code.
#[derive(Debug)]
pub struct UserDetails {
    pub id: u128,
    pub email: String,
    pub display_name: Option<String>,
    pub enabled: bool,
    pub created: Timestamp,
}

impl UserView {
    /// A one-time code and its issue time are present together or not at
    /// all.
    pub open spec fn wf(self) -> bool {
        self.otp is Some <==> self.otp_date is Some
    }

    /// Whether `submitted` is accepted as this user's one-time code at
    /// `now`: a code is pending, its window of `window_hours` is still
    /// open, and `submitted` is that code.
    pub open spec fn otp_valid(
        self,
        submitted: Seq<char>,
        now: Timestamp,
        window_hours: Option<i64>,
    ) -> bool {
        &&& self.otp matches Some(code)
        &&& self.otp_date matches Some(issued)
        &&& window_hours matches Some(hours)
        &&& within_window(issued, now, hours_as_nanos(hours as int))
        &&& submitted == code
    }

    /// Whether `password` checks against the stored credential.
    pub open spec fn password_valid(self, password: Seq<char>) -> bool {
        &&& self.secret matches Some(record)
        &&& validation(record, password) == Ok::<bool, CryptoError>(true)
    }

    /// Whether a login with `password` is granted.
    pub open spec fn login_granted(self, password: Seq<char>) -> bool {
        self.enabled && self.password_valid(password)
    }

    /// The record after a one-time code `code` was issued at `now`.
    pub open spec fn with_otp(self, code: Seq<char>, now: Timestamp) -> UserView {
        UserView { otp: Some(code), otp_date: Some(now), ..self }
    }

    /// The record without a pending one-time code.
    pub open spec fn without_otp(self) -> UserView {
        UserView { otp: None, otp_date: None, ..self }
    }

    /// The record with `record` as its credential.
    pub open spec fn with_secret(self, record: Seq<char>) -> UserView {
        UserView { secret: Some(record), ..self }
    }

    /// The record with `name` as its display name.
    pub open spec fn with_display_name(self, name: Seq<char>) -> UserView {
        UserView { display_name: Some(name), ..self }
    }
}

/// The record of a user just invited under `email` at `now`: enabled, no
/// name, no credential, no one-time code yet.
pub open spec fn invited(id: u128, email: Seq<char>, now: Timestamp) -> UserView {
    UserView {
        id,
        email,
        display_name: None,
        enabled: true,
        created: now,
        otp: None,
        secret: None,
        otp_date: None,
    }
}

/// What setting `password` does to a record when the salt drawn is `salt`:
/// the record with the new credential, or the hashing failure.
pub open spec fn credential_update(
    before: UserView,
    password: Seq<char>,
    salt: Seq<char>,
    cost: CostParams,
) -> Result<UserView, CryptoError> {
    match salted_hash(password, salt, cost) {
        Ok(record) => Ok(before.with_secret(record)),
        Err(e) => Err(e),
    }
}

/// What a reset with `challenge` and `password` does to a record at `now`
/// when the salt drawn is `salt`: refused without a valid code, otherwise
/// the record with the new credential and without code, or the hashing
/// failure.
pub open spec fn reset_outcome(
    before: UserView,
    challenge: Seq<char>,
    password: Seq<char>,
    now: Timestamp,
    config: Config,
    salt: Seq<char>,
) -> Result<UserView, AuthError> {
    if !before.otp_valid(challenge, now, config.otp_duration_hours) {
        Err(AuthError::InvalidOtp)
    } else {
        match salted_hash(password, salt, config.hash_cost) {
            Ok(record) => Ok(before.with_secret(record).without_otp()),
            Err(_) => Err(AuthError::Hashing),
        }
    }
}

/// The record that an update left behind, or why there was none.
pub open spec fn update_result<E>(r: Result<(), E>, after: UserView) -> Result<UserView, E> {
    match r {
        Ok(_) => Ok(after),
        Err(e) => Err(e),
    }
}

impl Clone for User {
    fn clone(&self) -> (r: User)
        ensures
            r == *self,
    {
        User {
            id: self.id,
            email: self.email.clone(),
            display_name: clone_opt_text(&self.display_name),
            enabled: self.enabled,
            created: self.created,
            otp: clone_opt_text(&self.otp),
            secret: clone_opt_text(&self.secret),
            otp_date: self.otp_date,
        }
    }
}

impl User {
    /// A user just invited under `email` at `now`.
    pub fn new(id: u128, email: &str, now: Timestamp) -> (u: User)
        ensures
            u@ == invited(id, email@, now),
            u@.wf(),
    {
        User {
            id,
            email: email.to_owned(),
            display_name: None,
            enabled: true,
            created: now,
            otp: None,
            secret: None,
            otp_date: None,
        }
    }

    /// Invites a user under `email` at `now`, unless a lookup of that
    /// address found one (`existing`). The new user is enabled, has no
    /// credential, and has a one-time code pending, which is returned
    /// beside the record.
    pub fn create(existing: Option<&User>, email: &str, now: Timestamp) -> (r: Result<
        (User, String),
        AuthError,
    >)
        ensures
            existing is Some <==> r is Err,
            r matches Err(e) ==> e == AuthError::DuplicateEmail,
            r matches Ok((u, code)) ==> {
                &&& u@ == invited(u.id, email@, now).with_otp(code@, now)
                &&& is_token_text(code@)
                &&& u@.wf()
            },
    {
        match existing {
            Some(_) => Err(AuthError::DuplicateEmail),
            None => {
                let mut user = User::new(fresh_id(), email, now);
                let code = user.new_otp(now);
                Ok((user, code))
            },
        }
    }

    pub fn is_active(&self) -> (active: bool)
        ensures
            active == self.enabled,
    {
        self.enabled
    }

    /// What may be shown of this user.
    pub fn details(&self) -> (d: UserDetails)
        ensures
            d.id == self.id,
            d.email@ == self.email@,
            opt_text(d.display_name) == self@.display_name,
            d.enabled == self.enabled,
            d.created == self.created,
    {
        UserDetails {
            id: self.id,
            email: self.email.clone(),
            display_name: clone_opt_text(&self.display_name),
            enabled: self.enabled,
            created: self.created,
        }
    }

    /// Whether `submitted_otp` is accepted at `now` under a window of
    /// `window_hours`. Nothing is consumed: the caller clears the code
    /// after using it.
    pub fn validate_otp(&self, submitted_otp: &str, now: Timestamp, window_hours: Option<i64>) -> (ok:
        bool)
        ensures
            ok == self@.otp_valid(submitted_otp@, now, window_hours),
    {
        match &self.otp {
            Some(code) => match self.otp_date {
                Some(issued) => match window_hours {
                    Some(hours) => {
                        if is_within_window(issued, now, hours_to_nanos(hours)) {
                            same_text(submitted_otp, code.as_str())
                        } else {
                            false
                        }
                    },
                    None => false,
                },
                None => false,
            },
            None => false,
        }
    }

    /// Issues a fresh one-time code at `now`, replacing any pending one.
    pub fn new_otp(&mut self, now: Timestamp) -> (code: String)
        ensures
            final(self)@ == old(self)@.with_otp(code@, now),
            is_token_text(code@),
            final(self)@.wf(),
    {
        let code = gen_otp();
        self.otp = Some(code.clone());
        self.otp_date = Some(now);
        code
    }

    /// Drops the pending one-time code, if any.
    pub fn clear_otp(&mut self)
        ensures
            final(self)@ == old(self)@.without_otp(),
            final(self)@.wf(),
    {
        self.otp = None;
        self.otp_date = None;
    }

    /// Whether `password` checks against the stored credential. A user
    /// without credential, or with one that cannot be parsed, has no valid
    /// password.
    pub fn validate_password(&self, password: &str) -> (ok: bool)
        ensures
            ok == self@.password_valid(password@),
    {
        match &self.secret {
            Some(record) => match validate_hash(record.as_str(), password) {
                Ok(matches) => matches,
                Err(_) => false,
            },
            None => false,
        }
    }

    /// Opens a session at `now` if the user is enabled and `password` is
    /// right. Every refusal is the same error.
    pub fn log_in(&self, password: &str, now: Timestamp) -> (r: Result<Session, AuthError>)
        ensures
            r is Ok <==> self@.login_granted(password@),
            r matches Ok(s) ==> s.user == self.id && s.created == now,
            r matches Err(e) ==> e == AuthError::InvalidCredentials,
            !self.enabled ==> r is Err,
    {
        if self.enabled && self.validate_password(password) {
            return Ok(self.create_session(now));
        }
        Err(AuthError::InvalidCredentials)
    }

    /// Opens a session for this user at `now`.
    pub fn create_session(&self, now: Timestamp) -> (s: Session)
        ensures
            s.user == self.id,
            s.created == now,
    {
        Session::create(self, now)
    }

    pub fn set_display_name(&mut self, display_name: &str)
        ensures
            final(self)@ == old(self)@.with_display_name(display_name@),
    {
        self.display_name = Some(display_name.to_owned());
    }

    /// Replaces the credential by a fresh hash of `password`. On failure
    /// the record is as before.
    pub fn set_password(&mut self, password: &str, cost: CostParams) -> (r: Result<(), CryptoError>)
        ensures
            exists|salt: Seq<char>|
                is_salt_text(salt) && update_result(r, final(self)@) == #[trigger] credential_update(
                    old(self)@,
                    password@,
                    salt,
                    cost,
                ),
            match r {
                Ok(_) => {
                    &&& final(self).secret matches Some(record)
                    &&& final(self)@ == old(self)@.with_secret(record@)
                    &&& validation(record@, password@) == Ok::<bool, CryptoError>(true)
                    &&& final(self)@.password_valid(password@)
                    &&& cost.acceptable()
                },
                Err(e) => *final(self) == *old(self) && e == CryptoError::Hashing,
            },
    {
        let hashed = hash_password_with(password, cost);
        let ghost salt = choose|salt: Seq<char>|
            is_salt_text(salt) && hash_outcome_text(hashed) == #[trigger] salted_hash(
                password@,
                salt,
                cost,
            );
        let ghost before = self@;
        match hashed {
            Ok(record) => {
                self.secret = Some(record);
                assert(Ok::<UserView, CryptoError>(self@) == credential_update(
                    before,
                    password@,
                    salt,
                    cost,
                ));
                Ok(())
            },
            Err(e) => {
                assert(Err::<UserView, CryptoError>(e) == credential_update(
                    before,
                    password@,
                    salt,
                    cost,
                ));
                Err(e)
            },
        }
    }

    /// Uses the one-time code `challenge_otp` at `now` to set
    /// `new_password`: on success the credential is replaced and the code
    /// is gone; on any failure the record is as before.
    pub fn reset(
        &mut self,
        challenge_otp: &str,
        new_password: &str,
        now: Timestamp,
        config: &Config,
    ) -> (r: Result<(), AuthError>)
        ensures
            old(self)@.otp_valid(challenge_otp@, now, config.otp_duration_hours) ==> exists|
                salt: Seq<char>,
            |
                is_salt_text(salt) && update_result(r, final(self)@) == #[trigger] reset_outcome(
                    old(self)@,
                    challenge_otp@,
                    new_password@,
                    now,
                    *config,
                    salt,
                ),
            !old(self)@.otp_valid(challenge_otp@, now, config.otp_duration_hours) <==> r == Err::<
                (),
                AuthError,
            >(AuthError::InvalidOtp),
            match r {
                Ok(_) => {
                    &&& final(self).secret matches Some(record)
                    &&& final(self)@ == old(self)@.with_secret(record@).without_otp()
                    &&& final(self)@.password_valid(new_password@)
                    &&& final(self)@.wf()
                },
                Err(e) => *final(self) == *old(self) && (e == AuthError::InvalidOtp || e
                    == AuthError::Hashing),
            },
    {
        let ghost before = self@;
        if !self.validate_otp(challenge_otp, now, config.otp_duration_hours) {
            return Err(AuthError::InvalidOtp);
        }
        let set = self.set_password(new_password, config.hash_cost);
        let ghost salt = choose|salt: Seq<char>|
            is_salt_text(salt) && update_result(set, self@) == #[trigger] credential_update(
                before,
                new_password@,
                salt,
                config.hash_cost,
            );
        match set {
            Ok(_) => {
                self.clear_otp();
                assert(Ok::<UserView, AuthError>(self@) == reset_outcome(
                    before,
                    challenge_otp@,
                    new_password@,
                    now,
                    *config,
                    salt,
                ));
                Ok(())
            },
            Err(_) => {
                assert(Err::<UserView, AuthError>(AuthError::Hashing) == reset_outcome(
                    before,
                    challenge_otp@,
                    new_password@,
                    now,
                    *config,
                    salt,
                ));
                Err(AuthError::Hashing)
            },
        }
    }
}

/// A one-time code cannot be used twice: once a reset or an activation has
/// cleared it, no submitted code is accepted, at any time and under any
/// window.
pub proof fn lemma_no_replay(
    user: UserView,
    record: Seq<char>,
    submitted: Seq<char>,
    name: Seq<char>,
    later: Timestamp,
    window_hours: Option<i64>,
)
    ensures
        !user.with_secret(record).without_otp().otp_valid(submitted, later, window_hours),
        !user.with_secret(record).without_otp().with_display_name(name).otp_valid(
            submitted,
            later,
            window_hours,
        ),
{
}

/// A disabled user is never granted a login, whatever the password.
pub proof fn lemma_disabled_never_logs_in(user: UserView, password: Seq<char>)
    requires
        !user.enabled,
    ensures
        !user.login_granted(password),
{
}

/// A one-time code is accepted only if one is pending, its window is still
/// open and the submitted text is that code; each of the three alone
/// missing is enough to refuse.
pub proof fn lemma_otp_validity(
    user: UserView,
    submitted: Seq<char>,
    now: Timestamp,
    window_hours: Option<i64>,
)
    ensures
        user.otp is None ==> !user.otp_valid(submitted, now, window_hours),
        window_hours is None ==> !user.otp_valid(submitted, now, window_hours),
        (user.otp_date matches Some(issued) && window_hours matches Some(hours) && now.as_nanos()
            - issued.as_nanos() >= hours_as_nanos(hours as int)) ==> !user.otp_valid(
            submitted,
            now,
            window_hours,
        ),
        (user.otp matches Some(code) && code != submitted) ==> !user.otp_valid(
            submitted,
            now,
            window_hours,
        ),
        (user.otp matches Some(code) && user.otp_date matches Some(issued) && window_hours matches Some(
            hours,
        ) && now.as_nanos() - issued.as_nanos() < hours_as_nanos(hours as int) && code == submitted)
            ==> user.otp_valid(submitted, now, window_hours),
{
}

/// Every update keeps a one-time code and its issue time together: issuing
/// and clearing a code set or drop both, and a new credential or display
/// name touches neither.
pub proof fn lemma_updates_keep_otp_paired(
    user: UserView,
    code: Seq<char>,
    record: Seq<char>,
    name: Seq<char>,
    now: Timestamp,
)
    ensures
        user.with_otp(code, now).wf(),
        user.without_otp().wf(),
        user.wf() ==> user.with_secret(record).wf() && user.with_display_name(name).wf(),
{
}

/// A user who has set a credential can log in with it: after an activation
/// or a reset with `password`, a login of the enabled user with that
/// password is granted.
pub proof fn lemma_credential_set_then_login(
    user: UserView,
    record: Seq<char>,
    name: Seq<char>,
    password: Seq<char>,
)
    requires
        user.enabled,
        validation(record, password) == Ok::<bool, CryptoError>(true),
    ensures
        user.with_secret(record).without_otp().login_granted(password),
        user.with_secret(record).without_otp().with_display_name(name).login_granted(password),
{
}

} // verus!
