//! The entry points of authentication: login, activation, password reset
//! requests, logout and the advisory password check. Each takes what the
//! caller looked up and returns what the caller has to store or answer.

use vstd::prelude::*;
use zxcvbn::zxcvbn;
use crate::config::Config;
use crate::crypto::is_salt_text;
use crate::ids::{id_of_text, id_text, parse_id, text_of_id};
use crate::sessions::Session;
use crate::text::same_text;
use crate::time::Timestamp;
use crate::users::{reset_outcome, update_result, AuthError, User, UserDetails, UserView};

verus! {

/// Fewest characters of an acceptable password.
pub const MIN_PASSWORD_CHARS: usize = 8;

/// Most characters of an acceptable password.
pub const MAX_PASSWORD_CHARS: usize = 512;

/// Highest score that is still too weak.
pub const WEAK_SCORE: u8 = 3;

/// What is wrong with a new password before its strength is looked at:
/// it differs from its confirmation, or it is shorter than eight or longer
/// than 512 characters. The first that applies is reported.
pub open spec fn password_problem(password: Seq<char>, confirm: Seq<char>) -> Option<AuthError> {
    if password != confirm {
        Some(AuthError::PasswordMismatch)
    } else if password.len() < MIN_PASSWORD_CHARS {
        Some(AuthError::PasswordTooShort)
    } else if password.len() > MAX_PASSWORD_CHARS {
        Some(AuthError::PasswordTooLong)
    } else {
        None
    }
}

/// Checks a new password against its confirmation and the length bounds.
pub fn check_new_password(password: &str, confirm: &str) -> (problem: Option<AuthError>)
    ensures
        problem == password_problem(password@, confirm@),
{
    if !same_text(password, confirm) {
        return Some(AuthError::PasswordMismatch);
    }
    let chars: usize = password.unicode_len();
    if chars < MIN_PASSWORD_CHARS {
        Some(AuthError::PasswordTooShort)
    } else if chars > MAX_PASSWORD_CHARS {
        Some(AuthError::PasswordTooLong)
    } else {
        None
    }
}

/// What a successful login hands out: the session to store, the value of
/// the session cookie, and what of the user may be shown to the client.
pub struct LoginGrant {
    pub session: Session,
    pub token: String,
    pub details: UserDetails,
}

/// Logs in the user that a lookup by address found, if any. A missing
/// user, a disabled one and a wrong password all give the same error.
pub fn login(found: Option<&User>, password: &str, now: Timestamp) -> (r: Result<
    LoginGrant,
    AuthError,
>)
    ensures
        r is Ok <==> (found matches Some(user) && user@.login_granted(password@)),
        r matches Err(e) ==> e == AuthError::InvalidCredentials,
        r matches Ok(grant) ==> {
            &&& found matches Some(user)
            &&& grant.session.user == user.id
            &&& grant.session.created == now
            &&& grant.token@ == text_of_id(grant.session.id)
            &&& id_of_text(grant.token@) == Some(grant.session.id)
            &&& grant.details.id == user.id
            &&& grant.details.email@ == user.email@
            &&& crate::text::opt_text(grant.details.display_name) == user@.display_name
            &&& grant.details.enabled
            &&& grant.details.created == user.created
        },
{
    match found {
        Some(user) => match user.log_in(password, now) {
            Ok(session) => Ok(
                LoginGrant { session, token: id_text(session.id), details: user.details() },
            ),
            Err(_) => Err(AuthError::InvalidCredentials),
        },
        None => Err(AuthError::InvalidCredentials),
    }
}

/// What is done with the two authentication cookies: the session cookie,
/// which carries the session's identifier, and the cookie that shows the
/// client who is logged in. They are set together and cleared together.
pub enum CookieChange {
    /// Set both cookies.
    Issue { session: String, details: UserDetails },
    /// Clear both cookies.
    Clear,
}

/// The cookies after a login attempt: set from what a granted login handed
/// out, cleared after any refusal, whatever its reason.
pub fn login_cookies(outcome: Result<LoginGrant, AuthError>) -> (change: CookieChange)
    ensures
        change == match outcome {
            Ok(grant) => CookieChange::Issue { session: grant.token, details: grant.details },
            Err(_) => CookieChange::Clear,
        },
{
    match outcome {
        Ok(grant) => CookieChange::Issue { session: grant.token, details: grant.details },
        Err(_) => CookieChange::Clear,
    }
}

/// Why an activation is refused before any hashing is done, if it is: no
/// such user; else a one-time code that is missing, expired or different;
/// else a password that differs from its confirmation or is too short or
/// too long.
pub open spec fn activation_refusal(
    found: Option<User>,
    otp: Seq<char>,
    password: Seq<char>,
    confirm_password: Seq<char>,
    now: Timestamp,
    config: Config,
) -> Option<AuthError> {
    match found {
        None => Some(AuthError::NotFound),
        Some(user) => if !user@.otp_valid(otp, now, config.otp_duration_hours) {
            Some(AuthError::InvalidOtp)
        } else {
            password_problem(password, confirm_password)
        },
    }
}

/// What an activation gives when the salt drawn is `salt`: the refusal, or
/// the record with credential and display name set and no code left, or
/// the hashing failure.
pub open spec fn activation_outcome(
    found: Option<User>,
    otp: Seq<char>,
    display_name: Seq<char>,
    password: Seq<char>,
    confirm_password: Seq<char>,
    now: Timestamp,
    config: Config,
    salt: Seq<char>,
) -> Result<UserView, AuthError> {
    match activation_refusal(found, otp, password, confirm_password, now, config) {
        Some(refusal) => Err(refusal),
        None => match found {
            Some(user) => match reset_outcome(user@, otp, password, now, config, salt) {
                Ok(updated) => Ok(updated.with_display_name(display_name)),
                Err(e) => Err(e),
            },
            None => Err(AuthError::NotFound),
        },
    }
}

/// What a result holds, with the record as plain values.
pub open spec fn record_view(r: Result<User, AuthError>) -> Result<UserView, AuthError> {
    match r {
        Ok(user) => Ok(user@),
        Err(e) => Err(e),
    }
}

/// Activates the user that a lookup by identifier found: checks the
/// one-time code, then the new password, then sets credential and display
/// name and drops the code. The updated record is returned to be stored in
/// one write; on failure nothing is to be stored, so the stored record and
/// its pending code stay as they are.
pub fn activate(
    found: Option<User>,
    otp: &str,
    display_name: &str,
    password: &str,
    confirm_password: &str,
    now: Timestamp,
    config: &Config,
) -> (r: Result<User, AuthError>)
    ensures
        match activation_refusal(found, otp@, password@, confirm_password@, now, *config) {
            Some(refusal) => r == Err::<User, AuthError>(refusal),
            None => exists|salt: Seq<char>|
                is_salt_text(salt) && record_view(r) == #[trigger] activation_outcome(
                    found,
                    otp@,
                    display_name@,
                    password@,
                    confirm_password@,
                    now,
                    *config,
                    salt,
                ),
        },
        r matches Err(e) ==> e != AuthError::InvalidCredentials && e != AuthError::DuplicateEmail,
        r matches Ok(updated) ==> {
            &&& found matches Some(user)
            &&& updated.secret matches Some(record)
            &&& updated@ == user@.with_secret(record@).without_otp().with_display_name(
                display_name@,
            )
            &&& updated@.password_valid(password@)
            &&& updated@.wf()
        },
{
    match found {
        None => Err(AuthError::NotFound),
        Some(user) => {
            let mut user = user;
            if !user.validate_otp(otp, now, config.otp_duration_hours) {
                return Err(AuthError::InvalidOtp);
            }
            match check_new_password(password, confirm_password) {
                Some(problem) => Err(problem),
                None => {
                    let ghost before = user@;
                    let outcome = user.reset(otp, password, now, config);
                    let ghost salt = choose|salt: Seq<char>|
                        is_salt_text(salt) && update_result(outcome, user@)
                            == #[trigger] reset_outcome(before, otp@, password@, now, *config, salt);
                    match outcome {
                        Ok(_) => {
                            user.set_display_name(display_name);
                            assert(Ok::<UserView, AuthError>(user@) == activation_outcome(
                                found,
                                otp@,
                                display_name@,
                                password@,
                                confirm_password@,
                                now,
                                *config,
                                salt,
                            ));
                            Ok(user)
                        },
                        Err(e) => {
                            assert(Err::<UserView, AuthError>(e) == activation_outcome(
                                found,
                                otp@,
                                display_name@,
                                password@,
                                confirm_password@,
                                now,
                                *config,
                                salt,
                            ));
                            Err(e)
                        },
                    }
                },
            }
        },
    }
}

/// Opens a reset window for the user that a lookup by address found: a
/// fresh one-time code is issued to an existing, enabled user and returned
/// beside the updated record.
pub fn request_reset(found: Option<User>, now: Timestamp) -> (r: Result<(User, String), AuthError>)
    ensures
        match found {
            None => r == Err::<(User, String), AuthError>(AuthError::NotFound),
            Some(user) => if user.enabled {
                r matches Ok((updated, code)) && updated@ == user@.with_otp(code@, now)
                    && crate::crypto::is_token_text(code@)
            } else {
                r == Err::<(User, String), AuthError>(AuthError::InvalidCredentials)
            },
        },
{
    match found {
        None => Err(AuthError::NotFound),
        Some(user) => {
            let mut user = user;
            if user.is_active() {
                let code = user.new_otp(now);
                Ok((user, code))
            } else {
                Err(AuthError::InvalidCredentials)
            }
        },
    }
}

/// What a logout asks for: the session to delete, if the request named
/// one, and what is done with the cookies.
pub struct Logout {
    pub session: Option<u128>,
    pub cookies: CookieChange,
}

/// Logs out: the session that the session cookie names, if there is a
/// cookie and it names one, is to be deleted, and both cookies are cleared
/// either way. Deleting a session that is not there is no failure, so a
/// logout may be repeated.
pub fn logout(token: Option<&str>) -> (plan: Logout)
    ensures
        plan.session == match token {
            Some(text) => id_of_text(text@),
            None => None,
        },
        plan.cookies is Clear,
{
    let session = match token {
        Some(text) => parse_id(text),
        None => None,
    };
    Logout { session, cookies: CookieChange::Clear }
}

/// What the advisory password check reports.
#[derive(Clone, Copy, Debug, PartialEq, Eq, Structural)]
pub enum Posture {
    /// The password is acceptable.
    Valid,
    /// The password and its confirmation differ.
    Mismatch,
    /// The password has fewer than eight characters.
    TooShort,
    /// The password has more than 512 characters.
    TooLong,
    /// The password is too easy to guess.
    TooWeak,
    /// The candidate user does not exist.
    Other,
}

impl Posture {
    pub fn is_valid(&self) -> (valid: bool)
        ensures
            valid == (*self == Posture::Valid),
    {
        match self {
            Posture::Valid => true,
            _ => false,
        }
    }

    /// The text shown with the verdict.
    pub open spec fn reason_text(self) -> Seq<char> {
        match self {
            Posture::Valid => ""@,
            Posture::Mismatch => "Passwords do not match"@,
            Posture::TooShort => "Password must be at least eight characters long"@,
            Posture::TooLong => "Password must be 512 or fewer characters"@,
            Posture::TooWeak =>
                "Password complexity too low, or contains parts of user email or display name"@,
            Posture::Other => "Other error"@,
        }
    }

    /// The text shown with the verdict.
    pub fn reason(&self) -> (text: String)
        ensures
            text@ == self.reason_text(),
    {
        match self {
            Posture::Valid => "".to_owned(),
            Posture::Mismatch => "Passwords do not match".to_owned(),
            Posture::TooShort => "Password must be at least eight characters long".to_owned(),
            Posture::TooLong => "Password must be 512 or fewer characters".to_owned(),
            Posture::TooWeak =>
                "Password complexity too low, or contains parts of user email or display name".to_owned(),
            Posture::Other => "Other error".to_owned(),
        }
    }
}

/// The verdict on a candidate password: the length and confirmation checks
/// come first, then whether the candidate user exists, then the strength
/// score, which must be above three. A missing score counts as too weak.
pub open spec fn posture_of(
    password: Seq<char>,
    confirm: Seq<char>,
    user_found: bool,
    score: Option<u8>,
) -> Posture {
    match password_problem(password, confirm) {
        Some(AuthError::PasswordMismatch) => Posture::Mismatch,
        Some(AuthError::PasswordTooShort) => Posture::TooShort,
        Some(_) => Posture::TooLong,
        None => if !user_found {
            Posture::Other
        } else {
            match score {
                Some(s) => if s > WEAK_SCORE {
                    Posture::Valid
                } else {
                    Posture::TooWeak
                },
                None => Posture::TooWeak,
            }
        },
    }
}

/// The verdict on a candidate password, given whether the candidate user
/// exists and the strength score of the password.
pub fn posture_verdict(password: &str, confirm: &str, user_found: bool, score: Option<u8>) -> (p:
    Posture)
    ensures
        p == posture_of(password@, confirm@, user_found, score),
{
    match check_new_password(password, confirm) {
        Some(AuthError::PasswordMismatch) => Posture::Mismatch,
        Some(AuthError::PasswordTooShort) => Posture::TooShort,
        Some(_) => Posture::TooLong,
        None => {
            if !user_found {
                return Posture::Other;
            }
            match score {
                Some(s) => if s > WEAK_SCORE {
                    Posture::Valid
                } else {
                    Posture::TooWeak
                },
                None => Posture::TooWeak,
            }
        },
    }
}

/// `zxcvbn` of zxcvbn with the user's address and display name as known
/// words, and `Entropy::score` of its result: a score from 0 to 4, or
/// `None` where the estimator reports an error. The estimate depends on
/// the current year, so nothing more is claimed of it.
#[verifier::external_body]
fn strength_score(password: &str, email: &str, display_name: &str) -> (score: Option<u8>)
    ensures
        score matches Some(s) ==> s <= 4,
{
    match zxcvbn(password, &[email, display_name]) {
        Ok(entropy) => Some(entropy.score()),
        Err(_) => None,
    }
}

/// The advisory check of a candidate password for the user that a lookup
/// found. The strength estimate is taken only for a password that passed
/// the other checks.
pub fn password_posture(
    found: Option<&User>,
    display_name: &str,
    password: &str,
    confirm: &str,
) -> (p: Posture)
    ensures
        exists|score: Option<u8>| p == #[trigger] posture_of(password@, confirm@, found is Some, score),
        password_problem(password@, confirm@) is Some || found is None ==> p == posture_of(
            password@,
            confirm@,
            found is Some,
            None,
        ),
{
    if check_new_password(password, confirm).is_some() {
        return posture_verdict(password, confirm, found.is_some(), None);
    }
    match found {
        Some(user) => {
            let score = strength_score(password, user.email.as_str(), display_name);
            posture_verdict(password, confirm, true, score)
        },
        None => posture_verdict(password, confirm, false, None),
    }
}

/// The advisory check never replaces the length bounds: a password that
/// it calls valid has passed them and equals its confirmation.
pub proof fn lemma_valid_posture_within_bounds(
    password: Seq<char>,
    confirm: Seq<char>,
    user_found: bool,
    score: Option<u8>,
)
    requires
        posture_of(password, confirm, user_found, score) == Posture::Valid,
    ensures
        password == confirm,
        MIN_PASSWORD_CHARS <= password.len() <= MAX_PASSWORD_CHARS,
        user_found,
        score matches Some(s) && s > WEAK_SCORE,
{
}

} // verus!
