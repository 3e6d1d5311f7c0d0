use intricase::auth::{
    activate, check_new_password, login, login_cookies, logout, password_posture, posture_verdict,
    request_reset, CookieChange, Posture,
};
use intricase::config::Config;
use intricase::crypto::{hash_password_with, CostParams};
use intricase::ids::{id_text, parse_id};
use intricase::invite::{activation_reference_text, activation_url, invite, CreateUserRequest};
use intricase::time::Timestamp;
use intricase::users::{AuthError, User};

const HOUR: i64 = 3_600;
const T0: i64 = 1_700_000_000;
const PASSWORD: &str = "correctHorseBatteryStaple";

fn config() -> Config {
    Config {
        otp_duration_hours: Some(24),
        session_duration_days: Some(7),
        hash_cost: CostParams { m_cost: 64, t_cost: 1, p_cost: 1 },
    }
}

fn at(secs: i64) -> Timestamp {
    Timestamp::new(secs, 0)
}

fn invited() -> (User, String) {
    let request = CreateUserRequest { email: "a@example.com".to_string() };
    match invite(&request, None, "http://localhost:8080", at(T0)) {
        Ok(invitation) => (invitation.user, invitation.otp),
        Err(e) => panic!("invitation failed: {:?}", e),
    }
}

fn activated() -> User {
    let (user, otp) = invited();
    match activate(Some(user), &otp, "Alice", PASSWORD, PASSWORD, at(T0 + HOUR), &config()) {
        Ok(updated) => updated,
        Err(e) => panic!("activation failed: {:?}", e),
    }
}

fn refusal(r: Result<User, AuthError>) -> AuthError {
    match r {
        Ok(_) => panic!("expected a refusal"),
        Err(e) => e,
    }
}

#[test]
fn invited_user_activates_and_logs_in() {
    let (user, otp) = invited();
    assert_eq!(user.email, "a@example.com");
    assert_eq!(user.otp, Some(otp.clone()));
    let id: u128 = user.id;
    let updated = match activate(Some(user), &otp, "Alice", PASSWORD, PASSWORD, at(T0 + HOUR), &config())
    {
        Ok(updated) => updated,
        Err(e) => panic!("activation failed: {:?}", e),
    };
    assert_eq!(updated.id, id);
    assert_eq!(updated.display_name, Some("Alice".to_string()));
    assert_eq!(updated.otp, None);
    assert_eq!(updated.otp_date, None);
    assert!(updated.secret.is_some());

    let grant = match login(Some(&updated), PASSWORD, at(T0 + 2 * HOUR)) {
        Ok(grant) => grant,
        Err(e) => panic!("login failed: {:?}", e),
    };
    assert_eq!(grant.session.user, id);
    assert_eq!(grant.session.created, at(T0 + 2 * HOUR));
    assert_eq!(parse_id(&grant.token), Some(grant.session.id));
    assert_eq!(grant.details.id, id);
    assert_eq!(grant.details.email, "a@example.com");
    assert_eq!(grant.details.display_name, Some("Alice".to_string()));

    let second = match login(Some(&updated), PASSWORD, at(T0 + 2 * HOUR)) {
        Ok(grant) => grant,
        Err(e) => panic!("login failed: {:?}", e),
    };
    assert_ne!(second.session.id, grant.session.id);
}

#[test]
fn activating_twice_with_the_same_code_fails() {
    let (user, otp) = invited();
    let updated = match activate(Some(user), &otp, "Alice", PASSWORD, PASSWORD, at(T0 + HOUR), &config())
    {
        Ok(updated) => updated,
        Err(e) => panic!("activation failed: {:?}", e),
    };
    assert!(!updated.validate_otp(&otp, at(T0 + HOUR), Some(24)));
    let again = activate(Some(updated), &otp, "Mallory", "anotherPassword", "anotherPassword", at(T0 + HOUR), &config());
    assert_eq!(refusal(again), AuthError::InvalidOtp);
}

#[test]
fn unknown_address_and_wrong_password_fail_alike() {
    let user = activated();
    let unknown = login(None, PASSWORD, at(T0 + 2 * HOUR)).err();
    let wrong = login(Some(&user), "wrongPassword", at(T0 + 2 * HOUR)).err();
    assert_eq!(unknown, Some(AuthError::InvalidCredentials));
    assert_eq!(wrong, Some(AuthError::InvalidCredentials));
    assert_eq!(unknown, wrong);
    let after_unknown = login_cookies(login(None, PASSWORD, at(T0 + 2 * HOUR)));
    let after_wrong = login_cookies(login(Some(&user), "wrongPassword", at(T0 + 2 * HOUR)));
    assert!(matches!(after_unknown, CookieChange::Clear));
    assert!(matches!(after_wrong, CookieChange::Clear));
}

#[test]
fn granted_login_sets_both_cookies() {
    let user = activated();
    match login_cookies(login(Some(&user), PASSWORD, at(T0 + 2 * HOUR))) {
        CookieChange::Issue { session, details } => {
            assert!(parse_id(&session).is_some());
            assert_eq!(details.id, user.id);
            assert_eq!(details.email, "a@example.com");
        }
        CookieChange::Clear => panic!("the cookies of a granted login were cleared"),
    }
}

#[test]
fn disabled_user_is_refused_whatever_the_password() {
    let mut user = activated();
    user.enabled = false;
    assert_eq!(login(Some(&user), PASSWORD, at(T0)).err(), Some(AuthError::InvalidCredentials));
    assert_eq!(login(Some(&user), "wrong", at(T0)).err(), Some(AuthError::InvalidCredentials));
}

#[test]
fn user_who_never_activated_cannot_log_in() {
    let (user, otp) = invited();
    assert_eq!(login(Some(&user), "", at(T0)).err(), Some(AuthError::InvalidCredentials));
    assert_eq!(login(Some(&user), &otp, at(T0)).err(), Some(AuthError::InvalidCredentials));
}

#[test]
fn activation_of_an_unknown_user_is_not_found() {
    let r = activate(None, "code", "Alice", PASSWORD, PASSWORD, at(T0), &config());
    assert_eq!(refusal(r), AuthError::NotFound);
}

#[test]
fn activation_checks_the_code_before_the_password() {
    let (user, otp) = invited();
    let long = "x".repeat(513);
    let r = activate(Some(user.clone()), "wrong", "Alice", PASSWORD, "different", at(T0), &config());
    assert_eq!(refusal(r), AuthError::InvalidOtp);
    let r = activate(Some(user.clone()), "wrong", "Alice", "1234567", "1234567", at(T0), &config());
    assert_eq!(refusal(r), AuthError::InvalidOtp);
    let r = activate(Some(user.clone()), "wrong", "Alice", &long, &long, at(T0), &config());
    assert_eq!(refusal(r), AuthError::InvalidOtp);
    let r = activate(Some(user.clone()), &otp, "Alice", "abcdefgh", "abcdefgi", at(T0 + 24 * HOUR), &config());
    assert_eq!(refusal(r), AuthError::InvalidOtp);
    let r = activate(Some(user.clone()), "wrong", "Alice", PASSWORD, PASSWORD, at(T0), &config());
    assert_eq!(refusal(r), AuthError::InvalidOtp);
    let r = activate(Some(user), &otp, "Alice", PASSWORD, PASSWORD, at(T0 + 24 * HOUR), &config());
    assert_eq!(refusal(r), AuthError::InvalidOtp);
}

#[test]
fn activation_without_pending_code_is_an_invalid_code_whatever_the_password() {
    let user = User::new(1, "a@example.com", at(T0));
    let r = activate(Some(user), "", "Alice", "abcdefgh", "abcdefgi", at(T0), &config());
    assert_eq!(refusal(r), AuthError::InvalidOtp);
}

#[test]
fn activation_with_a_valid_code_checks_the_password() {
    let (user, otp) = invited();
    let r = activate(Some(user.clone()), &otp, "Alice", PASSWORD, "different", at(T0), &config());
    assert_eq!(refusal(r), AuthError::PasswordMismatch);
    let r = activate(Some(user.clone()), &otp, "Alice", "1234567", "1234567", at(T0), &config());
    assert_eq!(refusal(r), AuthError::PasswordTooShort);
    let long = "x".repeat(513);
    let r = activate(Some(user.clone()), &otp, "Alice", &long, &long, at(T0), &config());
    assert_eq!(refusal(r), AuthError::PasswordTooLong);
    // a refused activation consumes nothing: the same code still activates
    assert!(activate(Some(user), &otp, "Alice", PASSWORD, PASSWORD, at(T0), &config()).is_ok());
}

#[test]
fn activation_accepts_passwords_at_both_length_bounds() {
    let (user, otp) = invited();
    let short = "12345678";
    assert!(activate(Some(user.clone()), &otp, "Alice", short, short, at(T0), &config()).is_ok());
    let long = "x".repeat(512);
    assert!(activate(Some(user), &otp, "Alice", &long, &long, at(T0), &config()).is_ok());
}

#[test]
fn activation_fails_closed_without_a_configured_window() {
    let (user, otp) = invited();
    let closed = Config { otp_duration_hours: None, ..config() };
    let r = activate(Some(user), &otp, "Alice", PASSWORD, PASSWORD, at(T0), &closed);
    assert_eq!(refusal(r), AuthError::InvalidOtp);
}

#[test]
fn password_length_counts_characters() {
    assert_eq!(check_new_password("äöüßäöüß", "äöüßäöüß"), None);
    assert_eq!(check_new_password("äöüßäöü", "äöüßäöü"), Some(AuthError::PasswordTooShort));
    assert_eq!(check_new_password("12345678", "12345679"), Some(AuthError::PasswordMismatch));
    assert_eq!(check_new_password("", ""), Some(AuthError::PasswordTooShort));
}

#[test]
fn reset_request_issues_a_fresh_code() {
    let user = activated();
    let (updated, code) = match request_reset(Some(user), at(T0 + 48 * HOUR)) {
        Ok(pair) => pair,
        Err(e) => panic!("reset request failed: {:?}", e),
    };
    assert_eq!(updated.otp, Some(code.clone()));
    assert_eq!(updated.otp_date, Some(at(T0 + 48 * HOUR)));
    assert!(updated.validate_password(PASSWORD));
    let renewed = match activate(Some(updated), &code, "Alice", "aNewPassword", "aNewPassword", at(T0 + 49 * HOUR), &config())
    {
        Ok(user) => user,
        Err(e) => panic!("reset failed: {:?}", e),
    };
    assert!(renewed.validate_password("aNewPassword"));
    assert!(!renewed.validate_password(PASSWORD));
}

#[test]
fn reset_request_is_refused_for_missing_and_disabled_users() {
    assert_eq!(request_reset(None, at(T0)).err(), Some(AuthError::NotFound));
    let mut user = activated();
    user.enabled = false;
    assert_eq!(request_reset(Some(user), at(T0)).err(), Some(AuthError::InvalidCredentials));
}

#[test]
fn logout_names_the_session_of_the_cookie() {
    assert_eq!(logout(Some(&id_text(40))).session, Some(40));
    assert_eq!(
        logout(Some("a1a2a3a4-b1b2-c1c2-d1d2-d3d4d5d6d7d8")).session,
        Some(0xa1a2a3a4b1b2c1c2d1d2d3d4d5d6d7d8)
    );
    assert_eq!(logout(Some("garbage")).session, None);
    assert_eq!(logout(None).session, None);
}

#[test]
fn logout_always_clears_the_cookies() {
    assert!(matches!(logout(Some(&id_text(40))).cookies, CookieChange::Clear));
    assert!(matches!(logout(Some("garbage")).cookies, CookieChange::Clear));
    assert!(matches!(logout(None).cookies, CookieChange::Clear));
}

#[test]
fn identifiers_round_trip_through_text() {
    assert_eq!(id_text(0xa1a2a3a4b1b2c1c2d1d2d3d4d5d6d7d8), "a1a2a3a4-b1b2-c1c2-d1d2-d3d4d5d6d7d8");
    assert_eq!(parse_id("a1a2a3a4-b1b2-c1c2-d1d2-d3d4d5d6d7d8"), Some(0xa1a2a3a4b1b2c1c2d1d2d3d4d5d6d7d8));
    assert_eq!(parse_id(&id_text(0)), Some(0));
    assert_eq!(parse_id(&id_text(u128::MAX)), Some(u128::MAX));
    assert_eq!(parse_id("a1a2a3a4-b1b2-c1c2-d1d2-d3d4d5d6d7d"), None);
    assert_eq!(parse_id(""), None);
}

#[test]
fn posture_checks_come_in_order() {
    assert_eq!(posture_verdict("12345678", "12345679", true, Some(4)), Posture::Mismatch);
    assert_eq!(posture_verdict("1234567", "1234567", true, Some(4)), Posture::TooShort);
    let long = "x".repeat(513);
    assert_eq!(posture_verdict(&long, &long, true, Some(4)), Posture::TooLong);
    assert_eq!(posture_verdict("12345678", "12345678", false, Some(4)), Posture::Other);
    assert_eq!(posture_verdict("12345678", "12345678", true, Some(3)), Posture::TooWeak);
    assert_eq!(posture_verdict("12345678", "12345678", true, Some(0)), Posture::TooWeak);
    assert_eq!(posture_verdict("12345678", "12345678", true, None), Posture::TooWeak);
    assert_eq!(posture_verdict("12345678", "12345678", true, Some(4)), Posture::Valid);
}

#[test]
fn posture_reasons_are_worded() {
    assert_eq!(Posture::Valid.reason(), "");
    assert_eq!(Posture::Mismatch.reason(), "Passwords do not match");
    assert_eq!(Posture::TooShort.reason(), "Password must be at least eight characters long");
    assert_eq!(Posture::TooLong.reason(), "Password must be 512 or fewer characters");
    assert_eq!(
        Posture::TooWeak.reason(),
        "Password complexity too low, or contains parts of user email or display name"
    );
    assert_eq!(Posture::Other.reason(), "Other error");
    assert!(Posture::Valid.is_valid());
    assert!(!Posture::TooWeak.is_valid());
}

#[test]
fn posture_of_a_strong_password_is_valid() {
    let user = User::new(1, "a@example.com", at(T0));
    let strong = "vR7#qLp9!zTw2&mXe4@kHb6";
    assert_eq!(password_posture(Some(&user), "Alice", strong, strong), Posture::Valid);
}

#[test]
fn posture_of_a_guessable_password_is_too_weak() {
    let user = User::new(1, "a@example.com", at(T0));
    assert_eq!(password_posture(Some(&user), "Alice", "password1", "password1"), Posture::TooWeak);
    assert_eq!(password_posture(Some(&user), "Alice", "a@example.com", "a@example.com"), Posture::TooWeak);
}

#[test]
fn posture_reports_bounds_and_missing_user_without_scoring() {
    let user = User::new(1, "a@example.com", at(T0));
    assert_eq!(password_posture(Some(&user), "Alice", "short", "short"), Posture::TooShort);
    assert_eq!(password_posture(Some(&user), "Alice", "12345678", "87654321"), Posture::Mismatch);
    let strong = "vR7#qLp9!zTw2&mXe4@kHb6";
    assert_eq!(password_posture(None, "Alice", strong, strong), Posture::Other);
}

#[test]
fn invitation_under_a_taken_address_fails() {
    let existing = User::new(1, "a@example.com", at(T0));
    let request = CreateUserRequest { email: "a@example.com".to_string() };
    match invite(&request, Some(&existing), "http://localhost:8080", at(T0)) {
        Ok(_) => panic!("a second user was invited under the same address"),
        Err(e) => assert_eq!(e, AuthError::DuplicateEmail),
    }
}

#[test]
fn invitation_survives_an_unreadable_site_address() {
    let request = CreateUserRequest { email: "a@example.com".to_string() };
    match invite(&request, None, "not a url", at(T0)) {
        Ok(invitation) => {
            assert_eq!(invitation.activation_url, None);
            assert_eq!(invitation.user.otp, Some(invitation.otp));
        }
        Err(e) => panic!("invitation failed: {:?}", e),
    }
}

#[test]
fn activation_link_carries_route_identifier_and_code() {
    let mut user = User::new(0xa1a2a3a4b1b2c1c2d1d2d3d4d5d6d7d8, "a@example.com", at(T0));
    user.otp = Some("abc-DEF-123".to_string());
    user.otp_date = Some(at(T0));
    assert_eq!(
        activation_url("https://x.test", &user),
        Some(
            "https://x.test/#!/activateAccount/a1a2a3a4-b1b2-c1c2-d1d2-d3d4d5d6d7d8/abc-DEF-123"
                .to_string()
        )
    );
    assert_eq!(
        activation_url("http://localhost:8080/", &user),
        Some(
            "http://localhost:8080/#!/activateAccount/a1a2a3a4-b1b2-c1c2-d1d2-d3d4d5d6d7d8/abc-DEF-123"
                .to_string()
        )
    );
    assert_eq!(activation_url("nonsense", &user), None);
}

#[test]
fn activation_reference_is_route_identifier_slash_code() {
    assert_eq!(
        activation_reference_text(0xa1a2a3a4b1b2c1c2d1d2d3d4d5d6d7d8, "abc-DEF-123"),
        "/#!/activateAccount/a1a2a3a4-b1b2-c1c2-d1d2-d3d4d5d6d7d8/abc-DEF-123"
    );
    assert_eq!(
        activation_reference_text(0, ""),
        "/#!/activateAccount/00000000-0000-0000-0000-000000000000/"
    );
}

#[test]
fn user_without_pending_code_has_no_activation_link() {
    let user = User::new(7, "a@example.com", at(T0));
    assert_eq!(activation_url("https://x.test", &user), None);
}

#[test]
fn invitation_link_names_the_new_user_and_the_code() {
    let request = CreateUserRequest { email: "a@example.com".to_string() };
    match invite(&request, None, "https://x.test", at(T0)) {
        Ok(invitation) => {
            let expected = format!(
                "https://x.test/#!/activateAccount/{}/{}",
                id_text(invitation.user.id),
                invitation.otp
            );
            assert_eq!(invitation.activation_url, Some(expected));
        }
        Err(e) => panic!("invitation failed: {:?}", e),
    }
}

#[test]
fn stored_hash_from_elsewhere_logs_in() {
    let mut user = User::new(3, "c@example.com", at(T0));
    user.secret = Some(
        hash_password_with(PASSWORD, CostParams { m_cost: 128, t_cost: 2, p_cost: 1 }).unwrap(),
    );
    assert!(login(Some(&user), PASSWORD, at(T0)).is_ok());
}
