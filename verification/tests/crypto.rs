use intricase::crypto::{
    any_excess_lanes, argon2_params, gen_otp, hash_password_salted, hash_password_with, url_safe,
    validate_hash, CostParams, CryptoError, Setting,
};

fn light() -> CostParams {
    CostParams { m_cost: 64, t_cost: 1, p_cost: 1 }
}

#[test]
fn hashed_password_validates() {
    let record = hash_password_with("correctHorseBatteryStaple", light()).unwrap();
    assert_eq!(validate_hash(&record, "correctHorseBatteryStaple"), Ok(true));
}

#[test]
fn other_password_does_not_validate() {
    let record = hash_password_with("correctHorseBatteryStaple", light()).unwrap();
    assert_eq!(validate_hash(&record, "correctHorseBatteryStapl"), Ok(false));
    assert_eq!(validate_hash(&record, "correcthorsebatterystaple"), Ok(false));
    assert_eq!(validate_hash(&record, "correctHorseBatteryStaple "), Ok(false));
    assert_eq!(validate_hash(&record, ""), Ok(false));
}

#[test]
fn records_of_one_password_under_two_salts_differ_and_both_validate() {
    let first = hash_password_salted("same password", "c29tZXNhbHRzb21lc2FsdA", light()).unwrap();
    let second = hash_password_salted("same password", "b3RoZXJzYWx0b3RoZXJzYQ", light()).unwrap();
    assert_ne!(first, second);
    assert_eq!(validate_hash(&first, "same password"), Ok(true));
    assert_eq!(validate_hash(&second, "same password"), Ok(true));
    assert!(first.contains("$c29tZXNhbHRzb21lc2FsdA$"));
    assert!(second.contains("$b3RoZXJzYWx0b3RoZXJzYQ$"));
}

#[test]
fn hashing_twice_gives_different_records() {
    let first = hash_password_with("same password", light()).unwrap();
    let second = hash_password_with("same password", light()).unwrap();
    assert_ne!(first, second);
    assert_eq!(validate_hash(&first, "same password"), Ok(true));
    assert_eq!(validate_hash(&second, "same password"), Ok(true));
}

#[test]
fn corrupt_record_is_an_error_not_a_mismatch() {
    assert_eq!(validate_hash("not a record", "password"), Err(CryptoError::HashFormat));
    assert_eq!(validate_hash("", "password"), Err(CryptoError::HashFormat));
}

#[test]
fn salted_hash_is_a_function_of_its_inputs() {
    let first = hash_password_salted("password", "c29tZXNhbHRzb21lc2FsdA", light()).unwrap();
    let second = hash_password_salted("password", "c29tZXNhbHRzb21lc2FsdA", light()).unwrap();
    assert_eq!(first, second);
    assert!(first.starts_with("$argon2id$v=19$m=64,t=1,p=1$c29tZXNhbHRzb21lc2FsdA$"));
    assert_ne!(first, "password");
    let other_salt = hash_password_salted("password", "b3RoZXJzYWx0b3RoZXJzYQ", light()).unwrap();
    assert_ne!(first, other_salt);
    assert_eq!(validate_hash(&first, "password"), Ok(true));
}

#[test]
fn salted_hash_refuses_a_malformed_salt() {
    assert_eq!(hash_password_salted("password", "!!", light()), Err(CryptoError::Hashing));
}

#[test]
fn unacceptable_costs_are_refused() {
    let no_lanes = CostParams { m_cost: 64, t_cost: 1, p_cost: 0 };
    assert_eq!(hash_password_with("password", no_lanes), Err(CryptoError::Hashing));
    let no_passes = CostParams { m_cost: 64, t_cost: 0, p_cost: 1 };
    assert_eq!(hash_password_with("password", no_passes), Err(CryptoError::Hashing));
    let little_memory = CostParams { m_cost: 7, t_cost: 1, p_cost: 1 };
    assert_eq!(hash_password_with("password", little_memory), Err(CryptoError::Hashing));
    let many_lanes = CostParams { m_cost: u32::MAX, t_cost: 1, p_cost: 0x100_0000 };
    assert_eq!(hash_password_with("password", many_lanes), Err(CryptoError::Hashing));
    assert!(!no_lanes.is_acceptable());
    assert!(light().is_acceptable());
}

#[test]
fn standard_costs_are_two_gibibytes_one_pass_one_lane() {
    let cost = argon2_params();
    assert_eq!(cost, CostParams { m_cost: 2_097_152, t_cost: 1, p_cost: 1 });
    assert!(cost.is_acceptable());
}

#[test]
fn one_time_codes_are_url_safe() {
    let code = gen_otp();
    assert_eq!(code.chars().count(), 22);
    assert!(code.chars().all(|c| c.is_ascii_alphanumeric() || c == '-'));
}

#[test]
fn one_time_codes_differ() {
    assert_ne!(gen_otp(), gen_otp());
}

#[test]
fn url_safe_replaces_plus_and_slash() {
    assert_eq!(url_safe("a+b/c-d"), "a-b-c-d");
    assert_eq!(url_safe(""), "");
    assert_eq!(url_safe("++//"), "----");
    assert_eq!(url_safe("plain"), "plain");
}

#[test]
fn record_naming_too_many_lanes_matches_nothing() {
    let record =
        "$argon2id$v=19$m=8,t=1,p=4294967295$c29tZXNhbHRzb21lc2FsdA$aGFzaGhhc2hoYXNoaGFzaGhhc2g";
    assert_eq!(validate_hash(record, "password"), Ok(false));
    let record =
        "$argon2id$v=19$m=8,t=1,p=16777216$c29tZXNhbHRzb21lc2FsdA$aGFzaGhhc2hoYXNoaGFzaGhhc2g";
    assert_eq!(validate_hash(record, "password"), Ok(false));
}

#[test]
fn record_of_another_scheme_matches_nothing() {
    let record = "$pbkdf2-sha256$i=1000$c29tZXNhbHRzb21lc2FsdA$aGFzaGhhc2hoYXNoaGFzaGhhc2hoYXNoaGFzaGhhc2g";
    assert_eq!(validate_hash(record, "password"), Ok(false));
}

#[test]
fn record_with_little_memory_matches_nothing() {
    let record =
        "$argon2id$v=19$m=1,t=1,p=1$c29tZXNhbHRzb21lc2FsdA$aGFzaGhhc2hoYXNoaGFzaGhhc2g";
    assert_eq!(validate_hash(record, "password"), Ok(false));
}

#[test]
fn record_repeating_lanes_with_too_many_matches_nothing() {
    let last_wins =
        "$argon2id$v=19$m=8,t=1,p=1,p=4294967295$c29tZXNhbHRzb21lc2FsdA$aGFzaGhhc2hoYXNoaGFzaGhhc2g";
    assert_eq!(validate_hash(last_wins, "password"), Ok(false));
    let first_too_many =
        "$argon2id$v=19$m=8,t=1,p=4294967295,p=1$c29tZXNhbHRzb21lc2FsdA$aGFzaGhhc2hoYXNoaGFzaGhhc2g";
    assert_eq!(validate_hash(first_too_many, "password"), Ok(false));
    let overflowing =
        "$argon2id$v=19$p=1,m=8,p=536870912,t=1$c29tZXNhbHRzb21lc2FsdA$aGFzaGhhc2hoYXNoaGFzaGhhc2g";
    assert_eq!(validate_hash(overflowing, "password"), Ok(false));
}

#[test]
fn record_repeating_acceptable_lanes_is_checked_as_usual() {
    let record =
        "$argon2id$v=19$m=64,t=1,p=2,p=1$c29tZXNhbHRzb21lc2FsdA$aGFzaGhhc2hoYXNoaGFzaGhhc2g";
    assert_eq!(validate_hash(record, "password"), Ok(false));
}

#[test]
fn settings_are_screened_by_name_and_value() {
    let lanes = |value: Option<u32>| Setting { name: "p".to_string(), value };
    let memory = Setting { name: "m".to_string(), value: Some(u32::MAX) };
    assert!(!any_excess_lanes(&Vec::new()));
    assert!(!any_excess_lanes(&vec![memory]));
    assert!(!any_excess_lanes(&vec![lanes(Some(0xFF_FFFF)), lanes(None)]));
    assert!(any_excess_lanes(&vec![lanes(Some(0x100_0000))]));
    assert!(any_excess_lanes(&vec![lanes(Some(1)), lanes(Some(u32::MAX))]));
    assert!(any_excess_lanes(&vec![lanes(Some(u32::MAX)), lanes(Some(1))]));
    let other = Setting { name: "pp".to_string(), value: Some(u32::MAX) };
    assert!(!any_excess_lanes(&vec![other]));
}

#[test]
fn salt_that_does_not_decode_is_refused() {
    assert_eq!(
        hash_password_salted("same password", "c29tZXNhbHRzb21lc2FsdB", light()),
        Err(CryptoError::Hashing)
    );
}
