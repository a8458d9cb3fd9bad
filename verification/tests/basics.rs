use authsystem::clock::{unix_now, MAX_UTC_TIMESTAMP, MIN_UTC_TIMESTAMP};
use authsystem::codes::generate_auth_code;
use authsystem::config::{parse_port, Config, ConfigError};
use authsystem::model::{Notice, Reply, Status};
use authsystem::password::{hash_password, hash_password_with_salt, new_salt, verify_user_password};
use authsystem::text::same_text;
use authsystem::users::{email_key, registration_reply};

#[test]
fn same_text_compares_characters() {
    assert!(same_text("abc", "abc"));
    assert!(!same_text("abc", "abd"));
    assert!(!same_text("abc", "ab"));
    assert!(same_text("", ""));
    assert!(same_text("héllo", "héllo"));
}

#[test]
fn parse_port_agrees_with_std() {
    let cases = [
        "8080", "+8080", "0", "65535", "65536", "-1", "-0", "", "+", "++1", " 80", "80 ", "080",
        "99999999999999999999", "12a", "+0", "00065535", "1_000",
    ];
    for case in cases {
        assert_eq!(parse_port(case), case.parse::<u16>().ok(), "input {:?}", case);
    }
}

#[test]
fn parse_port_values() {
    assert_eq!(parse_port("3000"), Some(3000));
    assert_eq!(parse_port("+443"), Some(443));
    assert_eq!(parse_port("70000"), None);
    assert_eq!(parse_port("-5"), None);
}

#[test]
fn config_from_values_reports_first_problem() {
    let c = Config::from_values(
        Some("postgres://db".to_string()),
        Some("8080".to_string()),
        Some("dev".to_string()),
    )
    .ok()
    .unwrap();
    assert_eq!(c.database_url, "postgres://db");
    assert_eq!(c.server_port, 8080);
    assert_eq!(c.environment, "dev");

    let e = |r: Result<Config, ConfigError>| r.err().unwrap();
    assert_eq!(e(Config::from_values(None, None, None)), ConfigError::MissingDatabaseUrl);
    assert_eq!(e(Config::from_values(Some("u".into()), None, None)), ConfigError::MissingPort);
    assert_eq!(
        e(Config::from_values(Some("u".into()), Some("x".into()), None)),
        ConfigError::InvalidPort
    );
    assert_eq!(
        e(Config::from_values(Some("u".into()), Some("1".into()), None)),
        ConfigError::MissingEnvironment
    );
}

#[test]
fn auth_codes_are_64_lowercase_hex_digits() {
    let a = generate_auth_code().unwrap();
    let b = generate_auth_code().unwrap();
    assert_eq!(a.len(), 64);
    assert!(a.chars().all(|c| c.is_ascii_digit() || ('a'..='f').contains(&c)));
    assert_ne!(a, b);
}

#[test]
fn hashed_password_verifies() {
    let hash = hash_password("hunter42").ok().unwrap();
    assert!(hash.starts_with("$argon2id$v=19$"));
    assert!(verify_user_password("hunter42", &hash));
    assert!(!verify_user_password("hunter43", &hash));
}

#[test]
fn hashing_twice_uses_fresh_salts() {
    let a = hash_password("pw").ok().unwrap();
    let b = hash_password("pw").ok().unwrap();
    assert_ne!(a, b);
    assert!(verify_user_password("pw", &a));
    assert!(verify_user_password("pw", &b));
}

#[test]
fn hash_with_fixed_salt_is_deterministic() {
    let salt = "c2FsdHNhbHRzYWx0c2FsdA";
    let a = hash_password_with_salt("secret", salt).ok().unwrap();
    let b = hash_password_with_salt("secret", salt).ok().unwrap();
    assert_eq!(a, b);
    assert!(a.contains(salt));
    assert!(verify_user_password("secret", &a));
}

#[test]
fn hash_with_malformed_salt_fails() {
    let e = hash_password_with_salt("secret", "!!").err().unwrap();
    assert_eq!(e, "Something went wrong");
}

#[test]
fn malformed_hash_verifies_nothing() {
    assert!(!verify_user_password("pw", "not a phc string"));
    assert!(!verify_user_password("", ""));
    assert!(!verify_user_password("pw", "argon2id$v=19$"));
}

#[test]
fn email_key_lowercases() {
    assert_eq!(email_key("John.Doe@Example.COM"), "john.doe@example.com");
    assert_eq!(email_key("already@lower.org"), "already@lower.org");
}

#[test]
fn registration_reply_carries_hyphenated_uuid() {
    match registration_reply(Some(0x67e5504410b1426f9247bb680e5fe0c8)) {
        Reply::Created(body) => assert_eq!(body, "67e55044-10b1-426f-9247-bb680e5fe0c8"),
        _ => panic!("expected 201"),
    }
    match registration_reply(None) {
        Reply::Error(s, n) => {
            assert_eq!(s, Status::InternalServerError);
            assert_eq!(n, Notice::CreateUserFailed);
            assert_eq!(n.text(), "Failed to create user, Please try again");
        }
        _ => panic!("expected 500"),
    }
}

#[test]
fn status_codes() {
    assert_eq!(Status::Created.code(), 201);
    assert_eq!(Status::BadRequest.code(), 400);
    assert_eq!(Status::Unauthorized.code(), 401);
    assert_eq!(Status::NotFound.code(), 404);
    assert_eq!(Status::UnprocessableEntity.code(), 422);
    assert_eq!(Status::InternalServerError.code(), 500);
}

#[test]
fn notice_texts() {
    assert_eq!(Notice::InvalidClient.text(), "Invalid Client");
    assert_eq!(Notice::InvalidSecret.text(), "Invalid Secret");
    assert_eq!(Notice::InvalidOrExpiredCode.text(), "Invalid or expired auth code");
    assert_eq!(Notice::UnregisteredRedirectUri.text(), "Invalid redirect URI");
    assert_eq!(Notice::UnregisteredRedirectUrl.text(), "Invalid redirect url");
    assert_eq!(Notice::HashingFailed.text(), "Something went wrong");
}

#[test]
fn clock_bound_is_chrono_maximum() {
    let max = chrono::DateTime::<chrono::Utc>::MAX_UTC.timestamp();
    assert_eq!(MAX_UTC_TIMESTAMP, max);
    let min = chrono::DateTime::<chrono::Utc>::MIN_UTC.timestamp();
    assert_eq!(MIN_UTC_TIMESTAMP, min);
}

#[test]
fn unix_now_agrees_with_chrono() {
    let before = chrono::Utc::now().timestamp();
    let now = unix_now().unwrap();
    let after = chrono::Utc::now().timestamp();
    assert!(before <= now && now <= after);
    assert!(now >= 0);
}

#[test]
fn salts_are_22_b64_characters_that_argon2_takes() {
    let salt = new_salt().unwrap();
    assert_eq!(salt.len(), 22);
    assert!(argon2::password_hash::SaltString::from_b64(&salt).is_ok());
    assert_ne!(salt, new_salt().unwrap());
}

#[test]
fn hash_has_phc_form() {
    let salt = new_salt().unwrap();
    let hash = hash_password_with_salt("pw", &salt).ok().unwrap();
    let prefix = "$argon2id$v=19$m=19456,t=2,p=1$";
    assert!(hash.starts_with(prefix));
    assert_eq!(&hash[prefix.len()..prefix.len() + 22], salt.as_str());
    assert_eq!(&hash[prefix.len() + 22..prefix.len() + 23], "$");
    assert_eq!(hash.len(), prefix.len() + 22 + 1 + 43);
}

#[test]
fn salt_encoding_matches_password_hash_crate() {
    let salt = argon2::password_hash::SaltString::encode_b64(&[0u8, 1, 2, 250, 251, 252, 253, 254, 255, 7, 8, 9, 10, 11, 12, 13]).unwrap();
    let hash = hash_password_with_salt("pw", salt.as_str()).ok().unwrap();
    assert!(hash.contains(salt.as_str()));
}
