//! Tests of the credential-verification pipeline, run against the real
//! base64 and bcrypt crates.

use base64::Engine;
use exercises::{verify, check_credentials, parse_basic_auth, find_user};
use exercises::{LoadError, ParseError, User, VerifyError};

const USER_ID: &str = "sample_user";
const PASSWORD: &str = "sample_password";

// A low cost keeps the hashing fast; verification reads the cost back from
// the hash itself.
const TEST_COST: u32 = 4;

fn basic_value(id: &str, pass: &str) -> String {
    format!(
        "Basic {}",
        base64::engine::general_purpose::STANDARD_NO_PAD.encode(format!("{}:{}", id, pass))
    )
}

fn sample_store() -> Vec<User> {
    vec![User {
        id: USER_ID.to_string(),
        password_hash: bcrypt::hash(PASSWORD, TEST_COST).unwrap(),
    }]
}

#[test]
fn test_verify() {
    assert!(verify(&basic_value(USER_ID, PASSWORD), Ok(sample_store())).is_ok());
}

#[test]
fn test_not_basic() {
    let result = verify("invalid header format", Ok(sample_store()));
    assert!(result.is_err());
    assert_eq!(result.unwrap_err(), VerifyError::InvalidCredentialFormat);
}

#[test]
fn test_invalid_header_encoding() {
    let result = verify("Basic invalid encoding", Ok(sample_store()));
    assert!(result.is_err());
    assert_eq!(result.unwrap_err(), VerifyError::InvalidCredentialFormat);
}

#[test]
fn test_invalid_header_format() {
    let value = base64::engine::general_purpose::STANDARD_NO_PAD
        .encode(format!("Basic {}~{}", USER_ID, PASSWORD));
    let result = verify(&value, Ok(sample_store()));
    assert!(result.is_err());
    assert_eq!(result.unwrap_err(), VerifyError::InvalidCredentialFormat);
}

#[test]
fn test_missing_environment() {
    let result = verify(&basic_value(USER_ID, PASSWORD), Err(LoadError::LocationMissing));
    assert!(result.is_err());
    assert_eq!(result.unwrap_err(), VerifyError::CredentialSourceUnavailable);
}

#[test]
fn test_invalid_format() {
    let result = verify(&basic_value(USER_ID, PASSWORD), Err(LoadError::MalformedData));
    assert!(result.is_err());
    assert_eq!(result.unwrap_err(), VerifyError::CredentialSourceUnavailable);
}

#[test]
fn test_unreadable_source() {
    let result = verify(&basic_value(USER_ID, PASSWORD), Err(LoadError::SourceUnreadable));
    assert!(result.is_err());
    assert_eq!(result.unwrap_err(), VerifyError::CredentialSourceUnavailable);
}

#[test]
fn test_user_not_found() {
    let result = verify(&basic_value("invalid_user", PASSWORD), Ok(sample_store()));
    assert!(result.is_err());
    assert_eq!(result.unwrap_err(), VerifyError::UnknownIdentifier);
}

#[test]
fn test_password_miss_match() {
    let result = verify(&basic_value(USER_ID, "invalid_password"), Ok(sample_store()));
    assert!(result.is_err());
    assert_eq!(result.unwrap_err(), VerifyError::SecretMismatch);
}

#[test]
fn parse_splits_at_first_separator_only() {
    // The secret may itself contain `:`; only the first one splits.
    let token = basic_value("alice", "sec:ret:x");
    let (id, secret) = parse_basic_auth(&token).unwrap();
    assert_eq!(id, "alice");
    assert_eq!(secret, "sec:ret:x");
}

#[test]
fn parse_decodes_the_payload() {
    // Would fail if decoding handed the payload back unchanged.
    let token = "Basic c2FtcGxlX3VzZXI6c2FtcGxlX3Bhc3N3b3Jk";
    let (id, secret) = parse_basic_auth(token).unwrap();
    assert_eq!(id, "sample_user");
    assert_eq!(secret, "sample_password");
}

#[test]
fn parse_replaces_malformed_text() {
    // Malformed UTF-8 in the decoded payload is replaced, not rejected, and
    // the `:` still splits the parts.
    let payload = base64::engine::general_purpose::STANDARD_NO_PAD.encode(b"a\xffb:secret");
    let token = format!("Basic {}", payload);
    let (id, secret) = parse_basic_auth(&token).unwrap();
    assert_eq!(id, "a\u{fffd}b");
    assert_eq!(secret, "secret");
}

#[test]
fn parse_rejects_missing_scheme() {
    assert_eq!(
        parse_basic_auth("Bearer abc").unwrap_err(),
        ParseError::NotRecognizedScheme
    );
    assert_eq!(parse_basic_auth("").unwrap_err(), ParseError::NotRecognizedScheme);
}

#[test]
fn parse_rejects_invalid_encoding() {
    assert_eq!(
        parse_basic_auth("Basic !!!").unwrap_err(),
        ParseError::InvalidEncoding
    );
    // Padded base64 is refused by the unpadded decoder.
    assert_eq!(
        parse_basic_auth("Basic YWI=").unwrap_err(),
        ParseError::InvalidEncoding
    );
}

#[test]
fn parse_rejects_missing_separator() {
    let payload = base64::engine::general_purpose::STANDARD_NO_PAD.encode("nocolonhere");
    let token = format!("Basic {}", payload);
    assert_eq!(parse_basic_auth(&token).unwrap_err(), ParseError::InvalidFormat);
}

#[test]
fn empty_store_knows_nobody() {
    let result = verify(&basic_value(USER_ID, PASSWORD), Ok(Vec::new()));
    assert_eq!(result.unwrap_err(), VerifyError::UnknownIdentifier);
}

#[test]
fn first_matching_record_wins() {
    // Two records under the same identifier: only the first one's hash counts.
    let store = vec![
        User {
            id: USER_ID.to_string(),
            password_hash: bcrypt::hash("first_password", TEST_COST).unwrap(),
        },
        User {
            id: USER_ID.to_string(),
            password_hash: bcrypt::hash(PASSWORD, TEST_COST).unwrap(),
        },
    ];
    assert_eq!(find_user(&store, USER_ID), Some(0));
    let result = verify(&basic_value(USER_ID, PASSWORD), Ok(store.clone()));
    assert_eq!(result.unwrap_err(), VerifyError::SecretMismatch);
    assert!(verify(&basic_value(USER_ID, "first_password"), Ok(store)).is_ok());
}

#[test]
fn lookup_is_case_sensitive() {
    let result = verify(&basic_value("Sample_User", PASSWORD), Ok(sample_store()));
    assert_eq!(result.unwrap_err(), VerifyError::UnknownIdentifier);
}

#[test]
fn malformed_stored_hash_reads_as_mismatch() {
    // A hash the bcrypt crate cannot parse is surfaced exactly like a
    // genuine mismatch.
    let store = vec![User {
        id: USER_ID.to_string(),
        password_hash: "not a bcrypt hash".to_string(),
    }];
    let result = check_credentials(USER_ID, PASSWORD, &store);
    assert_eq!(result.unwrap_err(), VerifyError::SecretMismatch);
}

#[test]
fn check_credentials_accepts_correct_secret() {
    let store = sample_store();
    assert!(check_credentials(USER_ID, PASSWORD, &store).is_ok());
    assert_eq!(
        check_credentials(USER_ID, "wrong", &store).unwrap_err(),
        VerifyError::SecretMismatch
    );
    assert_eq!(
        check_credentials("nobody", PASSWORD, &store).unwrap_err(),
        VerifyError::UnknownIdentifier
    );
}
