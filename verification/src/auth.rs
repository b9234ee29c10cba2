//! The verifier: orchestrates the header parser and the loaded credential
//! store, looks up the matching record, and checks the secret against the
//! stored hash.
//!
//! Control flows strictly downward through four steps — parse, load, lookup,
//! hash check — and the first failing step terminates the call. Each lower
//! tier's failure is translated into this tier's error vocabulary, never
//! swallowed.

use vstd::prelude::*;
use crate::token::{parse_result, parse_basic_auth};
use crate::store::{
    User,
    LoadError,
    store_has_id,
    is_first_match,
    first_match_index,
    lemma_first_match_unique,
    stored_hash,
    find_user,
};

verus! {

/// Errors produced by a verification call: a closed set, one variant per
/// failing step, carrying no cause and never a secret or a hash.
#[derive(Debug, Clone, Copy, PartialEq, Eq, Structural)]
pub enum VerifyError {
    /// The token could not be parsed (any parse failure).
    InvalidCredentialFormat,
    /// The credential store could not be loaded (any load failure).
    CredentialSourceUnavailable,
    /// No record of the store carries the decoded identifier.
    UnknownIdentifier,
    /// The hash check did not accept the decoded secret — whether it ran and
    /// disagreed or failed to run is deliberately not distinguished.
    SecretMismatch,
}

/// Whether `bcrypt::verify(secret, hash)` returns `Ok(true)`: the stored
/// hash parses as a bcrypt hash and recomputing it from the secret matches.
/// The salt and cost are read from the hash string, so the outcome depends
/// on the secret and the hash alone.
pub uninterp spec fn bcrypt_accepts(secret: Seq<char>, hash: Seq<char>) -> bool;

/// Relies on `bcrypt::verify`: it extracts salt and cost from the hash
/// string and recomputes the hash from the password, so its outcome is a
/// pure function of the two arguments; it errors rather than panics on a
/// malformed hash.
#[verifier::external_body]
fn bcrypt_verify(secret: &str, hash: &str) -> (r: Result<bool, bcrypt::BcryptError>)
    ensures
        (r matches Ok(true)) == bcrypt_accepts(secret@, hash@),
{
    bcrypt::verify(secret, hash)
}

/// The error type of the bcrypt crate, carried through opaquely.
#[verifier::external_type_specification]
#[verifier::external_body]
pub struct ExBcryptError(bcrypt::BcryptError);

/// What checking a decoded (identifier, secret) pair against a loaded store
/// yields: `UnknownIdentifier` when no record carries the identifier,
/// `SecretMismatch` when the hash check does not accept the secret against
/// the first matching record's hash, success otherwise.
pub open spec fn check_outcome(id: Seq<char>, secret: Seq<char>, store: Seq<User>) -> Result<
    (),
    VerifyError,
> {
    if !store_has_id(store, id) {
        Err(VerifyError::UnknownIdentifier)
    } else if bcrypt_accepts(secret, stored_hash(store, id)) {
        Ok(())
    } else {
        Err(VerifyError::SecretMismatch)
    }
}

/// The view of a load outcome: the records of a loaded store, or the load
/// error unchanged.
pub open spec fn load_view(load_result: Result<Vec<User>, LoadError>) -> Result<
    Seq<User>,
    LoadError,
> {
    match load_result {
        Ok(store) => Ok(store@),
        Err(e) => Err(e),
    }
}

/// What a verification call yields for a token and a load outcome: the
/// first failing step's error, translated into this tier's vocabulary, or
/// success.
pub open spec fn verify_outcome(token: Seq<char>, load: Result<Seq<User>, LoadError>) -> Result<
    (),
    VerifyError,
> {
    match parse_result(token) {
        Err(_) => Err(VerifyError::InvalidCredentialFormat),
        Ok(credentials) => match load {
            Err(_) => Err(VerifyError::CredentialSourceUnavailable),
            Ok(store) => check_outcome(credentials.0, credentials.1, store),
        },
    }
}

/// Checks a decoded identifier and secret against a loaded store: scans for
/// the first record whose identifier matches exactly, then checks the
/// secret against that record's stored hash.
pub fn check_credentials(id: &str, secret: &str, store: &Vec<User>) -> (r: Result<
    (),
    VerifyError,
>)
    ensures
        r == check_outcome(id@, secret@, store@),
{
    let found = match find_user(store, id) {
        Some(i) => i,
        None => {
            return Err(VerifyError::UnknownIdentifier);
        },
    };
    proof {
        assert(exists|i: int| is_first_match(store@, id@, i));
        assert(is_first_match(store@, id@, first_match_index(store@, id@)));
        lemma_first_match_unique(store@, id@, found as int, first_match_index(store@, id@));
    }
    match bcrypt_verify(secret, store[found].password_hash.as_str()) {
        Ok(true) => Ok(()),
        _ => Err(VerifyError::SecretMismatch),
    }
}

/// Verifies a raw token against the outcome of loading the credential
/// store.
///
/// Step 1 parses the token (any parse error becomes
/// `InvalidCredentialFormat`); step 2 inspects the load outcome (any load
/// error becomes `CredentialSourceUnavailable`); steps 3 and 4 look the
/// identifier up and check the secret. Fail-fast: the first failing step
/// decides the result.
pub fn verify(token: &str, load_result: Result<Vec<User>, LoadError>) -> (r: Result<
    (),
    VerifyError,
>)
    ensures
        r == verify_outcome(token@, load_view(load_result)),
{
    let credentials = match parse_basic_auth(token) {
        Ok(p) => p,
        Err(_) => {
            return Err(VerifyError::InvalidCredentialFormat);
        },
    };
    let store = match load_result {
        Ok(store) => store,
        Err(_) => {
            return Err(VerifyError::CredentialSourceUnavailable);
        },
    };
    check_credentials(credentials.0.as_str(), credentials.1.as_str(), &store)
}

} // verus!
