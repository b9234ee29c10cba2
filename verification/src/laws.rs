//! Laws of the verification pipeline: what every call of `verify` yields,
//! stated over the spec-level outcome that `verify`'s own contract pins its
//! result to.

use vstd::prelude::*;
use crate::token::{parse_result, has_scheme_prefix, token_payload, base64_decoded, has_separator};
use crate::store::{User, LoadError, store_has_id, stored_hash};
use crate::auth::{VerifyError, bcrypt_accepts, verify_outcome};

verus! {

/// A well-formed token that encodes a known identifier together with a
/// secret its stored hash accepts verifies successfully against a loaded
/// store holding that record.
pub proof fn lemma_valid_credentials_accepted(token: Seq<char>, store: Seq<User>)
    requires
        parse_result(token) matches Ok(credentials) && store_has_id(store, credentials.0)
            && bcrypt_accepts(credentials.1, stored_hash(store, credentials.0)),
    ensures
        verify_outcome(token, Ok(store)) is Ok,
{
}

/// A token that does not start with the fixed scheme prefix fails with
/// `InvalidCredentialFormat`, whatever the load outcome.
pub proof fn lemma_missing_scheme_rejected(token: Seq<char>, load: Result<Seq<User>, LoadError>)
    requires
        !has_scheme_prefix(token),
    ensures
        verify_outcome(token, load) == Err::<(), VerifyError>(VerifyError::InvalidCredentialFormat),
{
}

/// A token whose payload is not valid unpadded base64 fails with
/// `InvalidCredentialFormat`, whatever the load outcome.
pub proof fn lemma_invalid_encoding_rejected(token: Seq<char>, load: Result<Seq<User>, LoadError>)
    requires
        base64_decoded(token_payload(token)) is None,
    ensures
        verify_outcome(token, load) == Err::<(), VerifyError>(VerifyError::InvalidCredentialFormat),
{
}

/// A token whose decoded payload lacks a `:` separator fails with
/// `InvalidCredentialFormat`, whatever the load outcome.
pub proof fn lemma_missing_separator_rejected(
    token: Seq<char>,
    load: Result<Seq<User>, LoadError>,
)
    requires
        base64_decoded(token_payload(token)) matches Some(bytes) && !has_separator(bytes),
    ensures
        verify_outcome(token, load) == Err::<(), VerifyError>(VerifyError::InvalidCredentialFormat),
{
}

/// When loading the store failed — the source location unset, the source
/// unreadable, or its data malformed — every token that parses fails with
/// `CredentialSourceUnavailable`. (A token that does not parse fails one
/// step earlier, with `InvalidCredentialFormat`.)
pub proof fn lemma_load_failure_rejected(token: Seq<char>, e: LoadError)
    requires
        parse_result(token) is Ok,
    ensures
        verify_outcome(token, Err(e)) == Err::<(), VerifyError>(
            VerifyError::CredentialSourceUnavailable,
        ),
{
}

/// A well-formed token whose identifier no record of the loaded store
/// carries fails with `UnknownIdentifier`.
pub proof fn lemma_unknown_identifier_rejected(token: Seq<char>, store: Seq<User>)
    requires
        parse_result(token) matches Ok(credentials) && !store_has_id(store, credentials.0),
    ensures
        verify_outcome(token, Ok(store)) == Err::<(), VerifyError>(VerifyError::UnknownIdentifier),
{
}

/// A well-formed token with a known identifier whose stored hash does not
/// accept the decoded secret fails with `SecretMismatch`.
pub proof fn lemma_wrong_secret_rejected(token: Seq<char>, store: Seq<User>)
    requires
        parse_result(token) matches Ok(credentials) && store_has_id(store, credentials.0)
            && !bcrypt_accepts(credentials.1, stored_hash(store, credentials.0)),
    ensures
        verify_outcome(token, Ok(store)) == Err::<(), VerifyError>(VerifyError::SecretMismatch),
{
}

} // verus!
