//! Header parsing: decoding a raw credential token into an
//! (identifier, secret) pair.
//!
//! A token follows the fixed two-part scheme `"Basic <payload>"`, where the
//! payload is unpadded standard base64. The decoded bytes, read as text
//! (lossily, replacing malformed sequences), must contain a `:` separator;
//! the first `:` splits the identifier from the secret, so the secret may
//! itself contain `:`.

use vstd::prelude::*;
use vstd::slice::slice_subrange;
use vstd::string::StrSliceExecFns;
use base64::Engine;

verus! {

/// Errors produced while parsing a raw credential token.
#[derive(Debug, Clone, Copy, PartialEq, Eq, Structural)]
pub enum ParseError {
    /// The token does not start with the fixed scheme prefix.
    NotRecognizedScheme,
    /// The payload after the prefix is not valid unpadded base64.
    InvalidEncoding,
    /// The decoded payload has no `:` separator.
    InvalidFormat,
}

/// What base64's `STANDARD_NO_PAD` engine decodes a payload to:
/// `Some` of the decoded bytes exactly on valid unpadded standard base64,
/// `None` otherwise. The outcome depends on the payload characters alone.
pub uninterp spec fn base64_decoded(payload: Seq<char>) -> Option<Seq<u8>>;

/// What `String::from_utf8_lossy` turns a byte sequence into: well-formed
/// UTF-8 is kept, malformed sequences are replaced. The result depends on
/// the bytes alone.
pub uninterp spec fn utf8_lossy_decoded(bytes: Seq<u8>) -> Seq<char>;

/// Relies on `base64::Engine::decode` with the `STANDARD_NO_PAD` engine:
/// decoding is a pure function of the payload, succeeding exactly on valid
/// unpadded standard base64.
#[verifier::external_body]
fn base64_decode(payload: &str) -> (r: Option<Vec<u8>>)
    ensures
        r is Some <==> base64_decoded(payload@) is Some,
        r matches Some(bytes) ==> base64_decoded(payload@) == Some(bytes@),
{
    match base64::engine::general_purpose::STANDARD_NO_PAD.decode(payload.as_bytes()) {
        Ok(bytes) => Some(bytes),
        Err(_) => None,
    }
}

/// Relies on `String::from_utf8_lossy`: a pure function of the bytes that
/// replaces malformed UTF-8 sequences instead of rejecting them.
#[verifier::external_body]
fn utf8_lossy(bytes: &[u8]) -> (r: String)
    ensures
        r@ == utf8_lossy_decoded(bytes@),
{
    String::from_utf8_lossy(bytes).into_owned()
}

/// The fixed scheme prefix every token must start with: `"Basic "`.
pub open spec fn scheme_prefix() -> Seq<char> {
    seq!['B', 'a', 's', 'i', 'c', ' ']
}

/// Whether a token starts with the fixed scheme prefix.
pub open spec fn has_scheme_prefix(token: Seq<char>) -> bool {
    token.len() >= 6 && token.subrange(0, 6) == scheme_prefix()
}

/// The payload part of a token: everything after the scheme prefix.
pub open spec fn token_payload(token: Seq<char>) -> Seq<char> {
    token.skip(6)
}

/// The byte value of the `:` separator.
pub open spec fn separator_byte() -> u8 {
    58
}

/// Whether some byte of the decoded payload is the `:` separator.
pub open spec fn has_separator(bytes: Seq<u8>) -> bool {
    exists|i: int| 0 <= i < bytes.len() && bytes[i] == separator_byte()
}

/// Whether `i` is the position of the first `:` separator in `bytes`.
pub open spec fn is_first_separator(bytes: Seq<u8>, i: int) -> bool {
    &&& 0 <= i < bytes.len()
    &&& bytes[i] == separator_byte()
    &&& forall|j: int| 0 <= j < i ==> bytes[j] != separator_byte()
}

/// The position of the first `:` separator in `bytes`; meaningful only when
/// `has_separator(bytes)` holds.
pub open spec fn separator_index(bytes: Seq<u8>) -> int {
    choose|i: int| is_first_separator(bytes, i)
}

/// At most one position is the first separator.
pub proof fn lemma_first_separator_unique(bytes: Seq<u8>, i: int, j: int)
    requires
        is_first_separator(bytes, i),
        is_first_separator(bytes, j),
    ensures
        i == j,
{
    if i < j {
        assert(bytes[i] != separator_byte());
    }
    if j < i {
        assert(bytes[j] != separator_byte());
    }
}

/// What parsing a token yields: the parse error of the first failing check,
/// or the identifier and secret read from the decoded payload, split at the
/// first `:`.
pub open spec fn parse_result(token: Seq<char>) -> Result<(Seq<char>, Seq<char>), ParseError> {
    if !has_scheme_prefix(token) {
        Err(ParseError::NotRecognizedScheme)
    } else {
        match base64_decoded(token_payload(token)) {
            Option::None => Err(ParseError::InvalidEncoding),
            Option::Some(bytes) => {
                if !has_separator(bytes) {
                    Err(ParseError::InvalidFormat)
                } else {
                    let i = separator_index(bytes);
                    Ok((utf8_lossy_decoded(bytes.take(i)), utf8_lossy_decoded(bytes.skip(i + 1))))
                }
            },
        }
    }
}

/// Whether the token starts with `"Basic "`.
fn starts_with_scheme(token: &str) -> (r: bool)
    ensures
        r == has_scheme_prefix(token@),
{
    if token.unicode_len() < 6 {
        return false;
    }
    let r = token.get_char(0) == 'B' && token.get_char(1) == 'a' && token.get_char(2) == 's'
        && token.get_char(3) == 'i' && token.get_char(4) == 'c' && token.get_char(5) == ' ';
    proof {
        if r {
            assert(token@.subrange(0, 6) =~= scheme_prefix());
        } else {
            if token@.subrange(0, 6) == scheme_prefix() {
                assert(forall|k: int|
                    0 <= k < 6 ==> token@[k] == #[trigger] token@.subrange(0, 6)[k]);
            }
        }
    }
    r
}

/// Parses a raw token into its (identifier, secret) pair.
///
/// The token must start with `"Basic "`; the rest must be valid unpadded
/// standard base64; the decoded bytes, read lossily as text, must contain a
/// `:`. The first `:` splits identifier from secret. Pure: no side effects.
pub fn parse_basic_auth(token: &str) -> (r: Result<(String, String), ParseError>)
    ensures
        r is Ok <==> parse_result(token@) is Ok,
        r matches Ok(p) ==> (parse_result(token@) matches Ok(q) && p.0@ == q.0 && p.1@ == q.1),
        r matches Err(e) ==> (parse_result(token@) matches Err(q) && e == q),
{
    if !starts_with_scheme(token) {
        return Err(ParseError::NotRecognizedScheme);
    }
    let len = token.unicode_len();
    let payload = token.substring_char(6, len);
    proof {
        assert(payload@ =~= token_payload(token@));
    }
    let bytes = match base64_decode(payload) {
        Some(b) => b,
        None => {
            return Err(ParseError::InvalidEncoding);
        },
    };
    let n = bytes.len();
    let mut k: usize = 0;
    while k < n
        invariant
            n == bytes@.len(),
            has_scheme_prefix(token@),
            base64_decoded(token_payload(token@)) == Some(bytes@),
            forall|j: int| 0 <= j < k ==> bytes@[j] != separator_byte(),
        decreases n - k,
    {
        if bytes[k] == 58 {
            proof {
                assert(is_first_separator(bytes@, k as int));
                assert(has_separator(bytes@));
                assert(exists|i: int| is_first_separator(bytes@, i));
                assert(is_first_separator(bytes@, separator_index(bytes@)));
                lemma_first_separator_unique(bytes@, k as int, separator_index(bytes@));
                assert(separator_index(bytes@) == k as int);
                assert(bytes@.take(k as int) =~= bytes@.subrange(0, k as int));
                assert(bytes@.skip(k + 1) =~= bytes@.subrange(k + 1, n as int));
            }
            let id = utf8_lossy(slice_subrange(bytes.as_slice(), 0, k));
            let secret = utf8_lossy(slice_subrange(bytes.as_slice(), k + 1, n));
            return Ok((id, secret));
        }
        k = k + 1;
    }
    Err(ParseError::InvalidFormat)
}

} // verus!
