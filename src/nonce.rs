use vstd::prelude::*;

use crate::error::{failure_of, ErrorKind, VerifyError};

verus! {

/// Width of the report's nonce field ("report data"), in bytes.
pub const NONCE_LEN: usize = 64;

pub open spec fn is_hex_digit(c: char) -> bool {
    ('0' <= c && c <= '9') || ('a' <= c && c <= 'f') || ('A' <= c && c <= 'F')
}

pub open spec fn hex_digit_value(c: char) -> int {
    if '0' <= c && c <= '9' {
        c as int - '0' as int
    } else if 'a' <= c && c <= 'f' {
        c as int - 'a' as int + 10
    } else {
        c as int - 'A' as int + 10
    }
}

/// The bytes that a hex text stands for: pairs of digits in either case,
/// high nibble first; `None` for an odd length or a non-digit.
pub open spec fn hex_decoded(s: Seq<char>) -> Option<Seq<u8>> {
    if s.len() % 2 == 0 && (forall|i: int| 0 <= i < s.len() ==> is_hex_digit(#[trigger] s[i])) {
        Some(
            Seq::new(
                (s.len() / 2) as nat,
                |i: int| (16 * hex_digit_value(s[2 * i]) + hex_digit_value(s[2 * i + 1])) as u8,
            ),
        )
    } else {
        None
    }
}

pub open spec fn lower_hex_digit(n: int) -> char {
    seq!['0', '1', '2', '3', '4', '5', '6', '7', '8', '9', 'a', 'b', 'c', 'd', 'e', 'f'][n]
}

/// Lowercase hex text of a byte sequence, two digits per byte, high nibble first.
pub open spec fn hex_encoded(b: Seq<u8>) -> Seq<char> {
    Seq::new(
        2 * b.len(),
        |i: int|
            if i % 2 == 0 {
                lower_hex_digit(b[i / 2] as int / 16)
            } else {
                lower_hex_digit(b[i / 2] as int % 16)
            },
    )
}

/// What base64 decoding with the standard alphabet and required padding
/// gives for a text, `None` where the text is not such an encoding.
pub uninterp spec fn base64_decoded(s: Seq<char>) -> Option<Seq<u8>>;

/// Relies on `hex::encode`: lowercase digits, two per byte, high nibble first.
#[verifier::external_body]
pub(crate) fn hex_encode(b: &Vec<u8>) -> (r: String)
    ensures
        r@ == hex_encoded(b@),
{
    hex::encode(b)
}

/// Relies on `hex::decode`: it accepts an even number of digits of either
/// case and fails on anything else.
#[verifier::external_body]
fn hex_decode(s: &str) -> (r: Option<Vec<u8>>)
    ensures
        match r {
            Some(v) => hex_decoded(s@) == Some(v@),
            None => hex_decoded(s@) is None,
        },
{
    hex::decode(s).ok()
}

/// Relies on the decoder of `base64`'s `STANDARD` engine; the result depends
/// on the text alone.
#[verifier::external_body]
fn base64_decode(s: &str) -> (r: Option<Vec<u8>>)
    ensures
        match r {
            Some(v) => base64_decoded(s@) == Some(v@),
            None => base64_decoded(s@) is None,
        },
{
    base64::Engine::decode(&base64::engine::general_purpose::STANDARD, s.as_bytes()).ok()
}

/// An expected nonce as the caller wrote it, in one of two textual forms.
#[derive(Debug, Clone, PartialEq, Eq)]
pub enum NonceText {
    Hex(String),
    Base64(String),
}

/// The bytes that a nonce text stands for.
pub open spec fn nonce_text_bytes(t: NonceText) -> Option<Seq<u8>> {
    match t {
        NonceText::Hex(s) => hex_decoded(s@),
        NonceText::Base64(s) => base64_decoded(s@),
    }
}

/// Decodes the expected nonce from its textual form.
pub fn decode_expected_nonce(t: &NonceText) -> (r: Result<Vec<u8>, VerifyError>)
    ensures
        match nonce_text_bytes(*t) {
            Some(b) => r matches Ok(v) && v@ == b,
            None => r == Err::<Vec<u8>, VerifyError>(VerifyError::InvalidNonceEncoding),
        },
{
    let decoded = match t {
        NonceText::Hex(s) => hex_decode(s.as_str()),
        NonceText::Base64(s) => base64_decode(s.as_str()),
    };
    match decoded {
        Some(v) => Ok(v),
        None => Err(VerifyError::InvalidNonceEncoding),
    }
}

/// The failure kind of comparing an expected nonce with a report's nonce
/// field: `None` when they are equal.
pub open spec fn nonce_failure(expected: Seq<u8>, found: Seq<u8>) -> Option<ErrorKind> {
    if expected.len() != found.len() {
        Some(ErrorKind::NonceLengthMismatch)
    } else if expected != found {
        Some(ErrorKind::NonceMismatch)
    } else {
        None
    }
}

/// Compares an expected nonce byte for byte with a report's nonce field. A
/// mismatch carries both values in lowercase hex.
pub fn match_nonce(expected: &Vec<u8>, found: &Vec<u8>) -> (r: Result<(), VerifyError>)
    ensures
        failure_of(r) == nonce_failure(expected@, found@),
        r matches Err(VerifyError::NonceLengthMismatch { expected_len, found_len }) ==> (
        expected_len == expected@.len() && found_len == found@.len()),
        r matches Err(VerifyError::NonceMismatch { found: f, expected: e }) ==> (f@
            == hex_encoded(found@) && e@ == hex_encoded(expected@)),
{
    if expected.len() != found.len() {
        return Err(
            VerifyError::NonceLengthMismatch { expected_len: expected.len(), found_len: found.len() },
        );
    }
    let mut i: usize = 0;
    while i < expected.len()
        invariant
            expected@.len() == found@.len(),
            0 <= i <= expected@.len(),
            forall|j: int| 0 <= j < i ==> expected@[j] == found@[j],
        decreases expected@.len() - i,
    {
        if expected[i] != found[i] {
            return Err(
                VerifyError::NonceMismatch { found: hex_encode(found), expected: hex_encode(expected) },
            );
        }
        i = i + 1;
    }
    assert(expected@ =~= found@);
    Ok(())
}

} // verus!
