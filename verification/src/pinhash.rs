//! PIN digests: legacy SHA-256 hex digests and argon2 PHC strings.

use vstd::prelude::*;
use vstd::utf8::encode_utf8;
use sha2::{Digest, Sha256};
use argon2::password_hash::{PasswordHash, PasswordHasher, PasswordVerifier, SaltString};
use argon2::Argon2;
use rand_core::OsRng;
use crate::text::{seq_starts_with, str_eq, str_starts_with, string_of};

verus! {

/// The SHA-256 digest of a byte sequence.
pub uninterp spec fn sha256_of(data: Seq<u8>) -> Seq<u8>;

/// Whether argon2's verifier accepts `pin` against the stored PHC string `stored`
/// (false when `stored` does not parse as a PHC string).
pub uninterp spec fn argon2_accepts(pin: Seq<char>, stored: Seq<char>) -> bool;

/// Calls `sha2::Sha256::digest`: the SHA-256 digest of `data`, which is 32 bytes long.
#[verifier::external_body]
fn sha256_digest(data: &[u8]) -> (res: Vec<u8>)
    ensures
        res@ == sha256_of(data@),
        res@.len() == 32,
{
    Sha256::digest(data).to_vec()
}

/// Lower-case hexadecimal digit for `d` (0..=15).
pub open spec fn hex_digit(d: int) -> char {
    if d < 10 {
        (48 + d) as char
    } else {
        (87 + d) as char
    }
}

/// Two lower-case hexadecimal digits per byte, high nibble first.
pub open spec fn hex_seq(bytes: Seq<u8>) -> Seq<char>
    decreases bytes.len(),
{
    if bytes.len() == 0 {
        Seq::empty()
    } else {
        hex_seq(bytes.drop_last()) + seq![
            hex_digit(bytes.last() as int / 16),
            hex_digit(bytes.last() as int % 16),
        ]
    }
}

fn hex_char(d: u8) -> (c: char)
    requires
        d < 16,
    ensures
        c == hex_digit(d as int),
{
    if d < 10 {
        (d + 48) as char
    } else {
        (d + 87) as char
    }
}

/// Lower-case hexadecimal text of `bytes`.
pub fn hex_lower(bytes: &[u8]) -> (res: Vec<char>)
    ensures
        res@ == hex_seq(bytes@),
{
    let mut out: Vec<char> = Vec::new();
    let mut i: usize = 0;
    while i < bytes.len()
        invariant
            i <= bytes.len(),
            out@ == hex_seq(bytes@.subrange(0, i as int)),
        decreases bytes.len() - i,
    {
        let b = bytes[i];
        out.push(hex_char(b / 16));
        out.push(hex_char(b % 16));
        assert(bytes@.subrange(0, i + 1).drop_last() =~= bytes@.subrange(0, i as int));
        i = i + 1;
    }
    assert(bytes@.subrange(0, bytes@.len() as int) =~= bytes@);
    out
}

/// Legacy PIN digest: lower-case hex of the SHA-256 of the PIN's UTF-8 bytes.
pub open spec fn sha256_hex_text(pin: Seq<char>) -> Seq<char> {
    hex_seq(sha256_of(encode_utf8(pin)))
}

/// Legacy PIN digest: lower-case hex of the SHA-256 of the PIN's UTF-8 bytes.
pub fn sha256_hex(pin: &str) -> (res: String)
    ensures
        res@ == sha256_hex_text(pin@),
{
    let digest = sha256_digest(pin.as_bytes());
    let text = hex_lower(digest.as_slice());
    string_of(&text)
}

/// Calls `argon2::password_hash::PasswordHash::new` on `stored` and, when it parses,
/// `Argon2::default().verify_password` on the PIN's bytes; the outcome is named
/// `argon2_accepts`.
#[verifier::external_body]
fn argon2_verify(pin: &str, stored: &str) -> (res: bool)
    ensures
        res == argon2_accepts(pin@, stored@),
{
    match PasswordHash::new(stored) {
        Ok(h) => Argon2::default().verify_password(pin.as_bytes(), &h).is_ok(),
        Err(_) => false,
    }
}

/// Calls `Argon2::default().hash_password` with a salt drawn from `OsRng` and
/// renders the PHC string. The salt is random, so the string differs between
/// calls; the contract states what holds of every outcome: the string starts with
/// `$argon2` (the default algorithm is argon2id) and the verifier accepts the same
/// PIN against it, because verification recomputes the hash from the salt and
/// parameters that the string carries. Inputs longer than `u32::MAX` bytes, which
/// argon2 rejects, are excluded.
#[verifier::external_body]
pub(crate) fn hash_pin(pin: &str) -> (res: String)
    requires
        encode_utf8(pin@).len() <= 0xFFFF_FFFF,
    ensures
        seq_starts_with(res@, "$argon2"@),
        argon2_accepts(pin@, res@),
{
    let salt = SaltString::generate(&mut OsRng);
    Argon2::default().hash_password(pin.as_bytes(), &salt).expect("argon2 hash failed").to_string()
}

/// Whether `pin` matches the stored digest: argon2 PHC strings (starting with
/// `$argon2`) are checked by argon2, anything else as a legacy SHA-256 hex digest.
pub open spec fn pin_matches(pin: Seq<char>, stored: Seq<char>) -> bool {
    if seq_starts_with(stored, "$argon2"@) {
        argon2_accepts(pin, stored)
    } else {
        sha256_hex_text(pin) == stored
    }
}

/// Verifies a PIN against a stored digest, in either supported format.
pub fn verify_pin(pin: &str, stored_hash: &str) -> (res: bool)
    ensures
        res == pin_matches(pin@, stored_hash@),
{
    if str_starts_with(stored_hash, "$argon2") {
        argon2_verify(pin, stored_hash)
    } else {
        let digest = sha256_hex(pin);
        str_eq(digest.as_str(), stored_hash)
    }
}

/// A PIN verifies against every PHC string that hashing it can produce: any
/// outcome of `hash_pin` for a PIN within argon2's length limit starts with
/// `$argon2` and is accepted by argon2 for that PIN, and `verify_pin` then
/// answers `true`.
pub proof fn law_verify_after_hash(pin: Seq<char>, stored: Seq<char>)
    requires
        encode_utf8(pin).len() <= 0xFFFF_FFFF,
        seq_starts_with(stored, "$argon2"@),
        argon2_accepts(pin, stored),
    ensures
        pin_matches(pin, stored),
{
}

} // verus!
