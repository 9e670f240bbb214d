//! Calls into the outside cryptography, randomness, clock and pattern crates.
//!
//! Each function here is taken on trust: its contract restates what the
//! called crate documents. Results that depend on the arguments alone get a
//! name; results that depend on chance or the clock get no promise beyond
//! their shape.

use vstd::prelude::*;

use chacha20poly1305::aead::{Aead, KeyInit, OsRng};
use chacha20poly1305::aead::rand_core::RngCore;

verus! {

/// The X25519 function: the scalar `k` (clamped) times the curve point `u`.
pub uninterp spec fn x25519_of(k: Seq<u8>, u: Seq<u8>) -> Seq<u8>;

/// HKDF-SHA256 output key material of 32 bytes.
pub uninterp spec fn hkdf_sha256_32(salt: Option<Seq<u8>>, ikm: Seq<u8>, info: Seq<u8>) -> Seq<u8>;

/// XChaCha20-Poly1305 encryption without associated data.
pub uninterp spec fn xchacha_seal(key: Seq<u8>, nonce: Seq<u8>, plaintext: Seq<u8>) -> Seq<u8>;

/// XChaCha20-Poly1305 decryption without associated data: `None` when the
/// tag does not authenticate the ciphertext under the key and nonce.
pub uninterp spec fn xchacha_open(key: Seq<u8>, nonce: Seq<u8>, ciphertext: Seq<u8>) -> Option<Seq<u8>>;

/// What the pattern `level=(error|warning|info|debug)` captures in its first
/// match on a line.
pub uninterp spec fn level_capture(line: Seq<char>) -> Option<Seq<char>>;

/// The view of an optional byte slice.
pub open spec fn opt_bytes(b: Option<&[u8]>) -> Option<Seq<u8>> {
    match b {
        Some(s) => Some(s@),
        None => None,
    }
}

/// Relies on `x25519_dalek::x25519`: the Montgomery-ladder product of a
/// clamped 32-byte scalar and a 32-byte point, itself 32 bytes.
#[verifier::external_body]
pub(crate) fn x25519(k: &[u8], u: &[u8]) -> (r: Vec<u8>)
    requires
        k@.len() == 32,
        u@.len() == 32,
    ensures
        r@ == x25519_of(k@, u@),
        r@.len() == 32,
{
    let mut scalar = [0u8; 32];
    let mut point = [0u8; 32];
    scalar.copy_from_slice(k);
    point.copy_from_slice(u);
    x25519_dalek::x25519(scalar, point).to_vec()
}

/// Relies on `hkdf::Hkdf::<Sha256>::new` followed by `expand` into 32 bytes;
/// `expand` fails only for outputs longer than 255 blocks of 32 bytes.
#[verifier::external_body]
pub(crate) fn hkdf_sha256(salt: Option<&[u8]>, ikm: &[u8], info: &[u8]) -> (r: Option<Vec<u8>>)
    ensures
        r is Some,
        r matches Some(k) ==> k@ == hkdf_sha256_32(opt_bytes(salt), ikm@, info@) && k@.len() == 32,
{
    let mut okm = [0u8; 32];
    hkdf::Hkdf::<sha2::Sha256>::new(salt, ikm).expand(info, &mut okm).ok().map(|_| okm.to_vec())
}

/// Relies on `chacha20poly1305::XChaCha20Poly1305::encrypt` with a 24-byte
/// nonce: the ciphertext followed by a 16-byte tag; it fails only on inputs
/// of at least `u32::MAX` blocks of 64 bytes.
#[verifier::external_body]
pub(crate) fn aead_seal(key: &[u8], nonce: &[u8], plaintext: &[u8]) -> (r: Option<Vec<u8>>)
    requires
        key@.len() == 32,
        nonce@.len() == 24,
    ensures
        r matches Some(c) ==> c@ == xchacha_seal(key@, nonce@, plaintext@) && c@.len()
            == plaintext@.len() + 16,
        plaintext@.len() < 0xffff_ffff ==> r is Some,
{
    let cipher = chacha20poly1305::XChaCha20Poly1305::new(chacha20poly1305::Key::from_slice(key));
    cipher.encrypt(nonce.into(), plaintext).ok()
}

/// Relies on `chacha20poly1305::XChaCha20Poly1305::decrypt` with a 24-byte
/// nonce: the plaintext when the tag authenticates the ciphertext, else an
/// error.
#[verifier::external_body]
pub(crate) fn aead_open(key: &[u8], nonce: &[u8], ciphertext: &[u8]) -> (r: Option<Vec<u8>>)
    requires
        key@.len() == 32,
        nonce@.len() == 24,
    ensures
        match r {
            Some(p) => xchacha_open(key@, nonce@, ciphertext@) == Some(p@),
            None => xchacha_open(key@, nonce@, ciphertext@) is None,
        },
{
    let cipher = chacha20poly1305::XChaCha20Poly1305::new(chacha20poly1305::Key::from_slice(key));
    cipher.decrypt(nonce.into(), ciphertext).ok()
}

/// Relies on `OsRng::try_fill_bytes` (the `rand_core` generator that
/// `chacha20poly1305` re-exports): `n` bytes from the operating system, or
/// `None` when the system generator fails.
#[verifier::external_body]
pub(crate) fn os_random_bytes(n: usize) -> (r: Option<Vec<u8>>)
    ensures
        r matches Some(v) ==> v@.len() == n,
{
    let mut buf = vec![0u8; n];
    OsRng.try_fill_bytes(&mut buf).ok().map(|_| buf)
}

/// Relies on `std::time::SystemTime::now` and `duration_since(UNIX_EPOCH)`:
/// milliseconds since the epoch, or `None` for a clock set before it.
#[verifier::external_body]
pub(crate) fn unix_time_ms() -> (r: Option<u128>) {
    std::time::SystemTime::now().duration_since(std::time::UNIX_EPOCH).ok().map(|d| d.as_millis())
}

/// Relies on `regex::Regex::captures` with the pattern
/// `level=(error|warning|info|debug)`: the
/// text of the first group in the leftmost match, if any.
#[verifier::external_body]
pub(crate) fn capture_level(line: &str) -> (r: Option<String>)
    ensures
        match r {
            Some(s) => level_capture(line@) == Some(s@),
            None => level_capture(line@) is None,
        },
{
    let re = regex::Regex::new(r"level=(error|warning|info|debug)").ok()?;
    re.captures(line).and_then(|c| c.get(1)).map(|m| m.as_str().to_string())
}

} // verus!
