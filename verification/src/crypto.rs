//! Hashing, encodings and signatures: the nonce cache key, nonce generation,
//! base58 decoding of wallet credentials and the Ed25519 signature check.
use vstd::prelude::*;

use base64::Engine;
use rand::RngCore;
use sha2::Digest;

use crate::errors::AuthError;
use crate::text::{hex_lower, to_hex_lower};

verus! {

/// The SHA-256 digest of a byte string.
pub uninterp spec fn sha256(data: Seq<u8>) -> Seq<u8>;

/// Trusted: `sha2::Sha256` fed with `data`, then finalized. The contract names
/// the 32-byte digest `sha256(data)`; the array type fixes its length.
#[verifier::external_body]
fn sha256_digest(data: &[u8]) -> (digest: [u8; 32])
    ensures
        digest@ == sha256(data@),
{
    let mut hasher = sha2::Sha256::new();
    hasher.update(data);
    hasher.finalize().into()
}

/// The key under which a nonce is cached: the lower-case hexadecimal SHA-256
/// digest of the nonce's UTF-8 bytes.
pub open spec fn nonce_key(nonce: Seq<char>) -> Seq<char> {
    hex_lower(sha256(vstd::utf8::encode_utf8(nonce)))
}

/// Hashes a nonce into its cache key.
pub fn encode_nonce(nonce: &str) -> (key: String)
    ensures
        key@ == nonce_key(nonce@),
        key@.len() == 64,
{
    let digest = sha256_digest(nonce.as_bytes());
    let key = to_hex_lower(digest.as_slice());
    proof {
        crate::text::lemma_hex_lower_len(digest@);
    }
    key
}

/// The digit of the standard base64 alphabet for a value below 64:
/// `A`-`Z`, `a`-`z`, `0`-`9`, `+`, `/`.
pub open spec fn base64_digit(v: int) -> char {
    if v < 26 {
        (65 + v) as char
    } else if v < 52 {
        (97 + (v - 26)) as char
    } else if v < 62 {
        (48 + (v - 52)) as char
    } else if v == 62 {
        '+'
    } else {
        '/'
    }
}

/// A character of the standard base64 alphabet.
pub open spec fn is_base64_digit(c: char) -> bool {
    exists|v: int| 0 <= v < 64 && c == base64_digit(v)
}

/// The standard base64 text (RFC 4648, with `=` padding) of a byte string:
/// each group of three bytes gives four digits of six bits each; a last group
/// of one or two bytes gives two or three digits and is padded with `=` to
/// four characters.
pub open spec fn base64_standard(data: Seq<u8>) -> Seq<char>
    decreases data.len(),
{
    if data.len() == 0 {
        Seq::empty()
    } else if data.len() == 1 {
        seq![base64_digit((data[0] as int) / 4), base64_digit(((data[0] as int) % 4) * 16), '=', '=']
    } else if data.len() == 2 {
        seq![
            base64_digit((data[0] as int) / 4),
            base64_digit(((data[0] as int) % 4) * 16 + (data[1] as int) / 16),
            base64_digit(((data[1] as int) % 16) * 4),
            '=',
        ]
    } else {
        seq![
            base64_digit((data[0] as int) / 4),
            base64_digit(((data[0] as int) % 4) * 16 + (data[1] as int) / 16),
            base64_digit(((data[1] as int) % 16) * 4 + (data[2] as int) / 64),
            base64_digit((data[2] as int) % 64),
        ] + base64_standard(data.subrange(3, data.len() as int))
    }
}

/// Standard base64 text has four characters per started group of three
/// bytes; all are alphabet digits but the padding, which is two `=` after a
/// last group of one byte, one after a last group of two, none otherwise.
pub proof fn lemma_base64_shape(data: Seq<u8>)
    ensures
        base64_standard(data).len() == 4 * ((data.len() + 2) / 3),
        forall|i: int|
            0 <= i < base64_standard(data).len() - base64_padding(data.len()) ==> is_base64_digit(
                #[trigger] base64_standard(data)[i],
            ),
        forall|i: int|
            base64_standard(data).len() - base64_padding(data.len()) <= i < base64_standard(
                data,
            ).len() ==> #[trigger] base64_standard(data)[i] == '=',
    decreases data.len(),
{
    let e = base64_standard(data);
    if data.len() == 0 {
    } else if data.len() == 1 {
        assert(is_base64_digit(e[0]) && is_base64_digit(e[1])) by {
            assert(0 <= (data[0] as int) / 4 < 64 && e[0] == base64_digit((data[0] as int) / 4));
            assert(0 <= ((data[0] as int) % 4) * 16 < 64 && e[1] == base64_digit(((data[0] as int) % 4) * 16));
        }
    } else if data.len() == 2 {
        assert(is_base64_digit(e[0]) && is_base64_digit(e[1]) && is_base64_digit(e[2])) by {
            assert(0 <= (data[0] as int) / 4 < 64 && e[0] == base64_digit((data[0] as int) / 4));
            assert(0 <= ((data[0] as int) % 4) * 16 + (data[1] as int) / 16 < 64);
            assert(0 <= ((data[1] as int) % 16) * 4 < 64);
        }
    } else {
        let rest = data.subrange(3, data.len() as int);
        lemma_base64_shape(rest);
        let head = seq![
            base64_digit((data[0] as int) / 4),
            base64_digit(((data[0] as int) % 4) * 16 + (data[1] as int) / 16),
            base64_digit(((data[1] as int) % 16) * 4 + (data[2] as int) / 64),
            base64_digit((data[2] as int) % 64),
        ];
        assert(e == head + base64_standard(rest));
        assert(base64_padding(data.len()) == base64_padding(rest.len()));
        assert(0 <= (data[0] as int) / 4 < 64);
        assert(0 <= ((data[0] as int) % 4) * 16 + (data[1] as int) / 16 < 64);
        assert(0 <= ((data[1] as int) % 16) * 4 + (data[2] as int) / 64 < 64);
        assert(0 <= (data[2] as int) % 64 < 64);
        assert forall|i: int| 0 <= i < 4 implies is_base64_digit(#[trigger] head[i]) by {
            if i == 0 {
                assert(head[0] == base64_digit((data[0] as int) / 4));
            } else if i == 1 {
                assert(head[1] == base64_digit(((data[0] as int) % 4) * 16 + (data[1] as int) / 16));
            } else if i == 2 {
                assert(head[2] == base64_digit(((data[1] as int) % 16) * 4 + (data[2] as int) / 64));
            } else {
                assert(head[3] == base64_digit((data[2] as int) % 64));
            }
        }
        assert forall|i: int|
            0 <= i < e.len() - base64_padding(data.len()) implies is_base64_digit(#[trigger] e[i]) by {
            if i < 4 {
                assert(e[i] == head[i]);
            } else {
                assert(e[i] == base64_standard(rest)[i - 4]);
            }
        }
        assert forall|i: int|
            e.len() - base64_padding(data.len()) <= i < e.len() implies #[trigger] e[i] == '=' by {
            assert(e[i] == base64_standard(rest)[i - 4]);
        }
    }
}

/// Base64 digits stand for distinct values, and none is the padding `=`.
pub proof fn lemma_base64_digits_distinct(v: int, w: int)
    requires
        0 <= v < 64,
        0 <= w < 64,
    ensures
        base64_digit(v) == base64_digit(w) ==> v == w,
        base64_digit(v) != '=',
{
}

/// Standard base64 loses nothing: two byte strings with the same text are the
/// same, so the text of a nonce determines the bytes it was made from.
pub proof fn law_base64_round_trip(x: Seq<u8>, y: Seq<u8>)
    requires
        base64_standard(x) == base64_standard(y),
    ensures
        x == y,
    decreases x.len(),
{
    let e = base64_standard(x);
    lemma_base64_shape(x);
    lemma_base64_shape(y);
    if x.len() == 0 {
        assert(y.len() == 0);
        assert(x =~= y);
        return;
    }
    assert(y.len() > 0);
    let a0 = x[0] as int;
    let b0 = y[0] as int;
    lemma_base64_digits_distinct(a0 / 4, b0 / 4);
    if x.len() == 1 {
        lemma_base64_digits_distinct((a0 % 4) * 16, (a0 % 4) * 16);
        if y.len() >= 2 {
            let b1 = y[1] as int;
            if y.len() == 2 {
                lemma_base64_digits_distinct((b1 % 16) * 4, 0);
            } else {
                lemma_base64_digits_distinct((b1 % 16) * 4 + (y[2] as int) / 64, 0);
            }
            assert(false);
        }
        lemma_base64_digits_distinct((a0 % 4) * 16, (b0 % 4) * 16);
        assert(x =~= y);
    } else if x.len() == 2 {
        let a1 = x[1] as int;
        lemma_base64_digits_distinct((a1 % 16) * 4, 0);
        if y.len() == 1 {
            assert(false);
        }
        let b1 = y[1] as int;
        if y.len() >= 3 {
            lemma_base64_digits_distinct((y[2] as int) % 64, 0);
            assert(false);
        }
        lemma_base64_digits_distinct((a0 % 4) * 16 + a1 / 16, (b0 % 4) * 16 + b1 / 16);
        lemma_base64_digits_distinct((a1 % 16) * 4, (b1 % 16) * 4);
        assert(x =~= y);
    } else {
        let a1 = x[1] as int;
        let a2 = x[2] as int;
        lemma_base64_digits_distinct(a2 % 64, 0);
        if y.len() == 1 {
            assert(false);
        }
        if y.len() == 2 {
            assert(false);
        }
        let b1 = y[1] as int;
        let b2 = y[2] as int;
        lemma_base64_digits_distinct((a0 % 4) * 16 + a1 / 16, (b0 % 4) * 16 + b1 / 16);
        lemma_base64_digits_distinct((a1 % 16) * 4 + a2 / 64, (b1 % 16) * 4 + b2 / 64);
        lemma_base64_digits_distinct(a2 % 64, b2 % 64);
        let ey = base64_standard(y);
        assert(e[0] == base64_digit(a0 / 4) && ey[0] == base64_digit(b0 / 4));
        assert(e[1] == base64_digit((a0 % 4) * 16 + a1 / 16));
        assert(ey[1] == base64_digit((b0 % 4) * 16 + b1 / 16));
        assert(e[2] == base64_digit((a1 % 16) * 4 + a2 / 64));
        assert(ey[2] == base64_digit((b1 % 16) * 4 + b2 / 64));
        assert(e[3] == base64_digit(a2 % 64) && ey[3] == base64_digit(b2 % 64));
        assert(a0 / 4 == b0 / 4);
        assert((a0 % 4) * 16 + a1 / 16 == (b0 % 4) * 16 + b1 / 16);
        assert((a1 % 16) * 4 + a2 / 64 == (b1 % 16) * 4 + b2 / 64);
        assert(a2 % 64 == b2 % 64);
        assert(a0 == b0 && a1 == b1 && a2 == b2);
        let xr = x.subrange(3, x.len() as int);
        let yr = y.subrange(3, y.len() as int);
        assert(base64_standard(xr) =~= e.subrange(4, e.len() as int));
        assert(base64_standard(yr) =~= base64_standard(y).subrange(4, e.len() as int));
        law_base64_round_trip(xr, yr);
        assert(x =~= y) by {
            assert(x[0] == y[0] && x[1] == y[1] && x[2] == y[2]);
            assert forall|i: int| 3 <= i < x.len() implies x[i] == y[i] by {
                assert(x[i] == xr[i - 3] && y[i] == yr[i - 3]);
            }
        }
    }
}

/// The number of `=` padding characters of the base64 text of `n` bytes.
pub open spec fn base64_padding(n: nat) -> int {
    if n % 3 == 1 {
        2
    } else if n % 3 == 2 {
        1
    } else {
        0
    }
}

/// Trusted: `base64::engine::general_purpose::STANDARD.encode(data)`, the
/// standard alphabet with padding, as the crate documents it.
#[verifier::external_body]
fn base64_encode(data: &[u8]) -> (text: String)
    ensures
        text@ == base64_standard(data@),
{
    base64::engine::general_purpose::STANDARD.encode(data)
}

/// Trusted: fills 32 bytes from `rand::rngs::OsRng` (the operating system's
/// random source). Nothing is stated of the bytes: they are random. The call
/// panics when the operating system cannot provide randomness.
#[verifier::external_body]
fn os_random_bytes() -> (bytes: [u8; 32]) {
    let mut bytes = [0u8; 32];
    rand::rngs::OsRng.fill_bytes(&mut bytes);
    bytes
}

/// A fresh nonce: 32 random bytes in standard base64: 44 characters, 43
/// alphabet digits and one `=` of padding.
pub fn generate_nonce() -> (nonce: String)
    ensures
        exists|bytes: Seq<u8>| bytes.len() == 32 && nonce@ == base64_standard(bytes),
        nonce@.len() == 44,
        forall|i: int| 0 <= i < 43 ==> is_base64_digit(#[trigger] nonce@[i]),
        nonce@[43] == '=',
{
    let bytes = os_random_bytes();
    let nonce = base64_encode(bytes.as_slice());
    proof {
        lemma_base64_shape(bytes@);
        assert(nonce@[43] == base64_standard(bytes@)[43]);
    }
    nonce
}

/// What base58 (Bitcoin alphabet) decoding gives for a text: the bytes, or,
/// when the text is not valid base58, the decoder's error message.
pub uninterp spec fn base58_decoded(text: Seq<char>) -> Result<Seq<u8>, Seq<char>>;

/// Trusted: `bs58::decode(text).into_vec()`, its error turned into its
/// `Display` text. Both outcomes are functions of the text: the bytes, or the
/// message, that `base58_decoded` names.
#[verifier::external_body]
pub(crate) fn decode_base58(text: &str) -> (res: Result<Vec<u8>, String>)
    ensures
        match res {
            Ok(bytes) => base58_decoded(text@) == Ok::<Seq<u8>, Seq<char>>(bytes@),
            Err(message) => base58_decoded(text@) == Err::<Seq<u8>, Seq<char>>(message@),
        },
{
    match bs58::decode(text).into_vec() {
        Ok(bytes) => Ok(bytes),
        Err(e) => Err(e.to_string()),
    }
}

/// What `ed25519_dalek::VerifyingKey::from_bytes` gives for 32 key bytes:
/// success when they are the compressed encoding of a curve point, else the
/// error's `Display` text.
pub uninterp spec fn ed25519_key_parsed(public_key: Seq<u8>) -> Result<(), Seq<char>>;

/// The key bytes are a valid Ed25519 public key.
pub open spec fn ed25519_key_decodes(public_key: Seq<u8>) -> bool {
    ed25519_key_parsed(public_key) is Ok
}

/// Whether `VerifyingKey::verify_strict` accepts `signature` over `message`
/// for the key with those bytes.
pub uninterp spec fn ed25519_strict_valid(
    public_key: Seq<u8>,
    message: Seq<u8>,
    signature: Seq<u8>,
) -> bool;

/// Trusted: `VerifyingKey::from_bytes(public_key)`, then `verify_strict` of
/// `message` under `Signature::from_bytes(signature)`. Fails, with the key
/// error's `Display` text, exactly when the key bytes do not decode; otherwise
/// returns whether the signature is valid.
#[verifier::external_body]
fn ed25519_check(public_key: &[u8; 32], message: &[u8], signature: &[u8; 64]) -> (res: Result<
    bool,
    String,
>)
    ensures
        match res {
            Ok(valid) => ed25519_key_parsed(public_key@) is Ok && valid == ed25519_strict_valid(
                public_key@,
                message@,
                signature@,
            ),
            Err(message) => ed25519_key_parsed(public_key@) == Err::<(), Seq<char>>(message@),
        },
{
    match ed25519_dalek::VerifyingKey::from_bytes(public_key) {
        Ok(key) => Ok(
            key.verify_strict(message, &ed25519_dalek::Signature::from_bytes(signature)).is_ok(),
        ),
        Err(e) => Err(e.to_string()),
    }
}

/// Checks that `signature_bytes` is a strict Ed25519 signature of the nonce's
/// UTF-8 bytes under the public key.
pub fn check_signer(nonce: &str, public_key_bytes: &[u8; 32], signature_bytes: &[u8; 64]) -> (res:
    Result<bool, AuthError>)
    ensures
        match res {
            Ok(valid) => ed25519_key_decodes(public_key_bytes@) && valid == ed25519_strict_valid(
                public_key_bytes@,
                vstd::utf8::encode_utf8(nonce@),
                signature_bytes@,
            ),
            Err(e) => e matches AuthError::MalformedPublicKey(t) && ed25519_key_parsed(
                public_key_bytes@,
            ) == Err::<(), Seq<char>>(t@),
        },
{
    match ed25519_check(public_key_bytes, nonce.as_bytes(), signature_bytes) {
        Ok(valid) => Ok(valid),
        Err(message) => Err(AuthError::MalformedPublicKey(message)),
    }
}

} // verus!
