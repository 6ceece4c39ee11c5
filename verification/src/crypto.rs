//! Keys: generation, and their standard base64 text form.
use vstd::prelude::*;
use base64::{Engine, engine::general_purpose::STANDARD};
use base64::DecodeError;
use crate::encoding::{
    base64_error_text, base64_text, in_alphabet, lemma_base64_chars, lemma_base64_injective,
    lemma_base64_len, Base64Error,
};
use boringtun::x25519;
use rand::RngCore;
use rand::rngs::OsRng;

verus! {

/// What the `base64` crate's `STANDARD` engine reports when it refuses
/// `text`.
pub uninterp spec fn standard_decode_error(text: Seq<char>) -> Base64Error;

/// `STANDARD.encode` of the `base64` crate. Trusted: the text is the
/// standard base64 text of the bytes, `base64_text` (RFC 4648 with
/// padding, the crate's documented output).
#[verifier::external_body]
fn base64_encode(bytes: &[u8; 32]) -> (text: String)
    ensures
        text@ == base64_text(bytes@),
{
    STANDARD.encode(bytes)
}

/// `STANDARD.decode` of the `base64` crate. Trusted: its configuration
/// (`PAD`: canonical padding required, no non-zero trailing bits, only
/// alphabet symbols) makes it accept exactly the texts that `base64_text`
/// writes, and return the bytes written; otherwise its error, variant for
/// variant, is the one that `standard_decode_error` names for the text.
#[verifier::external_body]
fn base64_decode(text: &str) -> (r: Result<Vec<u8>, Base64Error>)
    ensures
        match r {
            Ok(bytes) => base64_text(bytes@) == text@,
            Err(e) => (forall|b: Seq<u8>| #[trigger] base64_text(b) != text@) && e
                == standard_decode_error(text@),
        },
{
    match STANDARD.decode(text) {
        Ok(bytes) => Ok(bytes),
        Err(DecodeError::InvalidByte(i, b)) => Err(Base64Error::InvalidByte(i, b)),
        Err(DecodeError::InvalidLength(n)) => Err(Base64Error::InvalidLength(n)),
        Err(DecodeError::InvalidLastSymbol(i, b)) => Err(Base64Error::InvalidLastSymbol(i, b)),
        Err(DecodeError::InvalidPadding) => Err(Base64Error::InvalidPadding),
    }
}

/// The x25519 public key of a secret key, as x25519-dalek derives it
/// (clamped scalar times the base point).
pub uninterp spec fn x25519_public_of(secret: Seq<u8>) -> Seq<u8>;

/// `x25519::PublicKey::from(&StaticSecret)` (x25519-dalek, through
/// boringtun). Trusted: the result's bytes are `x25519_public_of` of the
/// secret's bytes.
#[verifier::external_body]
fn x25519_public_key(secret: &[u8; 32]) -> (public: [u8; 32])
    ensures
        public@ == x25519_public_of(secret@),
{
    x25519::PublicKey::from(&x25519::StaticSecret::from(*secret)).to_bytes()
}

/// 32 bytes from the operating system's random source (`OsRng.fill_bytes`
/// of `rand`). Nothing is claimed of the bytes.
#[verifier::external_body]
fn os_random_key() -> (key: [u8; 32]) {
    let mut key = [0u8; 32];
    OsRng.fill_bytes(&mut key);
    key
}

/// An x25519 secret key: 32 bytes.
#[derive(PartialEq, Eq)]
pub struct StaticSecret {
    bytes: [u8; 32],
}

/// An x25519 public key: 32 bytes.
#[derive(Clone, Copy, Debug, PartialEq, Eq)]
pub struct PublicKey {
    bytes: [u8; 32],
}

impl View for StaticSecret {
    type V = Seq<u8>;

    closed spec fn view(&self) -> Seq<u8> {
        self.bytes@
    }
}

impl View for PublicKey {
    type V = Seq<u8>;

    closed spec fn view(&self) -> Seq<u8> {
        self.bytes@
    }
}

impl StaticSecret {
    /// The secret key made of these bytes.
    pub fn from_bytes(bytes: [u8; 32]) -> (k: StaticSecret)
        ensures
            k@ == bytes@,
    {
        StaticSecret { bytes }
    }

    /// The bytes of the key.
    pub fn to_bytes(&self) -> (bytes: [u8; 32])
        ensures
            bytes@ == self@,
    {
        self.bytes
    }
}

impl PublicKey {
    /// The public key made of these bytes.
    pub fn from_bytes(bytes: [u8; 32]) -> (k: PublicKey)
        ensures
            k@ == bytes@,
    {
        PublicKey { bytes }
    }

    /// The bytes of the key.
    pub fn to_bytes(&self) -> (bytes: [u8; 32])
        ensures
            bytes@ == self@,
    {
        self.bytes
    }

    /// The public key that belongs to `secret`.
    pub fn from_secret(secret: &StaticSecret) -> (k: PublicKey)
        ensures
            k@ == x25519_public_of(secret@),
    {
        PublicKey { bytes: x25519_public_key(&secret.bytes) }
    }
}

/// A fresh key pair: a random secret key and its public key.
pub fn generate_keypair() -> (pair: (StaticSecret, PublicKey))
    ensures
        pair.0@.len() == 32,
        pair.1@ == x25519_public_of(pair.0@),
{
    let bytes = os_random_key();
    proof {
        vstd::array::array_len_matches_n(&bytes);
    }
    let secret = StaticSecret::from_bytes(bytes);
    let public = PublicKey::from_secret(&secret);
    (secret, public)
}

/// A fresh random 32-byte preshared key.
pub fn generate_preshared_key() -> (key: [u8; 32]) {
    os_random_key()
}

/// Whether `text` is the standard base64 text of some 32-byte key.
pub open spec fn is_key_text(text: Seq<char>) -> bool {
    exists|k: Seq<u8>| k.len() == 32 && #[trigger] base64_text(k) == text
}

/// The message with which decoding `text` as a key fails: "invalid key
/// length" where `text` is the base64 text of some bytes (but not of 32),
/// else the base64 decoder's message.
pub open spec fn key_error_text(text: Seq<char>) -> Seq<char> {
    if exists|b: Seq<u8>| #[trigger] base64_text(b) == text {
        "invalid key length"@
    } else {
        base64_error_text(standard_decode_error(text))
    }
}

/// The shape of a key's text: 44 characters of the base64 alphabet, the
/// last of which is a single `=`.
pub open spec fn key_text_shape(text: Seq<char>) -> bool {
    &&& text.len() == 44
    &&& text[43] == '='
    &&& forall|i: int| 0 <= i < 43 ==> in_alphabet(#[trigger] text[i])
}

/// The standard base64 text of a key: 44 characters that decode back to the
/// key and to no other.
pub fn encode_key(key: &[u8; 32]) -> (text: String)
    ensures
        text@ == base64_text(key@),
        key_text_shape(text@),
{
    let text = base64_encode(key);
    proof {
        vstd::array::array_len_matches_n(key);
        lemma_base64_len(key@);
        lemma_base64_chars(key@);
        assert forall|i: int| 0 <= i < 43 implies in_alphabet(#[trigger] text@[i]) by {
            assert(i < base64_text(key@).len() - crate::encoding::padding(key@.len()));
        }
    }
    text
}

/// The key whose standard base64 text is `s`. It succeeds exactly where `s`
/// is the text of a 32-byte key; it fails with "invalid key length" where
/// `s` is the text of some other number of bytes, and with the base64
/// decoder's message where `s` is no base64 text at all.
pub fn decode_key(s: &str) -> (r: Result<[u8; 32], String>)
    ensures
        forall|k: Seq<u8>|
            k.len() == 32 ==> ((r matches Ok(key) && key@ == k) <==> #[trigger] base64_text(k)
                == s@),
        r is Ok <==> is_key_text(s@),
        r matches Err(m) ==> m@ == key_error_text(s@),
{
    match base64_decode(s) {
        Err(e) => {
            let m = e.text();
            proof {
                if is_key_text(s@) {
                    let k = choose|k: Seq<u8>| k.len() == 32 && #[trigger] base64_text(k) == s@;
                    assert(base64_text(k) == s@);
                }
            }
            Err(m)
        },
        Ok(bytes) => {
            if bytes.len() != 32 {
                proof {
                    assert(base64_text(bytes@) == s@);
                    assert forall|k: Seq<u8>| k.len() == 32 implies #[trigger] base64_text(k) != s@ by {
                        if base64_text(k) == s@ {
                            lemma_base64_injective(k, bytes@);
                        }
                    }
                }
                return Err(String::from_str("invalid key length"));
            }
            let mut key = [0u8; 32];
            let mut i: usize = 0;
            while i < 32
                invariant
                    i <= 32,
                    bytes@.len() == 32,
                    key@.len() == 32,
                    forall|j: int| 0 <= j < i ==> key@[j] == bytes@[j],
                decreases 32 - i,
            {
                key[i] = bytes[i];
                i = i + 1;
            }
            assert(key@ =~= bytes@);
            proof {
                assert forall|k: Seq<u8>| k.len() == 32 implies (key@ == k <==> #[trigger] base64_text(k)
                    == s@) by {
                    if base64_text(k) == s@ {
                        lemma_base64_injective(k, bytes@);
                    }
                }
                assert(base64_text(key@) == s@);
            }
            Ok(key)
        },
    }
}

/// The public key whose standard base64 text is `s`; it fails as
/// [`decode_key`] does, with the same message.
pub fn public_key_from_base64(s: &str) -> (r: Result<PublicKey, String>)
    ensures
        forall|k: Seq<u8>|
            k.len() == 32 ==> ((r matches Ok(key) && key@ == k) <==> #[trigger] base64_text(k)
                == s@),
        r is Ok <==> is_key_text(s@),
        r matches Err(m) ==> m@ == key_error_text(s@),
{
    let bytes = decode_key(s)?;
    Ok(PublicKey::from_bytes(bytes))
}

/// The secret key whose standard base64 text is `s`; it fails as
/// [`decode_key`] does, with the same message.
pub fn secret_key_from_base64(s: &str) -> (r: Result<StaticSecret, String>)
    ensures
        forall|k: Seq<u8>|
            k.len() == 32 ==> ((r matches Ok(key) && key@ == k) <==> #[trigger] base64_text(k)
                == s@),
        r is Ok <==> is_key_text(s@),
        r matches Err(m) ==> m@ == key_error_text(s@),
{
    let bytes = decode_key(s)?;
    Ok(StaticSecret::from_bytes(bytes))
}

} // verus!
