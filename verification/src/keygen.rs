//! Key pairs in the text form that configuration files hold.
use vstd::prelude::*;
use crate::crypto::{
    encode_key, generate_keypair, key_text_shape, x25519_public_of, PublicKey, StaticSecret,
};
use crate::encoding::base64_text;

verus! {

/// Whether `keys` is the text form (secret, public) of the key pair whose
/// secret key is `secret`: each text is the standard base64 text of its key,
/// of the shape of a key's text.
pub open spec fn is_encoded_keypair(keys: (Seq<char>, Seq<char>), secret: Seq<u8>) -> bool {
    &&& keys.0 == base64_text(secret)
    &&& keys.1 == base64_text(x25519_public_of(secret))
    &&& key_text_shape(keys.0)
    &&& key_text_shape(keys.1)
}

/// The text form (secret, public) of a key pair.
pub fn encode_keypair(secret: &StaticSecret, public: &PublicKey) -> (keys: (String, String))
    ensures
        keys.0@ == base64_text(secret@),
        keys.1@ == base64_text(public@),
        key_text_shape(keys.0@),
        key_text_shape(keys.1@),
{
    (encode_key(&secret.to_bytes()), encode_key(&public.to_bytes()))
}

/// A fresh key pair in text form: (secret, public).
pub fn make_keys() -> (keys: (String, String))
    ensures
        exists|secret: Seq<u8>|
            #![trigger x25519_public_of(secret)]
            secret.len() == 32 && is_encoded_keypair((keys.0@, keys.1@), secret),
{
    let (secret, public) = generate_keypair();
    let keys = encode_keypair(&secret, &public);
    proof {
        let s = secret@;
        assert(is_encoded_keypair((keys.0@, keys.1@), s));
    }
    keys
}

} // verus!
