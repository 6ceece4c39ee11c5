use ironveil::crypto::{
    decode_key, encode_key, generate_keypair, generate_preshared_key, public_key_from_base64,
    secret_key_from_base64, PublicKey, StaticSecret,
};
use ironveil::encoding::Base64Error;
use ironveil::keygen::{encode_keypair, make_keys};

fn hex32(s: &str) -> [u8; 32] {
    let mut out = [0u8; 32];
    for i in 0..32 {
        out[i] = u8::from_str_radix(&s[2 * i..2 * i + 2], 16).unwrap();
    }
    out
}

const ALICE_SECRET: &str = "77076d0a7318a57d3c16c17251b26645df4c2f87ebc0992ab177fba51db92c2a";
const ALICE_PUBLIC: &str = "8520f0098930a754748b7ddcb43ef75a0dbf3a0d26381af4eba4a98eaa9b4e6a";

#[test]
fn encode_key_of_zero_key() {
    let text = encode_key(&[0u8; 32]);
    assert_eq!(text, format!("{}=", "A".repeat(43)));
}

#[test]
fn encode_key_of_counting_key() {
    let mut key = [0u8; 32];
    for i in 0..32 {
        key[i] = i as u8;
    }
    assert_eq!(encode_key(&key), "AAECAwQFBgcICQoLDA0ODxAREhMUFRYXGBkaGxwdHh8=");
}

#[test]
fn decode_key_gives_back_encoded_key() {
    let key = hex32(ALICE_SECRET);
    assert_eq!(decode_key(&encode_key(&key)), Ok(key));
    assert_eq!(decode_key("AAECAwQFBgcICQoLDA0ODxAREhMUFRYXGBkaGxwdHh8="), Ok({
        let mut k = [0u8; 32];
        for i in 0..32 {
            k[i] = i as u8;
        }
        k
    }));
}

#[test]
fn decode_key_rejects_wrong_length() {
    assert_eq!(decode_key("AAAA"), Err("invalid key length".to_string()));
    assert_eq!(decode_key(""), Err("invalid key length".to_string()));
    let long = encode_key(&[7u8; 32]);
    let with_extra = format!("{}AAAA", &long[..long.len() - 1]);
    assert!(decode_key(&with_extra).is_err());
}

#[test]
fn decode_key_rejects_invalid_base64() {
    assert_eq!(decode_key("!!!!"), Err("Invalid symbol 33, offset 0.".to_string()));
    assert!(decode_key("AAA").is_err());
}

#[test]
fn public_key_from_secret_matches_rfc7748() {
    let secret = StaticSecret::from_bytes(hex32(ALICE_SECRET));
    let public = PublicKey::from_secret(&secret);
    assert_eq!(public.to_bytes(), hex32(ALICE_PUBLIC));
}

#[test]
fn keys_from_base64_round_trip() {
    let secret = StaticSecret::from_bytes(hex32(ALICE_SECRET));
    let public = PublicKey::from_bytes(hex32(ALICE_PUBLIC));
    let secret_text = encode_key(&secret.to_bytes());
    let public_text = encode_key(&public.to_bytes());
    assert!(secret_key_from_base64(&secret_text) == Ok(secret));
    assert_eq!(public_key_from_base64(&public_text), Ok(public));
    assert!(public_key_from_base64("AAAA").is_err());
    assert!(secret_key_from_base64("%%%%").is_err());
}

#[test]
fn generated_keypair_is_consistent() {
    let (secret, public) = generate_keypair();
    assert_eq!(PublicKey::from_secret(&secret), public);
    let (other, _) = generate_keypair();
    assert_ne!(secret.to_bytes(), other.to_bytes());
    assert_ne!(generate_preshared_key(), generate_preshared_key());
}

#[test]
fn encode_keypair_of_known_pair() {
    let secret = StaticSecret::from_bytes(hex32(ALICE_SECRET));
    let public = PublicKey::from_secret(&secret);
    let (s, p) = encode_keypair(&secret, &public);
    assert_eq!(decode_key(&s), Ok(hex32(ALICE_SECRET)));
    assert_eq!(decode_key(&p), Ok(hex32(ALICE_PUBLIC)));
}

#[test]
fn made_keys_decode_to_a_keypair() {
    let (secret_text, public_text) = make_keys();
    assert_eq!(secret_text.len(), 44);
    assert_eq!(public_text.len(), 44);
    let secret = secret_key_from_base64(&secret_text).unwrap();
    let public = public_key_from_base64(&public_text).unwrap();
    assert_eq!(PublicKey::from_secret(&secret), public);
}

fn assert_key_text_shape(text: &str) {
    assert_eq!(text.len(), 44);
    assert!(text.ends_with('='));
    assert!(text[..43].chars().all(|c| c.is_ascii_alphanumeric() || c == '+' || c == '/'));
}

#[test]
fn key_texts_have_the_shape_of_a_key() {
    assert_key_text_shape(&encode_key(&[0xFF; 32]));
    let (s, p) = make_keys();
    assert_key_text_shape(&s);
    assert_key_text_shape(&p);
}

#[test]
fn decode_key_refuses_non_canonical_text() {
    let canonical = encode_key(&[0u8; 32]);
    assert!(decode_key(&canonical).is_ok());
    let unpadded = "A".repeat(43);
    assert_eq!(decode_key(&unpadded), Err("Invalid padding".to_string()));
    let trailing_bits = format!("{}B=", "A".repeat(42));
    assert_eq!(decode_key(&trailing_bits), Err("Invalid last symbol 66, offset 42.".to_string()));
    let spaced = format!(" {}", canonical);
    assert_eq!(decode_key(&spaced), Err("Invalid symbol 32, offset 0.".to_string()));
}

#[test]
fn key_from_base64_passes_on_decode_key_errors() {
    for text in ["AAAA", "!!!!", "", "A"] {
        let expected = decode_key(text).unwrap_err();
        assert_eq!(public_key_from_base64(text).unwrap_err(), expected);
        assert_eq!(secret_key_from_base64(text).err(), Some(expected));
    }
}

#[test]
fn base64_error_messages() {
    assert_eq!(Base64Error::InvalidByte(7, 33).text(), "Invalid symbol 33, offset 7.");
    assert_eq!(Base64Error::InvalidLength(5).text(), "Invalid input length: 5");
    assert_eq!(Base64Error::InvalidLastSymbol(42, 66).text(), "Invalid last symbol 66, offset 42.");
    assert_eq!(Base64Error::InvalidPadding.text(), "Invalid padding");
}
