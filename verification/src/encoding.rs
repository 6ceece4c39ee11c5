//! The standard base64 text form (RFC 4648, with `=` padding) and the
//! messages of its decoding errors.
use vstd::prelude::*;
use crate::text::{decimal, push_decimal};

verus! {

/// The character of a 6-bit value in the standard base64 alphabet
/// `A-Z a-z 0-9 + /`.
pub open spec fn base64_char(v: nat) -> char {
    if v < 26 {
        (65 + v) as char
    } else if v < 52 {
        (71 + v) as char
    } else if v < 62 {
        (v - 4) as char
    } else if v == 62 {
        '+'
    } else {
        '/'
    }
}

/// Whether `c` is a character of the standard base64 alphabet.
pub open spec fn in_alphabet(c: char) -> bool {
    ||| 65 <= c as int <= 90
    ||| 97 <= c as int <= 122
    ||| 48 <= c as int <= 57
    ||| c == '+'
    ||| c == '/'
}

/// The standard base64 text of `bytes`: each group of three bytes becomes
/// four characters of six bits each; a last group of one or two bytes is
/// filled with zero bits and padded with `=` to four characters.
pub open spec fn base64_text(bytes: Seq<u8>) -> Seq<char>
    decreases bytes.len(),
{
    if bytes.len() == 0 {
        seq![]
    } else if bytes.len() == 1 {
        seq![
            base64_char((bytes[0] / 4) as nat),
            base64_char(((bytes[0] % 4) * 16) as nat),
            '=',
            '=',
        ]
    } else if bytes.len() == 2 {
        seq![
            base64_char((bytes[0] / 4) as nat),
            base64_char(((bytes[0] % 4) * 16 + bytes[1] / 16) as nat),
            base64_char(((bytes[1] % 16) * 4) as nat),
            '=',
        ]
    } else {
        seq![
            base64_char((bytes[0] / 4) as nat),
            base64_char(((bytes[0] % 4) * 16 + bytes[1] / 16) as nat),
            base64_char(((bytes[1] % 16) * 4 + bytes[2] / 64) as nat),
            base64_char((bytes[2] % 64) as nat),
        ] + base64_text(bytes.subrange(3, bytes.len() as int))
    }
}

/// The number of `=` that end the text of `n` bytes.
pub open spec fn padding(n: nat) -> nat {
    if n % 3 == 0 {
        0
    } else {
        (3 - n % 3) as nat
    }
}

proof fn lemma_char(v: nat, w: nat)
    requires
        v < 64,
        w < 64,
    ensures
        in_alphabet(base64_char(v)),
        base64_char(v) != '=',
        base64_char(v) == base64_char(w) ==> v == w,
{
}

/// The text of `n` bytes has `4 * ceil(n / 3)` characters.
pub proof fn lemma_base64_len(bytes: Seq<u8>)
    ensures
        base64_text(bytes).len() == 4 * ((bytes.len() + 2) / 3),
    decreases bytes.len(),
{
    if bytes.len() >= 3 {
        lemma_base64_len(bytes.subrange(3, bytes.len() as int));
    }
}

/// Every character of the text is of the alphabet, but for the padding at
/// its end, which is all `=`.
pub proof fn lemma_base64_chars(bytes: Seq<u8>)
    ensures
        forall|i: int|
            0 <= i < base64_text(bytes).len() ==> (if i < base64_text(bytes).len() - padding(
                bytes.len(),
            ) {
                in_alphabet(#[trigger] base64_text(bytes)[i])
            } else {
                base64_text(bytes)[i] == '='
            }),
    decreases bytes.len(),
{
    let t = base64_text(bytes);
    lemma_base64_len(bytes);
    if bytes.len() == 1 {
        lemma_char((bytes[0] / 4) as nat, 0);
        lemma_char(((bytes[0] % 4) * 16) as nat, 0);
    } else if bytes.len() == 2 {
        lemma_char((bytes[0] / 4) as nat, 0);
        lemma_char(((bytes[0] % 4) * 16 + bytes[1] / 16) as nat, 0);
        lemma_char(((bytes[1] % 16) * 4) as nat, 0);
    } else if bytes.len() >= 3 {
        let rest = bytes.subrange(3, bytes.len() as int);
        lemma_base64_chars(rest);
        lemma_base64_len(rest);
        lemma_char((bytes[0] / 4) as nat, 0);
        lemma_char(((bytes[0] % 4) * 16 + bytes[1] / 16) as nat, 0);
        lemma_char(((bytes[1] % 16) * 4 + bytes[2] / 64) as nat, 0);
        lemma_char((bytes[2] % 64) as nat, 0);
        assert(padding(rest.len()) == padding(bytes.len()));
        assert forall|i: int| 0 <= i < t.len() implies (if i < t.len() - padding(bytes.len()) {
            in_alphabet(#[trigger] t[i])
        } else {
            t[i] == '='
        }) by {
            if i >= 4 {
                assert(t[i] == base64_text(rest)[i - 4]);
            }
        }
    }
}

/// Different byte strings have different texts.
pub proof fn lemma_base64_injective(a: Seq<u8>, b: Seq<u8>)
    requires
        base64_text(a) == base64_text(b),
    ensures
        a == b,
    decreases a.len(),
{
    let t = base64_text(a);
    lemma_base64_len(a);
    lemma_base64_len(b);
    lemma_base64_chars(a);
    lemma_base64_chars(b);
    if a.len() == 0 || b.len() == 0 {
        assert(a.len() == 0 && b.len() == 0);
        assert(a =~= b);
        return;
    }
    let a0 = a[0];
    let b0 = b[0];
    assert(t[3] == '=' <==> a.len() < 3);
    assert(t[3] == '=' <==> b.len() < 3);
    assert(t[2] == '=' <==> a.len() == 1);
    assert(t[2] == '=' <==> b.len() == 1);
    assert(t[0] == base64_char((a0 / 4) as nat));
    assert(t[0] == base64_char((b0 / 4) as nat));
    lemma_char((a0 / 4) as nat, (b0 / 4) as nat);
    if a.len() == 1 {
        assert(t[1] == base64_char(((a0 % 4) * 16) as nat));
        assert(t[1] == base64_char(((b0 % 4) * 16) as nat));
        lemma_char(((a0 % 4) * 16) as nat, ((b0 % 4) * 16) as nat);
        assert(a0 == b0);
        assert(a =~= b);
    } else if a.len() == 2 {
        let a1 = a[1];
        let b1 = b[1];
        assert(t[1] == base64_char(((a0 % 4) * 16 + a1 / 16) as nat));
        assert(t[1] == base64_char(((b0 % 4) * 16 + b1 / 16) as nat));
        assert(t[2] == base64_char(((a1 % 16) * 4) as nat));
        assert(t[2] == base64_char(((b1 % 16) * 4) as nat));
        lemma_char(((a0 % 4) * 16 + a1 / 16) as nat, ((b0 % 4) * 16 + b1 / 16) as nat);
        lemma_char(((a1 % 16) * 4) as nat, ((b1 % 16) * 4) as nat);
        assert(a0 == b0);
        assert(a1 == b1);
        assert(a =~= b);
    } else {
        let a1 = a[1];
        let b1 = b[1];
        let a2 = a[2];
        let b2 = b[2];
        assert(t[1] == base64_char(((a0 % 4) * 16 + a1 / 16) as nat));
        assert(t[1] == base64_char(((b0 % 4) * 16 + b1 / 16) as nat));
        assert(t[2] == base64_char(((a1 % 16) * 4 + a2 / 64) as nat));
        assert(t[2] == base64_char(((b1 % 16) * 4 + b2 / 64) as nat));
        assert(t[3] == base64_char((a2 % 64) as nat));
        assert(t[3] == base64_char((b2 % 64) as nat));
        lemma_char(((a0 % 4) * 16 + a1 / 16) as nat, ((b0 % 4) * 16 + b1 / 16) as nat);
        lemma_char(((a1 % 16) * 4 + a2 / 64) as nat, ((b1 % 16) * 4 + b2 / 64) as nat);
        lemma_char((a2 % 64) as nat, (b2 % 64) as nat);
        assert(a0 == b0);
        assert(a1 == b1);
        assert(a2 == b2);
        let ra = a.subrange(3, a.len() as int);
        let rb = b.subrange(3, b.len() as int);
        assert(base64_text(ra) =~= t.subrange(4, t.len() as int));
        assert(base64_text(rb) =~= t.subrange(4, t.len() as int));
        lemma_base64_injective(ra, rb);
        assert(a =~= b) by {
            assert forall|i: int| 0 <= i < a.len() implies a[i] == b[i] by {
                if i >= 3 {
                    assert(a[i] == ra[i - 3]);
                    assert(b[i] == rb[i - 3]);
                }
            }
        }
    }
}


/// Why the base64 decoder refused a text (the `base64` crate's
/// `DecodeError`, variant for variant).
#[derive(Clone, Copy, Debug, PartialEq, Eq)]
pub enum Base64Error {
    /// A character outside the alphabet (or misplaced padding), with its
    /// offset and its byte.
    InvalidByte(usize, u8),
    /// The number of symbols leaves an impossible last group.
    InvalidLength(usize),
    /// The last symbol carries non-zero bits that would be dropped, with its
    /// offset and its byte.
    InvalidLastSymbol(usize, u8),
    /// The padding is not the canonical one.
    InvalidPadding,
}

/// The message of a decoding error, as the `base64` crate's `Display`
/// writes it.
pub open spec fn base64_error_text(e: Base64Error) -> Seq<char> {
    match e {
        Base64Error::InvalidByte(index, byte) => "Invalid symbol "@ + decimal(byte as nat)
            + ", offset "@ + decimal(index as nat) + "."@,
        Base64Error::InvalidLength(len) => "Invalid input length: "@ + decimal(len as nat),
        Base64Error::InvalidLastSymbol(index, byte) => "Invalid last symbol "@ + decimal(
            byte as nat,
        ) + ", offset "@ + decimal(index as nat) + "."@,
        Base64Error::InvalidPadding => "Invalid padding"@,
    }
}

impl Base64Error {
    /// The message of the error (see [`base64_error_text`]).
    pub fn text(&self) -> (t: String)
        ensures
            t@ == base64_error_text(*self),
    {
        match self {
            Base64Error::InvalidByte(index, byte) => {
                let mut t = String::from_str("Invalid symbol ");
                push_decimal(&mut t, *byte as u64);
                t.append(", offset ");
                push_decimal(&mut t, *index as u64);
                t.append(".");
                t
            },
            Base64Error::InvalidLength(len) => {
                let mut t = String::from_str("Invalid input length: ");
                push_decimal(&mut t, *len as u64);
                t
            },
            Base64Error::InvalidLastSymbol(index, byte) => {
                let mut t = String::from_str("Invalid last symbol ");
                push_decimal(&mut t, *byte as u64);
                t.append(", offset ");
                push_decimal(&mut t, *index as u64);
                t.append(".");
                t
            },
            Base64Error::InvalidPadding => String::from_str("Invalid padding"),
        }
    }
}

} // verus!
