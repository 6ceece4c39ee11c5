//! Reading a decimal `u32` out of a command's output, as `str::trim`
//! followed by `u32::from_str` does.
use vstd::prelude::*;

verus! {

/// Unicode's `White_Space` characters, those that `str::trim` removes.
pub open spec fn is_white_space(c: char) -> bool {
    let v = c as int;
    ||| 9 <= v <= 13
    ||| v == 32
    ||| v == 0x85
    ||| v == 0xA0
    ||| v == 0x1680
    ||| 0x2000 <= v <= 0x200A
    ||| v == 0x2028
    ||| v == 0x2029
    ||| v == 0x202F
    ||| v == 0x205F
    ||| v == 0x3000
}

/// The number of white space characters that `s` starts with.
pub open spec fn leading_space(s: Seq<char>) -> nat
    decreases s.len(),
{
    if s.len() > 0 && is_white_space(s[0]) {
        1 + leading_space(s.drop_first())
    } else {
        0
    }
}

/// The number of white space characters that `s` ends with.
pub open spec fn trailing_space(s: Seq<char>) -> nat
    decreases s.len(),
{
    if s.len() > 0 && is_white_space(s.last()) {
        1 + trailing_space(s.drop_last())
    } else {
        0
    }
}

/// `s` without its leading and trailing white space.
pub open spec fn trimmed(s: Seq<char>) -> Seq<char> {
    if leading_space(s) == s.len() {
        seq![]
    } else {
        s.subrange(leading_space(s) as int, s.len() - trailing_space(s))
    }
}

pub open spec fn is_ascii_digit(c: char) -> bool {
    48 <= c as int <= 57
}

/// The value that the decimal digits `d` add to `acc`, read from the left;
/// failing at the first character that is no digit or that makes the value
/// exceed `u32::MAX`, whichever comes first.
pub open spec fn digits_value(d: Seq<char>, acc: nat) -> Result<u32, Seq<char>>
    decreases d.len(),
{
    if d.len() == 0 {
        Ok(acc as u32)
    } else if !is_ascii_digit(d[0]) {
        Err("invalid digit found in string"@)
    } else if acc * 10 + (d[0] as int - 48) > u32::MAX {
        Err("number too large to fit in target type"@)
    } else {
        digits_value(d.drop_first(), (acc * 10 + (d[0] as int - 48)) as nat)
    }
}

/// What `u32::from_str` gives for `s`, with the error as its message: an
/// optional leading `+`, then decimal digits.
pub open spec fn parse_u32(s: Seq<char>) -> Result<u32, Seq<char>> {
    if s.len() == 0 {
        Err("cannot parse integer from empty string"@)
    } else if s.len() == 1 && (s[0] == '+' || s[0] == '-') {
        Err("invalid digit found in string"@)
    } else if s[0] == '+' {
        digits_value(s.drop_first(), 0)
    } else {
        digits_value(s, 0)
    }
}

proof fn lemma_leading_space(s: Seq<char>, k: int)
    requires
        0 <= k <= s.len(),
        forall|i: int| 0 <= i < k ==> is_white_space(#[trigger] s[i]),
        k == s.len() || !is_white_space(s[k]),
    ensures
        leading_space(s) == k,
    decreases k,
{
    if k > 0 {
        let r = s.drop_first();
        assert forall|i: int| 0 <= i < k - 1 implies is_white_space(#[trigger] r[i]) by {
            assert(r[i] == s[i + 1]);
        }
        if k < s.len() {
            assert(r[k - 1] == s[k]);
        }
        lemma_leading_space(r, k - 1);
    }
}

proof fn lemma_trailing_space(s: Seq<char>, k: int)
    requires
        0 <= k <= s.len(),
        forall|i: int| s.len() - k <= i < s.len() ==> is_white_space(#[trigger] s[i]),
        k == s.len() || !is_white_space(s[s.len() - k - 1]),
    ensures
        trailing_space(s) == k,
    decreases k,
{
    if k > 0 {
        let r = s.drop_last();
        assert forall|i: int| r.len() - (k - 1) <= i < r.len() implies is_white_space(
            #[trigger] r[i],
        ) by {
            assert(r[i] == s[i]);
        }
        if k < s.len() {
            assert(r[r.len() - (k - 1) - 1] == s[s.len() - k - 1]);
        }
        lemma_trailing_space(r, k - 1);
    }
}

fn white_space(c: char) -> (b: bool)
    ensures
        b == is_white_space(c),
{
    let v = c as u32;
    (9 <= v && v <= 13) || v == 32 || v == 0x85 || v == 0xA0 || v == 0x1680 || (0x2000 <= v && v
        <= 0x200A) || v == 0x2028 || v == 0x2029 || v == 0x202F || v == 0x205F || v == 0x3000
}

/// The decimal number that `text` holds, read as `text.trim()` parsed by
/// `u32::from_str`, with the parse error's message on failure.
pub fn parse_trimmed_u32(text: &str) -> (r: Result<u32, String>)
    ensures
        match (r, parse_u32(trimmed(text@))) {
            (Ok(n), Ok(m)) => n == m,
            (Err(e), Err(m)) => e@ == m,
            _ => false,
        },
{
    let n = text.unicode_len();
    let ghost s = text@;
    let mut start: usize = 0;
    while start < n && white_space(text.get_char(start))
        invariant
            start <= n,
            n == s.len(),
            s == text@,
            forall|i: int| 0 <= i < start ==> is_white_space(#[trigger] s[i]),
        decreases n - start,
    {
        start = start + 1;
    }
    proof {
        lemma_leading_space(s, start as int);
    }
    let mut end: usize = n;
    while end > start && white_space(text.get_char(end - 1))
        invariant
            start <= end <= n,
            n == s.len(),
            s == text@,
            forall|i: int| end <= i < n ==> is_white_space(#[trigger] s[i]),
            start == n || !is_white_space(s[start as int]),
        decreases end - start,
    {
        end = end - 1;
    }
    let ghost t = trimmed(s);
    proof {
        if start < n {
            assert(end > start);
            lemma_trailing_space(s, (n - end) as int);
        }
        assert(t =~= s.subrange(start as int, end as int));
    }
    if start == end {
        return Err(String::from_str("cannot parse integer from empty string"));
    }
    let first = text.get_char(start);
    if end - start == 1 && (first == '+' || first == '-') {
        return Err(String::from_str("invalid digit found in string"));
    }
    let mut i: usize = if first == '+' { start + 1 } else { start };
    let ghost digits = s.subrange(i as int, end as int);
    proof {
        if first == '+' {
            assert(digits =~= t.drop_first());
        } else {
            assert(digits =~= t);
        }
    }
    assert(parse_u32(t) == digits_value(digits, 0));
    let mut acc: u64 = 0;
    while i < end
        invariant
            parse_u32(trimmed(text@)) == digits_value(digits, 0),
            start <= i <= end <= n,
            n == s.len(),
            s == text@,
            acc <= u32::MAX,
            digits_value(digits, 0) == digits_value(s.subrange(i as int, end as int), acc as nat),
        decreases end - i,
    {
        let c = text.get_char(i);
        let ghost rest = s.subrange(i as int, end as int);
        assert(rest[0] == c);
        if !(('0' as u32) <= (c as u32) && (c as u32) <= ('9' as u32)) {
            return Err(String::from_str("invalid digit found in string"));
        }
        let next = acc * 10 + ((c as u32) - ('0' as u32)) as u64;
        if next > u32::MAX as u64 {
            return Err(String::from_str("number too large to fit in target type"));
        }
        assert(rest.drop_first() =~= s.subrange(i + 1, end as int));
        acc = next;
        i = i + 1;
    }
    assert(s.subrange(i as int, end as int).len() == 0);
    Ok(acc as u32)
}

} // verus!
