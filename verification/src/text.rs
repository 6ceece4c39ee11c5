//! Small verified text builders: decimal and dotted-quad rendering.
use vstd::prelude::*;

verus! {

/// The character of a decimal digit.
pub open spec fn digit_char(d: nat) -> char {
    if d == 0 { '0' }
    else if d == 1 { '1' }
    else if d == 2 { '2' }
    else if d == 3 { '3' }
    else if d == 4 { '4' }
    else if d == 5 { '5' }
    else if d == 6 { '6' }
    else if d == 7 { '7' }
    else if d == 8 { '8' }
    else { '9' }
}

/// The decimal rendering of `n`, without sign or leading zeros.
pub open spec fn decimal(n: nat) -> Seq<char>
    decreases n,
{
    if n < 10 {
        seq![digit_char(n)]
    } else {
        decimal(n / 10).push(digit_char(n % 10))
    }
}

/// The dotted-quad rendering of an IPv4 address given as a big-endian `u32`.
pub open spec fn ipv4_text(addr: u32) -> Seq<char> {
    decimal((addr / 0x100_0000) as nat) + seq!['.']
        + decimal(((addr / 0x1_0000) % 256) as nat) + seq!['.']
        + decimal(((addr / 0x100) % 256) as nat) + seq!['.']
        + decimal((addr % 256) as nat)
}

/// Appends one character to a string (`String::push`).
#[verifier::external_body]
pub(crate) fn push_char(s: &mut String, c: char)
    ensures
        final(s)@ == old(s)@.push(c),
{
    s.push(c);
}

fn digit(d: u64) -> (c: char)
    requires
        d < 10,
    ensures
        c == digit_char(d as nat),
{
    if d == 0 { '0' }
    else if d == 1 { '1' }
    else if d == 2 { '2' }
    else if d == 3 { '3' }
    else if d == 4 { '4' }
    else if d == 5 { '5' }
    else if d == 6 { '6' }
    else if d == 7 { '7' }
    else if d == 8 { '8' }
    else { '9' }
}

/// Appends the decimal rendering of `n` to `s`.
pub fn push_decimal(s: &mut String, n: u64)
    ensures
        final(s)@ == old(s)@ + decimal(n as nat),
    decreases n,
{
    if n >= 10 {
        push_decimal(s, n / 10);
        let ghost mid = s@;
        push_char(s, digit(n % 10));
        assert(s@ =~= old(s)@ + decimal(n as nat)) by {
            assert(mid == old(s)@ + decimal((n / 10) as nat));
        }
    } else {
        push_char(s, digit(n));
        assert(s@ =~= old(s)@ + decimal(n as nat));
    }
}

/// The decimal rendering of `n`.
pub fn decimal_string(n: u64) -> (s: String)
    ensures
        s@ == decimal(n as nat),
{
    let mut s = String::new();
    push_decimal(&mut s, n);
    assert(s@ =~= decimal(n as nat));
    s
}

/// Appends the dotted-quad rendering of `addr` to `s`.
pub fn push_ipv4(s: &mut String, addr: u32)
    ensures
        final(s)@ == old(s)@ + ipv4_text(addr),
{
    push_decimal(s, (addr / 0x100_0000) as u64);
    push_char(s, '.');
    push_decimal(s, ((addr / 0x1_0000) % 256) as u64);
    push_char(s, '.');
    push_decimal(s, ((addr / 0x100) % 256) as u64);
    push_char(s, '.');
    push_decimal(s, (addr % 256) as u64);
    assert(s@ =~= old(s)@ + ipv4_text(addr));
}

/// The number that a string of decimal digits stands for, most significant
/// digit first (a character that is no digit counts as zero).
pub open spec fn decimal_value(s: Seq<char>) -> nat
    decreases s.len(),
{
    if s.len() == 0 {
        0
    } else {
        10 * decimal_value(s.drop_last()) + if '0' <= s.last() <= '9' {
            (s.last() as nat - '0' as nat) as nat
        } else {
            0nat
        }
    }
}

proof fn lemma_digit_char(d: nat)
    requires
        d < 10,
    ensures
        '0' <= digit_char(d) <= '9',
        digit_char(d) as nat - '0' as nat == d,
{
}

/// The decimal rendering of a number is made of digits only, has no
/// leading zero (but for zero itself), and reads back as the number.
pub proof fn lemma_decimal_reads_back(n: nat)
    ensures
        decimal(n).len() > 0,
        forall|i: int| 0 <= i < decimal(n).len() ==> '0' <= #[trigger] decimal(n)[i] <= '9',
        decimal(n)[0] == '0' ==> n == 0,
        decimal_value(decimal(n)) == n,
    decreases n,
{
    lemma_digit_char(n % 10);
    if n >= 10 {
        lemma_decimal_reads_back(n / 10);
        let d = decimal(n);
        assert(d.drop_last() =~= decimal(n / 10));
        assert(d[0] == decimal(n / 10)[0]);
        assert(d.last() == digit_char(n % 10));
        assert(decimal_value(d) == 10 * (n / 10) + n % 10);
    } else {
        let d = decimal(n);
        assert(d.drop_last() =~= Seq::<char>::empty());
        assert(decimal_value(Seq::<char>::empty()) == 0);
        assert(d.len() == 1);
        assert(d.last() == digit_char(n));
        assert(decimal_value(d) == n);
    }
}

} // verus!
