//! The report that the TUN probe prints for each packet it reads.
use vstd::prelude::*;
use crate::text::{decimal, ipv4_text, push_char, push_decimal, push_ipv4};
use vstd::arithmetic::div_mod::lemma_fundamental_div_mod_converse;

verus! {

/// The character ('0' or '1') of the bit of `b` whose weight is `weight`.
pub open spec fn bit_char(b: u8, weight: nat) -> char {
    if (b as nat / weight) % 2 == 1 {
        '1'
    } else {
        '0'
    }
}

/// The eight-digit binary rendering of a byte, most significant bit first.
pub open spec fn binary8(b: u8) -> Seq<char> {
    seq![
        bit_char(b, 128),
        bit_char(b, 64),
        bit_char(b, 32),
        bit_char(b, 16),
        bit_char(b, 8),
        bit_char(b, 4),
        bit_char(b, 2),
        bit_char(b, 1),
    ]
}

/// The number that a string of binary digits stands for, most significant
/// digit first (a '1' counts one, any other character zero).
pub open spec fn binary_value(s: Seq<char>) -> nat
    decreases s.len(),
{
    if s.len() == 0 {
        0
    } else {
        2 * binary_value(s.drop_last()) + if s.last() == '1' {
            1nat
        } else {
            0nat
        }
    }
}

/// The binary rendering of a byte has eight digits, each '0' or '1', and
/// reads back as the byte.
pub proof fn lemma_binary8_reads_back(b: u8)
    ensures
        binary8(b).len() == 8,
        forall|i: int| 0 <= i < 8 ==> binary8(b)[i] == '0' || binary8(b)[i] == '1',
        binary_value(binary8(b)) == b,
{
    assert(b == 128 * ((b / 128) % 2) + 64 * ((b / 64) % 2) + 32 * ((b / 32) % 2) + 16 * ((b / 16)
        % 2) + 8 * ((b / 8) % 2) + 4 * ((b / 4) % 2) + 2 * ((b / 2) % 2) + b % 2) by (bit_vector);
    let s = binary8(b);
    let v = |c: char| if c == '1' { 1nat } else { 0nat };
    assert(forall|w: nat| w > 0 ==> v(#[trigger] bit_char(b, w)) == (b as nat / w) % 2);
    assert(s.drop_last() =~= s.subrange(0, 7));
    assert(s.subrange(0, 7).drop_last() =~= s.subrange(0, 6));
    assert(s.subrange(0, 6).drop_last() =~= s.subrange(0, 5));
    assert(s.subrange(0, 5).drop_last() =~= s.subrange(0, 4));
    assert(s.subrange(0, 4).drop_last() =~= s.subrange(0, 3));
    assert(s.subrange(0, 3).drop_last() =~= s.subrange(0, 2));
    assert(s.subrange(0, 2).drop_last() =~= s.subrange(0, 1));
    assert(s.subrange(0, 1).drop_last() =~= Seq::<char>::empty());
    reveal_with_fuel(binary_value, 9);
    assert(binary_value(s.subrange(0, 1)) == v(s[0]));
    assert(binary_value(s.subrange(0, 2)) == 2 * v(s[0]) + v(s[1]));
    assert(binary_value(s.subrange(0, 3)) == 4 * v(s[0]) + 2 * v(s[1]) + v(s[2]));
    assert(binary_value(s.subrange(0, 4)) == 8 * v(s[0]) + 4 * v(s[1]) + 2 * v(s[2]) + v(s[3]));
    assert(binary_value(s.subrange(0, 5)) == 16 * v(s[0]) + 8 * v(s[1]) + 4 * v(s[2]) + 2 * v(s[3])
        + v(s[4]));
    assert(binary_value(s.subrange(0, 6)) == 32 * v(s[0]) + 16 * v(s[1]) + 8 * v(s[2]) + 4 * v(s[3])
        + 2 * v(s[4]) + v(s[5]));
    assert(binary_value(s.subrange(0, 7)) == 64 * v(s[0]) + 32 * v(s[1]) + 16 * v(s[2]) + 8 * v(
        s[3],
    ) + 4 * v(s[4]) + 2 * v(s[5]) + v(s[6]));
}

/// The address held by four bytes of a packet, most significant first.
pub open spec fn address_at(packet: Seq<u8>, at: int) -> u32 {
    (packet[at] * 0x100_0000 + packet[at + 1] * 0x1_0000 + packet[at + 2] * 0x100
        + packet[at + 3]) as u32
}

/// The lines printed for a packet of `n` bytes read into `buf`: its size,
/// and, read from the IPv4 header at the start of the buffer, the
/// version/IHL byte in binary, the protocol, and the source and destination
/// addresses.
pub open spec fn packet_report_model(buf: Seq<u8>, n: nat) -> Seq<Seq<char>> {
    seq![
        "got packet: "@ + decimal(n) + " bytes"@,
        "  version/ihl: "@ + binary8(buf[0]),
        "  protocol: "@ + decimal(buf[9] as nat),
        "  src: "@ + ipv4_text(address_at(buf, 12)),
        "  dst: "@ + ipv4_text(address_at(buf, 16)),
    ]
}

fn push_bit(s: &mut String, b: u8, weight: u8)
    requires
        weight > 0,
    ensures
        final(s)@ == old(s)@.push(bit_char(b, weight as nat)),
{
    if (b / weight) % 2 == 1 {
        push_char(s, '1');
    } else {
        push_char(s, '0');
    }
}

fn address(buf: &[u8], at: usize) -> (a: u32)
    requires
        at + 4 <= buf@.len(),
    ensures
        a == address_at(buf@, at as int),
{
    (buf[at] as u32) * 0x100_0000 + (buf[at + 1] as u32) * 0x1_0000 + (buf[at + 2] as u32) * 0x100
        + buf[at + 3] as u32
}

fn size_line(n: usize) -> (line: String)
    ensures
        line@ == "got packet: "@ + decimal(n as nat) + " bytes"@,
{
    let mut line = String::from_str("got packet: ");
    push_decimal(&mut line, n as u64);
    line.append(" bytes");
    line
}

fn version_line(b: u8) -> (line: String)
    ensures
        line@ == "  version/ihl: "@ + binary8(b),
{
    let mut line = String::from_str("  version/ihl: ");
    push_bit(&mut line, b, 128);
    push_bit(&mut line, b, 64);
    push_bit(&mut line, b, 32);
    push_bit(&mut line, b, 16);
    push_bit(&mut line, b, 8);
    push_bit(&mut line, b, 4);
    push_bit(&mut line, b, 2);
    push_bit(&mut line, b, 1);
    assert(line@ =~= "  version/ihl: "@ + binary8(b));
    line
}

fn protocol_line(p: u8) -> (line: String)
    ensures
        line@ == "  protocol: "@ + decimal(p as nat),
{
    let mut line = String::from_str("  protocol: ");
    push_decimal(&mut line, p as u64);
    line
}

fn address_line(label: &str, a: u32) -> (line: String)
    ensures
        line@ == label@ + ipv4_text(a),
{
    let mut line = String::from_str(label);
    push_ipv4(&mut line, a);
    line
}

/// The four bytes of a big-endian address come back out of it in order.
proof fn lemma_address_octets(a: u8, b: u8, c: u8, d: u8)
    ensures
        ({
            let x = (a * 0x100_0000 + b * 0x1_0000 + c * 0x100 + d) as u32;
            &&& x / 0x100_0000 == a
            &&& (x / 0x1_0000) % 256 == b
            &&& (x / 0x100) % 256 == c
            &&& x % 256 == d
        }),
{
    let v: int = a * 0x100_0000 + b * 0x1_0000 + c * 0x100 + d;
    assert(0 <= v < 0x1_0000_0000);
    let x = v as u32;
    assert(x == v);
    lemma_fundamental_div_mod_converse(v, 0x100_0000, a as int, b * 0x1_0000 + c * 0x100 + d);
    lemma_fundamental_div_mod_converse(v, 0x1_0000, a * 0x100 + b, c * 0x100 + d);
    lemma_fundamental_div_mod_converse(a * 0x100 + b, 256, a as int, b as int);
    lemma_fundamental_div_mod_converse(v, 0x100, a * 0x1_0000 + b * 0x100 + c, d as int);
    lemma_fundamental_div_mod_converse(a * 0x1_0000 + b * 0x100 + c, 256, a * 0x100 + b, c as int);
    lemma_fundamental_div_mod_converse(v, 256, a * 0x1_0000 + b * 0x100 + c, d as int);
}

/// The report names the packet's source and destination by the bytes of
/// the IPv4 header that hold them, in the order they stand: bytes 12 to 15
/// for the source and 16 to 19 for the destination, each in decimal and
/// joined by dots.
pub proof fn lemma_report_addresses(buf: Seq<u8>, n: nat)
    requires
        buf.len() >= 20,
    ensures
        packet_report_model(buf, n)[3] == "  src: "@ + decimal(buf[12] as nat) + seq!['.']
            + decimal(buf[13] as nat) + seq!['.'] + decimal(buf[14] as nat) + seq!['.']
            + decimal(buf[15] as nat),
        packet_report_model(buf, n)[4] == "  dst: "@ + decimal(buf[16] as nat) + seq!['.']
            + decimal(buf[17] as nat) + seq!['.'] + decimal(buf[18] as nat) + seq!['.']
            + decimal(buf[19] as nat),
{
    lemma_address_octets(buf[12], buf[13], buf[14], buf[15]);
    lemma_address_octets(buf[16], buf[17], buf[18], buf[19]);
    assert(packet_report_model(buf, n)[3] =~= "  src: "@ + decimal(buf[12] as nat) + seq!['.']
        + decimal(buf[13] as nat) + seq!['.'] + decimal(buf[14] as nat) + seq!['.']
        + decimal(buf[15] as nat));
    assert(packet_report_model(buf, n)[4] =~= "  dst: "@ + decimal(buf[16] as nat) + seq!['.']
        + decimal(buf[17] as nat) + seq!['.'] + decimal(buf[18] as nat) + seq!['.']
        + decimal(buf[19] as nat));
}

/// The lines that the probe prints for a packet of `n` bytes read into
/// `buf` (see [`packet_report_model`]).
pub fn packet_report(buf: &[u8], n: usize) -> (lines: Vec<String>)
    requires
        buf@.len() >= 20,
    ensures
        lines@.map_values(|l: String| l@) == packet_report_model(buf@, n as nat),
        lines@.len() == 5,
        lines@[0]@ == "got packet: "@ + decimal(n as nat) + " bytes"@,
        lines@[1]@ == "  version/ihl: "@ + binary8(buf@[0]),
        lines@[2]@ == "  protocol: "@ + decimal(buf@[9] as nat),
        lines@[3]@ == "  src: "@ + decimal(buf@[12] as nat) + seq!['.'] + decimal(buf@[13] as nat)
            + seq!['.'] + decimal(buf@[14] as nat) + seq!['.'] + decimal(buf@[15] as nat),
        lines@[4]@ == "  dst: "@ + decimal(buf@[16] as nat) + seq!['.'] + decimal(buf@[17] as nat)
            + seq!['.'] + decimal(buf@[18] as nat) + seq!['.'] + decimal(buf@[19] as nat),
{
    let lines = vec![
        size_line(n),
        version_line(buf[0]),
        protocol_line(buf[9]),
        address_line("  src: ", address(buf, 12)),
        address_line("  dst: ", address(buf, 16)),
    ];
    assert(lines@.map_values(|l: String| l@) =~= packet_report_model(buf@, n as nat));
    proof {
        lemma_report_addresses(buf@, n as nat);
        assert(lines@[0]@ == lines@.map_values(|l: String| l@)[0]);
        assert(lines@[1]@ == lines@.map_values(|l: String| l@)[1]);
        assert(lines@[2]@ == lines@.map_values(|l: String| l@)[2]);
        assert(lines@[3]@ == lines@.map_values(|l: String| l@)[3]);
        assert(lines@[4]@ == lines@.map_values(|l: String| l@)[4]);
    }
    lines
}

} // verus!
