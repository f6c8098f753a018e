//! The four-digit hexadecimal length prefix: its mathematical description and
//! the executable routines that write and read it.
use vstd::prelude::*;

verus! {

/// The lowercase ASCII hex digit for a value below sixteen.
pub open spec fn hex_digit(v: int) -> u8 {
    if v < 10 {
        (48 + v) as u8
    } else {
        (87 + v) as u8
    }
}

/// The four lowercase ASCII hex digits of a value below 65536, most
/// significant digit first.
pub open spec fn hex4(n: int) -> Seq<u8> {
    seq![
        hex_digit(n / 4096 % 16),
        hex_digit(n / 256 % 16),
        hex_digit(n / 16 % 16),
        hex_digit(n % 16),
    ]
}

/// Whether a byte is an ASCII hex digit, either case.
pub open spec fn is_hex_byte(b: u8) -> bool {
    (48 <= b && b <= 57) || (97 <= b && b <= 102) || (65 <= b && b <= 70)
}

/// The value of an ASCII hex digit byte.
pub open spec fn hex_value(b: u8) -> int {
    if 48 <= b && b <= 57 {
        b - 48
    } else if 97 <= b && b <= 102 {
        b - 87
    } else {
        b - 55
    }
}

/// Whether the first four bytes of a sequence are hex digits.
pub open spec fn prefix_is_hex(s: Seq<u8>) -> bool {
    is_hex_byte(s[0]) && is_hex_byte(s[1]) && is_hex_byte(s[2]) && is_hex_byte(s[3])
}

/// The value declared by a four-digit hex length prefix.
pub open spec fn prefix_value(s: Seq<u8>) -> int {
    hex_value(s[0]) * 4096 + hex_value(s[1]) * 256 + hex_value(s[2]) * 16 + hex_value(s[3])
}

/// Reading back a digit just written yields the value it encodes.
pub proof fn lemma_hex_digit_value(v: int)
    requires
        0 <= v < 16,
    ensures
        is_hex_byte(hex_digit(v)),
        hex_value(hex_digit(v)) == v,
{
}

/// Splitting a value below 65536 into four hex digits loses nothing.
proof fn lemma_digit_split(n: u16)
    ensures
        (n / 4096) % 16 * 4096 + (n / 256) % 16 * 256 + (n / 16) % 16 * 16 + n % 16 == n,
{
    assert((n / 4096) % 16 * 4096 + (n / 256) % 16 * 256 + (n / 16) % 16 * 16 + n % 16 == n)
        by (bit_vector);
}

/// A four-digit hex prefix parses back to the value it was written from.
pub proof fn lemma_hex4_roundtrip(n: int)
    requires
        0 <= n < 65536,
    ensures
        hex4(n).len() == 4,
        prefix_is_hex(hex4(n)),
        prefix_value(hex4(n)) == n,
{
    lemma_hex_digit_value(n / 4096 % 16);
    lemma_hex_digit_value(n / 256 % 16);
    lemma_hex_digit_value(n / 16 % 16);
    lemma_hex_digit_value(n % 16);
    lemma_digit_split(n as u16);
    assert(n as u16 as int == n);
    assert(n / 4096 % 16 * 4096 + n / 256 % 16 * 256 + n / 16 % 16 * 16 + n % 16 == n);
}

/// The executable counterpart of `hex_digit`.
fn hex_digit_byte(v: u8) -> (r: u8)
    requires
        v < 16,
    ensures
        r == hex_digit(v as int),
{
    if v < 10 {
        48 + v
    } else {
        87 + v
    }
}

/// Appends the four-digit lowercase hex encoding of `n` to `out`.
pub fn push_hex4(out: &mut Vec<u8>, n: usize)
    requires
        n < 65536,
    ensures
        final(out)@ == old(out)@ + hex4(n as int),
{
    let d0: u8 = (n / 4096 % 16) as u8;
    let d1: u8 = (n / 256 % 16) as u8;
    let d2: u8 = (n / 16 % 16) as u8;
    let d3: u8 = (n % 16) as u8;
    out.push(hex_digit_byte(d0));
    out.push(hex_digit_byte(d1));
    out.push(hex_digit_byte(d2));
    out.push(hex_digit_byte(d3));
    assert(out@ =~= old(out)@ + hex4(n as int));
}

/// The value of one ASCII hex digit byte, or `None` where the byte is no hex
/// digit. Both letter cases are accepted.
pub fn parse_hex_digit(b: u8) -> (r: Option<u8>)
    ensures
        r is Some <==> is_hex_byte(b),
        r matches Some(v) ==> v < 16 && v as int == hex_value(b),
{
    if 48 <= b && b <= 57 {
        Some(b - 48)
    } else if 97 <= b && b <= 102 {
        Some(b - 97 + 10)
    } else if 65 <= b && b <= 70 {
        Some(b - 65 + 10)
    } else {
        None
    }
}

} // verus!
