//! Numbers as text: hexadecimal and decimal digits.

use vstd::prelude::*;

verus! {

/// `String::push` appends one character.
pub assume_specification[ String::push ](s: &mut String, c: char)
    ensures
        final(s)@ == old(s)@.push(c),
;

/// The character of a hexadecimal digit, in lower or upper case.
pub open spec fn spec_digit(d: int, upper: bool) -> char {
    if d == 0 {
        '0'
    } else if d == 1 {
        '1'
    } else if d == 2 {
        '2'
    } else if d == 3 {
        '3'
    } else if d == 4 {
        '4'
    } else if d == 5 {
        '5'
    } else if d == 6 {
        '6'
    } else if d == 7 {
        '7'
    } else if d == 8 {
        '8'
    } else if d == 9 {
        '9'
    } else if d == 10 {
        if upper { 'A' } else { 'a' }
    } else if d == 11 {
        if upper { 'B' } else { 'b' }
    } else if d == 12 {
        if upper { 'C' } else { 'c' }
    } else if d == 13 {
        if upper { 'D' } else { 'd' }
    } else if d == 14 {
        if upper { 'E' } else { 'e' }
    } else {
        if upper { 'F' } else { 'f' }
    }
}

/// The hexadecimal digits of `n`, most significant first, without leading
/// zeros; the single digit 0 for zero.
pub open spec fn spec_hex_digits(n: nat, upper: bool) -> Seq<char>
    decreases n,
{
    if n < 16 {
        seq![spec_digit(n as int, upper)]
    } else {
        spec_hex_digits(n / 16, upper).push(spec_digit((n % 16) as int, upper))
    }
}

/// `n` in decimal: its digits, most significant first, without leading zeros;
/// the single digit 0 for zero.
pub open spec fn spec_decimal(n: nat) -> Seq<char>
    decreases n,
{
    if n < 10 {
        seq![spec_digit(n as int, false)]
    } else {
        spec_decimal(n / 10).push(spec_digit((n % 10) as int, false))
    }
}

/// `n` in hexadecimal behind the prefix `0x`.
pub open spec fn spec_hex(n: nat, upper: bool) -> Seq<char> {
    seq!['0', 'x'] + spec_hex_digits(n, upper)
}

/// The two hexadecimal digits of a byte.
pub open spec fn spec_byte_hex(b: u8, upper: bool) -> Seq<char> {
    seq![spec_digit(b as int / 16, upper), spec_digit(b as int % 16, upper)]
}

/// The two's complement of a signed number: the unsigned number with the same
/// 64 bits.
pub open spec fn spec_bits(v: i64) -> nat {
    if v >= 0 {
        v as nat
    } else {
        (v + 0x1_0000_0000_0000_0000) as nat
    }
}

/// The character of one hexadecimal digit.
pub fn digit(d: u8, upper: bool) -> (c: char)
    requires
        d < 16,
    ensures
        c == spec_digit(d as int, upper),
{
    match d {
        0 => '0',
        1 => '1',
        2 => '2',
        3 => '3',
        4 => '4',
        5 => '5',
        6 => '6',
        7 => '7',
        8 => '8',
        9 => '9',
        10 => if upper { 'A' } else { 'a' },
        11 => if upper { 'B' } else { 'b' },
        12 => if upper { 'C' } else { 'c' },
        13 => if upper { 'D' } else { 'd' },
        14 => if upper { 'E' } else { 'e' },
        _ => if upper { 'F' } else { 'f' },
    }
}

/// Appends the hexadecimal digits of `n` to `s`.
fn push_hex_digits(s: &mut String, n: u64, upper: bool)
    ensures
        final(s)@ == old(s)@ + spec_hex_digits(n as nat, upper),
    decreases n,
{
    if n >= 16 {
        push_hex_digits(s, n / 16, upper);
    }
    let d = (n % 16) as u8;
    s.push(digit(d, upper));
    proof {
        assert(s@ =~= old(s)@ + spec_hex_digits(n as nat, upper));
    }
}

/// Appends the decimal digits of `n` to `s`.
fn push_decimal_digits(s: &mut String, n: u64)
    ensures
        final(s)@ == old(s)@ + spec_decimal(n as nat),
    decreases n,
{
    if n >= 10 {
        push_decimal_digits(s, n / 10);
    }
    let d = (n % 10) as u8;
    s.push(digit(d, false));
    proof {
        assert(s@ =~= old(s)@ + spec_decimal(n as nat));
    }
}

/// Writes a number in decimal.
pub fn decimal(n: u64) -> (r: String)
    ensures
        r@ == spec_decimal(n as nat),
{
    let mut s = String::new();
    push_decimal_digits(&mut s, n);
    proof {
        assert(Seq::<char>::empty() + spec_decimal(n as nat) =~= spec_decimal(n as nat));
    }
    s
}

/// Writes a number in hexadecimal behind `0x`, with lower-case or upper-case
/// digits and no leading zeros.
pub fn hex(n: u64, upper: bool) -> (r: String)
    ensures
        r@ == spec_hex(n as nat, upper),
{
    let mut s = String::new();
    s.push('0');
    s.push('x');
    proof {
        assert(s@ =~= seq!['0', 'x']);
    }
    push_hex_digits(&mut s, n, upper);
    s
}

/// Writes a signed number as the hexadecimal of its 64 bits: a negative
/// number in two's complement.
pub fn hex_bits(v: i64, upper: bool) -> (r: String)
    ensures
        r@ == spec_hex(spec_bits(v), upper),
{
    let bits: u64 = if v >= 0 {
        v as u64
    } else {
        (v + 1 + i64::MAX) as u64 + 0x8000_0000_0000_0000
    };
    hex(bits, upper)
}

/// Appends the two hexadecimal digits of a byte to `s`.
pub fn push_byte_hex(s: &mut String, b: u8, upper: bool)
    ensures
        final(s)@ == old(s)@ + spec_byte_hex(b, upper),
{
    s.push(digit(b / 16, upper));
    s.push(digit(b % 16, upper));
    proof {
        assert(s@ =~= old(s)@ + spec_byte_hex(b, upper));
    }
}

/// The hexadecimal digits of every byte, two for each, in order.
pub open spec fn spec_bytes_hex(bytes: Seq<u8>, upper: bool) -> Seq<char>
    decreases bytes.len(),
{
    if bytes.len() == 0 {
        Seq::empty()
    } else {
        spec_bytes_hex(bytes.drop_last(), upper) + spec_byte_hex(bytes.last(), upper)
    }
}

/// Writes every byte as two hexadecimal digits, with nothing between them.
pub fn bytes_hex(bytes: &[u8], upper: bool) -> (r: String)
    ensures
        r@ == spec_bytes_hex(bytes@, upper),
        r@.len() == 2 * bytes@.len(),
{
    let mut s = String::new();
    let mut i: usize = 0;
    while i < bytes.len()
        invariant
            i <= bytes.len(),
            s@ == spec_bytes_hex(bytes@.take(i as int), upper),
            s@.len() == 2 * i,
        decreases bytes.len() - i,
    {
        proof {
            assert(bytes@.take(i + 1).drop_last() =~= bytes@.take(i as int));
        }
        push_byte_hex(&mut s, bytes[i], upper);
        i += 1;
    }
    proof {
        assert(bytes@.take(i as int) =~= bytes@);
    }
    s
}

} // verus!
