//! Lowercase hexadecimal rendering of numbers and byte strings, used to
//! encode transaction fields in the relay's textual form.

use vstd::prelude::*;
use vstd::string::StringExecFns;

verus! {

/// The lowercase hexadecimal digit character for a value below sixteen.
pub open spec fn hex_char(d: int) -> char
    recommends
        0 <= d < 16,
{
    if d == 0 {
        '0'
    } else if d == 1 {
        '1'
    } else if d == 2 {
        '2'
    } else if d == 3 {
        '3'
    } else if d == 4 {
        '4'
    } else if d == 5 {
        '5'
    } else if d == 6 {
        '6'
    } else if d == 7 {
        '7'
    } else if d == 8 {
        '8'
    } else if d == 9 {
        '9'
    } else if d == 10 {
        'a'
    } else if d == 11 {
        'b'
    } else if d == 12 {
        'c'
    } else if d == 13 {
        'd'
    } else if d == 14 {
        'e'
    } else {
        'f'
    }
}

/// The shortest lowercase hexadecimal rendering of `n`: a single digit for
/// values below sixteen, otherwise the rendering of `n / 16` followed by the
/// digit of `n % 16`, so the result never has a leading zero except for the
/// value zero itself.
pub open spec fn hex_min(n: nat) -> Seq<char>
    decreases n,
{
    if n < 16 {
        seq![hex_char(n as int)]
    } else {
        hex_min(n / 16) + seq![hex_char((n % 16) as int)]
    }
}

/// The two hexadecimal digit characters of one byte, high digit first.
pub open spec fn hex_byte(b: u8) -> Seq<char> {
    seq![hex_char(b as int / 16), hex_char(b as int % 16)]
}

/// The hexadecimal rendering of a byte string: two digits per byte, in order.
pub open spec fn hex_bytes(s: Seq<u8>) -> Seq<char>
    decreases s.len(),
{
    if s.len() == 0 {
        Seq::empty()
    } else {
        hex_bytes(s.drop_last()) + hex_byte(s.last())
    }
}

/// The one-character string slice holding the hexadecimal digit of `d`.
fn hex_char_str(d: u8) -> (r: &'static str)
    requires
        d < 16,
    ensures
        r@ =~= seq![hex_char(d as int)],
{
    proof {
        reveal_strlit("0");
        reveal_strlit("1");
        reveal_strlit("2");
        reveal_strlit("3");
        reveal_strlit("4");
        reveal_strlit("5");
        reveal_strlit("6");
        reveal_strlit("7");
        reveal_strlit("8");
        reveal_strlit("9");
        reveal_strlit("a");
        reveal_strlit("b");
        reveal_strlit("c");
        reveal_strlit("d");
        reveal_strlit("e");
        reveal_strlit("f");
    }
    match d {
        0 => "0",
        1 => "1",
        2 => "2",
        3 => "3",
        4 => "4",
        5 => "5",
        6 => "6",
        7 => "7",
        8 => "8",
        9 => "9",
        10 => "a",
        11 => "b",
        12 => "c",
        13 => "d",
        14 => "e",
        _ => "f",
    }
}

/// Appends the two hexadecimal digits of one byte to `out`.
pub fn push_hex_byte(out: &mut String, b: u8)
    ensures
        final(out)@ == old(out)@ + hex_byte(b),
{
    out.append(hex_char_str(b / 16));
    out.append(hex_char_str(b % 16));
    proof {
        assert(out@ =~= old(out)@ + hex_byte(b));
    }
}

/// Appends the hexadecimal rendering of a byte string to `out`.
pub fn push_hex_bytes(out: &mut String, bytes: &Vec<u8>)
    ensures
        final(out)@ == old(out)@ + hex_bytes(bytes@),
{
    let mut i: usize = 0;
    while i < bytes.len()
        invariant
            i <= bytes.len(),
            out@ == old(out)@ + hex_bytes(bytes@.take(i as int)),
        decreases bytes.len() - i,
    {
        push_hex_byte(out, bytes[i]);
        proof {
            assert(bytes@.take(i as int + 1).drop_last() =~= bytes@.take(i as int));
            assert(bytes@.take(i as int + 1).last() == bytes@[i as int]);
            assert(out@ =~= old(out)@ + hex_bytes(bytes@.take(i as int + 1)));
        }
        i += 1;
    }
    proof {
        assert(bytes@.take(bytes.len() as int) =~= bytes@);
    }
}

/// The digit characters of `digits` read back to front.
spec fn reversed_digit_chars(digits: Seq<u8>) -> Seq<char> {
    Seq::new(digits.len(), |i: int| hex_char(digits[digits.len() - 1 - i] as int))
}

/// Appends the shortest hexadecimal rendering of `n` to `out`.
pub fn push_hex_u128(out: &mut String, n: u128)
    ensures
        final(out)@ == old(out)@ + hex_min(n as nat),
{
    let mut digits: Vec<u8> = Vec::new();
    let mut m = n;
    digits.push((m % 16) as u8);
    m = m / 16;
    while m > 0
        invariant
            if m > 0 {
                hex_min(n as nat) == hex_min(m as nat) + reversed_digit_chars(digits@)
            } else {
                hex_min(n as nat) == reversed_digit_chars(digits@)
            },
            forall|k: int| 0 <= k < digits@.len() ==> digits@[k] < 16,
            digits@.len() >= 1,
        decreases m,
    {
        let ghost m0 = m as nat;
        let ghost pre = digits@;
        digits.push((m % 16) as u8);
        m = m / 16;
        proof {
            assert(reversed_digit_chars(digits@) =~= seq![hex_char((m0 % 16) as int)]
                + reversed_digit_chars(pre));
            if m > 0 {
                assert(hex_min(m0) == hex_min(m0 / 16) + seq![hex_char((m0 % 16) as int)]);
                assert(hex_min(m as nat) + reversed_digit_chars(digits@) =~= hex_min(m0)
                    + reversed_digit_chars(pre));
            } else {
                assert(hex_min(m0) == seq![hex_char((m0 % 16) as int)]);
                assert(reversed_digit_chars(digits@) =~= hex_min(m0) + reversed_digit_chars(pre));
            }
        }
    }
    let ghost total = digits@.len() as int;
    let mut j: usize = digits.len();
    while j > 0
        invariant
            j <= digits@.len(),
            digits@.len() == total,
            forall|k: int| 0 <= k < digits@.len() ==> digits@[k] < 16,
            hex_min(n as nat) == reversed_digit_chars(digits@),
            out@ == old(out)@ + reversed_digit_chars(digits@).take(total - j),
        decreases j,
    {
        j = j - 1;
        out.append(hex_char_str(digits[j]));
        proof {
            assert(reversed_digit_chars(digits@).take(total - j) =~= reversed_digit_chars(
                digits@,
            ).take(total - j - 1).push(hex_char(digits@[j as int] as int)));
            assert(out@ =~= old(out)@ + reversed_digit_chars(digits@).take(total - j));
        }
    }
    proof {
        assert(reversed_digit_chars(digits@).take(total) =~= reversed_digit_chars(digits@));
    }
}

} // verus!
