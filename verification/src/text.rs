//! Small text utilities: decimal rendering of integers and the NUL check that
//! decides whether a string can cross the C boundary.
use vstd::prelude::*;
use vstd::string::StringExecFns;
use vstd::string::StringSliceAdditionalSpecFns;

verus! {

pub open spec fn digit_char(d: int) -> char {
    if d == 0 { '0' }
    else if d == 1 { '1' }
    else if d == 2 { '2' }
    else if d == 3 { '3' }
    else if d == 4 { '4' }
    else if d == 5 { '5' }
    else if d == 6 { '6' }
    else if d == 7 { '7' }
    else if d == 8 { '8' }
    else { '9' }
}

/// The decimal digits of a natural number, most significant first.
pub open spec fn digits(n: nat) -> Seq<char>
    decreases n,
{
    if n < 10 {
        seq![digit_char(n as int)]
    } else {
        digits(n / 10) + seq![digit_char((n % 10) as int)]
    }
}

/// The decimal text of an integer, with a leading '-' when negative.
pub open spec fn decimal(i: int) -> Seq<char> {
    if i < 0 {
        seq!['-'] + digits((-i) as nat)
    } else {
        digits(i as nat)
    }
}

fn digit_str(d: u64) -> (s: &'static str)
    requires
        d < 10,
    ensures
        s@ == seq![digit_char(d as int)],
{
    proof {
        reveal_strlit("0");
        reveal_strlit("1");
        reveal_strlit("2");
        reveal_strlit("3");
        reveal_strlit("4");
        reveal_strlit("5");
        reveal_strlit("6");
        reveal_strlit("7");
        reveal_strlit("8");
        reveal_strlit("9");
    }
    if d == 0 { "0" }
    else if d == 1 { "1" }
    else if d == 2 { "2" }
    else if d == 3 { "3" }
    else if d == 4 { "4" }
    else if d == 5 { "5" }
    else if d == 6 { "6" }
    else if d == 7 { "7" }
    else if d == 8 { "8" }
    else { "9" }
}

/// Appends the decimal digits of `n` to `out`.
pub fn push_decimal_u64(out: &mut String, n: u64)
    ensures
        final(out)@ == old(out)@ + digits(n as nat),
    decreases n,
{
    if n >= 10 {
        push_decimal_u64(out, n / 10);
        out.append(digit_str(n % 10));
    } else {
        out.append(digit_str(n));
    }
}

/// Appends the decimal text of `i` to `out`.
pub fn push_decimal_i64(out: &mut String, i: i64)
    ensures
        final(out)@ == old(out)@ + decimal(i as int),
{
    if i < 0 {
        proof { reveal_strlit("-"); }
        out.append("-");
        let magnitude: u64 = if i == i64::MIN {
            9223372036854775808u64
        } else {
            (-i) as u64
        };
        push_decimal_u64(out, magnitude);
        assert(final(out)@ =~= old(out)@ + decimal(i as int)) by {
            assert(seq!['-'] + digits(magnitude as nat) == decimal(i as int));
        }
    } else {
        push_decimal_u64(out, i as u64);
    }
}

/// The decimal text of `i`.
pub fn decimal_string(i: i64) -> (s: String)
    ensures
        s@ == decimal(i as int),
{
    let mut s = String::new();
    push_decimal_i64(&mut s, i);
    assert(s@ =~= decimal(i as int));
    s
}

/// The upper-case hexadecimal digit of `d` (below 16).
pub open spec fn hex_digit_char(d: int) -> char {
    if d < 10 { digit_char(d) }
    else if d == 10 { 'A' }
    else if d == 11 { 'B' }
    else if d == 12 { 'C' }
    else if d == 13 { 'D' }
    else if d == 14 { 'E' }
    else { 'F' }
}

/// The upper-case hexadecimal digits of a natural number, most significant
/// first.
pub open spec fn hex_digits(n: nat) -> Seq<char>
    decreases n,
{
    if n < 16 {
        seq![hex_digit_char(n as int)]
    } else {
        hex_digits(n / 16) + seq![hex_digit_char((n % 16) as int)]
    }
}

fn hex_digit_str(d: u32) -> (s: &'static str)
    requires
        d < 16,
    ensures
        s@ == seq![hex_digit_char(d as int)],
{
    if d < 10 {
        return digit_str(d as u64);
    }
    proof {
        reveal_strlit("A");
        reveal_strlit("B");
        reveal_strlit("C");
        reveal_strlit("D");
        reveal_strlit("E");
        reveal_strlit("F");
    }
    if d == 10 { "A" }
    else if d == 11 { "B" }
    else if d == 12 { "C" }
    else if d == 13 { "D" }
    else if d == 14 { "E" }
    else { "F" }
}

/// Appends the upper-case hexadecimal digits of `n` to `out`.
pub fn push_hex_u32(out: &mut String, n: u32)
    ensures
        final(out)@ == old(out)@ + hex_digits(n as nat),
    decreases n,
{
    if n >= 16 {
        push_hex_u32(out, n / 16);
        out.append(hex_digit_str(n % 16));
    } else {
        out.append(hex_digit_str(n));
    }
}

/// True when the UTF-8 encoding of `s` holds a NUL byte, i.e. when `s` cannot
/// be turned into a C string.
pub fn has_interior_nul(s: &str) -> (b: bool)
    ensures
        b == s.spec_bytes().contains(0u8),
{
    let bytes = s.as_bytes();
    let mut i: usize = 0;
    while i < bytes.len()
        invariant
            bytes@ == s.spec_bytes(),
            i <= bytes@.len(),
            forall|j: int| 0 <= j < i ==> bytes@[j] != 0u8,
        decreases bytes@.len() - i,
    {
        if bytes[i] == 0 {
            assert(bytes@[i as int] == 0u8);
            return true;
        }
        i = i + 1;
    }
    false
}

} // verus!
