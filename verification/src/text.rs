//! Verified text building blocks: appending characters, decimal digit
//! strings, fixed-point decimals and JSON-escaped text to a `String`,
//! and character-wise string equality.
//!
//! Monetary and percentage amounts are held as signed integers in
//! hundredths of a unit. `append_fixed2` renders such an amount the
//! way a JSON serializer renders the equivalent binary float with at
//! most two decimal digits: an integer part, a decimal point, and the
//! shortest fraction with at least one digit (`1250050` becomes
//! `12500.5`, `-230` becomes `-2.3`, `560000` becomes `5600.0`).

use vstd::prelude::*;
use vstd::string::StrSliceExecFns;
use vstd::string::StringExecFns;

verus! {

/// The character for a single decimal digit.
pub open spec fn spec_digit_char(d: nat) -> char {
    if d == 0 {
        '0'
    } else if d == 1 {
        '1'
    } else if d == 2 {
        '2'
    } else if d == 3 {
        '3'
    } else if d == 4 {
        '4'
    } else if d == 5 {
        '5'
    } else if d == 6 {
        '6'
    } else if d == 7 {
        '7'
    } else if d == 8 {
        '8'
    } else {
        '9'
    }
}

/// The character for a single hexadecimal digit, lower case.
pub open spec fn spec_hex_char(d: nat) -> char {
    if d < 10 {
        spec_digit_char(d)
    } else if d == 10 {
        'a'
    } else if d == 11 {
        'b'
    } else if d == 12 {
        'c'
    } else if d == 13 {
        'd'
    } else if d == 14 {
        'e'
    } else {
        'f'
    }
}

/// The decimal digit string of `n`, most significant digit first,
/// with no leading zeros (a single `'0'` for zero).
pub open spec fn spec_digits(n: nat) -> Seq<char>
    decreases n,
{
    if n < 10 {
        seq![spec_digit_char(n)]
    } else {
        spec_digits(n / 10) + seq![spec_digit_char(n % 10)]
    }
}

/// The decimal digit string of `n`, left-padded with `'0'` to at
/// least two digits.
pub open spec fn spec_pad2(n: nat) -> Seq<char> {
    if n < 10 {
        seq!['0', spec_digit_char(n)]
    } else {
        spec_digits(n)
    }
}

/// The fraction part for an amount of `f` hundredths past the decimal
/// point (`f < 100`): the shortest digit string, at least one digit.
pub open spec fn spec_fixed2_frac(f: nat) -> Seq<char> {
    if f % 10 == 0 {
        seq![spec_digit_char(f / 10)]
    } else {
        seq![spec_digit_char(f / 10), spec_digit_char(f % 10)]
    }
}

/// The decimal rendering of a non-negative amount of `m` hundredths.
pub open spec fn spec_fixed2_nat(m: nat) -> Seq<char> {
    spec_digits(m / 100) + seq!['.'] + spec_fixed2_frac(m % 100)
}

/// The decimal rendering of an amount of `n` hundredths, signed.
pub open spec fn spec_fixed2(n: int) -> Seq<char> {
    if n < 0 {
        seq!['-'] + spec_fixed2_nat((-n) as nat)
    } else {
        spec_fixed2_nat(n as nat)
    }
}

/// One character of JSON string content, escaped as a JSON serializer
/// escapes it: quote and backslash get a backslash, the named control
/// characters their short escape, other control characters a
/// `\u00XX` escape; everything else stands for itself.
pub open spec fn spec_escape_char(c: char) -> Seq<char> {
    if c == '"' {
        seq!['\\', '"']
    } else if c == '\\' {
        seq!['\\', '\\']
    } else if c == '\u{8}' {
        seq!['\\', 'b']
    } else if c == '\t' {
        seq!['\\', 't']
    } else if c == '\n' {
        seq!['\\', 'n']
    } else if c == '\u{c}' {
        seq!['\\', 'f']
    } else if c == '\r' {
        seq!['\\', 'r']
    } else if (c as u32) < 0x20 {
        seq!['\\', 'u', '0', '0', spec_hex_char((c as u32) as nat / 16), spec_hex_char((c as u32) as nat % 16)]
    } else {
        seq![c]
    }
}

/// A character sequence escaped for use as JSON string content.
pub open spec fn spec_escape(s: Seq<char>) -> Seq<char>
    decreases s.len(),
{
    if s.len() == 0 {
        Seq::empty()
    } else {
        spec_escape(s.drop_last()) + spec_escape_char(s.last())
    }
}

/// Relies on String::push: appends exactly one character.
#[verifier::external_body]
pub fn push_char(out: &mut String, c: char)
    ensures
        final(out)@ == old(out)@ + seq![c],
{
    out.push(c)
}

/// The character for the decimal digit `d`.
pub fn digit_char(d: u8) -> (c: char)
    requires
        d < 10,
    ensures
        c == spec_digit_char(d as nat),
{
    match d {
        0 => '0',
        1 => '1',
        2 => '2',
        3 => '3',
        4 => '4',
        5 => '5',
        6 => '6',
        7 => '7',
        8 => '8',
        _ => '9',
    }
}

/// The character for the hexadecimal digit `d`, lower case.
pub fn hex_char(d: u8) -> (c: char)
    requires
        d < 16,
    ensures
        c == spec_hex_char(d as nat),
{
    if d < 10 {
        digit_char(d)
    } else {
        match d {
            10 => 'a',
            11 => 'b',
            12 => 'c',
            13 => 'd',
            14 => 'e',
            _ => 'f',
        }
    }
}

/// Appends the decimal digit string of `n` to `out`.
pub fn append_digits(out: &mut String, n: u64)
    ensures
        final(out)@ == old(out)@ + spec_digits(n as nat),
    decreases n,
{
    if n < 10 {
        push_char(out, digit_char(n as u8));
    } else {
        append_digits(out, n / 10);
        push_char(out, digit_char((n % 10) as u8));
        proof {
            assert(final(out)@ =~= old(out)@ + spec_digits(n as nat));
        }
    }
}

/// Appends the decimal digit string of `n`, left-padded with `'0'` to
/// at least two digits.
pub fn append_pad2(out: &mut String, n: u8)
    ensures
        final(out)@ == old(out)@ + spec_pad2(n as nat),
{
    if n < 10 {
        push_char(out, '0');
        push_char(out, digit_char(n));
        proof {
            assert(final(out)@ =~= old(out)@ + spec_pad2(n as nat));
        }
    } else {
        append_digits(out, n as u64);
    }
}

/// Appends the decimal rendering of an amount of `n` hundredths.
pub fn append_fixed2(out: &mut String, n: i64)
    requires
        n != i64::MIN,
    ensures
        final(out)@ == old(out)@ + spec_fixed2(n as int),
{
    let m: u64 = if n < 0 {
        push_char(out, '-');
        (-n) as u64
    } else {
        n as u64
    };
    append_digits(out, m / 100);
    push_char(out, '.');
    let f: u8 = (m % 100) as u8;
    push_char(out, digit_char(f / 10));
    if f % 10 != 0 {
        push_char(out, digit_char(f % 10));
    }
    proof {
        assert(final(out)@ =~= old(out)@ + spec_fixed2(n as int));
    }
}

/// Appends `s`, escaped for use as JSON string content.
pub fn append_escaped(out: &mut String, s: &str)
    ensures
        final(out)@ == old(out)@ + spec_escape(s@),
{
    let ghost start: Seq<char> = out@;
    let len = s.unicode_len();
    let mut i: usize = 0;
    while i < len
        invariant
            len == s@.len(),
            i <= len,
            out@ == start + spec_escape(s@.subrange(0, i as int)),
        decreases len - i,
    {
        let c = s.get_char(i);
        if c == '"' {
            push_char(out, '\\');
            push_char(out, '"');
        } else if c == '\\' {
            push_char(out, '\\');
            push_char(out, '\\');
        } else if c == '\u{8}' {
            push_char(out, '\\');
            push_char(out, 'b');
        } else if c == '\t' {
            push_char(out, '\\');
            push_char(out, 't');
        } else if c == '\n' {
            push_char(out, '\\');
            push_char(out, 'n');
        } else if c == '\u{c}' {
            push_char(out, '\\');
            push_char(out, 'f');
        } else if c == '\r' {
            push_char(out, '\\');
            push_char(out, 'r');
        } else if (c as u32) < 0x20 {
            let code = c as u32;
            push_char(out, '\\');
            push_char(out, 'u');
            push_char(out, '0');
            push_char(out, '0');
            push_char(out, hex_char((code / 16) as u8));
            push_char(out, hex_char((code % 16) as u8));
        } else {
            push_char(out, c);
        }
        proof {
            let pre = s@.subrange(0, i as int);
            let post = s@.subrange(0, i + 1);
            assert(post.drop_last() =~= pre);
            assert(post.last() == s@[i as int]);
            assert(out@ =~= start + spec_escape(post));
        }
        i += 1;
    }
    proof {
        assert(s@.subrange(0, len as int) =~= s@);
    }
}

/// Character-wise equality of two string slices: `true` exactly when
/// their character sequences agree.
pub fn str_eq(a: &str, b: &str) -> (r: bool)
    ensures
        r == (a@ == b@),
{
    let a_len = a.unicode_len();
    let b_len = b.unicode_len();
    if a_len != b_len {
        proof {
            assert(a@ != b@);
        }
        return false;
    }
    let mut i: usize = 0;
    while i < a_len
        invariant
            a_len == a@.len(),
            b_len == b@.len(),
            a_len == b_len,
            i <= a_len,
            forall|k: int| 0 <= k < i ==> a@[k] == b@[k],
        decreases a_len - i,
    {
        if a.get_char(i) != b.get_char(i) {
            proof {
                assert(a@ != b@);
            }
            return false;
        }
        i += 1;
    }
    proof {
        assert(a@ =~= b@);
    }
    true
}

/// Builds a fresh `String` from a string slice.
pub fn string_of(s: &str) -> (r: String)
    ensures
        r@ == s@,
{
    String::from_str(s)
}

} // verus!
