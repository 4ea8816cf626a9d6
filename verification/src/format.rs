//! Verified text rendering of runtimes and byte counts.
//!
//! Numbers are rendered through an exact decimal-digit model, so the
//! contracts pin down every character of the result.

use vstd::prelude::*;

verus! {

/// The character for one decimal digit.
pub open spec fn digit_char(d: int) -> char {
    if d == 0 {
        '0'
    } else if d == 1 {
        '1'
    } else if d == 2 {
        '2'
    } else if d == 3 {
        '3'
    } else if d == 4 {
        '4'
    } else if d == 5 {
        '5'
    } else if d == 6 {
        '6'
    } else if d == 7 {
        '7'
    } else if d == 8 {
        '8'
    } else {
        '9'
    }
}

/// The decimal digits of a number, most significant first, with no leading
/// zeros except for zero itself.
pub open spec fn dec_digits(n: nat) -> Seq<char>
    decreases n,
{
    if n < 10 {
        seq![digit_char(n as int)]
    } else {
        dec_digits(n / 10) + seq![digit_char((n % 10) as int)]
    }
}

/// Decimal digits padded with one leading zero up to a width of two.
pub open spec fn pad2_digits(n: nat) -> Seq<char> {
    if n < 10 {
        seq!['0'] + dec_digits(n)
    } else {
        dec_digits(n)
    }
}

/// `HH:MM:SS` rendering of a whole number of seconds; the hour field widens
/// beyond two digits as needed.
pub open spec fn runtime_chars(secs: u64) -> Seq<char> {
    pad2_digits((secs / 3600) as nat) + seq![':'] + pad2_digits(((secs / 60) % 60) as nat)
        + seq![':'] + pad2_digits((secs % 60) as nat)
}

/// The whole seconds held by a duration.
pub uninterp spec fn duration_secs(d: core::time::Duration) -> u64;

/// Relies on std's `Duration::as_secs`: the whole seconds of the duration,
/// a function of the duration value alone.
pub assume_specification[ core::time::Duration::as_secs ](d: &core::time::Duration) -> (s: u64)
    ensures
        s == duration_secs(*d),
;

/// Relies on std's `Duration::clone`: a duration is a plain value, and its
/// clone is itself.
pub assume_specification[ <core::time::Duration as Clone>::clone ](d: &core::time::Duration) -> (r: core::time::Duration)
    ensures
        r == *d,
;

/// Relies on std's `String::push`: appends the one character to the string.
pub assume_specification[ String::push ](s: &mut String, ch: char)
    ensures
        final(s)@ == old(s)@.push(ch),
;

/// The digit character, executable.
fn digit_of(d: u64) -> (c: char)
    requires
        d < 10,
    ensures
        c == digit_char(d as int),
{
    match d {
        0 => '0',
        1 => '1',
        2 => '2',
        3 => '3',
        4 => '4',
        5 => '5',
        6 => '6',
        7 => '7',
        8 => '8',
        _ => '9',
    }
}

/// Append the decimal digits of `n` to `s`.
pub(crate) fn push_u64_decimal(s: &mut String, n: u64)
    ensures
        final(s)@ == old(s)@ + dec_digits(n as nat),
    decreases n,
{
    if n < 10 {
        s.push(digit_of(n));
        proof {
            assert(final(s)@ =~= old(s)@ + dec_digits(n as nat));
        }
    } else {
        push_u64_decimal(s, n / 10);
        s.push(digit_of(n % 10));
        proof {
            assert(final(s)@ =~= old(s)@ + dec_digits(n as nat));
        }
    }
}

/// The decimal rendering of a number.
pub fn u64_to_string(n: u64) -> (s: String)
    ensures
        s@ == dec_digits(n as nat),
{
    let mut s = String::new();
    push_u64_decimal(&mut s, n);
    proof {
        assert(s@ =~= dec_digits(n as nat));
    }
    s
}

/// Append the decimal digits of `n`, padded to at least two with a leading
/// zero.
fn push_pad2(s: &mut String, n: u64)
    ensures
        final(s)@ == old(s)@ + pad2_digits(n as nat),
{
    if n < 10 {
        s.push('0');
    }
    push_u64_decimal(s, n);
    proof {
        assert(final(s)@ =~= old(s)@ + pad2_digits(n as nat));
    }
}

/// Render an elapsed duration as `HH:MM:SS`; the hour field widens beyond
/// two digits as needed.
pub fn format_runtime(elapsed: std::time::Duration) -> (r: String)
    ensures
        r@ == runtime_chars(duration_secs(elapsed)),
{
    let secs = elapsed.as_secs();
    let mins = secs / 60;
    let hours = mins / 60;
    let mut r = String::new();
    push_pad2(&mut r, hours);
    r.push(':');
    push_pad2(&mut r, mins % 60);
    r.push(':');
    push_pad2(&mut r, secs % 60);
    proof {
        assert(secs / 60 / 60 == secs / 3600) by (nonlinear_arith);
        assert(r@ =~= runtime_chars(secs));
    }
    r
}

/// The unit scale for a byte count: the largest power of 1024 it reaches,
/// capped at the terabyte scale.
pub open spec fn byte_unit_index(b: nat) -> int {
    if b < 1024 {
        0
    } else if b < 0x100000 {
        1
    } else if b < 0x40000000 {
        2
    } else if b < 0x10000000000 {
        3
    } else {
        4
    }
}

/// 1024 raised to the unit index.
pub open spec fn pow1024(k: int) -> nat {
    if k <= 0 {
        1
    } else if k == 1 {
        1024
    } else if k == 2 {
        0x100000
    } else if k == 3 {
        0x40000000
    } else {
        0x10000000000
    }
}

/// The unit suffix for a scale.
pub open spec fn byte_unit_chars(k: int) -> Seq<char> {
    if k == 0 {
        seq!['B']
    } else if k == 1 {
        seq!['K', 'B']
    } else if k == 2 {
        seq!['M', 'B']
    } else if k == 3 {
        seq!['G', 'B']
    } else {
        seq!['T', 'B']
    }
}

/// A non-negative fraction rounded to the nearest integer, an exact tie
/// going to the even neighbour.
pub open spec fn round_half_even(num: int, den: int) -> int {
    let q = num / den;
    let r = num % den;
    if 2 * r > den {
        q + 1
    } else if 2 * r < den {
        q
    } else if q % 2 == 0 {
        q
    } else {
        q + 1
    }
}

/// The byte count scaled to its unit, in tenths, rounded to nearest with
/// ties to even.
pub open spec fn byte_tenths(b: nat) -> int {
    round_half_even(10 * (b as int), pow1024(byte_unit_index(b)) as int)
}

/// The rendering of a byte count: the scaled value with one decimal digit,
/// followed by the unit suffix.
pub open spec fn bytes_chars(b: nat) -> Seq<char> {
    dec_digits((byte_tenths(b) / 10) as nat) + seq!['.'] + seq![digit_char(byte_tenths(b) % 10)]
        + byte_unit_chars(byte_unit_index(b))
}

/// Render a byte count with one decimal digit and a unit from bytes up to
/// terabytes, the value rounded to nearest at the chosen unit with ties to
/// even.
pub fn format_bytes(bytes: u64) -> (r: String)
    ensures
        r@ == bytes_chars(bytes as nat),
{
    let (pow, unit0, unit1): (u64, char, Option<char>) = if bytes < 1024 {
        (1, 'B', None)
    } else if bytes < 0x100000 {
        (1024, 'K', Some('B'))
    } else if bytes < 0x40000000 {
        (0x100000, 'M', Some('B'))
    } else if bytes < 0x10000000000 {
        (0x40000000, 'G', Some('B'))
    } else {
        (0x10000000000, 'T', Some('B'))
    };
    proof {
        assert(pow == pow1024(byte_unit_index(bytes as nat)));
    }
    let num: u128 = 10 * (bytes as u128);
    let q: u128 = num / (pow as u128);
    let r: u128 = num % (pow as u128);
    proof {
        assert((bytes as int) < 1024 * (pow as int) || pow == 0x10000000000);
        assert((num as int) < (pow as int) * 0x8000000000000000) by (nonlinear_arith)
            requires
                num == 10 * (bytes as int),
                pow >= 1,
                bytes <= u64::MAX,
                (bytes as int) < 1024 * (pow as int) || pow == 0x10000000000;
        vstd::arithmetic::div_mod::lemma_multiply_divide_lt(
            num as int,
            pow as int,
            0x8000000000000000,
        );
    }
    let tenths_wide: u128 = if 2 * r > pow as u128 {
        q + 1
    } else if 2 * r < pow as u128 {
        q
    } else if q % 2 == 0 {
        q
    } else {
        q + 1
    };
    proof {
        assert(tenths_wide == byte_tenths(bytes as nat));
    }
    let tenths: u64 = tenths_wide as u64;
    let mut r = u64_to_string(tenths / 10);
    r.push('.');
    r.push(digit_of(tenths % 10));
    r.push(unit0);
    if let Some(u) = unit1 {
        r.push(u);
    }
    proof {
        assert(r@ =~= bytes_chars(bytes as nat));
    }
    r
}

} // verus!
