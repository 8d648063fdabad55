use vstd::prelude::*;

verus! {

/// The decimal digit `d` as a character.
pub open spec fn digit_char(d: int) -> char {
    seq!['0', '1', '2', '3', '4', '5', '6', '7', '8', '9'][d]
}

/// Decimal digits of a natural number, without leading zeros.
pub open spec fn nat_text(n: nat) -> Seq<char>
    decreases n,
{
    if n < 10 {
        seq![digit_char(n as int)]
    } else {
        nat_text(n / 10).push(digit_char((n % 10) as int))
    }
}

/// Decimal text of an integer, with a leading '-' when negative.
pub open spec fn int_text(n: int) -> Seq<char> {
    if n < 0 {
        seq!['-'] + nat_text((-n) as nat)
    } else {
        nat_text(n as nat)
    }
}

/// Two decimal digits, with a leading zero below ten.
pub open spec fn two_digits(n: nat) -> Seq<char> {
    if n < 10 {
        seq!['0'] + nat_text(n)
    } else {
        nat_text(n)
    }
}

/// A value kept in hundredths, written with exactly two decimals
/// (`1234` reads "12.34").
pub open spec fn hundredths_fixed_text(n: int) -> Seq<char> {
    let m: nat = if n < 0 { (-n) as nat } else { n as nat };
    let sign = if n < 0 { seq!['-'] } else { Seq::<char>::empty() };
    sign + nat_text(m / 100) + seq!['.'] + two_digits(m % 100)
}

/// A value kept in hundredths, written as a plain number: no decimals when
/// whole, and no trailing zero (`550` reads "5.5", `500` reads "5").
pub open spec fn hundredths_text(n: int) -> Seq<char> {
    let m: nat = if n < 0 { (-n) as nat } else { n as nat };
    let sign = if n < 0 { seq!['-'] } else { Seq::<char>::empty() };
    let frac: nat = m % 100;
    let tail = if frac == 0 {
        Seq::<char>::empty()
    } else if frac % 10 == 0 {
        seq!['.', digit_char((frac / 10) as int)]
    } else {
        seq!['.'] + two_digits(frac)
    };
    sign + nat_text(m / 100) + tail
}

/// Relies on `String::push`: the character is added at the end.
#[verifier::external_body]
pub(crate) fn push_char(s: &mut String, c: char)
    ensures
        final(s)@ == old(s)@.push(c),
{
    s.push(c)
}

/// The character of a decimal digit.
fn digit(d: u64) -> (c: char)
    requires
        d < 10,
    ensures
        c == digit_char(d as int),
{
    match d {
        0 => '0',
        1 => '1',
        2 => '2',
        3 => '3',
        4 => '4',
        5 => '5',
        6 => '6',
        7 => '7',
        8 => '8',
        _ => '9',
    }
}

/// Appends the decimal digits of `n`.
pub fn push_nat(s: &mut String, n: u64)
    ensures
        final(s)@ == old(s)@ + nat_text(n as nat),
    decreases n,
{
    if n >= 10 {
        push_nat(s, n / 10);
        push_char(s, digit(n % 10));
        assert(final(s)@ =~= old(s)@ + nat_text(n as nat));
    } else {
        push_char(s, digit(n));
        assert(final(s)@ =~= old(s)@ + nat_text(n as nat));
    }
}

/// The magnitude of `n`, which fits in a `u64` for every `i64`.
fn magnitude(n: i64) -> (m: u64)
    ensures
        m as int == if n < 0 { -n } else { n as int },
{
    if n < 0 {
        (-(n as i128)) as u64
    } else {
        n as u64
    }
}

/// Appends the decimal text of `n`.
pub fn push_int(s: &mut String, n: i64)
    ensures
        final(s)@ == old(s)@ + int_text(n as int),
{
    if n < 0 {
        push_char(s, '-');
        push_nat(s, magnitude(n));
        assert(final(s)@ =~= old(s)@ + int_text(n as int));
    } else {
        push_nat(s, n as u64);
    }
}

/// Appends `n` as two digits, padded with a leading zero.
pub fn push_two_digits(s: &mut String, n: u64)
    ensures
        final(s)@ == old(s)@ + two_digits(n as nat),
{
    if n < 10 {
        push_char(s, '0');
        push_nat(s, n);
        assert(final(s)@ =~= old(s)@ + two_digits(n as nat));
    } else {
        push_nat(s, n);
    }
}

/// Appends a hundredths value with exactly two decimals.
pub fn push_hundredths_fixed(s: &mut String, n: i64)
    ensures
        final(s)@ == old(s)@ + hundredths_fixed_text(n as int),
{
    let m = magnitude(n);
    if n < 0 {
        push_char(s, '-');
    }
    push_nat(s, m / 100);
    push_char(s, '.');
    push_two_digits(s, m % 100);
    assert(final(s)@ =~= old(s)@ + hundredths_fixed_text(n as int));
}

/// Appends a hundredths value as a plain number, trailing zeros dropped.
pub fn push_hundredths(s: &mut String, n: i64)
    ensures
        final(s)@ == old(s)@ + hundredths_text(n as int),
{
    let m = magnitude(n);
    if n < 0 {
        push_char(s, '-');
    }
    push_nat(s, m / 100);
    let frac = m % 100;
    if frac != 0 {
        push_char(s, '.');
        if frac % 10 == 0 {
            push_char(s, digit(frac / 10));
        } else {
            push_two_digits(s, frac);
        }
    }
    assert(final(s)@ =~= old(s)@ + hundredths_text(n as int));
}

} // verus!
