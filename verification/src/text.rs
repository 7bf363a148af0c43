//! Decimal digits and other plain-text building blocks that the formats of
//! this crate share.

use vstd::prelude::*;

verus! {

/// Trusted: `String::push` of the standard library. It appends the one
/// character to the end of the string and changes nothing else.
pub assume_specification[ String::push ](s: &mut String, c: char)
    ensures
        final(s)@ == old(s)@.push(c),
;

/// `c` is one of `'0'` to `'9'`.
pub open spec fn is_digit(c: char) -> bool {
    '0' <= c <= '9'
}

/// The number that the digit `c` stands for.
pub open spec fn digit_value(c: char) -> int {
    c as int - 48
}

/// The digit that stands for `d`, which is meant to be below ten.
pub open spec fn digit_char(d: int) -> char {
    (d + 48) as char
}

/// `n` written with exactly two digits.
pub open spec fn two_digits(n: int) -> Seq<char> {
    seq![digit_char(n / 10), digit_char(n % 10)]
}

/// `n` written with exactly four digits.
pub open spec fn four_digits(n: int) -> Seq<char> {
    two_digits(n / 100) + two_digits(n % 100)
}

/// The `width` characters of `s` from `at` on are all digits.
pub open spec fn digits_at(s: Seq<char>, at: int, width: int) -> bool {
    forall|i: int| at <= i < at + width ==> is_digit(#[trigger] s[i])
}

/// The number written by the two digits of `s` at `at`.
pub open spec fn number2(s: Seq<char>, at: int) -> int {
    digit_value(s[at]) * 10 + digit_value(s[at + 1])
}

/// The number written by the four digits of `s` at `at`.
pub open spec fn number4(s: Seq<char>, at: int) -> int {
    number2(s, at) * 100 + number2(s, at + 2)
}

/// `n` in decimal, without sign or leading zeros.
pub open spec fn decimal_text(n: nat) -> Seq<char>
    decreases n,
{
    if n < 10 {
        seq![digit_char(n as int)]
    } else {
        decimal_text(n / 10).push(digit_char((n % 10) as int))
    }
}

/// `s` with every space turned into an underscore.
pub open spec fn underscored(s: Seq<char>) -> Seq<char> {
    s.map_values(|c: char| if c == ' ' { '_' } else { c })
}

/// The pieces of `parts`, each but the last followed by `separator`.
pub open spec fn joined(parts: Seq<Seq<char>>, separator: Seq<char>) -> Seq<char>
    decreases parts.len(),
{
    if parts.len() == 0 {
        Seq::empty()
    } else if parts.len() == 1 {
        parts[0]
    } else {
        joined(parts.drop_last(), separator) + separator + parts.last()
    }
}

/// Two digits written and read again are the number they were.
pub proof fn lemma_two_digits(n: int)
    requires
        0 <= n < 100,
    ensures
        two_digits(n).len() == 2,
        digits_at(two_digits(n), 0, 2),
        number2(two_digits(n), 0) == n,
{
    assert(0 <= n / 10 < 10 && 0 <= n % 10 < 10);
    assert(is_digit(two_digits(n)[0]) && is_digit(two_digits(n)[1]));
}

/// Four digits written and read again are the number they were.
pub proof fn lemma_four_digits(n: int)
    requires
        0 <= n < 10000,
    ensures
        four_digits(n).len() == 4,
        digits_at(four_digits(n), 0, 4),
        number4(four_digits(n), 0) == n,
{
    let high = two_digits(n / 100);
    let low = two_digits(n % 100);
    let all = four_digits(n);
    lemma_two_digits(n / 100);
    lemma_two_digits(n % 100);
    assert(all[0] == high[0] && all[1] == high[1] && all[2] == low[0] && all[3] == low[1]);
    assert(is_digit(high[0]) && is_digit(high[1]) && is_digit(low[0]) && is_digit(low[1]));
    assert(number2(all, 0) == number2(high, 0));
    assert(number2(all, 2) == number2(low, 0));
}

/// Whether two texts hold the same characters.
pub fn same_text(a: &str, b: &str) -> (same: bool)
    ensures
        same == (a@ == b@),
{
    a.to_owned() == b.to_owned()
}

/// Appends the digit for `d`.
pub(crate) fn push_digit(out: &mut String, d: u32)
    requires
        d < 10,
    ensures
        final(out)@ == old(out)@.push(digit_char(d as int)),
{
    let code: u8 = (d + 48) as u8;
    out.push(code as char);
}

/// Appends `n` as two digits.
pub(crate) fn push_two_digits(out: &mut String, n: u32)
    requires
        n < 100,
    ensures
        final(out)@ == old(out)@ + two_digits(n as int),
{
    push_digit(out, n / 10);
    push_digit(out, n % 10);
    assert(out@ =~= old(out)@ + two_digits(n as int));
}

/// Appends `n` as four digits.
pub(crate) fn push_four_digits(out: &mut String, n: u32)
    requires
        n < 10000,
    ensures
        final(out)@ == old(out)@ + four_digits(n as int),
{
    push_two_digits(out, n / 100);
    push_two_digits(out, n % 100);
    assert(out@ =~= old(out)@ + four_digits(n as int));
}

/// Appends `n` in decimal.
pub fn push_decimal(out: &mut String, n: u64)
    ensures
        final(out)@ == old(out)@ + decimal_text(n as nat),
    decreases n,
{
    if n < 10 {
        push_digit(out, n as u32);
        assert(out@ =~= old(out)@ + decimal_text(n as nat));
    } else {
        push_decimal(out, n / 10);
        push_digit(out, (n % 10) as u32);
        assert(out@ =~= old(out)@ + decimal_text(n as nat));
    }
}

/// The value of the digit `c`, or `None` where `c` is no digit.
pub fn read_digit(c: char) -> (d: Option<u32>)
    ensures
        d is Some <==> is_digit(c),
        d is Some ==> d.unwrap() == digit_value(c),
{
    if '0' <= c && c <= '9' {
        Some(c as u32 - 48)
    } else {
        None
    }
}

/// Reads the two digits of `text` at `at`.
pub(crate) fn read_two_digits(text: &str, at: usize) -> (n: Option<u32>)
    requires
        at + 2 <= text@.len() <= usize::MAX,
    ensures
        n is Some <==> digits_at(text@, at as int, 2),
        n is Some ==> n.unwrap() == number2(text@, at as int),
{
    let tens = read_digit(text.get_char(at));
    let ones = read_digit(text.get_char(at + 1));
    match (tens, ones) {
        (Some(t), Some(o)) => Some(t * 10 + o),
        _ => {
            assert(!is_digit(text@[at as int]) || !is_digit(text@[at + 1]));
            None
        },
    }
}

/// Reads the four digits of `text` at `at`.
pub(crate) fn read_four_digits(text: &str, at: usize) -> (n: Option<u32>)
    requires
        at + 4 <= text@.len() <= usize::MAX,
    ensures
        n is Some <==> digits_at(text@, at as int, 4),
        n is Some ==> n.unwrap() == number4(text@, at as int),
{
    let high = read_two_digits(text, at);
    let low = read_two_digits(text, at + 2);
    match (high, low) {
        (Some(h), Some(l)) => {
            assert(digits_at(text@, at as int, 4)) by {
                assert forall|i: int| at <= i < at + 4 implies is_digit(#[trigger] text@[i]) by {
                    if i < at + 2 {
                        assert(digits_at(text@, at as int, 2));
                    } else {
                        assert(digits_at(text@, at + 2, 2));
                    }
                }
            }
            Some(h * 100 + l)
        },
        _ => {
            proof {
                if digits_at(text@, at as int, 4) {
                    assert(digits_at(text@, at as int, 2));
                    assert(digits_at(text@, at + 2, 2));
                }
            }
            None
        },
    }
}

/// A copy of `name` in which every space has become an underscore.
pub fn replace_spaces(name: &str) -> (out: String)
    ensures
        out@ == underscored(name@),
{
    let mut out = String::new();
    for c in iter: name.chars()
        invariant
            iter.seq() == name@,
            out@ == underscored(name@.take(iter.index() as int)),
    {
        if c == ' ' {
            out.push('_');
        } else {
            out.push(c);
        }
        assert(out@ =~= underscored(name@.take(iter.index() + 1)));
    }
    assert(name@.take(name@.len() as int) =~= name@);
    out
}

} // verus!
