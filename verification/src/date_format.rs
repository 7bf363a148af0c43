//! Days as text: `YYYY-MM-DD`, four year digits, two month digits, two day
//! digits, and nothing else.

use crate::calendar::{civil_of, CivilDate, Date};
use crate::error::ParseError;
use crate::text::{
    digits_at, four_digits, lemma_four_digits, lemma_two_digits, number2, number4,
    push_four_digits, push_two_digits, read_four_digits, read_two_digits, two_digits,
};
use vstd::prelude::*;

verus! {

/// The length of a day's text.
pub const DATE_WIDTH: usize = 10;

/// The ten characters of `s` from `at` on have the digits and hyphens of a
/// day's text.
pub open spec fn date_at(s: Seq<char>, at: int) -> bool {
    &&& 0 <= at
    &&& at + 10 <= s.len()
    &&& digits_at(s, at, 4)
    &&& s[at + 4] == '-'
    &&& digits_at(s, at + 5, 2)
    &&& s[at + 7] == '-'
    &&& digits_at(s, at + 8, 2)
}

/// The numbers that the ten characters of `s` from `at` on write.
pub open spec fn written_at(s: Seq<char>, at: int) -> CivilDate {
    CivilDate {
        year: number4(s, at) as i32,
        month: number2(s, at + 5) as u32,
        day: number2(s, at + 8) as u32,
    }
}

/// `s` is `YYYY-MM-DD` for some digits.
pub open spec fn is_date_text(s: Seq<char>) -> bool {
    s.len() == 10 && date_at(s, 0)
}

/// The text of the numbers in `civil`.
pub open spec fn date_text(civil: CivilDate) -> Seq<char> {
    four_digits(civil.year as int) + seq!['-'] + two_digits(civil.month as int) + seq!['-']
        + two_digits(civil.day as int)
}

/// `s` is the text of the day `date`.
pub open spec fn spells(s: Seq<char>, date: Date) -> bool {
    is_date_text(s) && Date::of_civil(written_at(s, 0)) == Some(date)
}

/// What reading `s` as a day gives.
pub open spec fn parsed(s: Seq<char>) -> Result<Date, ParseError> {
    if !is_date_text(s) {
        Err(ParseError::Malformed)
    } else {
        match Date::of_civil(written_at(s, 0)) {
            Some(date) => Ok(date),
            None => Err(ParseError::OutOfRange),
        }
    }
}

/// Wherever the text of `civil` stands in `s`, it has the shape of a day's
/// text and writes the numbers of `civil`.
pub proof fn lemma_date_text_at(s: Seq<char>, at: int, civil: CivilDate)
    requires
        civil.fits_digits(),
        0 <= at,
        at + 10 <= s.len(),
        s.subrange(at, at + 10) == date_text(civil),
    ensures
        date_at(s, at),
        written_at(s, at) == civil,
{
    let t = date_text(civil);
    lemma_four_digits(civil.year as int);
    lemma_two_digits(civil.month as int);
    lemma_two_digits(civil.day as int);
    assert forall|i: int| 0 <= i < 10 implies s[at + i] == #[trigger] t[i] by {
        assert(s.subrange(at, at + 10)[i] == s[at + i]);
    }
    assert(t[0] == four_digits(civil.year as int)[0]);
    assert(t[1] == four_digits(civil.year as int)[1]);
    assert(t[2] == four_digits(civil.year as int)[2]);
    assert(t[3] == four_digits(civil.year as int)[3]);
    assert(t[4] == '-');
    assert(t[5] == two_digits(civil.month as int)[0]);
    assert(t[6] == two_digits(civil.month as int)[1]);
    assert(t[7] == '-');
    assert(t[8] == two_digits(civil.day as int)[0]);
    assert(t[9] == two_digits(civil.day as int)[1]);
    assert(digits_at(s, at, 4)) by {
        assert forall|i: int| at <= i < at + 4 implies crate::text::is_digit(#[trigger] s[i]) by {
            assert(s[i] == t[i - at]);
            assert(digits_at(four_digits(civil.year as int), 0, 4));
        }
    }
    assert(digits_at(s, at + 5, 2)) by {
        assert forall|i: int| at + 5 <= i < at + 7 implies crate::text::is_digit(
            #[trigger] s[i],
        ) by {
            assert(s[i] == t[i - at]);
            assert(digits_at(two_digits(civil.month as int), 0, 2));
        }
    }
    assert(digits_at(s, at + 8, 2)) by {
        assert forall|i: int| at + 8 <= i < at + 10 implies crate::text::is_digit(
            #[trigger] s[i],
        ) by {
            assert(s[i] == t[i - at]);
            assert(digits_at(two_digits(civil.day as int), 0, 2));
        }
    }
    assert(s[at] == t[0] && s[at + 1] == t[1] && s[at + 2] == t[2] && s[at + 3] == t[3]);
    assert(s[at + 5] == t[5] && s[at + 6] == t[6] && s[at + 8] == t[8] && s[at + 9] == t[9]);
    assert(s[at + 4] == t[4] && s[at + 7] == t[7]);
}

/// Reading back what [`serialize`] wrote gives the day that was written.
pub proof fn lemma_round_trip(s: Seq<char>, date: Date)
    requires
        spells(s, date),
    ensures
        parsed(s) == Ok::<Date, ParseError>(date),
{
}

/// Appends the text of `civil`.
pub(crate) fn append_date(out: &mut String, civil: CivilDate)
    requires
        civil.fits_digits(),
    ensures
        final(out)@ == old(out)@ + date_text(civil),
{
    push_four_digits(out, civil.year as u32);
    out.push('-');
    push_two_digits(out, civil.month);
    out.push('-');
    push_two_digits(out, civil.day);
    assert(out@ =~= old(out)@ + date_text(civil));
}

/// Reads the ten characters of `text` from `at` on as the numbers of a day.
pub(crate) fn read_date_at(text: &str, at: usize) -> (civil: Option<CivilDate>)
    requires
        at + 10 <= text@.len() <= usize::MAX,
    ensures
        civil is Some <==> date_at(text@, at as int),
        civil is Some ==> civil.unwrap() == written_at(text@, at as int),
{
    let year = read_four_digits(text, at);
    let first = text.get_char(at + 4);
    let month = read_two_digits(text, at + 5);
    let second = text.get_char(at + 7);
    let day = read_two_digits(text, at + 8);
    match (year, month, day) {
        (Some(y), Some(m), Some(d)) => {
            if first == '-' && second == '-' {
                Some(CivilDate { year: y as i32, month: m, day: d })
            } else {
                None
            }
        },
        _ => None,
    }
}

/// The text of the numbers in `civil`, where each fits its digits.
pub fn write_fields(civil: CivilDate) -> (text: Option<String>)
    ensures
        text is Some <==> civil.fits_digits(),
        text is Some ==> text.unwrap()@ == date_text(civil),
{
    if 0 <= civil.year && civil.year <= 9999 && civil.month <= 99 && civil.day <= 99 {
        let mut out = String::new();
        append_date(&mut out, civil);
        Some(out)
    } else {
        None
    }
}

/// The numbers that `text` writes, where it is `YYYY-MM-DD`.
pub fn read_fields(text: &str) -> (civil: Option<CivilDate>)
    ensures
        civil is Some <==> is_date_text(text@),
        civil is Some ==> civil.unwrap() == written_at(text@, 0),
{
    if text.unicode_len() != DATE_WIDTH {
        None
    } else {
        read_date_at(text, 0)
    }
}

/// The text of `date`: the digits of its year, month and day.
pub fn serialize(date: &Date) -> (text: String)
    ensures
        text@ == date_text(civil_of(date@)),
        spells(text@, *date),
{
    let civil = date.civil();
    let mut out = String::new();
    append_date(&mut out, civil);
    proof {
        assert(out@ =~= date_text(civil));
        assert(out@.subrange(0, 10) =~= out@);
        lemma_date_text_at(out@, 0, civil);
    }
    out
}

/// The day that `text` writes.
pub fn deserialize(text: &str) -> (date: Result<Date, ParseError>)
    ensures
        date == parsed(text@),
        date is Ok ==> date.unwrap().wf(),
{
    match read_fields(text) {
        None => Err(ParseError::Malformed),
        Some(civil) => match Date::from_civil(civil) {
            Some(date) => Ok(date),
            None => Err(ParseError::OutOfRange),
        },
    }
}

} // verus!
