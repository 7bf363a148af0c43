//! Timestamps as text: `YYYY-MM-DD HH:MM:SS`, the day's ten characters, one
//! space, and two digits each for hour, minute and second.

use crate::calendar::{civil_of, CivilDate, CivilTime, Date, Timestamp};
use crate::date_format::{append_date, date_at, date_text, lemma_date_text_at, read_date_at, written_at};
use crate::error::ParseError;
use crate::text::{
    digits_at, is_digit, lemma_two_digits, number2, push_two_digits, read_two_digits, two_digits,
};
use vstd::prelude::*;

verus! {

/// The length of a timestamp's text.
pub const TIMESTAMP_WIDTH: usize = 19;

/// Where the time of day starts in a timestamp's text.
pub const TIME_OFFSET: usize = 11;

/// The eight characters of `s` from `at` on have the digits and colons of a
/// time of day.
pub open spec fn time_at(s: Seq<char>, at: int) -> bool {
    &&& 0 <= at
    &&& at + 8 <= s.len()
    &&& digits_at(s, at, 2)
    &&& s[at + 2] == ':'
    &&& digits_at(s, at + 3, 2)
    &&& s[at + 5] == ':'
    &&& digits_at(s, at + 6, 2)
}

/// The numbers that the eight characters of `s` from `at` on write.
pub open spec fn written_time_at(s: Seq<char>, at: int) -> CivilTime {
    CivilTime {
        hour: number2(s, at) as u32,
        minute: number2(s, at + 3) as u32,
        second: number2(s, at + 6) as u32,
    }
}

/// The text of the numbers in `time`.
pub open spec fn time_text(time: CivilTime) -> Seq<char> {
    two_digits(time.hour as int) + seq![':'] + two_digits(time.minute as int) + seq![':']
        + two_digits(time.second as int)
}

/// `s` is `YYYY-MM-DD HH:MM:SS` for some digits.
pub open spec fn is_timestamp_text(s: Seq<char>) -> bool {
    s.len() == 19 && date_at(s, 0) && s[10] == ' ' && time_at(s, 11)
}

/// The text of the numbers in `civil` and `time`.
pub open spec fn timestamp_text(civil: CivilDate, time: CivilTime) -> Seq<char> {
    date_text(civil) + seq![' '] + time_text(time)
}

/// What the numbers written in a timestamp's text stand for.
pub open spec fn stamp_of(civil: CivilDate, time: CivilTime) -> Option<Timestamp> {
    match Date::of_civil(civil) {
        Some(date) => Timestamp::of_parts(date, time),
        None => None,
    }
}

/// `s` is the text of `stamp`.
pub open spec fn spells(s: Seq<char>, stamp: Timestamp) -> bool {
    is_timestamp_text(s) && stamp_of(written_at(s, 0), written_time_at(s, 11)) == Some(stamp)
}

/// What reading `s` as a timestamp gives.
pub open spec fn parsed(s: Seq<char>) -> Result<Timestamp, ParseError> {
    if !is_timestamp_text(s) {
        Err(ParseError::Malformed)
    } else {
        match stamp_of(written_at(s, 0), written_time_at(s, 11)) {
            Some(stamp) => Ok(stamp),
            None => Err(ParseError::OutOfRange),
        }
    }
}

/// Wherever the text of `time` stands in `s`, it has the shape of a time of
/// day and writes the numbers of `time`.
pub proof fn lemma_time_text_at(s: Seq<char>, at: int, time: CivilTime)
    requires
        time.hour <= 99,
        time.minute <= 99,
        time.second <= 99,
        0 <= at,
        at + 8 <= s.len(),
        s.subrange(at, at + 8) == time_text(time),
    ensures
        time_at(s, at),
        written_time_at(s, at) == time,
{
    let t = time_text(time);
    lemma_two_digits(time.hour as int);
    lemma_two_digits(time.minute as int);
    lemma_two_digits(time.second as int);
    assert forall|i: int| 0 <= i < 8 implies s[at + i] == #[trigger] t[i] by {
        assert(s.subrange(at, at + 8)[i] == s[at + i]);
    }
    assert(t[0] == two_digits(time.hour as int)[0]);
    assert(t[1] == two_digits(time.hour as int)[1]);
    assert(t[2] == ':');
    assert(t[3] == two_digits(time.minute as int)[0]);
    assert(t[4] == two_digits(time.minute as int)[1]);
    assert(t[5] == ':');
    assert(t[6] == two_digits(time.second as int)[0]);
    assert(t[7] == two_digits(time.second as int)[1]);
    assert(digits_at(s, at, 2)) by {
        assert forall|i: int| at <= i < at + 2 implies is_digit(#[trigger] s[i]) by {
            assert(s[i] == t[i - at]);
            assert(digits_at(two_digits(time.hour as int), 0, 2));
        }
    }
    assert(digits_at(s, at + 3, 2)) by {
        assert forall|i: int| at + 3 <= i < at + 5 implies is_digit(#[trigger] s[i]) by {
            assert(s[i] == t[i - at]);
            assert(digits_at(two_digits(time.minute as int), 0, 2));
        }
    }
    assert(digits_at(s, at + 6, 2)) by {
        assert forall|i: int| at + 6 <= i < at + 8 implies is_digit(#[trigger] s[i]) by {
            assert(s[i] == t[i - at]);
            assert(digits_at(two_digits(time.second as int), 0, 2));
        }
    }
    assert(s[at] == t[0] && s[at + 1] == t[1] && s[at + 3] == t[3] && s[at + 4] == t[4]);
    assert(s[at + 6] == t[6] && s[at + 7] == t[7] && s[at + 2] == t[2] && s[at + 5] == t[5]);
}

/// Reading back what [`serialize`] wrote gives the timestamp that was
/// written.
pub proof fn lemma_round_trip(s: Seq<char>, stamp: Timestamp)
    requires
        spells(s, stamp),
    ensures
        parsed(s) == Ok::<Timestamp, ParseError>(stamp),
{
}

/// Appends the text of `time`.
pub(crate) fn append_time(out: &mut String, time: CivilTime)
    requires
        time.hour <= 99,
        time.minute <= 99,
        time.second <= 99,
    ensures
        final(out)@ == old(out)@ + time_text(time),
{
    push_two_digits(out, time.hour);
    out.push(':');
    push_two_digits(out, time.minute);
    out.push(':');
    push_two_digits(out, time.second);
    assert(out@ =~= old(out)@ + time_text(time));
}

/// Reads the eight characters of `text` from `at` on as the numbers of a
/// time of day.
pub(crate) fn read_time_at(text: &str, at: usize) -> (time: Option<CivilTime>)
    requires
        at + 8 <= text@.len() <= usize::MAX,
    ensures
        time is Some <==> time_at(text@, at as int),
        time is Some ==> time.unwrap() == written_time_at(text@, at as int),
{
    let hour = read_two_digits(text, at);
    let first = text.get_char(at + 2);
    let minute = read_two_digits(text, at + 3);
    let second_colon = text.get_char(at + 5);
    let second = read_two_digits(text, at + 6);
    match (hour, minute, second) {
        (Some(h), Some(m), Some(s)) => {
            if first == ':' && second_colon == ':' {
                Some(CivilTime { hour: h, minute: m, second: s })
            } else {
                None
            }
        },
        _ => None,
    }
}

/// The text of the numbers in `civil` and `time`, where each fits its
/// digits.
pub fn write_fields(civil: CivilDate, time: CivilTime) -> (text: Option<String>)
    ensures
        text is Some <==> civil.fits_digits() && time.hour <= 99 && time.minute <= 99
            && time.second <= 99,
        text is Some ==> text.unwrap()@ == timestamp_text(civil, time),
{
    if 0 <= civil.year && civil.year <= 9999 && civil.month <= 99 && civil.day <= 99 && time.hour
        <= 99 && time.minute <= 99 && time.second <= 99 {
        let mut out = String::new();
        append_date(&mut out, civil);
        out.push(' ');
        append_time(&mut out, time);
        assert(out@ =~= timestamp_text(civil, time));
        Some(out)
    } else {
        None
    }
}

/// The numbers that `text` writes, where it is `YYYY-MM-DD HH:MM:SS`.
pub fn read_fields(text: &str) -> (fields: Option<(CivilDate, CivilTime)>)
    ensures
        fields is Some <==> is_timestamp_text(text@),
        fields is Some ==> fields.unwrap().0 == written_at(text@, 0) && fields.unwrap().1
            == written_time_at(text@, 11),
{
    if text.unicode_len() != TIMESTAMP_WIDTH {
        return None;
    }
    let civil = read_date_at(text, 0);
    let space = text.get_char(10);
    let time = read_time_at(text, TIME_OFFSET);
    match (civil, time) {
        (Some(c), Some(t)) => {
            if space == ' ' {
                Some((c, t))
            } else {
                None
            }
        },
        _ => None,
    }
}

/// The text of `stamp`: the digits of its day and of its time of day.
pub fn serialize(stamp: &Timestamp) -> (text: String)
    ensures
        text@ == timestamp_text(civil_of(stamp.day()@), CivilTime::at_second(stamp.seconds())),
        spells(text@, *stamp),
{
    let civil = stamp.date().civil();
    let time = stamp.time();
    let mut out = String::new();
    append_date(&mut out, civil);
    out.push(' ');
    append_time(&mut out, time);
    proof {
        use_type_invariant(stamp);
        stamp.lemma_parts();
        assert(out@ =~= timestamp_text(civil, time));
        assert(out@.subrange(0, 10) =~= date_text(civil));
        assert(out@.subrange(11, 19) =~= time_text(time));
        lemma_date_text_at(out@, 0, civil);
        lemma_time_text_at(out@, 11, time);
    }
    out
}

/// The timestamp that `text` writes.
pub fn deserialize(text: &str) -> (stamp: Result<Timestamp, ParseError>)
    ensures
        stamp == parsed(text@),
        stamp is Ok ==> stamp.unwrap().wf(),
{
    match read_fields(text) {
        None => Err(ParseError::Malformed),
        Some((civil, time)) => match Date::from_civil(civil) {
            None => Err(ParseError::OutOfRange),
            Some(date) => match Timestamp::new(date, time) {
                Some(stamp) => Ok(stamp),
                None => Err(ParseError::OutOfRange),
            },
        },
    }
}

} // verus!
