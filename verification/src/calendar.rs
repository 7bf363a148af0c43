//! Calendar days and timestamps.
//!
//! A day is held as its number in the proleptic Gregorian calendar, with
//! 0001-01-01 as day 1, so that "the same day" and "the day before" are facts
//! about integers. Which year, month and day a number stands for, and which
//! triples are days at all, is chrono's knowledge: this module asks chrono and
//! never computes a calendar itself.

use chrono::Datelike;
use vstd::prelude::*;

verus! {

/// The number of 0000-01-01, the first day that four year digits can write.
pub const FIRST_DAY: i32 = -365;

/// The number of 9999-12-31, the last day that four year digits can write.
pub const LAST_DAY: i32 = 3_652_059;

/// The seconds in a day; a timestamp never holds a leap second.
pub const SECONDS_PER_DAY: u32 = 86_400;

/// The number of the calendar day `year`-`month`-`day`, as chrono counts it:
/// what `NaiveDate::from_ymd_opt` followed by `Datelike::num_days_from_ce`
/// returns, and `None` where chrono has no such day.
pub uninterp spec fn day_number_of(year: int, month: int, day: int) -> Option<int>;

/// Year, month and day of the day with the number `number`, as chrono reads
/// them: what `NaiveDate::from_num_days_from_ce_opt` returns, seen through
/// `Datelike::year`, `month` and `day`.
pub uninterp spec fn civil_of(number: int) -> CivilDate;

/// A day as the calendar writes it. Any three numbers can stand here; whether
/// they are a day is what [`Date::from_civil`] finds out.
#[derive(Clone, Copy, Debug, PartialEq, Eq, Structural)]
pub struct CivilDate {
    pub year: i32,
    pub month: u32,
    pub day: u32,
}

/// A time of day as the clock writes it.
#[derive(Clone, Copy, Debug, PartialEq, Eq, Structural)]
pub struct CivilTime {
    pub hour: u32,
    pub minute: u32,
    pub second: u32,
}

impl CivilDate {
    /// The number of this day, if it is one.
    pub open spec fn day_number(self) -> Option<int> {
        day_number_of(self.year as int, self.month as int, self.day as int)
    }

    /// Year, month and day each fit the digits that the date format gives them.
    pub open spec fn fits_digits(self) -> bool {
        0 <= self.year <= 9999 && self.month <= 99 && self.day <= 99
    }
}

impl CivilTime {
    /// Hour, minute and second are each within the clock's range.
    pub open spec fn on_clock(self) -> bool {
        self.hour < 24 && self.minute < 60 && self.second < 60
    }

    /// The seconds from midnight to this time.
    pub open spec fn second_of_day(self) -> int {
        self.hour * 3600 + self.minute * 60 + self.second
    }

    /// The time that is `seconds` after midnight.
    pub open spec fn at_second(seconds: int) -> CivilTime {
        CivilTime {
            hour: (seconds / 3600) as u32,
            minute: ((seconds / 60) % 60) as u32,
            second: (seconds % 60) as u32,
        }
    }
}

/// A calendar day between 0000-01-01 and 9999-12-31.
#[derive(Clone, Copy, Debug, PartialEq, Eq, Hash, Structural)]
pub struct Date {
    days: i32,
}

impl View for Date {
    type V = int;

    /// The day's number.
    closed spec fn view(&self) -> int {
        self.days as int
    }
}

/// A second of a calendar day.
#[derive(Clone, Copy, Debug, PartialEq, Eq, Hash, Structural)]
pub struct Timestamp {
    date: Date,
    second_of_day: u32,
}

/// Trusted: `chrono::NaiveDate::from_ymd_opt`, and `Datelike::num_days_from_ce`
/// on the day it returns. The result is that day's number, which is what
/// [`day_number_of`] names; it is `None` exactly where `from_ymd_opt` is.
#[verifier::external_body]
fn chrono_day_number(year: i32, month: u32, day: u32) -> (number: Option<i32>)
    ensures
        match number {
            Some(n) => day_number_of(year as int, month as int, day as int) == Some(n as int),
            None => day_number_of(year as int, month as int, day as int) is None,
        },
{
    match chrono::NaiveDate::from_ymd_opt(year, month, day) {
        Some(date) => Some(date.num_days_from_ce()),
        None => None,
    }
}

/// Trusted: `chrono::NaiveDate::from_num_days_from_ce_opt`, read through
/// `Datelike::year`, `month` and `day`, which is what [`civil_of`] names. For
/// a number from [`FIRST_DAY`] to [`LAST_DAY`] chrono has a day; its year is
/// one of 0 to 9999, its month one of 1 to 12, its day one of 1 to 31; and
/// the three are the calendar day that has this number, so that
/// `from_ymd_opt` leads back to it.
#[verifier::external_body]
fn chrono_civil(number: i32) -> (civil: Option<CivilDate>)
    requires
        FIRST_DAY <= number <= LAST_DAY,
    ensures
        civil == Some(civil_of(number as int)),
        civil.unwrap().day_number() == Some(number as int),
        0 <= civil.unwrap().year <= 9999,
        1 <= civil.unwrap().month <= 12,
        1 <= civil.unwrap().day <= 31,
{
    match chrono::NaiveDate::from_num_days_from_ce_opt(number) {
        Some(date) => Some(CivilDate { year: date.year(), month: date.month(), day: date.day() }),
        None => None,
    }
}

impl Date {
    /// What every `Date` is: a day number from [`FIRST_DAY`] to [`LAST_DAY`].
    #[verifier::type_invariant]
    pub closed spec fn wf(self) -> bool {
        FIRST_DAY <= self.days <= LAST_DAY
    }

    /// The day with the number `n`.
    pub closed spec fn numbered(n: int) -> Date {
        Date { days: n as i32 }
    }

    /// The day that the calendar writes as `civil`, if there is one between
    /// 0000-01-01 and 9999-12-31.
    pub open spec fn of_civil(civil: CivilDate) -> Option<Date> {
        match civil.day_number() {
            Some(n) => if FIRST_DAY <= n <= LAST_DAY {
                Some(Date::numbered(n))
            } else {
                None
            },
            None => None,
        }
    }

    /// The day with the number `n`, or `None` where `n` is out of range.
    pub fn from_day_number(n: i32) -> (date: Option<Date>)
        ensures
            date is Some <==> FIRST_DAY <= n <= LAST_DAY,
            date is Some ==> date.unwrap() == Date::numbered(n as int) && date.unwrap()@ == n
                && date.unwrap().wf(),
    {
        if FIRST_DAY <= n && n <= LAST_DAY {
            Some(Date { days: n })
        } else {
            None
        }
    }

    /// This day's number.
    pub fn day_number(&self) -> (n: i32)
        ensures
            n == self@,
            FIRST_DAY <= n <= LAST_DAY,
            self.wf(),
    {
        proof {
            use_type_invariant(self);
        }
        self.days
    }

    /// The day that the calendar writes as `civil`.
    pub fn from_civil(civil: CivilDate) -> (date: Option<Date>)
        ensures
            date == Date::of_civil(civil),
            date matches Some(d) ==> d.wf() && civil.day_number() == Some(d@),
    {
        match chrono_day_number(civil.year, civil.month, civil.day) {
            Some(n) => Date::from_day_number(n),
            None => None,
        }
    }

    /// The day `year`-`month`-`day`.
    pub fn from_ymd(year: i32, month: u32, day: u32) -> (date: Option<Date>)
        ensures
            date == Date::of_civil(CivilDate { year, month, day }),
            date matches Some(d) ==> d.wf() && day_number_of(year as int, month as int, day as int)
                == Some(d@),
    {
        Date::from_civil(CivilDate { year, month, day })
    }

    /// Year, month and day of this day.
    pub fn civil(&self) -> (civil: CivilDate)
        ensures
            civil == civil_of(self@),
            Date::of_civil(civil) == Some(*self),
            civil.day_number() == Some(self@),
            civil.fits_digits(),
            1 <= civil.month <= 12,
            1 <= civil.day <= 31,
    {
        proof {
            use_type_invariant(self);
        }
        chrono_civil(self.days).unwrap()
    }
}

impl Timestamp {
    /// What every `Timestamp` is: a well-formed day and a second of it.
    #[verifier::type_invariant]
    pub closed spec fn wf(self) -> bool {
        self.date.wf() && self.second_of_day < SECONDS_PER_DAY
    }

    /// The day of this timestamp.
    pub closed spec fn day(self) -> Date {
        self.date
    }

    /// The seconds from that day's midnight.
    pub closed spec fn seconds(self) -> int {
        self.second_of_day as int
    }

    /// The timestamp that is `seconds` after midnight of `date`.
    pub closed spec fn at(date: Date, seconds: int) -> Timestamp {
        Timestamp { date, second_of_day: seconds as u32 }
    }

    /// The timestamp at `time` on `date`, if `time` is on the clock.
    pub open spec fn of_parts(date: Date, time: CivilTime) -> Option<Timestamp> {
        if time.on_clock() {
            Some(Timestamp::at(date, time.second_of_day()))
        } else {
            None
        }
    }

    /// A timestamp is its day and its second.
    pub proof fn lemma_parts(self)
        ensures
            self.wf() <==> self.day().wf() && 0 <= self.seconds() < SECONDS_PER_DAY,
            self.wf() ==> Timestamp::at(self.day(), self.seconds()) == self,
    {
    }

    /// The timestamp at `time` on `date`, or `None` where `time` is not on the
    /// clock.
    pub fn new(date: Date, time: CivilTime) -> (stamp: Option<Timestamp>)
        ensures
            stamp == Timestamp::of_parts(date, time),
            stamp matches Some(s) ==> s.wf() && s.day() == date && s.seconds()
                == time.second_of_day(),
    {
        proof {
            use_type_invariant(date);
        }
        if time.hour < 24 && time.minute < 60 && time.second < 60 {
            Some(
                Timestamp {
                    date,
                    second_of_day: time.hour * 3600 + time.minute * 60 + time.second,
                },
            )
        } else {
            None
        }
    }

    /// The day of this timestamp.
    pub fn date(&self) -> (date: Date)
        ensures
            date == self.day(),
            date.wf(),
    {
        proof {
            use_type_invariant(self);
        }
        self.date
    }

    /// The time of day of this timestamp.
    pub fn time(&self) -> (time: CivilTime)
        ensures
            time == CivilTime::at_second(self.seconds()),
            time.on_clock(),
            time.second_of_day() == self.seconds(),
    {
        proof {
            use_type_invariant(self);
        }
        let s = self.second_of_day;
        CivilTime { hour: s / 3600, minute: (s / 60) % 60, second: s % 60 }
    }
}

} // verus!