//! What the page shows of a timeline: a window of consecutive days that ends
//! today, every day present, the days without a record filled in, and the
//! uptime over the days that do have one.

use crate::calendar::{civil_of, CivilTime, Date, Timestamp, FIRST_DAY, LAST_DAY};
use crate::check::{clone_text, Check};
use crate::date_format;
use crate::history::{placeholder, views, HistoryEntry, HistoryEntryView};
use crate::long_date_format;
use crate::site::Incident;
use crate::state::State;
use crate::text::{
    decimal_text, joined, push_decimal, push_two_digits, same_text, two_digits,
};
use crate::utils::config::{HistorySection, HistorySectionView};
use crate::HISTORY_LENGTH;
use vstd::prelude::*;

verus! {

/// The uptime of a target over a window.
#[derive(Clone, Copy, Debug, PartialEq, Eq, Structural)]
pub enum Uptime {
    /// The figure that the operator put into the timeline file, as the bit
    /// pattern of that number. It overrides any measurement.
    Fixed(u64),
    /// The share of successes among the timeline's entries in the window, in
    /// hundredths of a percent.
    Measured(u32),
    /// None of the timeline's entries lies in the window.
    Unmeasured,
}

/// A timeline as the page shows it.
#[derive(Clone, Debug, PartialEq, Eq)]
pub struct WindowView {
    pub display_state: State,
    pub display_status: String,
    pub uptime: Uptime,
    pub entries: Vec<HistoryEntry>,
}

/// All that the page shows of one target.
#[derive(Clone, Debug, PartialEq, Eq)]
pub struct StatusBlock {
    pub title: String,
    pub subtitle: Option<String>,
    pub page_link: Option<String>,
    pub status: String,
    pub state: State,
    pub updated_at: Timestamp,
    pub history_line: Vec<HistoryEntry>,
    pub uptime: Uptime,
}

/// All that the page shows of one incident.
#[derive(Clone, Debug, PartialEq, Eq)]
pub struct IncidentBlock {
    pub title: String,
    pub description: String,
    pub state: String,
    pub status: String,
    pub display_date: String,
    pub started_at: String,
    pub resolved_at: String,
}

/// The first of the entries that is for `day`.
pub open spec fn first_on(entries: Seq<HistoryEntryView>, day: int) -> Option<HistoryEntryView>
    decreases entries.len(),
{
    if entries.len() == 0 {
        None
    } else if entries[0].date == day {
        Some(entries[0])
    } else {
        first_on(entries.drop_first(), day)
    }
}

/// What the window shows for `day`: the timeline's entry, or the placeholder
/// where the timeline has none.
pub open spec fn shown_for(entries: Seq<HistoryEntryView>, day: int) -> HistoryEntryView {
    match first_on(entries, day) {
        Some(entry) => entry,
        None => placeholder(day),
    }
}

/// The window of `length` consecutive days that ends on `as_of`, oldest day
/// first.
pub open spec fn shown_window(
    entries: Seq<HistoryEntryView>,
    as_of: int,
    length: nat,
) -> Seq<HistoryEntryView> {
    Seq::new(length, |i: int| shown_for(entries, as_of - (length - 1 - i)))
}

/// The state that stands for the whole window: that of its last day, and
/// `Disabled` where the window has no day.
pub open spec fn current_state(entries: Seq<HistoryEntryView>, as_of: int, length: nat) -> State {
    if length == 0 {
        State::Disabled
    } else {
        shown_for(entries, as_of).state
    }
}

/// How many of the entries are of a day from `first_day` to `last_day`; with
/// `failed_only`, how many of those are not a success.
pub open spec fn counted(
    entries: Seq<HistoryEntryView>,
    first_day: int,
    last_day: int,
    failed_only: bool,
) -> nat
    decreases entries.len(),
{
    if entries.len() == 0 {
        0
    } else {
        counted(entries.drop_last(), first_day, last_day, failed_only) + if first_day
            <= entries.last().date <= last_day && (!failed_only || entries.last().state
            != State::Success) {
            1nat
        } else {
            0nat
        }
    }
}

/// The whole number nearest to `numerator / denominator`; of two that are
/// equally near, the even one.
pub open spec fn nearest(numerator: nat, denominator: nat) -> nat {
    let quotient = numerator / denominator;
    let rest = numerator % denominator;
    if 2 * rest > denominator || (2 * rest == denominator && quotient % 2 == 1) {
        quotient + 1
    } else {
        quotient
    }
}

/// `(1 - non_success / considered) * 100`, rounded to two decimal places and
/// counted in hundredths of a percent.
pub open spec fn hundredths_up(non_success: nat, considered: nat) -> nat {
    nearest(((considered - non_success) * 10000) as nat, considered)
}

/// The uptime over the entries of which `considered` were looked at and
/// `non_success` of those were not a success.
pub open spec fn measured(non_success: nat, considered: nat) -> Uptime {
    if considered == 0 {
        Uptime::Unmeasured
    } else {
        Uptime::Measured(hundredths_up(non_success, considered) as u32)
    }
}

/// The uptime of a timeline over the window of `length` days that ends on
/// `as_of`: the operator's figure where the timeline has one, and else the
/// share of successes among the entries that the timeline holds for days of
/// the window. A day that the window fills in does not count.
pub open spec fn uptime_in(history: HistorySectionView, as_of: int, length: nat) -> Uptime {
    match history.uptime {
        Some(bits) => Uptime::Fixed(bits),
        None => measured(
            counted(history.entries, as_of - length + 1, as_of, true),
            counted(history.entries, as_of - length + 1, as_of, false),
        ),
    }
}

/// A number of hundredths with a decimal point: `9667` is `96.67`.
pub open spec fn percent_text(hundredths: nat) -> Seq<char> {
    decimal_text(hundredths / 100) + seq!['.'] + two_digits((hundredths % 100) as int)
}

/// `description` with each line feed turned into `<br>`.
pub open spec fn with_breaks(description: Seq<char>) -> Seq<char>
    decreases description.len(),
{
    if description.len() == 0 {
        Seq::empty()
    } else if description.last() == '\n' {
        with_breaks(description.drop_last()) + "<br>"@
    } else {
        with_breaks(description.drop_last()).push(description.last())
    }
}

/// The text of a timestamp.
pub open spec fn stamp_text(stamp: Timestamp) -> Seq<char> {
    long_date_format::timestamp_text(
        civil_of(stamp.day()@),
        CivilTime::at_second(stamp.seconds()),
    )
}

/// The style code of an incident with the status `status`.
pub open spec fn incident_code(status: Seq<char>) -> Seq<char> {
    if status == "Resolved"@ || status == "resolved"@ {
        "success"@
    } else if status == "Ongoing"@ || status == "ongoing"@ {
        "warning"@
    } else {
        ""@
    }
}

/// Where `entries[at]` is for `day` and no entry before it is, it is the
/// first for `day`; where no entry at all is for `day`, there is no first.
proof fn lemma_first_on(entries: Seq<HistoryEntryView>, day: int, at: int)
    requires
        0 <= at <= entries.len(),
        forall|k: int| 0 <= k < at ==> (#[trigger] entries[k]).date != day,
        at < entries.len() ==> entries[at].date == day,
    ensures
        at < entries.len() ==> first_on(entries, day) == Some(entries[at]),
        at == entries.len() ==> first_on(entries, day) is None,
    decreases entries.len(),
{
    if entries.len() > 0 && at > 0 {
        let rest = entries.drop_first();
        assert(entries[0].date != day);
        assert forall|k: int| 0 <= k < at - 1 implies (#[trigger] rest[k]).date != day by {
            assert(rest[k] == entries[k + 1]);
        }
        lemma_first_on(rest, day, at - 1);
    }
}

/// A day of which the timeline holds no entry shows the placeholder.
pub proof fn lemma_gap_shows_placeholder(entries: Seq<HistoryEntryView>, day: int)
    requires
        forall|k: int| 0 <= k < entries.len() ==> (#[trigger] entries[k]).date != day,
    ensures
        shown_for(entries, day) == placeholder(day),
{
    lemma_first_on(entries, day, entries.len() as int);
}

/// A day of which the timeline holds an entry shows that entry as it is
/// stored, state and notes and all; where it holds several, the first.
pub proof fn lemma_day_shows_first_entry(entries: Seq<HistoryEntryView>, day: int, at: int)
    requires
        0 <= at < entries.len(),
        entries[at].date == day,
        forall|k: int| 0 <= k < at ==> (#[trigger] entries[k]).date != day,
    ensures
        shown_for(entries, day) == entries[at],
{
    lemma_first_on(entries, day, at);
}

/// The window has one entry for each of its days, whatever the timeline
/// holds; the days follow one another up to `as_of`; and each day shows what
/// [`shown_for`] gives it, the placeholder where nothing is recorded.
pub proof fn lemma_window_days(entries: Seq<HistoryEntryView>, as_of: int, length: nat)
    ensures
        shown_window(entries, as_of, length).len() == length,
        forall|i: int|
            0 <= i < length ==> (#[trigger] shown_window(entries, as_of, length)[i]).date == as_of
                - (length - 1 - i),
        forall|i: int|
            0 <= i < length ==> #[trigger] shown_window(entries, as_of, length)[i] == shown_for(
                entries,
                as_of - (length - 1 - i),
            ),
        forall|i: int|
            0 <= i < length && first_on(entries, as_of - (length - 1 - i)) is None
                ==> #[trigger] shown_window(entries, as_of, length)[i] == placeholder(
                as_of - (length - 1 - i),
            ),
{
    assert forall|i: int| 0 <= i < length implies (#[trigger] shown_window(
        entries,
        as_of,
        length,
    )[i]).date == as_of - (length - 1 - i) by {
        lemma_first_on_day(entries, as_of - (length - 1 - i));
    }
}

/// The first entry for a day is of that day.
proof fn lemma_first_on_day(entries: Seq<HistoryEntryView>, day: int)
    ensures
        first_on(entries, day) is Some ==> first_on(entries, day).unwrap().date == day,
        shown_for(entries, day).date == day,
    decreases entries.len(),
{
    if entries.len() > 0 && entries[0].date != day {
        lemma_first_on_day(entries.drop_first(), day);
    }
}

/// Where the timeline's first entry for `day` stands.
fn find_entry(entries: &Vec<HistoryEntry>, day: i32) -> (found: Option<usize>)
    ensures
        match found {
            Some(at) => at < entries.len() && first_on(views(entries@), day as int) == Some(
                entries[at as int]@,
            ),
            None => first_on(views(entries@), day as int) is None,
        },
{
    let mut at: usize = 0;
    while at < entries.len()
        invariant
            at <= entries.len(),
            forall|k: int| 0 <= k < at ==> (#[trigger] views(entries@)[k]).date != day,
        decreases entries.len() - at,
    {
        if entries[at].date.day_number() == day {
            proof {
                lemma_first_on(views(entries@), day as int, at as int);
            }
            return Some(at);
        }
        at += 1;
    }
    proof {
        lemma_first_on(views(entries@), day as int, at as int);
    }
    None
}

/// How many entries are of a day from `first_day` to `last_day`, and how
/// many of those are not a success.
fn count_entries(entries: &Vec<HistoryEntry>, first_day: i32, last_day: i32) -> (counts: (
    usize,
    usize,
))
    ensures
        counts.0 == counted(views(entries@), first_day as int, last_day as int, true),
        counts.1 == counted(views(entries@), first_day as int, last_day as int, false),
        counts.0 <= counts.1 <= entries.len(),
{
    let mut non_success: usize = 0;
    let mut considered: usize = 0;
    let mut at: usize = 0;
    while at < entries.len()
        invariant
            at <= entries.len(),
            non_success == counted(
                views(entries@).take(at as int),
                first_day as int,
                last_day as int,
                true,
            ),
            considered == counted(
                views(entries@).take(at as int),
                first_day as int,
                last_day as int,
                false,
            ),
            non_success <= considered <= at,
        decreases entries.len() - at,
    {
        let day = entries[at].date.day_number();
        assert(views(entries@).take(at + 1).drop_last() =~= views(entries@).take(at as int));
        assert(views(entries@).take(at + 1).last() == entries[at as int]@);
        if first_day <= day && day <= last_day {
            considered += 1;
            if entries[at].state != State::Success {
                non_success += 1;
            }
        }
        at += 1;
    }
    assert(views(entries@).take(at as int) =~= views(entries@));
    (non_success, considered)
}

/// The window of `window_length` days that ends on `as_of`.
///
/// The window cannot reach back before 0000-01-01, the first day there is.
pub fn build_window(history: &HistorySection, window_length: usize, as_of: Date) -> (window:
    WindowView)
    requires
        FIRST_DAY <= as_of@ - window_length + 1,
    ensures
        views(window.entries@) == shown_window(history@.entries, as_of@, window_length as nat),
        window.entries@.len() == window_length,
        forall|i: int|
            0 <= i < window_length ==> (#[trigger] window.entries@[i])@ == shown_for(
                history@.entries,
                as_of@ - (window_length - 1 - i),
            ),
        window.display_state == current_state(history@.entries, as_of@, window_length as nat),
        window.display_status@ == window.display_state.status_label(),
        window.uptime == uptime_in(history@, as_of@, window_length as nat),
{
    let last_day = as_of.day_number();
    let mut entries: Vec<HistoryEntry> = Vec::new();
    let mut i: usize = 0;
    while i < window_length
        invariant
            i <= window_length,
            entries@.len() == i,
            last_day == as_of@,
            FIRST_DAY <= last_day <= LAST_DAY,
            FIRST_DAY <= last_day - window_length + 1,
            forall|k: int|
                0 <= k < i ==> (#[trigger] entries@[k])@ == shown_for(
                    history@.entries,
                    last_day - (window_length - 1 - k),
                ),
        decreases window_length - i,
    {
        let back: i32 = (window_length - 1 - i) as i32;
        let number: i32 = last_day - back;
        let day = Date::from_day_number(number).unwrap();
        let entry = match find_entry(&history.entries, number) {
            Some(at) => history.entries[at].clone(),
            None => HistoryEntry::default_for_date(day),
        };
        entries.push(entry);
        i += 1;
    }
    assert(views(entries@) =~= shown_window(history@.entries, as_of@, window_length as nat));
    let display_state = if window_length == 0 {
        State::Disabled
    } else {
        entries[window_length - 1].state
    };
    let uptime = match history.uptime {
        Some(bits) => Uptime::Fixed(bits),
        None => {
            let first_day: i32 = last_day - (window_length as i32) + 1;
            let (non_success, considered) = count_entries(&history.entries, first_day, last_day);
            match uptime_hundredths(non_success, considered) {
                Some(hundredths) => Uptime::Measured(hundredths),
                None => Uptime::Unmeasured,
            }
        },
    };
    WindowView {
        display_state,
        display_status: display_state.to_status().to_owned(),
        uptime,
        entries,
    }
}

/// The uptime in hundredths of a percent: `(1 - non_success / considered) *
/// 100`, rounded to two decimal places, a figure that lies just between two
/// going to the even one. There is none where nothing was considered, or
/// where the two counts cannot be of one window.
pub fn uptime_hundredths(non_success: usize, considered: usize) -> (hundredths: Option<u32>)
    ensures
        hundredths is Some <==> 0 < considered && non_success <= considered,
        hundredths is Some ==> hundredths.unwrap() == hundredths_up(
            non_success as nat,
            considered as nat,
        ) && hundredths.unwrap() <= 10000,
{
    if considered == 0 || non_success > considered {
        return None;
    }
    let good: u128 = (considered - non_success) as u128;
    let all: u128 = considered as u128;
    let scaled: u128 = good * 10000;
    let quotient: u128 = scaled / all;
    let rest: u128 = scaled % all;
    assert(quotient <= 10000 && (rest > 0 ==> quotient < 10000)) by (nonlinear_arith)
        requires
            scaled == good * 10000,
            good <= all,
            0 < all,
            quotient == scaled / all,
            rest == scaled % all,
    ;
    let rounded: u128 = if 2 * rest > all || (2 * rest == all && quotient % 2 == 1) {
        quotient + 1
    } else {
        quotient
    };
    Some(rounded as u32)
}

/// A number of hundredths of a percent as text with two decimal places.
pub fn uptime_text(hundredths: u32) -> (text: String)
    ensures
        text@ == percent_text(hundredths as nat),
{
    let mut text = String::new();
    push_decimal(&mut text, (hundredths / 100) as u64);
    text.push('.');
    push_two_digits(&mut text, hundredths % 100);
    assert(text@ =~= percent_text(hundredths as nat));
    text
}

/// All that the page shows of the target `check`, over the last
/// [`HISTORY_LENGTH`] days up to `today`; `None` where those days would reach
/// back before 0000-01-01.
pub fn render_status_block(check: &Check, history_section: &HistorySection, today: Date) -> (block:
    Option<StatusBlock>)
    ensures
        block is Some <==> FIRST_DAY <= today@ - HISTORY_LENGTH + 1,
        block is Some ==> {
            let b = block.unwrap();
            &&& b.title == check.name
            &&& b.subtitle == check.description
            &&& b.page_link == check.page_link
            &&& b.state == current_state(history_section@.entries, today@, HISTORY_LENGTH as nat)
            &&& b.status@ == b.state.status_label()
            &&& b.updated_at == history_section.last_updated
            &&& views(b.history_line@) == shown_window(
                history_section@.entries,
                today@,
                HISTORY_LENGTH as nat,
            )
            &&& b.history_line@.len() == HISTORY_LENGTH
            &&& forall|i: int|
                0 <= i < HISTORY_LENGTH ==> (#[trigger] b.history_line@[i])@ == shown_for(
                    history_section@.entries,
                    today@ - (HISTORY_LENGTH - 1 - i),
                )
            &&& b.uptime == uptime_in(history_section@, today@, HISTORY_LENGTH as nat)
        },
{
    if today.day_number() - (HISTORY_LENGTH as i32) + 1 < FIRST_DAY {
        return None;
    }
    let window = build_window(history_section, HISTORY_LENGTH, today);
    Some(
        StatusBlock {
            title: check.name.clone(),
            subtitle: clone_text(&check.description),
            page_link: clone_text(&check.page_link),
            status: window.display_status,
            state: window.display_state,
            updated_at: history_section.last_updated,
            history_line: window.entries,
            uptime: window.uptime,
        },
    )
}

/// The rendered blocks of a page as one text, a line feed between each two;
/// `None` where there is no block at all.
pub fn join_blocks(blocks: &Vec<String>) -> (page: Option<String>)
    ensures
        page is Some <==> blocks@.len() > 0,
        page is Some ==> page.unwrap()@ == joined(blocks@.map_values(|b: String| b@), "\n"@),
{
    if blocks.len() == 0 {
        return None;
    }
    let ghost parts = blocks@.map_values(|b: String| b@);
    let mut page = blocks[0].clone();
    let mut at: usize = 1;
    assert(parts.take(1) =~= seq![parts[0]]);
    while at < blocks.len()
        invariant
            1 <= at <= blocks.len(),
            parts == blocks@.map_values(|b: String| b@),
            page@ == joined(parts.take(at as int), "\n"@),
        decreases blocks.len() - at,
    {
        assert(parts.take(at + 1).drop_last() =~= parts.take(at as int));
        page.append("\n");
        page.append(blocks[at].as_str());
        at += 1;
    }
    assert(parts.take(at as int) =~= parts);
    Some(page)
}

/// `description` with each line feed turned into `<br>`.
pub fn format_incident_description(description: &str) -> (formatted: String)
    ensures
        formatted@ == with_breaks(description@),
{
    let mut formatted = String::new();
    for c in iter: description.chars()
        invariant
            iter.seq() == description@,
            formatted@ == with_breaks(description@.take(iter.index() as int)),
    {
        assert(description@.take(iter.index() + 1).drop_last() =~= description@.take(
            iter.index() as int,
        ));
        if c == '\n' {
            formatted.append("<br>");
        } else {
            formatted.push(c);
        }
    }
    assert(description@.take(description@.len() as int) =~= description@);
    formatted
}

/// The style code of an incident with the status `status`.
pub fn incident_state(status: &str) -> (code: &'static str)
    ensures
        code@ == incident_code(status@),
{
    if same_text(status, "Resolved") || same_text(status, "resolved") {
        "success"
    } else if same_text(status, "Ongoing") || same_text(status, "ongoing") {
        "warning"
    } else {
        ""
    }
}

/// All that the page shows of `incident`.
pub fn render_incident(incident: &Incident) -> (block: IncidentBlock)
    ensures
        block.title == incident.title,
        block.description@ == with_breaks(incident.description@),
        block.state@ == incident_code(incident.status@),
        block.status == incident.status,
        block.display_date == incident.display_date,
        block.started_at@ == stamp_text(incident.started_at),
        block.resolved_at@ == stamp_text(incident.resolved_at),
        long_date_format::spells(block.started_at@, incident.started_at),
        long_date_format::spells(block.resolved_at@, incident.resolved_at),
{
    IncidentBlock {
        title: incident.title.clone(),
        description: format_incident_description(incident.description.as_str()),
        state: incident_state(incident.status.as_str()).to_owned(),
        status: incident.status.clone(),
        display_date: incident.display_date.clone(),
        started_at: long_date_format::serialize(&incident.started_at),
        resolved_at: long_date_format::serialize(&incident.resolved_at),
    }
}

/// The day of a timestamp's text as text; a text that is no timestamp comes
/// back as it is.
pub fn date(date_str: &str) -> (out: String)
    ensures
        match long_date_format::parsed(date_str@) {
            Ok(stamp) => out@ == date_format::date_text(civil_of(stamp.day()@))
                && date_format::spells(out@, stamp.day()),
            Err(_) => out@ == date_str@,
        },
{
    match long_date_format::deserialize(date_str) {
        Ok(stamp) => date_format::serialize(&stamp.date()),
        Err(_) => date_str.to_owned(),
    }
}

/// The time of day of a timestamp's text as text; a text that is no
/// timestamp comes back as it is.
pub fn time(date_str: &str) -> (out: String)
    ensures
        match long_date_format::parsed(date_str@) {
            Ok(stamp) => out@ == long_date_format::time_text(
                CivilTime::at_second(stamp.seconds()),
            ),
            Err(_) => out@ == date_str@,
        },
{
    match long_date_format::deserialize(date_str) {
        Ok(stamp) => {
            let clock = stamp.time();
            let mut out = String::new();
            long_date_format::append_time(&mut out, clock);
            assert(out@ =~= long_date_format::time_text(clock));
            out
        },
        Err(_) => date_str.to_owned(),
    }
}

} // verus!
