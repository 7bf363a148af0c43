//! The timeline store: where a target's timeline lives, what a fresh one
//! holds, and how a new outcome is merged into it.
//!
//! Within one day a timeline only ever escalates: a later probe replaces the
//! day's entry where it is graver, and leaves it alone where it is not, so
//! that a recovery in the afternoon cannot erase the outage of the morning.

use crate::calendar::Timestamp;
use crate::history::{views, HistoryEntry, HistoryEntryView};
use crate::state::{should_replace, State};
use crate::text::{replace_spaces, underscored};
use crate::HISTORY_PATH;
use vstd::prelude::*;

verus! {

/// All timelines of a site in one value.
#[derive(Clone, Debug, PartialEq, Eq)]
pub struct HistoryFile {
    pub watchers: Vec<HistorySection>,
}

/// The timeline of one target.
///
/// `uptime`, where the file gives one, is the operator's own figure and is
/// carried as the bit pattern of the number that was read, so that it goes
/// back out exactly as it came in.
#[derive(Clone, Debug, PartialEq, Eq)]
pub struct HistorySection {
    pub name: String,
    pub last_updated: Timestamp,
    pub uptime: Option<u64>,
    pub entries: Vec<HistoryEntry>,
}

/// A timeline as a value.
pub struct HistorySectionView {
    pub name: Seq<char>,
    pub last_updated: Timestamp,
    pub uptime: Option<u64>,
    pub entries: Seq<HistoryEntryView>,
}

impl View for HistorySection {
    type V = HistorySectionView;

    open spec fn view(&self) -> HistorySectionView {
        HistorySectionView {
            name: self.name@,
            last_updated: self.last_updated,
            uptime: self.uptime,
            entries: views(self.entries@),
        }
    }
}

/// The entries are in ascending order of their days, each day at most once.
pub open spec fn ascending(entries: Seq<HistoryEntryView>) -> bool {
    forall|i: int, j: int| 0 <= i < j < entries.len() ==> entries[i].date < entries[j].date
}

/// How many of the entries are for `day`.
pub open spec fn count_on(entries: Seq<HistoryEntryView>, day: int) -> nat
    decreases entries.len(),
{
    if entries.len() == 0 {
        0
    } else {
        count_on(entries.drop_last(), day) + if entries.last().date == day {
            1nat
        } else {
            0nat
        }
    }
}

/// The entries after `event` has been merged into them: appended where the
/// timeline is empty or its last entry is of another day, put in the last
/// entry's place where that entry yields to it, and dropped otherwise.
pub open spec fn reconciled(
    entries: Seq<HistoryEntryView>,
    event: HistoryEntryView,
) -> Seq<HistoryEntryView> {
    if entries.len() == 0 || entries.last().date != event.date {
        entries.push(event)
    } else if entries.last().state.yields_to(event.state) {
        entries.drop_last().push(event)
    } else {
        entries
    }
}

/// The entries after each of `events` has been merged into them in turn.
pub open spec fn reconciled_all(
    entries: Seq<HistoryEntryView>,
    events: Seq<HistoryEntryView>,
) -> Seq<HistoryEntryView>
    decreases events.len(),
{
    if events.len() == 0 {
        entries
    } else {
        reconciled(reconciled_all(entries, events.drop_last()), events.last())
    }
}

/// No event is of an earlier day than the one before it.
pub open spec fn in_day_order(events: Seq<HistoryEntryView>) -> bool {
    forall|i: int, j: int| 0 <= i <= j < events.len() ==> events[i].date <= events[j].date
}

/// The path of the timeline file of the target `name`.
pub open spec fn file_path_text(name: Seq<char>) -> Seq<char> {
    HISTORY_PATH@ + "/"@ + underscored(name) + "_history.json"@
}

/// Merging keeps a timeline in order, as long as the clock does not run
/// backwards: the event must not be of an earlier day than the last entry.
pub proof fn lemma_reconciled_ascending(entries: Seq<HistoryEntryView>, event: HistoryEntryView)
    requires
        ascending(entries),
        entries.len() > 0 ==> entries.last().date <= event.date,
    ensures
        ascending(reconciled(entries, event)),
        reconciled(entries, event).len() > 0,
        reconciled(entries, event).last().date == event.date,
{
    let merged = reconciled(entries, event);
    assert forall|i: int, j: int| 0 <= i < j < merged.len() implies merged[i].date
        < merged[j].date by {
        if j < entries.len() - 1 {
            assert(merged[i] == entries[i] && merged[j] == entries[j]);
        } else if entries.len() > 0 && i < entries.len() - 1 {
            assert(entries[i].date < entries.last().date);
        }
    }
}

/// A timeline that starts empty and takes in any run of events in the order
/// of their days is in ascending order, with no day twice.
pub proof fn lemma_timeline_ascending(events: Seq<HistoryEntryView>)
    requires
        in_day_order(events),
    ensures
        ascending(reconciled_all(Seq::empty(), events)),
        events.len() > 0 ==> reconciled_all(Seq::empty(), events).len() > 0 && reconciled_all(
            Seq::empty(),
            events,
        ).last().date == events.last().date,
    decreases events.len(),
{
    if events.len() > 0 {
        let earlier = events.drop_last();
        assert(in_day_order(earlier)) by {
            assert forall|i: int, j: int| 0 <= i <= j < earlier.len() implies earlier[i].date
                <= earlier[j].date by {
                assert(earlier[i] == events[i] && earlier[j] == events[j]);
            }
        }
        lemma_timeline_ascending(earlier);
        if earlier.len() > 0 {
            assert(earlier.last() == events[events.len() - 2]);
        }
        lemma_reconciled_ascending(reconciled_all(Seq::empty(), earlier), events.last());
    }
}

/// In an ascending timeline only the last entry can be of the last entry's
/// day or a later one.
pub proof fn lemma_count_on_last_day(entries: Seq<HistoryEntryView>, day: int)
    requires
        ascending(entries),
        entries.len() > 0,
        entries.last().date <= day,
    ensures
        count_on(entries, day) == if entries.last().date == day {
            1nat
        } else {
            0nat
        },
{
    lemma_count_below(entries.drop_last(), day);
}

/// Entries that are all of earlier days hold none for `day`.
proof fn lemma_count_below(entries: Seq<HistoryEntryView>, day: int)
    requires
        forall|i: int| 0 <= i < entries.len() ==> (#[trigger] entries[i]).date < day,
    ensures
        count_on(entries, day) == 0,
    decreases entries.len(),
{
    if entries.len() > 0 {
        lemma_count_below(entries.drop_last(), day);
    }
}

/// Merging the same event a second time changes nothing.
pub proof fn lemma_reconciled_twice(entries: Seq<HistoryEntryView>, event: HistoryEntryView)
    ensures
        reconciled(reconciled(entries, event), event) == reconciled(entries, event),
{
    let once = reconciled(entries, event);
    if once.last() == event && once.len() > 0 && event.state.yields_to(event.state) {
        assert(once.drop_last().push(event) =~= once);
    }
}

/// Two successes on one day leave one entry for that day: the second changes
/// nothing. The entry is a success unless the day already had a graver one,
/// and it is the first success where the day had no entry before.
pub proof fn lemma_success_twice(
    entries: Seq<HistoryEntryView>,
    first: HistoryEntryView,
    second: HistoryEntryView,
)
    requires
        ascending(entries),
        entries.len() > 0 ==> entries.last().date <= first.date,
        first.state == State::Success,
        second.state == State::Success,
        first.date == second.date,
    ensures
        reconciled(reconciled(entries, first), second) == reconciled(entries, first),
        count_on(reconciled(reconciled(entries, first), second), first.date) == 1,
        entries.len() == 0 || entries.last().date < first.date || entries.last().state.rank() == 0
            ==> reconciled(reconciled(entries, first), second).last().state == State::Success,
        entries.len() == 0 || entries.last().date < first.date ==> reconciled(
            reconciled(entries, first),
            second,
        ).last() == first,
{
    let once = reconciled(entries, first);
    lemma_reconciled_ascending(entries, first);
    lemma_count_on_last_day(once, first.date);
}

/// Within a day the recorded state never gets weaker: after a merge the last
/// entry is at least as grave as the same day's entry before.
pub proof fn lemma_no_downgrade(entries: Seq<HistoryEntryView>, event: HistoryEntryView)
    requires
        entries.len() > 0,
        entries.last().date == event.date,
    ensures
        reconciled(entries, event).len() == entries.len(),
        reconciled(entries, event).last().state.rank() >= entries.last().state.rank(),
        reconciled(entries, event).last().state.rank() >= event.state.rank(),
{
    entries.last().state.lemma_escalation_only(event.state);
}

/// A warning and then a danger on one day leave the day in danger; a danger
/// and then a warning leave it in danger too, the warning changing nothing.
/// Only a failure recorded earlier that day stands above both. Where the day
/// had no entry before, the danger is the entry that stays.
pub proof fn lemma_warning_and_danger(
    entries: Seq<HistoryEntryView>,
    warning: HistoryEntryView,
    danger: HistoryEntryView,
)
    requires
        warning.state == State::Warning,
        danger.state == State::Danger,
        warning.date == danger.date,
        entries.len() > 0 && entries.last().date == warning.date ==> entries.last().state
            != State::Failure,
    ensures
        reconciled(reconciled(entries, warning), danger).last().state == State::Danger,
        reconciled(reconciled(entries, danger), warning).last().state == State::Danger,
        reconciled(reconciled(entries, danger), warning) == reconciled(entries, danger),
        entries.len() == 0 || entries.last().date != warning.date ==> reconciled(
            reconciled(entries, warning),
            danger,
        ) == entries.push(danger) && reconciled(reconciled(entries, danger), warning)
            == entries.push(danger),
{
    assert(entries.push(warning).drop_last() =~= entries);
    if entries.len() > 0 {
        assert(entries.drop_last().push(warning).drop_last() =~= entries.drop_last());
    }
}

/// The path of the timeline file of the target `check_name`: the history
/// directory, then the name with its spaces turned into underscores, then
/// `_history.json`.
pub fn history_file_path(check_name: &str) -> (path: String)
    ensures
        path@ == file_path_text(check_name@),
{
    let mut path = HISTORY_PATH.to_owned();
    path.append("/");
    let stem = replace_spaces(check_name);
    path.append(stem.as_str());
    path.append("_history.json");
    path
}

/// Trusted: `std::path::Path::exists`. What is on disk decides the answer,
/// so nothing is said of it.
#[verifier::external_body]
fn path_exists(path: &str) -> bool {
    std::path::Path::new(path).exists()
}

/// Whether the timeline file of the target `check_name` is on disk.
pub fn does_history_file_exist(check_name: &str) -> bool {
    let path = history_file_path(check_name);
    path_exists(path.as_str())
}

/// The timeline that a target starts with: its name, the present moment, no
/// uptime figure and no entries.
pub fn create_history_file(check_name: &str, now: Timestamp) -> (history: HistorySection)
    ensures
        history@ == (HistorySectionView {
            name: check_name@,
            last_updated: now,
            uptime: None,
            entries: Seq::empty(),
        }),
{
    let history = HistorySection {
        name: check_name.to_owned(),
        last_updated: now,
        uptime: None,
        entries: Vec::new(),
    };
    assert(views(history.entries@) =~= Seq::empty());
    history
}

/// Puts `event` at the end of the timeline, whatever is there.
pub fn append_history_event(history: &mut HistorySection, event: HistoryEntry)
    ensures
        final(history)@ == (HistorySectionView {
            entries: old(history)@.entries.push(event@),
            ..old(history)@
        }),
{
    history.entries.push(event);
    assert(views(history.entries@) =~= views(old(history).entries@).push(event@));
}

/// Merges `event` into the timeline and stamps the timeline with `now`.
///
/// A timeline that is in order stays in order, as long as the event is not
/// of an earlier day than the timeline's last entry.
pub fn update_history_section(history: &mut HistorySection, event: HistoryEntry, now: Timestamp)
    ensures
        final(history)@ == (HistorySectionView {
            last_updated: now,
            entries: reconciled(old(history)@.entries, event@),
            ..old(history)@
        }),
        ascending(old(history)@.entries) && (old(history)@.entries.len() > 0 ==> old(
            history,
        )@.entries.last().date <= event@.date) ==> ascending(final(history)@.entries),
{
    proof {
        if ascending(views(history.entries@)) && (history.entries@.len() > 0 ==> views(
            history.entries@,
        ).last().date <= event@.date) {
            lemma_reconciled_ascending(views(history.entries@), event@);
        }
    }
    history.last_updated = now;
    let ghost before = views(old(history).entries@);
    let count = history.entries.len();
    if count == 0 {
        history.entries.push(event);
        assert(views(history.entries@) =~= reconciled(before, event@));
    } else {
        let last_day = history.entries[count - 1].date.day_number();
        let last_state = history.entries[count - 1].state;
        assert(before.last() == old(history).entries@[count - 1]@);
        if last_day != event.date.day_number() {
            history.entries.push(event);
            assert(views(history.entries@) =~= reconciled(before, event@));
        } else if should_replace(last_state, event.state) {
            history.entries.pop();
            history.entries.push(event);
            assert(views(history.entries@) =~= reconciled(before, event@));
        } else {
            assert(views(history.entries@) =~= reconciled(before, event@));
        }
    }
}

} // verus!
