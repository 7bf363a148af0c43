//! One day's record in a timeline.

use crate::calendar::Date;
use crate::state::State;
use vstd::prelude::*;

verus! {

/// What a timeline records for one calendar day.
#[derive(Debug, PartialEq, Eq)]
pub struct HistoryEntry {
    pub date: Date,
    pub state: State,
    pub notes: String,
}

/// An entry as a value: the number of its day, its state, and the characters
/// of its notes.
pub struct HistoryEntryView {
    pub date: int,
    pub state: State,
    pub notes: Seq<char>,
}

impl View for HistoryEntry {
    type V = HistoryEntryView;

    open spec fn view(&self) -> HistoryEntryView {
        HistoryEntryView { date: self.date@, state: self.state, notes: self.notes@ }
    }
}

/// The entry that stands in for a day of which nothing is known.
pub open spec fn placeholder(day: int) -> HistoryEntryView {
    HistoryEntryView { date: day, state: State::Disabled, notes: "Information N/A"@ }
}

/// The entries of a timeline as values.
pub open spec fn views(entries: Seq<HistoryEntry>) -> Seq<HistoryEntryView> {
    entries.map_values(|e: HistoryEntry| e@)
}

impl Clone for HistoryEntry {
    fn clone(&self) -> (copy: Self)
        ensures
            copy == *self,
    {
        HistoryEntry { date: self.date, state: self.state, notes: self.notes.clone() }
    }
}

impl HistoryEntry {
    /// The entry for the day `today`, which the caller reads off the clock.
    #[must_use]
    pub fn new_today(today: Date, state: State, notes: String) -> (entry: Self)
        ensures
            entry.date == today,
            entry.state == state,
            entry.notes == notes,
    {
        Self { date: today, state, notes }
    }

    /// The entry that stands in for `date` where the timeline has none.
    #[must_use]
    pub fn default_for_date(date: Date) -> (entry: Self)
        ensures
            entry.date == date,
            entry@ == placeholder(date@),
    {
        Self { date, state: State::Disabled, notes: "Information N/A".to_owned() }
    }
}

} // verus!
