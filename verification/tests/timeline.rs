use nanowatchrs::calendar::{CivilTime, Date, Timestamp};
use nanowatchrs::history::HistoryEntry;
use nanowatchrs::state::{should_replace, State};
use nanowatchrs::utils::config::{
    append_history_event, create_history_file, does_history_file_exist, history_file_path,
    update_history_section, HistoryFile, HistorySection,
};

const EVERY_STATE: [State; 5] =
    [State::Disabled, State::Success, State::Warning, State::Danger, State::Failure];

fn timeline_day(day: u32) -> Date {
    Date::from_ymd(2024, 5, day).expect("a day in May")
}

fn timeline_noon(day: u32) -> Timestamp {
    Timestamp::new(timeline_day(day), CivilTime { hour: 12, minute: 0, second: 0 }).unwrap()
}

fn timeline_entry(day: u32, state: State, notes: &str) -> HistoryEntry {
    HistoryEntry { date: timeline_day(day), state, notes: notes.to_string() }
}

fn empty_timeline() -> HistorySection {
    create_history_file("Backend API", timeline_noon(1))
}

fn dates_strictly_ascend(history: &HistorySection) -> bool {
    history.entries.windows(2).all(|pair| pair[0].date.day_number() < pair[1].date.day_number())
}

#[test]
fn a_fresh_timeline_is_empty_and_stamped() {
    let history = empty_timeline();
    assert_eq!(history.name, "Backend API");
    assert_eq!(history.last_updated, timeline_noon(1));
    assert_eq!(history.uptime, None);
    assert!(history.entries.is_empty());
}

#[test]
fn the_file_of_a_timeline_is_named_after_its_target() {
    assert_eq!(history_file_path("Backend API"), "config/Backend_API_history.json");
    assert_eq!(history_file_path("api"), "config/api_history.json");
    assert_eq!(history_file_path("a  b "), "config/a__b__history.json");
    assert_eq!(history_file_path(""), "config/_history.json");
    assert_eq!(history_file_path("Größe ä"), "config/Größe_ä_history.json");
    assert_eq!(history_file_path("tab\tstays"), "config/tab\tstays_history.json");
}

#[test]
fn a_timeline_that_was_never_written_does_not_exist() {
    assert!(!does_history_file_exist("no target of this name was ever probed"));
}

#[test]
fn the_first_entry_is_appended() {
    let mut history = empty_timeline();
    let entry = timeline_entry(3, State::Warning, "Degraded Performance");
    update_history_section(&mut history, entry.clone(), timeline_noon(3));
    assert_eq!(history.entries, vec![entry]);
    assert_eq!(history.last_updated, timeline_noon(3));
}

#[test]
fn an_entry_of_a_new_day_is_appended() {
    let mut history = empty_timeline();
    let monday = timeline_entry(6, State::Failure, "Ongoing Incident");
    let tuesday = timeline_entry(7, State::Success, "No Incident");
    update_history_section(&mut history, monday.clone(), timeline_noon(6));
    update_history_section(&mut history, tuesday.clone(), timeline_noon(7));
    assert_eq!(history.entries, vec![monday, tuesday]);
    assert_eq!(history.last_updated, timeline_noon(7));
}

#[test]
fn an_entry_of_the_same_day_replaces_or_is_dropped_by_the_table() {
    for old in EVERY_STATE {
        for new in EVERY_STATE {
            let mut history = empty_timeline();
            let first = timeline_entry(9, old, "first");
            let second = timeline_entry(9, new, "second");
            update_history_section(&mut history, first.clone(), timeline_noon(9));
            update_history_section(&mut history, second.clone(), timeline_noon(9));
            let expected = if should_replace(old, new) { second } else { first };
            assert_eq!(history.entries, vec![expected], "{old:?} then {new:?}");
        }
    }
}

#[test]
fn only_the_last_entry_is_looked_at() {
    let mut history = empty_timeline();
    let earlier = timeline_entry(9, State::Success, "No Incident");
    let later = timeline_entry(10, State::Failure, "Ongoing Incident");
    update_history_section(&mut history, earlier.clone(), timeline_noon(9));
    update_history_section(&mut history, later.clone(), timeline_noon(10));
    let again = timeline_entry(10, State::Warning, "Degraded Performance");
    update_history_section(&mut history, again, timeline_noon(10));
    assert_eq!(history.entries, vec![earlier, later]);
}

#[test]
fn a_merge_always_stamps_the_timeline() {
    let mut history = empty_timeline();
    update_history_section(
        &mut history,
        timeline_entry(9, State::Failure, "Ongoing Incident"),
        timeline_noon(9),
    );
    let later = Timestamp::new(timeline_day(9), CivilTime { hour: 18, minute: 30, second: 1 });
    update_history_section(
        &mut history,
        timeline_entry(9, State::Success, "No Incident"),
        later.unwrap(),
    );
    assert_eq!(history.entries, vec![timeline_entry(9, State::Failure, "Ongoing Incident")]);
    assert_eq!(history.last_updated, later.unwrap());
}

#[test]
fn a_merge_leaves_name_and_uptime_alone() {
    let mut history = empty_timeline();
    history.uptime = Some(99.5f64.to_bits());
    update_history_section(
        &mut history,
        timeline_entry(9, State::Danger, "Potential Outage or Issue"),
        timeline_noon(9),
    );
    assert_eq!(history.name, "Backend API");
    assert_eq!(history.uptime, Some(99.5f64.to_bits()));
}

#[test]
fn two_successes_on_one_day_leave_one_entry() {
    let mut history = empty_timeline();
    let success = timeline_entry(12, State::Success, "No Incident");
    update_history_section(&mut history, success.clone(), timeline_noon(12));
    update_history_section(&mut history, success.clone(), timeline_noon(12));
    assert_eq!(history.entries, vec![success]);
}

#[test]
fn two_successes_after_earlier_days_leave_one_entry_for_the_day() {
    let mut history = empty_timeline();
    update_history_section(
        &mut history,
        timeline_entry(11, State::Danger, "Potential Outage or Issue"),
        timeline_noon(11),
    );
    update_history_section(
        &mut history,
        timeline_entry(12, State::Success, "No Incident"),
        timeline_noon(12),
    );
    update_history_section(
        &mut history,
        timeline_entry(12, State::Success, "No Incident"),
        timeline_noon(12),
    );
    let of_the_day: Vec<&HistoryEntry> =
        history.entries.iter().filter(|e| e.date == timeline_day(12)).collect();
    assert_eq!(of_the_day, vec![&timeline_entry(12, State::Success, "No Incident")]);
    assert_eq!(history.entries.len(), 2);
}

#[test]
fn a_warning_and_then_a_danger_leave_the_danger() {
    let mut history = empty_timeline();
    let warning = timeline_entry(14, State::Warning, "Degraded Performance");
    let danger = timeline_entry(14, State::Danger, "Potential Outage or Issue");
    update_history_section(&mut history, warning, timeline_noon(14));
    update_history_section(&mut history, danger.clone(), timeline_noon(14));
    assert_eq!(history.entries, vec![danger]);
}

#[test]
fn a_danger_and_then_a_warning_leave_the_danger() {
    let mut history = empty_timeline();
    let warning = timeline_entry(14, State::Warning, "Degraded Performance");
    let danger = timeline_entry(14, State::Danger, "Potential Outage or Issue");
    update_history_section(&mut history, danger.clone(), timeline_noon(14));
    update_history_section(&mut history, warning, timeline_noon(14));
    assert_eq!(history.entries, vec![danger]);
}

#[test]
fn a_recovery_does_not_erase_the_outage_of_the_day() {
    let mut history = empty_timeline();
    let failure = timeline_entry(14, State::Failure, "Ongoing Incident");
    update_history_section(&mut history, failure.clone(), timeline_noon(14));
    for state in EVERY_STATE {
        update_history_section(&mut history, timeline_entry(14, state, "later"), timeline_noon(14));
        assert_eq!(history.entries, vec![failure.clone()], "{state:?}");
    }
}

#[test]
fn a_timeline_fed_in_day_order_stays_in_order_without_a_day_twice() {
    let mut history = empty_timeline();
    let feed = [
        (2, State::Success),
        (2, State::Warning),
        (2, State::Success),
        (3, State::Success),
        (3, State::Success),
        (5, State::Failure),
        (5, State::Danger),
        (9, State::Disabled),
        (9, State::Warning),
        (9, State::Danger),
        (10, State::Success),
    ];
    for (day, state) in feed {
        update_history_section(&mut history, timeline_entry(day, state, "n"), timeline_noon(day));
        assert!(dates_strictly_ascend(&history), "after day {day} {state:?}");
    }
    let days: Vec<(i32, State)> =
        history.entries.iter().map(|e| (e.date.civil().day as i32, e.state)).collect();
    assert_eq!(
        days,
        vec![
            (2, State::Warning),
            (3, State::Success),
            (5, State::Failure),
            (9, State::Danger),
            (10, State::Success)
        ]
    );
}

#[test]
fn a_plain_append_asks_nothing() {
    let mut history = empty_timeline();
    let entry = timeline_entry(14, State::Success, "No Incident");
    append_history_event(&mut history, entry.clone());
    append_history_event(&mut history, entry.clone());
    assert_eq!(history.entries, vec![entry.clone(), entry]);
    assert_eq!(history.last_updated, timeline_noon(1));
}

#[test]
fn new_today_and_default_for_date_fill_an_entry() {
    let today = timeline_day(20);
    let entry = HistoryEntry::new_today(today, State::Danger, "Potential Outage or Issue".into());
    assert_eq!(entry, timeline_entry(20, State::Danger, "Potential Outage or Issue"));
    let gap = HistoryEntry::default_for_date(today);
    assert_eq!(gap, timeline_entry(20, State::Disabled, "Information N/A"));
}

#[test]
fn a_history_file_holds_one_timeline_per_target() {
    let file = HistoryFile { watchers: vec![empty_timeline(), empty_timeline()] };
    assert_eq!(file.watchers.len(), 2);
    assert_eq!(file.clone(), file);
}
