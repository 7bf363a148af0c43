//! The probe executor: what to ask of the network for a check, what the
//! answer comes to, and what of it goes into the timeline.
//!
//! The network itself is the caller's side. The caller is told what to do by
//! [`probe_request`], does it once within the check's time limit, and hands
//! what happened back as a [`ProbeEvent`].

use crate::calendar::{Date, Timestamp};
use crate::check::{Check, CheckResult, CheckType};
use crate::history::{HistoryEntry, HistoryEntryView};
use crate::state::State;
use crate::text::{decimal_text, push_decimal};
use crate::utils::config::{
    ascending, reconciled, update_history_section, HistorySection, HistorySectionView,
};
use vstd::prelude::*;

verus! {

/// The status that an HTTP check expects where it names none.
pub const DEFAULT_EXPECTED_STATUS: u16 = 200;

/// What the caller is to do for a check.
#[derive(Clone, Debug, PartialEq, Eq)]
pub enum ProbeRequest {
    /// Send one GET to `url`.
    HttpGet { url: String },
    /// Run the system's `ping` with these arguments.
    Ping { arguments: Vec<String> },
    /// Open one TCP connection to `address`.
    Connect { address: String },
}

/// What happened when the caller did it.
#[derive(Clone, Copy, Debug, PartialEq, Eq, Structural)]
pub enum ProbeEvent {
    /// The server answered, with this status.
    HttpStatus(u16),
    /// The echo came back, or the port took the connection.
    Reached,
    /// Nothing answered: no connection, no echo.
    Unreachable,
    /// The time limit ran out before anything was known.
    TimedOut,
    /// The probe itself broke.
    Faulted,
}

/// How grave it is that a server answered with `status` where another
/// status was expected. A server error, 500 to 599, is a failure; a status
/// that the table does not list, below or above that range, is a danger.
pub open spec fn status_severity(status: u16) -> State {
    if status == 301 || status == 302 || status == 303 {
        State::Warning
    } else if status == 308 {
        State::Danger
    } else if status == 400 || status == 401 || status == 403 || status == 422 || status == 429 {
        State::Warning
    } else if status == 404 || status == 405 {
        State::Danger
    } else if 500 <= status && status <= 599 {
        State::Failure
    } else {
        State::Danger
    }
}

/// What an HTTP check comes to: `response` is the status of the answer, or
/// `None` where no answer came.
pub open spec fn http_outcome(expected_status: Option<u16>, response: Option<u16>) -> CheckResult {
    match response {
        None => CheckResult::Failure(State::Danger),
        Some(status) => {
            let expected = match expected_status {
                Some(e) => e,
                None => DEFAULT_EXPECTED_STATUS,
            };
            if status == expected {
                CheckResult::Success
            } else {
                CheckResult::Failure(status_severity(status))
            }
        },
    }
}

/// What a ping or port check comes to.
pub open spec fn reach_outcome(reached: bool) -> CheckResult {
    if reached {
        CheckResult::Success
    } else {
        CheckResult::Failure(State::Danger)
    }
}

/// What a check of the kind `check_type` comes to after `event`. An event
/// that cannot be the answer to a probe of this kind counts as a broken
/// probe.
pub open spec fn outcome(
    check_type: CheckType,
    expected_status: Option<u16>,
    event: ProbeEvent,
) -> CheckResult {
    match (check_type, event) {
        (CheckType::Http, ProbeEvent::HttpStatus(status)) => http_outcome(
            expected_status,
            Some(status),
        ),
        (CheckType::Http, ProbeEvent::Unreachable) => http_outcome(expected_status, None),
        (CheckType::Ping, ProbeEvent::Reached) => reach_outcome(true),
        (CheckType::Ping, ProbeEvent::Unreachable) => reach_outcome(false),
        (CheckType::Port, ProbeEvent::Reached) => reach_outcome(true),
        (CheckType::Port, ProbeEvent::Unreachable) => reach_outcome(false),
        _ => CheckResult::Unknown,
    }
}

/// The notes that go with a recorded state.
pub open spec fn notes_text(state: State) -> Seq<char> {
    match state {
        State::Success => "No Incident"@,
        State::Failure => "Ongoing Incident"@,
        State::Danger => "Potential Outage or Issue"@,
        State::Warning => "Degraded Performance"@,
        State::Disabled => "Information N/A"@,
    }
}

/// The entry that `result` puts into the timeline on `day`; an `Unknown`
/// result puts none.
pub open spec fn entry_of(result: CheckResult, day: int) -> Option<HistoryEntryView> {
    match result {
        CheckResult::Success => Some(
            HistoryEntryView {
                date: day,
                state: State::Success,
                notes: notes_text(State::Success),
            },
        ),
        CheckResult::Failure(state) => Some(
            HistoryEntryView { date: day, state, notes: notes_text(state) },
        ),
        CheckResult::Unknown => None,
    }
}

/// The timeline after `result` has been recorded on `day` at `now`: changed
/// by nothing but the merge of the result's entry and the new stamp, and not
/// changed at all by an `Unknown` result.
pub open spec fn recorded(
    history: HistorySectionView,
    result: CheckResult,
    day: int,
    now: Timestamp,
) -> HistorySectionView {
    match entry_of(result, day) {
        Some(entry) => HistorySectionView {
            last_updated: now,
            entries: reconciled(history.entries, entry),
            ..history
        },
        None => history,
    }
}

/// The arguments of one echo to `target` that waits `timeout_ms`.
pub open spec fn ping_arguments(target: Seq<char>, timeout_ms: u64) -> Seq<Seq<char>> {
    seq!["-c"@, "1"@, "-W"@, decimal_text(timeout_ms as nat), target]
}

/// Host and port as one address.
pub open spec fn socket_address(target: Seq<char>, port: u16) -> Seq<char> {
    target + ":"@ + decimal_text(port as nat)
}

/// What `request` asks for is what a check for `target` needs.
pub open spec fn asks_for(
    request: ProbeRequest,
    check_type: CheckType,
    target: Seq<char>,
    timeout_ms: u64,
    port: Option<u16>,
) -> bool {
    match request {
        ProbeRequest::HttpGet { url } => check_type == CheckType::Http && url@ == target,
        ProbeRequest::Ping { arguments } => check_type == CheckType::Ping && arguments@.map_values(
            |a: String| a@,
        ) == ping_arguments(target, timeout_ms),
        ProbeRequest::Connect { address } => check_type == CheckType::Port && port is Some
            && address@ == socket_address(target, port.unwrap()),
    }
}

/// No probe comes to a failure that is a success.
pub proof fn lemma_outcome_is_measured(
    check_type: CheckType,
    expected_status: Option<u16>,
    event: ProbeEvent,
)
    ensures
        outcome(check_type, expected_status, event) matches CheckResult::Failure(state)
            ==> state.rank() >= 1,
{
}

/// What the caller is to do for `check`. A port check must name its port.
pub fn probe_request(check: &Check) -> (request: ProbeRequest)
    requires
        check.check_type == CheckType::Port ==> check.port is Some,
    ensures
        asks_for(request, check.check_type, check.target@, check.timeout_ms, check.port),
{
    match check.check_type {
        CheckType::Http => ProbeRequest::HttpGet { url: check.target.clone() },
        CheckType::Ping => {
            let mut wait = String::new();
            push_decimal(&mut wait, check.timeout_ms);
            let mut arguments: Vec<String> = Vec::new();
            arguments.push("-c".to_owned());
            arguments.push("1".to_owned());
            arguments.push("-W".to_owned());
            arguments.push(wait);
            arguments.push(check.target.clone());
            assert(arguments@.map_values(|a: String| a@) =~= ping_arguments(
                check.target@,
                check.timeout_ms,
            ));
            ProbeRequest::Ping { arguments }
        },
        CheckType::Port => {
            let mut address = check.target.clone();
            address.append(":");
            push_decimal(&mut address, check.port.unwrap() as u64);
            ProbeRequest::Connect { address }
        },
    }
}

/// How grave it is that a server answered with `status` where another
/// status was expected.
pub fn classify_status(status: u16) -> (state: State)
    ensures
        state == status_severity(status),
{
    match status {
        301 | 302 | 303 => State::Warning,
        308 => State::Danger,
        400 | 401 | 403 | 422 | 429 => State::Warning,
        404 | 405 => State::Danger,
        _ => if 500 <= status && status <= 599 {
            State::Failure
        } else {
            State::Danger
        },
    }
}

/// What the HTTP check `check` comes to: `response` is the status of the
/// answer, or `None` where no answer came.
pub fn perform_http_check(check: &Check, response: Option<u16>) -> (result: CheckResult)
    ensures
        result == http_outcome(check.expected_status, response),
{
    match response {
        None => CheckResult::Failure(State::Danger),
        Some(status) => {
            let expected = match check.expected_status {
                Some(e) => e,
                None => DEFAULT_EXPECTED_STATUS,
            };
            if status == expected {
                CheckResult::Success
            } else {
                CheckResult::Failure(classify_status(status))
            }
        },
    }
}

/// What the ping check `check` comes to: `echoed` says whether the echo came
/// back. There is nothing between a success and a danger.
pub fn perform_ping_check(check: &Check, echoed: bool) -> (result: CheckResult)
    ensures
        result == reach_outcome(echoed),
{
    if echoed {
        CheckResult::Success
    } else {
        CheckResult::Failure(State::Danger)
    }
}

/// What the port check `check` comes to: `connected` says whether the port
/// took the connection. There is nothing between a success and a danger.
pub fn perform_port_check(check: &Check, connected: bool) -> (result: CheckResult)
    ensures
        result == reach_outcome(connected),
{
    if connected {
        CheckResult::Success
    } else {
        CheckResult::Failure(State::Danger)
    }
}

/// What `check` comes to after `event`. A probe that broke or ran out of
/// time comes to `Unknown`, and so does an event that is no answer to a
/// probe of the check's kind.
pub fn perform_check(check: &Check, event: ProbeEvent) -> (result: CheckResult)
    ensures
        result == outcome(check.check_type, check.expected_status, event),
{
    match (check.check_type, event) {
        (CheckType::Http, ProbeEvent::HttpStatus(status)) => perform_http_check(
            check,
            Some(status),
        ),
        (CheckType::Http, ProbeEvent::Unreachable) => perform_http_check(check, None),
        (CheckType::Ping, ProbeEvent::Reached) => perform_ping_check(check, true),
        (CheckType::Ping, ProbeEvent::Unreachable) => perform_ping_check(check, false),
        (CheckType::Port, ProbeEvent::Reached) => perform_port_check(check, true),
        (CheckType::Port, ProbeEvent::Unreachable) => perform_port_check(check, false),
        _ => CheckResult::Unknown,
    }
}

/// The notes that go with a recorded state.
pub fn incident_notes(state: State) -> (notes: &'static str)
    ensures
        notes@ == notes_text(state),
{
    match state {
        State::Success => "No Incident",
        State::Failure => "Ongoing Incident",
        State::Danger => "Potential Outage or Issue",
        State::Warning => "Degraded Performance",
        State::Disabled => "Information N/A",
    }
}

/// The entry that `result` puts into the timeline on `today`; `None` for an
/// `Unknown` result, which is never recorded. A failure that is a success is
/// no result.
pub fn history_entry_for(result: CheckResult, today: Date) -> (entry: Option<HistoryEntry>)
    requires
        result != CheckResult::Failure(State::Success),
    ensures
        match entry {
            Some(e) => entry_of(result, today@) == Some(e@),
            None => entry_of(result, today@) is None,
        },
        entry is None <==> result == CheckResult::Unknown,
{
    match result {
        CheckResult::Success => Some(
            HistoryEntry::new_today(
                today,
                State::Success,
                incident_notes(State::Success).to_owned(),
            ),
        ),
        CheckResult::Failure(state) => Some(
            HistoryEntry::new_today(today, state, incident_notes(state).to_owned()),
        ),
        CheckResult::Unknown => None,
    }
}

/// Judges what happened to the probe of `check` and records it: the result
/// is merged into `history` under today's date, which is the day of `now`,
/// unless it is `Unknown`, which leaves `history` as it was. A timeline that
/// is in order stays in order, as long as its last entry is not of a later
/// day than today.
pub fn run_check(
    check: &Check,
    event: ProbeEvent,
    history: &mut HistorySection,
    now: Timestamp,
) -> (result: CheckResult)
    ensures
        result == outcome(check.check_type, check.expected_status, event),
        final(history)@ == recorded(old(history)@, result, now.day()@, now),
        result == CheckResult::Unknown ==> final(history)@ == old(history)@,
        ascending(old(history)@.entries) && (old(history)@.entries.len() > 0 ==> old(
            history,
        )@.entries.last().date <= now.day()@) ==> ascending(final(history)@.entries),
{
    let result = perform_check(check, event);
    proof {
        lemma_outcome_is_measured(check.check_type, check.expected_status, event);
    }
    match history_entry_for(result, now.date()) {
        Some(entry) => update_history_section(history, entry, now),
        None => {},
    }
    result
}

} // verus!
