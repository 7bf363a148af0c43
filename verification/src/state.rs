//! The severity scale: its fixed tables for display and for the timeline
//! file, and the rule by which one day's entry gives way to another.

use crate::text::same_text;
use vstd::prelude::*;

verus! {

/// Health classification of a probe outcome or of a timeline entry.
///
/// `Disabled` stands for "no data" and is only ever a placeholder; the other
/// four are measured severities.
#[derive(Clone, Copy, Debug, PartialEq, Eq, Structural)]
pub enum State {
    Disabled,
    Success,
    Warning,
    Danger,
    Failure,
}

impl State {
    /// The style code of a state, as the page templates expect it.
    pub open spec fn state_code(self) -> Seq<char> {
        match self {
            State::Success => "success"@,
            State::Warning => "warning"@,
            State::Danger => "danger"@,
            State::Failure => "failure"@,
            State::Disabled => "disabled"@,
        }
    }

    /// The human-readable label of a state.
    pub open spec fn status_label(self) -> Seq<char> {
        match self {
            State::Success => "OK"@,
            State::Warning => "Degraded"@,
            State::Danger => "Issues"@,
            State::Failure => "Down"@,
            State::Disabled => "Unknown"@,
        }
    }

    /// The name of a state in a timeline file. `Disabled` is written as
    /// `unknown` there, which is not its style code.
    pub open spec fn file_name(self) -> Seq<char> {
        match self {
            State::Success => "success"@,
            State::Warning => "warning"@,
            State::Danger => "danger"@,
            State::Failure => "failure"@,
            State::Disabled => "unknown"@,
        }
    }

    /// The state that a timeline file writes as `name`.
    pub open spec fn named(name: Seq<char>) -> Option<State> {
        if name == "success"@ {
            Some(State::Success)
        } else if name == "warning"@ {
            Some(State::Warning)
        } else if name == "danger"@ {
            Some(State::Danger)
        } else if name == "failure"@ {
            Some(State::Failure)
        } else if name == "unknown"@ {
            Some(State::Disabled)
        } else {
            None
        }
    }

    /// How grave a state is. `Disabled` and `Success` are the weakest and
    /// weigh the same; `Warning`, `Danger` and `Failure` follow in this order.
    pub open spec fn rank(self) -> nat {
        match self {
            State::Disabled => 0,
            State::Success => 0,
            State::Warning => 1,
            State::Danger => 2,
            State::Failure => 3,
        }
    }

    /// Whether an entry in this state gives way to a new entry of the same
    /// day in the state `new`. The table is explicit, since `Disabled` does
    /// not stand on the scale of the measured states.
    pub open spec fn yields_to(self, new: State) -> bool {
        match (self, new) {
            (State::Success, State::Success) => false,
            (State::Success, _) => true,
            (State::Disabled, _) => true,
            (State::Warning, State::Danger) => true,
            (State::Warning, State::Failure) => true,
            (State::Danger, State::Failure) => true,
            _ => false,
        }
    }

    /// A state that is written to a timeline file and read again is the
    /// state it was.
    pub proof fn lemma_file_name_round_trip(self)
        ensures
            State::named(self.file_name()) == Some(self),
    {
        reveal_strlit("success");
        reveal_strlit("warning");
        reveal_strlit("danger");
        reveal_strlit("failure");
        reveal_strlit("unknown");
        assert("warning"@[0] != "success"@[0]);
        assert("danger"@.len() != "success"@.len());
        assert("danger"@.len() != "warning"@.len());
        assert("failure"@[0] != "success"@[0]);
        assert("failure"@[0] != "warning"@[0]);
        assert("failure"@.len() != "danger"@.len());
        assert("unknown"@[0] != "success"@[0]);
        assert("unknown"@[0] != "warning"@[0]);
        assert("unknown"@.len() != "danger"@.len());
        assert("unknown"@[0] != "failure"@[0]);
    }

    /// An entry never gives way to a weaker one, and among `Warning`,
    /// `Danger` and `Failure` it gives way exactly to the strictly graver.
    pub proof fn lemma_escalation_only(self, new: State)
        ensures
            self.yields_to(new) ==> self.rank() <= new.rank(),
            self.rank() >= 1 ==> (self.yields_to(new) <==> self.rank() < new.rank()),
            self.rank() == 0 ==> (self.yields_to(new) <==> !(self == State::Success && new
                == State::Success)),
    {
    }

    /// The style code of this state, as the page templates expect it.
    #[must_use]
    pub fn to_state(&self) -> (code: &'static str)
        ensures
            code@ == self.state_code(),
    {
        match self {
            State::Success => "success",
            State::Warning => "warning",
            State::Danger => "danger",
            State::Failure => "failure",
            State::Disabled => "disabled",
        }
    }

    /// The human-readable label of this state.
    #[must_use]
    pub fn to_status(&self) -> (label: &'static str)
        ensures
            label@ == self.status_label(),
    {
        match self {
            State::Success => "OK",
            State::Warning => "Degraded",
            State::Danger => "Issues",
            State::Failure => "Down",
            State::Disabled => "Unknown",
        }
    }

    /// The name of this state in a timeline file.
    #[must_use]
    pub fn to_file_name(&self) -> (name: &'static str)
        ensures
            name@ == self.file_name(),
    {
        match self {
            State::Success => "success",
            State::Warning => "warning",
            State::Danger => "danger",
            State::Failure => "failure",
            State::Disabled => "unknown",
        }
    }

    /// The state that a timeline file writes as `name`, or `None` where
    /// `name` is no state's name.
    pub fn from_file_name(name: &str) -> (state: Option<State>)
        ensures
            state == State::named(name@),
    {
        if same_text(name, "success") {
            Some(State::Success)
        } else if same_text(name, "warning") {
            Some(State::Warning)
        } else if same_text(name, "danger") {
            Some(State::Danger)
        } else if same_text(name, "failure") {
            Some(State::Failure)
        } else if same_text(name, "unknown") {
            Some(State::Disabled)
        } else {
            None
        }
    }
}

/// Whether an entry in the state `old` is to be replaced by a new entry of
/// the same day in the state `new`.
pub fn should_replace(old: State, new: State) -> (replace: bool)
    ensures
        replace == old.yields_to(new),
{
    match (old, new) {
        (State::Success, State::Success) => false,
        (State::Success, _) => true,
        (State::Disabled, _) => true,
        (State::Warning, State::Danger) => true,
        (State::Warning, State::Failure) => true,
        (State::Danger, State::Failure) => true,
        _ => false,
    }
}

} // verus!
