use nanowatchrs::state::{should_replace, State};

const ALL_STATES: [State; 5] =
    [State::Disabled, State::Success, State::Warning, State::Danger, State::Failure];

#[test]
fn state_codes_are_the_template_names() {
    assert_eq!(State::Success.to_state(), "success");
    assert_eq!(State::Warning.to_state(), "warning");
    assert_eq!(State::Danger.to_state(), "danger");
    assert_eq!(State::Failure.to_state(), "failure");
    assert_eq!(State::Disabled.to_state(), "disabled");
}

#[test]
fn status_labels_are_fixed() {
    assert_eq!(State::Success.to_status(), "OK");
    assert_eq!(State::Warning.to_status(), "Degraded");
    assert_eq!(State::Danger.to_status(), "Issues");
    assert_eq!(State::Failure.to_status(), "Down");
    assert_eq!(State::Disabled.to_status(), "Unknown");
}

#[test]
fn success_yields_to_everything_but_success() {
    assert!(!should_replace(State::Success, State::Success));
    assert!(should_replace(State::Success, State::Disabled));
    assert!(should_replace(State::Success, State::Warning));
    assert!(should_replace(State::Success, State::Danger));
    assert!(should_replace(State::Success, State::Failure));
}

#[test]
fn disabled_yields_to_everything() {
    for new in ALL_STATES {
        assert!(should_replace(State::Disabled, new), "{new:?}");
    }
}

#[test]
fn failures_yield_only_to_the_strictly_graver() {
    let scale = [State::Warning, State::Danger, State::Failure];
    for (i, old) in scale.iter().enumerate() {
        for (j, new) in scale.iter().enumerate() {
            assert_eq!(should_replace(*old, *new), i < j, "{old:?} -> {new:?}");
        }
    }
}

#[test]
fn failures_never_yield_to_success_or_disabled() {
    for old in [State::Warning, State::Danger, State::Failure] {
        assert!(!should_replace(old, State::Success), "{old:?}");
        assert!(!should_replace(old, State::Disabled), "{old:?}");
    }
}

#[test]
fn failure_yields_to_nothing() {
    for new in ALL_STATES {
        assert!(!should_replace(State::Failure, new), "{new:?}");
    }
}

#[test]
fn states_are_named_in_timeline_files() {
    assert_eq!(State::Success.to_file_name(), "success");
    assert_eq!(State::Warning.to_file_name(), "warning");
    assert_eq!(State::Danger.to_file_name(), "danger");
    assert_eq!(State::Failure.to_file_name(), "failure");
    assert_eq!(State::Disabled.to_file_name(), "unknown");
}

#[test]
fn a_state_survives_writing_and_reading() {
    for state in ALL_STATES {
        assert_eq!(State::from_file_name(state.to_file_name()), Some(state));
    }
}

#[test]
fn only_the_five_names_are_states() {
    for name in ["", "disabled", "Success", "SUCCESS", "ok", "success ", " unknown", "warn"] {
        assert_eq!(State::from_file_name(name), None, "{name:?}");
    }
}
