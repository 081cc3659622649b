use containr::state::{State, Status};
use std::collections::HashMap;

#[test]
fn status_words_are_lower_case() {
    assert_eq!(Status::Creating.as_str(), "creating");
    assert_eq!(Status::Created.as_str(), "created");
    assert_eq!(Status::Running.as_str(), "running");
    assert_eq!(Status::Stopped.as_str(), "stopped");
}

#[test]
fn status_is_found_again_from_its_word() {
    for status in [Status::Creating, Status::Created, Status::Running, Status::Stopped] {
        assert_eq!(Status::parse(status.as_str()), Some(status));
    }
}

#[test]
fn status_parse_rejects_other_words() {
    assert_eq!(Status::parse(""), None);
    assert_eq!(Status::parse("Created"), None);
    assert_eq!(Status::parse("paused"), None);
    assert_eq!(Status::parse("created "), None);
}

#[test]
fn status_live_only_when_created_or_running() {
    assert!(!Status::Creating.is_live());
    assert!(Status::Created.is_live());
    assert!(Status::Running.is_live());
    assert!(!Status::Stopped.is_live());
}

#[test]
fn status_default_is_creating() {
    assert_eq!(Status::default(), Status::Creating);
}

#[test]
fn creating_record_has_no_pid() {
    let mut annotations = HashMap::new();
    annotations.insert(String::from("k"), String::from("v"));
    let state = State::creating(
        String::from("1.0.2"),
        String::from("c1"),
        String::from("/bundles/c1"),
        Some(annotations.clone()),
    );
    assert_eq!(state.oci_version, "1.0.2");
    assert_eq!(state.id, "c1");
    assert_eq!(state.status, Status::Creating);
    assert_eq!(state.pid, None);
    assert_eq!(state.bundle_path, "/bundles/c1");
    assert_eq!(state.annotations, Some(annotations));
    assert!(state.is_well_formed());
}

#[test]
fn record_well_formed_by_status_and_pid() {
    let mut state = State::default();
    assert!(state.is_well_formed());
    state.pid = Some(4);
    assert!(!state.is_well_formed());
    state.status = Status::Created;
    assert!(state.is_well_formed());
    state.status = Status::Running;
    assert!(state.is_well_formed());
    state.pid = None;
    assert!(!state.is_well_formed());
    state.status = Status::Stopped;
    assert!(state.is_well_formed());
    state.pid = Some(4);
    assert!(!state.is_well_formed());
}

#[test]
fn default_record_is_empty_and_creating() {
    let state = State::default();
    assert_eq!(state.oci_version, "");
    assert_eq!(state.id, "");
    assert_eq!(state.bundle_path, "");
    assert_eq!(state.status, Status::Creating);
    assert_eq!(state.pid, None);
    assert_eq!(state.annotations, None);
}
