use containr::container::{start_command, Container, KillRequest, Removal, StartRequest};
use containr::error::{Error, Precondition};
use containr::signal::{parse_signal, SignalNumber};
use containr::state::{State, Status};
use containr::store::ReadOutcome;

fn record(id: &str, status: Status, pid: Option<i32>) -> State {
    State {
        oci_version: String::from("1.0.2"),
        id: String::from(id),
        status,
        pid,
        bundle_path: String::from("/bundles/b"),
        annotations: None,
    }
}

fn signal(number: i32) -> SignalNumber {
    parse_signal(number).unwrap()
}

fn container(id: &str, status: Status, pid: Option<i32>) -> Container {
    Container { id: String::from(id), state: record(id, status, pid) }
}

#[test]
fn load_without_state_file_is_not_found() {
    assert_eq!(Container::load("c1", ReadOutcome::Missing), Err(Error::NotFound));
}

#[test]
fn load_of_unparsable_file_is_corrupt() {
    assert_eq!(Container::load("c1", ReadOutcome::Unparsable), Err(Error::Corrupt));
}

#[test]
fn load_takes_the_record_as_it_is() {
    let state = record("c1", Status::Running, Some(41));
    let loaded = Container::load("c1", ReadOutcome::Record(state.clone())).unwrap();
    assert_eq!(loaded.id, "c1");
    assert_eq!(loaded.state, state);
}

#[test]
fn state_is_idempotent_and_changes_nothing() {
    let c = container("c1", Status::Created, Some(41));
    let before = c.clone();
    let first = c.state().clone();
    let second = c.state().clone();
    assert_eq!(first, second);
    assert_eq!(first, record("c1", Status::Created, Some(41)));
    assert_eq!(c, before);
}

#[test]
fn reload_takes_over_the_new_record() {
    let mut c = container("c1", Status::Created, Some(41));
    let newer = record("c1", Status::Stopped, None);
    assert_eq!(c.reload(ReadOutcome::Record(newer.clone())), Ok(()));
    assert_eq!(c.state, newer);
    assert_eq!(c.id, "c1");
}

#[test]
fn reload_without_record_keeps_the_old_one() {
    let mut c = container("c1", Status::Created, Some(41));
    let before = c.clone();
    assert_eq!(c.reload(ReadOutcome::Unparsable), Err(Error::Corrupt));
    assert_eq!(c, before);
    assert_eq!(c.reload(ReadOutcome::Missing), Err(Error::NotFound));
    assert_eq!(c, before);
}

#[test]
fn delete_twice_second_load_is_not_found() {
    let c = Container::load("c1", ReadOutcome::Record(record("c1", Status::Stopped, None)))
        .unwrap();
    assert!(c.delete(false, "/run").is_ok());
    assert_eq!(Container::load("c1", ReadOutcome::Missing), Err(Error::NotFound));
}

#[test]
fn runtime_dir_of_a_container() {
    let c = container("c9", Status::Created, Some(1));
    assert_eq!(c.runtime_dir("/run/user/0"), "/run/user/0/containr/c9");
}

#[test]
fn start_writes_start_to_the_fifo() {
    let c = container("c1", Status::Created, Some(41));
    let before = c.clone();
    assert_eq!(
        c.start("/run/user/0"),
        StartRequest { fifo: String::from("/run/user/0/containr/c1/start"), payload: "start" }
    );
    assert_eq!(c, before);
    assert_eq!(start_command(), "start");
}

#[test]
fn kill_on_creating_fails_and_leaves_state() {
    let mut c = container("c3", Status::Creating, None);
    let before = c.clone();
    let result = c.kill(signal(15));
    assert_eq!(result, Err(Error::Precondition(Precondition::NotLive)));
    assert!(result.unwrap_err().message().contains("creating or stopped"));
    assert_eq!(c, before);
    assert_eq!(c.state.status, Status::Creating);
}

#[test]
fn kill_on_stopped_fails() {
    let mut c = container("c3", Status::Stopped, None);
    let before = c.clone();
    assert_eq!(c.kill(signal(9)), Err(Error::Precondition(Precondition::NotLive)));
    assert_eq!(c, before);
}

#[test]
fn kill_on_created_signals_the_sandbox() {
    let mut c = container("c3", Status::Created, Some(77));
    let before = c.clone();
    assert_eq!(c.kill(signal(15)), Ok(KillRequest { pid: 77, signal: signal(15) }));
    assert_eq!(c, before);
}

#[test]
fn kill_on_running_signals_the_sandbox() {
    let mut c = container("c3", Status::Running, Some(78));
    assert_eq!(c.kill(signal(1)), Ok(KillRequest { pid: 78, signal: signal(1) }));
    assert_eq!(c.state.status, Status::Running);
}

#[test]
fn delete_of_stopped_removes_the_directory() {
    let c = container("c1", Status::Stopped, None);
    assert_eq!(
        c.delete(false, "/run"),
        Ok(Removal { kill: None, dir: String::from("/run/containr/c1") })
    );
}

#[test]
fn delete_of_stopped_by_force_kills_nothing() {
    let c = container("c1", Status::Stopped, Some(5));
    assert_eq!(
        c.delete(true, "/run"),
        Ok(Removal { kill: None, dir: String::from("/run/containr/c1") })
    );
}

#[test]
fn delete_without_force_needs_stopped() {
    for status in [Status::Creating, Status::Created, Status::Running] {
        let c = container("c1", status, Some(5));
        let result = c.delete(false, "/run");
        assert_eq!(result, Err(Error::Precondition(Precondition::NotStopped)));
    }
}

#[test]
fn delete_by_force_kills_the_running_sandbox() {
    let c = container("c4", Status::Running, Some(4242));
    assert_eq!(
        c.delete(true, "/run/user/7"),
        Ok(Removal { kill: Some(4242), dir: String::from("/run/user/7/containr/c4") })
    );
}

#[test]
fn delete_by_force_without_pid_only_removes() {
    let c = container("c4", Status::Creating, None);
    assert_eq!(
        c.delete(true, "/run"),
        Ok(Removal { kill: None, dir: String::from("/run/containr/c4") })
    );
}
