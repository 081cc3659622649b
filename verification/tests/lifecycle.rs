use containr::bundle::{ProcessSpec, Spec};
use containr::container::Container;
use containr::creation::{CreateArgs, CreateEvent, CreatePhase};
use containr::sandbox::{Sandbox, SandboxEvent, SandboxPhase};
use containr::signal::parse_signal;
use containr::state::{State, Status};
use containr::store::ReadOutcome;

fn bundle_spec(args: &[&str]) -> Spec {
    Spec {
        version: String::from("1.0.2"),
        root_path: Some(String::from("rootfs")),
        process: Some(ProcessSpec {
            args: Some(args.iter().map(|a| String::from(*a)).collect()),
            env: None,
            cwd: String::from("/"),
        }),
        annotations: None,
    }
}

fn create(id: &str, pid: i32, written: &mut Vec<State>) -> Container {
    let mut creation = Container::create(CreateArgs {
        id: String::from(id),
        bundle: String::from("/bundles/b"),
        pid_file: String::from("/tmp/pid"),
        console_socket: None,
    });
    let events = vec![
        CreateEvent::RuntimeDirAbsent,
        CreateEvent::SpecLoaded { oci_version: String::from("1.0.2"), annotations: None },
        CreateEvent::StoreCreated,
        CreateEvent::SandboxSpawned { pid },
        CreateEvent::PidFileWritten,
        CreateEvent::CreatedEventRead { payload: String::from("created") },
        CreateEvent::StateSaved,
    ];
    for event in events {
        creation.step(event);
        if matches!(creation.phase(), CreatePhase::CreateStore | CreatePhase::SaveCreated) {
            written.push(creation.state().unwrap().clone());
        }
    }
    creation.finish().unwrap().unwrap()
}

#[test]
fn happy_path_from_create_to_delete() {
    let mut written = Vec::new();
    let container = create("c1", 2001, &mut written);
    assert_eq!(container.state().status, Status::Created);
    assert_eq!(container.state().pid, Some(2001));
    assert_eq!(container.start("/run").fifo, "/run/containr/c1/start");

    let mut sandbox = Sandbox::new(&container, bundle_spec(&["/bin/true"]), None);
    let events = vec![
        SandboxEvent::RootPivoted,
        SandboxEvent::CreatedDispatched,
        SandboxEvent::StartCommand { payload: String::from("start") },
        SandboxEvent::StateReloaded { state: written[1].clone() },
        SandboxEvent::PayloadLaunched,
        SandboxEvent::StateSaved,
        SandboxEvent::PayloadExited { code: Some(0) },
        SandboxEvent::StateSaved,
    ];
    for event in events {
        sandbox.step(event);
        if matches!(sandbox.phase(), SandboxPhase::SaveRunning | SandboxPhase::SaveStopped) {
            written.push(sandbox.state().unwrap().clone());
        }
    }
    assert_eq!(sandbox.phase(), SandboxPhase::Exited);
    assert_eq!(sandbox.exit_code(), 0);

    let statuses: Vec<Status> = written.iter().map(|state| state.status).collect();
    assert_eq!(
        statuses,
        vec![Status::Creating, Status::Created, Status::Running, Status::Stopped]
    );
    for state in &written {
        assert_eq!(state.id, "c1");
        assert_eq!(state.pid.is_some(), state.status.is_live());
        assert!(state.is_well_formed());
    }

    assert_eq!(written[2].pid, Some(2001));
    assert_eq!(written[3].pid, None);

    let stopped = Container::load("c1", ReadOutcome::Record(written[3].clone())).unwrap();
    assert_eq!(stopped.state().status, Status::Stopped);
    assert_eq!(stopped.state().pid, None);
    let removal = stopped.delete(false, "/run").unwrap();
    assert_eq!(removal.kill, None);
    assert_eq!(removal.dir, "/run/containr/c1");
}

#[test]
fn kill_right_after_a_create_that_has_not_finished() {
    let mut creation = Container::create(CreateArgs {
        id: String::from("c3"),
        bundle: String::from("/bundles/b"),
        pid_file: String::from("/tmp/pid"),
        console_socket: None,
    });
    creation.step(CreateEvent::RuntimeDirAbsent);
    creation.step(CreateEvent::SpecLoaded { oci_version: String::from("1.0.2"), annotations: None });
    let on_disk = creation.state().unwrap().clone();
    let mut loaded = Container::load("c3", ReadOutcome::Record(on_disk.clone())).unwrap();
    let refused = loaded.kill(parse_signal(15).unwrap()).unwrap_err();
    assert!(refused.message().contains("creating or stopped"));
    assert_eq!(loaded.state, on_disk);
    assert_eq!(loaded.state().status, Status::Creating);
}

#[test]
fn forced_delete_of_a_running_container() {
    let mut written = Vec::new();
    let container = create("c4", 555, &mut written);
    let mut sandbox = Sandbox::new(&container, bundle_spec(&["/bin/sleep", "3600"]), None);
    sandbox.step(SandboxEvent::RootPivoted);
    sandbox.step(SandboxEvent::CreatedDispatched);
    sandbox.step(SandboxEvent::StartCommand { payload: String::from("start") });
    sandbox.step(SandboxEvent::StateReloaded { state: written[1].clone() });
    sandbox.step(SandboxEvent::PayloadLaunched);
    let running = sandbox.state().unwrap().clone();
    assert_eq!(running.status, Status::Running);

    let loaded = Container::load("c4", ReadOutcome::Record(running)).unwrap();
    let removal = loaded.delete(true, "/run/user/1").unwrap();
    assert_eq!(removal.kill, Some(555));
    assert_eq!(removal.dir, "/run/user/1/containr/c4");
}

#[test]
fn timed_out_sandbox_leaves_the_record_created() {
    let mut written = Vec::new();
    let container = create("c5", 321, &mut written);
    let mut sandbox = Sandbox::new(&container, bundle_spec(&["/bin/true"]), None);
    sandbox.step(SandboxEvent::RootPivoted);
    sandbox.step(SandboxEvent::CreatedDispatched);
    sandbox.step(SandboxEvent::StartTimedOut);
    assert_eq!(sandbox.exit_code(), 1);
    assert_eq!(sandbox.state(), None);
    assert_eq!(written.len(), 2);
    let later = Container::load("c5", ReadOutcome::Record(written[1].clone())).unwrap();
    assert_eq!(later.state().status, Status::Created);
    assert_eq!(later.state().pid, Some(321));
}

#[test]
fn missing_args_fail_the_create() {
    let mut spec = bundle_spec(&["/bin/true"]);
    spec.process.as_mut().unwrap().args = None;
    let mut creation = Container::create(CreateArgs {
        id: String::from("c1"),
        bundle: String::from("/bundles/b"),
        pid_file: String::from("/tmp/pid"),
        console_socket: None,
    });
    creation.step(CreateEvent::RuntimeDirAbsent);
    creation.step(CreateEvent::SpecLoaded { oci_version: spec.version.clone(), annotations: None });
    creation.step(CreateEvent::StoreCreated);
    let container = Container { id: String::from("c1"), state: creation.state().unwrap().clone() };
    let mut sandbox = Sandbox::new(&container, spec, None);
    sandbox.step(SandboxEvent::RootPivoted);
    assert_eq!(sandbox.phase(), SandboxPhase::Exited);
    assert_eq!(sandbox.exit_code(), 1);
    creation.step(CreateEvent::SandboxSpawned { pid: 6 });
    creation.step(CreateEvent::PidFileWritten);
    creation.step(CreateEvent::CreatedEventRead { payload: String::new() });
    assert_eq!(creation.phase(), CreatePhase::Failed);
    assert!(matches!(creation.finish(), Some(Err(_))));
}
