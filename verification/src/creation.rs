//! Creating a container, as a machine: each phase names the outside work
//! that is due, and each event reports how that work ended.

use crate::container::Container;
use crate::error::{Error, Stage};
use crate::layout::{
    config_file, config_file_path, runtime_dir, runtime_dir_path, start_fifo, start_fifo_path,
    state_file, state_file_path,
};
use crate::state::{State, StateView, Status};
use crate::text::{decimal, decimal_string};
use std::collections::HashMap;
use vstd::prelude::*;
use vstd::string::StringExecFns;

verus! {

/// The payload of the created-event pipe by which the sandbox reports that
/// it is set up.
pub open spec fn created_event_text() -> Seq<char> {
    "created"@
}

/// The payload of the created-event pipe by which the sandbox reports that
/// it is set up.
pub fn created_event() -> (text: &'static str)
    ensures
        text@ == created_event_text(),
{
    "created"
}

/// What is asked of a new container.
#[derive(Clone, Debug, PartialEq)]
pub struct CreateArgs {
    /// The id of the new container.
    pub id: String,
    /// The bundle to create it from.
    pub bundle: String,
    /// The file that is to hold the sandbox's host pid.
    pub pid_file: String,
    /// The socket that is to receive the container's terminal, if any.
    pub console_socket: Option<String>,
}

/// The arguments of a creation as plain mathematical values.
pub struct CreateArgsView {
    pub id: Seq<char>,
    pub bundle: Seq<char>,
    pub pid_file: Seq<char>,
    pub console_socket: Option<Seq<char>>,
}

impl View for CreateArgs {
    type V = CreateArgsView;

    open spec fn view(&self) -> CreateArgsView {
        CreateArgsView {
            id: self.id@,
            bundle: self.bundle@,
            pid_file: self.pid_file@,
            console_socket: self.console_socket.deep_view(),
        }
    }
}

impl Default for CreateArgs {
    fn default() -> (args: CreateArgs)
        ensures
            args@.id.len() == 0,
            args@.bundle.len() == 0,
            args@.pid_file.len() == 0,
            args.console_socket is None,
    {
        CreateArgs {
            id: String::new(),
            bundle: String::new(),
            pid_file: String::new(),
            console_socket: None,
        }
    }
}

/// The outside work that a creation waits for, or how it ended.
#[derive(Clone, Copy, Debug, PartialEq, Eq, Structural)]
pub enum CreatePhase {
    /// See whether the runtime directory exists.
    ProbeRuntimeDir,
    /// Read the bundle's configuration.
    LoadSpec,
    /// Make the runtime directory and the state file, both new, and write
    /// the record.
    CreateStore,
    /// Open the created-event pipe, make the start FIFO and clone the
    /// sandbox into a new mount namespace.
    SpawnSandbox,
    /// Write the sandbox's pid to the pid file.
    WritePidFile,
    /// Read the created-event pipe to its end.
    AwaitCreated,
    /// Write the record again.
    SaveCreated,
    /// The container is created.
    Done,
    /// The creation failed; nothing is cleaned up.
    Failed,
}

impl CreatePhase {
    /// The outside work of a phase; for the two final phases, none.
    pub open spec fn stage(self) -> Option<Stage> {
        match self {
            CreatePhase::ProbeRuntimeDir => Some(Stage::ProbeRuntimeDir),
            CreatePhase::LoadSpec => Some(Stage::LoadSpec),
            CreatePhase::CreateStore => Some(Stage::CreateStore),
            CreatePhase::SpawnSandbox => Some(Stage::SpawnSandbox),
            CreatePhase::WritePidFile => Some(Stage::WritePidFile),
            CreatePhase::AwaitCreated => Some(Stage::ReadCreatedEvent),
            CreatePhase::SaveCreated => Some(Stage::SaveState),
            CreatePhase::Done => None,
            CreatePhase::Failed => None,
        }
    }

    /// Whether the creation has ended.
    pub open spec fn ended(self) -> bool {
        self == CreatePhase::Done || self == CreatePhase::Failed
    }
}

/// How a piece of outside work ended.
#[derive(Debug)]
pub enum CreateEvent {
    /// There is no runtime directory for the id.
    RuntimeDirAbsent,
    /// There is a runtime directory for the id already.
    RuntimeDirPresent,
    /// The configuration was read; these are its version and annotations.
    SpecLoaded { oci_version: String, annotations: Option<HashMap<String, String>> },
    /// Directory and state file are new, and the record is written.
    StoreCreated,
    /// The sandbox runs, with this host pid.
    SandboxSpawned { pid: i32 },
    /// The pid file is written.
    PidFileWritten,
    /// The created-event pipe is at its end; this is what came through it.
    CreatedEventRead { payload: String },
    /// The record is written.
    StateSaved,
    /// The system refused the work.
    Failed,
}

/// An event as plain mathematical values.
pub enum CreateEventView {
    RuntimeDirAbsent,
    RuntimeDirPresent,
    SpecLoaded { oci_version: Seq<char>, annotations: Option<Map<Seq<char>, Seq<char>>> },
    StoreCreated,
    SandboxSpawned { pid: i32 },
    PidFileWritten,
    CreatedEventRead { payload: Seq<char> },
    StateSaved,
    Failed,
}

impl View for CreateEvent {
    type V = CreateEventView;

    open spec fn view(&self) -> CreateEventView {
        match self {
            CreateEvent::RuntimeDirAbsent => CreateEventView::RuntimeDirAbsent,
            CreateEvent::RuntimeDirPresent => CreateEventView::RuntimeDirPresent,
            CreateEvent::SpecLoaded { oci_version, annotations } => CreateEventView::SpecLoaded {
                oci_version: oci_version@,
                annotations: annotations.deep_view(),
            },
            CreateEvent::StoreCreated => CreateEventView::StoreCreated,
            CreateEvent::SandboxSpawned { pid } => CreateEventView::SandboxSpawned { pid: *pid },
            CreateEvent::PidFileWritten => CreateEventView::PidFileWritten,
            CreateEvent::CreatedEventRead { payload } => CreateEventView::CreatedEventRead {
                payload: payload@,
            },
            CreateEvent::StateSaved => CreateEventView::StateSaved,
            CreateEvent::Failed => CreateEventView::Failed,
        }
    }
}

/// A creation under way.
#[derive(Debug)]
pub struct Creation {
    args: CreateArgs,
    phase: CreatePhase,
    state: Option<State>,
    pid: Option<i32>,
    error: Option<Error>,
}

/// A creation as plain mathematical values.
pub struct CreationView {
    pub args: CreateArgsView,
    pub phase: CreatePhase,
    /// The record, once the configuration is read.
    pub state: Option<StateView>,
    /// The sandbox's host pid, once it runs.
    pub pid: Option<i32>,
    /// Why the creation failed, if it did.
    pub error: Option<Error>,
}

impl View for Creation {
    type V = CreationView;

    closed spec fn view(&self) -> CreationView {
        CreationView {
            args: self.args@,
            phase: self.phase,
            state: match self.state {
                Some(state) => Some(state@),
                None => None,
            },
            pid: self.pid,
            error: self.error,
        }
    }
}

impl CreationView {
    /// A creation that has not begun.
    pub open spec fn begin(args: CreateArgsView) -> CreationView {
        CreationView {
            args,
            phase: CreatePhase::ProbeRuntimeDir,
            state: None,
            pid: None,
            error: None,
        }
    }

    /// The creation, failed for the given reason.
    pub open spec fn failed(self, error: Error) -> CreationView {
        CreationView { phase: CreatePhase::Failed, error: Some(error), ..self }
    }

    /// The creation in another phase.
    pub open spec fn moved(self, phase: CreatePhase) -> CreationView {
        CreationView { phase, ..self }
    }

    /// The first record of the container: creating, without a pid.
    pub open spec fn first_record(
        self,
        oci_version: Seq<char>,
        annotations: Option<Map<Seq<char>, Seq<char>>>,
    ) -> StateView {
        StateView {
            oci_version,
            id: self.args.id,
            status: Status::Creating,
            pid: None,
            bundle_path: self.args.bundle,
            annotations,
        }
    }

    /// The creation after an event. An ended creation stays as it is. The
    /// record is marked as created only on the word of the sandbox.
    pub open spec fn step(self, event: CreateEventView) -> CreationView {
        match (self.phase, event) {
            (CreatePhase::Done, _) => self,
            (CreatePhase::Failed, _) => self,
            (phase, CreateEventView::Failed) => self.failed(Error::Io(phase.stage()->0)),
            (CreatePhase::ProbeRuntimeDir, CreateEventView::RuntimeDirAbsent) => self.moved(
                CreatePhase::LoadSpec,
            ),
            (CreatePhase::ProbeRuntimeDir, CreateEventView::RuntimeDirPresent) => self.failed(
                Error::Io(Stage::ProbeRuntimeDir),
            ),
            (CreatePhase::LoadSpec, CreateEventView::SpecLoaded { oci_version, annotations }) => {
                CreationView {
                    phase: CreatePhase::CreateStore,
                    state: Some(self.first_record(oci_version, annotations)),
                    ..self
                }
            },
            (CreatePhase::CreateStore, CreateEventView::StoreCreated) => self.moved(
                CreatePhase::SpawnSandbox,
            ),
            (CreatePhase::SpawnSandbox, CreateEventView::SandboxSpawned { pid }) => CreationView {
                phase: CreatePhase::WritePidFile,
                pid: Some(pid),
                ..self
            },
            (CreatePhase::WritePidFile, CreateEventView::PidFileWritten) => self.moved(
                CreatePhase::AwaitCreated,
            ),
            (CreatePhase::AwaitCreated, CreateEventView::CreatedEventRead { payload }) => {
                if payload != created_event_text() {
                    self.failed(Error::NoCreatedEvent)
                } else if self.state is Some && self.pid is Some {
                    CreationView {
                        phase: CreatePhase::SaveCreated,
                        state: Some(self.state->0.created(self.pid->0)),
                        ..self
                    }
                } else {
                    self.failed(Error::UnexpectedEvent)
                }
            },
            (CreatePhase::SaveCreated, CreateEventView::StateSaved) => self.moved(
                CreatePhase::Done,
            ),
            _ => self.failed(Error::UnexpectedEvent),
        }
    }

    /// The creation after the events, in their order.
    pub open spec fn run(self, events: Seq<CreateEventView>) -> CreationView
        decreases events.len(),
    {
        if events.len() == 0 {
            self
        } else {
            self.step(events[0]).run(events.drop_first())
        }
    }

    /// The record that the pending work is to write, if it is to write one.
    pub open spec fn pending_write(self) -> Option<StateView> {
        match self.phase {
            CreatePhase::CreateStore => self.state,
            CreatePhase::SaveCreated => self.state,
            _ => None,
        }
    }
}

impl Container {
    /// Begins the creation of a container. Nothing is done yet: the first
    /// phase asks whether the runtime directory exists.
    pub fn create(args: CreateArgs) -> (creation: Creation)
        ensures
            creation@ == CreationView::begin(args@),
    {
        Creation { args, phase: CreatePhase::ProbeRuntimeDir, state: None, pid: None, error: None }
    }
}

impl Creation {
    /// The outside work that is due, or how the creation ended.
    pub fn phase(&self) -> (phase: CreatePhase)
        ensures
            phase == self@.phase,
    {
        self.phase
    }

    /// What was asked.
    pub fn args(&self) -> (args: &CreateArgs)
        ensures
            args@ == self@.args,
    {
        &self.args
    }

    /// The record as it stands; in the phases `CreateStore` and
    /// `SaveCreated` it is the record to write.
    pub fn state(&self) -> (state: Option<&State>)
        ensures
            match state {
                Some(state) => self@.state == Some(state@),
                None => self@.state is None,
            },
    {
        self.state.as_ref()
    }

    /// The sandbox's host pid, once it runs.
    pub fn pid(&self) -> (pid: Option<i32>)
        ensures
            pid == self@.pid,
    {
        self.pid
    }

    /// Why the creation failed, if it did.
    pub fn error(&self) -> (error: Option<Error>)
        ensures
            error == self@.error,
    {
        self.error
    }

    /// The runtime directory of the new container under `root`.
    pub fn runtime_dir(&self, root: &str) -> (dir: String)
        ensures
            dir@ == runtime_dir_path(root@, self@.args.id),
    {
        runtime_dir(root, self.args.id.as_str())
    }

    /// The state file of the new container under `root`.
    pub fn state_file(&self, root: &str) -> (path: String)
        ensures
            path@ == state_file_path(runtime_dir_path(root@, self@.args.id)),
    {
        state_file(self.runtime_dir(root).as_str())
    }

    /// The start FIFO of the new container under `root`.
    pub fn start_fifo(&self, root: &str) -> (path: String)
        ensures
            path@ == start_fifo_path(runtime_dir_path(root@, self@.args.id)),
    {
        start_fifo(self.runtime_dir(root).as_str())
    }

    /// The configuration to read.
    pub fn config_file(&self) -> (path: String)
        ensures
            path@ == config_file_path(self@.args.bundle),
    {
        config_file(self.args.bundle.as_str())
    }

    /// What the pid file is to hold: the sandbox's host pid in decimal.
    pub fn pid_file_text(&self) -> (text: Option<String>)
        ensures
            match self@.pid {
                Some(pid) => text matches Some(digits) && digits@ == decimal(pid as int),
                None => text is None,
            },
    {
        match self.pid {
            Some(pid) => Some(decimal_string(pid)),
            None => None,
        }
    }

    fn fail(&mut self, error: Error)
        ensures
            final(self)@ == old(self)@.failed(error),
    {
        self.phase = CreatePhase::Failed;
        self.error = Some(error);
    }

    /// Takes note of how the pending work ended, and moves to the phase
    /// that follows.
    pub fn step(&mut self, event: CreateEvent)
        ensures
            final(self)@ == old(self)@.step(event@),
    {
        match self.phase {
            CreatePhase::Done => {},
            CreatePhase::Failed => {},
            CreatePhase::ProbeRuntimeDir => match event {
                CreateEvent::Failed => self.fail(Error::Io(Stage::ProbeRuntimeDir)),
                CreateEvent::RuntimeDirAbsent => {
                    self.phase = CreatePhase::LoadSpec;
                },
                CreateEvent::RuntimeDirPresent => self.fail(Error::Io(Stage::ProbeRuntimeDir)),
                _ => self.fail(Error::UnexpectedEvent),
            },
            CreatePhase::LoadSpec => match event {
                CreateEvent::Failed => self.fail(Error::Io(Stage::LoadSpec)),
                CreateEvent::SpecLoaded { oci_version, annotations } => {
                    let id = self.args.id.clone();
                    let bundle = self.args.bundle.clone();
                    self.state = Some(State::creating(oci_version, id, bundle, annotations));
                    self.phase = CreatePhase::CreateStore;
                },
                _ => self.fail(Error::UnexpectedEvent),
            },
            CreatePhase::CreateStore => match event {
                CreateEvent::Failed => self.fail(Error::Io(Stage::CreateStore)),
                CreateEvent::StoreCreated => {
                    self.phase = CreatePhase::SpawnSandbox;
                },
                _ => self.fail(Error::UnexpectedEvent),
            },
            CreatePhase::SpawnSandbox => match event {
                CreateEvent::Failed => self.fail(Error::Io(Stage::SpawnSandbox)),
                CreateEvent::SandboxSpawned { pid } => {
                    self.pid = Some(pid);
                    self.phase = CreatePhase::WritePidFile;
                },
                _ => self.fail(Error::UnexpectedEvent),
            },
            CreatePhase::WritePidFile => match event {
                CreateEvent::Failed => self.fail(Error::Io(Stage::WritePidFile)),
                CreateEvent::PidFileWritten => {
                    self.phase = CreatePhase::AwaitCreated;
                },
                _ => self.fail(Error::UnexpectedEvent),
            },
            CreatePhase::AwaitCreated => match event {
                CreateEvent::Failed => self.fail(Error::Io(Stage::ReadCreatedEvent)),
                CreateEvent::CreatedEventRead { payload } => {
                    let expected = String::from_str(created_event());
                    if payload != expected {
                        self.fail(Error::NoCreatedEvent);
                    } else {
                        let record = self.state.take();
                        match (record, self.pid) {
                            (Some(mut state), Some(pid)) => {
                                state.status = Status::Created;
                                state.pid = Some(pid);
                                self.state = Some(state);
                                self.phase = CreatePhase::SaveCreated;
                            },
                            (record, _) => {
                                self.state = record;
                                self.fail(Error::UnexpectedEvent);
                            },
                        }
                    }
                },
                _ => self.fail(Error::UnexpectedEvent),
            },
            CreatePhase::SaveCreated => match event {
                CreateEvent::Failed => self.fail(Error::Io(Stage::SaveState)),
                CreateEvent::StateSaved => {
                    self.phase = CreatePhase::Done;
                },
                _ => self.fail(Error::UnexpectedEvent),
            },
        }
    }

    /// The end of the creation: the container, or why there is none. While
    /// work is due there is no end yet.
    pub fn finish(self) -> (end: Option<Result<Container, Error>>)
        ensures
            !self@.phase.ended() ==> end is None,
            self@.phase == CreatePhase::Failed ==> end == Some(
                Err::<Container, Error>(
                    match self@.error {
                        Some(error) => error,
                        None => Error::UnexpectedEvent,
                    },
                ),
            ),
            self@.phase == CreatePhase::Done ==> match self@.state {
                Some(state) => end matches Some(Ok(container)) && container@.id == self@.args.id
                    && container@.state == state,
                None => end == Some(Err::<Container, Error>(Error::UnexpectedEvent)),
            },
    {
        match self.phase {
            CreatePhase::Done => match self.state {
                Some(state) => Some(Ok(Container { id: self.args.id, state })),
                None => Some(Err(Error::UnexpectedEvent)),
            },
            CreatePhase::Failed => match self.error {
                Some(error) => Some(Err(error)),
                None => Some(Err(Error::UnexpectedEvent)),
            },
            _ => None,
        }
    }
}

} // verus!
