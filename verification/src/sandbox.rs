//! The sandbox: the process that lives in the container's mount namespace,
//! sets it up, waits for the start command and supervises the payload. It
//! is a machine: each phase names the outside work that is due, and each
//! event reports how that work ended.

use crate::bundle::{Spec, SpecView};
use crate::console::{terminal_request, terminal_request_text};
use crate::container::{start_command, start_command_text, Container};
use crate::error::{Error, SpecError, Stage};
use crate::process::{plan_of, Process, ProcessView};
use crate::state::{State, StateView, Status};
use vstd::prelude::*;
use vstd::string::StringExecFns;

verus! {

/// How long the sandbox waits for the start command, in seconds.
pub const START_TIMEOUT_SECS: u64 = 5;

/// The permission bits of the start FIFO: its owner reads and writes.
pub const START_FIFO_MODE: u32 = 0o600;

/// The exit code of a sandbox that failed, or whose payload a signal ended.
pub const FAILURE_EXIT_CODE: i32 = 1;

/// The outside work that a sandbox waits for, or that it has exited.
#[derive(Clone, Copy, Debug, PartialEq, Eq, Structural)]
pub enum SandboxPhase {
    /// Open a pseudoterminal, make its slave side the controlling terminal
    /// and the standard streams, and send the terminal request with the
    /// master side over the console socket.
    SetupPty,
    /// Enter the root filesystem, pivot the root onto it, mark the mounts
    /// below `/` as slaves and detach the old root.
    PivotRoot,
    /// Write the created event to the created-event pipe and close it.
    DispatchCreated,
    /// Wait for the start FIFO to be readable, then read it to its end.
    AwaitStart,
    /// Read the record through the shared state file.
    ReloadState,
    /// Start the payload by the plan.
    LaunchPayload,
    /// Write the record, which says that the container runs.
    SaveRunning,
    /// Wait for the payload to exit.
    WaitPayload,
    /// Write the record, which says that the container has stopped.
    SaveStopped,
    /// Exit with the exit code.
    Exited,
}

impl SandboxPhase {
    /// The outside work of a phase; for the final phase, none.
    pub open spec fn stage(self) -> Option<Stage> {
        match self {
            SandboxPhase::SetupPty => Some(Stage::SetupPty),
            SandboxPhase::PivotRoot => Some(Stage::PivotRoot),
            SandboxPhase::DispatchCreated => Some(Stage::DispatchCreated),
            SandboxPhase::AwaitStart => Some(Stage::AwaitStart),
            SandboxPhase::ReloadState => Some(Stage::ReloadState),
            SandboxPhase::LaunchPayload => Some(Stage::LaunchPayload),
            SandboxPhase::SaveRunning => Some(Stage::SaveState),
            SandboxPhase::WaitPayload => Some(Stage::WaitPayload),
            SandboxPhase::SaveStopped => Some(Stage::SaveState),
            SandboxPhase::Exited => None,
        }
    }
}

/// How a piece of outside work ended.
#[derive(Debug)]
pub enum SandboxEvent {
    /// The terminal is set up and its master side is sent.
    PtyReady,
    /// The root is pivoted.
    RootPivoted,
    /// The created event is written.
    CreatedDispatched,
    /// The start FIFO is at its end; this is what came through it.
    StartCommand { payload: String },
    /// Nothing came through the start FIFO within the waiting time.
    StartTimedOut,
    /// The record was read.
    StateReloaded { state: State },
    /// The payload runs.
    PayloadLaunched,
    /// The record is written.
    StateSaved,
    /// The payload has exited with this code, or a signal ended it.
    PayloadExited { code: Option<i32> },
    /// The system refused the work.
    Failed,
}

/// An event as plain mathematical values.
pub enum SandboxEventView {
    PtyReady,
    RootPivoted,
    CreatedDispatched,
    StartCommand { payload: Seq<char> },
    StartTimedOut,
    StateReloaded { state: StateView },
    PayloadLaunched,
    StateSaved,
    PayloadExited { code: Option<i32> },
    Failed,
}

impl View for SandboxEvent {
    type V = SandboxEventView;

    open spec fn view(&self) -> SandboxEventView {
        match self {
            SandboxEvent::PtyReady => SandboxEventView::PtyReady,
            SandboxEvent::RootPivoted => SandboxEventView::RootPivoted,
            SandboxEvent::CreatedDispatched => SandboxEventView::CreatedDispatched,
            SandboxEvent::StartCommand { payload } => SandboxEventView::StartCommand {
                payload: payload@,
            },
            SandboxEvent::StartTimedOut => SandboxEventView::StartTimedOut,
            SandboxEvent::StateReloaded { state } => SandboxEventView::StateReloaded {
                state: state@,
            },
            SandboxEvent::PayloadLaunched => SandboxEventView::PayloadLaunched,
            SandboxEvent::StateSaved => SandboxEventView::StateSaved,
            SandboxEvent::PayloadExited { code } => SandboxEventView::PayloadExited { code: *code },
            SandboxEvent::Failed => SandboxEventView::Failed,
        }
    }
}

/// The sandbox of one container.
#[derive(Debug)]
pub struct Sandbox {
    id: String,
    spec: Spec,
    console_socket: Option<String>,
    phase: SandboxPhase,
    plan: Option<Process>,
    state: Option<State>,
    exit_code: i32,
    error: Option<Error>,
}

/// A sandbox as plain mathematical values.
pub struct SandboxView {
    /// The container's id.
    pub id: Seq<char>,
    pub spec: SpecView,
    pub console_socket: Option<Seq<char>>,
    pub phase: SandboxPhase,
    /// The plan for the payload, once it is made.
    pub plan: Option<ProcessView>,
    /// The record, once it is read.
    pub state: Option<StateView>,
    /// The code to exit with; it counts in the phase `Exited`.
    pub exit_code: i32,
    /// Why the sandbox failed, if it did.
    pub error: Option<Error>,
}

impl View for Sandbox {
    type V = SandboxView;

    closed spec fn view(&self) -> SandboxView {
        SandboxView {
            id: self.id@,
            spec: self.spec@,
            console_socket: self.console_socket.deep_view(),
            phase: self.phase,
            plan: match self.plan {
                Some(plan) => Some(plan@),
                None => None,
            },
            state: match self.state {
                Some(state) => Some(state@),
                None => None,
            },
            exit_code: self.exit_code,
            error: self.error,
        }
    }
}

impl SandboxView {
    /// The sandbox, exited for a failure.
    pub open spec fn failed(self, error: Error) -> SandboxView {
        SandboxView {
            phase: SandboxPhase::Exited,
            exit_code: FAILURE_EXIT_CODE,
            error: Some(error),
            ..self
        }
    }

    /// The sandbox in another phase.
    pub open spec fn moved(self, phase: SandboxPhase) -> SandboxView {
        SandboxView { phase, ..self }
    }

    /// The sandbox with its record saying that the payload runs.
    pub open spec fn launched(self) -> SandboxView {
        SandboxView {
            state: match self.state {
                Some(state) => Some(state.running()),
                None => None,
            },
            ..self
        }
    }

    /// The sandbox with its record saying that the container has stopped.
    /// The record loses its pid: with the payload gone the sandbox exits,
    /// and there is no process left to signal.
    pub open spec fn ended(self) -> SandboxView {
        SandboxView {
            state: match self.state {
                Some(state) => Some(state.stopped()),
                None => None,
            },
            ..self
        }
    }

    /// The sandbox once its terminal is dealt with: it goes on to pivot the
    /// root if the configuration names one.
    pub open spec fn past_pty(self) -> SandboxView {
        if self.spec.root_path is Some {
            self.moved(SandboxPhase::PivotRoot)
        } else {
            self.failed(Error::Spec(SpecError::MissingRoot))
        }
    }

    /// A sandbox that has done nothing yet. It begins with the terminal
    /// where a console socket is given.
    pub open spec fn begin(
        id: Seq<char>,
        spec: SpecView,
        console_socket: Option<Seq<char>>,
    ) -> SandboxView {
        let fresh = SandboxView {
            id,
            spec,
            console_socket,
            phase: SandboxPhase::SetupPty,
            plan: None,
            state: None,
            exit_code: 0,
            error: None,
        };
        if console_socket is Some {
            fresh
        } else {
            fresh.past_pty()
        }
    }

    /// The code that a sandbox exits with after its payload ended: the
    /// payload's own, or the failure code where a signal ended the payload.
    pub open spec fn code_of(code: Option<i32>) -> i32 {
        match code {
            Some(code) => code,
            None => FAILURE_EXIT_CODE,
        }
    }

    /// The sandbox after an event. Every failure makes it exit with the
    /// failure code; an exited sandbox stays as it is.
    pub open spec fn step(self, event: SandboxEventView) -> SandboxView {
        match (self.phase, event) {
            (SandboxPhase::Exited, _) => self,
            (phase, SandboxEventView::Failed) => self.failed(Error::Io(phase.stage()->0)),
            (SandboxPhase::SetupPty, SandboxEventView::PtyReady) => self.past_pty(),
            (SandboxPhase::PivotRoot, SandboxEventView::RootPivoted) => match plan_of(self.spec) {
                Ok(plan) => SandboxView {
                    phase: SandboxPhase::DispatchCreated,
                    plan: Some(plan),
                    ..self
                },
                Err(error) => self.failed(Error::Spec(error)),
            },
            (SandboxPhase::DispatchCreated, SandboxEventView::CreatedDispatched) => self.moved(
                SandboxPhase::AwaitStart,
            ),
            (SandboxPhase::AwaitStart, SandboxEventView::StartCommand { payload }) => {
                if payload == start_command_text() {
                    self.moved(SandboxPhase::ReloadState)
                } else {
                    self.failed(Error::BadStartCommand)
                }
            },
            (SandboxPhase::AwaitStart, SandboxEventView::StartTimedOut) => self.failed(
                Error::RendezvousTimeout,
            ),
            (SandboxPhase::ReloadState, SandboxEventView::StateReloaded { state }) => SandboxView {
                phase: SandboxPhase::LaunchPayload,
                state: Some(state),
                ..self
            },
            (SandboxPhase::LaunchPayload, SandboxEventView::PayloadLaunched) =>
                self.launched().moved(SandboxPhase::SaveRunning),
            (SandboxPhase::SaveRunning, SandboxEventView::StateSaved) => self.moved(
                SandboxPhase::WaitPayload,
            ),
            (SandboxPhase::WaitPayload, SandboxEventView::PayloadExited { code }) => SandboxView {
                phase: SandboxPhase::SaveStopped,
                exit_code: Self::code_of(code),
                ..self.ended()
            },
            (SandboxPhase::SaveStopped, SandboxEventView::StateSaved) => self.moved(
                SandboxPhase::Exited,
            ),
            _ => self.failed(Error::UnexpectedEvent),
        }
    }

    /// The sandbox after the events, in their order.
    pub open spec fn run(self, events: Seq<SandboxEventView>) -> SandboxView
        decreases events.len(),
    {
        if events.len() == 0 {
            self
        } else {
            self.step(events[0]).run(events.drop_first())
        }
    }

    /// The record that the pending work is to write, if it is to write one.
    pub open spec fn pending_write(self) -> Option<StateView> {
        match self.phase {
            SandboxPhase::SaveRunning => self.state,
            SandboxPhase::SaveStopped => self.state,
            _ => None,
        }
    }
}

impl Sandbox {
    /// The sandbox for a container, before it has done anything. It begins
    /// with the terminal where a console socket is given.
    pub fn new(container: &Container, spec: Spec, console_socket: Option<String>) -> (sandbox:
        Sandbox)
        ensures
            sandbox@ == SandboxView::begin(container.id@, spec@, console_socket.deep_view()),
    {
        let begins_with_pty = console_socket.is_some();
        let mut sandbox = Sandbox {
            id: container.id.clone(),
            spec,
            console_socket,
            phase: SandboxPhase::SetupPty,
            plan: None,
            state: None,
            exit_code: 0,
            error: None,
        };
        if !begins_with_pty {
            sandbox.pass_pty();
        }
        sandbox
    }

    /// The outside work that is due, or that the sandbox has exited.
    pub fn phase(&self) -> (phase: SandboxPhase)
        ensures
            phase == self@.phase,
    {
        self.phase
    }

    /// The console socket to connect to in the phase `SetupPty`.
    pub fn console_socket(&self) -> (socket: Option<&String>)
        ensures
            socket.deep_view() == self@.console_socket,
    {
        self.console_socket.as_ref()
    }

    /// The message to send over the console socket in the phase `SetupPty`.
    pub fn terminal_request(&self) -> (request: String)
        ensures
            request@ == terminal_request_text(self@.id),
    {
        terminal_request(self.id.as_str())
    }

    /// The root filesystem to pivot onto in the phase `PivotRoot`.
    pub fn root_path(&self) -> (root: Option<&String>)
        ensures
            root.deep_view() == self@.spec.root_path,
    {
        self.spec.root_path.as_ref()
    }

    /// The plan to start the payload by in the phase `LaunchPayload`.
    pub fn plan(&self) -> (plan: Option<&Process>)
        ensures
            match plan {
                Some(plan) => self@.plan == Some(plan@),
                None => self@.plan is None,
            },
    {
        self.plan.as_ref()
    }

    /// The record as it stands; in the phases `SaveRunning` and
    /// `SaveStopped` it is the record to write.
    pub fn state(&self) -> (state: Option<&State>)
        ensures
            match state {
                Some(state) => self@.state == Some(state@),
                None => self@.state is None,
            },
    {
        self.state.as_ref()
    }

    /// The code to exit with in the phase `Exited`.
    pub fn exit_code(&self) -> (code: i32)
        ensures
            code == self@.exit_code,
    {
        self.exit_code
    }

    /// Why the sandbox failed, if it did.
    pub fn error(&self) -> (error: Option<Error>)
        ensures
            error == self@.error,
    {
        self.error
    }

    fn fail(&mut self, error: Error)
        ensures
            final(self)@ == old(self)@.failed(error),
    {
        self.phase = SandboxPhase::Exited;
        self.exit_code = FAILURE_EXIT_CODE;
        self.error = Some(error);
    }

    fn pass_pty(&mut self)
        ensures
            final(self)@ == old(self)@.past_pty(),
    {
        if self.spec.root_path.is_some() {
            self.phase = SandboxPhase::PivotRoot;
        } else {
            self.fail(Error::Spec(SpecError::MissingRoot));
        }
    }

    fn launch(&mut self)
        ensures
            final(self)@ == old(self)@.launched(),
    {
        match self.state.take() {
            Some(mut state) => {
                state.status = Status::Running;
                self.state = Some(state);
            },
            None => {},
        }
    }

    fn end(&mut self)
        ensures
            final(self)@ == old(self)@.ended(),
    {
        match self.state.take() {
            Some(mut state) => {
                state.status = Status::Stopped;
                state.pid = None;
                self.state = Some(state);
            },
            None => {},
        }
    }

    /// Takes note of how the pending work ended, and moves to the phase
    /// that follows.
    pub fn step(&mut self, event: SandboxEvent)
        ensures
            final(self)@ == old(self)@.step(event@),
    {
        match self.phase {
            SandboxPhase::Exited => {},
            SandboxPhase::SetupPty => match event {
                SandboxEvent::Failed => self.fail(Error::Io(Stage::SetupPty)),
                SandboxEvent::PtyReady => self.pass_pty(),
                _ => self.fail(Error::UnexpectedEvent),
            },
            SandboxPhase::PivotRoot => match event {
                SandboxEvent::Failed => self.fail(Error::Io(Stage::PivotRoot)),
                SandboxEvent::RootPivoted => match Process::try_from(&self.spec) {
                    Ok(plan) => {
                        self.plan = Some(plan);
                        self.phase = SandboxPhase::DispatchCreated;
                    },
                    Err(error) => self.fail(Error::Spec(error)),
                },
                _ => self.fail(Error::UnexpectedEvent),
            },
            SandboxPhase::DispatchCreated => match event {
                SandboxEvent::Failed => self.fail(Error::Io(Stage::DispatchCreated)),
                SandboxEvent::CreatedDispatched => {
                    self.phase = SandboxPhase::AwaitStart;
                },
                _ => self.fail(Error::UnexpectedEvent),
            },
            SandboxPhase::AwaitStart => match event {
                SandboxEvent::Failed => self.fail(Error::Io(Stage::AwaitStart)),
                SandboxEvent::StartCommand { payload } => {
                    let expected = String::from_str(start_command());
                    if payload == expected {
                        self.phase = SandboxPhase::ReloadState;
                    } else {
                        self.fail(Error::BadStartCommand);
                    }
                },
                SandboxEvent::StartTimedOut => self.fail(Error::RendezvousTimeout),
                _ => self.fail(Error::UnexpectedEvent),
            },
            SandboxPhase::ReloadState => match event {
                SandboxEvent::Failed => self.fail(Error::Io(Stage::ReloadState)),
                SandboxEvent::StateReloaded { state } => {
                    self.state = Some(state);
                    self.phase = SandboxPhase::LaunchPayload;
                },
                _ => self.fail(Error::UnexpectedEvent),
            },
            SandboxPhase::LaunchPayload => match event {
                SandboxEvent::Failed => self.fail(Error::Io(Stage::LaunchPayload)),
                SandboxEvent::PayloadLaunched => {
                    self.launch();
                    self.phase = SandboxPhase::SaveRunning;
                },
                _ => self.fail(Error::UnexpectedEvent),
            },
            SandboxPhase::SaveRunning => match event {
                SandboxEvent::Failed => self.fail(Error::Io(Stage::SaveState)),
                SandboxEvent::StateSaved => {
                    self.phase = SandboxPhase::WaitPayload;
                },
                _ => self.fail(Error::UnexpectedEvent),
            },
            SandboxPhase::WaitPayload => match event {
                SandboxEvent::Failed => self.fail(Error::Io(Stage::WaitPayload)),
                SandboxEvent::PayloadExited { code } => {
                    self.end();
                    self.exit_code = match code {
                        Some(code) => code,
                        None => FAILURE_EXIT_CODE,
                    };
                    self.phase = SandboxPhase::SaveStopped;
                },
                _ => self.fail(Error::UnexpectedEvent),
            },
            SandboxPhase::SaveStopped => match event {
                SandboxEvent::Failed => self.fail(Error::Io(Stage::SaveState)),
                SandboxEvent::StateSaved => {
                    self.phase = SandboxPhase::Exited;
                },
                _ => self.fail(Error::UnexpectedEvent),
            },
        }
    }
}

} // verus!
