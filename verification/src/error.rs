//! The ways an operation of the runtime can fail.

use vstd::prelude::*;

verus! {

/// A required part of the bundle's configuration is absent or malformed.
#[derive(Clone, Copy, Debug, PartialEq, Eq, Structural)]
pub enum SpecError {
    /// The configuration has no process block.
    MissingProcess,
    /// The process block has no argument list.
    MissingArgs,
    /// The argument list names no program.
    EmptyArgs,
    /// The environment entry at `index` has no `=`.
    MalformedEnv { index: usize },
    /// The configuration names no root filesystem.
    MissingRoot,
}

/// The piece of outside work that was under way when the system refused it.
#[derive(Clone, Copy, Debug, PartialEq, Eq, Structural)]
pub enum Stage {
    ProbeRuntimeDir,
    LoadSpec,
    CreateStore,
    SpawnSandbox,
    WritePidFile,
    ReadCreatedEvent,
    SaveState,
    SetupPty,
    PivotRoot,
    DispatchCreated,
    AwaitStart,
    ReloadState,
    LaunchPayload,
    WaitPayload,
}

impl Stage {
    /// The text of `describe`.
    pub open spec fn description(self) -> Seq<char> {
        match self {
            Stage::ProbeRuntimeDir => "creating runtime dir for container"@,
            Stage::LoadSpec => "loading container spec"@,
            Stage::CreateStore => "creating container state file"@,
            Stage::SpawnSandbox => "spawning sandbox"@,
            Stage::WritePidFile => "saving container pid to file"@,
            Stage::ReadCreatedEvent => "reading created event"@,
            Stage::SaveState => "saving container state"@,
            Stage::SetupPty => "setting up pty"@,
            Stage::PivotRoot => "pivoting root"@,
            Stage::DispatchCreated => "dispatching created event"@,
            Stage::AwaitStart => "waiting for start command"@,
            Stage::ReloadState => "reloading container"@,
            Stage::LaunchPayload => "spawning process"@,
            Stage::WaitPayload => "executing process"@,
        }
    }

    /// What was being done, in words.
    pub fn describe(&self) -> (text: &'static str)
        ensures
            text@ == self.description(),
    {
        match self {
            Stage::ProbeRuntimeDir => "creating runtime dir for container",
            Stage::LoadSpec => "loading container spec",
            Stage::CreateStore => "creating container state file",
            Stage::SpawnSandbox => "spawning sandbox",
            Stage::WritePidFile => "saving container pid to file",
            Stage::ReadCreatedEvent => "reading created event",
            Stage::SaveState => "saving container state",
            Stage::SetupPty => "setting up pty",
            Stage::PivotRoot => "pivoting root",
            Stage::DispatchCreated => "dispatching created event",
            Stage::AwaitStart => "waiting for start command",
            Stage::ReloadState => "reloading container",
            Stage::LaunchPayload => "spawning process",
            Stage::WaitPayload => "executing process",
        }
    }
}

/// An operation was asked of a container whose status forbids it.
#[derive(Clone, Copy, Debug, PartialEq, Eq, Structural)]
pub enum Precondition {
    /// A signal for a container that is creating or stopped.
    NotLive,
    /// Removal, without force, of a container that has not stopped.
    NotStopped,
}

/// Why an operation failed.
#[derive(Clone, Copy, Debug, PartialEq, Eq, Structural)]
pub enum Error {
    /// The bundle's configuration cannot be run.
    Spec(SpecError),
    /// The system refused the work of the given stage.
    Io(Stage),
    /// The container's status forbids the operation.
    Precondition(Precondition),
    /// The sandbox saw no start command within its waiting time.
    RendezvousTimeout,
    /// No runtime directory, or no state file in it, for the id.
    NotFound,
    /// The state file does not hold a state record.
    Corrupt,
    /// The sandbox ended without reporting that it was set up.
    NoCreatedEvent,
    /// The start FIFO delivered something other than the start command.
    BadStartCommand,
    /// The number names no signal of this system.
    InvalidSignal { number: i32 },
    /// The driver reported an event that the pending action cannot produce.
    UnexpectedEvent,
}

impl Error {
    /// The text of `message`.
    pub open spec fn message_text(self) -> Seq<char> {
        match self {
            Error::Spec(SpecError::MissingProcess) => "spec does not contain process"@,
            Error::Spec(SpecError::MissingArgs) => "spec process does not contain args"@,
            Error::Spec(SpecError::EmptyArgs) => "process args is empty"@,
            Error::Spec(SpecError::MalformedEnv { .. }) => "process env entry has no '='"@,
            Error::Spec(SpecError::MissingRoot) => "spec does not contain root"@,
            Error::Io(stage) => stage.description(),
            Error::Precondition(Precondition::NotLive) =>
                "container is creating or stopped and can't be killed"@,
            Error::Precondition(Precondition::NotStopped) =>
                "container is not stopped and can't be deleted"@,
            Error::RendezvousTimeout => "timed out waiting for start command"@,
            Error::NotFound => "container not found"@,
            Error::Corrupt => "container state file is corrupt"@,
            Error::NoCreatedEvent => "sandbox did not report created"@,
            Error::BadStartCommand => "unexpected start command"@,
            Error::InvalidSignal { .. } => "invalid signal number"@,
            Error::UnexpectedEvent => "unexpected event"@,
        }
    }

    /// A one-line description for the operator.
    pub fn message(&self) -> (text: &'static str)
        ensures
            text@ == self.message_text(),
    {
        match self {
            Error::Spec(SpecError::MissingProcess) => "spec does not contain process",
            Error::Spec(SpecError::MissingArgs) => "spec process does not contain args",
            Error::Spec(SpecError::EmptyArgs) => "process args is empty",
            Error::Spec(SpecError::MalformedEnv { .. }) => "process env entry has no '='",
            Error::Spec(SpecError::MissingRoot) => "spec does not contain root",
            Error::Io(stage) => stage.describe(),
            Error::Precondition(Precondition::NotLive) =>
                "container is creating or stopped and can't be killed",
            Error::Precondition(Precondition::NotStopped) =>
                "container is not stopped and can't be deleted",
            Error::RendezvousTimeout => "timed out waiting for start command",
            Error::NotFound => "container not found",
            Error::Corrupt => "container state file is corrupt",
            Error::NoCreatedEvent => "sandbox did not report created",
            Error::BadStartCommand => "unexpected start command",
            Error::InvalidSignal { .. } => "invalid signal number",
            Error::UnexpectedEvent => "unexpected event",
        }
    }
}

} // verus!
