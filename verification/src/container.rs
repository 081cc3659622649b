//! The operations on one container: what each of them decides, and what it
//! asks the caller to do on the system.

use crate::error::{Error, Precondition};
use crate::layout::{runtime_dir, runtime_dir_path, start_fifo, start_fifo_path};
use crate::signal::SignalNumber;
use crate::state::{State, StateView, Status};
use crate::store::ReadOutcome;
use vstd::prelude::*;

verus! {

/// The payload of the start FIFO that releases the sandbox.
pub open spec fn start_command_text() -> Seq<char> {
    "start"@
}

/// The payload of the start FIFO that releases the sandbox.
pub fn start_command() -> (text: &'static str)
    ensures
        text@ == start_command_text(),
{
    "start"
}

/// A container: its id and its state record as last read or written.
#[derive(Clone, Debug, PartialEq)]
pub struct Container {
    pub id: String,
    pub state: State,
}

/// A container as plain mathematical values.
pub struct ContainerView {
    pub id: Seq<char>,
    pub state: StateView,
}

impl View for Container {
    type V = ContainerView;

    open spec fn view(&self) -> ContainerView {
        ContainerView { id: self.id@, state: self.state@ }
    }
}

/// What `start` asks for: these bytes, written to this FIFO.
#[derive(Debug, PartialEq)]
pub struct StartRequest {
    pub fifo: String,
    pub payload: &'static str,
}

/// What `kill` asks for: this signal, sent to this process.
#[derive(Debug, PartialEq)]
pub struct KillRequest {
    pub pid: i32,
    pub signal: SignalNumber,
}

/// What `delete` asks for.
#[derive(Debug, PartialEq)]
pub struct Removal {
    /// The process to send SIGKILL to before the removal, if any. That the
    /// signal cannot be sent does not stop the removal.
    pub kill: Option<i32>,
    /// The runtime directory, to be removed with all that it holds.
    pub dir: String,
}

impl Container {
    /// The container's runtime directory under the runtime root `root`.
    pub fn runtime_dir(&self, root: &str) -> (dir: String)
        ensures
            dir@ == runtime_dir_path(root@, self.id@),
    {
        runtime_dir(root, self.id.as_str())
    }

    /// The container `id` as its state file shows it: `NotFound` where
    /// there is no file, `Corrupt` where the file holds no record.
    pub fn load(id: &str, read: ReadOutcome) -> (loaded: Result<Container, Error>)
        ensures
            match read {
                ReadOutcome::Missing => loaded == Err::<Container, Error>(Error::NotFound),
                ReadOutcome::Unparsable => loaded == Err::<Container, Error>(Error::Corrupt),
                ReadOutcome::Record(state) => loaded matches Ok(container) && container.id@ == id@
                    && container.state == state,
            },
    {
        match read {
            ReadOutcome::Missing => Err(Error::NotFound),
            ReadOutcome::Unparsable => Err(Error::Corrupt),
            ReadOutcome::Record(state) => Ok(Container { id: id.to_owned(), state }),
        }
    }

    /// Takes over what a fresh read of the state file gave. Without a
    /// record the container stays as it was.
    pub fn reload(&mut self, read: ReadOutcome) -> (reloaded: Result<(), Error>)
        ensures
            final(self).id == old(self).id,
            match read {
                ReadOutcome::Missing => reloaded == Err::<(), Error>(Error::NotFound)
                    && final(self).state == old(self).state,
                ReadOutcome::Unparsable => reloaded == Err::<(), Error>(Error::Corrupt)
                    && final(self).state == old(self).state,
                ReadOutcome::Record(state) => reloaded is Ok && final(self).state == state,
            },
    {
        match read {
            ReadOutcome::Missing => Err(Error::NotFound),
            ReadOutcome::Unparsable => Err(Error::Corrupt),
            ReadOutcome::Record(state) => {
                self.state = state;
                Ok(())
            },
        }
    }

    /// The state record. Reading it changes nothing.
    pub fn state(&self) -> (state: &State)
        ensures
            *state == self.state,
    {
        &self.state
    }

    /// Releases the sandbox: the start command goes to the start FIFO of
    /// the container's runtime directory. The record is not touched; from
    /// here on the sandbox writes it.
    pub fn start(&self, root: &str) -> (request: StartRequest)
        ensures
            request.fifo@ == start_fifo_path(runtime_dir_path(root@, self.id@)),
            request.payload@ == start_command_text(),
    {
        let dir = self.runtime_dir(root);
        StartRequest { fifo: start_fifo(dir.as_str()), payload: start_command() }
    }

    /// Decides whether the sandbox can be sent `signal`: not while the
    /// container is creating or once it has stopped. The record is left as
    /// it is; the sandbox alone marks the container as stopped.
    pub fn kill(&mut self, signal: SignalNumber) -> (request: Result<KillRequest, Error>)
        requires
            old(self).state.status.live() ==> old(self).state.pid is Some,
        ensures
            *final(self) == *old(self),
            !old(self).state.status.live() ==> request == Err::<KillRequest, Error>(
                Error::Precondition(Precondition::NotLive),
            ),
            old(self).state.status.live() ==> request == Ok::<KillRequest, Error>(
                KillRequest { pid: old(self).state.pid->0, signal },
            ),
    {
        if !self.state.status.is_live() {
            return Err(Error::Precondition(Precondition::NotLive));
        }
        match self.state.pid {
            Some(pid) => Ok(KillRequest { pid, signal }),
            None => Err(Error::Precondition(Precondition::NotLive)),
        }
    }

    /// Decides whether the container can be removed: once it has stopped,
    /// or by force. By force the sandbox of a container that has not
    /// stopped gets SIGKILL first, if the record names one.
    pub fn delete(self, force: bool, root: &str) -> (removal: Result<Removal, Error>)
        ensures
            self.state.status != Status::Stopped && !force ==> removal == Err::<Removal, Error>(
                Error::Precondition(Precondition::NotStopped),
            ),
            self.state.status == Status::Stopped || force ==> (removal matches Ok(plan) && {
                &&& plan.dir@ == runtime_dir_path(root@, self.id@)
                &&& plan.kill == if self.state.status == Status::Stopped {
                    None
                } else {
                    self.state.pid
                }
            }),
    {
        let stopped = match self.state.status {
            Status::Stopped => true,
            _ => false,
        };
        if !stopped && !force {
            return Err(Error::Precondition(Precondition::NotStopped));
        }
        let dir = self.runtime_dir(root);
        let kill = if stopped {
            None
        } else {
            self.state.pid
        };
        Ok(Removal { kill, dir })
    }
}

} // verus!
