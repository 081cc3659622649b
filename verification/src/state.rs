//! The persisted state record of a container and its lifecycle status.

use std::collections::HashMap;
use vstd::prelude::*;
use vstd::string::StringExecFns;

verus! {

/// Where a container stands in its lifecycle.
#[derive(Clone, Copy, Debug, PartialEq, Eq, Structural)]
pub enum Status {
    Creating,
    Created,
    Running,
    Stopped,
}

impl Status {
    /// Whether the sandbox of a container in this status can take a signal.
    pub open spec fn live(self) -> bool {
        self == Status::Created || self == Status::Running
    }

    /// The lower-case word that stands for the status in a state file.
    pub open spec fn word(self) -> Seq<char> {
        match self {
            Status::Creating => "creating"@,
            Status::Created => "created"@,
            Status::Running => "running"@,
            Status::Stopped => "stopped"@,
        }
    }

    /// Whether the sandbox of a container in this status can take a signal.
    pub fn is_live(&self) -> (live: bool)
        ensures
            live == self.live(),
    {
        match self {
            Status::Created | Status::Running => true,
            Status::Creating | Status::Stopped => false,
        }
    }

    /// The lower-case word that stands for the status in a state file.
    pub fn as_str(&self) -> (word: &'static str)
        ensures
            word@ == self.word(),
    {
        match self {
            Status::Creating => "creating",
            Status::Created => "created",
            Status::Running => "running",
            Status::Stopped => "stopped",
        }
    }

    /// The status that a word of a state file stands for; a word that is
    /// none of the four stands for none.
    pub fn parse(word: &str) -> (status: Option<Status>)
        ensures
            match status {
                Some(status) => word@ == status.word(),
                None => forall|status: Status| word@ != #[trigger] status.word(),
            },
    {
        let word = String::from_str(word);
        if word == String::from_str("creating") {
            Some(Status::Creating)
        } else if word == String::from_str("created") {
            Some(Status::Created)
        } else if word == String::from_str("running") {
            Some(Status::Running)
        } else if word == String::from_str("stopped") {
            Some(Status::Stopped)
        } else {
            assert forall|status: Status| word@ != #[trigger] status.word() by {
                match status {
                    Status::Creating => {},
                    Status::Created => {},
                    Status::Running => {},
                    Status::Stopped => {},
                }
            }
            None
        }
    }
}

/// The four words differ, so a status is found again from its word.
pub proof fn lemma_status_words_differ(a: Status, b: Status)
    requires
        a.word() == b.word(),
    ensures
        a == b,
{
    reveal_strlit("creating");
    reveal_strlit("created");
    reveal_strlit("running");
    reveal_strlit("stopped");
    assert("creating"@.len() == 8 && "created"@.len() == 7);
    assert("creating"@[0] == 'c' && "created"@[0] == 'c');
    assert("running"@[0] == 'r' && "stopped"@[0] == 's');
}

impl Default for Status {
    fn default() -> (status: Status)
        ensures
            status == Status::Creating,
    {
        Status::Creating
    }
}

/// The record that is kept on disk for each container.
#[derive(Clone, Debug, PartialEq)]
pub struct State {
    /// Version of the runtime specification the bundle was written for.
    pub oci_version: String,
    /// The container's id.
    pub id: String,
    pub status: Status,
    /// Host pid of the sandbox process, while there is one to signal.
    pub pid: Option<i32>,
    /// The bundle the container was created from.
    pub bundle_path: String,
    /// The annotations of the bundle's configuration.
    pub annotations: Option<HashMap<String, String>>,
}

/// A state record as plain mathematical values.
pub struct StateView {
    pub oci_version: Seq<char>,
    pub id: Seq<char>,
    pub status: Status,
    pub pid: Option<i32>,
    pub bundle_path: Seq<char>,
    pub annotations: Option<Map<Seq<char>, Seq<char>>>,
}

impl View for State {
    type V = StateView;

    open spec fn view(&self) -> StateView {
        StateView {
            oci_version: self.oci_version@,
            id: self.id@,
            status: self.status,
            pid: self.pid,
            bundle_path: self.bundle_path@,
            annotations: self.annotations.deep_view(),
        }
    }
}

impl StateView {
    /// A record has a pid exactly while the sandbox can take signals: none
    /// while its container is being created, none once it has stopped.
    pub open spec fn well_formed(self) -> bool {
        self.pid is Some <==> self.status.live()
    }

    /// The record of a container whose payload runs. The pid stays.
    pub open spec fn running(self) -> StateView {
        StateView { status: Status::Running, ..self }
    }

    /// The record of a container whose payload has ended: the sandbox is
    /// about to exit, so the record names no process any more.
    pub open spec fn stopped(self) -> StateView {
        StateView { status: Status::Stopped, pid: None, ..self }
    }

    /// The record of a container whose sandbox, with host pid `pid`, is set up.
    pub open spec fn created(self, pid: i32) -> StateView {
        StateView { status: Status::Created, pid: Some(pid), ..self }
    }
}

impl State {
    /// The record of a container whose creation has begun: no pid yet.
    pub fn creating(
        oci_version: String,
        id: String,
        bundle_path: String,
        annotations: Option<HashMap<String, String>>,
    ) -> (state: State)
        ensures
            state.oci_version == oci_version,
            state.id == id,
            state.bundle_path == bundle_path,
            state.annotations == annotations,
            state.status == Status::Creating,
            state.pid is None,
            state@.well_formed(),
    {
        State { oci_version, id, status: Status::Creating, pid: None, bundle_path, annotations }
    }

    /// Whether the record has a pid exactly while its status is live.
    pub fn is_well_formed(&self) -> (ok: bool)
        ensures
            ok == self@.well_formed(),
    {
        match self.status {
            Status::Created | Status::Running => self.pid.is_some(),
            Status::Creating | Status::Stopped => self.pid.is_none(),
        }
    }
}

impl Default for State {
    fn default() -> (state: State)
        ensures
            state@.oci_version.len() == 0,
            state@.id.len() == 0,
            state@.bundle_path.len() == 0,
            state.status == Status::Creating,
            state.pid is None,
            state.annotations is None,
    {
        State {
            oci_version: String::new(),
            id: String::new(),
            status: Status::Creating,
            pid: None,
            bundle_path: String::new(),
            annotations: None,
        }
    }
}

} // verus!
