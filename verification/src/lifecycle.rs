//! What holds of every run of a creation and of a sandbox: which records
//! they ask to have written, and in which order.

use crate::bundle::SpecView;
use crate::container::start_command_text;
use crate::creation::{
    created_event_text, CreateArgsView, CreateEventView, CreatePhase, CreationView,
};
use crate::error::{Error, Stage};
use crate::layout::{basename, lemma_runtime_dir_named_by_id, path_safe, runtime_dir_path};
use crate::process::plan_of;
use crate::sandbox::{SandboxEventView, SandboxPhase, SandboxView, FAILURE_EXIT_CODE};
use crate::state::{StateView, Status};
use vstd::prelude::*;

verus! {

/// The four statuses in the order in which a container passes through them.
pub open spec fn lifecycle() -> Seq<Status> {
    seq![Status::Creating, Status::Created, Status::Running, Status::Stopped]
}

/// The statuses of a list of records.
pub open spec fn statuses(records: Seq<StateView>) -> Seq<Status> {
    Seq::new(records.len(), |i: int| records[i].status)
}

impl CreationView {
    /// The records that a run asks to have written, in their order.
    pub open spec fn records(self, events: Seq<CreateEventView>) -> Seq<StateView>
        decreases events.len(),
    {
        if events.len() == 0 {
            Seq::empty()
        } else {
            let next = self.step(events[0]);
            let asked = if next.phase != self.phase && next.pending_write() is Some {
                seq![next.pending_write()->0]
            } else {
                Seq::empty()
            };
            asked + next.records(events.drop_first())
        }
    }

    /// Whether the creation waits for the store, the sandbox, the pid file
    /// or the created event.
    pub open spec fn underway(self) -> bool {
        ||| self.phase == CreatePhase::CreateStore
        ||| self.phase == CreatePhase::SpawnSandbox
        ||| self.phase == CreatePhase::WritePidFile
        ||| self.phase == CreatePhase::AwaitCreated
    }

    /// Whether the creation has read the created event, or has failed.
    pub open spec fn settled(self) -> bool {
        ||| self.phase == CreatePhase::SaveCreated
        ||| self.phase == CreatePhase::Done
        ||| self.phase == CreatePhase::Failed
    }
}

/// Whether the events hold the sandbox's word that it is set up.
pub open spec fn reports_created(events: Seq<CreateEventView>) -> bool {
    exists|i: int|
        0 <= i < events.len() && #[trigger] events[i] == (CreateEventView::CreatedEventRead {
            payload: created_event_text(),
        })
}

proof fn lemma_reports_created_later(events: Seq<CreateEventView>)
    requires
        events.len() > 0,
        reports_created(events.drop_first()),
    ensures
        reports_created(events),
{
    let rest = events.drop_first();
    let i = choose|i: int|
        0 <= i < rest.len() && #[trigger] rest[i] == (CreateEventView::CreatedEventRead {
            payload: created_event_text(),
        });
    assert(events[i + 1] == rest[i]);
}

proof fn lemma_settled_creation_asks_nothing(creation: CreationView, events: Seq<CreateEventView>)
    requires
        creation.settled(),
    ensures
        creation.records(events).len() == 0,
    decreases events.len(),
{
    if events.len() > 0 {
        let next = creation.step(events[0]);
        lemma_settled_creation_asks_nothing(next, events.drop_first());
    }
}

proof fn lemma_underway_creation_asks_once(creation: CreationView, events: Seq<CreateEventView>)
    requires
        creation.underway(),
        creation.state is Some,
    ensures
        creation.records(events).len() <= 1,
        creation.records(events).len() == 1 ==> {
            let last = creation.records(events)[0];
            &&& last.pid is Some
            &&& last == creation.state->0.created(last.pid->0)
            &&& reports_created(events)
        },
    decreases events.len(),
{
    if events.len() > 0 {
        let next = creation.step(events[0]);
        let rest = events.drop_first();
        if next.settled() {
            lemma_settled_creation_asks_nothing(next, rest);
            if next.phase == CreatePhase::SaveCreated {
                assert(events[0] == (CreateEventView::CreatedEventRead {
                    payload: created_event_text(),
                }));
            }
        } else {
            lemma_underway_creation_asks_once(next, rest);
            if next.records(rest).len() == 1 {
                lemma_reports_created_later(events);
            }
        }
    }
}

/// A creation asks for at most two writes. The first record is the
/// container's own, with the status `Creating` and without a pid. The
/// second is the first with the status `Created` and the pid of the
/// sandbox, and is asked for only once the sandbox has reported that it is
/// set up.
pub proof fn lemma_creation_records(args: CreateArgsView, events: Seq<CreateEventView>)
    ensures
        ({
            let records = CreationView::begin(args).records(events);
            &&& records.len() <= 2
            &&& records.len() >= 1 ==> {
                &&& records[0].id == args.id
                &&& records[0].bundle_path == args.bundle
                &&& records[0].status == Status::Creating
                &&& records[0].pid is None
            }
            &&& records.len() == 2 ==> {
                &&& records[1].pid is Some
                &&& records[1] == records[0].created(records[1].pid->0)
                &&& reports_created(events)
            }
        }),
{
    lemma_early_creation_records(CreationView::begin(args), events);
}

proof fn lemma_early_creation_records(creation: CreationView, events: Seq<CreateEventView>)
    requires
        creation.phase == CreatePhase::ProbeRuntimeDir || creation.phase == CreatePhase::LoadSpec,
    ensures
        ({
            let records = creation.records(events);
            &&& records.len() <= 2
            &&& records.len() >= 1 ==> {
                &&& records[0].id == creation.args.id
                &&& records[0].bundle_path == creation.args.bundle
                &&& records[0].status == Status::Creating
                &&& records[0].pid is None
            }
            &&& records.len() == 2 ==> {
                &&& records[1].pid is Some
                &&& records[1] == records[0].created(records[1].pid->0)
                &&& reports_created(events)
            }
        }),
    decreases events.len(),
{
    if events.len() > 0 {
        let next = creation.step(events[0]);
        let rest = events.drop_first();
        if next.settled() {
            lemma_settled_creation_asks_nothing(next, rest);
        } else if next.underway() {
            lemma_underway_creation_asks_once(next, rest);
            if next.records(rest).len() == 1 {
                lemma_reports_created_later(events);
            }
        } else {
            lemma_early_creation_records(next, rest);
            if next.records(rest).len() == 2 {
                lemma_reports_created_later(events);
            }
        }
    }
}

/// Whether the events report a configuration with this version and these
/// annotations.
pub open spec fn loads(
    events: Seq<CreateEventView>,
    oci_version: Seq<char>,
    annotations: Option<Map<Seq<char>, Seq<char>>>,
) -> bool {
    exists|i: int|
        0 <= i < events.len() && #[trigger] events[i] == (CreateEventView::SpecLoaded {
            oci_version,
            annotations,
        })
}

proof fn lemma_loads_later(
    events: Seq<CreateEventView>,
    oci_version: Seq<char>,
    annotations: Option<Map<Seq<char>, Seq<char>>>,
)
    requires
        events.len() > 0,
        loads(events.drop_first(), oci_version, annotations),
    ensures
        loads(events, oci_version, annotations),
{
    let rest = events.drop_first();
    let i = choose|i: int|
        0 <= i < rest.len() && #[trigger] rest[i] == (CreateEventView::SpecLoaded {
            oci_version,
            annotations,
        });
    assert(events[i + 1] == rest[i]);
}

proof fn lemma_settled_creation_keeps_record(
    creation: CreationView,
    events: Seq<CreateEventView>,
)
    requires
        creation.settled(),
    ensures
        ({
            let end = creation.run(events);
            &&& end.args == creation.args
            &&& end.state == creation.state
            &&& end.pid == creation.pid
            &&& end.phase == CreatePhase::Done ==> creation.phase != CreatePhase::Failed
        }),
    decreases events.len(),
{
    if events.len() > 0 {
        lemma_settled_creation_keeps_record(creation.step(events[0]), events.drop_first());
    }
}

proof fn lemma_underway_creation_ends_created(
    creation: CreationView,
    events: Seq<CreateEventView>,
)
    requires
        creation.underway(),
        creation.state is Some,
        creation.run(events).phase == CreatePhase::Done,
    ensures
        ({
            let end = creation.run(events);
            &&& end.args == creation.args
            &&& end.pid is Some
            &&& end.state == Some(creation.state->0.created(end.pid->0))
        }),
    decreases events.len(),
{
    if events.len() > 0 {
        let next = creation.step(events[0]);
        let rest = events.drop_first();
        if next.settled() {
            lemma_settled_creation_keeps_record(next, rest);
        } else {
            lemma_underway_creation_ends_created(next, rest);
        }
    }
}

proof fn lemma_early_creation_ends_created(creation: CreationView, events: Seq<CreateEventView>)
    requires
        creation.phase == CreatePhase::ProbeRuntimeDir || creation.phase == CreatePhase::LoadSpec,
        creation.run(events).phase == CreatePhase::Done,
    ensures
        ({
            let end = creation.run(events);
            &&& end.args == creation.args
            &&& end.pid is Some
            &&& end.state is Some
            &&& end.state->0 == creation.first_record(
                end.state->0.oci_version,
                end.state->0.annotations,
            ).created(end.pid->0)
            &&& loads(events, end.state->0.oci_version, end.state->0.annotations)
        }),
    decreases events.len(),
{
    if events.len() > 0 {
        let next = creation.step(events[0]);
        let rest = events.drop_first();
        if next.settled() {
            lemma_settled_creation_keeps_record(next, rest);
        } else if next.underway() {
            lemma_underway_creation_ends_created(next, rest);
            let first = next.state->0;
            assert(events[0] == (CreateEventView::SpecLoaded {
                oci_version: first.oci_version,
                annotations: first.annotations,
            }));
        } else {
            lemma_early_creation_ends_created(next, rest);
            let end = creation.run(events);
            lemma_loads_later(events, end.state->0.oci_version, end.state->0.annotations);
        }
    }
}

/// The record of a container whose creation has succeeded: it bears the id
/// and the bundle that were asked for, the version and the annotations of
/// the configuration that was read, the status `Created` and the pid of the
/// sandbox. Where the id is safe as a path, it is the name of the
/// container's runtime directory under every runtime root.
pub proof fn lemma_created_container(
    args: CreateArgsView,
    events: Seq<CreateEventView>,
    root: Seq<char>,
)
    requires
        CreationView::begin(args).run(events).phase == CreatePhase::Done,
    ensures
        ({
            let end = CreationView::begin(args).run(events);
            &&& end.args == args
            &&& end.state is Some
            &&& end.state->0.id == args.id
            &&& end.state->0.bundle_path == args.bundle
            &&& end.state->0.status == Status::Created
            &&& end.state->0.pid is Some
            &&& end.state->0.pid == end.pid
            &&& end.state->0.well_formed()
            &&& loads(events, end.state->0.oci_version, end.state->0.annotations)
            &&& path_safe(args.id) ==> basename(runtime_dir_path(root, end.state->0.id))
                == end.state->0.id
        }),
{
    lemma_early_creation_ends_created(CreationView::begin(args), events);
    if path_safe(args.id) {
        lemma_runtime_dir_named_by_id(root, args.id);
    }
}

/// A creation that finds the runtime directory in place fails at once and
/// stays failed: it never reads the configuration, so it has no record, and
/// it asks for no write.
pub proof fn lemma_existing_directory_fails_first(
    args: CreateArgsView,
    events: Seq<CreateEventView>,
)
    requires
        events.len() > 0,
        events[0] == CreateEventView::RuntimeDirPresent,
    ensures
        ({
            let end = CreationView::begin(args).run(events);
            &&& end.phase == CreatePhase::Failed
            &&& end.error == Some(Error::Io(Stage::ProbeRuntimeDir))
            &&& end.state is None
        }),
        CreationView::begin(args).records(events).len() == 0,
{
    let failed = CreationView::begin(args).step(events[0]);
    lemma_failed_creation_stays(failed, events.drop_first());
    lemma_settled_creation_asks_nothing(failed, events.drop_first());
}

proof fn lemma_failed_creation_stays(creation: CreationView, events: Seq<CreateEventView>)
    requires
        creation.phase == CreatePhase::Failed,
    ensures
        creation.run(events) == creation,
    decreases events.len(),
{
    if events.len() > 0 {
        lemma_failed_creation_stays(creation.step(events[0]), events.drop_first());
    }
}

impl SandboxView {
    /// The records that a run asks to have written, in their order.
    pub open spec fn records(self, events: Seq<SandboxEventView>) -> Seq<StateView>
        decreases events.len(),
    {
        if events.len() == 0 {
            Seq::empty()
        } else {
            let next = self.step(events[0]);
            let asked = if next.phase != self.phase && next.pending_write() is Some {
                seq![next.pending_write()->0]
            } else {
                Seq::empty()
            };
            asked + next.records(events.drop_first())
        }
    }

    /// Whether the sandbox has not read the record yet.
    pub open spec fn setting_up(self) -> bool {
        ||| self.phase == SandboxPhase::SetupPty
        ||| self.phase == SandboxPhase::PivotRoot
        ||| self.phase == SandboxPhase::DispatchCreated
        ||| self.phase == SandboxPhase::AwaitStart
        ||| self.phase == SandboxPhase::ReloadState
    }

    /// Whether the sandbox has yet to send the created event.
    pub open spec fn before_created(self) -> bool {
        ||| self.phase == SandboxPhase::SetupPty
        ||| self.phase == SandboxPhase::PivotRoot
    }
}

/// Whether the events tell the sandbox that it read the record `state`.
pub open spec fn reloads(events: Seq<SandboxEventView>, state: StateView) -> bool {
    exists|i: int|
        0 <= i < events.len() && #[trigger] events[i] == (SandboxEventView::StateReloaded { state })
}

proof fn lemma_reloads_later(events: Seq<SandboxEventView>, state: StateView)
    requires
        events.len() > 0,
        reloads(events.drop_first(), state),
    ensures
        reloads(events, state),
{
    let rest = events.drop_first();
    let i = choose|i: int|
        0 <= i < rest.len() && #[trigger] rest[i] == (SandboxEventView::StateReloaded { state });
    assert(events[i + 1] == rest[i]);
}

proof fn lemma_ending_sandbox_asks_nothing(sandbox: SandboxView, events: Seq<SandboxEventView>)
    requires
        sandbox.phase == SandboxPhase::SaveStopped || sandbox.phase == SandboxPhase::Exited,
    ensures
        sandbox.records(events).len() == 0,
    decreases events.len(),
{
    if events.len() > 0 {
        lemma_ending_sandbox_asks_nothing(sandbox.step(events[0]), events.drop_first());
    }
}

proof fn lemma_running_sandbox_asks_once(sandbox: SandboxView, events: Seq<SandboxEventView>)
    requires
        sandbox.phase == SandboxPhase::SaveRunning || sandbox.phase == SandboxPhase::WaitPayload,
    ensures
        sandbox.records(events).len() <= 1,
        sandbox.records(events).len() == 1 ==> {
            &&& sandbox.state is Some
            &&& sandbox.records(events)[0] == sandbox.state->0.stopped()
        },
    decreases events.len(),
{
    if events.len() > 0 {
        let next = sandbox.step(events[0]);
        let rest = events.drop_first();
        if next.phase == SandboxPhase::SaveStopped || next.phase == SandboxPhase::Exited {
            lemma_ending_sandbox_asks_nothing(next, rest);
        } else {
            lemma_running_sandbox_asks_once(next, rest);
        }
    }
}

proof fn lemma_launching_sandbox_asks_twice(sandbox: SandboxView, events: Seq<SandboxEventView>)
    requires
        sandbox.phase == SandboxPhase::LaunchPayload,
    ensures
        ({
            let records = sandbox.records(events);
            &&& records.len() <= 2
            &&& records.len() >= 1 ==> {
                &&& sandbox.state is Some
                &&& records[0] == sandbox.state->0.running()
            }
            &&& records.len() == 2 ==> records[1] == records[0].stopped()
        }),
    decreases events.len(),
{
    if events.len() > 0 {
        let next = sandbox.step(events[0]);
        let rest = events.drop_first();
        if next.phase == SandboxPhase::Exited {
            lemma_ending_sandbox_asks_nothing(next, rest);
        } else {
            lemma_running_sandbox_asks_once(next, rest);
        }
    }
}

proof fn lemma_setting_up_sandbox_records(sandbox: SandboxView, events: Seq<SandboxEventView>)
    requires
        sandbox.setting_up(),
    ensures
        ({
            let records = sandbox.records(events);
            &&& records.len() <= 2
            &&& records.len() >= 1 ==> exists|read: StateView| #[trigger]
                reloads(events, read) && records[0] == read.running()
            &&& records.len() == 2 ==> records[1] == records[0].stopped()
        }),
    decreases events.len(),
{
    if events.len() > 0 {
        let next = sandbox.step(events[0]);
        let rest = events.drop_first();
        let records = sandbox.records(events);
        if next.phase == SandboxPhase::Exited {
            lemma_ending_sandbox_asks_nothing(next, rest);
        } else if next.phase == SandboxPhase::LaunchPayload {
            lemma_launching_sandbox_asks_twice(next, rest);
            if records.len() >= 1 {
                let read = next.state->0;
                assert(events[0] == (SandboxEventView::StateReloaded { state: read }));
                assert(reloads(events, read));
            }
        } else {
            lemma_setting_up_sandbox_records(next, rest);
            if records.len() >= 1 {
                let read = choose|read: StateView| #[trigger]
                    reloads(rest, read) && next.records(rest)[0] == read.running();
                lemma_reloads_later(events, read);
            }
        }
    }
}

/// A sandbox asks for at most two writes. The first record is the one it
/// read, with the status `Running`; the second is the first with the status
/// `Stopped` and without a pid. Nothing else of the record changes.
pub proof fn lemma_sandbox_records(
    id: Seq<char>,
    spec: SpecView,
    console_socket: Option<Seq<char>>,
    events: Seq<SandboxEventView>,
)
    ensures
        ({
            let records = SandboxView::begin(id, spec, console_socket).records(events);
            &&& records.len() <= 2
            &&& records.len() >= 1 ==> exists|read: StateView| #[trigger]
                reloads(events, read) && records[0] == read.running()
            &&& records.len() == 2 ==> records[1] == records[0].stopped()
        }),
{
    let sandbox = SandboxView::begin(id, spec, console_socket);
    if sandbox.phase == SandboxPhase::Exited {
        lemma_ending_sandbox_asks_nothing(sandbox, events);
    } else {
        lemma_setting_up_sandbox_records(sandbox, events);
    }
}

/// Over a whole life of a container, from the creation to the end of the
/// payload, the statuses of the records that are written are a prefix of
/// `Creating`, `Created`, `Running`, `Stopped`; every record bears the
/// container's id; and a record has a pid exactly while its status is
/// `Created` or `Running`.
/// The sandbox takes the state file over from the creation: what it reads
/// is the second record of the creation.
pub proof fn lemma_lifecycle_in_order(
    args: CreateArgsView,
    creation_events: Seq<CreateEventView>,
    spec: SpecView,
    sandbox_events: Seq<SandboxEventView>,
)
    requires
        forall|read: StateView| #[trigger]
            reloads(sandbox_events, read) ==> {
                let written = CreationView::begin(args).records(creation_events);
                written.len() == 2 && read == written[1]
            },
    ensures
        ({
            let records = CreationView::begin(args).records(creation_events) + SandboxView::begin(
                args.id,
                spec,
                args.console_socket,
            ).records(sandbox_events);
            &&& statuses(records).is_prefix_of(lifecycle())
            &&& forall|i: int|
                0 <= i < records.len() ==> {
                    &&& (#[trigger] records[i]).id == args.id
                    &&& records[i].pid is Some <==> records[i].status.live()
                }
        }),
{
    let first = CreationView::begin(args).records(creation_events);
    let second = SandboxView::begin(args.id, spec, args.console_socket).records(sandbox_events);
    let records = first + second;
    lemma_creation_records(args, creation_events);
    lemma_sandbox_records(args.id, spec, args.console_socket, sandbox_events);
    if second.len() >= 1 {
        let read = choose|read: StateView| #[trigger]
            reloads(sandbox_events, read) && second[0] == read.running();
        assert(first.len() == 2 && read == first[1]);
    }
    assert(statuses(records) =~= lifecycle().subrange(0, records.len() as int));
}

/// A sandbox whose configuration yields no plan never sends the created
/// event: it waits for its terminal or its root, or has exited with the
/// failure code.
pub proof fn lemma_no_plan_no_created_event(
    id: Seq<char>,
    spec: SpecView,
    console_socket: Option<Seq<char>>,
    events: Seq<SandboxEventView>,
)
    requires
        plan_of(spec) is Err,
    ensures
        ({
            let end = SandboxView::begin(id, spec, console_socket).run(events);
            ||| end.before_created()
            ||| end.phase == SandboxPhase::Exited && end.exit_code == FAILURE_EXIT_CODE
        }),
{
    lemma_stays_before_created(SandboxView::begin(id, spec, console_socket), events);
}

proof fn lemma_stays_before_created(sandbox: SandboxView, events: Seq<SandboxEventView>)
    requires
        plan_of(sandbox.spec) is Err,
        sandbox.before_created() || (sandbox.phase == SandboxPhase::Exited && sandbox.exit_code
            == FAILURE_EXIT_CODE),
    ensures
        ({
            let end = sandbox.run(events);
            ||| end.before_created()
            ||| end.phase == SandboxPhase::Exited && end.exit_code == FAILURE_EXIT_CODE
        }),
    decreases events.len(),
{
    if events.len() > 0 {
        lemma_stays_before_created(sandbox.step(events[0]), events.drop_first());
    }
}

/// A sandbox that has failed has exited, and with the failure code.
pub proof fn lemma_failure_exits_with_failure_code(
    id: Seq<char>,
    spec: SpecView,
    console_socket: Option<Seq<char>>,
    events: Seq<SandboxEventView>,
)
    ensures
        ({
            let end = SandboxView::begin(id, spec, console_socket).run(events);
            end.error is Some ==> end.phase == SandboxPhase::Exited && end.exit_code
                == FAILURE_EXIT_CODE
        }),
{
    lemma_failed_stays_failed(SandboxView::begin(id, spec, console_socket), events);
}

proof fn lemma_failed_stays_failed(sandbox: SandboxView, events: Seq<SandboxEventView>)
    requires
        sandbox.error is Some ==> sandbox.phase == SandboxPhase::Exited && sandbox.exit_code
            == FAILURE_EXIT_CODE,
    ensures
        ({
            let end = sandbox.run(events);
            end.error is Some ==> end.phase == SandboxPhase::Exited && end.exit_code
                == FAILURE_EXIT_CODE
        }),
    decreases events.len(),
{
    if events.len() > 0 {
        lemma_failed_stays_failed(sandbox.step(events[0]), events.drop_first());
    }
}

/// A sandbox goes on to read the record only on the start command: where
/// it ever launches the payload, the start command came through the FIFO.
pub proof fn lemma_launch_needs_start_command(
    id: Seq<char>,
    spec: SpecView,
    console_socket: Option<Seq<char>>,
    events: Seq<SandboxEventView>,
)
    requires
        SandboxView::begin(id, spec, console_socket).records(events).len() >= 1,
    ensures
        exists|i: int|
            0 <= i < events.len() && #[trigger] events[i] == (SandboxEventView::StartCommand {
                payload: start_command_text(),
            }),
{
    let sandbox = SandboxView::begin(id, spec, console_socket);
    if sandbox.phase == SandboxPhase::Exited {
        lemma_ending_sandbox_asks_nothing(sandbox, events);
    } else {
        lemma_start_command_seen(sandbox, events);
    }
}

proof fn lemma_start_command_seen(sandbox: SandboxView, events: Seq<SandboxEventView>)
    requires
        sandbox.setting_up(),
        sandbox.phase != SandboxPhase::ReloadState,
        sandbox.records(events).len() >= 1,
    ensures
        exists|i: int|
            0 <= i < events.len() && #[trigger] events[i] == (SandboxEventView::StartCommand {
                payload: start_command_text(),
            }),
    decreases events.len(),
{
    if events.len() > 0 {
        let next = sandbox.step(events[0]);
        let rest = events.drop_first();
        if next.phase == SandboxPhase::Exited {
            lemma_ending_sandbox_asks_nothing(next, rest);
        } else if next.phase == SandboxPhase::ReloadState {
            assert(events[0] == (SandboxEventView::StartCommand {
                payload: start_command_text(),
            }));
        } else {
            lemma_start_command_seen(next, rest);
            let i = choose|i: int|
                0 <= i < rest.len() && #[trigger] rest[i] == (SandboxEventView::StartCommand {
                    payload: start_command_text(),
                });
            assert(events[i + 1] == rest[i]);
        }
    }
}

} // verus!
