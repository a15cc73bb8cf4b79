//! The command dispatcher: commands are processed one at a time, in receipt
//! order, and each produces exactly one response.  The outcome of the runtime
//! calls a command needs is externally determined, so the dispatcher takes it
//! as an argument; the whole-session behaviour is the fold `session` over the
//! command sequence, and the dispatcher is proved to implement it.

use vstd::prelude::*;
use vstd::string::StringExecFns;

use crate::orchestrator::{Orchestrator, SpawnStep, SpawnTask};
use crate::runtime::{DockerApiError, DockerApiErrorView, ImageRefView, RuntimeReply};
use crate::wire::{
    RemoteCommand, RemoteCommandView, RunParams, RunParamsView, StopParams, StopParamsView,
};

verus! {

/// The one response a command is answered with.
pub enum CommandResponse {
    ContainerStarted { container_id: String },
    ContainerStopped { container_id: String },
    Error { message: String },
}

pub enum CommandResponseView {
    ContainerStarted { container_id: Seq<char> },
    ContainerStopped { container_id: Seq<char> },
    Error { message: Seq<char> },
}

impl View for CommandResponse {
    type V = CommandResponseView;

    open spec fn view(&self) -> CommandResponseView {
        match self {
            CommandResponse::ContainerStarted { container_id } => CommandResponseView::ContainerStarted {
                container_id: container_id@,
            },
            CommandResponse::ContainerStopped { container_id } => CommandResponseView::ContainerStopped {
                container_id: container_id@,
            },
            CommandResponse::Error { message } => CommandResponseView::Error { message: message@ },
        }
    }
}

impl DeepView for CommandResponse {
    type V = CommandResponseView;

    open spec fn deep_view(&self) -> CommandResponseView {
        self.view()
    }
}

/// How far a `Run` command's pull -> create -> start sequence got.  The
/// runtime decides this; the dispatcher only converts it.
pub enum RunOutcome {
    PullFailed,
    CreateFailed,
    StartFailed { container_id: String },
    Started { container_id: String },
}

pub enum RunOutcomeView {
    PullFailed,
    CreateFailed,
    StartFailed { container_id: Seq<char> },
    Started { container_id: Seq<char> },
}

impl View for RunOutcome {
    type V = RunOutcomeView;

    open spec fn view(&self) -> RunOutcomeView {
        match self {
            RunOutcome::PullFailed => RunOutcomeView::PullFailed,
            RunOutcome::CreateFailed => RunOutcomeView::CreateFailed,
            RunOutcome::StartFailed { container_id } => RunOutcomeView::StartFailed {
                container_id: container_id@,
            },
            RunOutcome::Started { container_id } => RunOutcomeView::Started {
                container_id: container_id@,
            },
        }
    }
}

/// What the runtime said to a `Stop` command's stop call.  It is consulted
/// only if the id was tracked; for an unknown id no call is made at all.
#[derive(Clone, Copy, Debug, PartialEq, Eq, Structural)]
pub enum StopOutcome {
    Stopped,
    Failed,
}

/// The externally determined outcome of one command's runtime calls.
pub enum CommandOutcome {
    Run(RunOutcome),
    Stop(StopOutcome),
}

pub enum CommandOutcomeView {
    Run(RunOutcomeView),
    Stop(StopOutcome),
}

impl View for CommandOutcome {
    type V = CommandOutcomeView;

    open spec fn view(&self) -> CommandOutcomeView {
        match self {
            CommandOutcome::Run(ro) => CommandOutcomeView::Run(ro@),
            CommandOutcome::Stop(so) => CommandOutcomeView::Stop(*so),
        }
    }
}

impl DeepView for CommandOutcome {
    type V = CommandOutcomeView;

    open spec fn deep_view(&self) -> CommandOutcomeView {
        self.view()
    }
}

/// An outcome is only meaningful for a command of the same kind.
pub open spec fn outcome_matches(cmd: RemoteCommandView, out: CommandOutcomeView) -> bool {
    match (cmd, out) {
        (RemoteCommandView::Run(_), CommandOutcomeView::Run(_)) => true,
        (RemoteCommandView::Stop(_), CommandOutcomeView::Stop(_)) => true,
        _ => false,
    }
}

/// Message of the error response for a `Run` whose sequence aborted.
pub open spec fn run_failure_message(e: DockerApiErrorView) -> Seq<char> {
    "Failed to start container: "@ + e.message()
}

/// Message of the error response for a `Stop` whose runtime call failed.
pub open spec fn stop_failure_message(e: DockerApiErrorView) -> Seq<char> {
    "Failed to stop container: "@ + e.message()
}

/// Message of the error response for a `Stop` of an untracked id.
pub open spec fn unknown_container_message(container_id: Seq<char>) -> Seq<char> {
    "Unknown container: "@ + container_id
}

/// Registry and response after one `Run` command: only a fully started
/// container is inserted; every abort leaves the registry untouched and
/// reports the failing stage.
pub open spec fn step_run(reg: Set<Seq<char>>, p: RunParamsView, ro: RunOutcomeView) -> (Set<
    Seq<char>,
>, CommandResponseView) {
    match ro {
        RunOutcomeView::PullFailed => (
            reg,
            CommandResponseView::Error {
                message: run_failure_message(
                    DockerApiErrorView::ImagePullFailed { image: p.image_name, tag: p.tag },
                ),
            },
        ),
        RunOutcomeView::CreateFailed => (
            reg,
            CommandResponseView::Error {
                message: run_failure_message(
                    DockerApiErrorView::ContainerCreateFailed {
                        image: (ImageRefView { name: p.image_name, tag: p.tag }).reference(),
                    },
                ),
            },
        ),
        RunOutcomeView::StartFailed { container_id } => (
            reg,
            CommandResponseView::Error {
                message: run_failure_message(
                    DockerApiErrorView::ContainerStartFailed { container_id },
                ),
            },
        ),
        RunOutcomeView::Started { container_id } => (
            reg.insert(container_id),
            CommandResponseView::ContainerStarted { container_id },
        ),
    }
}

/// Registry and response after one `Stop` command: an untracked id is refused
/// outright; a tracked id is discarded whatever the runtime said, and the
/// response reports what the runtime said.
pub open spec fn step_stop(reg: Set<Seq<char>>, p: StopParamsView, so: StopOutcome) -> (Set<
    Seq<char>,
>, CommandResponseView) {
    if !reg.contains(p.container_id) {
        (
            reg,
            CommandResponseView::Error { message: unknown_container_message(p.container_id) },
        )
    } else {
        match so {
            StopOutcome::Stopped => (
                reg.remove(p.container_id),
                CommandResponseView::ContainerStopped { container_id: p.container_id },
            ),
            StopOutcome::Failed => (
                reg.remove(p.container_id),
                CommandResponseView::Error {
                    message: stop_failure_message(
                        DockerApiErrorView::ContainerStopFailed { container_id: p.container_id },
                    ),
                },
            ),
        }
    }
}

/// Registry and response after one command of either kind.
pub open spec fn step_command(
    reg: Set<Seq<char>>,
    cmd: RemoteCommandView,
    out: CommandOutcomeView,
) -> (Set<Seq<char>>, CommandResponseView) {
    match (cmd, out) {
        (RemoteCommandView::Run(p), CommandOutcomeView::Run(ro)) => step_run(reg, p, ro),
        (RemoteCommandView::Stop(p), CommandOutcomeView::Stop(so)) => step_stop(reg, p, so),
        _ => arbitrary(),
    }
}

/// The whole session: commands processed strictly in order, each yielding
/// exactly one response, the registry threaded through.
pub open spec fn session(
    reg: Set<Seq<char>>,
    cmds: Seq<RemoteCommandView>,
    outs: Seq<CommandOutcomeView>,
) -> (Set<Seq<char>>, Seq<CommandResponseView>)
    decreases cmds.len(),
{
    if cmds.len() == 0 {
        (reg, Seq::empty())
    } else {
        let prev = session(reg, cmds.drop_last(), outs.drop_last());
        let stepped = step_command(prev.0, cmds.last(), outs.last());
        (stepped.0, prev.1.push(stepped.1))
    }
}

/// Builds the error response for a `Run` that aborted.
pub fn run_failure_response(error: &DockerApiError) -> (r: CommandResponse)
    ensures
        r@ == (CommandResponseView::Error { message: run_failure_message(error@) }),
{
    let mut s = String::from_str("Failed to start container: ");
    let m = error.message();
    s.append(m.as_str());
    CommandResponse::Error { message: s }
}

/// Builds the error response for a `Stop` whose runtime call failed.
pub fn stop_failure_response(error: &DockerApiError) -> (r: CommandResponse)
    ensures
        r@ == (CommandResponseView::Error { message: stop_failure_message(error@) }),
{
    let mut s = String::from_str("Failed to stop container: ");
    let m = error.message();
    s.append(m.as_str());
    CommandResponse::Error { message: s }
}

/// Builds the error response for a `Stop` of an untracked id.
pub fn unknown_container_response(container_id: &String) -> (r: CommandResponse)
    ensures
        r@ == (CommandResponseView::Error {
            message: unknown_container_message(container_id@),
        }),
{
    let mut s = String::from_str("Unknown container: ");
    s.append(container_id.as_str());
    CommandResponse::Error { message: s }
}

/// Extracts the task of a pending spawn step.
fn pending_of(s: SpawnStep) -> (t: SpawnTask)
    requires
        s@ is Pending,
    ensures
        t@ == s@->Pending_0,
{
    match s {
        SpawnStep::Pending(t) => t,
        _ => vstd::pervasive::unreached(),
    }
}

/// Extracts the error of a failed spawn step.
fn failed_of(s: SpawnStep) -> (e: DockerApiError)
    requires
        s@ is Failed,
    ensures
        e@ == s@->Failed_error,
{
    match s {
        SpawnStep::Failed { error } => error,
        _ => vstd::pervasive::unreached(),
    }
}

/// Executes one `Run` command by driving the spawn sequence as far as the
/// outcome says the runtime let it get.
fn execute_run(orch: &mut Orchestrator, p: &RunParams, ro: &RunOutcome) -> (r: CommandResponse)
    requires
        old(orch).wf(),
    ensures
        final(orch).wf(),
        (final(orch)@, r@) == step_run(old(orch)@, p@, ro@),
{
    let task = SpawnTask::new(p);
    match ro {
        RunOutcome::PullFailed => {
            let error = failed_of(task.step(RuntimeReply::PullFailed));
            run_failure_response(&error)
        },
        RunOutcome::CreateFailed => {
            let t2 = pending_of(task.step(RuntimeReply::PullOk));
            let error = failed_of(t2.step(RuntimeReply::CreateFailed));
            run_failure_response(&error)
        },
        RunOutcome::StartFailed { container_id } => {
            let t2 = pending_of(task.step(RuntimeReply::PullOk));
            let t3 = pending_of(
                t2.step(RuntimeReply::CreateOk { container_id: container_id.clone() }),
            );
            let error = failed_of(t3.step(RuntimeReply::StartFailed));
            run_failure_response(&error)
        },
        RunOutcome::Started { container_id } => {
            let t2 = pending_of(task.step(RuntimeReply::PullOk));
            let t3 = pending_of(
                t2.step(RuntimeReply::CreateOk { container_id: container_id.clone() }),
            );
            let started = match t3.step(RuntimeReply::StartOk) {
                SpawnStep::Started { container_id } => container_id,
                _ => vstd::pervasive::unreached(),
            };
            let response_id = started.clone();
            orch.register_started(started);
            CommandResponse::ContainerStarted { container_id: response_id }
        },
    }
}

/// Executes one `Stop` command: refuse an untracked id without a runtime
/// call, otherwise settle with the outcome of the stop call.
fn execute_stop(orch: &mut Orchestrator, p: &StopParams, so: &StopOutcome) -> (r: CommandResponse)
    requires
        old(orch).wf(),
    ensures
        final(orch).wf(),
        (final(orch)@, r@) == step_stop(old(orch)@, p@, *so),
{
    match orch.stop_call(p) {
        None => unknown_container_response(&p.container_id),
        Some(_) => {
            let ok = match so {
                StopOutcome::Stopped => true,
                StopOutcome::Failed => false,
            };
            match orch.finish_stop(p, ok) {
                Ok(container_id) => CommandResponse::ContainerStopped { container_id },
                Err(error) => stop_failure_response(&error),
            }
        },
    }
}

/// Executes one command against the orchestrator, producing its one response.
pub fn execute_command(orch: &mut Orchestrator, cmd: &RemoteCommand, out: &CommandOutcome) -> (r:
    CommandResponse)
    requires
        old(orch).wf(),
        outcome_matches(cmd@, out@),
    ensures
        final(orch).wf(),
        (final(orch)@, r@) == step_command(old(orch)@, cmd@, out@),
{
    match (cmd, out) {
        (RemoteCommand::Run(p), CommandOutcome::Run(ro)) => execute_run(orch, p, ro),
        (RemoteCommand::Stop(p), CommandOutcome::Stop(so)) => execute_stop(orch, p, so),
        _ => vstd::pervasive::unreached(),
    }
}

/// Processes a whole command sequence strictly in order, one response per
/// command: the executable form of `session`.
pub fn run_session(
    orch: &mut Orchestrator,
    cmds: &Vec<RemoteCommand>,
    outs: &Vec<CommandOutcome>,
) -> (resps: Vec<CommandResponse>)
    requires
        old(orch).wf(),
        cmds@.len() == outs@.len(),
        forall|i: int|
            0 <= i < cmds@.len() ==> outcome_matches(
                cmds.deep_view()[i],
                outs.deep_view()[i],
            ),
    ensures
        final(orch).wf(),
        resps@.len() == cmds@.len(),
        (final(orch)@, resps.deep_view()) == session(
            old(orch)@,
            cmds.deep_view(),
            outs.deep_view(),
        ),
{
    let mut resps: Vec<CommandResponse> = Vec::new();
    let n = cmds.len();
    proof {
        assert(cmds.deep_view().take(0) =~= Seq::<RemoteCommandView>::empty());
        assert(outs.deep_view().take(0) =~= Seq::<CommandOutcomeView>::empty());
        assert(resps.deep_view() =~= Seq::<CommandResponseView>::empty());
    }
    for i in 0..n
        invariant
            n == cmds@.len(),
            cmds@.len() == outs@.len(),
            forall|j: int|
                0 <= j < cmds@.len() ==> outcome_matches(
                    cmds.deep_view()[j],
                    outs.deep_view()[j],
                ),
            orch.wf(),
            resps@.len() == i,
            (orch@, resps.deep_view()) == session(
                old(orch)@,
                cmds.deep_view().take(i as int),
                outs.deep_view().take(i as int),
            ),
    {
        proof {
            assert(cmds.deep_view()[i as int] == cmds@[i as int]@);
            assert(outs.deep_view()[i as int] == outs@[i as int]@);
        }
        let r = execute_command(orch, &cmds[i], &outs[i]);
        resps.push(r);
        proof {
            let cv = cmds.deep_view();
            let ov = outs.deep_view();
            assert(cv.take(i + 1).drop_last() =~= cv.take(i as int));
            assert(ov.take(i + 1).drop_last() =~= ov.take(i as int));
            assert(cv.take(i + 1).last() == cv[i as int]);
            assert(ov.take(i + 1).last() == ov[i as int]);
            assert(cmds@[i as int]@ == cv[i as int]);
            assert(outs@[i as int]@ == ov[i as int]);
            assert(resps.deep_view() =~= resps.deep_view().drop_last().push(r@));
        }
    }
    proof {
        assert(cmds.deep_view().take(n as int) =~= cmds.deep_view());
        assert(outs.deep_view().take(n as int) =~= outs.deep_view());
    }
    resps
}

/// A `Run` that fully started a container, followed by a `Stop` of the very
/// id it returned: the session answers both commands, the final registry
/// holds no entry for that id, and -- when the runtime stop succeeded -- the
/// `Stop` is answered with `ContainerStopped` carrying the same id.  (A
/// failed runtime stop still empties the registry of the id, but is answered
/// with an error instead.)
pub proof fn lemma_run_then_stop(
    reg: Set<Seq<char>>,
    p: RunParamsView,
    container_id: Seq<char>,
    so: StopOutcome,
)
    ensures
        ({
            let cmds = seq![
                RemoteCommandView::Run(p),
                RemoteCommandView::Stop(StopParamsView { container_id }),
            ];
            let outs = seq![
                CommandOutcomeView::Run(RunOutcomeView::Started { container_id }),
                CommandOutcomeView::Stop(so),
            ];
            let r = session(reg, cmds, outs);
            &&& r.1.len() == 2
            &&& !r.0.contains(container_id)
            &&& so is Stopped ==> r.1[1] == (CommandResponseView::ContainerStopped {
                container_id,
            })
        }),
{
    reveal_with_fuel(session, 3);
    let cmds = seq![
        RemoteCommandView::Run(p),
        RemoteCommandView::Stop(StopParamsView { container_id }),
    ];
    let outs = seq![
        CommandOutcomeView::Run(RunOutcomeView::Started { container_id }),
        CommandOutcomeView::Stop(so),
    ];
    assert(cmds.drop_last() =~= seq![RemoteCommandView::Run(p)]);
    assert(outs.drop_last() =~= seq![
        CommandOutcomeView::Run(RunOutcomeView::Started { container_id }),
    ]);
    assert(cmds.drop_last().drop_last() =~= Seq::<RemoteCommandView>::empty());
    assert(outs.drop_last().drop_last() =~= Seq::<CommandOutcomeView>::empty());
    let after_run = step_command(reg, cmds[0], outs[0]);
    assert(after_run.0 == reg.insert(container_id));
    assert(after_run.0.contains(container_id));
    let after_stop = step_command(after_run.0, cmds[1], outs[1]);
    assert(after_stop.0 == after_run.0.remove(container_id));
}

/// A `Stop` for an id the registry does not track: the registry is unchanged
/// and the response is the unknown-container error, whatever the runtime
/// would have said -- no stop call is issued for such an id (see
/// `Orchestrator::stop_call`).
pub proof fn lemma_stop_unknown(reg: Set<Seq<char>>, sp: StopParamsView, so: StopOutcome)
    requires
        !reg.contains(sp.container_id),
    ensures
        step_stop(reg, sp, so) == (
            reg,
            CommandResponseView::Error {
                message: unknown_container_message(sp.container_id),
            },
        ),
{
}

/// A `Run` whose image pull fails never touches the registry, and its error
/// message carries the image reference.
pub proof fn lemma_run_pull_failure(reg: Set<Seq<char>>, p: RunParamsView)
    ensures
        ({
            let r = step_run(reg, p, RunOutcomeView::PullFailed);
            &&& r.0 == reg
            &&& r.1 == (CommandResponseView::Error {
                message: run_failure_message(
                    DockerApiErrorView::ImagePullFailed { image: p.image_name, tag: p.tag },
                ),
            })
            &&& exists|k: int|
                0 <= k && k + p.image_name.len() <= r.1->Error_message.len() && #[trigger] r.1
                    ->Error_message.subrange(k, k + p.image_name.len()) == p.image_name
        }),
{
    let msg = run_failure_message(
        DockerApiErrorView::ImagePullFailed { image: p.image_name, tag: p.tag },
    );
    let pre1 = "Failed to start container: "@;
    let pre2 = "failed to pull "@;
    let flat = pre1 + pre2 + p.image_name + ":"@ + p.tag;
    assert(msg =~= flat);
    let k = (pre1.len() + pre2.len()) as int;
    assert forall|j: int| 0 <= j < p.image_name.len() implies flat[k + j] == p.image_name[j] by {}
    assert(msg.subrange(k, k + p.image_name.len()) =~= p.image_name);
    let r = step_run(reg, p, RunOutcomeView::PullFailed);
    assert(r.1->Error_message == msg);
    assert(0 <= k && k + p.image_name.len() <= r.1->Error_message.len() && r.1
        ->Error_message.subrange(k, k + p.image_name.len()) == p.image_name);
}

/// Commands submitted in order produce exactly one response each, observable
/// in the same order: the i-th response is the response of the i-th command,
/// executed in the state the first i commands produced.  (At most one command
/// is in flight at a time: the session is a fold.)
pub proof fn lemma_session_responses_in_order(
    reg: Set<Seq<char>>,
    cmds: Seq<RemoteCommandView>,
    outs: Seq<CommandOutcomeView>,
)
    requires
        cmds.len() == outs.len(),
    ensures
        session(reg, cmds, outs).1.len() == cmds.len(),
        forall|i: int|
            0 <= i < cmds.len() ==> session(reg, cmds, outs).1[i] == step_command(
                session(reg, cmds.take(i), outs.take(i)).0,
                #[trigger] cmds[i],
                outs[i],
            ).1,
    decreases cmds.len(),
{
    if cmds.len() == 0 {
    } else {
        let shorter_c = cmds.drop_last();
        let shorter_o = outs.drop_last();
        lemma_session_responses_in_order(reg, shorter_c, shorter_o);
        assert forall|i: int| 0 <= i < cmds.len() implies session(reg, cmds, outs).1[i]
            == step_command(
            session(reg, cmds.take(i), outs.take(i)).0,
            #[trigger] cmds[i],
            outs[i],
        ).1 by {
            if i < cmds.len() - 1 {
                assert(shorter_c.take(i) =~= cmds.take(i));
                assert(shorter_o.take(i) =~= outs.take(i));
                assert(shorter_c[i] == cmds[i]);
                assert(shorter_o[i] == outs[i]);
                assert(session(reg, cmds, outs).1[i] == session(reg, shorter_c, shorter_o).1[i]);
            } else {
                assert(cmds.take(i) =~= shorter_c);
                assert(outs.take(i) =~= shorter_o);
            }
        }
    }
}

} // verus!
