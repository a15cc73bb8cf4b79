//! The container orchestrator: the only component that mutates the registry.
//! A `Run` command is sequenced as pull, then create, then start; the
//! `SpawnTask` state machine holds the position in that sequence, hands out
//! the next runtime call, and aborts on the first failure.  Only a fully
//! started container is registered.  A stop is issued only for a tracked id;
//! whatever the stop call returns, the entry is discarded (a failed stop
//! leaves the container runtime-orphaned rather than retried).

use vstd::prelude::*;

use crate::registry::Registry;
use crate::runtime::{
    DockerApiError, DockerApiErrorView, ImageRef, ImageRefView, RuntimeCall, RuntimeCallView,
    RuntimeReply, RuntimeReplyView, STOP_GRACE_SECS,
};
use crate::wire::{ContainerHostConfig, ContainerHostConfigView, RunParams, RunParamsView, StopParams};

verus! {

/// Position of an in-progress spawn in the pull -> create -> start sequence.
pub enum SpawnStage {
    Pulling,
    Creating,
    Starting { container_id: String },
}

pub enum SpawnStageView {
    Pulling,
    Creating,
    Starting { container_id: Seq<char> },
}

impl View for SpawnStage {
    type V = SpawnStageView;

    open spec fn view(&self) -> SpawnStageView {
        match self {
            SpawnStage::Pulling => SpawnStageView::Pulling,
            SpawnStage::Creating => SpawnStageView::Creating,
            SpawnStage::Starting { container_id } => SpawnStageView::Starting {
                container_id: container_id@,
            },
        }
    }
}

/// One in-progress spawn: the command's parameters plus the current stage.
pub struct SpawnTask {
    pub image_name: String,
    pub tag: String,
    pub host_config: Option<ContainerHostConfig>,
    pub stage: SpawnStage,
}

pub struct SpawnTaskView {
    pub image_name: Seq<char>,
    pub tag: Seq<char>,
    pub host_config: Option<ContainerHostConfigView>,
    pub stage: SpawnStageView,
}

impl View for SpawnTask {
    type V = SpawnTaskView;

    open spec fn view(&self) -> SpawnTaskView {
        SpawnTaskView {
            image_name: self.image_name@,
            tag: self.tag@,
            host_config: self.host_config.deep_view(),
            stage: self.stage@,
        }
    }
}

/// What a spawn step produced: another pending runtime call, a fully started
/// container, or the error that aborted the sequence.
pub enum SpawnStep {
    Pending(SpawnTask),
    Started { container_id: String },
    Failed { error: DockerApiError },
}

pub enum SpawnStepView {
    Pending(SpawnTaskView),
    Started { container_id: Seq<char> },
    Failed { error: DockerApiErrorView },
}

impl View for SpawnStep {
    type V = SpawnStepView;

    open spec fn view(&self) -> SpawnStepView {
        match self {
            SpawnStep::Pending(t) => SpawnStepView::Pending(t@),
            SpawnStep::Started { container_id } => SpawnStepView::Started {
                container_id: container_id@,
            },
            SpawnStep::Failed { error } => SpawnStepView::Failed { error: error@ },
        }
    }
}

impl SpawnTaskView {
    /// The task a `Run` command starts with: nothing done yet, pull next.
    pub open spec fn init(params: RunParamsView) -> SpawnTaskView {
        SpawnTaskView {
            image_name: params.image_name,
            tag: params.tag,
            host_config: params.container_host_config,
            stage: SpawnStageView::Pulling,
        }
    }

    /// The runtime call the task is waiting on.
    pub open spec fn pending_call(self) -> RuntimeCallView {
        match self.stage {
            SpawnStageView::Pulling => RuntimeCallView::PullImage {
                image_name: self.image_name,
                tag: self.tag,
            },
            SpawnStageView::Creating => RuntimeCallView::CreateContainer {
                image: ImageRefView { name: self.image_name, tag: self.tag },
                host_config: self.host_config,
            },
            SpawnStageView::Starting { container_id } => RuntimeCallView::StartContainer {
                container_id: container_id,
            },
        }
    }

    /// True when the reply kind corresponds to the pending stage.
    pub open spec fn accepts(self, reply: RuntimeReplyView) -> bool {
        match (self.stage, reply) {
            (SpawnStageView::Pulling, RuntimeReplyView::PullOk) => true,
            (SpawnStageView::Pulling, RuntimeReplyView::PullFailed) => true,
            (SpawnStageView::Creating, RuntimeReplyView::CreateOk { .. }) => true,
            (SpawnStageView::Creating, RuntimeReplyView::CreateFailed) => true,
            (SpawnStageView::Starting { .. }, RuntimeReplyView::StartOk) => true,
            (SpawnStageView::Starting { .. }, RuntimeReplyView::StartFailed) => true,
            _ => false,
        }
    }

    /// The transition of the spawn sequence on one runtime reply: advance on
    /// success, abort with the stage's error on failure.
    pub open spec fn step(self, reply: RuntimeReplyView) -> SpawnStepView {
        match (self.stage, reply) {
            (SpawnStageView::Pulling, RuntimeReplyView::PullOk) => SpawnStepView::Pending(
                SpawnTaskView { stage: SpawnStageView::Creating, ..self },
            ),
            (SpawnStageView::Pulling, RuntimeReplyView::PullFailed) => SpawnStepView::Failed {
                error: DockerApiErrorView::ImagePullFailed {
                    image: self.image_name,
                    tag: self.tag,
                },
            },
            (
                SpawnStageView::Creating,
                RuntimeReplyView::CreateOk { container_id },
            ) => SpawnStepView::Pending(
                SpawnTaskView { stage: SpawnStageView::Starting { container_id }, ..self },
            ),
            (SpawnStageView::Creating, RuntimeReplyView::CreateFailed) => SpawnStepView::Failed {
                error: DockerApiErrorView::ContainerCreateFailed {
                    image: (ImageRefView { name: self.image_name, tag: self.tag }).reference(),
                },
            },
            (
                SpawnStageView::Starting { container_id },
                RuntimeReplyView::StartOk,
            ) => SpawnStepView::Started { container_id },
            (
                SpawnStageView::Starting { container_id },
                RuntimeReplyView::StartFailed,
            ) => SpawnStepView::Failed {
                error: DockerApiErrorView::ContainerStartFailed { container_id },
            },
            _ => arbitrary(),
        }
    }
}

impl SpawnTask {
    /// Begin the spawn sequence for a `Run` command.
    pub fn new(params: &RunParams) -> (t: SpawnTask)
        ensures
            t@ == SpawnTaskView::init(params@),
    {
        SpawnTask {
            image_name: params.image_name.clone(),
            tag: params.tag.clone(),
            host_config: clone_host_config(&params.container_host_config),
            stage: SpawnStage::Pulling,
        }
    }

    /// The runtime call to perform next.
    pub fn pending_call(&self) -> (c: RuntimeCall)
        ensures
            c@ == self@.pending_call(),
    {
        match &self.stage {
            SpawnStage::Pulling => RuntimeCall::PullImage {
                image_name: self.image_name.clone(),
                tag: self.tag.clone(),
            },
            SpawnStage::Creating => RuntimeCall::CreateContainer {
                image: ImageRef::new(self.image_name.clone(), self.tag.clone()),
                host_config: clone_host_config(&self.host_config),
            },
            SpawnStage::Starting { container_id } => RuntimeCall::StartContainer {
                container_id: container_id.clone(),
            },
        }
    }

    /// Advance the sequence with the reply to the pending call.
    pub fn step(self, reply: RuntimeReply) -> (r: SpawnStep)
        requires
            self@.accepts(reply@),
        ensures
            r@ == self@.step(reply@),
    {
        let SpawnTask { image_name, tag, host_config, stage } = self;
        match (stage, reply) {
            (SpawnStage::Pulling, RuntimeReply::PullOk) => SpawnStep::Pending(
                SpawnTask { image_name, tag, host_config, stage: SpawnStage::Creating },
            ),
            (SpawnStage::Pulling, RuntimeReply::PullFailed) => SpawnStep::Failed {
                error: DockerApiError::ImagePullFailed { image: image_name, tag },
            },
            (SpawnStage::Creating, RuntimeReply::CreateOk { container_id }) => SpawnStep::Pending(
                SpawnTask {
                    image_name,
                    tag,
                    host_config,
                    stage: SpawnStage::Starting { container_id },
                },
            ),
            (SpawnStage::Creating, RuntimeReply::CreateFailed) => SpawnStep::Failed {
                error: DockerApiError::ContainerCreateFailed {
                    image: ImageRef::new(image_name, tag).reference(),
                },
            },
            (SpawnStage::Starting { container_id }, RuntimeReply::StartOk) => SpawnStep::Started {
                container_id,
            },
            (SpawnStage::Starting { container_id }, RuntimeReply::StartFailed) => SpawnStep::Failed {
                error: DockerApiError::ContainerStartFailed { container_id },
            },
            _ => vstd::pervasive::unreached(),
        }
    }
}

/// Clones an optional host configuration, preserving its view.
fn clone_host_config(c: &Option<ContainerHostConfig>) -> (r: Option<ContainerHostConfig>)
    ensures
        r.deep_view() == c.deep_view(),
{
    match c {
        Some(inner) => Some(inner.clone()),
        None => None,
    }
}

/// The orchestrator: owner of the registry of started containers.  Its view
/// is the set of tracked container ids.
pub struct Orchestrator {
    registry: Registry,
}

impl View for Orchestrator {
    type V = Set<Seq<char>>;

    closed spec fn view(&self) -> Set<Seq<char>> {
        self.registry@
    }
}

impl Orchestrator {
    pub closed spec fn wf(&self) -> bool {
        self.registry.wf()
    }

    /// A fresh orchestrator tracks nothing.
    pub fn new() -> (r: Orchestrator)
        ensures
            r.wf(),
            r@ == Set::<Seq<char>>::empty(),
    {
        Orchestrator { registry: Registry::new() }
    }

    /// Whether this agent remembers having started `container_id`.
    pub fn tracks(&self, container_id: &String) -> (r: bool)
        ensures
            r == self@.contains(container_id@),
    {
        self.registry.contains(container_id)
    }

    /// Record a fully started container.  Called only once the whole
    /// pull -> create -> start sequence has succeeded; a spawn that failed at
    /// any stage never reaches the registry.
    pub fn register_started(&mut self, container_id: String)
        requires
            old(self).wf(),
        ensures
            final(self).wf(),
            final(self)@ == old(self)@.insert(container_id@),
    {
        self.registry.insert(container_id);
    }

    /// The stop call to issue for a `Stop` command, if any.  An id this agent
    /// does not track is refused without contacting the runtime.
    pub fn stop_call(&self, params: &StopParams) -> (r: Option<RuntimeCall>)
        ensures
            r is Some <==> self@.contains(params.container_id@),
            r is Some ==> r->0@ == (RuntimeCallView::StopContainer {
                container_id: params.container_id@,
                grace_secs: STOP_GRACE_SECS,
            }),
    {
        if self.registry.contains(&params.container_id) {
            Some(
                RuntimeCall::StopContainer {
                    container_id: params.container_id.clone(),
                    grace_secs: STOP_GRACE_SECS,
                },
            )
        } else {
            None
        }
    }

    /// Settle a `Stop` command once its runtime call has been answered.
    /// Whatever the runtime said, the entry is discarded; the result carries
    /// the stopped id, or the error to report.
    pub fn finish_stop(&mut self, params: &StopParams, stop_ok: bool) -> (r: Result<
        String,
        DockerApiError,
    >)
        requires
            old(self).wf(),
        ensures
            final(self).wf(),
            final(self)@ == old(self)@.remove(params.container_id@),
            stop_ok ==> r is Ok && r->Ok_0@ == params.container_id@,
            !stop_ok ==> r is Err && r->Err_0@ == (DockerApiErrorView::ContainerStopFailed {
                container_id: params.container_id@,
            }),
    {
        self.registry.remove(&params.container_id);
        if stop_ok {
            Ok(params.container_id.clone())
        } else {
            Err(DockerApiError::ContainerStopFailed { container_id: params.container_id.clone() })
        }
    }
}

} // verus!
