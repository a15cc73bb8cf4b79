//! The data carried over the control connection: commands sent by the control
//! plane, and the snapshot the agent reports back.  Each executable type has a
//! mathematical view over `Seq<char>` fields, which the contracts of the rest
//! of the library are stated against.

use vstd::prelude::*;

verus! {

/// A single published port: traffic arriving at the container port `from`
/// is forwarded to the host port `to`.
pub struct PortMap {
    pub from: Option<String>,
    pub to: Option<String>,
}

pub struct PortMapView {
    pub from: Option<Seq<char>>,
    pub to: Option<Seq<char>>,
}

impl View for PortMap {
    type V = PortMapView;

    open spec fn view(&self) -> PortMapView {
        PortMapView { from: self.from.deep_view(), to: self.to.deep_view() }
    }
}

impl DeepView for PortMap {
    type V = PortMapView;

    open spec fn deep_view(&self) -> PortMapView {
        self.view()
    }
}

impl Clone for PortMap {
    fn clone(&self) -> (r: Self)
        ensures
            r@ == self@,
    {
        PortMap { from: clone_opt_string(&self.from), to: clone_opt_string(&self.to) }
    }
}

/// Clones an optional string, preserving its view.
pub fn clone_opt_string(o: &Option<String>) -> (r: Option<String>)
    ensures
        r.deep_view() == o.deep_view(),
{
    match o {
        Some(s) => Some(s.clone()),
        None => None,
    }
}

/// The host-side configuration a container is created with.  Absence of the
/// port mapping means no published ports.
pub struct ContainerHostConfig {
    pub port_map: Option<PortMap>,
}

pub struct ContainerHostConfigView {
    pub port_map: Option<PortMapView>,
}

impl View for ContainerHostConfig {
    type V = ContainerHostConfigView;

    open spec fn view(&self) -> ContainerHostConfigView {
        ContainerHostConfigView { port_map: self.port_map.deep_view() }
    }
}

impl DeepView for ContainerHostConfig {
    type V = ContainerHostConfigView;

    open spec fn deep_view(&self) -> ContainerHostConfigView {
        self.view()
    }
}

impl Clone for ContainerHostConfig {
    fn clone(&self) -> (r: Self)
        ensures
            r@ == self@,
    {
        let port_map = match &self.port_map {
            Some(pm) => Some(pm.clone()),
            None => None,
        };
        ContainerHostConfig { port_map }
    }
}

/// Payload of a `Run` command: which image to pull and how to bind it.
pub struct RunParams {
    pub image_name: String,
    pub tag: String,
    pub container_host_config: Option<ContainerHostConfig>,
}

pub struct RunParamsView {
    pub image_name: Seq<char>,
    pub tag: Seq<char>,
    pub container_host_config: Option<ContainerHostConfigView>,
}

impl View for RunParams {
    type V = RunParamsView;

    open spec fn view(&self) -> RunParamsView {
        RunParamsView {
            image_name: self.image_name@,
            tag: self.tag@,
            container_host_config: self.container_host_config.deep_view(),
        }
    }
}

impl DeepView for RunParams {
    type V = RunParamsView;

    open spec fn deep_view(&self) -> RunParamsView {
        self.view()
    }
}

/// Payload of a `Stop` command: the runtime-assigned id of the container to
/// stop.
pub struct StopParams {
    pub container_id: String,
}

pub struct StopParamsView {
    pub container_id: Seq<char>,
}

impl View for StopParams {
    type V = StopParamsView;

    open spec fn view(&self) -> StopParamsView {
        StopParamsView { container_id: self.container_id@ }
    }
}

impl DeepView for StopParams {
    type V = StopParamsView;

    open spec fn deep_view(&self) -> StopParamsView {
        self.view()
    }
}

/// A command decoded from one application frame.  The dispatch over the two
/// kinds is exhaustive: a new command kind cannot be added without updating
/// every match.
pub enum RemoteCommand {
    Run(RunParams),
    Stop(StopParams),
}

pub enum RemoteCommandView {
    Run(RunParamsView),
    Stop(StopParamsView),
}

impl View for RemoteCommand {
    type V = RemoteCommandView;

    open spec fn view(&self) -> RemoteCommandView {
        match self {
            RemoteCommand::Run(p) => RemoteCommandView::Run(p@),
            RemoteCommand::Stop(p) => RemoteCommandView::Stop(p@),
        }
    }
}

impl DeepView for RemoteCommand {
    type V = RemoteCommandView;

    open spec fn deep_view(&self) -> RemoteCommandView {
        self.view()
    }
}

/// Reported state of one container, as the runtime's listing classifies it.
#[derive(Clone, Copy, Debug, PartialEq, Eq, Structural)]
pub enum ContainerState {
    Unspecified,
    Running,
    Exited,
}

/// One row of the runtime's listing, reported verbatim in a snapshot.  This is
/// reporting-only data: it is produced fresh on each snapshot tick and never
/// cached or reconciled with the registry.
pub struct ContainerStatus {
    pub id: Option<String>,
    pub name: Option<String>,
    pub image_id: Option<String>,
    pub container_state: ContainerState,
}

pub struct ContainerStatusView {
    pub id: Option<Seq<char>>,
    pub name: Option<Seq<char>>,
    pub image_id: Option<Seq<char>>,
    pub container_state: ContainerState,
}

impl View for ContainerStatus {
    type V = ContainerStatusView;

    open spec fn view(&self) -> ContainerStatusView {
        ContainerStatusView {
            id: self.id.deep_view(),
            name: self.name.deep_view(),
            image_id: self.image_id.deep_view(),
            container_state: self.container_state,
        }
    }
}

impl DeepView for ContainerStatus {
    type V = ContainerStatusView;

    open spec fn deep_view(&self) -> ContainerStatusView {
        self.view()
    }
}

/// A wall-clock instant, seconds and nanoseconds since the Unix epoch.
#[derive(Clone, Copy, Debug, PartialEq, Eq, Structural)]
pub struct Timestamp {
    pub seconds: u64,
    pub nanos: u32,
}

/// One point-in-time report of all container statuses known to the runtime,
/// stamped with the moment it was taken.  Immutable once built.
pub struct AgentSnapshot {
    pub timestamp: Timestamp,
    pub container_status: Vec<ContainerStatus>,
}

pub struct AgentSnapshotView {
    pub timestamp: Timestamp,
    pub container_status: Seq<ContainerStatusView>,
}

impl View for AgentSnapshot {
    type V = AgentSnapshotView;

    open spec fn view(&self) -> AgentSnapshotView {
        AgentSnapshotView {
            timestamp: self.timestamp,
            container_status: self.container_status.deep_view(),
        }
    }
}

impl DeepView for AgentSnapshot {
    type V = AgentSnapshotView;

    open spec fn deep_view(&self) -> AgentSnapshotView {
        self.view()
    }
}

} // verus!
