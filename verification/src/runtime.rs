//! The agent's interface to the container runtime, as data: the calls the
//! orchestrator asks the runtime client to perform, the replies it accepts
//! back, and the errors that runtime failures surface as.  The runtime itself
//! is an external collaborator; the unverified binary performs each call and
//! feeds the reply back into the orchestrator.

use vstd::prelude::*;
use vstd::string::StringExecFns;

use crate::wire::{ContainerHostConfig, ContainerHostConfigView};

verus! {

/// A pullable image reference: a name plus a tag.
pub struct ImageRef {
    pub name: String,
    pub tag: String,
}

pub struct ImageRefView {
    pub name: Seq<char>,
    pub tag: Seq<char>,
}

impl View for ImageRef {
    type V = ImageRefView;

    open spec fn view(&self) -> ImageRefView {
        ImageRefView { name: self.name@, tag: self.tag@ }
    }
}

impl ImageRefView {
    /// The canonical `name:tag` rendering of an image reference.
    pub open spec fn reference(self) -> Seq<char> {
        self.name + ":"@ + self.tag
    }
}

impl ImageRef {
    pub fn new(name: String, tag: String) -> (r: ImageRef)
        ensures
            r@ == (ImageRefView { name: name@, tag: tag@ }),
    {
        ImageRef { name, tag }
    }

    /// The `name:tag` rendering, used in error messages and create calls.
    pub fn reference(&self) -> (r: String)
        ensures
            r@ == self@.reference(),
    {
        let mut s = self.name.clone();
        s.append(":");
        s.append(self.tag.as_str());
        s
    }
}

/// A failed call against the container runtime.  Each variant carries enough
/// context (the image reference or the container id) for a human-readable
/// message; these errors are recoverable and never escape the dispatcher.
#[derive(Debug)]
pub enum DockerApiError {
    ImagePullFailed { image: String, tag: String },
    ContainerCreateFailed { image: String },
    ContainerStartFailed { container_id: String },
    ContainerStopFailed { container_id: String },
    ListContainersFailed,
}

pub enum DockerApiErrorView {
    ImagePullFailed { image: Seq<char>, tag: Seq<char> },
    ContainerCreateFailed { image: Seq<char> },
    ContainerStartFailed { container_id: Seq<char> },
    ContainerStopFailed { container_id: Seq<char> },
    ListContainersFailed,
}

impl View for DockerApiError {
    type V = DockerApiErrorView;

    open spec fn view(&self) -> DockerApiErrorView {
        match self {
            DockerApiError::ImagePullFailed { image, tag } => DockerApiErrorView::ImagePullFailed {
                image: image@,
                tag: tag@,
            },
            DockerApiError::ContainerCreateFailed { image } => DockerApiErrorView::ContainerCreateFailed {
                image: image@,
            },
            DockerApiError::ContainerStartFailed { container_id } => DockerApiErrorView::ContainerStartFailed {
                container_id: container_id@,
            },
            DockerApiError::ContainerStopFailed { container_id } => DockerApiErrorView::ContainerStopFailed {
                container_id: container_id@,
            },
            DockerApiError::ListContainersFailed => DockerApiErrorView::ListContainersFailed,
        }
    }
}

impl DockerApiErrorView {
    /// The human-readable message of each error, exactly as it is surfaced.
    pub open spec fn message(self) -> Seq<char> {
        match self {
            DockerApiErrorView::ImagePullFailed { image, tag } => "failed to pull "@ + image + ":"@
                + tag,
            DockerApiErrorView::ContainerCreateFailed { image } => {
                "failed to create container for image "@ + image
            },
            DockerApiErrorView::ContainerStartFailed { container_id } => {
                "failed to start container "@ + container_id
            },
            DockerApiErrorView::ContainerStopFailed { container_id } => {
                "failed to stop container "@ + container_id
            },
            DockerApiErrorView::ListContainersFailed => "failed to list containers"@,
        }
    }
}

impl DockerApiError {
    /// Renders the error as its message string.
    pub fn message(&self) -> (r: String)
        ensures
            r@ == self@.message(),
    {
        match self {
            DockerApiError::ImagePullFailed { image, tag } => {
                let mut s = String::from_str("failed to pull ");
                s.append(image.as_str());
                s.append(":");
                s.append(tag.as_str());
                s
            },
            DockerApiError::ContainerCreateFailed { image } => {
                let mut s = String::from_str("failed to create container for image ");
                s.append(image.as_str());
                s
            },
            DockerApiError::ContainerStartFailed { container_id } => {
                let mut s = String::from_str("failed to start container ");
                s.append(container_id.as_str());
                s
            },
            DockerApiError::ContainerStopFailed { container_id } => {
                let mut s = String::from_str("failed to stop container ");
                s.append(container_id.as_str());
                s
            },
            DockerApiError::ListContainersFailed => String::from_str("failed to list containers"),
        }
    }
}

/// The grace period, in seconds, granted to a container between the stop
/// request and the runtime's forced kill.  A single agent-wide constant.
pub const STOP_GRACE_SECS: u64 = 10;

/// One call the orchestrator asks the runtime client to perform.
pub enum RuntimeCall {
    PullImage { image_name: String, tag: String },
    CreateContainer { image: ImageRef, host_config: Option<ContainerHostConfig> },
    StartContainer { container_id: String },
    StopContainer { container_id: String, grace_secs: u64 },
}

pub enum RuntimeCallView {
    PullImage { image_name: Seq<char>, tag: Seq<char> },
    CreateContainer { image: ImageRefView, host_config: Option<ContainerHostConfigView> },
    StartContainer { container_id: Seq<char> },
    StopContainer { container_id: Seq<char>, grace_secs: u64 },
}

impl View for RuntimeCall {
    type V = RuntimeCallView;

    open spec fn view(&self) -> RuntimeCallView {
        match self {
            RuntimeCall::PullImage { image_name, tag } => RuntimeCallView::PullImage {
                image_name: image_name@,
                tag: tag@,
            },
            RuntimeCall::CreateContainer { image, host_config } => RuntimeCallView::CreateContainer {
                image: image@,
                host_config: host_config.deep_view(),
            },
            RuntimeCall::StartContainer { container_id } => RuntimeCallView::StartContainer {
                container_id: container_id@,
            },
            RuntimeCall::StopContainer { container_id, grace_secs } => RuntimeCallView::StopContainer {
                container_id: container_id@,
                grace_secs: *grace_secs,
            },
        }
    }
}

/// The outcome of one runtime call, as reported back by whoever performed it.
/// A successful create carries the runtime-assigned container id.
pub enum RuntimeReply {
    PullOk,
    PullFailed,
    CreateOk { container_id: String },
    CreateFailed,
    StartOk,
    StartFailed,
    StopOk,
    StopFailed,
}

pub enum RuntimeReplyView {
    PullOk,
    PullFailed,
    CreateOk { container_id: Seq<char> },
    CreateFailed,
    StartOk,
    StartFailed,
    StopOk,
    StopFailed,
}

impl View for RuntimeReply {
    type V = RuntimeReplyView;

    open spec fn view(&self) -> RuntimeReplyView {
        match self {
            RuntimeReply::PullOk => RuntimeReplyView::PullOk,
            RuntimeReply::PullFailed => RuntimeReplyView::PullFailed,
            RuntimeReply::CreateOk { container_id } => RuntimeReplyView::CreateOk {
                container_id: container_id@,
            },
            RuntimeReply::CreateFailed => RuntimeReplyView::CreateFailed,
            RuntimeReply::StartOk => RuntimeReplyView::StartOk,
            RuntimeReply::StartFailed => RuntimeReplyView::StartFailed,
            RuntimeReply::StopOk => RuntimeReplyView::StopOk,
            RuntimeReply::StopFailed => RuntimeReplyView::StopFailed,
        }
    }
}

} // verus!
