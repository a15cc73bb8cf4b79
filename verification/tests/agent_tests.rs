use agent::cmd::{
    execute_command, run_session, CommandOutcome, CommandResponse, RunOutcome, StopOutcome,
};
use agent::orchestrator::Orchestrator;
use agent::runtime::{DockerApiError, RuntimeCall, STOP_GRACE_SECS};
use agent::snapshot::build_snapshot;
use agent::wire::{
    AgentSnapshot, ContainerHostConfig, ContainerState, ContainerStatus, PortMap, RemoteCommand,
    RunParams, StopParams, Timestamp,
};
use agent::ws::{handle_frame, Frame, InboundAction, WsError};

fn httpbin_run() -> RemoteCommand {
    RemoteCommand::Run(RunParams {
        image_name: "httpbin".to_string(),
        tag: "latest".to_string(),
        container_host_config: Some(ContainerHostConfig {
            port_map: Some(PortMap {
                from: Some("8080/tcp".to_string()),
                to: Some("8080".to_string()),
            }),
        }),
    })
}

fn stop_of(id: &str) -> RemoteCommand {
    RemoteCommand::Stop(StopParams {
        container_id: id.to_string(),
    })
}

#[test]
fn run_httpbin_then_stop() {
    let mut orch = Orchestrator::new();

    let started = execute_command(
        &mut orch,
        &httpbin_run(),
        &CommandOutcome::Run(RunOutcome::Started {
            container_id: "c4f3".to_string(),
        }),
    );
    let id = match started {
        CommandResponse::ContainerStarted { container_id } => container_id,
        other => panic!("expected ContainerStarted, got {:?}", response_kind(&other)),
    };
    assert!(!id.is_empty());
    assert!(orch.tracks(&id));

    let stopped = execute_command(
        &mut orch,
        &stop_of(&id),
        &CommandOutcome::Stop(StopOutcome::Stopped),
    );
    match stopped {
        CommandResponse::ContainerStopped { container_id } => assert_eq!(id, container_id),
        other => panic!("expected ContainerStopped, got {:?}", response_kind(&other)),
    }
    assert!(!orch.tracks(&id));
}

fn response_kind(r: &CommandResponse) -> &'static str {
    match r {
        CommandResponse::ContainerStarted { .. } => "ContainerStarted",
        CommandResponse::ContainerStopped { .. } => "ContainerStopped",
        CommandResponse::Error { .. } => "Error",
    }
}

#[test]
fn stop_unknown_container_is_refused() {
    let mut orch = Orchestrator::new();
    let response = execute_command(
        &mut orch,
        &stop_of("does-not-exist"),
        &CommandOutcome::Stop(StopOutcome::Stopped),
    );
    match response {
        CommandResponse::Error { message } => {
            assert!(message.contains("Unknown container"));
            assert_eq!("Unknown container: does-not-exist", message);
        }
        other => panic!("expected Error, got {:?}", response_kind(&other)),
    }
}

#[test]
fn stop_unknown_container_asks_for_no_runtime_call() {
    let orch = Orchestrator::new();
    let params = StopParams {
        container_id: "does-not-exist".to_string(),
    };
    assert!(orch.stop_call(&params).is_none());
}

#[test]
fn stop_known_container_uses_fixed_grace_period() {
    let mut orch = Orchestrator::new();
    execute_command(
        &mut orch,
        &httpbin_run(),
        &CommandOutcome::Run(RunOutcome::Started {
            container_id: "c4f3".to_string(),
        }),
    );
    let params = StopParams {
        container_id: "c4f3".to_string(),
    };
    match orch.stop_call(&params) {
        Some(RuntimeCall::StopContainer {
            container_id,
            grace_secs,
        }) => {
            assert_eq!("c4f3", container_id);
            assert_eq!(STOP_GRACE_SECS, grace_secs);
            assert_eq!(10, grace_secs);
        }
        _ => panic!("expected a StopContainer call"),
    }
}

#[test]
fn failed_pull_registers_nothing_and_names_the_image() {
    let mut orch = Orchestrator::new();
    let response = execute_command(
        &mut orch,
        &httpbin_run(),
        &CommandOutcome::Run(RunOutcome::PullFailed),
    );
    match response {
        CommandResponse::Error { message } => {
            assert_eq!(
                "Failed to start container: failed to pull httpbin:latest",
                message
            );
            assert!(message.contains("httpbin"));
        }
        other => panic!("expected Error, got {:?}", response_kind(&other)),
    }
    assert!(!orch.tracks(&"c4f3".to_string()));
}

#[test]
fn failed_create_and_start_register_nothing() {
    let mut orch = Orchestrator::new();

    let create_failed = execute_command(
        &mut orch,
        &httpbin_run(),
        &CommandOutcome::Run(RunOutcome::CreateFailed),
    );
    match create_failed {
        CommandResponse::Error { message } => assert_eq!(
            "Failed to start container: failed to create container for image httpbin:latest",
            message
        ),
        other => panic!("expected Error, got {:?}", response_kind(&other)),
    }

    let start_failed = execute_command(
        &mut orch,
        &httpbin_run(),
        &CommandOutcome::Run(RunOutcome::StartFailed {
            container_id: "c4f3".to_string(),
        }),
    );
    match start_failed {
        CommandResponse::Error { message } => assert_eq!(
            "Failed to start container: failed to start container c4f3",
            message
        ),
        other => panic!("expected Error, got {:?}", response_kind(&other)),
    }
    assert!(!orch.tracks(&"c4f3".to_string()));
}

#[test]
fn failed_stop_still_discards_the_entry() {
    let mut orch = Orchestrator::new();
    execute_command(
        &mut orch,
        &httpbin_run(),
        &CommandOutcome::Run(RunOutcome::Started {
            container_id: "c4f3".to_string(),
        }),
    );
    let response = execute_command(
        &mut orch,
        &stop_of("c4f3"),
        &CommandOutcome::Stop(StopOutcome::Failed),
    );
    match response {
        CommandResponse::Error { message } => assert_eq!(
            "Failed to stop container: failed to stop container c4f3",
            message
        ),
        other => panic!("expected Error, got {:?}", response_kind(&other)),
    }
    assert!(!orch.tracks(&"c4f3".to_string()));
}

#[test]
fn session_answers_each_command_in_order() {
    let mut orch = Orchestrator::new();
    let cmds = vec![httpbin_run(), stop_of("one"), stop_of("missing")];
    let outs = vec![
        CommandOutcome::Run(RunOutcome::Started {
            container_id: "one".to_string(),
        }),
        CommandOutcome::Stop(StopOutcome::Stopped),
        CommandOutcome::Stop(StopOutcome::Stopped),
    ];
    let resps = run_session(&mut orch, &cmds, &outs);
    assert_eq!(3, resps.len());
    match &resps[0] {
        CommandResponse::ContainerStarted { container_id } => assert_eq!("one", container_id),
        other => panic!("expected ContainerStarted, got {:?}", response_kind(other)),
    }
    match &resps[1] {
        CommandResponse::ContainerStopped { container_id } => assert_eq!("one", container_id),
        other => panic!("expected ContainerStopped, got {:?}", response_kind(other)),
    }
    match &resps[2] {
        CommandResponse::Error { message } => {
            assert_eq!("Unknown container: missing", message)
        }
        other => panic!("expected Error, got {:?}", response_kind(other)),
    }
}

#[test]
fn keepalive_is_echoed_with_identical_payload() {
    let payload = vec![0x01u8, 0xFF, 0x00, 0x7A];
    match handle_frame(Frame::Ping(payload.clone())) {
        InboundAction::ReplyPong(echoed) => assert_eq!(payload, echoed),
        _ => panic!("expected a pong reply"),
    }
    match handle_frame(Frame::Ping(Vec::new())) {
        InboundAction::ReplyPong(echoed) => assert!(echoed.is_empty()),
        _ => panic!("expected a pong reply"),
    }
}

#[test]
fn text_and_unsolicited_pong_frames_are_fatal() {
    match handle_frame(Frame::Text("hello".to_string())) {
        InboundAction::Fatal(WsError::UnexpectedFrame) => {}
        _ => panic!("expected a fatal protocol error"),
    }
    match handle_frame(Frame::Pong(vec![1, 2, 3])) {
        InboundAction::Fatal(WsError::UnexpectedFrame) => {}
        _ => panic!("expected a fatal protocol error"),
    }
    match handle_frame(Frame::Close) {
        InboundAction::Closed => {}
        _ => panic!("expected a normal close"),
    }
}

#[test]
fn malformed_binary_frame_is_a_decode_error() {
    match handle_frame(Frame::Binary(vec![0xFF, 0x01, 0x02])) {
        InboundAction::Fatal(WsError::MessageDecodeError) => {}
        _ => panic!("expected a decode error"),
    }
}

fn listing() -> Vec<ContainerStatus> {
    vec![
        ContainerStatus {
            id: Some("c1".to_string()),
            name: Some("/httpbin".to_string()),
            image_id: Some("sha256:abc".to_string()),
            container_state: ContainerState::Running,
        },
        ContainerStatus {
            id: Some("c2".to_string()),
            name: None,
            image_id: None,
            container_state: ContainerState::Exited,
        },
    ]
}

#[test]
fn snapshot_ticks_differ_only_in_timestamp() {
    let first = build_snapshot(
        Ok(listing()),
        Timestamp {
            seconds: 1_000,
            nanos: 5,
        },
    )
    .unwrap();
    let second = build_snapshot(
        Ok(listing()),
        Timestamp {
            seconds: 2_000,
            nanos: 7,
        },
    )
    .unwrap();

    assert_ne!(first.timestamp, second.timestamp);
    assert_eq!(first.container_status.len(), second.container_status.len());
    for (a, b) in first
        .container_status
        .iter()
        .zip(second.container_status.iter())
    {
        assert_eq!(a.id, b.id);
        assert_eq!(a.name, b.name);
        assert_eq!(a.image_id, b.image_id);
        assert_eq!(a.container_state, b.container_state);
    }
}

#[test]
fn failed_listing_aborts_the_tick() {
    let r = build_snapshot(
        Err(DockerApiError::ListContainersFailed),
        Timestamp {
            seconds: 1,
            nanos: 0,
        },
    );
    match r {
        Err(e) => assert_eq!("failed to list containers", e.message()),
        Ok(_) => panic!("expected the tick to abort"),
    }
}

#[test]
fn docker_api_error_messages_are_exact() {
    assert_eq!(
        "failed to pull httpbin:latest",
        DockerApiError::ImagePullFailed {
            image: "httpbin".to_string(),
            tag: "latest".to_string(),
        }
        .message()
    );
    assert_eq!(
        "failed to create container for image httpbin:latest",
        DockerApiError::ContainerCreateFailed {
            image: "httpbin:latest".to_string(),
        }
        .message()
    );
    assert_eq!(
        "failed to start container c4f3",
        DockerApiError::ContainerStartFailed {
            container_id: "c4f3".to_string(),
        }
        .message()
    );
    assert_eq!(
        "failed to stop container c4f3",
        DockerApiError::ContainerStopFailed {
            container_id: "c4f3".to_string(),
        }
        .message()
    );
}

#[test]
fn snapshot_can_be_encoded_after_build() {
    let snap: AgentSnapshot = build_snapshot(
        Ok(listing()),
        Timestamp {
            seconds: 300,
            nanos: 0,
        },
    )
    .unwrap();
    let bytes = agent::codec::encode_snapshot(&snap);
    assert!(!bytes.is_empty());
}
