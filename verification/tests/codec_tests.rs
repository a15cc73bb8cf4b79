use agent::codec::{decode_command, encode_command, encode_snapshot, encode_varint};
use agent::wire::{
    AgentSnapshot, ContainerHostConfig, ContainerState, ContainerStatus, PortMap, RemoteCommand,
    RunParams, StopParams, Timestamp,
};

fn full_run_command() -> RemoteCommand {
    RemoteCommand::Run(RunParams {
        image_name: "mccutchen/go-httpbin".to_string(),
        tag: "latest".to_string(),
        container_host_config: Some(ContainerHostConfig {
            port_map: Some(PortMap {
                from: Some("8080/tcp".to_string()),
                to: Some("8080".to_string()),
            }),
        }),
    })
}

#[test]
fn varint_has_exact_bytes() {
    let mut out = Vec::new();
    encode_varint(&mut out, 0);
    assert_eq!(vec![0x00u8], out);

    let mut out = Vec::new();
    encode_varint(&mut out, 127);
    assert_eq!(vec![0x7Fu8], out);

    let mut out = Vec::new();
    encode_varint(&mut out, 128);
    assert_eq!(vec![0x80u8, 0x01], out);

    let mut out = Vec::new();
    encode_varint(&mut out, 300);
    assert_eq!(vec![0xACu8, 0x02], out);

    let mut out = Vec::new();
    encode_varint(&mut out, u64::MAX);
    assert_eq!(
        vec![0xFFu8, 0xFF, 0xFF, 0xFF, 0xFF, 0xFF, 0xFF, 0xFF, 0xFF, 0x01],
        out
    );
}

#[test]
fn stop_command_has_exact_bytes() {
    let cmd = RemoteCommand::Stop(StopParams {
        container_id: "ab".to_string(),
    });
    let bytes = encode_command(&cmd);
    // stop submessage (key 0x12), length 4: container id field (key 0x0A),
    // length 2, "ab"
    assert_eq!(vec![0x12u8, 0x04, 0x0A, 0x02, 0x61, 0x62], bytes);
}

#[test]
fn command_round_trips_through_the_codec() {
    let original = full_run_command();
    let bytes = encode_command(&original);
    let decoded = decode_command(&bytes).expect("decoding its own encoding must succeed");
    match (original, decoded) {
        (RemoteCommand::Run(a), RemoteCommand::Run(b)) => {
            assert_eq!(a.image_name, b.image_name);
            assert_eq!(a.tag, b.tag);
            let (ahc, bhc) = (
                a.container_host_config.unwrap(),
                b.container_host_config.unwrap(),
            );
            let (apm, bpm) = (ahc.port_map.unwrap(), bhc.port_map.unwrap());
            assert_eq!(apm.from, bpm.from);
            assert_eq!(apm.to, bpm.to);
        }
        _ => panic!("decoded to the wrong command kind"),
    }
}

#[test]
fn stop_command_round_trips_with_long_id() {
    let long_id: String = "0123456789abcdef".repeat(20);
    let original = RemoteCommand::Stop(StopParams {
        container_id: long_id.clone(),
    });
    let bytes = encode_command(&original);
    // the 320-byte payload forces a two-byte varint length
    match decode_command(&bytes).expect("decode") {
        RemoteCommand::Stop(p) => assert_eq!(long_id, p.container_id),
        _ => panic!("decoded to the wrong command kind"),
    }
}

#[test]
fn run_command_without_host_config_round_trips() {
    let original = RemoteCommand::Run(RunParams {
        image_name: "redis".to_string(),
        tag: "7".to_string(),
        container_host_config: None,
    });
    let bytes = encode_command(&original);
    match decode_command(&bytes).expect("decode") {
        RemoteCommand::Run(p) => {
            assert_eq!("redis", p.image_name);
            assert_eq!("7", p.tag);
            assert!(p.container_host_config.is_none());
        }
        _ => panic!("decoded to the wrong command kind"),
    }
}

#[test]
fn non_ascii_text_survives_the_codec() {
    let original = RemoteCommand::Run(RunParams {
        image_name: "bücher/åpp-日本".to_string(),
        tag: "v1".to_string(),
        container_host_config: None,
    });
    let bytes = encode_command(&original);
    match decode_command(&bytes).expect("decode") {
        RemoteCommand::Run(p) => assert_eq!("bücher/åpp-日本", p.image_name),
        _ => panic!("decoded to the wrong command kind"),
    }
}

#[test]
fn invalid_utf8_in_a_string_field_is_rejected() {
    // stop submessage of length 4: container id field of length 2 holding
    // 0xFF 0xFE, which is not UTF-8
    let bytes = vec![0x12u8, 0x04, 0x0A, 0x02, 0xFF, 0xFE];
    assert!(decode_command(&bytes).is_none());
}

#[test]
fn malformed_frames_are_rejected() {
    assert!(decode_command(&[]).is_none());
    // unknown top-level key
    assert!(decode_command(&[0x2A, 0x00]).is_none());
    // truncated length
    assert!(decode_command(&[0x12, 0x10, 0x0A]).is_none());
    // trailing garbage after a valid stop submessage
    assert!(decode_command(&[0x12, 0x04, 0x0A, 0x02, 0x61, 0x62, 0x00]).is_none());
    // varint that never terminates
    assert!(decode_command(&[0x12, 0x80, 0x80, 0x80]).is_none());
}

#[test]
fn snapshot_has_exact_bytes() {
    let snap = AgentSnapshot {
        timestamp: Timestamp {
            seconds: 300,
            nanos: 1,
        },
        container_status: vec![ContainerStatus {
            id: Some("c1".to_string()),
            name: None,
            image_id: None,
            container_state: ContainerState::Running,
        }],
    };
    let bytes = encode_snapshot(&snap);
    let expected = vec![
        0x0Au8, 0x05, // timestamp submessage, 5 bytes
        0x08, 0xAC, 0x02, // seconds = 300
        0x10, 0x01, // nanos = 1
        0x12, 0x06, // status submessage, 6 bytes
        0x0A, 0x02, 0x63, 0x31, // id = "c1"
        0x20, 0x01, // state = running
    ];
    assert_eq!(expected, bytes);
}
