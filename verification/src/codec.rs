//! The wire codec for the control connection's binary frames.  Fields are
//! laid out protobuf-style: a one-byte key (field number and wire type),
//! then for length-delimited fields a varint byte length and the payload,
//! for numeric fields a varint value.  Strings travel as UTF-8.  Commands
//! are decoded with `decode_command`, whose behaviour is exactly the
//! specification-level parser `parse_command`; snapshots are encoded with
//! `encode_snapshot`.

use vstd::prelude::*;
use vstd::slice::{slice_subrange, slice_to_vec};
use vstd::string::StrSliceExecFns;
use vstd::utf8::{decode_utf8, encode_utf8, valid_utf8};

use crate::wire::{
    AgentSnapshot, AgentSnapshotView, ContainerHostConfig, ContainerHostConfigView, ContainerState,
    ContainerStatus, ContainerStatusView, PortMap, PortMapView, RemoteCommand, RemoteCommandView,
    RunParams, RunParamsView, StopParams, StopParamsView, Timestamp,
};

verus! {

// Field keys: (field number << 3) | wire type, with wire type 2 for
// length-delimited fields and 0 for varints.
pub const RUN_KEY: u8 = 0x0A;
pub const STOP_KEY: u8 = 0x12;
pub const IMAGE_NAME_KEY: u8 = 0x0A;
pub const TAG_KEY: u8 = 0x12;
pub const HOST_CONFIG_KEY: u8 = 0x1A;
pub const PORT_MAP_KEY: u8 = 0x0A;
pub const FROM_PORT_KEY: u8 = 0x0A;
pub const TO_PORT_KEY: u8 = 0x12;
pub const CONTAINER_ID_KEY: u8 = 0x0A;
pub const TIMESTAMP_KEY: u8 = 0x0A;
pub const STATUS_KEY: u8 = 0x12;
pub const SECONDS_KEY: u8 = 0x08;
pub const NANOS_KEY: u8 = 0x10;
pub const STATUS_ID_KEY: u8 = 0x0A;
pub const STATUS_NAME_KEY: u8 = 0x12;
pub const STATUS_IMAGE_ID_KEY: u8 = 0x1A;
pub const STATUS_STATE_KEY: u8 = 0x20;

/// Little-endian base-128 varint: low seven bits per byte, high bit set on
/// every byte but the last.
pub open spec fn spec_varint(n: nat) -> Seq<u8>
    decreases n,
{
    if n < 128 {
        seq![n as u8]
    } else {
        seq![(128 + (n % 128)) as u8] + spec_varint(n / 128)
    }
}

/// A length-delimited field: key, payload length, payload.
pub open spec fn spec_len_prefixed(key: u8, payload: Seq<u8>) -> Seq<u8> {
    seq![key] + spec_varint(payload.len() as nat) + payload
}

/// A string field: its UTF-8 bytes, length-delimited.
pub open spec fn spec_string_field(key: u8, s: Seq<char>) -> Seq<u8> {
    spec_len_prefixed(key, encode_utf8(s))
}

/// A numeric field: key, then the value as a varint.
pub open spec fn spec_varint_field(key: u8, n: nat) -> Seq<u8> {
    seq![key] + spec_varint(n)
}

/// An optional string field: absent fields take no bytes.
pub open spec fn spec_opt_string_field(key: u8, s: Option<Seq<char>>) -> Seq<u8> {
    match s {
        Option::Some(x) => spec_string_field(key, x),
        Option::None => Seq::empty(),
    }
}

pub open spec fn spec_port_map(pm: PortMapView) -> Seq<u8> {
    spec_opt_string_field(FROM_PORT_KEY, pm.from) + spec_opt_string_field(TO_PORT_KEY, pm.to)
}

pub open spec fn spec_host_config(c: ContainerHostConfigView) -> Seq<u8> {
    match c.port_map {
        Option::Some(pm) => spec_len_prefixed(PORT_MAP_KEY, spec_port_map(pm)),
        Option::None => Seq::empty(),
    }
}

pub open spec fn spec_run_params(p: RunParamsView) -> Seq<u8> {
    spec_string_field(IMAGE_NAME_KEY, p.image_name) + spec_string_field(TAG_KEY, p.tag) + (
    match p.container_host_config {
        Option::Some(c) => spec_len_prefixed(HOST_CONFIG_KEY, spec_host_config(c)),
        Option::None => Seq::empty(),
    })
}

pub open spec fn spec_stop_params(p: StopParamsView) -> Seq<u8> {
    spec_string_field(CONTAINER_ID_KEY, p.container_id)
}

/// The frame payload of one command: the run or stop parameters as a
/// length-delimited submessage under the variant's key.
pub open spec fn spec_command(c: RemoteCommandView) -> Seq<u8> {
    match c {
        RemoteCommandView::Run(p) => spec_len_prefixed(RUN_KEY, spec_run_params(p)),
        RemoteCommandView::Stop(p) => spec_len_prefixed(STOP_KEY, spec_stop_params(p)),
    }
}

/// Numeric code of a container state on the wire.
pub open spec fn spec_state_code(s: ContainerState) -> nat {
    match s {
        ContainerState::Unspecified => 0,
        ContainerState::Running => 1,
        ContainerState::Exited => 2,
    }
}

pub open spec fn spec_timestamp(t: Timestamp) -> Seq<u8> {
    spec_varint_field(SECONDS_KEY, t.seconds as nat) + spec_varint_field(NANOS_KEY, t.nanos as nat)
}

pub open spec fn spec_status(st: ContainerStatusView) -> Seq<u8> {
    spec_opt_string_field(STATUS_ID_KEY, st.id) + spec_opt_string_field(STATUS_NAME_KEY, st.name)
        + spec_opt_string_field(STATUS_IMAGE_ID_KEY, st.image_id) + spec_varint_field(
        STATUS_STATE_KEY,
        spec_state_code(st.container_state),
    )
}

pub open spec fn spec_statuses(sts: Seq<ContainerStatusView>) -> Seq<u8>
    decreases sts.len(),
{
    if sts.len() == 0 {
        Seq::empty()
    } else {
        spec_statuses(sts.drop_last()) + spec_len_prefixed(STATUS_KEY, spec_status(sts.last()))
    }
}

/// The frame payload of one snapshot: the timestamp submessage, then one
/// status submessage per container, in listing order.
pub open spec fn spec_snapshot(s: AgentSnapshotView) -> Seq<u8> {
    spec_len_prefixed(TIMESTAMP_KEY, spec_timestamp(s.timestamp)) + spec_statuses(
        s.container_status,
    )
}

/// Appends the varint encoding of `n`.
pub fn encode_varint(out: &mut Vec<u8>, n: u64)
    ensures
        final(out)@ == old(out)@ + spec_varint(n as nat),
{
    let mut m = n;
    while m >= 128
        invariant
            out@ + spec_varint(m as nat) == old(out)@ + spec_varint(n as nat),
        decreases m,
    {
        let b: u8 = 128 + (m % 128) as u8;
        proof {
            assert(spec_varint(m as nat) == seq![b] + spec_varint((m as nat) / 128));
        }
        let ghost prev = out@;
        out.push(b);
        proof {
            assert(out@ + spec_varint(((m / 128) as u64) as nat) =~= prev + spec_varint(
                m as nat,
            ));
        }
        m = m / 128;
    }
    let ghost prev = out@;
    out.push(m as u8);
    proof {
        assert(spec_varint(m as nat) == seq![m as u8]);
        assert(out@ =~= prev + spec_varint(m as nat));
    }
}

/// Appends a length-delimited field holding `payload`.
fn encode_len_prefixed(out: &mut Vec<u8>, key: u8, payload: Vec<u8>)
    ensures
        final(out)@ == old(out)@ + spec_len_prefixed(key, payload@),
{
    let ghost start = out@;
    out.push(key);
    proof {
        assert(out@ =~= start + seq![key]);
    }
    encode_varint(out, payload.len() as u64);
    let mut tmp = payload;
    out.append(&mut tmp);
    proof {
        assert(out@ =~= start + spec_len_prefixed(key, payload@));
    }
}

/// Appends a string field: the string's UTF-8 bytes, length-delimited.
fn encode_string_field(out: &mut Vec<u8>, key: u8, s: &str)
    ensures
        final(out)@ == old(out)@ + spec_string_field(key, s@),
{
    let bytes = s.as_bytes_vec();
    encode_len_prefixed(out, key, bytes);
}

/// Appends a numeric field.
fn encode_varint_field(out: &mut Vec<u8>, key: u8, n: u64)
    ensures
        final(out)@ == old(out)@ + spec_varint_field(key, n as nat),
{
    let ghost start = out@;
    out.push(key);
    encode_varint(out, n);
    proof {
        assert(out@ =~= start + spec_varint_field(key, n as nat));
    }
}

fn encode_port_map(pm: &PortMap) -> (r: Vec<u8>)
    ensures
        r@ == spec_port_map(pm@),
{
    let mut out: Vec<u8> = Vec::new();
    match &pm.from {
        Some(s) => encode_string_field(&mut out, FROM_PORT_KEY, s.as_str()),
        None => {},
    }
    match &pm.to {
        Some(s) => encode_string_field(&mut out, TO_PORT_KEY, s.as_str()),
        None => {},
    }
    proof {
        assert(out@ =~= spec_port_map(pm@));
    }
    out
}

fn encode_host_config(c: &ContainerHostConfig) -> (r: Vec<u8>)
    ensures
        r@ == spec_host_config(c@),
{
    let mut out: Vec<u8> = Vec::new();
    match &c.port_map {
        Some(pm) => {
            let payload = encode_port_map(pm);
            encode_len_prefixed(&mut out, PORT_MAP_KEY, payload);
        },
        None => {},
    }
    proof {
        assert(out@ =~= spec_host_config(c@));
    }
    out
}

fn encode_run_params(p: &RunParams) -> (r: Vec<u8>)
    ensures
        r@ == spec_run_params(p@),
{
    let mut out: Vec<u8> = Vec::new();
    encode_string_field(&mut out, IMAGE_NAME_KEY, p.image_name.as_str());
    encode_string_field(&mut out, TAG_KEY, p.tag.as_str());
    match &p.container_host_config {
        Some(c) => {
            let payload = encode_host_config(c);
            encode_len_prefixed(&mut out, HOST_CONFIG_KEY, payload);
        },
        None => {},
    }
    proof {
        assert(out@ =~= spec_run_params(p@));
    }
    out
}

fn encode_stop_params(p: &StopParams) -> (r: Vec<u8>)
    ensures
        r@ == spec_stop_params(p@),
{
    let mut out: Vec<u8> = Vec::new();
    encode_string_field(&mut out, CONTAINER_ID_KEY, p.container_id.as_str());
    proof {
        assert(out@ =~= spec_stop_params(p@));
    }
    out
}

/// Encodes one command as a frame payload.
pub fn encode_command(c: &RemoteCommand) -> (r: Vec<u8>)
    ensures
        r@ == spec_command(c@),
{
    let mut out: Vec<u8> = Vec::new();
    match c {
        RemoteCommand::Run(p) => {
            let payload = encode_run_params(p);
            encode_len_prefixed(&mut out, RUN_KEY, payload);
        },
        RemoteCommand::Stop(p) => {
            let payload = encode_stop_params(p);
            encode_len_prefixed(&mut out, STOP_KEY, payload);
        },
    }
    proof {
        assert(out@ =~= spec_command(c@));
    }
    out
}

fn encode_timestamp(t: &Timestamp) -> (r: Vec<u8>)
    ensures
        r@ == spec_timestamp(*t),
{
    let mut out: Vec<u8> = Vec::new();
    encode_varint_field(&mut out, SECONDS_KEY, t.seconds);
    encode_varint_field(&mut out, NANOS_KEY, t.nanos as u64);
    proof {
        assert(out@ =~= spec_timestamp(*t));
    }
    out
}

fn encode_status(st: &ContainerStatus) -> (r: Vec<u8>)
    ensures
        r@ == spec_status(st@),
{
    let mut out: Vec<u8> = Vec::new();
    match &st.id {
        Some(s) => encode_string_field(&mut out, STATUS_ID_KEY, s.as_str()),
        None => {},
    }
    match &st.name {
        Some(s) => encode_string_field(&mut out, STATUS_NAME_KEY, s.as_str()),
        None => {},
    }
    match &st.image_id {
        Some(s) => encode_string_field(&mut out, STATUS_IMAGE_ID_KEY, s.as_str()),
        None => {},
    }
    let code: u64 = match st.container_state {
        ContainerState::Unspecified => 0,
        ContainerState::Running => 1,
        ContainerState::Exited => 2,
    };
    encode_varint_field(&mut out, STATUS_STATE_KEY, code);
    proof {
        assert(out@ =~= spec_status(st@));
    }
    out
}

/// Encodes one snapshot as a frame payload.
pub fn encode_snapshot(s: &AgentSnapshot) -> (r: Vec<u8>)
    ensures
        r@ == spec_snapshot(s@),
{
    let mut out: Vec<u8> = Vec::new();
    let ts = encode_timestamp(&s.timestamp);
    encode_len_prefixed(&mut out, TIMESTAMP_KEY, ts);
    let n = s.container_status.len();
    proof {
        assert(s@.container_status.take(0) =~= Seq::<ContainerStatusView>::empty());
        assert(out@ =~= spec_len_prefixed(TIMESTAMP_KEY, spec_timestamp(s.timestamp))
            + spec_statuses(s@.container_status.take(0)));
    }
    for i in 0..n
        invariant
            n == s.container_status@.len(),
            out@ == spec_len_prefixed(TIMESTAMP_KEY, spec_timestamp(s.timestamp)) + spec_statuses(
                s@.container_status.take(i as int),
            ),
    {
        let payload = encode_status(&s.container_status[i]);
        encode_len_prefixed(&mut out, STATUS_KEY, payload);
        proof {
            let sts = s@.container_status;
            assert(sts.take(i + 1).drop_last() =~= sts.take(i as int));
            assert(sts.take(i + 1).last() == s.container_status@[i as int]@);
            assert(out@ =~= spec_len_prefixed(TIMESTAMP_KEY, spec_timestamp(s.timestamp))
                + spec_statuses(sts.take(i + 1)));
        }
    }
    proof {
        assert(s@.container_status.take(n as int) =~= s@.container_status);
    }
    out
}

/// Value and next position of the varint at `i`, if the bytes there form
/// one.
pub open spec fn parse_varint(s: Seq<u8>, i: int) -> Option<(nat, int)>
    decreases s.len() - i,
{
    if !(0 <= i < s.len()) {
        Option::None
    } else if s[i] < 128 {
        Option::Some((s[i] as nat, i + 1))
    } else {
        match parse_varint(s, i + 1) {
            Option::Some(r) => Option::Some((((s[i] - 128) + 128 * r.0) as nat, r.1)),
            Option::None => Option::None,
        }
    }
}

/// The positions a varint parse reaches stay within the buffer.
pub proof fn lemma_parse_varint_bounds(s: Seq<u8>, i: int)
    requires
        parse_varint(s, i) is Some,
    ensures
        i < (parse_varint(s, i)->0).1 <= s.len(),
    decreases s.len() - i,
{
    if s[i] >= 128 {
        lemma_parse_varint_bounds(s, i + 1);
    }
}

/// As `parse_varint`, rejecting values that do not fit in 64 bits.
pub open spec fn parse_varint_u64(s: Seq<u8>, i: int) -> Option<(u64, int)> {
    match parse_varint(s, i) {
        Option::Some(r) => if r.0 < 0x10000000000000000 {
            Option::Some((r.0 as u64, r.1))
        } else {
            Option::None
        },
        Option::None => Option::None,
    }
}

/// String value and next position of the string field with the given key at
/// `i`: the key byte, a varint byte length, then that many bytes of valid
/// UTF-8.
pub open spec fn parse_string_field(s: Seq<u8>, i: int, key: u8) -> Option<(Seq<char>, int)> {
    if !(0 <= i < s.len()) || s[i] != key {
        Option::None
    } else {
        match parse_varint_u64(s, i + 1) {
            Option::Some(r) => {
                let j = r.1;
                let len = r.0 as int;
                if j + len <= s.len() && valid_utf8(s.subrange(j, j + len)) {
                    Option::Some((decode_utf8(s.subrange(j, j + len)), j + len))
                } else {
                    Option::None
                }
            },
            Option::None => Option::None,
        }
    }
}

/// Payload bytes and next position of the length-delimited submessage with
/// the given key at `i`.
pub open spec fn parse_sub_field(s: Seq<u8>, i: int, key: u8) -> Option<(Seq<u8>, int)> {
    if !(0 <= i < s.len()) || s[i] != key {
        Option::None
    } else {
        match parse_varint_u64(s, i + 1) {
            Option::Some(r) => {
                let j = r.1;
                let len = r.0 as int;
                if j + len <= s.len() {
                    Option::Some((s.subrange(j, j + len), j + len))
                } else {
                    Option::None
                }
            },
            Option::None => Option::None,
        }
    }
}

/// A whole port-map message: optional `from`, then optional `to`, nothing
/// else.
pub open spec fn parse_port_map(msg: Seq<u8>) -> Option<PortMapView> {
    if msg.len() == 0 {
        Option::Some(PortMapView { from: Option::None, to: Option::None })
    } else if msg[0] == FROM_PORT_KEY {
        match parse_string_field(msg, 0, FROM_PORT_KEY) {
            Option::Some(r) => {
                let (from, i1) = r;
                if i1 == msg.len() {
                    Option::Some(PortMapView { from: Option::Some(from), to: Option::None })
                } else {
                    match parse_string_field(msg, i1, TO_PORT_KEY) {
                        Option::Some(r2) => if r2.1 == msg.len() {
                            Option::Some(
                                PortMapView {
                                    from: Option::Some(from),
                                    to: Option::Some(r2.0),
                                },
                            )
                        } else {
                            Option::None
                        },
                        Option::None => Option::None,
                    }
                }
            },
            Option::None => Option::None,
        }
    } else {
        match parse_string_field(msg, 0, TO_PORT_KEY) {
            Option::Some(r) => if r.1 == msg.len() {
                Option::Some(PortMapView { from: Option::None, to: Option::Some(r.0) })
            } else {
                Option::None
            },
            Option::None => Option::None,
        }
    }
}

/// A whole host-config message: an optional port-map submessage.
pub open spec fn parse_host_config(msg: Seq<u8>) -> Option<ContainerHostConfigView> {
    if msg.len() == 0 {
        Option::Some(ContainerHostConfigView { port_map: Option::None })
    } else {
        match parse_sub_field(msg, 0, PORT_MAP_KEY) {
            Option::Some(r) => if r.1 == msg.len() {
                match parse_port_map(r.0) {
                    Option::Some(pm) => Option::Some(
                        ContainerHostConfigView { port_map: Option::Some(pm) },
                    ),
                    Option::None => Option::None,
                }
            } else {
                Option::None
            },
            Option::None => Option::None,
        }
    }
}

/// A whole run-params message: image name, tag, then an optional host-config
/// submessage.
pub open spec fn parse_run_params(msg: Seq<u8>) -> Option<RunParamsView> {
    match parse_string_field(msg, 0, IMAGE_NAME_KEY) {
        Option::Some(r1) => match parse_string_field(msg, r1.1, TAG_KEY) {
            Option::Some(r2) => if r2.1 == msg.len() {
                Option::Some(
                    RunParamsView {
                        image_name: r1.0,
                        tag: r2.0,
                        container_host_config: Option::None,
                    },
                )
            } else {
                match parse_sub_field(msg, r2.1, HOST_CONFIG_KEY) {
                    Option::Some(r3) => if r3.1 == msg.len() {
                        match parse_host_config(r3.0) {
                            Option::Some(c) => Option::Some(
                                RunParamsView {
                                    image_name: r1.0,
                                    tag: r2.0,
                                    container_host_config: Option::Some(c),
                                },
                            ),
                            Option::None => Option::None,
                        }
                    } else {
                        Option::None
                    },
                    Option::None => Option::None,
                }
            },
            Option::None => Option::None,
        },
        Option::None => Option::None,
    }
}

/// A whole stop-params message: the container id, nothing else.
pub open spec fn parse_stop_params(msg: Seq<u8>) -> Option<StopParamsView> {
    match parse_string_field(msg, 0, CONTAINER_ID_KEY) {
        Option::Some(r) => if r.1 == msg.len() {
            Option::Some(StopParamsView { container_id: r.0 })
        } else {
            Option::None
        },
        Option::None => Option::None,
    }
}

/// A whole command frame: exactly one run or stop submessage.  This is the
/// decoder's full behaviour: any byte sequence this function rejects is a
/// malformed frame.
pub open spec fn parse_command(s: Seq<u8>) -> Option<RemoteCommandView> {
    if s.len() == 0 {
        Option::None
    } else if s[0] == RUN_KEY {
        match parse_sub_field(s, 0, RUN_KEY) {
            Option::Some(r) => if r.1 == s.len() {
                match parse_run_params(r.0) {
                    Option::Some(p) => Option::Some(RemoteCommandView::Run(p)),
                    Option::None => Option::None,
                }
            } else {
                Option::None
            },
            Option::None => Option::None,
        }
    } else if s[0] == STOP_KEY {
        match parse_sub_field(s, 0, STOP_KEY) {
            Option::Some(r) => if r.1 == s.len() {
                match parse_stop_params(r.0) {
                    Option::Some(p) => Option::Some(RemoteCommandView::Stop(p)),
                    Option::None => Option::None,
                }
            } else {
                Option::None
            },
            Option::None => Option::None,
        }
    } else {
        Option::None
    }
}

/// Small enough for its length to travel as a 64-bit varint.
pub open spec fn wire_sized(bytes: Seq<u8>) -> bool {
    bytes.len() < 0x10000000000000000
}

pub open spec fn encodable_port_map(pm: PortMapView) -> bool {
    &&& (pm.from is Some ==> wire_sized(encode_utf8(pm.from->0)))
    &&& (pm.to is Some ==> wire_sized(encode_utf8(pm.to->0)))
    &&& wire_sized(spec_port_map(pm))
}

pub open spec fn encodable_host_config(c: ContainerHostConfigView) -> bool {
    &&& (c.port_map is Some ==> encodable_port_map(c.port_map->0))
    &&& wire_sized(spec_host_config(c))
}

pub open spec fn encodable_run_params(p: RunParamsView) -> bool {
    &&& wire_sized(encode_utf8(p.image_name))
    &&& wire_sized(encode_utf8(p.tag))
    &&& (p.container_host_config is Some ==> encodable_host_config(p.container_host_config->0))
    &&& wire_sized(spec_run_params(p))
}

pub open spec fn encodable_stop_params(p: StopParamsView) -> bool {
    &&& wire_sized(encode_utf8(p.container_id))
    &&& wire_sized(spec_stop_params(p))
}

/// Whether a command fits on the wire: every length that is written as a
/// varint fits in 64 bits.  True of anything an executable value can hold.
pub open spec fn encodable_command(c: RemoteCommandView) -> bool {
    match c {
        RemoteCommandView::Run(p) => encodable_run_params(p),
        RemoteCommandView::Stop(p) => encodable_stop_params(p),
    }
}

/// A varint written at `i` parses back to the value it was written from.
proof fn lemma_varint_roundtrip(s: Seq<u8>, i: int, n: nat)
    requires
        0 <= i,
        i + spec_varint(n).len() <= s.len(),
        s.subrange(i, i + spec_varint(n).len()) == spec_varint(n),
    ensures
        parse_varint(s, i) == Option::Some((n, i + spec_varint(n).len())),
    decreases n,
{
    let v = spec_varint(n);
    assert(v.len() >= 1);
    assert(s[i] == v[0]);
    if n < 128 {
        assert(v == seq![n as u8]);
        assert(s[i] == n as u8);
    } else {
        let rest = spec_varint(n / 128);
        assert(v == seq![(128 + (n % 128)) as u8] + rest);
        assert(s[i] == (128 + (n % 128)) as u8);
        assert(s[i] >= 128);
        assert(s.subrange(i + 1, i + 1 + rest.len()) =~= v.subrange(1, v.len() as int));
        assert(v.subrange(1, v.len() as int) =~= rest);
        lemma_varint_roundtrip(s, i + 1, n / 128);
        assert(parse_varint(s, i + 1) == Option::Some((n / 128, i + 1 + rest.len())));
        assert((s[i] - 128) + 128 * (n / 128) == n % 128 + 128 * (n / 128));
        assert(n % 128 + 128 * (n / 128) == n);
    }
}

/// As above, through the 64-bit guard.
proof fn lemma_varint_u64_roundtrip(s: Seq<u8>, i: int, n: nat)
    requires
        0 <= i,
        n < 0x10000000000000000,
        i + spec_varint(n).len() <= s.len(),
        s.subrange(i, i + spec_varint(n).len()) == spec_varint(n),
    ensures
        parse_varint_u64(s, i) == Option::Some((n as u64, i + spec_varint(n).len())),
{
    lemma_varint_roundtrip(s, i, n);
}

/// A string field written at `i` parses back to the text it was written
/// from.
proof fn lemma_string_field_roundtrip(s: Seq<u8>, i: int, key: u8, text: Seq<char>)
    requires
        0 <= i,
        wire_sized(encode_utf8(text)),
        i + spec_string_field(key, text).len() <= s.len(),
        s.subrange(i, i + spec_string_field(key, text).len()) == spec_string_field(key, text),
    ensures
        parse_string_field(s, i, key) == Option::Some(
            (text, i + spec_string_field(key, text).len()),
        ),
{
    broadcast use vstd::utf8::encode_utf8_valid_utf8, vstd::utf8::encode_utf8_decode_utf8;

    let bytes = encode_utf8(text);
    let f = spec_string_field(key, text);
    let vl = spec_varint(bytes.len() as nat);
    assert(f == seq![key] + vl + bytes);
    assert forall|k: int| 0 <= k < f.len() implies s[i + k] == f[k] by {
        assert(s.subrange(i, i + f.len() as int)[k] == s[i + k]);
    }
    assert(s[i] == f[0]);
    assert(f[0] == key);
    assert forall|k: int| 0 <= k < vl.len() implies #[trigger] s.subrange(
        i + 1,
        i + 1 + vl.len() as int,
    )[k] == vl[k] by {
        assert(s[i + 1 + k] == f[1 + k]);
        assert(f[1 + k] == vl[k]);
    }
    assert(s.subrange(i + 1, i + 1 + vl.len()) =~= vl);
    lemma_varint_u64_roundtrip(s, i + 1, bytes.len() as nat);
    let j = i + 1 + vl.len();
    assert(parse_varint_u64(s, i + 1) == Option::Some((bytes.len() as u64, j)));
    assert forall|k: int| 0 <= k < bytes.len() implies #[trigger] s.subrange(
        j,
        j + bytes.len() as int,
    )[k] == bytes[k] by {
        assert(s[j + k] == f[1 + vl.len() + k]);
        assert(f[1 + vl.len() + k] == bytes[k]);
    }
    assert(s.subrange(j, j + bytes.len()) =~= bytes);
    assert(valid_utf8(bytes));
    assert(decode_utf8(bytes) == text);
    assert(j + bytes.len() == i + f.len());
}

/// A length-delimited submessage written at `i` parses back to its payload.
proof fn lemma_sub_field_roundtrip(s: Seq<u8>, i: int, key: u8, payload: Seq<u8>)
    requires
        0 <= i,
        wire_sized(payload),
        i + spec_len_prefixed(key, payload).len() <= s.len(),
        s.subrange(i, i + spec_len_prefixed(key, payload).len()) == spec_len_prefixed(key, payload),
    ensures
        parse_sub_field(s, i, key) == Option::Some(
            (payload, i + spec_len_prefixed(key, payload).len()),
        ),
{
    let f = spec_len_prefixed(key, payload);
    let vl = spec_varint(payload.len() as nat);
    assert(f == seq![key] + vl + payload);
    assert forall|k: int| 0 <= k < f.len() implies s[i + k] == f[k] by {
        assert(s.subrange(i, i + f.len() as int)[k] == s[i + k]);
    }
    assert(s[i] == f[0]);
    assert(f[0] == key);
    assert forall|k: int| 0 <= k < vl.len() implies #[trigger] s.subrange(
        i + 1,
        i + 1 + vl.len() as int,
    )[k] == vl[k] by {
        assert(s[i + 1 + k] == f[1 + k]);
        assert(f[1 + k] == vl[k]);
    }
    assert(s.subrange(i + 1, i + 1 + vl.len()) =~= vl);
    lemma_varint_u64_roundtrip(s, i + 1, payload.len() as nat);
    let j = i + 1 + vl.len();
    assert forall|k: int| 0 <= k < payload.len() implies #[trigger] s.subrange(
        j,
        j + payload.len() as int,
    )[k] == payload[k] by {
        assert(s[j + k] == f[1 + vl.len() + k]);
        assert(f[1 + vl.len() + k] == payload[k]);
    }
    assert(s.subrange(j, j + payload.len()) =~= payload);
    assert(j + payload.len() == i + f.len());
}

/// A port-map message decodes back to the value it was encoded from.
proof fn lemma_port_map_roundtrip(pm: PortMapView)
    requires
        encodable_port_map(pm),
    ensures
        parse_port_map(spec_port_map(pm)) == Option::Some(pm),
{
    let msg = spec_port_map(pm);
    match (pm.from, pm.to) {
        (Option::None, Option::None) => {
            assert(msg =~= Seq::<u8>::empty());
        },
        (Option::Some(from), Option::None) => {
            let f = spec_string_field(FROM_PORT_KEY, from);
            assert(msg =~= f);
            assert(msg.subrange(0, f.len() as int) =~= f);
            lemma_string_field_roundtrip(msg, 0, FROM_PORT_KEY, from);
            assert(msg[0] == FROM_PORT_KEY);
        },
        (Option::None, Option::Some(to)) => {
            let f = spec_string_field(TO_PORT_KEY, to);
            assert(msg =~= f);
            assert(msg.subrange(0, f.len() as int) =~= f);
            lemma_string_field_roundtrip(msg, 0, TO_PORT_KEY, to);
            assert(msg[0] == TO_PORT_KEY);
            assert(msg[0] != FROM_PORT_KEY);
        },
        (Option::Some(from), Option::Some(to)) => {
            let f1 = spec_string_field(FROM_PORT_KEY, from);
            let f2 = spec_string_field(TO_PORT_KEY, to);
            assert(msg =~= f1 + f2);
            assert(msg.subrange(0, f1.len() as int) =~= f1);
            lemma_string_field_roundtrip(msg, 0, FROM_PORT_KEY, from);
            assert(msg[0] == FROM_PORT_KEY);
            let i1 = f1.len() as int;
            assert(i1 < msg.len());
            assert(msg.subrange(i1, i1 + f2.len()) =~= f2);
            lemma_string_field_roundtrip(msg, i1, TO_PORT_KEY, to);
        },
    }
}

/// A host-config message decodes back to the value it was encoded from.
proof fn lemma_host_config_roundtrip(c: ContainerHostConfigView)
    requires
        encodable_host_config(c),
    ensures
        parse_host_config(spec_host_config(c)) == Option::Some(c),
{
    let msg = spec_host_config(c);
    match c.port_map {
        Option::None => {
            assert(msg =~= Seq::<u8>::empty());
        },
        Option::Some(pm) => {
            let payload = spec_port_map(pm);
            assert(msg == spec_len_prefixed(PORT_MAP_KEY, payload));
            assert(msg.subrange(0, msg.len() as int) =~= msg);
            lemma_sub_field_roundtrip(msg, 0, PORT_MAP_KEY, payload);
            assert(msg.len() > 0);
            lemma_port_map_roundtrip(pm);
        },
    }
}

/// A run-params message decodes back to the value it was encoded from.
proof fn lemma_run_params_roundtrip(p: RunParamsView)
    requires
        encodable_run_params(p),
    ensures
        parse_run_params(spec_run_params(p)) == Option::Some(p),
{
    let msg = spec_run_params(p);
    let f1 = spec_string_field(IMAGE_NAME_KEY, p.image_name);
    let f2 = spec_string_field(TAG_KEY, p.tag);
    match p.container_host_config {
        Option::None => {
            assert(msg =~= f1 + f2);
            assert(msg.subrange(0, f1.len() as int) =~= f1);
            lemma_string_field_roundtrip(msg, 0, IMAGE_NAME_KEY, p.image_name);
            let i1 = f1.len() as int;
            assert(msg.subrange(i1, i1 + f2.len()) =~= f2);
            lemma_string_field_roundtrip(msg, i1, TAG_KEY, p.tag);
        },
        Option::Some(c) => {
            let payload = spec_host_config(c);
            let f3 = spec_len_prefixed(HOST_CONFIG_KEY, payload);
            assert(msg =~= f1 + f2 + f3);
            assert(msg.subrange(0, f1.len() as int) =~= f1);
            lemma_string_field_roundtrip(msg, 0, IMAGE_NAME_KEY, p.image_name);
            let i1 = f1.len() as int;
            assert(msg.subrange(i1, i1 + f2.len()) =~= f2);
            lemma_string_field_roundtrip(msg, i1, TAG_KEY, p.tag);
            let i2 = i1 + f2.len() as int;
            assert(i2 < msg.len());
            assert(msg.subrange(i2, i2 + f3.len()) =~= f3);
            lemma_sub_field_roundtrip(msg, i2, HOST_CONFIG_KEY, payload);
            lemma_host_config_roundtrip(c);
        },
    }
}

/// A stop-params message decodes back to the value it was encoded from.
proof fn lemma_stop_params_roundtrip(p: StopParamsView)
    requires
        encodable_stop_params(p),
    ensures
        parse_stop_params(spec_stop_params(p)) == Option::Some(p),
{
    let msg = spec_stop_params(p);
    assert(msg.subrange(0, msg.len() as int) =~= msg);
    lemma_string_field_roundtrip(msg, 0, CONTAINER_ID_KEY, p.container_id);
}

/// Decoding is left inverse to encoding: any command that fits on the wire
/// comes back from its own frame bytes exactly.
pub proof fn lemma_command_roundtrip(c: RemoteCommandView)
    requires
        encodable_command(c),
    ensures
        parse_command(spec_command(c)) == Option::Some(c),
{
    let s = spec_command(c);
    match c {
        RemoteCommandView::Run(p) => {
            let payload = spec_run_params(p);
            assert(s == spec_len_prefixed(RUN_KEY, payload));
            assert(s.subrange(0, s.len() as int) =~= s);
            lemma_sub_field_roundtrip(s, 0, RUN_KEY, payload);
            assert(s[0] == RUN_KEY);
            lemma_run_params_roundtrip(p);
        },
        RemoteCommandView::Stop(p) => {
            let payload = spec_stop_params(p);
            assert(s == spec_len_prefixed(STOP_KEY, payload));
            assert(s.subrange(0, s.len() as int) =~= s);
            lemma_sub_field_roundtrip(s, 0, STOP_KEY, payload);
            assert(s[0] == STOP_KEY);
            assert(s[0] != RUN_KEY);
            lemma_stop_params_roundtrip(p);
        },
    }
}

/// Relies on `String::from_utf8`: it succeeds exactly on valid UTF-8 input
/// and returns the string those bytes spell.
#[verifier::external_body]
fn string_from_utf8(bytes: Vec<u8>) -> (r: Option<String>)
    ensures
        r is Some <==> valid_utf8(bytes@),
        r is Some ==> r->0@ == decode_utf8(bytes@),
{
    String::from_utf8(bytes).ok()
}

/// Reads the varint at `i`, exactly as `parse_varint_u64` describes.
fn decode_varint(s: &[u8], i: usize) -> (r: Option<(u64, usize)>)
    ensures
        ({
            match parse_varint_u64(s@, i as int) {
                Option::Some(v) => r is Some && (r->0).0 == v.0 && v.1 == (r->0).1 as int,
                Option::None => r is None,
            }
        }),
        r is Some ==> i < (r->0).1 && (r->0).1 <= s@.len(),
    decreases s@.len() - i,
{
    if i >= s.len() {
        return None;
    }
    let b = s[i];
    if b < 128 {
        Some((b as u64, i + 1))
    } else {
        match decode_varint(s, i + 1) {
            None => None,
            Some((v, j)) => {
                let low = (b - 128) as u64;
                let limit = (u64::MAX - low) / 128;
                if v <= limit {
                    proof {
                        assert(128 * (v as int) <= 128 * (limit as int));
                        assert(128 * (limit as int) <= (u64::MAX - low) as int) by {
                            assert((u64::MAX - low) as int == 128 * (((u64::MAX - low) as int)
                                / 128) + ((u64::MAX - low) as int) % 128);
                        }
                    }
                    Some((low + 128 * v, j))
                } else {
                    proof {
                        let k = (u64::MAX - low) as int;
                        assert(k == 128 * (k / 128) + k % 128);
                        assert(128 * (v as int) >= 128 * (k / 128 + 1));
                        assert((low + 128 * (v as int)) > u64::MAX);
                    }
                    None
                }
            },
        }
    }
}

/// Reads the string field with the given key at `i`, exactly as
/// `parse_string_field` describes.
fn decode_string_field(s: &[u8], i: usize, key: u8) -> (r: Option<(String, usize)>)
    ensures
        ({
            match parse_string_field(s@, i as int, key) {
                Option::Some(v) => r is Some && (r->0).0@ == v.0 && v.1 == (r->0).1 as int,
                Option::None => r is None,
            }
        }),
        r is Some ==> (r->0).1 <= s@.len(),
    decreases s@.len() - i,
{
    if i >= s.len() || s[i] != key {
        return None;
    }
    match decode_varint(s, i + 1) {
        None => None,
        Some((len64, j)) => {
            if len64 > (s.len() - j) as u64 {
                return None;
            }
            let len = len64 as usize;
            let bytes = slice_to_vec(slice_subrange(s, j, j + len));
            match string_from_utf8(bytes) {
                Some(text) => Some((text, j + len)),
                None => None,
            }
        },
    }
}

/// Reads the length-delimited submessage with the given key at `i`, exactly
/// as `parse_sub_field` describes.
fn decode_sub_field<'a>(s: &'a [u8], i: usize, key: u8) -> (r: Option<(&'a [u8], usize)>)
    ensures
        ({
            match parse_sub_field(s@, i as int, key) {
                Option::Some(v) => r is Some && (r->0).0@ == v.0 && v.1 == (r->0).1 as int,
                Option::None => r is None,
            }
        }),
        r is Some ==> (r->0).1 <= s@.len(),
{
    if i >= s.len() || s[i] != key {
        return None;
    }
    match decode_varint(s, i + 1) {
        None => None,
        Some((len64, j)) => {
            if len64 > (s.len() - j) as u64 {
                return None;
            }
            let len = len64 as usize;
            Some((slice_subrange(s, j, j + len), j + len))
        },
    }
}

/// Decodes a whole port-map message.
fn decode_port_map(msg: &[u8]) -> (r: Option<PortMap>)
    ensures
        r.deep_view() == parse_port_map(msg@),
{
    if msg.len() == 0 {
        return Some(PortMap { from: None, to: None });
    }
    if msg[0] == FROM_PORT_KEY {
        match decode_string_field(msg, 0, FROM_PORT_KEY) {
            None => None,
            Some((from, i1)) => {
                if i1 == msg.len() {
                    Some(PortMap { from: Some(from), to: None })
                } else {
                    match decode_string_field(msg, i1, TO_PORT_KEY) {
                        None => None,
                        Some((to, i2)) => {
                            if i2 == msg.len() {
                                Some(PortMap { from: Some(from), to: Some(to) })
                            } else {
                                None
                            }
                        },
                    }
                }
            },
        }
    } else {
        match decode_string_field(msg, 0, TO_PORT_KEY) {
            None => None,
            Some((to, i1)) => {
                if i1 == msg.len() {
                    Some(PortMap { from: None, to: Some(to) })
                } else {
                    None
                }
            },
        }
    }
}

/// Decodes a whole host-config message.
fn decode_host_config(msg: &[u8]) -> (r: Option<ContainerHostConfig>)
    ensures
        r.deep_view() == parse_host_config(msg@),
{
    if msg.len() == 0 {
        return Some(ContainerHostConfig { port_map: None });
    }
    match decode_sub_field(msg, 0, PORT_MAP_KEY) {
        None => None,
        Some((payload, i1)) => {
            if i1 == msg.len() {
                match decode_port_map(payload) {
                    Some(pm) => Some(ContainerHostConfig { port_map: Some(pm) }),
                    None => None,
                }
            } else {
                None
            }
        },
    }
}

/// Decodes a whole run-params message.
fn decode_run_params(msg: &[u8]) -> (r: Option<RunParams>)
    ensures
        r.deep_view() == parse_run_params(msg@),
{
    match decode_string_field(msg, 0, IMAGE_NAME_KEY) {
        None => None,
        Some((image_name, i1)) => {
            match decode_string_field(msg, i1, TAG_KEY) {
                None => None,
                Some((tag, i2)) => {
                    if i2 == msg.len() {
                        Some(RunParams { image_name, tag, container_host_config: None })
                    } else {
                        match decode_sub_field(msg, i2, HOST_CONFIG_KEY) {
                            None => None,
                            Some((payload, i3)) => {
                                if i3 == msg.len() {
                                    match decode_host_config(payload) {
                                        Some(c) => Some(
                                            RunParams {
                                                image_name,
                                                tag,
                                                container_host_config: Some(c),
                                            },
                                        ),
                                        None => None,
                                    }
                                } else {
                                    None
                                }
                            },
                        }
                    }
                },
            }
        },
    }
}

/// Decodes a whole stop-params message.
fn decode_stop_params(msg: &[u8]) -> (r: Option<StopParams>)
    ensures
        r.deep_view() == parse_stop_params(msg@),
{
    match decode_string_field(msg, 0, CONTAINER_ID_KEY) {
        None => None,
        Some((container_id, i1)) => {
            if i1 == msg.len() {
                Some(StopParams { container_id })
            } else {
                None
            }
        },
    }
}

/// Decodes one command frame payload, exactly as `parse_command` describes:
/// a malformed frame yields nothing.
pub fn decode_command(bytes: &[u8]) -> (r: Option<RemoteCommand>)
    ensures
        r.deep_view() == parse_command(bytes@),
{
    if bytes.len() == 0 {
        return None;
    }
    if bytes[0] == RUN_KEY {
        match decode_sub_field(bytes, 0, RUN_KEY) {
            None => None,
            Some((payload, i1)) => {
                if i1 == bytes.len() {
                    match decode_run_params(payload) {
                        Some(p) => Some(RemoteCommand::Run(p)),
                        None => None,
                    }
                } else {
                    None
                }
            },
        }
    } else if bytes[0] == STOP_KEY {
        match decode_sub_field(bytes, 0, STOP_KEY) {
            None => None,
            Some((payload, i1)) => {
                if i1 == bytes.len() {
                    match decode_stop_params(payload) {
                        Some(p) => Some(RemoteCommand::Stop(p)),
                        None => None,
                    }
                } else {
                    None
                }
            },
        }
    } else {
        None
    }
}

} // verus!
