//! A node-resident agent library: it models the command/response and telemetry
//! engine of a fleet-management client.  Commands arrive framed over a duplex
//! connection, are executed against a local container runtime, and each one is
//! answered with exactly one response; snapshots of container state are
//! reported independently.  A sibling reverse-proxy routing table is included.
//!
//! All decision logic lives here and is verified.  The I/O that surrounds it
//! (the websocket transport, the container-runtime API, timers) is driven by
//! an unverified binary that feeds plain values in and carries plain values
//! out.

pub mod cli;
pub mod cmd;
pub mod codec;
pub mod orchestrator;
pub mod proxy;
pub mod registry;
pub mod route;
pub mod runtime;
pub mod snapshot;
pub mod wire;
pub mod ws;
