//! The agent's command-line surface, as plain data.  Parsing the real
//! command line (and the defaults: hostname `localhost`, port `4040`,
//! snapshot interval `10` seconds) is done by the binary around the library,
//! which then hands over one of these values.

use vstd::prelude::*;

verus! {

/// Default control-plane port.
pub const DEFAULT_CONTROL_PLANE_PORT: u16 = 4040;

/// Default snapshot interval, in seconds.
pub const DEFAULT_SNAPSHOT_INTERVAL_SECS: u16 = 10;

/// The parsed command line.
pub struct AgentCli {
    pub command: Commands,
}

/// The agent's subcommands.
pub enum Commands {
    /// Connect to the control plane and begin handling commands.
    Start {
        /// The hostname at which the control plane is located.
        control_plane_hostname: String,
        /// The port on which the control plane listens for connections.
        control_plane_port: u16,
        /// The interval, in seconds, between snapshot reports.
        snapshot_interval_secs: u16,
    },
}

} // verus!
