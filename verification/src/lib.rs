//! Core of a bidirectional gateway between MAVLink endpoints and a
//! distributed publish/subscribe overlay.
//!
//! The library holds the connection-multiplexing logic: the shared fan-out
//! relay, the per-endpoint handler decisions (including origin-based loop
//! prevention), the supervisor's spawn plan, the overlay forwarding steps,
//! the liveliness key construction, and the watchdog classification. The
//! surrounding process supplies the transports, the overlay session, and the
//! scheduler, and drives these decisions from its event loops.

pub mod args;
pub mod config;
pub mod liveliness;
pub mod mavlink_connection;
pub mod overlay;
pub mod protocol;
pub mod relay;
pub mod supervisor;
pub mod watchdog;

use vstd::prelude::*;

verus! {

/// The bridge packaged as a plugin: the marker type a host process
/// registers under the plugin's name to start the bridge runtime.
#[derive(Debug)]
pub struct MAVLinkPlugin;

impl MAVLinkPlugin {
    /// The name under which the plugin registers and under which its
    /// configuration is looked up.
    pub fn default_name() -> (s: String)
        ensures
            s@ == "mavlink"@,
            s@.len() > 0,
    {
        proof {
            reveal_strlit("mavlink");
        }
        "mavlink".to_owned()
    }
}

} // verus!
