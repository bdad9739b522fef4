//! The bridge configuration and its defaults.
//!
//! The configuration is produced by the loading collaborators in the
//! surrounding process and handed to the core as a plain value; the core
//! never parses files or arguments itself.

use vstd::prelude::*;

use crate::mavlink_connection::MAVLinkConnection;

verus! {

/// Default capacity of the broadcast relay connecting all endpoint handlers.
pub const DEFAULT_BROADCAST_CHANNEL_CAPACITY: usize = 1024;

/// Default number of worker threads for the runtime hosting the bridge tasks.
pub const DEFAULT_WORK_THREAD_NUM: usize = 2;

/// Default maximum number of blocking threads for that runtime.
pub const DEFAULT_MAX_BLOCK_THREAD_NUM: usize = 50;

/// Relay capacity used when the configuration does not give one.
pub fn broadcast_channel_capacity() -> (n: usize)
    ensures
        n == DEFAULT_BROADCAST_CHANNEL_CAPACITY,
{
    DEFAULT_BROADCAST_CHANNEL_CAPACITY
}

/// Worker thread count used when the configuration does not give one.
pub fn default_work_thread_num() -> (n: usize)
    ensures
        n == DEFAULT_WORK_THREAD_NUM,
{
    DEFAULT_WORK_THREAD_NUM
}

/// Blocking thread cap used when the configuration does not give one.
pub fn default_max_block_thread_num() -> (n: usize)
    ensures
        n == DEFAULT_MAX_BLOCK_THREAD_NUM,
{
    DEFAULT_MAX_BLOCK_THREAD_NUM
}

/// The immutable configuration of one bridge instance.
#[derive(Debug)]
pub struct Config {
    /// One endpoint descriptor per transport connection to run.
    pub mavlink_connections: Vec<MAVLinkConnection>,
    /// Capacity of the broadcast relay.
    pub broadcast_channel_capacity: usize,
    /// Whether endpoint traffic is forwarded onto the overlay.
    pub to_zenoh: bool,
    /// Whether overlay traffic is injected into the endpoints.
    pub from_zenoh: bool,
    /// Worker threads for the runtime hosting the bridge tasks.
    pub work_thread_num: usize,
    /// Blocking-thread cap for that runtime.
    pub max_block_thread_num: usize,
    /// An explicitly configured group member identity. When given, the
    /// bridge announces itself under it instead of its own session
    /// identity, so several physical bridge processes can present as one
    /// logical member; absent, the session identity is used.
    pub group_member_identity: Option<String>,
}

impl Config {
    /// A configuration is well formed when its relay has room for at least
    /// one envelope and every endpoint descriptor names an address.
    pub open spec fn wf(&self) -> bool {
        &&& self.broadcast_channel_capacity > 0
        &&& forall|i: int|
            0 <= i < self.mavlink_connections@.len() ==> (
            #[trigger] self.mavlink_connections@[i]).wf()
    }

    /// The configuration for the given endpoints with every other field at
    /// its default.
    pub fn new(mavlink_connections: Vec<MAVLinkConnection>) -> (c: Config)
        ensures
            c.mavlink_connections == mavlink_connections,
            c.broadcast_channel_capacity == DEFAULT_BROADCAST_CHANNEL_CAPACITY,
            !c.to_zenoh,
            !c.from_zenoh,
            c.work_thread_num == DEFAULT_WORK_THREAD_NUM,
            c.max_block_thread_num == DEFAULT_MAX_BLOCK_THREAD_NUM,
            c.group_member_identity is None,
    {
        Config {
            mavlink_connections,
            broadcast_channel_capacity: broadcast_channel_capacity(),
            to_zenoh: false,
            from_zenoh: false,
            work_thread_num: default_work_thread_num(),
            max_block_thread_num: default_max_block_thread_num(),
            group_member_identity: None,
        }
    }

    /// Checks well-formedness, so a caller outside the core can reject a
    /// malformed configuration at startup, before any task spawns.
    pub fn validate(&self) -> (b: bool)
        ensures
            b == self.wf(),
    {
        if self.broadcast_channel_capacity == 0 {
            return false;
        }
        let n = self.mavlink_connections.len();
        let mut i: usize = 0;
        while i < n
            invariant
                n == self.mavlink_connections@.len(),
                i <= n,
                self.broadcast_channel_capacity > 0,
                forall|j: int| 0 <= j < i ==> (#[trigger] self.mavlink_connections@[j]).wf(),
            decreases n - i,
        {
            if self.mavlink_connections[i].endpoint.as_str().is_empty() {
                return false;
            }
            i = i + 1;
        }
        true
    }
}

} // verus!
