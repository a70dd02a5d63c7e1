//! How the node takes part in the network.

use vstd::prelude::*;

verus! {

/// The topic on which chat messages are published.
pub const PUBLIC_TOPIC: &'static str = "public_chat";

/// The protocol by which files are asked for.
pub const FILE_PROTOCOL: &'static str = "/file-exchange/1.0.0";

/// After how many seconds without use a connection is closed.
pub const IDLE_TIMEOUT_SECS: u64 = 60;

/// How messages spread between peers.
pub struct GossipSettings {
    /// Seconds between two heartbeats.
    pub heartbeat_interval_secs: u64,
    /// The smallest number of peers in the mesh.
    pub mesh_n_low: usize,
    /// The number of peers that the mesh is to have.
    pub mesh_n: usize,
    /// The largest number of peers in the mesh.
    pub mesh_n_high: usize,
    /// How many peers outside the mesh are told of messages.
    pub gossip_lazy: usize,
    /// How many heartbeats a message is kept.
    pub history_length: usize,
    /// Of how many past heartbeats the messages are told.
    pub history_gossip: usize,
    /// Seconds for which peers of a topic that is only published to are remembered.
    pub fanout_ttl_secs: u64,
}

impl GossipSettings {
    /// The mesh is not empty and its bounds lie around its target, gossip goes to fewer peers than
    /// the mesh has, and no message is told of that is not kept any more.
    pub open spec fn consistent(&self) -> bool {
        &&& 0 < self.mesh_n_low < self.mesh_n < self.mesh_n_high
        &&& self.gossip_lazy < self.mesh_n
        &&& self.history_gossip <= self.history_length
    }

    /// The settings of this node.
    pub fn new() -> (settings: GossipSettings)
        ensures
            settings.consistent(),
            settings.heartbeat_interval_secs == 1,
            settings.mesh_n_low == 2,
            settings.mesh_n == 4,
            settings.mesh_n_high == 8,
            settings.gossip_lazy == 3,
            settings.history_length == 5,
            settings.history_gossip == 3,
            settings.fanout_ttl_secs == 60,
    {
        GossipSettings {
            heartbeat_interval_secs: 1,
            mesh_n_low: 2,
            mesh_n: 4,
            mesh_n_high: 8,
            gossip_lazy: 3,
            history_length: 5,
            history_gossip: 3,
            fanout_ttl_secs: 60,
        }
    }
}

} // verus!
