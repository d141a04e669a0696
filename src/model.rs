//! The daemon's data as the dashboard holds it.

use vstd::prelude::*;

verus! {

/// The latency shown for a member that was never measured, or whose last
/// measurement failed.
pub const UNKNOWN_DELAY: i64 = -1;

/// One instantaneous throughput reading, in bytes per second.
#[derive(Clone, Copy, Debug, Default, PartialEq, Eq, Structural)]
pub struct Traffic {
    pub up: u64,
    pub down: u64,
}

/// A proxy or proxy group as the daemon lists it.
#[derive(Clone, Debug)]
pub struct ProxyInfo {
    pub name: String,
    /// The kind that the daemon reports (`Selector`, `URLTest`, `Shadowsocks`, ...).
    pub proxy_type: String,
    /// The members of a group, in the daemon's order; empty for a plain proxy.
    pub all: Vec<String>,
    /// The member that a group routes through now.
    pub now: Option<String>,
    /// The delays of past latency probes, oldest first.
    pub history: Vec<i64>,
}

/// One routing rule, as the daemon reports it.
#[derive(Clone, Debug)]
pub struct Rule {
    pub rule_type: String,
    pub payload: String,
    pub proxy: String,
}

/// Where a connection comes from and goes to.
#[derive(Clone, Debug)]
pub struct ConnectionMetadata {
    pub network: String,
    pub conn_type: String,
    pub source_ip: String,
    pub destination_ip: String,
    pub source_port: String,
    pub destination_port: String,
    pub host: String,
}

/// One active connection routed by the daemon.
#[derive(Clone, Debug)]
pub struct Connection {
    pub id: String,
    pub metadata: ConnectionMetadata,
    pub upload: u64,
    pub download: u64,
    /// The start time as an ISO-8601 text.
    pub start: String,
    /// The proxy chain, outermost first.
    pub chains: Vec<String>,
    pub rule: String,
}

/// The connection list with the daemon's running totals.
#[derive(Clone, Debug)]
pub struct ConnectionsSnapshot {
    pub download_total: u64,
    pub upload_total: u64,
    pub connections: Vec<Connection>,
}

/// A member of the group under the cursor, with its latency in milliseconds
/// (negative when unknown).
#[derive(Clone, Debug)]
pub struct Member {
    pub name: String,
    pub delay: i64,
}

impl Member {
    pub open spec fn view(&self) -> (Seq<char>, i64) {
        (self.name@, self.delay)
    }
}

} // verus!
