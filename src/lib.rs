//! A terminal dashboard's session engine for a proxy-routing daemon: the
//! session state machine, the refresh logic that merges fetched snapshots, the
//! key dispatcher, and the reconnect policy of the live traffic stream.

pub mod dispatch;
pub mod display;
pub mod endpoint;
pub mod format;
pub mod laws;
pub mod listing;
pub mod model;
pub mod order;
pub mod session;
pub mod snapshot;
pub mod stream;
