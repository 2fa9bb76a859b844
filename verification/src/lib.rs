//! A single cluster node: it keeps track of its peers through pings and
//! hosts an in-memory store of objects that are grouped into namespaces.

pub mod cluster;
pub mod configuration;
pub mod http_resources;
pub mod http_transport;
pub mod http_transport_pinger;
pub mod http_utils;
pub mod namespace;
pub mod node;
pub mod object;
pub mod storage;
pub mod types;
pub mod utils;
