//! A delta xDS client: the cache of what the control plane has told, the
//! acknowledgement of each of its responses, and the rules of reconnection.

pub mod ads;
pub mod client;
pub mod config;
pub mod proto;
