//! The RTMP relay: its configuration entries, its messages, the reading of
//! RTMP URLs and the decisions of its server tasks.

pub mod config;
pub mod const_var;
pub mod forward;
pub mod message;
pub mod notify;
pub mod parse_url;
pub mod server;
