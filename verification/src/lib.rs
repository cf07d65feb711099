//! Verified core of the KPlayer media gateway: configuration parsing,
//! RTMP URL handling, server task decisions and the small helpers they use.

pub mod config;
pub mod factory;
pub mod gateway;
pub mod kpserver;
pub mod server;
pub mod util;
