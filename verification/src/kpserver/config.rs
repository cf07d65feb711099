//! The entries a relay service is configured with. Durations are counted in
//! milliseconds; an address is an IP address in its printed form.

use vstd::prelude::*;

verus! {

/// One server or task of the relay.
#[allow(non_camel_case_types)]
#[derive(Debug, Clone)]
pub enum KPConfig {
    /// An RTMP server listening on `address:port`.
    rtmp { name: String, address: String, port: usize, gop_number: usize },
    /// An HTTP-FLV server on `port`.
    httpflv { name: String, port: usize },
    /// An HLS remuxer and its HTTP server on `port`.
    hls { name: String, port: usize },
    /// Pulls `source_url` into the hub, under `app_name` / `stream_name`
    /// where given and under the source's own names otherwise. Unless
    /// `keep_alive`, it waits until a player asks for the source stream.
    rtmp_pull {
        name: String,
        source_url: String,
        app_name: Option<String>,
        stream_name: Option<String>,
        keep_alive: bool,
        timeout: Option<u64>,
        retry_interval: Option<u64>,
    },
    /// Pushes the hub's stream `app_name` / `stream_name` to `sink_url`.
    rtmp_push {
        name: String,
        app_name: String,
        stream_name: String,
        sink_url: String,
        timeout: Option<u64>,
        retry_interval: Option<u64>,
    },
}

} // verus!
