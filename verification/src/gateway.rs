//! How the gateway program wires the relay and the transcoder together:
//! the relay entries it starts, where the transcoder streams, when the
//! transcoder may start, and the log filter it sets up.

use vstd::prelude::*;
use crate::kpserver::config::KPConfig;
use crate::kpserver::message::KPServerMessage;
use crate::util::event::KPEventMessage;
use crate::util::text::{string_of, append_str};

verus! {

/// The name of the relay's own RTMP server.
pub open spec fn core_name() -> Seq<char> {
    "core"@
}

/// The relay entries the gateway starts for an output called `name` that
/// is pushed to `path`, with the transcoder publishing under the
/// application `app`: a push of `app/name` to the output (10 s timeout,
/// 5 s retry interval), then the core RTMP server on `0.0.0.0:1935` with a
/// GOP cache of 29.
pub fn start_server_configs(name: &String, path: &String, app: &String) -> (res: Vec<KPConfig>)
    ensures
        res@.len() == 2,
        res@[0] matches KPConfig::rtmp_push { name: n, app_name, stream_name, sink_url, timeout, retry_interval }
            && n@ == name@ && app_name@ == app@ && stream_name@ == name@ && sink_url@ == path@
            && timeout == Some(10000u64) && retry_interval == Some(5000u64),
        res@[1] matches KPConfig::rtmp { name: n, address, port, gop_number }
            && n@ == core_name() && address@ == "0.0.0.0"@ && port == 1935 && gop_number == 29,
{
    proof { reveal_strlit("core"); }
    vec![
        KPConfig::rtmp_push {
            name: name.clone(),
            app_name: app.clone(),
            stream_name: name.clone(),
            sink_url: path.clone(),
            timeout: Some(10000),
            retry_interval: Some(5000),
        },
        KPConfig::rtmp {
            name: string_of("core"),
            address: string_of("0.0.0.0"),
            port: 1935,
            gop_number: 29,
        },
    ]
}

/// Where the transcoder publishes: `rtmp://127.0.0.1:1935/<app>/<name>`.
pub fn transcode_output_path(app: &String, name: &String) -> (res: String)
    ensures
        res@ == "rtmp://127.0.0.1:1935/"@ + app@ + "/"@ + name@,
{
    let mut s = string_of("rtmp://127.0.0.1:1935/");
    append_str(&mut s, app.as_str());
    append_str(&mut s, "/");
    append_str(&mut s, name.as_str());
    s
}

/// Whether an event reports that the core RTMP server started, which the
/// transcoder waits for.
pub fn is_core_started(ev: &KPEventMessage) -> (res: bool)
    ensures
        res == (ev matches KPEventMessage::server(KPServerMessage::RtmpStart { name, .. }) && name@ == core_name()),
{
    proof { reveal_strlit("core"); }
    match ev {
        KPEventMessage::server(KPServerMessage::RtmpStart { name, .. }) => crate::util::text::str_equal(name.as_str(), "core"),
        _ => false,
    }
}

/// The log filter of the gateway: errors everywhere, and the given level
/// (`info` where none is given) for the gateway itself.
pub fn log_filter(level: &Option<String>) -> (res: String)
    ensures
        res@ == "error,kplayer="@ + match *level { Some(l) => l@, None => "info"@ },
{
    let mut s = string_of("error,kplayer=");
    match level {
        Some(l) => append_str(&mut s, l.as_str()),
        None => append_str(&mut s, "info"),
    }
    s
}

} // verus!
