//! The events of the gateway's event loop and how each is logged.

use vstd::prelude::*;
use crate::kpserver::message::KPServerMessage;

verus! {

/// An event of the gateway: a report of the relay, or a message of the
/// transcoder (by its printed form).
#[allow(non_camel_case_types)]
#[derive(Debug, Clone)]
pub enum KPEventMessage {
    server(KPServerMessage),
    transcode(String),
}

/// The level an event is logged at.
#[derive(Debug, Clone, Copy, PartialEq, Eq, Structural)]
pub enum KPLogLevel {
    Info,
    Error,
}

/// Whether a report is a stop that carries an error.
pub open spec fn is_failed_stop(m: KPServerMessage) -> bool {
    match m {
        KPServerMessage::RtmpStop { error, .. } => error is Some,
        KPServerMessage::HttpflvStop { error, .. } => error is Some,
        KPServerMessage::HlsStop { error, .. } => error is Some,
        KPServerMessage::RtmpPullStop { error, .. } => error is Some,
        KPServerMessage::RtmpPushStop { error, .. } => error is Some,
        _ => false,
    }
}

/// The level a relay report is logged at: an error for a stop that carries
/// an error, information otherwise.
pub fn message_log_level(msg: &KPServerMessage) -> (res: KPLogLevel)
    ensures
        res == (if is_failed_stop(*msg) { KPLogLevel::Error } else { KPLogLevel::Info }),
{
    let failed = match msg {
        KPServerMessage::RtmpStop { error, .. } => error.is_some(),
        KPServerMessage::HttpflvStop { error, .. } => error.is_some(),
        KPServerMessage::HlsStop { error, .. } => error.is_some(),
        KPServerMessage::RtmpPullStop { error, .. } => error.is_some(),
        KPServerMessage::RtmpPushStop { error, .. } => error.is_some(),
        _ => false,
    };
    if failed { KPLogLevel::Error } else { KPLogLevel::Info }
}

/// The level an event is logged at: a relay report as `message_log_level`
/// says, a transcoder message as information.
pub fn event_log_level(ev: &KPEventMessage) -> (res: KPLogLevel)
    ensures
        res == match *ev {
            KPEventMessage::server(m) => if is_failed_stop(m) { KPLogLevel::Error } else { KPLogLevel::Info },
            KPEventMessage::transcode(_) => KPLogLevel::Info,
        },
{
    match ev {
        KPEventMessage::server(m) => message_log_level(m),
        KPEventMessage::transcode(_) => KPLogLevel::Info,
    }
}

} // verus!
