//! What the relay reports about its servers and tasks, and the stream events
//! its hub broadcasts.

use vstd::prelude::*;
use crate::config::json::opt_str;

verus! {

/// Which stream an event is about.
#[derive(Debug, Clone)]
pub enum KPStreamIdentifier {
    Unknown,
    Rtmp { app_name: String, stream_name: String },
    Rtsp { stream_path: String },
    WebRTC { app_name: String, stream_name: String },
}

#[verifier::ext_equal]
pub enum KPStreamIdentifierView {
    Unknown,
    Rtmp { app_name: Seq<char>, stream_name: Seq<char> },
    Rtsp { stream_path: Seq<char> },
    WebRTC { app_name: Seq<char>, stream_name: Seq<char> },
}

impl View for KPStreamIdentifier {
    type V = KPStreamIdentifierView;

    open spec fn view(&self) -> KPStreamIdentifierView {
        match self {
            KPStreamIdentifier::Unknown => KPStreamIdentifierView::Unknown,
            KPStreamIdentifier::Rtmp { app_name, stream_name } =>
                KPStreamIdentifierView::Rtmp { app_name: app_name@, stream_name: stream_name@ },
            KPStreamIdentifier::Rtsp { stream_path } =>
                KPStreamIdentifierView::Rtsp { stream_path: stream_path@ },
            KPStreamIdentifier::WebRTC { app_name, stream_name } =>
                KPStreamIdentifierView::WebRTC { app_name: app_name@, stream_name: stream_name@ },
        }
    }
}

/// An event broadcast by the stream hub to the relay tasks.
#[derive(Debug, Clone)]
pub enum KPHubEvent {
    /// A stream is being published and may be pushed elsewhere.
    Publish { identifier: KPStreamIdentifier },
    UnPublish { identifier: KPStreamIdentifier },
    /// A player asked for a stream that may have to be pulled.
    Subscribe { identifier: KPStreamIdentifier },
    UnSubscribe,
}

/// A report of the relay: a server or task started or stopped, or a stream
/// was published, unpublished, played or stopped.
#[derive(Debug, Clone)]
pub enum KPServerMessage {
    RtmpStart { name: String, address: String, port: usize },
    RtmpStop { name: String, error: Option<String> },
    HttpflvStart { name: String },
    HttpflvStop { name: String, error: Option<String> },
    HlsStart { name: String },
    HlsStop { name: String, error: Option<String> },
    /// A pull attempt begins; `retry_count` counts attempts from one where
    /// the pull is retried, and is `None` where it is not.
    RtmpPullStart {
        name: String,
        source_url: String,
        retry_interval: Option<u64>,
        retry_count: Option<usize>,
    },
    RtmpPullStop { name: String, source: String, error: Option<String> },
    RtmpPushStart { name: String, sink_url: String },
    RtmpPushStop { name: String, sink_url: String, error: Option<String> },
    Publish { identifier: KPStreamIdentifier, info: String },
    Unpublish { identifier: KPStreamIdentifier, info: String },
    Subscribe { identifier: KPStreamIdentifier, info: String },
    Unsubscribe { identifier: KPStreamIdentifier, info: String },
    Unknown { name: String, error: String },
}

#[verifier::ext_equal]
pub enum KPServerMessageView {
    RtmpStart { name: Seq<char>, address: Seq<char>, port: usize },
    RtmpStop { name: Seq<char>, error: Option<Seq<char>> },
    HttpflvStart { name: Seq<char> },
    HttpflvStop { name: Seq<char>, error: Option<Seq<char>> },
    HlsStart { name: Seq<char> },
    HlsStop { name: Seq<char>, error: Option<Seq<char>> },
    RtmpPullStart {
        name: Seq<char>,
        source_url: Seq<char>,
        retry_interval: Option<u64>,
        retry_count: Option<usize>,
    },
    RtmpPullStop { name: Seq<char>, source: Seq<char>, error: Option<Seq<char>> },
    RtmpPushStart { name: Seq<char>, sink_url: Seq<char> },
    RtmpPushStop { name: Seq<char>, sink_url: Seq<char>, error: Option<Seq<char>> },
    Publish { identifier: KPStreamIdentifierView, info: Seq<char> },
    Unpublish { identifier: KPStreamIdentifierView, info: Seq<char> },
    Subscribe { identifier: KPStreamIdentifierView, info: Seq<char> },
    Unsubscribe { identifier: KPStreamIdentifierView, info: Seq<char> },
    Unknown { name: Seq<char>, error: Seq<char> },
}

impl View for KPServerMessage {
    type V = KPServerMessageView;

    open spec fn view(&self) -> KPServerMessageView {
        match self {
            KPServerMessage::RtmpStart { name, address, port } =>
                KPServerMessageView::RtmpStart { name: name@, address: address@, port: *port },
            KPServerMessage::RtmpStop { name, error } =>
                KPServerMessageView::RtmpStop { name: name@, error: opt_str(*error) },
            KPServerMessage::HttpflvStart { name } => KPServerMessageView::HttpflvStart { name: name@ },
            KPServerMessage::HttpflvStop { name, error } =>
                KPServerMessageView::HttpflvStop { name: name@, error: opt_str(*error) },
            KPServerMessage::HlsStart { name } => KPServerMessageView::HlsStart { name: name@ },
            KPServerMessage::HlsStop { name, error } =>
                KPServerMessageView::HlsStop { name: name@, error: opt_str(*error) },
            KPServerMessage::RtmpPullStart { name, source_url, retry_interval, retry_count } =>
                KPServerMessageView::RtmpPullStart {
                    name: name@,
                    source_url: source_url@,
                    retry_interval: *retry_interval,
                    retry_count: *retry_count,
                },
            KPServerMessage::RtmpPullStop { name, source, error } =>
                KPServerMessageView::RtmpPullStop { name: name@, source: source@, error: opt_str(*error) },
            KPServerMessage::RtmpPushStart { name, sink_url } =>
                KPServerMessageView::RtmpPushStart { name: name@, sink_url: sink_url@ },
            KPServerMessage::RtmpPushStop { name, sink_url, error } =>
                KPServerMessageView::RtmpPushStop { name: name@, sink_url: sink_url@, error: opt_str(*error) },
            KPServerMessage::Publish { identifier, info } =>
                KPServerMessageView::Publish { identifier: identifier@, info: info@ },
            KPServerMessage::Unpublish { identifier, info } =>
                KPServerMessageView::Unpublish { identifier: identifier@, info: info@ },
            KPServerMessage::Subscribe { identifier, info } =>
                KPServerMessageView::Subscribe { identifier: identifier@, info: info@ },
            KPServerMessage::Unsubscribe { identifier, info } =>
                KPServerMessageView::Unsubscribe { identifier: identifier@, info: info@ },
            KPServerMessage::Unknown { name, error } =>
                KPServerMessageView::Unknown { name: name@, error: error@ },
        }
    }
}

/// The printed name of a report: the name of its variant.
pub open spec fn message_name(m: KPServerMessage) -> Seq<char> {
    match m {
        KPServerMessage::RtmpStart { .. } => "RtmpStart"@,
        KPServerMessage::RtmpStop { .. } => "RtmpStop"@,
        KPServerMessage::HttpflvStart { .. } => "HttpflvStart"@,
        KPServerMessage::HttpflvStop { .. } => "HttpflvStop"@,
        KPServerMessage::HlsStart { .. } => "HlsStart"@,
        KPServerMessage::HlsStop { .. } => "HlsStop"@,
        KPServerMessage::RtmpPullStart { .. } => "RtmpPullStart"@,
        KPServerMessage::RtmpPullStop { .. } => "RtmpPullStop"@,
        KPServerMessage::RtmpPushStart { .. } => "RtmpPushStart"@,
        KPServerMessage::RtmpPushStop { .. } => "RtmpPushStop"@,
        KPServerMessage::Publish { .. } => "Publish"@,
        KPServerMessage::Unpublish { .. } => "Unpublish"@,
        KPServerMessage::Subscribe { .. } => "Subscribe"@,
        KPServerMessage::Unsubscribe { .. } => "Unsubscribe"@,
        KPServerMessage::Unknown { .. } => "Unknown"@,
    }
}

impl KPServerMessage {
    /// The printed name of this report.
    pub fn name(&self) -> (res: &'static str)
        ensures
            res@ == message_name(*self),
    {
        match self {
            KPServerMessage::RtmpStart { .. } => "RtmpStart",
            KPServerMessage::RtmpStop { .. } => "RtmpStop",
            KPServerMessage::HttpflvStart { .. } => "HttpflvStart",
            KPServerMessage::HttpflvStop { .. } => "HttpflvStop",
            KPServerMessage::HlsStart { .. } => "HlsStart",
            KPServerMessage::HlsStop { .. } => "HlsStop",
            KPServerMessage::RtmpPullStart { .. } => "RtmpPullStart",
            KPServerMessage::RtmpPullStop { .. } => "RtmpPullStop",
            KPServerMessage::RtmpPushStart { .. } => "RtmpPushStart",
            KPServerMessage::RtmpPushStop { .. } => "RtmpPushStop",
            KPServerMessage::Publish { .. } => "Publish",
            KPServerMessage::Unpublish { .. } => "Unpublish",
            KPServerMessage::Subscribe { .. } => "Subscribe",
            KPServerMessage::Unsubscribe { .. } => "Unsubscribe",
            KPServerMessage::Unknown { .. } => "Unknown",
        }
    }
}

} // verus!
