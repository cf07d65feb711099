//! Who hears the relay's reports: the notifier that logs them, and how the
//! hub's stream notices become reports.

use vstd::prelude::*;
use crate::kpserver::message::{KPServerMessage, KPServerMessageView, KPStreamIdentifier};

verus! {

/// A notifier that logs every report it hears.
#[derive(Debug, Clone, Copy, PartialEq, Eq, Structural)]
pub struct KPLogNotifier {}

impl KPLogNotifier {
    /// A logging notifier.
    pub fn new() -> (res: KPLogNotifier)
        ensures
            res == (KPLogNotifier {}),
    {
        KPLogNotifier {}
    }
}

/// A notice of the stream hub about a stream: its kind, the stream, and the
/// printed information about the publisher or player.
#[derive(Debug, Clone)]
pub enum KPStreamNotice {
    Publish { identifier: KPStreamIdentifier, info: String },
    UnPublish { identifier: KPStreamIdentifier, info: String },
    Subscribe { identifier: KPStreamIdentifier, info: String },
    UnSubscribe { identifier: KPStreamIdentifier, info: String },
    /// Any other notice.
    Other,
}

/// Turns the hub's stream notices into reports.
#[derive(Debug, Clone, Copy, PartialEq, Eq, Structural)]
pub struct KPEventNotifier {}

/// Which notices a callback of the notifier handles.
#[derive(Debug, Clone, Copy, PartialEq, Eq, Structural)]
pub enum NoticeHandled {
    Publications,
    PublicationEnds,
    Subscriptions,
    SubscriptionEnds,
}

/// The report for a notice, if the callback handles notices of its sort.
pub open spec fn notice_report(handled: NoticeHandled, n: KPStreamNotice) -> Option<KPServerMessageView> {
    match n {
        KPStreamNotice::Publish { identifier, info } => if handled == NoticeHandled::Publications {
            Some(KPServerMessageView::Publish { identifier: identifier@, info: info@ }) } else { None },
        KPStreamNotice::UnPublish { identifier, info } => if handled == NoticeHandled::PublicationEnds {
            Some(KPServerMessageView::Unpublish { identifier: identifier@, info: info@ }) } else { None },
        KPStreamNotice::Subscribe { identifier, info } => if handled == NoticeHandled::Subscriptions {
            Some(KPServerMessageView::Subscribe { identifier: identifier@, info: info@ }) } else { None },
        KPStreamNotice::UnSubscribe { identifier, info } => if handled == NoticeHandled::SubscriptionEnds {
            Some(KPServerMessageView::Unsubscribe { identifier: identifier@, info: info@ }) } else { None },
        KPStreamNotice::Other => None,
    }
}

/// The view of an optional report.
pub open spec fn opt_message_view(m: Option<KPServerMessage>) -> Option<KPServerMessageView> {
    match m {
        Some(x) => Some(x@),
        None => None,
    }
}

impl KPEventNotifier {
    /// A notifier of stream notices.
    pub fn new() -> (res: KPEventNotifier)
        ensures
            res == (KPEventNotifier {}),
    {
        KPEventNotifier {}
    }

    /// The report of a publication; other notices give none.
    pub fn on_publish_notify(&self, n: KPStreamNotice) -> (res: Option<KPServerMessage>)
        ensures
            opt_message_view(res) == notice_report(NoticeHandled::Publications, n),
    {
        match n {
            KPStreamNotice::Publish { identifier, info } => Some(KPServerMessage::Publish { identifier, info }),
            _ => None,
        }
    }

    /// The report of the end of a publication; other notices give none.
    pub fn on_unpublish_notify(&self, n: KPStreamNotice) -> (res: Option<KPServerMessage>)
        ensures
            opt_message_view(res) == notice_report(NoticeHandled::PublicationEnds, n),
    {
        match n {
            KPStreamNotice::UnPublish { identifier, info } => Some(KPServerMessage::Unpublish { identifier, info }),
            _ => None,
        }
    }

    /// The report of a subscription; other notices give none.
    pub fn on_play_notify(&self, n: KPStreamNotice) -> (res: Option<KPServerMessage>)
        ensures
            opt_message_view(res) == notice_report(NoticeHandled::Subscriptions, n),
    {
        match n {
            KPStreamNotice::Subscribe { identifier, info } => Some(KPServerMessage::Subscribe { identifier, info }),
            _ => None,
        }
    }

    /// The report of the end of a subscription; other notices give none.
    pub fn on_stop_notify(&self, n: KPStreamNotice) -> (res: Option<KPServerMessage>)
        ensures
            opt_message_view(res) == notice_report(NoticeHandled::SubscriptionEnds, n),
    {
        match n {
            KPStreamNotice::UnSubscribe { identifier, info } => Some(KPServerMessage::Unsubscribe { identifier, info }),
            _ => None,
        }
    }
}

} // verus!
