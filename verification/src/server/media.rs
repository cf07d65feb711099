//! The media server that the factory builds for a media server entry.

use vstd::prelude::*;
use crate::server::{ServerContext, KPGServer, find_context, find_context_spec};

verus! {

/// A media server: its name and its listening contexts.
#[derive(Debug)]
pub struct KPMediaServer {
    pub name: String,
    pub server_context: Vec<ServerContext>,
}

/// What the media server reports about the streams it carries.
#[derive(Debug, Clone, Copy, PartialEq, Eq, Structural)]
pub enum KPMediaServerAction {
    ServerAddPusher,
    ServerRemovePusher,
    ServerAddPlayer,
    ServerRemovePlayer,
}

/// Which stream event the hub notifies.
#[derive(Debug, Clone, Copy, PartialEq, Eq, Structural)]
pub enum KPStreamEventKind {
    Publish,
    UnPublish,
    Subscribe,
    UnSubscribe,
    Other,
}

impl KPMediaServer {
    /// A media server with the given name and contexts.
    pub fn new(name: String, server_context: Vec<ServerContext>) -> (res: KPMediaServer)
        ensures
            res.name == name,
            res.server_context == server_context,
    {
        KPMediaServer { name, server_context }
    }

    /// The address the media server's RTMP listener binds.
    pub fn serve_address() -> (res: String)
        ensures
            res@ == "0.0.0.0:1935"@,
    {
        crate::util::text::string_of("0.0.0.0:1935")
    }

    /// The report for a stream event: a publication adds a pusher, its end
    /// removes one, a subscription adds a player and its end removes one;
    /// other events are not reported.
    pub fn notify_action(kind: KPStreamEventKind) -> (res: Option<KPMediaServerAction>)
        ensures
            res == match kind {
                KPStreamEventKind::Publish => Some(KPMediaServerAction::ServerAddPusher),
                KPStreamEventKind::UnPublish => Some(KPMediaServerAction::ServerRemovePusher),
                KPStreamEventKind::Subscribe => Some(KPMediaServerAction::ServerAddPlayer),
                KPStreamEventKind::UnSubscribe => Some(KPMediaServerAction::ServerRemovePlayer),
                KPStreamEventKind::Other => None::<KPMediaServerAction>,
            },
    {
        match kind {
            KPStreamEventKind::Publish => Some(KPMediaServerAction::ServerAddPusher),
            KPStreamEventKind::UnPublish => Some(KPMediaServerAction::ServerRemovePusher),
            KPStreamEventKind::Subscribe => Some(KPMediaServerAction::ServerAddPlayer),
            KPStreamEventKind::UnSubscribe => Some(KPMediaServerAction::ServerRemovePlayer),
            KPStreamEventKind::Other => None,
        }
    }
}

impl KPGServer for KPMediaServer {
    /// The server's name.
    fn get_name(&self) -> (res: String)
        ensures
            res == self.name,
    {
        self.name.clone()
    }

    /// The first context named `name`.
    fn get_context(&self, name: String) -> (res: Option<ServerContext>)
        ensures
            res == find_context_spec(self.server_context@, name@),
    {
        find_context(&self.server_context, &name)
    }
}

} // verus!
