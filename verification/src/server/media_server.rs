//! The media server built on the codec library: the endpoints it has
//! enabled, and the order of its life (started once, then stopped once).
//! Enabling an endpoint, starting and stopping are done by the codec
//! library; their outcomes are handed to the functions here.

use vstd::prelude::*;
use crate::config::{ServerSchema, ServerTokenType};
use crate::server::ServerContext;
use crate::util::error::{KPGError, KPGErrorCode};
use crate::util::text::{decimal, string_of, append_str, append_decimal};

verus! {

/// An enabled endpoint of the media server.
#[derive(Debug, Clone)]
pub struct KPGMediaServerContext {
    pub name: String,
    pub address: String,
    pub port: u32,
    pub schema: ServerSchema,
    pub token: ServerTokenType,
}

/// A media server: its name, its enabled endpoints (one per name) and
/// whether it was started and stopped.
#[derive(Debug)]
pub struct KPGMediaServer {
    pub name: String,
    pub contexts: Vec<KPGMediaServerContext>,
    pub is_start: bool,
    pub is_closed: bool,
}

/// The printed name of a token's kind.
pub open spec fn token_name(t: ServerTokenType) -> Seq<char> {
    match t {
        ServerTokenType::SingleToken { .. } => "SingleToken"@,
        ServerTokenType::CSToken { .. } => "CSToken"@,
    }
}

/// The endpoints with `c` enabled: it replaces the endpoint of the same
/// name, or comes last where there is none.
pub open spec fn insert_context(cs: Seq<KPGMediaServerContext>, c: KPGMediaServerContext) -> Seq<KPGMediaServerContext> {
    if exists|i: int| 0 <= i < cs.len() && cs[i].name@ == c.name@ {
        cs.update(choose|i: int| 0 <= i < cs.len() && cs[i].name@ == c.name@, c)
    } else {
        cs.push(c)
    }
}

/// Whether no two endpoints share a name.
pub open spec fn names_distinct(cs: Seq<KPGMediaServerContext>) -> bool {
    forall|i: int, j: int| 0 <= i < cs.len() && 0 <= j < cs.len() && i != j ==> cs[i].name@ != cs[j].name@
}

/// The message of a token that does not suit the schema.
pub open spec fn mismatch_message(schema: Seq<char>, address: Seq<char>, port: u16, token: ServerTokenType) -> Seq<char> {
    "mismatch token type on the schema: "@ + schema + ", address: "@ + address + ", port: "@
        + decimal(port as nat) + ", token: "@ + token_name(token)
}

/// The message of an endpoint that the codec library could not enable.
pub open spec fn enable_failed_message(address: Seq<char>, port: u16, err: Seq<char>) -> Seq<char> {
    "schema: rtmp, address: "@ + address + ", port: "@ + decimal(port as nat) + ", error: "@ + err
}

fn mismatch_error(schema: &str, address: &String, port: u16, token: &ServerTokenType) -> (res: KPGError)
    ensures
        res@.code == KPGErrorCode::KPGServerMediaServerEnableSchemaFailed,
        res@.error == mismatch_message(schema@, address@, port, *token),
{
    let mut m = string_of("mismatch token type on the schema: ");
    append_str(&mut m, schema);
    append_str(&mut m, ", address: ");
    append_str(&mut m, address.as_str());
    append_str(&mut m, ", port: ");
    append_decimal(&mut m, port as u64);
    append_str(&mut m, ", token: ");
    append_str(&mut m, token.name());
    proof {
        reveal_strlit("mismatch token type on the schema: ");
        reveal_strlit(", address: ");
        reveal_strlit(", port: ");
        reveal_strlit(", token: ");
        reveal_strlit("SingleToken");
        reveal_strlit("CSToken");
    }
    assert(m@ =~= mismatch_message(schema@, address@, port, *token));
    KPGError::new_with_string(KPGErrorCode::KPGServerMediaServerEnableSchemaFailed, m)
}

fn enable_failed_error(address: &String, port: u16, err: &String) -> (res: KPGError)
    ensures
        res@.code == KPGErrorCode::KPGServerMediaServerEnableSchemaFailed,
        res@.error == enable_failed_message(address@, port, err@),
{
    let mut m = string_of("schema: rtmp, address: ");
    append_str(&mut m, address.as_str());
    append_str(&mut m, ", port: ");
    append_decimal(&mut m, port as u64);
    append_str(&mut m, ", error: ");
    append_str(&mut m, err.as_str());
    proof {
        reveal_strlit("schema: rtmp, address: ");
        reveal_strlit(", port: ");
        reveal_strlit(", error: ");
    }
    assert(m@ =~= enable_failed_message(address@, port, err@));
    KPGError::new_with_string(KPGErrorCode::KPGServerMediaServerEnableSchemaFailed, m)
}

/// The message of a failed start.
pub open spec fn start_failed_message(err: Seq<char>) -> Seq<char> {
    "media server start failed. error: "@ + err
}

/// The message of a failed stop.
pub open spec fn stop_failed_message(err: Seq<char>) -> Seq<char> {
    "media server stop failed. error: "@ + err
}

/// What happens to a media server over its life: an endpoint is enabled,
/// or the server is started or stopped.
#[derive(Debug, Clone, Copy, PartialEq, Eq, Structural)]
pub enum LifeEvent {
    Enable,
    Start,
    Stop,
}

/// Whether the server was started and whether it was stopped after an
/// event, where the event is admitted in that state: enabling always is,
/// starting only a server neither started nor stopped, stopping only a
/// started server not yet stopped.
pub open spec fn life_step(started: bool, stopped: bool, e: LifeEvent) -> Option<(bool, bool)> {
    match e {
        LifeEvent::Enable => Some((started, stopped)),
        LifeEvent::Start => if !started && !stopped { Some((true, false)) } else { None },
        LifeEvent::Stop => if started && !stopped { Some((true, true)) } else { None },
    }
}

/// Whether a new server was started and whether it was stopped after the
/// events in order, or `None` where one of them is not admitted.
pub open spec fn life_run(events: Seq<LifeEvent>) -> Option<(bool, bool)>
    decreases events.len(),
{
    if events.len() == 0 {
        Some((false, false))
    } else {
        match life_run(events.drop_last()) {
            None => None,
            Some(flags) => life_step(flags.0, flags.1, events.last()),
        }
    }
}

/// The flags of a server record whether it was started and whether it was
/// stopped.
proof fn lemma_life_flags(events: Seq<LifeEvent>)
    ensures
        life_run(events) matches Some(flags) ==>
            (flags.0 <==> events.contains(LifeEvent::Start)) && (flags.1 <==> events.contains(LifeEvent::Stop)),
    decreases events.len(),
{
    if events.len() > 0 {
        let front = events.drop_last();
        lemma_life_flags(front);
        assert(events == front.push(events.last()));
        assert forall|x: LifeEvent| events.contains(x) <==> (front.contains(x) || events.last() == x) by {
            if events.contains(x) {
                let i = choose|i: int| 0 <= i < events.len() && events[i] == x;
                if i < front.len() {
                    assert(front[i] == x);
                }
            }
            if front.contains(x) {
                let i = choose|i: int| 0 <= i < front.len() && front[i] == x;
                assert(events[i] == x);
            }
            if events.last() == x {
                assert(events[events.len() - 1] == x);
            }
        }
    }
}

/// The order of a media server's life. Enabling an endpoint changes
/// nothing of it; a server is started exactly when it was neither started
/// nor stopped before, so once; it is stopped exactly when it was started
/// and not yet stopped, so once and only after a start; after a stop it is
/// neither started nor stopped again.
pub proof fn lemma_media_server_lifecycle(events: Seq<LifeEvent>)
    ensures
        life_run(events.push(LifeEvent::Enable)) == life_run(events),
        life_run(events.push(LifeEvent::Start)) is Some <==> (life_run(events) is Some
            && !events.contains(LifeEvent::Start) && !events.contains(LifeEvent::Stop)),
        life_run(events.push(LifeEvent::Stop)) is Some <==> (life_run(events) is Some
            && events.contains(LifeEvent::Start) && !events.contains(LifeEvent::Stop)),
{
    lemma_life_flags(events);
    assert(events.push(LifeEvent::Enable).drop_last() == events);
    assert(events.push(LifeEvent::Start).drop_last() == events);
    assert(events.push(LifeEvent::Stop).drop_last() == events);
}

impl KPGMediaServer {
    /// A media server with no endpoint, neither started nor stopped.
    pub fn new(name: String) -> (res: KPGMediaServer)
        ensures
            res.name == name,
            res.contexts@.len() == 0,
            !res.is_start,
            !res.is_closed,
            life_run(seq![]) == Some((res.is_start, res.is_closed)),
    {
        KPGMediaServer { name, contexts: Vec::new(), is_start: false, is_closed: false }
    }

    /// Records an enabled endpoint, replacing the one of the same name.
    fn record(&mut self, c: KPGMediaServerContext)
        requires
            names_distinct(old(self).contexts@),
        ensures
            final(self).contexts@ == insert_context(old(self).contexts@, c),
            names_distinct(final(self).contexts@),
            final(self).name == old(self).name,
            final(self).is_start == old(self).is_start,
            final(self).is_closed == old(self).is_closed,
    {
        let mut i: usize = 0;
        while i < self.contexts.len()
            invariant
                i <= self.contexts.len(),
                self.contexts@ == old(self).contexts@,
                self.name == old(self).name,
                self.is_start == old(self).is_start,
                self.is_closed == old(self).is_closed,
                names_distinct(old(self).contexts@),
                forall|j: int| 0 <= j < i ==> self.contexts@[j].name@ != c.name@,
            decreases self.contexts.len() - i,
        {
            if self.contexts[i].name == c.name {
                let ghost cs = self.contexts@;
                proof {
                    let w = choose|k: int| 0 <= k < cs.len() && cs[k].name@ == c.name@;
                    assert(0 <= i < cs.len() && cs[i as int].name@ == c.name@);
                    if w != i {
                        assert(cs[w].name@ == cs[i as int].name@);
                    }
                }
                self.contexts.set(i, c);
                proof {
                    assert(self.contexts@ =~= insert_context(cs, c));
                }
                return;
            }
            i = i + 1;
        }
        self.contexts.push(c);
    }

    /// The client-server token pair of an RTMP endpoint, if the token is one.
    pub fn cs_token(token: &ServerTokenType) -> (res: Option<(String, String)>)
        ensures
            match *token {
                ServerTokenType::CSToken { server, client } => res == Some((server, client)),
                ServerTokenType::SingleToken { .. } => res is None,
            },
    {
        match token {
            ServerTokenType::CSToken { server, client } => Some((server.clone(), client.clone())),
            ServerTokenType::SingleToken { .. } => None,
        }
    }

    /// The single token of an HTTP endpoint, if the token is one.
    pub fn single_token(token: &ServerTokenType) -> (res: Option<String>)
        ensures
            match *token {
                ServerTokenType::SingleToken { token } => res == Some(token),
                ServerTokenType::CSToken { .. } => res is None,
            },
    {
        match token {
            ServerTokenType::SingleToken { token } => Some(token.clone()),
            ServerTokenType::CSToken { .. } => None,
        }
    }

    /// Enables an RTMP endpoint. It needs a client-server token; `enabled`
    /// is what the codec library answered when asked to enable it with that
    /// token (the port it listens on, or its error), and is not read for a
    /// single token. On success the endpoint is recorded under `name`.
    pub fn add_rtmp(&mut self, name: String, address: String, port: u16, token: ServerTokenType, enabled: Result<u32, String>)
        -> (res: Result<(), KPGError>)
        requires
            names_distinct(old(self).contexts@),
        ensures
            names_distinct(final(self).contexts@),
            final(self).name == old(self).name,
            final(self).is_start == old(self).is_start,
            final(self).is_closed == old(self).is_closed,
            life_step(old(self).is_start, old(self).is_closed, LifeEvent::Enable)
                == Some((final(self).is_start, final(self).is_closed)),
            match (token, enabled) {
                (ServerTokenType::SingleToken { .. }, _) =>
                    res matches Err(e) && e@.code == KPGErrorCode::KPGServerMediaServerEnableSchemaFailed
                        && e@.error == mismatch_message("rtmp"@, address@, port, token)
                        && final(self).contexts@ == old(self).contexts@,
                (ServerTokenType::CSToken { .. }, Err(err)) =>
                    res matches Err(e) && e@.code == KPGErrorCode::KPGServerMediaServerEnableSchemaFailed
                        && e@.error == enable_failed_message(address@, port, err@)
                        && final(self).contexts@ == old(self).contexts@,
                (ServerTokenType::CSToken { .. }, Ok(actual)) =>
                    res is Ok && final(self).contexts@ == insert_context(old(self).contexts@,
                        KPGMediaServerContext { name, address, port: actual, schema: ServerSchema::Rtmp, token }),
            },
    {
        proof { reveal_strlit("rtmp"); }
        match token {
            ServerTokenType::SingleToken { .. } => Err(mismatch_error("rtmp", &address, port, &token)),
            ServerTokenType::CSToken { .. } => match enabled {
                Err(err) => Err(enable_failed_error(&address, port, &err)),
                Ok(actual) => {
                    self.record(KPGMediaServerContext { name, address, port: actual, schema: ServerSchema::Rtmp, token });
                    Ok(())
                },
            },
        }
    }

    /// Enables an HTTP endpoint. It needs a single token; `enabled` is what
    /// the codec library answered when asked to enable it with that token,
    /// and is not read for a client-server token. On success the endpoint is
    /// recorded under `name`.
    pub fn add_http(&mut self, name: String, address: String, port: u16, token: ServerTokenType, enabled: Result<u32, String>)
        -> (res: Result<(), KPGError>)
        requires
            names_distinct(old(self).contexts@),
        ensures
            names_distinct(final(self).contexts@),
            final(self).name == old(self).name,
            final(self).is_start == old(self).is_start,
            final(self).is_closed == old(self).is_closed,
            life_step(old(self).is_start, old(self).is_closed, LifeEvent::Enable)
                == Some((final(self).is_start, final(self).is_closed)),
            match (token, enabled) {
                (ServerTokenType::CSToken { .. }, _) =>
                    res matches Err(e) && e@.code == KPGErrorCode::KPGServerMediaServerEnableSchemaFailed
                        && e@.error == mismatch_message("http"@, address@, port, token)
                        && final(self).contexts@ == old(self).contexts@,
                (ServerTokenType::SingleToken { .. }, Err(err)) =>
                    res matches Err(e) && e@.code == KPGErrorCode::KPGServerMediaServerEnableSchemaFailed
                        && e@.error == enable_failed_message(address@, port, err@)
                        && final(self).contexts@ == old(self).contexts@,
                (ServerTokenType::SingleToken { .. }, Ok(actual)) =>
                    res is Ok && final(self).contexts@ == insert_context(old(self).contexts@,
                        KPGMediaServerContext { name, address, port: actual, schema: ServerSchema::Http, token }),
            },
    {
        proof { reveal_strlit("http"); }
        match token {
            ServerTokenType::CSToken { .. } => Err(mismatch_error("http", &address, port, &token)),
            ServerTokenType::SingleToken { .. } => match enabled {
                Err(err) => Err(enable_failed_error(&address, port, &err)),
                Ok(actual) => {
                    self.record(KPGMediaServerContext { name, address, port: actual, schema: ServerSchema::Http, token });
                    Ok(())
                },
            },
        }
    }

    /// The first endpoint of the schema, as a context whose port is the
    /// endpoint's port taken modulo 2^16.
    pub fn get_schema(&self, schema: ServerSchema) -> (res: Option<ServerContext>)
        ensures
            match res {
                None => forall|i: int| 0 <= i < self.contexts@.len() ==> self.contexts@[i].schema != schema,
                Some(c) => exists|i: int| {
                    &&& 0 <= i < self.contexts@.len()
                    &&& self.contexts@[i].schema == schema
                    &&& forall|j: int| 0 <= j < i ==> self.contexts@[j].schema != schema
                    &&& c == ServerContext {
                        schema,
                        name: self.contexts@[i].name,
                        address: self.contexts@[i].address,
                        port: self.contexts@[i].port as u16,
                    }
                },
            },
    {
        let mut i: usize = 0;
        while i < self.contexts.len()
            invariant
                i <= self.contexts.len(),
                forall|j: int| 0 <= j < i ==> self.contexts@[j].schema != schema,
            decreases self.contexts.len() - i,
        {
            if self.contexts[i].schema == schema {
                let c = &self.contexts[i];
                let res = ServerContext {
                    schema,
                    name: c.name.clone(),
                    address: c.address.clone(),
                    port: c.port as u16,
                };
                assert(0 <= i < self.contexts@.len() && self.contexts@[i as int].schema == schema);
                return Some(res);
            }
            i = i + 1;
        }
        None
    }

    /// Marks the server started; `outcome` is how the codec library's start
    /// went. A server is started once, and never after it was stopped.
    pub fn start(&mut self, outcome: Result<(), String>) -> (res: Result<(), KPGError>)
        requires
            life_step(old(self).is_start, old(self).is_closed, LifeEvent::Start) is Some,
        ensures
            life_step(old(self).is_start, old(self).is_closed, LifeEvent::Start)
                == Some((final(self).is_start, final(self).is_closed)),
            final(self).is_start,
            !final(self).is_closed,
            final(self).name == old(self).name,
            final(self).contexts == old(self).contexts,
            match outcome {
                Ok(_) => res is Ok,
                Err(m) => res matches Err(e) && e@.code == KPGErrorCode::KPGServerMediaServerStartFailed
                    && e@.error == start_failed_message(m@),
            },
    {
        self.is_start = true;
        match outcome {
            Ok(_) => Ok(()),
            Err(m) => {
                let mut s = string_of("media server start failed. error: ");
                append_str(&mut s, m.as_str());
                proof { reveal_strlit("media server start failed. error: "); }
                assert(s@ =~= start_failed_message(m@));
                Err(KPGError::new_with_string(KPGErrorCode::KPGServerMediaServerStartFailed, s))
            },
        }
    }

    /// Marks the server stopped; `outcome` is how the codec library's stop
    /// went. A server is stopped once, after it was started.
    pub fn stop(&mut self, outcome: Result<(), String>) -> (res: Result<(), KPGError>)
        requires
            life_step(old(self).is_start, old(self).is_closed, LifeEvent::Stop) is Some,
        ensures
            life_step(old(self).is_start, old(self).is_closed, LifeEvent::Stop)
                == Some((final(self).is_start, final(self).is_closed)),
            final(self).is_start,
            final(self).is_closed,
            final(self).name == old(self).name,
            final(self).contexts == old(self).contexts,
            match outcome {
                Ok(_) => res is Ok,
                Err(m) => res matches Err(e) && e@.code == KPGErrorCode::KPGServerMediaServerStopFailed
                    && e@.error == stop_failed_message(m@),
            },
    {
        self.is_closed = true;
        match outcome {
            Ok(_) => Ok(()),
            Err(m) => {
                let mut s = string_of("media server stop failed. error: ");
                append_str(&mut s, m.as_str());
                proof { reveal_strlit("media server stop failed. error: "); }
                assert(s@ =~= stop_failed_message(m@));
                Err(KPGError::new_with_string(KPGErrorCode::KPGServerMediaServerStopFailed, s))
            },
        }
    }

    /// The server's name.
    pub fn get_name(&self) -> (res: String)
        ensures
            res == self.name,
    {
        self.name.clone()
    }
}

/// Enabling an endpoint keeps the names of the endpoints distinct, and
/// afterwards the endpoint of that name is the new one, while every
/// endpoint of another name is kept as it was.
pub proof fn lemma_insert_context(cs: Seq<KPGMediaServerContext>, c: KPGMediaServerContext)
    requires
        names_distinct(cs),
    ensures
        names_distinct(insert_context(cs, c)),
        exists|i: int| 0 <= i < insert_context(cs, c).len() && insert_context(cs, c)[i] == c,
        forall|i: int| 0 <= i < cs.len() && cs[i].name@ != c.name@ ==>
            exists|j: int| 0 <= j < insert_context(cs, c).len() && insert_context(cs, c)[j] == cs[i],
{
    let r = insert_context(cs, c);
    if exists|i: int| 0 <= i < cs.len() && cs[i].name@ == c.name@ {
        let w = choose|i: int| 0 <= i < cs.len() && cs[i].name@ == c.name@;
        assert(r[w] == c);
        assert forall|i: int| 0 <= i < cs.len() && cs[i].name@ != c.name@ implies
            exists|j: int| 0 <= j < r.len() && r[j] == cs[i] by {
            assert(r[i] == cs[i]);
        }
    } else {
        assert(r[cs.len() as int] == c);
        assert forall|i: int| 0 <= i < cs.len() && cs[i].name@ != c.name@ implies
            exists|j: int| 0 <= j < r.len() && r[j] == cs[i] by {
            assert(r[i] == cs[i]);
        }
    }
}

} // verus!
