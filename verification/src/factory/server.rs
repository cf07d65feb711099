//! Which servers the factory builds from the configuration's server
//! entries.

use vstd::prelude::*;
use crate::config::{Server, ServerGroup, ServerSchema, ServerType, server_schema_name, server_type_name};
use crate::server::ServerContext;
use crate::server::http::KPGHttp;
use crate::util::error::{KPGError, KPGErrorCode, KPGErrorView};
use crate::util::text::{string_of, append_str};

verus! {

/// A server the factory builds: a media server over its contexts, or an
/// HTTP API server.
#[derive(Debug)]
pub enum KPGServerPlan {
    Media { name: String, contexts: Vec<ServerContext> },
    Api(KPGHttp),
}

pub enum KPGServerPlanView {
    Media { name: Seq<char>, contexts: Seq<ServerContext> },
    Api { name: Seq<char>, contexts: Seq<ServerContext> },
}

impl View for KPGServerPlan {
    type V = KPGServerPlanView;

    open spec fn view(&self) -> KPGServerPlanView {
        match self {
            KPGServerPlan::Media { name, contexts } => KPGServerPlanView::Media { name: name@, contexts: contexts@ },
            KPGServerPlan::Api(h) => KPGServerPlanView::Api { name: h.name@, contexts: h.server_context@ },
        }
    }
}

/// The views of registered servers, each under the name it was registered
/// with.
pub open spec fn entries_view(v: Seq<(String, KPGServerPlan)>) -> Seq<(Seq<char>, KPGServerPlanView)> {
    v.map_values(|e: (String, KPGServerPlan)| (e.0@, e.1@))
}

/// The context of a server group; the port is kept modulo 2^16.
pub open spec fn group_context(g: ServerGroup) -> ServerContext {
    ServerContext { schema: g.schema, name: g.name, address: g.address, port: g.port as u16 }
}

/// An error of the factory's configuration check.
pub open spec fn config_error(msg: Seq<char>) -> KPGErrorView {
    KPGErrorView { code: KPGErrorCode::KPGFactoryParseConfigFailed, error: msg }
}

/// The contexts of a media server's groups; a group whose schema is
/// neither RTMP nor HTTP is refused, the first one first.
pub open spec fn media_contexts(gs: Seq<ServerGroup>) -> Result<Seq<ServerContext>, KPGErrorView>
    decreases gs.len(),
{
    if gs.len() == 0 {
        Ok(seq![])
    } else {
        match media_contexts(gs.drop_last()) {
            Err(e) => Err(e),
            Ok(cs) => if gs.last().schema == ServerSchema::Unset {
                Err(config_error("not support media server schema. schema: "@ + server_schema_name(gs.last().schema)@))
            } else {
                Ok(cs.push(group_context(gs.last())))
            },
        }
    }
}

/// The API servers of an API entry's groups, each registered under the
/// entry's name; a group whose schema is not HTTP is refused, the first one
/// first.
pub open spec fn api_entries(name: Seq<char>, gs: Seq<ServerGroup>) -> Result<Seq<(Seq<char>, KPGServerPlanView)>, KPGErrorView>
    decreases gs.len(),
{
    if gs.len() == 0 {
        Ok(seq![])
    } else {
        match api_entries(name, gs.drop_last()) {
            Err(e) => Err(e),
            Ok(es) => if gs.last().schema != ServerSchema::Http {
                Err(config_error("not support api server schema. schema: "@ + server_schema_name(gs.last().schema)@))
            } else {
                Ok(es.push((name, KPGServerPlanView::Api {
                    name: gs.last().name@,
                    contexts: seq![ServerContext { schema: ServerSchema::Http, ..group_context(gs.last()) }],
                })))
            },
        }
    }
}

/// The servers one entry registers: none for an entry without target (an
/// error), one media server for a media entry, and one API server per group
/// for an API entry.
pub open spec fn server_entries(s: Server) -> Result<Seq<(Seq<char>, KPGServerPlanView)>, KPGErrorView> {
    match s.target {
        ServerType::Unset => Err(config_error("invalid server schema. schema: "@ + server_type_name(s.target)@)),
        ServerType::Media => match media_contexts(s.group@) {
            Err(e) => Err(e),
            Ok(cs) => Ok(seq![(s.name@, KPGServerPlanView::Media { name: s.name@, contexts: cs })]),
        },
        ServerType::Api => api_entries(s.name@, s.group@),
    }
}

/// The servers all entries register, in order, or the first error.
pub open spec fn create_server_spec(ss: Seq<Server>) -> Result<Seq<(Seq<char>, KPGServerPlanView)>, KPGErrorView>
    decreases ss.len(),
{
    if ss.len() == 0 {
        Ok(seq![])
    } else {
        match create_server_spec(ss.drop_last()) {
            Err(e) => Err(e),
            Ok(es) => match server_entries(ss.last()) {
                Err(e) => Err(e),
                Ok(more) => Ok(es + more),
            },
        }
    }
}

/// The server registered last under `name`: registering under a name that
/// is taken replaces the earlier server.
pub open spec fn registered(es: Seq<(Seq<char>, KPGServerPlanView)>, name: Seq<char>) -> Option<KPGServerPlanView>
    decreases es.len(),
{
    if es.len() == 0 {
        None
    } else if es.last().0 == name {
        Some(es.last().1)
    } else {
        registered(es.drop_last(), name)
    }
}

fn group_context_of(g: &ServerGroup) -> (res: ServerContext)
    ensures
        res == group_context(*g),
{
    ServerContext { schema: g.schema, name: g.name.clone(), address: g.address.clone(), port: g.port as u16 }
}

fn schema_error(prefix: &str, schema: ServerSchema) -> (res: KPGError)
    ensures
        res@ == config_error(prefix@ + server_schema_name(schema)@),
{
    let mut m = string_of(prefix);
    append_str(&mut m, schema.name());
    KPGError::new_with_string(KPGErrorCode::KPGFactoryParseConfigFailed, m)
}

/// The contexts of a media server's groups, as `media_contexts` gives them.
fn media_contexts_exec(gs: &Vec<ServerGroup>) -> (res: Result<Vec<ServerContext>, KPGError>)
    ensures
        match (res, media_contexts(gs@)) {
            (Ok(v), Ok(s)) => v@ == s,
            (Err(e), Err(s)) => e@ == s,
            _ => false,
        },
{
    let mut out: Vec<ServerContext> = Vec::new();
    let mut i: usize = 0;
    proof { assert(gs@.take(0) =~= Seq::<ServerGroup>::empty()); }
    while i < gs.len()
        invariant
            i <= gs.len(),
            media_contexts(gs@.take(i as int)) == Ok::<Seq<ServerContext>, KPGErrorView>(out@),
        decreases gs.len() - i,
    {
        proof { assert(gs@.take(i + 1).drop_last() =~= gs@.take(i as int)); }
        let g = &gs[i];
        if g.schema == ServerSchema::Unset {
            let e = schema_error("not support media server schema. schema: ", g.schema);
            proof {
                reveal_strlit("not support media server schema. schema: ");
                assert(media_contexts(gs@.take(i + 1)) == Err::<Seq<ServerContext>, KPGErrorView>(e@));
                lemma_media_contexts_err_sticky(gs@, i + 1);
            }
            return Err(e);
        }
        out.push(group_context_of(g));
        i = i + 1;
    }
    proof { assert(gs@.take(gs@.len() as int) =~= gs@); }
    Ok(out)
}

/// Once some groups are refused, so are all groups that start with them.
proof fn lemma_media_contexts_err_sticky(gs: Seq<ServerGroup>, k: int)
    requires
        0 <= k <= gs.len(),
        media_contexts(gs.take(k)) is Err,
    ensures
        media_contexts(gs) == media_contexts(gs.take(k)),
    decreases gs.len() - k,
{
    if k < gs.len() {
        assert(gs.take(k + 1).drop_last() =~= gs.take(k));
        lemma_media_contexts_err_sticky(gs, k + 1);
    } else {
        assert(gs.take(k) =~= gs);
    }
}

/// Once some groups are refused, so are all groups that start with them.
proof fn lemma_api_entries_err_sticky(name: Seq<char>, gs: Seq<ServerGroup>, k: int)
    requires
        0 <= k <= gs.len(),
        api_entries(name, gs.take(k)) is Err,
    ensures
        api_entries(name, gs) == api_entries(name, gs.take(k)),
    decreases gs.len() - k,
{
    if k < gs.len() {
        assert(gs.take(k + 1).drop_last() =~= gs.take(k));
        lemma_api_entries_err_sticky(name, gs, k + 1);
    } else {
        assert(gs.take(k) =~= gs);
    }
}

/// Once some entries are refused, so are all entries that start with them.
proof fn lemma_create_server_err_sticky(ss: Seq<Server>, k: int)
    requires
        0 <= k <= ss.len(),
        create_server_spec(ss.take(k)) is Err,
    ensures
        create_server_spec(ss) == create_server_spec(ss.take(k)),
    decreases ss.len() - k,
{
    if k < ss.len() {
        assert(ss.take(k + 1).drop_last() =~= ss.take(k));
        lemma_create_server_err_sticky(ss, k + 1);
    } else {
        assert(ss.take(k) =~= ss);
    }
}

/// Appends the servers one entry registers to `out`.
fn server_entries_exec(s: &Server, out: &mut Vec<(String, KPGServerPlan)>) -> (res: Result<(), KPGError>)
    ensures
        match (res, server_entries(*s)) {
            (Ok(_), Ok(more)) => entries_view(final(out)@) == entries_view(old(out)@) + more,
            (Err(e), Err(x)) => e@ == x,
            _ => false,
        },
{
    match s.target {
        ServerType::Unset => {
            let mut m = string_of("invalid server schema. schema: ");
            append_str(&mut m, s.target.name());
            proof { reveal_strlit("invalid server schema. schema: "); }
            Err(KPGError::new_with_string(KPGErrorCode::KPGFactoryParseConfigFailed, m))
        },
        ServerType::Media => {
            match media_contexts_exec(&s.group) {
                Err(e) => Err(e),
                Ok(contexts) => {
                    let ghost before = out@;
                    out.push((s.name.clone(), KPGServerPlan::Media { name: s.name.clone(), contexts }));
                    proof {
                        assert(entries_view(out@) =~= entries_view(before) + server_entries(*s)->Ok_0);
                    }
                    Ok(())
                },
            }
        },
        ServerType::Api => api_entries_exec(&s.name, &s.group, out),
    }
}

/// Appends one API server per group, registered under `name`, to `out`.
#[verifier::rlimit(30)]
fn api_entries_exec(name: &String, gs: &Vec<ServerGroup>, out: &mut Vec<(String, KPGServerPlan)>) -> (res: Result<(), KPGError>)
    ensures
        match (res, api_entries(name@, gs@)) {
            (Ok(_), Ok(more)) => entries_view(final(out)@) == entries_view(old(out)@) + more,
            (Err(e), Err(x)) => e@ == x,
            _ => false,
        },
{
    let ghost start = out@;
    let mut i: usize = 0;
    proof {
        assert(gs@.take(0) =~= Seq::<ServerGroup>::empty());
        assert(entries_view(out@) =~= entries_view(start) + seq![]);
    }
    while i < gs.len()
        invariant
            i <= gs.len(),
            api_entries(name@, gs@.take(i as int)) matches Ok(es) && entries_view(out@) == entries_view(start) + es,
        decreases gs.len() - i,
    {
        let ghost prefix = gs@.take(i + 1);
        proof {
            assert(prefix.drop_last() =~= gs@.take(i as int));
            assert(prefix.last() == gs@[i as int]);
        }
        let g = &gs[i];
        if g.schema != ServerSchema::Http {
            let e = schema_error("not support api server schema. schema: ", g.schema);
            proof {
                reveal_strlit("not support api server schema. schema: ");
                assert(api_entries(name@, prefix) == Err::<Seq<(Seq<char>, KPGServerPlanView)>, KPGErrorView>(e@));
                lemma_api_entries_err_sticky(name@, gs@, i + 1);
            }
            return Err(e);
        }
        let ctx = ServerContext { schema: ServerSchema::Http, name: g.name.clone(), address: g.address.clone(), port: g.port as u16 };
        let http = KPGHttp { name: g.name.clone(), server_context: vec![ctx] };
        let ghost before = out@;
        let ghost es = api_entries(name@, gs@.take(i as int))->Ok_0;
        let entry = (name.clone(), KPGServerPlan::Api(http));
        let ghost ev = (entry.0@, entry.1@);
        out.push(entry);
        proof {
            assert(http.server_context@ =~= seq![ServerContext { schema: ServerSchema::Http, ..group_context(*g) }]);
            assert(api_entries(name@, prefix) == Ok::<Seq<(Seq<char>, KPGServerPlanView)>, KPGErrorView>(es.push(ev)));
            assert(entries_view(out@) =~= entries_view(before).push(ev));
            assert(entries_view(out@) =~= entries_view(start) + es.push(ev));
        }
        i = i + 1;
    }
    proof { assert(gs@.take(gs@.len() as int) =~= gs@); }
    Ok(())
}

/// The servers all entries register, in order, as `create_server_spec`
/// gives them, or the first error.
pub fn create_server_entries(servers: &Vec<Server>) -> (res: Result<Vec<(String, KPGServerPlan)>, KPGError>)
    ensures
        match (res, create_server_spec(servers@)) {
            (Ok(v), Ok(s)) => entries_view(v@) == s,
            (Err(e), Err(x)) => e@ == x,
            _ => false,
        },
{
    let mut out: Vec<(String, KPGServerPlan)> = Vec::new();
    let mut i: usize = 0;
    proof {
        assert(servers@.take(0) =~= Seq::<Server>::empty());
        assert(entries_view(out@) =~= seq![]);
    }
    while i < servers.len()
        invariant
            i <= servers.len(),
            create_server_spec(servers@.take(i as int)) matches Ok(es) && entries_view(out@) == es,
        decreases servers.len() - i,
    {
        proof { assert(servers@.take(i + 1).drop_last() =~= servers@.take(i as int)); }
        match server_entries_exec(&servers[i], &mut out) {
            Err(e) => {
                proof { lemma_create_server_err_sticky(servers@, i + 1); }
                return Err(e);
            },
            Ok(_) => {},
        }
        i = i + 1;
    }
    proof { assert(servers@.take(servers@.len() as int) =~= servers@); }
    Ok(out)
}

/// Registering the servers of a list of entries registers those of its
/// first part, then those of its second part; so the server found under a
/// name is the one registered last under it.
pub proof fn lemma_create_server_concat(a: Seq<Server>, b: Seq<Server>)
    requires
        create_server_spec(a) is Ok,
        create_server_spec(b) is Ok,
    ensures
        create_server_spec(a + b) == Ok::<Seq<(Seq<char>, KPGServerPlanView)>, KPGErrorView>(
            create_server_spec(a)->Ok_0 + create_server_spec(b)->Ok_0),
    decreases b.len(),
{
    if b.len() == 0 {
        assert(a + b =~= a);
        assert(create_server_spec(a)->Ok_0 + create_server_spec(b)->Ok_0 =~= create_server_spec(a)->Ok_0);
    } else {
        assert((a + b).drop_last() =~= a + b.drop_last());
        assert((a + b).last() == b.last());
        lemma_create_server_concat(a, b.drop_last());
        let x = create_server_spec(a)->Ok_0;
        let y = create_server_spec(b.drop_last())->Ok_0;
        let z = server_entries(b.last())->Ok_0;
        assert(x + y + z =~= x + (y + z));
    }
}

/// The server found under a name after registering `es` and then `more` is
/// the one of `more` where `more` registers that name, and the one of `es`
/// otherwise.
pub proof fn lemma_registered_concat(es: Seq<(Seq<char>, KPGServerPlanView)>, more: Seq<(Seq<char>, KPGServerPlanView)>, name: Seq<char>)
    ensures
        registered(es + more, name) == (match registered(more, name) {
            Some(p) => Some(p),
            None => registered(es, name),
        }),
    decreases more.len(),
{
    if more.len() == 0 {
        assert(es + more =~= es);
    } else {
        assert((es + more).drop_last() =~= es + more.drop_last());
        assert((es + more).last() == more.last());
        lemma_registered_concat(es, more.drop_last(), name);
    }
}

} // verus!
