//! The HTTP API server's contexts.

use vstd::prelude::*;
use crate::config::ServerSchema;
use crate::server::{ServerContext, KPGServer, find_context, find_context_spec, context_debug, context_debug_spec};
use crate::util::error::{KPGError, KPGErrorCode};
use crate::util::text::{string_of, append_str};

verus! {

/// An HTTP API server, listening on each of its contexts.
#[derive(Debug)]
pub struct KPGHttp {
    pub name: String,
    pub server_context: Vec<ServerContext>,
}

/// The index of the first context that is not HTTP, if any.
pub open spec fn first_non_http(cs: Seq<ServerContext>) -> Option<int> {
    if exists|i: int| 0 <= i < cs.len() && cs[i].schema != ServerSchema::Http
        && forall|j: int| 0 <= j < i ==> cs[j].schema == ServerSchema::Http {
        Some(choose|i: int| 0 <= i < cs.len() && cs[i].schema != ServerSchema::Http
            && forall|j: int| 0 <= j < i ==> cs[j].schema == ServerSchema::Http)
    } else {
        None
    }
}

impl KPGHttp {
    /// An HTTP server over the contexts, which must all be HTTP; otherwise
    /// the first other context is refused with `KPGServerNotSupportSchema`.
    pub fn new(name: String, server_context: Vec<ServerContext>) -> (res: Result<KPGHttp, KPGError>)
        ensures
            match first_non_http(server_context@) {
                None => res matches Ok(h) && h.name == name && h.server_context == server_context,
                Some(i) => res matches Err(e) && e@.code == KPGErrorCode::KPGServerNotSupportSchema
                    && e@.error == "not support schema on http server. context: "@
                        + context_debug_spec(server_context@[i]),
            },
    {
        let mut i: usize = 0;
        while i < server_context.len()
            invariant
                i <= server_context.len(),
                forall|j: int| 0 <= j < i ==> server_context@[j].schema == ServerSchema::Http,
            decreases server_context.len() - i,
        {
            if server_context[i].schema != ServerSchema::Http {
                let mut m = string_of("not support schema on http server. context: ");
                let d = context_debug(&server_context[i]);
                append_str(&mut m, d.as_str());
                proof {
                    let cs = server_context@;
                    assert(0 <= i < cs.len() && cs[i as int].schema != ServerSchema::Http
                        && forall|j: int| 0 <= j < i ==> cs[j].schema == ServerSchema::Http);
                    let w = choose|k: int| 0 <= k < cs.len() && cs[k].schema != ServerSchema::Http
                        && forall|j: int| 0 <= j < k ==> cs[j].schema == ServerSchema::Http;
                    if w < i { assert(cs[w].schema == ServerSchema::Http); }
                    if w > i { assert(cs[i as int].schema == ServerSchema::Http); }
                    assert(w == i);
                }
                return Err(KPGError::new_with_string(KPGErrorCode::KPGServerNotSupportSchema, m));
            }
            i = i + 1;
        }
        Ok(KPGHttp { name, server_context })
    }
}

impl KPGServer for KPGHttp {
    /// The server's name.
    fn get_name(&self) -> (res: String)
        ensures
            res == self.name,
    {
        self.name.clone()
    }

    /// The first context named `name`.
    fn get_context(&self, name: String) -> (res: Option<ServerContext>)
        ensures
            res == find_context_spec(self.server_context@, name@),
    {
        find_context(&self.server_context, &name)
    }
}

} // verus!
