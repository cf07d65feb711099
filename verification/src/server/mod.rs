//! The gateway's servers: their listening contexts, the API servers, the
//! media servers and the bodies the API accepts.

use vstd::prelude::*;
use crate::config::{ServerSchema, server_schema_name};
use crate::util::text::{decimal, string_of, append_str, append_decimal};

pub mod api;
pub mod controller;
pub mod http;
pub mod media;
pub mod media_server;

verus! {

/// Where a server listens for one protocol.
#[derive(Debug, Clone)]
pub struct ServerContext {
    pub schema: ServerSchema,
    pub name: String,
    pub address: String,
    pub port: u16,
}

/// A server of the gateway, as the factory sees it.
pub trait KPGServer {
    /// The server's name.
    fn get_name(&self) -> String;

    /// The context named `name`, if the server has one.
    fn get_context(&self, name: String) -> Option<ServerContext>;
}

/// The first context named `name`, copied, if there is one.
pub open spec fn find_context_spec(contexts: Seq<ServerContext>, name: Seq<char>) -> Option<ServerContext> {
    if exists|i: int| 0 <= i < contexts.len() && contexts[i].name@ == name
        && forall|j: int| 0 <= j < i ==> contexts[j].name@ != name {
        Some(contexts[choose|i: int| 0 <= i < contexts.len() && contexts[i].name@ == name
            && forall|j: int| 0 <= j < i ==> contexts[j].name@ != name])
    } else {
        None
    }
}

/// A copy of a context.
pub fn clone_context(c: &ServerContext) -> (res: ServerContext)
    ensures
        res == *c,
{
    ServerContext { schema: c.schema, name: c.name.clone(), address: c.address.clone(), port: c.port }
}

/// The first context named `name`, copied, if there is one.
pub fn find_context(contexts: &Vec<ServerContext>, name: &String) -> (res: Option<ServerContext>)
    ensures
        res == find_context_spec(contexts@, name@),
{
    let mut i: usize = 0;
    while i < contexts.len()
        invariant
            i <= contexts.len(),
            forall|j: int| 0 <= j < i ==> contexts@[j].name@ != name@,
        decreases contexts.len() - i,
    {
        if contexts[i].name == *name {
            let res = clone_context(&contexts[i]);
            proof {
                let w = choose|k: int| 0 <= k < contexts@.len() && contexts@[k].name@ == name@
                    && forall|j: int| 0 <= j < k ==> contexts@[j].name@ != name@;
                assert(0 <= i < contexts@.len() && contexts@[i as int].name@ == name@
                    && forall|j: int| 0 <= j < i ==> contexts@[j].name@ != name@);
                if w < i {
                    assert(contexts@[w].name@ != name@);
                } else if w > i {
                    assert(contexts@[i as int].name@ != name@);
                }
            }
            return Some(res);
        }
        i = i + 1;
    }
    None
}

/// The text `Debug` prints for a string: the string in double quotes, with
/// quotes, backslashes and unprintable characters escaped.
pub uninterp spec fn str_debug(s: Seq<char>) -> Seq<char>;

/// Calls `format!("{:?}", s)`; the contract claims that its result is the
/// one named by `str_debug` on the same text.
#[verifier::external_body]
pub(crate) fn debug_str(s: &str) -> (res: String)
    ensures
        res@ == str_debug(s@),
{
    format!("{:?}", s)
}

/// The `Debug` text of a context.
pub open spec fn context_debug_spec(c: ServerContext) -> Seq<char> {
    "ServerContext { schema: "@ + server_schema_name(c.schema)@
        + ", name: "@ + str_debug(c.name@)
        + ", address: "@ + str_debug(c.address@)
        + ", port: "@ + decimal(c.port as nat) + " }"@
}

/// The `Debug` text of a context.
pub fn context_debug(c: &ServerContext) -> (res: String)
    ensures
        res@ == context_debug_spec(*c),
{
    let mut s = string_of("ServerContext { schema: ");
    append_str(&mut s, c.schema.name());
    append_str(&mut s, ", name: ");
    let n = debug_str(c.name.as_str());
    append_str(&mut s, n.as_str());
    append_str(&mut s, ", address: ");
    let a = debug_str(c.address.as_str());
    append_str(&mut s, a.as_str());
    append_str(&mut s, ", port: ");
    append_decimal(&mut s, c.port as u64);
    append_str(&mut s, " }");
    proof {
        reveal_strlit("ServerContext { schema: ");
        reveal_strlit(", name: ");
        reveal_strlit(", address: ");
        reveal_strlit(", port: ");
        reveal_strlit(" }");
    }
    assert(s@ =~= context_debug_spec(*c));
    s
}

} // verus!
