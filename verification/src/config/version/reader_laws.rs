//! What the version 3.0.0 reader keeps of the JSON it reads.

use vstd::prelude::*;
use crate::config::json::{JsonNode, JsonValue, get_spec, as_str_spec, as_array_spec};
use crate::config::{ServerType, ServerSchema, ServerTokenTypeView, ServerView, RootView};
use crate::config::version::version_300::{
    Outcome, outcome_list, server_group_item, server_group_decoder, server_item, server_decoder, root_fold, root_step,
    parse_root_spec, empty_root,
};

verus! {

/// A list that reads holds, in order, what each element reads to.
pub proof fn lemma_outcome_list_elements<T>(a: Seq<JsonNode>, f: spec_fn(JsonNode, int) -> Outcome<T>, n: int)
    requires
        0 <= n,
        outcome_list(a, f, n) is Good,
    ensures
        outcome_list(a, f, n)->Good_0.len() == n,
        forall|j: int| 0 <= j < n ==> f(a[j], j) == Outcome::Good(#[trigger] outcome_list(a, f, n)->Good_0[j]),
    decreases n,
{
    if n > 0 {
        lemma_outcome_list_elements(a, f, n - 1);
        let s = outcome_list(a, f, n - 1)->Good_0;
        let whole = outcome_list(a, f, n)->Good_0;
        assert forall|j: int| 0 <= j < n implies f(a[j], j) == Outcome::Good(#[trigger] whole[j]) by {
            if j < n - 1 {
                assert(whole[j] == s[j]);
            }
        }
    }
}

/// The token of a media server's group given as a JSON object: its server
/// side is the object's `server` member and its client side the object's
/// `client` member, each the empty text where the member is absent.
pub proof fn lemma_media_token_object(g: JsonNode, fresh: Seq<char>, tv: JsonNode)
    requires
        server_group_item(g, ServerType::Media, fresh) is Good,
        get_spec(g, "token"@) == Some(tv),
        tv.value is Object,
    ensures
        server_group_item(g, ServerType::Media, fresh)->Good_0.token == (ServerTokenTypeView::CSToken {
            server: match get_spec(tv, "server"@) { Some(v) => as_str_spec(v)->Some_0, None => Seq::empty() },
            client: match get_spec(tv, "client"@) { Some(v) => as_str_spec(v)->Some_0, None => Seq::empty() },
        }),
        get_spec(tv, "server"@) matches Some(v) ==> as_str_spec(v) is Some,
        get_spec(tv, "client"@) matches Some(v) ==> as_str_spec(v) is Some,
{
}

/// The token of a media server's group given as a JSON string: for an RTMP
/// group both sides are the string's JSON text, for an HTTP group it is the
/// single token; without a token an RTMP group gets empty sides and an HTTP
/// group an empty single token.
pub proof fn lemma_media_token_plain(g: JsonNode, fresh: Seq<char>)
    requires
        server_group_item(g, ServerType::Media, fresh) is Good,
    ensures
        ({
            let gv = server_group_item(g, ServerType::Media, fresh)->Good_0;
            match get_spec(g, "token"@) {
                None => if gv.schema == ServerSchema::Rtmp {
                    gv.token == (ServerTokenTypeView::CSToken { server: Seq::empty(), client: Seq::empty() })
                } else {
                    gv.schema == ServerSchema::Http && gv.token == (ServerTokenTypeView::SingleToken { token: Seq::empty() })
                },
                Some(tv) => tv.value is Str ==> if gv.schema == ServerSchema::Rtmp {
                    gv.token == (ServerTokenTypeView::CSToken { server: tv.text@, client: tv.text@ })
                } else {
                    gv.schema == ServerSchema::Http && gv.token == (ServerTokenTypeView::SingleToken { token: tv.text@ })
                },
            }
        }),
{
}

/// In a media server that reads, each group whose token is a JSON object
/// gets the object's `server` member as its server-side token and its
/// `client` member as its client-side token (empty where absent).
pub proof fn lemma_media_server_tokens(it: JsonNode, fresh: Seq<Seq<char>>, items: Seq<JsonNode>, j: int, tv: JsonNode)
    requires
        server_item(it, fresh) is Good,
        server_item(it, fresh)->Good_0.target == ServerType::Media,
        get_spec(it, "group"@) matches Some(gv) && as_array_spec(gv) == Some(items),
        0 <= j < items.len(),
        get_spec(items[j], "token"@) == Some(tv),
        tv.value is Object,
    ensures
        server_item(it, fresh)->Good_0.group.len() == items.len(),
        server_item(it, fresh)->Good_0.group[j].token == (ServerTokenTypeView::CSToken {
            server: match get_spec(tv, "server"@) { Some(v) => as_str_spec(v)->Some_0, None => Seq::empty() },
            client: match get_spec(tv, "client"@) { Some(v) => as_str_spec(v)->Some_0, None => Seq::empty() },
        }),
{
    let f = server_group_decoder(ServerType::Media, fresh);
    lemma_outcome_list_elements(items, f, items.len() as int);
    let gs = outcome_list(items, f, items.len() as int)->Good_0;
    assert(f(items[j], j) == Outcome::Good(gs[j]));
    lemma_media_token_object(items[j], fresh[j], tv);
}


/// Whether server `x` is what element `s` of the `server` member at
/// position `m` of the root's members reads to.
pub open spec fn read_from_member(fields: Seq<(String, JsonNode)>, fresh: Seq<Seq<Seq<char>>>, m: int, s: int, x: ServerView) -> bool {
    &&& 0 <= m < fields.len()
    &&& fields[m].0@ == "server"@
    &&& as_array_spec(fields[m].1) matches Some(items) && 0 <= s < items.len()
        && server_item(items[s], fresh[s]) == Outcome::Good(x)
}

proof fn lemma_root_fold_server(fields: Seq<(String, JsonNode)>, fresh: Seq<Seq<Seq<char>>>, n: int, k: int)
    requires
        0 <= n <= fields.len(),
        root_fold(fields, fresh, n) is Good,
        0 <= k < root_fold(fields, fresh, n)->Good_0.server.len(),
    ensures
        exists|m: int, s: int| m < n && #[trigger] read_from_member(fields, fresh, m, s,
            root_fold(fields, fresh, n)->Good_0.server[k]),
    decreases n,
{
    if n == 0 {
        assert(root_fold(fields, fresh, n) == Outcome::<RootView>::Good(empty_root()));
        assert(empty_root().server.len() == 0);
    } else {
        let prev = root_fold(fields, fresh, n - 1)->Good_0;
        let r = root_fold(fields, fresh, n)->Good_0;
        let key = fields[n - 1].0@;
        let value = fields[n - 1].1;
        reveal_strlit("version");
        reveal_strlit("playlist");
        reveal_strlit("scene");
        reveal_strlit("output");
        reveal_strlit("server");
        reveal_strlit("instance");
        assert(root_fold(fields, fresh, n - 1) is Good);
        assert(root_fold(fields, fresh, n) == root_step(prev, key, value, fresh));
        if key == "server"@ {
            assert("version"@.len() == 7 && "server"@.len() == 6);
            assert("playlist"@.len() == 8 && "scene"@.len() == 5);
            assert("output"@[0] == 'o' && "server"@[0] == 's');
            assert(key != "version"@ && key != "playlist"@ && key != "scene"@ && key != "output"@);
            assert(as_array_spec(value) is Some);
            let items = as_array_spec(value)->Some_0;
            let f = server_decoder(fresh);
            lemma_outcome_list_elements(items, f, items.len() as int);
            let ss = outcome_list(items, f, items.len() as int)->Good_0;
            assert(r.server == prev.server + ss);
            if k < prev.server.len() {
                assert(r.server[k] == prev.server[k]);
                lemma_root_fold_server(fields, fresh, n - 1, k);
                let (m, s) = choose|m: int, s: int| m < n - 1 && #[trigger] read_from_member(fields, fresh, m, s, prev.server[k]);
                assert(read_from_member(fields, fresh, m, s, r.server[k]));
            } else {
                let s = k - prev.server.len();
                assert(r.server[k] == ss[s]);
                assert(f(items[s], s) == Outcome::Good(ss[s]));
                assert(read_from_member(fields, fresh, n - 1, s, r.server[k]));
            }
        } else {
            assert(r.server == prev.server);
            lemma_root_fold_server(fields, fresh, n - 1, k);
            let (m, s) = choose|m: int, s: int| m < n - 1 && #[trigger] read_from_member(fields, fresh, m, s, prev.server[k]);
            assert(read_from_member(fields, fresh, m, s, r.server[k]));
        }
    }
}

/// Every server of a configuration that reads is what some element of a
/// `server` member of the root object reads to (and so, by
/// `lemma_media_server_tokens`, its groups' tokens are those the JSON
/// gives).
pub proof fn lemma_root_servers_from_members(v: JsonNode, fresh: Seq<Seq<Seq<char>>>, k: int)
    requires
        parse_root_spec(v, fresh) is Good,
        0 <= k < parse_root_spec(v, fresh)->Good_0.server.len(),
    ensures
        v.value is Object,
        exists|m: int, s: int| #[trigger] read_from_member(v.value->Object_0@, fresh, m, s,
            parse_root_spec(v, fresh)->Good_0.server[k]),
{
    let fields = v.value->Object_0@;
    assert(parse_root_spec(v, fresh) == root_fold(fields, fresh, fields.len() as int));
    lemma_root_fold_server(fields, fresh, fields.len() as int, k);
}

} // verus!
