//! The parser of the configuration's version 3.0.0 JSON form.

use vstd::prelude::*;
use crate::config::json::{
    JsonNode, JsonValue, member, get_spec, as_str_spec, as_i64_spec, as_array_spec,
};
use crate::config::decode::{
    decode_list, lemma_decode_list_stuck, decode_resource_detail, decode_resource_directory,
    decode_output_detail, decode_scene_list, decode_instance_list, read_resource_detail,
    read_resource_directory, read_output_detail, read_scene_list, read_instance_list,
};
use crate::config::{
    Root, RootView, Playlist, PlaylistView, ResourceType, ResourceTypeView, Output, OutputView,
    OutputType, OutputTypeView, Server, ServerView, ServerGroup, ServerGroupView, ServerType,
    ServerSchema, ServerTokenType, ServerTokenTypeView, strings_view, playlists_view,
    resources_view, outputs_view, output_types_view, servers_view, server_groups_view,
};
use crate::util::error::{KPGError, KPGErrorCode, KPGErrorView};
use crate::util::text::{str_equal, string_of, append_str};
use crate::util::rand::{rand_string, is_rand_name};
use crate::config::version::ParseConfig;
use crate::config::json::{json_from_slice, parse_json_slice};

verus! {

/// How reading a part of the configuration ends: with a value, with an
/// error and its message, or with a panic of the reader.
pub enum Outcome<T> {
    Good(T),
    Bad(Seq<char>),
    Crash,
}

/// The outcome of reading each element of a list in order, stopping at the
/// first element that does not read.
pub open spec fn outcome_list<T>(a: Seq<JsonNode>, f: spec_fn(JsonNode, int) -> Outcome<T>, n: int) -> Outcome<Seq<T>>
    decreases n,
{
    if n <= 0 {
        Outcome::Good(Seq::empty())
    } else {
        match outcome_list(a, f, n - 1) {
            Outcome::Good(s) => match f(a[n - 1], n - 1) {
                Outcome::Good(t) => Outcome::Good(s.push(t)),
                Outcome::Bad(m) => Outcome::Bad(m),
                Outcome::Crash => Outcome::Crash,
            },
            Outcome::Bad(m) => Outcome::Bad(m),
            Outcome::Crash => Outcome::Crash,
        }
    }
}

/// Once a prefix of a list stops, every longer prefix stops the same way.
pub proof fn lemma_outcome_list_stuck<T>(a: Seq<JsonNode>, f: spec_fn(JsonNode, int) -> Outcome<T>, i: int, n: int)
    requires
        0 <= i <= n,
        !(outcome_list(a, f, i) is Good),
    ensures
        outcome_list(a, f, n) == outcome_list(a, f, i),
    decreases n - i,
{
    if i < n {
        lemma_outcome_list_stuck(a, f, i, n - 1);
    }
}

/// A member that, where present, must be a string; `default` where absent.
pub open spec fn str_or(it: JsonNode, key: Seq<char>, default: Seq<char>) -> Option<Seq<char>> {
    match get_spec(it, key) {
        None => Some(default),
        Some(v) => as_str_spec(v),
    }
}

/// A member that, where present, must be an `i64`; `default` where absent.
pub open spec fn int_or(it: JsonNode, key: Seq<char>, default: i64) -> Option<i64> {
    match get_spec(it, key) {
        None => Some(default),
        Some(v) => as_i64_spec(v),
    }
}

/// A member that must be present (else the error `missing`) and a string
/// (else the error `invalid`).
pub open spec fn need_str(it: JsonNode, key: Seq<char>, missing: Seq<char>, invalid: Seq<char>) -> Outcome<Seq<char>> {
    match get_spec(it, key) {
        None => Outcome::Bad(missing),
        Some(v) => match as_str_spec(v) {
            None => Outcome::Bad(invalid),
            Some(s) => Outcome::Good(s),
        },
    }
}

/// A value, or the error `msg` where there is none.
pub open spec fn from_option<T>(o: Option<T>, msg: Seq<char>) -> Outcome<T> {
    match o {
        Some(t) => Outcome::Good(t),
        None => Outcome::Bad(msg),
    }
}

/// The resource used where an object names no known type.
pub open spec fn default_resource() -> ResourceTypeView {
    ResourceTypeView::ResourceSingle { path: Seq::empty() }
}

/// The error of a playlist resource that does not read.
pub open spec fn resource_error() -> Seq<char> {
    "playlist resource invalid json format"@
}

/// One entry of a playlist's `resource` list: a string is a single file; an
/// object is read by its `type` member (`detail` or `directory`; `group` is
/// refused; another type, or none, gives an empty single file); a `type`
/// that is not a string makes the reader panic; any other value is refused.
pub open spec fn resource_item(r: JsonNode) -> Outcome<ResourceTypeView> {
    match r.value {
        JsonValue::Str(s) => Outcome::Good(ResourceTypeView::ResourceSingle { path: s@ }),
        JsonValue::Object(fields) => match member(fields@, "type"@) {
            None => Outcome::Good(default_resource()),
            Some(t) => match as_str_spec(t) {
                None => Outcome::Crash,
                Some(ts) => if ts == "detail"@ {
                    from_option(decode_resource_detail(r), resource_error())
                } else if ts == "directory"@ {
                    from_option(decode_resource_directory(r), resource_error())
                } else if ts == "group"@ {
                    Outcome::Bad(resource_error())
                } else {
                    Outcome::Good(default_resource())
                },
            },
        },
        _ => Outcome::Bad(resource_error()),
    }
}

pub open spec fn resource_decoder() -> spec_fn(JsonNode, int) -> Outcome<ResourceTypeView> {
    |x: JsonNode, i: int| resource_item(x)
}

/// The resources of a playlist element: its `resource` member, which must
/// be a list.
pub open spec fn playlist_resources(it: JsonNode) -> Outcome<Seq<ResourceTypeView>> {
    match get_spec(it, "resource"@) {
        None => Outcome::Bad("invalid playlist resource json format"@),
        Some(rv) => match as_array_spec(rv) {
            None => Outcome::Bad("invalid playlist resource json format"@),
            Some(items) => outcome_list(items, resource_decoder(), items.len() as int),
        },
    }
}

/// One element of `playlist`: its name, which must be a string; its start
/// point (0 where absent), play mode (`list` where absent), universal seek
/// and end (-1 where absent), which must have the right type; and its
/// resources. The reverse seek and end repeat the seek and end.
pub open spec fn playlist_item(it: JsonNode) -> Outcome<PlaylistView> {
    let name = need_str(it, "name"@, "playlist name can not be empty"@, "playlist name invalid json format"@);
    let sp = from_option(int_or(it, "start_point"@, 0i64), "playlist start_point invalid json format"@);
    let pm = from_option(str_or(it, "play_mode"@, "list"@), "playlist play_mode invalid json format"@);
    let us = from_option(int_or(it, "universal_seek"@, -1i64), "playlist universal_seek invalid json format"@);
    let ue = from_option(int_or(it, "universal_end"@, -1i64), "playlist universal_end invalid json format"@);
    if name is Bad {
        Outcome::Bad(name->Bad_0)
    } else if sp is Bad {
        Outcome::Bad(sp->Bad_0)
    } else if pm is Bad {
        Outcome::Bad(pm->Bad_0)
    } else if us is Bad {
        Outcome::Bad(us->Bad_0)
    } else if ue is Bad {
        Outcome::Bad(ue->Bad_0)
    } else {
        match playlist_resources(it) {
            Outcome::Good(rs) => Outcome::Good(PlaylistView {
                name: name->Good_0,
                resource: rs,
                start_point: sp->Good_0 as usize,
                play_mode: pm->Good_0,
                universal_seek: us->Good_0,
                universal_end: ue->Good_0,
                universal_reverse_seek: us->Good_0,
                universal_reverse_end: ue->Good_0,
            }),
            Outcome::Bad(m) => Outcome::Bad(m),
            Outcome::Crash => Outcome::Crash,
        }
    }
}

pub open spec fn playlist_decoder() -> spec_fn(JsonNode, int) -> Outcome<PlaylistView> {
    |x: JsonNode, i: int| playlist_item(x)
}

/// The error of an output destination that does not read.
pub open spec fn output_group_error() -> Seq<char> {
    "playlist output invalid json format"@
}

/// One destination of an output: a string is a single path, an object is a
/// detailed destination.
pub open spec fn output_group_item(g: JsonNode) -> Outcome<OutputTypeView> {
    match g.value {
        JsonValue::Str(s) => Outcome::Good(OutputTypeView::OutputSingle { path: s@ }),
        JsonValue::Object(_) => from_option(decode_output_detail(g), output_group_error()),
        _ => Outcome::Bad(output_group_error()),
    }
}

pub open spec fn output_group_decoder() -> spec_fn(JsonNode, int) -> Outcome<OutputTypeView> {
    |x: JsonNode, i: int| output_group_item(x)
}

/// One element of `output`: its name and source, which must be strings,
/// and its destinations, which must be a list.
pub open spec fn output_item(it: JsonNode) -> Outcome<OutputView> {
    let name = need_str(it, "name"@, "output name can not be empty"@, "output name invalid json format"@);
    let source = need_str(it, "source"@, "output source can not be empty"@, "output source invalid json format"@);
    if name is Bad {
        Outcome::Bad(name->Bad_0)
    } else if source is Bad {
        Outcome::Bad(source->Bad_0)
    } else {
        match get_spec(it, "group"@) {
            None => Outcome::Bad("output group can not be empty"@),
            Some(gv) => match as_array_spec(gv) {
                None => Outcome::Bad("output group invalid json format"@),
                Some(items) => match outcome_list(items, output_group_decoder(), items.len() as int) {
                    Outcome::Good(group) => Outcome::Good(OutputView { name: name->Good_0, source: source->Good_0, group }),
                    Outcome::Bad(m) => Outcome::Bad(m),
                    Outcome::Crash => Outcome::Crash,
                },
            },
        }
    }
}

pub open spec fn output_decoder() -> spec_fn(JsonNode, int) -> Outcome<OutputView> {
    |x: JsonNode, i: int| output_item(x)
}

/// The schema named by a group's `schema` member, which must be present, a
/// string, and `rtmp` or `http`; an unknown schema is reported with its
/// JSON text.
pub open spec fn group_schema(g: JsonNode) -> Outcome<ServerSchema> {
    match get_spec(g, "schema"@) {
        None => Outcome::Bad("server group schema can not be empty"@),
        Some(v) => match as_str_spec(v) {
            None => Outcome::Bad("server group address invalid json format"@),
            Some(s) => if s == "rtmp"@ {
                Outcome::Good(ServerSchema::Rtmp)
            } else if s == "http"@ {
                Outcome::Good(ServerSchema::Http)
            } else {
                Outcome::Bad("server group not support schema. schema: "@ + v.text@)
            },
        },
    }
}

/// The port of a group: its `port` member, which must be present and an
/// `i64`, cut to its low sixteen bits.
pub open spec fn group_port(g: JsonNode) -> Outcome<u32> {
    match get_spec(g, "port"@) {
        None => Outcome::Bad("server group port can not be empty"@),
        Some(v) => match as_i64_spec(v) {
            None => Outcome::Bad("server group port invalid json format"@),
            Some(i) => Outcome::Good((i as u16) as u32),
        },
    }
}

/// The token of a group. A media server takes a string token as the token
/// of both sides for RTMP and as the single token for HTTP, and an object as
/// separate server and client tokens; without a token it gets empty ones. An
/// API server takes the JSON text of whatever token is given.
pub open spec fn group_token(g: JsonNode, target: ServerType, schema: ServerSchema) -> Outcome<ServerTokenTypeView> {
    match target {
        ServerType::Media => match get_spec(g, "token"@) {
            None => match schema {
                ServerSchema::Rtmp => Outcome::Good(ServerTokenTypeView::CSToken { server: Seq::empty(), client: Seq::empty() }),
                ServerSchema::Http => Outcome::Good(ServerTokenTypeView::SingleToken { token: Seq::empty() }),
                ServerSchema::Unset => Outcome::Bad("invalid server group schema"@),
            },
            Some(tv) => match tv.value {
                JsonValue::Str(_) => match schema {
                    ServerSchema::Rtmp => Outcome::Good(ServerTokenTypeView::CSToken { server: tv.text@, client: tv.text@ }),
                    ServerSchema::Http => Outcome::Good(ServerTokenTypeView::SingleToken { token: tv.text@ }),
                    ServerSchema::Unset => Outcome::Bad("invalid server group schema"@),
                },
                JsonValue::Object(_) => match str_or(tv, "server"@, Seq::empty()) {
                    None => Outcome::Bad("server token server-side token invalid json format"@),
                    Some(server) => match str_or(tv, "client"@, Seq::empty()) {
                        None => Outcome::Bad("server token client-side token invalid json format"@),
                        Some(client) => Outcome::Good(ServerTokenTypeView::CSToken { server, client }),
                    },
                },
                _ => Outcome::Bad("server token invalid json format"@),
            },
        },
        ServerType::Api => match get_spec(g, "token"@) {
            None => Outcome::Good(ServerTokenTypeView::SingleToken { token: Seq::empty() }),
            Some(tv) => Outcome::Good(ServerTokenTypeView::SingleToken { token: tv.text@ }),
        },
        ServerType::Unset => Outcome::Bad("server type invalid"@),
    }
}

/// The name of a group: its `name` member, which must be a string, or
/// `fresh` where it has none.
pub open spec fn group_name(g: JsonNode, fresh: Seq<char>) -> Outcome<Seq<char>> {
    match get_spec(g, "name"@) {
        None => Outcome::Good(fresh),
        Some(v) => from_option(as_str_spec(v), "server group invalid json format"@),
    }
}

/// One group of a server; `fresh` is the name it gets where it has none.
/// Its name, address (`127.0.0.1` where absent), schema, port and token are
/// read in that order.
pub open spec fn server_group_item(g: JsonNode, target: ServerType, fresh: Seq<char>) -> Outcome<ServerGroupView> {
    let name = group_name(g, fresh);
    let address = from_option(str_or(g, "address"@, "127.0.0.1"@), "server group address invalid json format"@);
    let schema = group_schema(g);
    let port = group_port(g);
    if name is Bad {
        Outcome::Bad(name->Bad_0)
    } else if address is Bad {
        Outcome::Bad(address->Bad_0)
    } else if schema is Bad {
        Outcome::Bad(schema->Bad_0)
    } else if port is Bad {
        Outcome::Bad(port->Bad_0)
    } else {
        match group_token(g, target, schema->Good_0) {
            Outcome::Good(token) => Outcome::Good(ServerGroupView {
                name: name->Good_0,
                port: port->Good_0,
                address: address->Good_0,
                token,
                schema: schema->Good_0,
            }),
            Outcome::Bad(m) => Outcome::Bad(m),
            Outcome::Crash => Outcome::Crash,
        }
    }
}

pub open spec fn server_group_decoder(target: ServerType, fresh: Seq<Seq<char>>) -> spec_fn(JsonNode, int) -> Outcome<ServerGroupView> {
    |x: JsonNode, j: int| server_group_item(x, target, fresh[j])
}

/// The target named by a server's `target` member: `media` or `api`.
pub open spec fn server_target(it: JsonNode) -> Outcome<ServerType> {
    match need_str(it, "target"@, "server target can not be empty"@, "server target invalid json format"@) {
        Outcome::Good(t) => if t == "media"@ {
            Outcome::Good(ServerType::Media)
        } else if t == "api"@ {
            Outcome::Good(ServerType::Api)
        } else {
            Outcome::Bad("not support server target"@)
        },
        Outcome::Bad(m) => Outcome::Bad(m),
        Outcome::Crash => Outcome::Crash,
    }
}

/// One element of `server`: its name, target and groups; its groups
/// without a name take theirs from `fresh`, by position. A missing or
/// malformed `group` member is reported in the words of the name's errors.
pub open spec fn server_item(it: JsonNode, fresh: Seq<Seq<char>>) -> Outcome<ServerView> {
    let name = need_str(it, "name"@, "server name can not be empty"@, "server name invalid json format"@);
    let target = server_target(it);
    if name is Bad {
        Outcome::Bad(name->Bad_0)
    } else if target is Bad {
        Outcome::Bad(target->Bad_0)
    } else {
        match get_spec(it, "group"@) {
            None => Outcome::Bad("server name can not be empty"@),
            Some(gv) => match as_array_spec(gv) {
                None => Outcome::Bad("server name invalid json format"@),
                Some(items) => match outcome_list(items, server_group_decoder(target->Good_0, fresh), items.len() as int) {
                    Outcome::Good(group) => Outcome::Good(ServerView { name: name->Good_0, target: target->Good_0, group }),
                    Outcome::Bad(m) => Outcome::Bad(m),
                    Outcome::Crash => Outcome::Crash,
                },
            },
        }
    }
}

pub open spec fn server_decoder(fresh: Seq<Seq<Seq<char>>>) -> spec_fn(JsonNode, int) -> Outcome<ServerView> {
    |x: JsonNode, s: int| server_item(x, fresh[s])
}

/// The configuration before any member is read.
pub open spec fn empty_root() -> RootView {
    RootView {
        version: Seq::empty(),
        playlist: Seq::empty(),
        scene: Seq::empty(),
        output: Seq::empty(),
        server: Seq::empty(),
        instance: Seq::empty(),
    }
}

/// Reading one member of the root object into the configuration read so
/// far. `version` takes the member's JSON text; `playlist`, `output` and
/// `server` add their elements; `scene` and `instance` replace theirs; other
/// members are skipped.
pub open spec fn root_step(r: RootView, key: Seq<char>, value: JsonNode, fresh: Seq<Seq<Seq<char>>>) -> Outcome<RootView> {
    if key == "version"@ {
        Outcome::Good(RootView { version: value.text@, ..r })
    } else if key == "playlist"@ {
        match as_array_spec(value) {
            None => Outcome::Bad("invalid playlist json format"@),
            Some(items) => match outcome_list(items, playlist_decoder(), items.len() as int) {
                Outcome::Good(ps) => Outcome::Good(RootView { playlist: r.playlist + ps, ..r }),
                Outcome::Bad(m) => Outcome::Bad(m),
                Outcome::Crash => Outcome::Crash,
            },
        }
    } else if key == "scene"@ {
        match decode_scene_list(value) {
            Some(ss) => Outcome::Good(RootView { scene: ss, ..r }),
            None => Outcome::Bad("scene invalid json format"@),
        }
    } else if key == "output"@ {
        match as_array_spec(value) {
            None => Outcome::Bad("invalid output json format"@),
            Some(items) => match outcome_list(items, output_decoder(), items.len() as int) {
                Outcome::Good(os) => Outcome::Good(RootView { output: r.output + os, ..r }),
                Outcome::Bad(m) => Outcome::Bad(m),
                Outcome::Crash => Outcome::Crash,
            },
        }
    } else if key == "server"@ {
        match as_array_spec(value) {
            None => Outcome::Bad("invalid server json format"@),
            Some(items) => match outcome_list(items, server_decoder(fresh), items.len() as int) {
                Outcome::Good(ss) => Outcome::Good(RootView { server: r.server + ss, ..r }),
                Outcome::Bad(m) => Outcome::Bad(m),
                Outcome::Crash => Outcome::Crash,
            },
        }
    } else if key == "instance"@ {
        match decode_instance_list(value) {
            Some(is) => Outcome::Good(RootView { instance: is, ..r }),
            None => Outcome::Bad("instance invalid json format"@),
        }
    } else {
        Outcome::Good(r)
    }
}

/// Reading the first `n` members of the root object.
pub open spec fn root_fold(fields: Seq<(String, JsonNode)>, fresh: Seq<Seq<Seq<char>>>, n: int) -> Outcome<RootView>
    decreases n,
{
    if n <= 0 {
        Outcome::Good(empty_root())
    } else {
        match root_fold(fields, fresh, n - 1) {
            Outcome::Good(r) => root_step(r, fields[n - 1].0@, fields[n - 1].1, fresh),
            Outcome::Bad(m) => Outcome::Bad(m),
            Outcome::Crash => Outcome::Crash,
        }
    }
}

pub proof fn lemma_root_fold_stuck(fields: Seq<(String, JsonNode)>, fresh: Seq<Seq<Seq<char>>>, i: int, n: int)
    requires
        0 <= i <= n,
        !(root_fold(fields, fresh, i) is Good),
    ensures
        root_fold(fields, fresh, n) == root_fold(fields, fresh, i),
    decreases n - i,
{
    if i < n {
        lemma_root_fold_stuck(fields, fresh, i, n - 1);
    }
}

/// The configuration that the version 3.0.0 reader makes of a JSON value,
/// the groups of the `s`-th server without a name taking theirs from
/// `fresh[s]`: the value must be an object, read member by member.
pub open spec fn parse_root_spec(v: JsonNode, fresh: Seq<Seq<Seq<char>>>) -> Outcome<RootView> {
    match v.value {
        JsonValue::Object(fields) => root_fold(fields@, fresh, fields@.len() as int),
        _ => Outcome::Bad("invalid root json format"@),
    }
}

/// How many groups a server element lists.
pub open spec fn group_count(it: JsonNode) -> int {
    match get_spec(it, "group"@) {
        Some(g) => match as_array_spec(g) {
            Some(a) => a.len() as int,
            None => 0,
        },
        None => 0,
    }
}

/// Whether `fresh` holds a name for every group of every server element of
/// every `server` member.
pub open spec fn names_fit(v: JsonNode, fresh: Seq<Seq<Seq<char>>>) -> bool {
    match v.value {
        JsonValue::Object(fields) => forall|k: int| 0 <= k < fields@.len() && fields@[k].0@ == "server"@ ==>
            match #[trigger] as_array_spec(fields@[k].1) {
                Some(items) => items.len() <= fresh.len() && forall|s: int| 0 <= s < items.len() ==>
                    group_count(#[trigger] items[s]) <= fresh[s].len(),
                None => true,
            },
        _ => true,
    }
}

/// The views of a table of names.
pub open spec fn names_view(t: Seq<Vec<String>>) -> Seq<Seq<Seq<char>>> {
    t.map_values(|row: Vec<String>| strings_view(row@))
}


// ----- the reader -----

fn parse_failed(msg: &'static str) -> (res: KPGError)
    ensures
        res@.code == KPGErrorCode::KPGConfigParseFailed,
        res@.error == msg@,
{
    KPGError::new_with_str(KPGErrorCode::KPGConfigParseFailed, msg)
}

/// A member that, where present, must be a string.
fn get_str_or(it: &JsonNode, key: &str, default: &str) -> (res: Option<String>)
    ensures
        crate::config::json::opt_str(res) == str_or(*it, key@, default@),
{
    match it.get(key) {
        None => Some(string_of(default)),
        Some(v) => match v.as_str() {
            None => None,
            Some(s) => Some(s.clone()),
        },
    }
}

/// A member that, where present, must be an `i64`.
fn get_int_or(it: &JsonNode, key: &str, default: i64) -> (res: Option<i64>)
    ensures
        res == int_or(*it, key@, default),
{
    match it.get(key) {
        None => Some(default),
        Some(v) => v.as_i64(),
    }
}

/// Why reading stopped: an error, or a point where the reader panics.
pub enum ParseStop {
    Failed(KPGError),
    Panicked,
}

/// Whether a stop matches an outcome that is not `Good`: an error carries
/// the outcome's message.
pub open spec fn stop_matches<T>(stop: ParseStop, o: Outcome<T>) -> bool {
    match stop {
        ParseStop::Failed(e) => err_matches(e, o),
        ParseStop::Panicked => o is Crash,
    }
}

/// Whether an error is the one an outcome describes.
pub open spec fn err_matches<T>(e: KPGError, o: Outcome<T>) -> bool {
    o == Outcome::<T>::Bad(e@.error) && e@.code == KPGErrorCode::KPGConfigParseFailed
}

fn failed(msg: &'static str) -> (res: ParseStop)
    ensures
        res matches ParseStop::Failed(e) && e@.code == KPGErrorCode::KPGConfigParseFailed && e@.error == msg@,
{
    ParseStop::Failed(parse_failed(msg))
}

/// Reads a member that must be present and a string.
fn read_need_str(it: &JsonNode, key: &str, missing: &'static str, invalid: &'static str) -> (res: Result<String, KPGError>)
    ensures
        match res {
            Ok(s) => need_str(*it, key@, missing@, invalid@) == Outcome::Good(s@),
            Err(e) => err_matches(e, need_str(*it, key@, missing@, invalid@)),
        },
{
    match it.get(key) {
        None => Err(parse_failed(missing)),
        Some(v) => match v.as_str() {
            None => Err(parse_failed(invalid)),
            Some(s) => Ok(s.clone()),
        },
    }
}

/// Reads one entry of a playlist's `resource` list.
pub fn parse_resource_item(r: &JsonNode) -> (res: Result<ResourceType, ParseStop>)
    ensures
        match res {
            Ok(x) => resource_item(*r) == Outcome::Good(x@),
            Err(stop) => stop_matches(stop, resource_item(*r)),
        },
{
    match &r.value {
        JsonValue::Str(s) => Ok(ResourceType::ResourceSingle { path: s.clone() }),
        JsonValue::Object(_) => match r.get("type") {
            None => Ok(ResourceType::ResourceSingle { path: String::new() }),
            Some(t) => match t.as_str() {
                None => Err(ParseStop::Panicked),
                Some(ts) => {
                    if str_equal(ts.as_str(), "detail") {
                        match read_resource_detail(r) {
                            Some(x) => Ok(x),
                            None => Err(failed("playlist resource invalid json format")),
                        }
                    } else if str_equal(ts.as_str(), "directory") {
                        match read_resource_directory(r) {
                            Some(x) => Ok(x),
                            None => Err(failed("playlist resource invalid json format")),
                        }
                    } else if str_equal(ts.as_str(), "group") {
                        Err(failed("playlist resource invalid json format"))
                    } else {
                        Ok(ResourceType::ResourceSingle { path: String::new() })
                    }
                },
            },
        },
        _ => Err(failed("playlist resource invalid json format")),
    }
}

/// Reads the `resource` list of a playlist.
fn parse_resource_list(items: &Vec<JsonNode>) -> (res: Result<Vec<ResourceType>, ParseStop>)
    ensures
        match res {
            Ok(rs) => outcome_list(items@, resource_decoder(), items@.len() as int) == Outcome::Good(resources_view(rs@)),
            Err(stop) => stop_matches(stop, outcome_list(items@, resource_decoder(), items@.len() as int)),
        },
{
    let mut out: Vec<ResourceType> = Vec::new();
    let mut i: usize = 0;
    proof {
        assert(resources_view(out@) =~= Seq::empty());
    }
    while i < items.len()
        invariant
            i <= items@.len(),
            outcome_list(items@, resource_decoder(), i as int) == Outcome::Good(resources_view(out@)),
        decreases items@.len() - i,
    {
        match parse_resource_item(&items[i]) {
            Ok(x) => {
                proof {
                    assert(resources_view(out@.push(x)) =~= resources_view(out@).push(x@));
                }
                out.push(x);
            },
            Err(e) => {
                proof {
                    lemma_outcome_list_stuck(items@, resource_decoder(), i + 1, items@.len() as int);
                }
                return Err(e);
            },
        }
        i = i + 1;
    }
    Ok(out)
}

/// Reads one element of `playlist`.
pub fn parse_playlist_item(it: &JsonNode) -> (res: Result<Playlist, ParseStop>)
    ensures
        match res {
            Ok(p) => playlist_item(*it) == Outcome::Good(p@),
            Err(stop) => stop_matches(stop, playlist_item(*it)),
        },
{
    let name = match read_need_str(it, "name", "playlist name can not be empty", "playlist name invalid json format") {
        Ok(n) => n,
        Err(e) => { return Err(ParseStop::Failed(e)); },
    };
    let start_point = match get_int_or(it, "start_point", 0) {
        Some(v) => v as usize,
        None => { return Err(failed("playlist start_point invalid json format")); },
    };
    let play_mode = match get_str_or(it, "play_mode", "list") {
        Some(v) => v,
        None => { return Err(failed("playlist play_mode invalid json format")); },
    };
    let universal_seek = match get_int_or(it, "universal_seek", -1) {
        Some(v) => v,
        None => { return Err(failed("playlist universal_seek invalid json format")); },
    };
    let universal_end = match get_int_or(it, "universal_end", -1) {
        Some(v) => v,
        None => { return Err(failed("playlist universal_end invalid json format")); },
    };
    let items = match it.get("resource") {
        None => { return Err(failed("invalid playlist resource json format")); },
        Some(rv) => match rv.as_array() {
            None => { return Err(failed("invalid playlist resource json format")); },
            Some(a) => a,
        },
    };
    let resource = parse_resource_list(items)?;
    Ok(Playlist {
        name,
        resource,
        start_point,
        play_mode,
        universal_seek,
        universal_end,
        universal_reverse_seek: universal_seek,
        universal_reverse_end: universal_end,
    })
}

/// Reads the `playlist` list.
fn parse_playlist_list(items: &Vec<JsonNode>) -> (res: Result<Vec<Playlist>, ParseStop>)
    ensures
        match res {
            Ok(ps) => outcome_list(items@, playlist_decoder(), items@.len() as int) == Outcome::Good(playlists_view(ps@)),
            Err(stop) => stop_matches(stop, outcome_list(items@, playlist_decoder(), items@.len() as int)),
        },
{
    let mut out: Vec<Playlist> = Vec::new();
    let mut i: usize = 0;
    proof {
        assert(playlists_view(out@) =~= Seq::empty());
    }
    while i < items.len()
        invariant
            i <= items@.len(),
            outcome_list(items@, playlist_decoder(), i as int) == Outcome::Good(playlists_view(out@)),
        decreases items@.len() - i,
    {
        match parse_playlist_item(&items[i]) {
            Ok(x) => {
                proof {
                    assert(playlists_view(out@.push(x)) =~= playlists_view(out@).push(x@));
                }
                out.push(x);
            },
            Err(e) => {
                proof {
                    lemma_outcome_list_stuck(items@, playlist_decoder(), i + 1, items@.len() as int);
                }
                return Err(e);
            },
        }
        i = i + 1;
    }
    Ok(out)
}

/// Reads one destination of an output.
fn parse_output_group_item(g: &JsonNode) -> (res: Result<OutputType, KPGError>)
    ensures
        match res {
            Ok(x) => output_group_item(*g) == Outcome::Good(x@),
            Err(e) => err_matches(e, output_group_item(*g)),
        },
{
    match &g.value {
        JsonValue::Str(s) => Ok(OutputType::OutputSingle { path: s.clone() }),
        JsonValue::Object(_) => match read_output_detail(g) {
            Some(x) => Ok(x),
            None => Err(parse_failed("playlist output invalid json format")),
        },
        _ => Err(parse_failed("playlist output invalid json format")),
    }
}

/// Reads one element of `output`.
pub fn parse_output_item(it: &JsonNode) -> (res: Result<Output, KPGError>)
    ensures
        match res {
            Ok(o) => output_item(*it) == Outcome::Good(o@),
            Err(e) => err_matches(e, output_item(*it)),
        },
{
    let name = read_need_str(it, "name", "output name can not be empty", "output name invalid json format")?;
    let source = read_need_str(it, "source", "output source can not be empty", "output source invalid json format")?;
    let items = match it.get("group") {
        None => { return Err(parse_failed("output group can not be empty")); },
        Some(gv) => match gv.as_array() {
            None => { return Err(parse_failed("output group invalid json format")); },
            Some(a) => a,
        },
    };
    let mut group: Vec<OutputType> = Vec::new();
    let mut i: usize = 0;
    proof {
        assert(output_types_view(group@) =~= Seq::empty());
    }
    let ghost whole = match outcome_list(items@, output_group_decoder(), items@.len() as int) {
        Outcome::Good(g) => Outcome::Good(OutputView { name: name@, source: source@, group: g }),
        Outcome::Bad(m) => Outcome::Bad(m),
        Outcome::Crash => Outcome::Crash,
    };
    assert(output_item(*it) == whole);
    while i < items.len()
        invariant
            i <= items@.len(),
            output_item(*it) == whole,
            whole == match outcome_list(items@, output_group_decoder(), items@.len() as int) {
                Outcome::Good(g) => Outcome::Good(OutputView { name: name@, source: source@, group: g }),
                Outcome::Bad(m) => Outcome::Bad(m),
                Outcome::Crash => Outcome::<OutputView>::Crash,
            },
            outcome_list(items@, output_group_decoder(), i as int) == Outcome::Good(output_types_view(group@)),
        decreases items@.len() - i,
    {
        match parse_output_group_item(&items[i]) {
            Ok(x) => {
                proof {
                    assert(output_types_view(group@.push(x)) =~= output_types_view(group@).push(x@));
                }
                group.push(x);
            },
            Err(e) => {
                proof {
                    lemma_outcome_list_stuck(items@, output_group_decoder(), i + 1, items@.len() as int);
                }
                return Err(e);
            },
        }
        i = i + 1;
    }
    Ok(Output { name, source, group })
}

/// Reads the `output` list.
fn parse_output_list(items: &Vec<JsonNode>) -> (res: Result<Vec<Output>, KPGError>)
    ensures
        match res {
            Ok(os) => outcome_list(items@, output_decoder(), items@.len() as int) == Outcome::Good(outputs_view(os@)),
            Err(e) => err_matches(e, outcome_list(items@, output_decoder(), items@.len() as int)),
        },
{
    let mut out: Vec<Output> = Vec::new();
    let mut i: usize = 0;
    proof {
        assert(outputs_view(out@) =~= Seq::empty());
    }
    while i < items.len()
        invariant
            i <= items@.len(),
            outcome_list(items@, output_decoder(), i as int) == Outcome::Good(outputs_view(out@)),
        decreases items@.len() - i,
    {
        match parse_output_item(&items[i]) {
            Ok(x) => {
                proof {
                    assert(outputs_view(out@.push(x)) =~= outputs_view(out@).push(x@));
                }
                out.push(x);
            },
            Err(e) => {
                proof {
                    lemma_outcome_list_stuck(items@, output_decoder(), i + 1, items@.len() as int);
                }
                return Err(e);
            },
        }
        i = i + 1;
    }
    Ok(out)
}

/// Reads the token of a server group.
fn parse_group_token(g: &JsonNode, target: ServerType, schema: ServerSchema) -> (res: Result<ServerTokenType, KPGError>)
    ensures
        match res {
            Ok(t) => group_token(*g, target, schema) == Outcome::Good(t@),
            Err(e) => err_matches(e, group_token(*g, target, schema)),
        },
{
    match target {
        ServerType::Media => match g.get("token") {
            None => match schema {
                ServerSchema::Rtmp => {
                    let t = ServerTokenType::CSToken { server: String::new(), client: String::new() };
                    assert(t@ =~= (ServerTokenTypeView::CSToken { server: Seq::empty(), client: Seq::empty() }));
                    Ok(t)
                },
                ServerSchema::Http => Ok(ServerTokenType::SingleToken { token: String::new() }),
                ServerSchema::Unset => Err(parse_failed("invalid server group schema")),
            },
            Some(tv) => match &tv.value {
                JsonValue::Str(_) => match schema {
                    ServerSchema::Rtmp => Ok(ServerTokenType::CSToken { server: tv.text.clone(), client: tv.text.clone() }),
                    ServerSchema::Http => Ok(ServerTokenType::SingleToken { token: tv.text.clone() }),
                    ServerSchema::Unset => Err(parse_failed("invalid server group schema")),
                },
                JsonValue::Object(_) => {
                    proof {
                        reveal_strlit("");
                        assert(""@ =~= Seq::<char>::empty());
                    }
                    let server = match get_str_or(tv, "server", "") {
                        Some(v) => v,
                        None => { return Err(parse_failed("server token server-side token invalid json format")); },
                    };
                    let client = match get_str_or(tv, "client", "") {
                        Some(v) => v,
                        None => { return Err(parse_failed("server token client-side token invalid json format")); },
                    };
                    Ok(ServerTokenType::CSToken { server, client })
                },
                _ => Err(parse_failed("server token invalid json format")),
            },
        },
        ServerType::Api => match g.get("token") {
            None => Ok(ServerTokenType::SingleToken { token: String::new() }),
            Some(tv) => Ok(ServerTokenType::SingleToken { token: tv.text.clone() }),
        },
        ServerType::Unset => Err(parse_failed("server type invalid")),
    }
}

/// Reads the schema of a server group.
fn parse_group_schema(g: &JsonNode) -> (res: Result<ServerSchema, KPGError>)
    ensures
        match res {
            Ok(x) => group_schema(*g) == Outcome::Good(x),
            Err(e) => err_matches(e, group_schema(*g)),
        },
{
    match g.get("schema") {
        None => Err(parse_failed("server group schema can not be empty")),
        Some(v) => match v.as_str() {
            None => Err(parse_failed("server group address invalid json format")),
            Some(sv) => {
                proof { reveal_strlit("rtmp"); reveal_strlit("http"); }
                if str_equal(sv.as_str(), "rtmp") {
                    Ok(ServerSchema::Rtmp)
                } else if str_equal(sv.as_str(), "http") {
                    Ok(ServerSchema::Http)
                } else {
                    let mut m = string_of("server group not support schema. schema: ");
                    append_str(&mut m, v.text.as_str());
                    Err(KPGError::new_with_string(KPGErrorCode::KPGConfigParseFailed, m))
                }
            },
        },
    }
}

/// Reads one group of a server; `fresh` is its name where it has none.
pub fn parse_server_group(g: &JsonNode, target: ServerType, fresh: &String) -> (res: Result<ServerGroup, KPGError>)
    ensures
        match res {
            Ok(x) => server_group_item(*g, target, fresh@) == Outcome::Good(x@),
            Err(e) => err_matches(e, server_group_item(*g, target, fresh@)),
        },
{
    let name = match g.get("name") {
        None => fresh.clone(),
        Some(v) => match v.as_str() {
            Some(s) => s.clone(),
            None => { return Err(parse_failed("server group invalid json format")); },
        },
    };
    let address = match get_str_or(g, "address", "127.0.0.1") {
        Some(a) => a,
        None => { return Err(parse_failed("server group address invalid json format")); },
    };
    let schema = parse_group_schema(g)?;
    let port: u32 = match g.get("port") {
        None => { return Err(parse_failed("server group port can not be empty")); },
        Some(v) => match v.as_i64() {
            None => { return Err(parse_failed("server group port invalid json format")); },
            Some(i) => (i as u16) as u32,
        },
    };
    let token = parse_group_token(g, target, schema)?;
    Ok(ServerGroup { name, port, address, token, schema })
}

/// Reads one element of `server`; its groups without a name take theirs from
/// `fresh`, by position.
pub fn parse_server_item(it: &JsonNode, fresh: &Vec<String>) -> (res: Result<Server, KPGError>)
    requires
        group_count(*it) <= fresh@.len(),
    ensures
        match res {
            Ok(x) => server_item(*it, strings_view(fresh@)) == Outcome::Good(x@),
            Err(e) => err_matches(e, server_item(*it, strings_view(fresh@))),
        },
{
    let name = read_need_str(it, "name", "server name can not be empty", "server name invalid json format")?;
    let tname = read_need_str(it, "target", "server target can not be empty", "server target invalid json format")?;
    proof { reveal_strlit("media"); reveal_strlit("api"); }
    let target = if str_equal(tname.as_str(), "media") {
        ServerType::Media
    } else if str_equal(tname.as_str(), "api") {
        ServerType::Api
    } else {
        return Err(parse_failed("not support server target"));
    };
    let items = match it.get("group") {
        None => { return Err(parse_failed("server name can not be empty")); },
        Some(gv) => match gv.as_array() {
            None => { return Err(parse_failed("server name invalid json format")); },
            Some(a) => a,
        },
    };
    let ghost fv = strings_view(fresh@);
    let ghost whole = match outcome_list(items@, server_group_decoder(target, fv), items@.len() as int) {
        Outcome::Good(g) => Outcome::Good(ServerView { name: name@, target, group: g }),
        Outcome::Bad(m) => Outcome::Bad(m),
        Outcome::Crash => Outcome::Crash,
    };
    assert(server_item(*it, fv) == whole);
    let mut group: Vec<ServerGroup> = Vec::new();
    let mut i: usize = 0;
    proof {
        assert(server_groups_view(group@) =~= Seq::empty());
    }
    while i < items.len()
        invariant
            i <= items@.len(),
            items@.len() <= fresh@.len(),
            fv == strings_view(fresh@),
            server_item(*it, fv) == whole,
            whole == match outcome_list(items@, server_group_decoder(target, fv), items@.len() as int) {
                Outcome::Good(g) => Outcome::Good(ServerView { name: name@, target, group: g }),
                Outcome::Bad(m) => Outcome::Bad(m),
                Outcome::Crash => Outcome::<ServerView>::Crash,
            },
            outcome_list(items@, server_group_decoder(target, fv), i as int) == Outcome::Good(server_groups_view(group@)),
        decreases items@.len() - i,
    {
        match parse_server_group(&items[i], target, &fresh[i]) {
            Ok(x) => {
                proof {
                    assert(server_groups_view(group@.push(x)) =~= server_groups_view(group@).push(x@));
                }
                group.push(x);
            },
            Err(e) => {
                proof {
                    lemma_outcome_list_stuck(items@, server_group_decoder(target, fv), i + 1, items@.len() as int);
                }
                return Err(e);
            },
        }
        i = i + 1;
    }
    Ok(Server { name, target, group })
}

/// Reads the `server` list; the `s`-th element's groups take their missing
/// names from `fresh[s]`.
fn parse_server_list(items: &Vec<JsonNode>, fresh: &Vec<Vec<String>>) -> (res: Result<Vec<Server>, KPGError>)
    requires
        items@.len() <= fresh@.len(),
        forall|s: int| 0 <= s < items@.len() ==> group_count(#[trigger] items@[s]) <= fresh@[s]@.len(),
    ensures
        match res {
            Ok(ss) => outcome_list(items@, server_decoder(names_view(fresh@)), items@.len() as int) == Outcome::Good(servers_view(ss@)),
            Err(e) => err_matches(e, outcome_list(items@, server_decoder(names_view(fresh@)), items@.len() as int)),
        },
{
    let ghost nv = names_view(fresh@);
    let mut out: Vec<Server> = Vec::new();
    let mut i: usize = 0;
    proof {
        assert(servers_view(out@) =~= Seq::empty());
    }
    while i < items.len()
        invariant
            i <= items@.len(),
            items@.len() <= fresh@.len(),
            forall|s: int| 0 <= s < items@.len() ==> group_count(#[trigger] items@[s]) <= fresh@[s]@.len(),
            nv == names_view(fresh@),
            outcome_list(items@, server_decoder(nv), i as int) == Outcome::Good(servers_view(out@)),
        decreases items@.len() - i,
    {
        assert(nv[i as int] == strings_view(fresh@[i as int]@));
        match parse_server_item(&items[i], &fresh[i]) {
            Ok(x) => {
                proof {
                    assert(servers_view(out@.push(x)) =~= servers_view(out@).push(x@));
                }
                out.push(x);
            },
            Err(e) => {
                proof {
                    lemma_outcome_list_stuck(items@, server_decoder(nv), i + 1, items@.len() as int);
                }
                return Err(e);
            },
        }
        i = i + 1;
    }
    Ok(out)
}


/// Reads a configuration from its JSON value; the groups of the `s`-th
/// server without a name take theirs from `fresh[s]`, by position.
pub fn parse_root(v: &JsonNode, fresh: &Vec<Vec<String>>) -> (res: Result<Root, ParseStop>)
    requires
        names_fit(*v, names_view(fresh@)),
    ensures
        match res {
            Ok(r) => parse_root_spec(*v, names_view(fresh@)) == Outcome::Good(r@),
            Err(stop) => stop_matches(stop, parse_root_spec(*v, names_view(fresh@))),
        },
{
    let ghost nv = names_view(fresh@);
    let fields = match &v.value {
        JsonValue::Object(f) => f,
        _ => { return Err(failed("invalid root json format")); },
    };
    let mut cfg = Root {
        version: String::new(),
        playlist: Vec::new(),
        scene: Vec::new(),
        output: Vec::new(),
        server: Vec::new(),
        instance: Vec::new(),
    };
    proof {
        assert(cfg@ =~= empty_root());
    }
    let mut i: usize = 0;
    while i < fields.len()
        invariant
            v.value == JsonValue::Object(*fields),
            i <= fields@.len(),
            nv == names_view(fresh@),
            names_fit(*v, nv),
            root_fold(fields@, nv, i as int) == Outcome::Good(cfg@),
        decreases fields@.len() - i,
    {
        let key = &fields[i].0;
        let value = &fields[i].1;
        let ghost r0 = cfg@;
        let ghost step = root_step(r0, key@, *value, nv);
        assert(root_fold(fields@, nv, i + 1) == step);
        proof {
            if !(step is Good) {
                lemma_root_fold_stuck(fields@, nv, i + 1, fields@.len() as int);
            }
        }
        if str_equal(key.as_str(), "version") {
            cfg.version = value.text.clone();
            proof {
                assert(cfg@ =~= (RootView { version: value.text@, ..r0 }));
            }
        } else if str_equal(key.as_str(), "playlist") {
            let items = match value.as_array() {
                Some(a) => a,
                None => { return Err(failed("invalid playlist json format")); },
            };
            let mut ps = parse_playlist_list(items)?;
            let ghost psv = ps@;
            cfg.playlist.append(&mut ps);
            proof {
                assert(playlists_view(cfg.playlist@) =~= r0.playlist + playlists_view(psv));
                assert(cfg@ =~= (RootView { playlist: r0.playlist + playlists_view(psv), ..r0 }));
            }
        } else if str_equal(key.as_str(), "scene") {
            match read_scene_list(value) {
                Some(ss) => { cfg.scene = ss; },
                None => { return Err(failed("scene invalid json format")); },
            }
        } else if str_equal(key.as_str(), "output") {
            let items = match value.as_array() {
                Some(a) => a,
                None => { return Err(failed("invalid output json format")); },
            };
            let mut os = match parse_output_list(items) { Ok(x) => x, Err(e) => { return Err(ParseStop::Failed(e)); } };
            let ghost osv = os@;
            cfg.output.append(&mut os);
            proof {
                assert(outputs_view(cfg.output@) =~= r0.output + outputs_view(osv));
                assert(cfg@ =~= (RootView { output: r0.output + outputs_view(osv), ..r0 }));
            }
        } else if str_equal(key.as_str(), "server") {
            let items = match value.as_array() {
                Some(a) => a,
                None => { return Err(failed("invalid server json format")); },
            };
            proof {
                assert(fields@[i as int].0@ == "server"@);
                assert(as_array_spec(fields@[i as int].1) == Some(items@));
                assert(nv.len() == fresh@.len());
                assert forall|s: int| 0 <= s < items@.len() implies group_count(#[trigger] items@[s]) <= fresh@[s]@.len() by {
                    assert(group_count(items@[s]) <= nv[s].len());
                    assert(nv[s] == strings_view(fresh@[s]@));
                }
            }
            let mut ss = match parse_server_list(items, fresh) { Ok(x) => x, Err(e) => { return Err(ParseStop::Failed(e)); } };
            let ghost ssv = ss@;
            cfg.server.append(&mut ss);
            proof {
                assert(servers_view(cfg.server@) =~= r0.server + servers_view(ssv));
                assert(cfg@ =~= (RootView { server: r0.server + servers_view(ssv), ..r0 }));
            }
        } else if str_equal(key.as_str(), "instance") {
            match read_instance_list(value) {
                Some(is) => { cfg.instance = is; },
                None => { return Err(failed("instance invalid json format")); },
            }
        }
        i = i + 1;
    }
    Ok(cfg)
}


// ----- names for groups without one -----

/// An outcome with its value forgotten: which way it went, and the message
/// of an error.
pub open spec fn shape<T>(o: Outcome<T>) -> Outcome<()> {
    match o {
        Outcome::Good(_) => Outcome::Good(()),
        Outcome::Bad(m) => Outcome::Bad(m),
        Outcome::Crash => Outcome::Crash,
    }
}

proof fn lemma_outcome_list_same_shape<A, B>(
    a: Seq<JsonNode>,
    f: spec_fn(JsonNode, int) -> Outcome<A>,
    g: spec_fn(JsonNode, int) -> Outcome<B>,
    n: int,
)
    requires
        forall|i: int| 0 <= i < n ==> shape(#[trigger] f(a[i], i)) == shape(g(a[i], i)),
    ensures
        shape(outcome_list(a, f, n)) == shape(outcome_list(a, g, n)),
    decreases n,
{
    if n > 0 {
        lemma_outcome_list_same_shape(a, f, g, n - 1);
        assert(shape(f(a[n - 1], n - 1)) == shape(g(a[n - 1], n - 1)));
    }
}

proof fn lemma_server_item_same_shape(it: JsonNode, f1: Seq<Seq<char>>, f2: Seq<Seq<char>>)
    ensures
        shape(server_item(it, f1)) == shape(server_item(it, f2)),
{
    let name = need_str(it, "name"@, "server name can not be empty"@, "server name invalid json format"@);
    let target = server_target(it);
    if !(name is Bad) && !(target is Bad) {
        match get_spec(it, "group"@) {
            None => {},
            Some(gv) => match as_array_spec(gv) {
                None => {},
                Some(items) => {
                    let t = target->Good_0;
                    assert forall|i: int| 0 <= i < items.len() implies
                        shape(#[trigger] server_group_decoder(t, f1)(items[i], i))
                            == shape(server_group_decoder(t, f2)(items[i], i)) by {
                        let g = items[i];
                        assert(shape(group_name(g, f1[i])) == shape(group_name(g, f2[i])));
                    }
                    lemma_outcome_list_same_shape(items, server_group_decoder(t, f1), server_group_decoder(t, f2), items.len() as int);
                },
            },
        }
    }
}

proof fn lemma_root_step_same_shape(
    r1: RootView,
    r2: RootView,
    key: Seq<char>,
    value: JsonNode,
    f1: Seq<Seq<Seq<char>>>,
    f2: Seq<Seq<Seq<char>>>,
)
    ensures
        shape(root_step(r1, key, value, f1)) == shape(root_step(r2, key, value, f2)),
{
    if key == "server"@ {
        match as_array_spec(value) {
            None => {},
            Some(items) => {
                assert forall|i: int| 0 <= i < items.len() implies
                    shape(#[trigger] server_decoder(f1)(items[i], i)) == shape(server_decoder(f2)(items[i], i)) by {
                    lemma_server_item_same_shape(items[i], f1[i], f2[i]);
                }
                lemma_outcome_list_same_shape(items, server_decoder(f1), server_decoder(f2), items.len() as int);
            },
        }
    }
}

proof fn lemma_root_fold_same_shape(fields: Seq<(String, JsonNode)>, f1: Seq<Seq<Seq<char>>>, f2: Seq<Seq<Seq<char>>>, n: int)
    ensures
        shape(root_fold(fields, f1, n)) == shape(root_fold(fields, f2, n)),
    decreases n,
{
    if n > 0 {
        lemma_root_fold_same_shape(fields, f1, f2, n - 1);
        match (root_fold(fields, f1, n - 1), root_fold(fields, f2, n - 1)) {
            (Outcome::Good(r1), Outcome::Good(r2)) => {
                lemma_root_step_same_shape(r1, r2, fields[n - 1].0@, fields[n - 1].1, f1, f2);
            },
            _ => {},
        }
    }
}

/// Law: whether the reader succeeds, fails (and with which message) or
/// panics does not depend on the names that groups without one receive.
pub proof fn lemma_parse_shape_independent_of_names(v: JsonNode, f1: Seq<Seq<Seq<char>>>, f2: Seq<Seq<Seq<char>>>)
    ensures
        shape(parse_root_spec(v, f1)) == shape(parse_root_spec(v, f2)),
{
    match v.value {
        JsonValue::Object(fields) => lemma_root_fold_same_shape(fields@, f1, f2, fields@.len() as int),
        _ => {},
    }
}

/// The number of groups a server element lists.
fn group_count_exec(it: &JsonNode) -> (res: usize)
    ensures
        res == group_count(*it),
{
    match it.get("group") {
        Some(g) => match g.as_array() {
            Some(a) => a.len(),
            None => 0,
        },
        None => 0,
    }
}

/// A table of random names of eight characters each (see `is_rand_name`),
/// large enough for every group of every server element of `v`.
pub fn fresh_names_for(v: &JsonNode) -> (res: Vec<Vec<String>>)
    ensures
        names_fit(*v, names_view(res@)),
        forall|s: int, j: int| 0 <= s < res@.len() && 0 <= j < res@[s]@.len() ==> is_rand_name((#[trigger] res@[s]@[j])@, 8),
{
    let mut rows: usize = 0;
    let mut cols: usize = 0;
    match &v.value {
        JsonValue::Object(fields) => {
            let mut k: usize = 0;
            while k < fields.len()
                invariant
                    v.value == JsonValue::Object(*fields),
                    k <= fields@.len(),
                    forall|kk: int| 0 <= kk < k && fields@[kk].0@ == "server"@ ==>
                        match #[trigger] as_array_spec(fields@[kk].1) {
                            Some(items) => items.len() <= rows && forall|s: int| 0 <= s < items.len() ==>
                                group_count(#[trigger] items[s]) <= cols,
                            None => true,
                        },
                decreases fields@.len() - k,
            {
                if str_equal(fields[k].0.as_str(), "server") {
                    match fields[k].1.as_array() {
                        Some(items) => {
                            if items.len() > rows {
                                rows = items.len();
                            }
                            let ghost cols0 = cols;
                            let mut s: usize = 0;
                            while s < items.len()
                                invariant
                                    s <= items@.len(),
                                    cols0 <= cols,
                                    forall|ss: int| 0 <= ss < s ==> group_count(#[trigger] items@[ss]) <= cols,
                                decreases items@.len() - s,
                            {
                                let c = group_count_exec(&items[s]);
                                if c > cols {
                                    cols = c;
                                }
                                s = s + 1;
                            }
                        },
                        None => {},
                    }
                }
                k = k + 1;
            }
        },
        _ => {},
    }
    let mut table: Vec<Vec<String>> = Vec::new();
    let mut r: usize = 0;
    while r < rows
        invariant
            r <= rows,
            table@.len() == r,
            forall|s: int| 0 <= s < r ==> (#[trigger] table@[s])@.len() == cols,
            forall|s: int, j: int| 0 <= s < table@.len() && 0 <= j < table@[s]@.len() ==> is_rand_name((#[trigger] table@[s]@[j])@, 8),
        decreases rows - r,
    {
        let mut row: Vec<String> = Vec::new();
        let mut c: usize = 0;
        while c < cols
            invariant
                c <= cols,
                row@.len() == c,
                forall|j: int| 0 <= j < c ==> is_rand_name((#[trigger] row@[j])@, 8),
            decreases cols - c,
        {
            row.push(rand_string(8));
            c = c + 1;
        }
        table.push(row);
        r = r + 1;
    }
    proof {
        let nv = names_view(table@);
        match &v.value {
            JsonValue::Object(fields) => {
                assert forall|kk: int| 0 <= kk < fields@.len() && fields@[kk].0@ == "server"@ implies
                    match #[trigger] as_array_spec(fields@[kk].1) {
                        Some(items) => items.len() <= nv.len() && forall|s: int| 0 <= s < items.len() ==>
                            group_count(#[trigger] items[s]) <= nv[s].len(),
                        None => true,
                    } by {
                    match as_array_spec(fields@[kk].1) {
                        Some(items) => {
                            assert forall|s: int| 0 <= s < items.len() implies group_count(#[trigger] items[s]) <= nv[s].len() by {
                                assert(nv[s] == strings_view(table@[s]@));
                            }
                        },
                        None => {},
                    }
                }
            },
            _ => {},
        }
    }
    table
}


// ----- the reader of version 3.0.0 files -----

/// The reader of the configuration's version 3.0.0 JSON form.
#[derive(Default, Debug, Clone, Copy)]
pub struct Version300 {}

/// Whether every name in a table is a random name of eight characters:
/// the first eight lowercase hexadecimal digits of an MD5 digest of a
/// clock seed (see `is_rand_name`).
pub open spec fn all_rand_names(fresh: Seq<Seq<Seq<char>>>) -> bool {
    forall|s: int, j: int| 0 <= s < fresh.len() && 0 <= j < fresh[s].len() ==> is_rand_name(#[trigger] fresh[s][j], 8)
}

/// Whether the reader runs to an end on `data`: it panics exactly where the
/// bytes are JSON whose reading reaches a resource object with a `type`
/// that is not a string.
pub open spec fn config_admits(data: Seq<u8>) -> bool {
    match json_from_slice(data) {
        Err(_) => true,
        Ok(v) => !(parse_root_spec(v, Seq::empty()) is Crash),
    }
}

/// What the version 3.0.0 reader gives for `data`: where the bytes are not
/// JSON, an error carrying the JSON parser's message; otherwise success
/// exactly where `parse_root_spec` succeeds, with the configuration it
/// describes, the groups without a name having received random names of
/// eight hexadecimal digits; and where it fails, an error with its message. Every error
/// has the code `KPGConfigParseFailed`.
pub open spec fn version_300_result(data: Seq<u8>, res: Result<Root, KPGError>) -> bool {
    match json_from_slice(data) {
        Err(m) => res matches Err(e) && e@ == (KPGErrorView {
            code: KPGErrorCode::KPGConfigParseFailed,
            error: "parse version 3.0.0 failed. error: "@ + m,
        }),
        Ok(v) => match parse_root_spec(v, Seq::empty()) {
            Outcome::Good(_) => res matches Ok(r) && exists|fresh: Seq<Seq<Seq<char>>>|
                names_fit(v, fresh) && all_rand_names(fresh) && parse_root_spec(v, fresh) == Outcome::Good(r@),
            Outcome::Bad(m) => res matches Err(e) && e@ == (KPGErrorView { code: KPGErrorCode::KPGConfigParseFailed, error: m }),
            Outcome::Crash => true,
        },
    }
}

impl ParseConfig for Version300 {
    open spec fn admits(&self, cfg: Seq<u8>) -> bool {
        config_admits(cfg)
    }

    fn parse(&self, data: &Vec<u8>) -> (res: Result<Root, KPGError>)
        ensures
            version_300_result(data@, res),
    {
        match parse_json_slice(data.as_slice()) {
            Err(msg) => {
                let mut m = string_of("parse version 3.0.0 failed. error: ");
                append_str(&mut m, msg.as_str());
                proof { reveal_strlit("parse version 3.0.0 failed. error: "); }
                Err(KPGError::new_with_string(KPGErrorCode::KPGConfigParseFailed, m))
            },
            Ok(v) => {
                let fresh = fresh_names_for(&v);
                let ghost nv = names_view(fresh@);
                proof {
                    lemma_parse_shape_independent_of_names(v, Seq::empty(), nv);
                    assert forall|s: int, j: int| 0 <= s < nv.len() && 0 <= j < nv[s].len() implies is_rand_name(#[trigger] nv[s][j], 8) by {
                        assert(nv[s] == strings_view(fresh@[s]@));
                    }
                }
                match parse_root(&v, &fresh) {
                    Ok(r) => {
                        assert(all_rand_names(nv));
                        assert(names_fit(v, nv) && all_rand_names(nv) && parse_root_spec(v, nv) == Outcome::Good(r@));
                        Ok(r)
                    },
                    Err(ParseStop::Failed(e)) => {
                        proof {
                            let ghost o = parse_root_spec(v, Seq::empty());
                            assert(shape(o) == shape(parse_root_spec(v, nv)));
                        }
                        let ghost ev = e@;
                        assert(ev == (KPGErrorView { code: ev.code, error: ev.error }));
                        Err(e)
                    },
                    Err(ParseStop::Panicked) => Err(parse_failed("playlist resource type invalid json format")),
                }
            },
        }
    }
}

/// Reads a version 3.0.0 configuration from the bytes of a JSON file, or
/// gives `None` where the reader would panic (see `config_admits`).
pub fn parse_config(data: &Vec<u8>) -> (res: Option<Result<Root, KPGError>>)
    ensures
        res is None <==> !config_admits(data@),
        res matches Some(r) ==> version_300_result(data@, r),
{
    let reader = Version300 {};
    match parse_json_slice(data.as_slice()) {
        Err(_) => Some(reader.parse(data)),
        Ok(v) => {
            let fresh = fresh_names_for(&v);
            proof {
                lemma_parse_shape_independent_of_names(v, Seq::empty(), names_view(fresh@));
            }
            match parse_root(&v, &fresh) {
                Err(ParseStop::Panicked) => None,
                _ => Some(reader.parse(data)),
            }
        },
    }
}

} // verus!
