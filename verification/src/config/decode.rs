//! Reading the configuration's structures out of JSON the way their serde
//! derives do: a structure is read from an object by member name (unknown
//! members are skipped, a missing `Option` member is `None`, any other missing
//! member is an error) or from an array holding exactly one element per field
//! in declaration order; an enum's struct variant is read from an object only;
//! integers must fit their type; `null` gives `None` for an `Option`.

use vstd::prelude::*;
use crate::config::json::{JsonNode, JsonNumber, JsonValue, member, as_str_spec, as_i64_spec, is_null_spec};
use crate::config::json::opt_str as opt_string_view;
use crate::config::{Stream, ResourceTypeView, OutputTypeView, ParamsView, GroupView, SceneView, Video, Audio, CacheView, EncodeView, InstanceView};
use crate::config::{ResourceType, OutputType, Params, Group, Scene, Cache, Encode, Instance, strings_view, groups_view, scenes_view, instances_view};

verus! {

/// What a decoder gives for a list of elements: each element decoded in
/// order, or nothing once one element fails.
pub open spec fn decode_list<T>(a: Seq<JsonNode>, f: spec_fn(JsonNode, int) -> Option<T>, n: int) -> Option<Seq<T>>
    decreases n,
{
    if n <= 0 {
        Some(Seq::empty())
    } else {
        match decode_list(a, f, n - 1) {
            Some(s) => match f(a[n - 1], n - 1) {
                Some(t) => Some(s.push(t)),
                None => None,
            },
            None => None,
        }
    }
}

/// Once a prefix of a list fails, every longer prefix fails.
pub proof fn lemma_decode_list_stuck<T>(a: Seq<JsonNode>, f: spec_fn(JsonNode, int) -> Option<T>, i: int, n: int)
    requires
        0 <= i <= n,
        decode_list(a, f, i) is None,
    ensures
        decode_list(a, f, n) is None,
    decreases n - i,
{
    if i < n {
        lemma_decode_list_stuck(a, f, i, n - 1);
    }
}

/// The node that holds the field at position `idx` (of `count`) named
/// `name` of a structure: the member of an object, or the element of an
/// array.
pub open spec fn field_node(n: JsonNode, count: nat, idx: nat, name: Seq<char>) -> Option<JsonNode> {
    match n.value {
        JsonValue::Object(fields) => member(fields@, name),
        JsonValue::Array(a) => if idx < a@.len() { Some(a@[idx as int]) } else { None },
        _ => None,
    }
}

/// Whether a node has the form of a structure of `count` fields.
pub open spec fn struct_shape(n: JsonNode, count: nat) -> bool {
    match n.value {
        JsonValue::Object(_) => true,
        JsonValue::Array(a) => a@.len() == count,
        _ => false,
    }
}

pub open spec fn de_str(n: JsonNode) -> Option<Seq<char>> {
    as_str_spec(n)
}

pub open spec fn de_bool(n: JsonNode) -> Option<bool> {
    match n.value {
        JsonValue::Bool(b) => Some(b),
        _ => None,
    }
}

pub open spec fn de_i64(n: JsonNode) -> Option<i64> {
    as_i64_spec(n)
}

pub open spec fn de_i32(n: JsonNode) -> Option<i32> {
    match n.value {
        JsonValue::Number(JsonNumber::PosInt(u)) => if u <= 2147483647 { Some(u as i32) } else { None },
        JsonValue::Number(JsonNumber::NegInt(i)) => if -2147483648 <= i <= 2147483647 { Some(i as i32) } else { None },
        _ => None,
    }
}

/// An unsigned integer read as a value no larger than `max`.
pub open spec fn de_unsigned(n: JsonNode, max: u64) -> Option<u64> {
    match n.value {
        JsonValue::Number(JsonNumber::PosInt(u)) => if u <= max { Some(u) } else { None },
        JsonValue::Number(JsonNumber::NegInt(i)) => if 0 <= i && i <= max { Some(i as u64) } else { None },
        _ => None,
    }
}

pub open spec fn de_u32(n: JsonNode) -> Option<u32> {
    match de_unsigned(n, 4294967295) { Some(u) => Some(u as u32), None => None }
}

pub open spec fn de_u16(n: JsonNode) -> Option<u16> {
    match de_unsigned(n, 65535) { Some(u) => Some(u as u16), None => None }
}

pub open spec fn de_u8(n: JsonNode) -> Option<u8> {
    match de_unsigned(n, 255) { Some(u) => Some(u as u8), None => None }
}

pub open spec fn de_string_list(n: JsonNode) -> Option<Seq<Seq<char>>> {
    match n.value {
        JsonValue::Array(a) => decode_list(a@, str_decoder(), a@.len() as int),
        _ => None,
    }
}

pub open spec fn str_decoder() -> spec_fn(JsonNode, int) -> Option<Seq<char>> {
    |x: JsonNode, i: int| de_str(x)
}

pub open spec fn group_decoder() -> spec_fn(JsonNode, int) -> Option<GroupView> {
    |x: JsonNode, i: int| decode_group(x)
}

pub open spec fn scene_decoder() -> spec_fn(JsonNode, int) -> Option<SceneView> {
    |x: JsonNode, i: int| decode_scene(x)
}

pub open spec fn instance_decoder() -> spec_fn(JsonNode, int) -> Option<InstanceView> {
    |x: JsonNode, i: int| decode_instance(x)
}

/// A required field read by `de_str`.
pub open spec fn req_str(n: JsonNode, count: nat, idx: nat, name: Seq<char>) -> Option<Seq<char>> {
    match field_node(n, count, idx, name) {
        Some(x) => de_str(x),
        None => None,
    }
}

/// A required field read by `de_i64`.
pub open spec fn req_i64(n: JsonNode, count: nat, idx: nat, name: Seq<char>) -> Option<i64> {
    match field_node(n, count, idx, name) {
        Some(x) => de_i64(x),
        None => None,
    }
}

/// A required field read by `de_u32`.
pub open spec fn req_u32(n: JsonNode, count: nat, idx: nat, name: Seq<char>) -> Option<u32> {
    match field_node(n, count, idx, name) {
        Some(x) => de_u32(x),
        None => None,
    }
}

/// A required field read by `de_u16`.
pub open spec fn req_u16(n: JsonNode, count: nat, idx: nat, name: Seq<char>) -> Option<u16> {
    match field_node(n, count, idx, name) {
        Some(x) => de_u16(x),
        None => None,
    }
}

/// A required field read by `de_u8`.
pub open spec fn req_u8(n: JsonNode, count: nat, idx: nat, name: Seq<char>) -> Option<u8> {
    match field_node(n, count, idx, name) {
        Some(x) => de_u8(x),
        None => None,
    }
}

/// A required field read by `de_bool`.
pub open spec fn req_bool(n: JsonNode, count: nat, idx: nat, name: Seq<char>) -> Option<bool> {
    match field_node(n, count, idx, name) {
        Some(x) => de_bool(x),
        None => None,
    }
}

/// A required field read by `de_string_list`.
pub open spec fn req_string_list(n: JsonNode, count: nat, idx: nat, name: Seq<char>) -> Option<Seq<Seq<char>>> {
    match field_node(n, count, idx, name) {
        Some(x) => de_string_list(x),
        None => None,
    }
}

/// A required field read by `decode_params`.
pub open spec fn req_params(n: JsonNode, count: nat, idx: nat, name: Seq<char>) -> Option<ParamsView> {
    match field_node(n, count, idx, name) {
        Some(x) => decode_params(x),
        None => None,
    }
}

/// A required field read by `decode_group_list`.
pub open spec fn req_group_list(n: JsonNode, count: nat, idx: nat, name: Seq<char>) -> Option<Seq<GroupView>> {
    match field_node(n, count, idx, name) {
        Some(x) => decode_group_list(x),
        None => None,
    }
}

/// A required field read by `decode_video`.
pub open spec fn req_video(n: JsonNode, count: nat, idx: nat, name: Seq<char>) -> Option<Video> {
    match field_node(n, count, idx, name) {
        Some(x) => decode_video(x),
        None => None,
    }
}

/// A required field read by `decode_audio`.
pub open spec fn req_audio(n: JsonNode, count: nat, idx: nat, name: Seq<char>) -> Option<Audio> {
    match field_node(n, count, idx, name) {
        Some(x) => decode_audio(x),
        None => None,
    }
}

/// A required field read by `decode_cache`.
pub open spec fn req_cache(n: JsonNode, count: nat, idx: nat, name: Seq<char>) -> Option<CacheView> {
    match field_node(n, count, idx, name) {
        Some(x) => decode_cache(x),
        None => None,
    }
}

/// A required field read by `decode_encode`.
pub open spec fn req_encode(n: JsonNode, count: nat, idx: nat, name: Seq<char>) -> Option<EncodeView> {
    match field_node(n, count, idx, name) {
        Some(x) => decode_encode(x),
        None => None,
    }
}

/// An `Option` field read by `de_str`: `Some(None)` where it is missing or null.
pub open spec fn opt_str(n: JsonNode, count: nat, idx: nat, name: Seq<char>) -> Option<Option<Seq<char>>> {
    match field_node(n, count, idx, name) {
        None => Some(None),
        Some(x) => if is_null_spec(x) {
            Some(None)
        } else {
            match de_str(x) {
                Some(t) => Some(Some(t)),
                None => None,
            }
        },
    }
}

/// An `Option` field read by `de_i32`: `Some(None)` where it is missing or null.
pub open spec fn opt_i32(n: JsonNode, count: nat, idx: nat, name: Seq<char>) -> Option<Option<i32>> {
    match field_node(n, count, idx, name) {
        None => Some(None),
        Some(x) => if is_null_spec(x) {
            Some(None)
        } else {
            match de_i32(x) {
                Some(t) => Some(Some(t)),
                None => None,
            }
        },
    }
}

/// An `Option` field read by `decode_stream`: `Some(None)` where it is missing or null.
pub open spec fn opt_stream(n: JsonNode, count: nat, idx: nat, name: Seq<char>) -> Option<Option<Stream>> {
    match field_node(n, count, idx, name) {
        None => Some(None),
        Some(x) => if is_null_spec(x) {
            Some(None)
        } else {
            match decode_stream(x) {
                Some(t) => Some(Some(t)),
                None => None,
            }
        },
    }
}

pub open spec fn decode_stream(n: JsonNode) -> Option<Stream> {
    if !struct_shape(n, 3) {
        None
    } else {
        match (req_i64(n, 3, 0, "video"@), req_i64(n, 3, 1, "audio"@), req_i64(n, 3, 2, "subtitle"@)) {
            (Some(v), Some(a), Some(s)) => Some(Stream { video: v, audio: a, subtitle: s }),
            _ => None,
        }
    }
}

/// A `ResourceDetail` variant read from an object.
pub open spec fn decode_resource_detail(n: JsonNode) -> Option<ResourceTypeView> {
    if !(n.value is Object) {
        None
    } else {
        match (
            req_str(n, 5, 0, "path"@),
            opt_str(n, 5, 1, "name"@),
            opt_i32(n, 5, 2, "seek"@),
            opt_i32(n, 5, 3, "end"@),
            opt_stream(n, 5, 4, "stream"@),
        ) {
            (Some(path), Some(name), Some(seek), Some(end), Some(stream)) =>
                Some(ResourceTypeView::ResourceDetail { path, name, seek, end, stream }),
            _ => None,
        }
    }
}

/// A `ResourceDirectory` variant read from an object.
pub open spec fn decode_resource_directory(n: JsonNode) -> Option<ResourceTypeView> {
    if !(n.value is Object) {
        None
    } else {
        match (req_str(n, 2, 0, "directory"@), req_string_list(n, 2, 1, "extension"@)) {
            (Some(directory), Some(extension)) => Some(ResourceTypeView::ResourceDirectory { directory, extension }),
            _ => None,
        }
    }
}

/// An `OutputDetail` variant read from an object.
pub open spec fn decode_output_detail(n: JsonNode) -> Option<OutputTypeView> {
    if !(n.value is Object) {
        None
    } else {
        match (
            req_str(n, 3, 0, "name"@),
            req_u32(n, 3, 1, "reconnect_internal"@),
            req_str(n, 3, 2, "path"@),
        ) {
            (Some(name), Some(reconnect_internal), Some(path)) =>
                Some(OutputTypeView::OutputDetail { name, reconnect_internal, path }),
            _ => None,
        }
    }
}

pub open spec fn decode_params(n: JsonNode) -> Option<ParamsView> {
    if !struct_shape(n, 3) {
        None
    } else {
        match (req_str(n, 3, 0, "text"@), req_i64(n, 3, 1, "y"@), req_i64(n, 3, 2, "font_size"@)) {
            (Some(text), Some(y), Some(font_size)) => Some(ParamsView { text, y, font_size }),
            _ => None,
        }
    }
}

pub open spec fn decode_group(n: JsonNode) -> Option<GroupView> {
    if !struct_shape(n, 3) {
        None
    } else {
        match (req_str(n, 3, 0, "name"@), req_str(n, 3, 1, "app"@), req_params(n, 3, 2, "params"@)) {
            (Some(name), Some(app), Some(params)) => Some(GroupView { name, app, params }),
            _ => None,
        }
    }
}

pub open spec fn decode_group_list(n: JsonNode) -> Option<Seq<GroupView>> {
    match n.value {
        JsonValue::Array(a) => decode_list(a@, group_decoder(), a@.len() as int),
        _ => None,
    }
}

pub open spec fn decode_scene(n: JsonNode) -> Option<SceneView> {
    if !struct_shape(n, 2) {
        None
    } else {
        match (req_str(n, 2, 0, "name"@), req_group_list(n, 2, 1, "group"@)) {
            (Some(name), Some(group)) => Some(SceneView { name, group }),
            _ => None,
        }
    }
}

pub open spec fn decode_scene_list(n: JsonNode) -> Option<Seq<SceneView>> {
    match n.value {
        JsonValue::Array(a) => decode_list(a@, scene_decoder(), a@.len() as int),
        _ => None,
    }
}

pub open spec fn decode_video(n: JsonNode) -> Option<Video> {
    if !struct_shape(n, 3) {
        None
    } else {
        match (req_u16(n, 3, 0, "width"@), req_u16(n, 3, 1, "height"@), req_u8(n, 3, 2, "fps"@)) {
            (Some(width), Some(height), Some(fps)) => Some(Video { width, height, fps }),
            _ => None,
        }
    }
}

pub open spec fn decode_audio(n: JsonNode) -> Option<Audio> {
    if !struct_shape(n, 3) {
        None
    } else {
        match (
            req_u8(n, 3, 0, "channel_layout"@),
            req_u8(n, 3, 1, "channels"@),
            req_u16(n, 3, 2, "sample_rate"@),
        ) {
            (Some(channel_layout), Some(channels), Some(sample_rate)) => Some(Audio { channel_layout, channels, sample_rate }),
            _ => None,
        }
    }
}

pub open spec fn decode_cache(n: JsonNode) -> Option<CacheView> {
    if !struct_shape(n, 2) {
        None
    } else {
        match (req_bool(n, 2, 0, "on"@), req_str(n, 2, 1, "cache_directory"@)) {
            (Some(on), Some(cache_directory)) => Some(CacheView { on, cache_directory }),
            _ => None,
        }
    }
}

pub open spec fn decode_encode(n: JsonNode) -> Option<EncodeView> {
    if !struct_shape(n, 8) {
        None
    } else {
        match (
            req_video(n, 8, 0, "video"@),
            req_audio(n, 8, 1, "audio"@),
            req_str(n, 8, 2, "mode"@),
            req_i64(n, 8, 3, "max_bit_rate"@),
            req_u32(n, 8, 4, "avg_quality"@),
            req_str(n, 8, 5, "profile"@),
            req_str(n, 8, 6, "preset"@),
            req_u8(n, 8, 7, "gop_uint"@),
        ) {
            (Some(video), Some(audio), Some(mode), Some(max_bit_rate), Some(avg_quality), Some(profile), Some(preset), Some(gop_uint)) =>
                Some(EncodeView { video, audio, mode, max_bit_rate, avg_quality, profile, preset, gop_uint }),
            _ => None,
        }
    }
}

pub open spec fn decode_instance(n: JsonNode) -> Option<InstanceView> {
    if !struct_shape(n, 6) {
        None
    } else {
        match (
            req_str(n, 6, 0, "name"@),
            req_str(n, 6, 1, "playlist"@),
            req_str(n, 6, 2, "scene"@),
            req_str(n, 6, 3, "server"@),
            req_cache(n, 6, 4, "cache"@),
            req_encode(n, 6, 5, "encode"@),
        ) {
            (Some(name), Some(playlist), Some(scene), Some(server), Some(cache), Some(encode)) =>
                Some(InstanceView { name, playlist, scene, server, cache, encode }),
            _ => None,
        }
    }
}

pub open spec fn decode_instance_list(n: JsonNode) -> Option<Seq<InstanceView>> {
    match n.value {
        JsonValue::Array(a) => decode_list(a@, instance_decoder(), a@.len() as int),
        _ => None,
    }
}

// ----- executable readers -----


/// The node holding a structure's field, as `field_node` describes it.
pub fn field_node_exec<'a>(n: &'a JsonNode, count: usize, idx: usize, name: &str) -> (res: Option<&'a JsonNode>)
    ensures
        match res {
            Some(x) => field_node(*n, count as nat, idx as nat, name@) == Some(*x),
            None => field_node(*n, count as nat, idx as nat, name@) is None,
        },
{
    match &n.value {
        JsonValue::Object(_) => n.get(name),
        JsonValue::Array(a) => if idx < a.len() { Some(&a[idx]) } else { None },
        _ => None,
    }
}

/// Whether a node has the form of a structure of `count` fields.
pub fn struct_shape_exec(n: &JsonNode, count: usize) -> (res: bool)
    ensures
        res == struct_shape(*n, count as nat),
{
    match &n.value {
        JsonValue::Object(_) => true,
        JsonValue::Array(a) => a.len() == count,
        _ => false,
    }
}

pub fn read_str(n: &JsonNode) -> (res: Option<String>)
    ensures
        opt_string_view(res) == de_str(*n),
{
    match &n.value {
        JsonValue::Str(s) => Some(s.clone()),
        _ => None,
    }
}

pub fn read_bool(n: &JsonNode) -> (res: Option<bool>)
    ensures
        res == de_bool(*n),
{
    match &n.value {
        JsonValue::Bool(b) => Some(*b),
        _ => None,
    }
}

pub fn read_i64(n: &JsonNode) -> (res: Option<i64>)
    ensures
        res == de_i64(*n),
{
    n.as_i64()
}

pub fn read_i32(n: &JsonNode) -> (res: Option<i32>)
    ensures
        res == de_i32(*n),
{
    match &n.value {
        JsonValue::Number(JsonNumber::PosInt(u)) => if *u <= 2147483647 { Some(*u as i32) } else { None },
        JsonValue::Number(JsonNumber::NegInt(i)) => if -2147483648 <= *i && *i <= 2147483647 { Some(*i as i32) } else { None },
        _ => None,
    }
}

pub fn read_unsigned(n: &JsonNode, max: u64) -> (res: Option<u64>)
    ensures
        res == de_unsigned(*n, max),
{
    match &n.value {
        JsonValue::Number(JsonNumber::PosInt(u)) => if *u <= max { Some(*u) } else { None },
        JsonValue::Number(JsonNumber::NegInt(i)) => if 0 <= *i && (*i as u64) <= max { Some(*i as u64) } else { None },
        _ => None,
    }
}

pub fn read_u32(n: &JsonNode) -> (res: Option<u32>)
    ensures
        res == de_u32(*n),
{
    match read_unsigned(n, 4294967295) { Some(u) => Some(u as u32), None => None }
}

pub fn read_u16(n: &JsonNode) -> (res: Option<u16>)
    ensures
        res == de_u16(*n),
{
    match read_unsigned(n, 65535) { Some(u) => Some(u as u16), None => None }
}

pub fn read_u8(n: &JsonNode) -> (res: Option<u8>)
    ensures
        res == de_u8(*n),
{
    match read_unsigned(n, 255) { Some(u) => Some(u as u8), None => None }
}

pub fn read_string_list(n: &JsonNode) -> (res: Option<Vec<String>>)
    ensures
        match res {
            Some(v) => de_string_list(*n) == Some(strings_view(v@)),
            None => de_string_list(*n) is None,
        },
{
    let a = match &n.value {
        JsonValue::Array(a) => a,
        _ => { return None; },
    };
    let mut out: Vec<String> = Vec::new();
    let mut i: usize = 0;
    while i < a.len()
        invariant
            n.value == JsonValue::Array(*a),
            i <= a@.len(),
            decode_list(a@, str_decoder(), i as int) == Some(strings_view(out@)),
        decreases a@.len() - i,
    {
        match read_str(&a[i]) {
            Some(s) => {
                proof {
                    assert(strings_view(out@.push(s)) =~= strings_view(out@).push(s@));
                }
                out.push(s);
            },
            None => {
                proof {
                    lemma_decode_list_stuck(a@, str_decoder(), i + 1, a@.len() as int);
                }
                return None;
            },
        }
        i = i + 1;
    }
    Some(out)
}


pub fn read_stream(n: &JsonNode) -> (res: Option<Stream>)
    ensures
        res == decode_stream(*n),
{
    if !struct_shape_exec(n, 3) {
        return None;
    }
    let video = match field_node_exec(n, 3, 0, "video") {
        Some(x) => match read_i64(x) { Some(v) => v, None => { return None; } },
        None => { return None; },
    };
    let audio = match field_node_exec(n, 3, 1, "audio") {
        Some(x) => match read_i64(x) { Some(v) => v, None => { return None; } },
        None => { return None; },
    };
    let subtitle = match field_node_exec(n, 3, 2, "subtitle") {
        Some(x) => match read_i64(x) { Some(v) => v, None => { return None; } },
        None => { return None; },
    };
    Some(Stream { video, audio, subtitle })
}

pub fn read_resource_detail(n: &JsonNode) -> (res: Option<ResourceType>)
    ensures
        match res {
            Some(v) => decode_resource_detail(*n) == Some(v@),
            None => decode_resource_detail(*n) is None,
        },
{
    if !(match &n.value { JsonValue::Object(_) => true, _ => false }) {
        return None;
    }
    let path = match field_node_exec(n, 5, 0, "path") {
        Some(x) => match read_str(x) { Some(v) => v, None => { return None; } },
        None => { return None; },
    };
    let name = match field_node_exec(n, 5, 1, "name") {
        None => None,
        Some(x) => if x.is_null() { None } else { match read_str(x) { Some(v) => Some(v), None => { return None; } } },
    };
    let seek = match field_node_exec(n, 5, 2, "seek") {
        None => None,
        Some(x) => if x.is_null() { None } else { match read_i32(x) { Some(v) => Some(v), None => { return None; } } },
    };
    let end = match field_node_exec(n, 5, 3, "end") {
        None => None,
        Some(x) => if x.is_null() { None } else { match read_i32(x) { Some(v) => Some(v), None => { return None; } } },
    };
    let stream = match field_node_exec(n, 5, 4, "stream") {
        None => None,
        Some(x) => if x.is_null() { None } else { match read_stream(x) { Some(v) => Some(v), None => { return None; } } },
    };
    Some(ResourceType::ResourceDetail { path, name, seek, end, stream })
}

pub fn read_resource_directory(n: &JsonNode) -> (res: Option<ResourceType>)
    ensures
        match res {
            Some(v) => decode_resource_directory(*n) == Some(v@),
            None => decode_resource_directory(*n) is None,
        },
{
    if !(match &n.value { JsonValue::Object(_) => true, _ => false }) {
        return None;
    }
    let directory = match field_node_exec(n, 2, 0, "directory") {
        Some(x) => match read_str(x) { Some(v) => v, None => { return None; } },
        None => { return None; },
    };
    let extension = match field_node_exec(n, 2, 1, "extension") {
        Some(x) => match read_string_list(x) { Some(v) => v, None => { return None; } },
        None => { return None; },
    };
    Some(ResourceType::ResourceDirectory { directory, extension })
}

pub fn read_output_detail(n: &JsonNode) -> (res: Option<OutputType>)
    ensures
        match res {
            Some(v) => decode_output_detail(*n) == Some(v@),
            None => decode_output_detail(*n) is None,
        },
{
    if !(match &n.value { JsonValue::Object(_) => true, _ => false }) {
        return None;
    }
    let name = match field_node_exec(n, 3, 0, "name") {
        Some(x) => match read_str(x) { Some(v) => v, None => { return None; } },
        None => { return None; },
    };
    let reconnect_internal = match field_node_exec(n, 3, 1, "reconnect_internal") {
        Some(x) => match read_u32(x) { Some(v) => v, None => { return None; } },
        None => { return None; },
    };
    let path = match field_node_exec(n, 3, 2, "path") {
        Some(x) => match read_str(x) { Some(v) => v, None => { return None; } },
        None => { return None; },
    };
    Some(OutputType::OutputDetail { name, reconnect_internal, path })
}

pub fn read_params(n: &JsonNode) -> (res: Option<Params>)
    ensures
        match res {
            Some(v) => decode_params(*n) == Some(v@),
            None => decode_params(*n) is None,
        },
{
    if !struct_shape_exec(n, 3) {
        return None;
    }
    let text = match field_node_exec(n, 3, 0, "text") {
        Some(x) => match read_str(x) { Some(v) => v, None => { return None; } },
        None => { return None; },
    };
    let y = match field_node_exec(n, 3, 1, "y") {
        Some(x) => match read_i64(x) { Some(v) => v, None => { return None; } },
        None => { return None; },
    };
    let font_size = match field_node_exec(n, 3, 2, "font_size") {
        Some(x) => match read_i64(x) { Some(v) => v, None => { return None; } },
        None => { return None; },
    };
    Some(Params { text, y, font_size })
}

pub fn read_group(n: &JsonNode) -> (res: Option<Group>)
    ensures
        match res {
            Some(v) => decode_group(*n) == Some(v@),
            None => decode_group(*n) is None,
        },
{
    if !struct_shape_exec(n, 3) {
        return None;
    }
    let name = match field_node_exec(n, 3, 0, "name") {
        Some(x) => match read_str(x) { Some(v) => v, None => { return None; } },
        None => { return None; },
    };
    let app = match field_node_exec(n, 3, 1, "app") {
        Some(x) => match read_str(x) { Some(v) => v, None => { return None; } },
        None => { return None; },
    };
    let params = match field_node_exec(n, 3, 2, "params") {
        Some(x) => match read_params(x) { Some(v) => v, None => { return None; } },
        None => { return None; },
    };
    Some(Group { name, app, params })
}

pub fn read_video(n: &JsonNode) -> (res: Option<Video>)
    ensures
        res == decode_video(*n),
{
    if !struct_shape_exec(n, 3) {
        return None;
    }
    let width = match field_node_exec(n, 3, 0, "width") {
        Some(x) => match read_u16(x) { Some(v) => v, None => { return None; } },
        None => { return None; },
    };
    let height = match field_node_exec(n, 3, 1, "height") {
        Some(x) => match read_u16(x) { Some(v) => v, None => { return None; } },
        None => { return None; },
    };
    let fps = match field_node_exec(n, 3, 2, "fps") {
        Some(x) => match read_u8(x) { Some(v) => v, None => { return None; } },
        None => { return None; },
    };
    Some(Video { width, height, fps })
}

pub fn read_audio(n: &JsonNode) -> (res: Option<Audio>)
    ensures
        res == decode_audio(*n),
{
    if !struct_shape_exec(n, 3) {
        return None;
    }
    let channel_layout = match field_node_exec(n, 3, 0, "channel_layout") {
        Some(x) => match read_u8(x) { Some(v) => v, None => { return None; } },
        None => { return None; },
    };
    let channels = match field_node_exec(n, 3, 1, "channels") {
        Some(x) => match read_u8(x) { Some(v) => v, None => { return None; } },
        None => { return None; },
    };
    let sample_rate = match field_node_exec(n, 3, 2, "sample_rate") {
        Some(x) => match read_u16(x) { Some(v) => v, None => { return None; } },
        None => { return None; },
    };
    Some(Audio { channel_layout, channels, sample_rate })
}

pub fn read_cache(n: &JsonNode) -> (res: Option<Cache>)
    ensures
        match res {
            Some(v) => decode_cache(*n) == Some(v@),
            None => decode_cache(*n) is None,
        },
{
    if !struct_shape_exec(n, 2) {
        return None;
    }
    let on = match field_node_exec(n, 2, 0, "on") {
        Some(x) => match read_bool(x) { Some(v) => v, None => { return None; } },
        None => { return None; },
    };
    let cache_directory = match field_node_exec(n, 2, 1, "cache_directory") {
        Some(x) => match read_str(x) { Some(v) => v, None => { return None; } },
        None => { return None; },
    };
    Some(Cache { on, cache_directory })
}

pub fn read_encode(n: &JsonNode) -> (res: Option<Encode>)
    ensures
        match res {
            Some(v) => decode_encode(*n) == Some(v@),
            None => decode_encode(*n) is None,
        },
{
    if !struct_shape_exec(n, 8) {
        return None;
    }
    let video = match field_node_exec(n, 8, 0, "video") {
        Some(x) => match read_video(x) { Some(v) => v, None => { return None; } },
        None => { return None; },
    };
    let audio = match field_node_exec(n, 8, 1, "audio") {
        Some(x) => match read_audio(x) { Some(v) => v, None => { return None; } },
        None => { return None; },
    };
    let mode = match field_node_exec(n, 8, 2, "mode") {
        Some(x) => match read_str(x) { Some(v) => v, None => { return None; } },
        None => { return None; },
    };
    let max_bit_rate = match field_node_exec(n, 8, 3, "max_bit_rate") {
        Some(x) => match read_i64(x) { Some(v) => v, None => { return None; } },
        None => { return None; },
    };
    let avg_quality = match field_node_exec(n, 8, 4, "avg_quality") {
        Some(x) => match read_u32(x) { Some(v) => v, None => { return None; } },
        None => { return None; },
    };
    let profile = match field_node_exec(n, 8, 5, "profile") {
        Some(x) => match read_str(x) { Some(v) => v, None => { return None; } },
        None => { return None; },
    };
    let preset = match field_node_exec(n, 8, 6, "preset") {
        Some(x) => match read_str(x) { Some(v) => v, None => { return None; } },
        None => { return None; },
    };
    let gop_uint = match field_node_exec(n, 8, 7, "gop_uint") {
        Some(x) => match read_u8(x) { Some(v) => v, None => { return None; } },
        None => { return None; },
    };
    Some(Encode { video, audio, mode, max_bit_rate, avg_quality, profile, preset, gop_uint })
}

pub fn read_instance(n: &JsonNode) -> (res: Option<Instance>)
    ensures
        match res {
            Some(v) => decode_instance(*n) == Some(v@),
            None => decode_instance(*n) is None,
        },
{
    if !struct_shape_exec(n, 6) {
        return None;
    }
    let name = match field_node_exec(n, 6, 0, "name") {
        Some(x) => match read_str(x) { Some(v) => v, None => { return None; } },
        None => { return None; },
    };
    let playlist = match field_node_exec(n, 6, 1, "playlist") {
        Some(x) => match read_str(x) { Some(v) => v, None => { return None; } },
        None => { return None; },
    };
    let scene = match field_node_exec(n, 6, 2, "scene") {
        Some(x) => match read_str(x) { Some(v) => v, None => { return None; } },
        None => { return None; },
    };
    let server = match field_node_exec(n, 6, 3, "server") {
        Some(x) => match read_str(x) { Some(v) => v, None => { return None; } },
        None => { return None; },
    };
    let cache = match field_node_exec(n, 6, 4, "cache") {
        Some(x) => match read_cache(x) { Some(v) => v, None => { return None; } },
        None => { return None; },
    };
    let encode = match field_node_exec(n, 6, 5, "encode") {
        Some(x) => match read_encode(x) { Some(v) => v, None => { return None; } },
        None => { return None; },
    };
    Some(Instance { name, playlist, scene, server, cache, encode })
}

pub fn read_group_list(n: &JsonNode) -> (res: Option<Vec<Group>>)
    ensures
        match res {
            Some(v) => decode_group_list(*n) == Some(groups_view(v@)),
            None => decode_group_list(*n) is None,
        },
{
    let a = match &n.value {
        JsonValue::Array(a) => a,
        _ => { return None; },
    };
    let mut out: Vec<Group> = Vec::new();
    let mut i: usize = 0;
    while i < a.len()
        invariant
            n.value == JsonValue::Array(*a),
            i <= a@.len(),
            decode_list(a@, group_decoder(), i as int) == Some(groups_view(out@)),
        decreases a@.len() - i,
    {
        match read_group(&a[i]) {
            Some(x) => {
                proof {
                    assert(groups_view(out@.push(x)) =~= groups_view(out@).push(x@));
                }
                out.push(x);
            },
            None => {
                proof {
                    lemma_decode_list_stuck(a@, group_decoder(), i + 1, a@.len() as int);
                }
                return None;
            },
        }
        i = i + 1;
    }
    Some(out)
}

pub fn read_scene(n: &JsonNode) -> (res: Option<Scene>)
    ensures
        match res {
            Some(v) => decode_scene(*n) == Some(v@),
            None => decode_scene(*n) is None,
        },
{
    if !struct_shape_exec(n, 2) {
        return None;
    }
    let name = match field_node_exec(n, 2, 0, "name") {
        Some(x) => match read_str(x) { Some(v) => v, None => { return None; } },
        None => { return None; },
    };
    let group = match field_node_exec(n, 2, 1, "group") {
        Some(x) => match read_group_list(x) { Some(v) => v, None => { return None; } },
        None => { return None; },
    };
    Some(Scene { name, group })
}

pub fn read_scene_list(n: &JsonNode) -> (res: Option<Vec<Scene>>)
    ensures
        match res {
            Some(v) => decode_scene_list(*n) == Some(scenes_view(v@)),
            None => decode_scene_list(*n) is None,
        },
{
    let a = match &n.value {
        JsonValue::Array(a) => a,
        _ => { return None; },
    };
    let mut out: Vec<Scene> = Vec::new();
    let mut i: usize = 0;
    while i < a.len()
        invariant
            n.value == JsonValue::Array(*a),
            i <= a@.len(),
            decode_list(a@, scene_decoder(), i as int) == Some(scenes_view(out@)),
        decreases a@.len() - i,
    {
        match read_scene(&a[i]) {
            Some(x) => {
                proof {
                    assert(scenes_view(out@.push(x)) =~= scenes_view(out@).push(x@));
                }
                out.push(x);
            },
            None => {
                proof {
                    lemma_decode_list_stuck(a@, scene_decoder(), i + 1, a@.len() as int);
                }
                return None;
            },
        }
        i = i + 1;
    }
    Some(out)
}

pub fn read_instance_list(n: &JsonNode) -> (res: Option<Vec<Instance>>)
    ensures
        match res {
            Some(v) => decode_instance_list(*n) == Some(instances_view(v@)),
            None => decode_instance_list(*n) is None,
        },
{
    let a = match &n.value {
        JsonValue::Array(a) => a,
        _ => { return None; },
    };
    let mut out: Vec<Instance> = Vec::new();
    let mut i: usize = 0;
    while i < a.len()
        invariant
            n.value == JsonValue::Array(*a),
            i <= a@.len(),
            decode_list(a@, instance_decoder(), i as int) == Some(instances_view(out@)),
        decreases a@.len() - i,
    {
        match read_instance(&a[i]) {
            Some(x) => {
                proof {
                    assert(instances_view(out@.push(x)) =~= instances_view(out@).push(x@));
                }
                out.push(x);
            },
            None => {
                proof {
                    lemma_decode_list_stuck(a@, instance_decoder(), i + 1, a@.len() as int);
                }
                return None;
            },
        }
        i = i + 1;
    }
    Some(out)
}

} // verus!
