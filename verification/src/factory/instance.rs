//! What the factory makes of the configuration's instances: each
//! instance's encoding, cache, playlist, scene and server, checked against
//! what the factory has built. Building the transcoder is left to the
//! caller.

use vstd::prelude::*;
use crate::config::{Instance, InstanceView, Video, Audio, ServerSchema, strings_view};
use crate::factory::general::{instance_cache_path_spec, instance_source_spec};
use crate::factory::KPGFactory;
use crate::factory::server::{KPGServerPlan, KPGServerPlanView, entries_view, registered, config_error};
use crate::server::ServerContext;
use crate::util::error::{KPGError, KPGErrorCode, KPGErrorView};
use crate::util::text::{string_of, append_str, str_equal, decimal};

verus! {

/// The encoder profiles the factory accepts.
#[derive(Debug, Clone, Copy, PartialEq, Eq, Structural)]
pub enum KPEncodeProfile {
    High,
}

/// The encoder presets the factory accepts.
#[derive(Debug, Clone, Copy, PartialEq, Eq, Structural)]
pub enum KPEncodePreset {
    VeryFast,
}

/// The encoding parameters of an instance.
#[derive(Debug, Clone, Copy, PartialEq, Eq, Structural)]
pub struct KPEncodePlan {
    pub video: Video,
    pub audio: Audio,
    pub max_bit_rate: i64,
    pub avg_quality: u32,
    pub profile: KPEncodeProfile,
    pub preset: KPEncodePreset,
    pub gop_uint: u8,
}

/// An instance to build: its name, the playlist, scene and server it uses
/// (where it names one), its cache directory where caching is on, its
/// encoding, whether timestamps are kept consistent, and the address it
/// streams to where its server has an RTMP endpoint.
#[derive(Debug)]
pub struct KPInstancePlan {
    pub name: String,
    pub playlist: Option<String>,
    pub scene: Option<String>,
    pub server: Option<String>,
    pub cache_path: Option<String>,
    pub encode: KPEncodePlan,
    pub consistent_timestamp: bool,
    pub output_url: Option<String>,
}

#[verifier::ext_equal]
pub struct KPInstancePlanView {
    pub name: Seq<char>,
    pub playlist: Option<Seq<char>>,
    pub scene: Option<Seq<char>>,
    pub server: Option<Seq<char>>,
    pub cache_path: Option<Seq<char>>,
    pub encode: KPEncodePlan,
    pub consistent_timestamp: bool,
    pub output_url: Option<Seq<char>>,
}

/// The view of an optional string.
pub open spec fn opt_view(o: Option<String>) -> Option<Seq<char>> {
    match o {
        Some(s) => Some(s@),
        None => None,
    }
}

impl View for KPInstancePlan {
    type V = KPInstancePlanView;

    open spec fn view(&self) -> KPInstancePlanView {
        KPInstancePlanView {
            name: self.name@,
            playlist: opt_view(self.playlist),
            scene: opt_view(self.scene),
            server: opt_view(self.server),
            cache_path: opt_view(self.cache_path),
            encode: self.encode,
            consistent_timestamp: self.consistent_timestamp,
            output_url: opt_view(self.output_url),
        }
    }
}

/// A name, or nothing where it is empty.
pub open spec fn nonempty(s: Seq<char>) -> Option<Seq<char>> {
    if s.len() == 0 { None } else { Some(s) }
}

/// The index of the first context of the schema, if any.
pub open spec fn first_with_schema(cs: Seq<ServerContext>, schema: ServerSchema) -> Option<int> {
    if exists|i: int| 0 <= i < cs.len() && cs[i].schema == schema
        && forall|j: int| 0 <= j < i ==> cs[j].schema != schema {
        Some(choose|i: int| 0 <= i < cs.len() && cs[i].schema == schema
            && forall|j: int| 0 <= j < i ==> cs[j].schema != schema)
    } else {
        None
    }
}

/// The port of a server's first RTMP context, if it has one.
pub open spec fn rtmp_port(p: KPGServerPlanView) -> Option<u16> {
    let cs = match p {
        KPGServerPlanView::Media { contexts, .. } => contexts,
        KPGServerPlanView::Api { contexts, .. } => contexts,
    };
    match first_with_schema(cs, ServerSchema::Rtmp) {
        Some(i) => Some(cs[i].port),
        None => None,
    }
}

/// The instance a configuration entry describes, given the names of the
/// playlists and scenes and the servers the factory has built; or the first
/// error: an encoder profile other than `high`, a preset other than
/// `veryfast`, or a playlist, scene or server that is named but not built.
pub open spec fn instance_plan_spec(
    ins: InstanceView,
    playlists: Seq<Seq<char>>,
    scenes: Seq<Seq<char>>,
    servers: Seq<(Seq<char>, KPGServerPlanView)>,
) -> Result<KPInstancePlanView, KPGErrorView> {
    let e = ins.encode;
    if e.profile != "high"@ {
        Err(config_error("invalid encode profile. instance: "@ + ins.name + ", profile: "@ + e.profile))
    } else if e.preset != "veryfast"@ {
        Err(config_error("invalid encode preset. instance: "@ + ins.name + ", preset: "@ + e.preset))
    } else if ins.playlist.len() > 0 && !playlists.contains(ins.playlist) {
        Err(config_error("couldn't find the playlist for the target configuration instance. instance: "@
            + ins.name + ", playlist: "@ + ins.playlist))
    } else if ins.scene.len() > 0 && !scenes.contains(ins.scene) {
        Err(config_error("couldn't find the scene for the target configuration instance. instance: "@
            + ins.name + ", scene: "@ + ins.scene))
    } else if ins.server.len() > 0 && registered(servers, ins.server) is None {
        Err(config_error("couldn't find the server for the target configuration instance. instance: "@
            + ins.name + ", scene: "@ + ins.scene))
    } else {
        Ok(KPInstancePlanView {
            name: ins.name,
            playlist: nonempty(ins.playlist),
            scene: nonempty(ins.scene),
            server: nonempty(ins.server),
            cache_path: if ins.cache.on { Some(instance_cache_path_spec(ins.name)) } else { None },
            encode: KPEncodePlan {
                video: e.video,
                audio: e.audio,
                max_bit_rate: e.max_bit_rate,
                avg_quality: e.avg_quality,
                profile: KPEncodeProfile::High,
                preset: KPEncodePreset::VeryFast,
                gop_uint: e.gop_uint,
            },
            consistent_timestamp: e.mode == "rtmp"@,
            output_url: if ins.server.len() > 0 {
                match rtmp_port(registered(servers, ins.server)->0) {
                    Some(port) => Some(instance_source_spec(ins.name, port)),
                    None => None,
                }
            } else {
                None
            },
        })
    }
}

/// Whether `names` holds `name`.
pub fn contains_name(names: &Vec<String>, name: &String) -> (res: bool)
    ensures
        res == strings_view(names@).contains(name@),
{
    let ghost sv = strings_view(names@);
    let mut i: usize = 0;
    while i < names.len()
        invariant
            i <= names.len(),
            sv == strings_view(names@),
            forall|j: int| 0 <= j < i ==> sv[j] != name@,
        decreases names.len() - i,
    {
        if names[i] == *name {
            assert(sv[i as int] == name@);
            return true;
        }
        i = i + 1;
    }
    assert(!sv.contains(name@)) by {
        if sv.contains(name@) {
            let k = choose|k: int| 0 <= k < sv.len() && sv[k] == name@;
            assert(sv[k] != name@);
        }
    }
    false
}

/// The index of the server registered last under `name`, if any.
pub fn find_registered(servers: &Vec<(String, KPGServerPlan)>, name: &String) -> (res: Option<usize>)
    ensures
        match res {
            None => registered(entries_view(servers@), name@) is None,
            Some(i) => i < servers@.len() && registered(entries_view(servers@), name@) == Some(servers@[i as int].1@),
        },
{
    let ghost ev = entries_view(servers@);
    let mut k: usize = servers.len();
    proof { assert(ev.take(servers.len() as int) =~= ev); }
    while k > 0
        invariant
            k <= servers.len(),
            ev == entries_view(servers@),
            registered(ev, name@) == registered(ev.take(k as int), name@),
        decreases k,
    {
        let ghost t = ev.take(k as int);
        proof {
            assert(t.drop_last() =~= ev.take(k - 1));
            assert(t.last() == ev[k - 1]);
        }
        if servers[k - 1].0 == *name {
            return Some(k - 1);
        }
        k = k - 1;
    }
    proof { assert(ev.take(0) =~= Seq::<(Seq<char>, KPGServerPlanView)>::empty()); }
    None
}

/// The port of a server's first RTMP context, if it has one.
pub fn server_rtmp_port(p: &KPGServerPlan) -> (res: Option<u16>)
    ensures
        res == rtmp_port(p@),
{
    let cs = match p {
        KPGServerPlan::Media { contexts, .. } => contexts,
        KPGServerPlan::Api(h) => &h.server_context,
    };
    let ghost gcs = match p@ {
        KPGServerPlanView::Media { contexts, .. } => contexts,
        KPGServerPlanView::Api { contexts, .. } => contexts,
    };
    assert(cs@ == gcs);
    let mut i: usize = 0;
    while i < cs.len()
        invariant
            i <= cs.len(),
            cs@ == gcs,
            gcs == match p@ {
                KPGServerPlanView::Media { contexts, .. } => contexts,
                KPGServerPlanView::Api { contexts, .. } => contexts,
            },
            forall|j: int| 0 <= j < i ==> cs@[j].schema != ServerSchema::Rtmp,
        decreases cs.len() - i,
    {
        if cs[i].schema == ServerSchema::Rtmp {
            proof {
                let w = choose|k: int| 0 <= k < cs@.len() && cs@[k].schema == ServerSchema::Rtmp
                    && forall|j: int| 0 <= j < k ==> cs@[j].schema != ServerSchema::Rtmp;
                assert(0 <= i < cs@.len() && cs@[i as int].schema == ServerSchema::Rtmp
                    && forall|j: int| 0 <= j < i ==> cs@[j].schema != ServerSchema::Rtmp);
                if w < i { assert(cs@[w].schema != ServerSchema::Rtmp); }
                if w > i { assert(cs@[i as int].schema != ServerSchema::Rtmp); }
                assert(w == i);
                assert(first_with_schema(cs@, ServerSchema::Rtmp) == Some(i as int));
            }
            return Some(cs[i].port);
        }
        i = i + 1;
    }
    None
}

fn opt_nonempty(s: &String) -> (res: Option<String>)
    ensures
        opt_view(res) == nonempty(s@),
{
    if s.as_str().unicode_len() == 0 { None } else { Some(s.clone()) }
}

fn instance_error(prefix: &str, name: &String, middle: &str, value: &String) -> (res: KPGError)
    ensures
        res@ == config_error(prefix@ + name@ + middle@ + value@),
{
    let mut m = string_of(prefix);
    append_str(&mut m, name.as_str());
    append_str(&mut m, middle);
    append_str(&mut m, value.as_str());
    KPGError::new_with_string(KPGErrorCode::KPGFactoryParseConfigFailed, m)
}

/// The instance a configuration entry describes, as `instance_plan_spec`
/// gives it.
pub fn instance_plan(
    ins: &Instance,
    playlists: &Vec<String>,
    scenes: &Vec<String>,
    servers: &Vec<(String, KPGServerPlan)>,
) -> (res: Result<KPInstancePlan, KPGError>)
    ensures
        match (res, instance_plan_spec(ins@, strings_view(playlists@), strings_view(scenes@), entries_view(servers@))) {
            (Ok(p), Ok(s)) => p@ == s,
            (Err(e), Err(s)) => e@ == s,
            _ => false,
        },
{
    proof {
        reveal_strlit("high");
        reveal_strlit("veryfast");
        reveal_strlit("rtmp");
        reveal_strlit("invalid encode profile. instance: ");
        reveal_strlit(", profile: ");
        reveal_strlit("invalid encode preset. instance: ");
        reveal_strlit(", preset: ");
        reveal_strlit("couldn't find the playlist for the target configuration instance. instance: ");
        reveal_strlit(", playlist: ");
        reveal_strlit("couldn't find the scene for the target configuration instance. instance: ");
        reveal_strlit(", scene: ");
        reveal_strlit("couldn't find the server for the target configuration instance. instance: ");
    }
    let e = &ins.encode;
    if !str_equal(e.profile.as_str(), "high") {
        return Err(instance_error("invalid encode profile. instance: ", &ins.name, ", profile: ", &e.profile));
    }
    if !str_equal(e.preset.as_str(), "veryfast") {
        return Err(instance_error("invalid encode preset. instance: ", &ins.name, ", preset: ", &e.preset));
    }
    if ins.playlist.as_str().unicode_len() > 0 && !contains_name(playlists, &ins.playlist) {
        return Err(instance_error("couldn't find the playlist for the target configuration instance. instance: ",
            &ins.name, ", playlist: ", &ins.playlist));
    }
    if ins.scene.as_str().unicode_len() > 0 && !contains_name(scenes, &ins.scene) {
        return Err(instance_error("couldn't find the scene for the target configuration instance. instance: ",
            &ins.name, ", scene: ", &ins.scene));
    }
    let mut output_url: Option<String> = None;
    if ins.server.as_str().unicode_len() > 0 {
        match find_registered(servers, &ins.server) {
            None => {
                return Err(instance_error("couldn't find the server for the target configuration instance. instance: ",
                    &ins.name, ", scene: ", &ins.scene));
            },
            Some(k) => {
                match server_rtmp_port(&servers[k].1) {
                    Some(port) => { output_url = Some(KPGFactory::get_instance_source(ins.name.clone(), port)); },
                    None => {},
                }
            },
        }
    }
    let cache_path = if ins.cache.on { Some(KPGFactory::get_instance_cache_path(&ins.name)) } else { None };
    let encode = KPEncodePlan {
        video: e.video,
        audio: e.audio,
        max_bit_rate: e.max_bit_rate,
        avg_quality: e.avg_quality,
        profile: KPEncodeProfile::High,
        preset: KPEncodePreset::VeryFast,
        gop_uint: e.gop_uint,
    };
    let res = KPInstancePlan {
        name: ins.name.clone(),
        playlist: opt_nonempty(&ins.playlist),
        scene: opt_nonempty(&ins.scene),
        server: opt_nonempty(&ins.server),
        cache_path,
        encode,
        consistent_timestamp: str_equal(e.mode.as_str(), "rtmp"),
        output_url,
    };
    assert(res@ =~= instance_plan_spec(ins@, strings_view(playlists@), strings_view(scenes@), entries_view(servers@))->Ok_0);
    Ok(res)
}

/// An instance is accepted exactly when its encoder profile is `high`, its
/// preset `veryfast`, and the playlist, scene and server it names (if any)
/// have been built; its timestamps are kept consistent exactly when it
/// streams in `rtmp` mode.
pub proof fn lemma_instance_accepted(
    ins: InstanceView,
    playlists: Seq<Seq<char>>,
    scenes: Seq<Seq<char>>,
    servers: Seq<(Seq<char>, KPGServerPlanView)>,
)
    ensures
        instance_plan_spec(ins, playlists, scenes, servers) is Ok <==> {
            &&& ins.encode.profile == "high"@
            &&& ins.encode.preset == "veryfast"@
            &&& (ins.playlist.len() > 0 ==> playlists.contains(ins.playlist))
            &&& (ins.scene.len() > 0 ==> scenes.contains(ins.scene))
            &&& (ins.server.len() > 0 ==> registered(servers, ins.server) is Some)
        },
        instance_plan_spec(ins, playlists, scenes, servers) matches Ok(p) ==>
            p.consistent_timestamp == (ins.encode.mode == "rtmp"@),
{
}


/// An accepted instance caches exactly when its cache is on, and then
/// under `cache/` followed by its name; it keeps its name, names the
/// playlist, scene and server it was given (where they are not empty), and
/// outputs to `rtmp://127.0.0.1:<port>/live/<name>` where its server has an
/// RTMP context on that port, and nowhere otherwise.
pub proof fn lemma_instance_cache(
    ins: InstanceView,
    playlists: Seq<Seq<char>>,
    scenes: Seq<Seq<char>>,
    servers: Seq<(Seq<char>, KPGServerPlanView)>,
)
    requires
        instance_plan_spec(ins, playlists, scenes, servers) is Ok,
    ensures
        ({
            let p = instance_plan_spec(ins, playlists, scenes, servers)->Ok_0;
            &&& (p.cache_path is Some <==> ins.cache.on)
            &&& ins.cache.on ==> p.cache_path == Some("cache/"@ + ins.name)
            &&& p.name == ins.name
            &&& (ins.playlist.len() > 0 <==> p.playlist == Some(ins.playlist))
            &&& (ins.scene.len() > 0 <==> p.scene == Some(ins.scene))
            &&& (ins.server.len() > 0 <==> p.server == Some(ins.server))
            &&& p.output_url == if ins.server.len() > 0 {
                match rtmp_port(registered(servers, ins.server)->0) {
                    Some(port) => Some("rtmp://127.0.0.1:"@ + decimal(port as nat) + "/live/"@ + ins.name),
                    None => None,
                }
            } else {
                None
            }
        }),
{
}

} // verus!
