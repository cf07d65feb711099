//! The gateway's configuration: its data model and the parser of its
//! version 3.0.0 JSON form.

pub mod decode;
pub mod file;
pub mod json;
pub mod version;

use vstd::prelude::*;

verus! {

/// The whole configuration.
#[derive(Default, Debug, Clone, PartialEq)]
pub struct Root {
    pub version: String,
    pub playlist: Vec<Playlist>,
    pub scene: Vec<Scene>,
    pub output: Vec<Output>,
    pub server: Vec<Server>,
    pub instance: Vec<Instance>,
}

/// A list of media to play.
#[derive(Default, Debug, Clone, PartialEq)]
pub struct Playlist {
    pub name: String,
    pub resource: Vec<ResourceType>,
    pub start_point: usize,
    pub play_mode: String,
    pub universal_seek: i64,
    pub universal_end: i64,
    pub universal_reverse_seek: i64,
    pub universal_reverse_end: i64,
}

/// One entry of a playlist.
#[derive(Debug, Clone, PartialEq)]
pub enum ResourceType {
    ResourceSingle { path: String },
    ResourceDirectory { directory: String, extension: Vec<String> },
    ResourceDetail {
        path: String,
        name: Option<String>,
        seek: Option<i32>,
        end: Option<i32>,
        stream: Option<Stream>,
    },
}

impl Default for ResourceType {
    fn default() -> (res: Self)
        ensures
            res@ == (ResourceTypeView::ResourceSingle { path: Seq::empty() }),
    {
        ResourceType::ResourceSingle { path: String::new() }
    }
}

/// The stream indices that a detailed resource asks for.
#[derive(Default, Debug, Clone, Copy, PartialEq, Eq, Structural)]
pub struct Stream {
    pub video: i64,
    pub audio: i64,
    pub subtitle: i64,
}

/// A named group of plugins.
#[derive(Default, Debug, Clone, PartialEq)]
pub struct Scene {
    pub name: String,
    pub group: Vec<Group>,
}

/// One plugin of a scene.
#[derive(Default, Debug, Clone, PartialEq)]
pub struct Group {
    pub name: String,
    pub app: String,
    pub params: Params,
}

/// The parameters of a plugin.
#[derive(Default, Debug, Clone, PartialEq)]
pub struct Params {
    pub text: String,
    pub y: i64,
    pub font_size: i64,
}

/// A push target of an instance's stream.
#[derive(Default, Debug, Clone, PartialEq)]
pub struct Output {
    pub name: String,
    pub source: String,
    pub group: Vec<OutputType>,
}

/// One destination of an output.
#[derive(Debug, Clone, PartialEq)]
pub enum OutputType {
    OutputSingle { path: String },
    OutputDetail { name: String, reconnect_internal: u32, path: String },
}

impl Default for OutputType {
    fn default() -> (res: Self)
        ensures
            res@ == (OutputTypeView::OutputSingle { path: Seq::empty() }),
    {
        OutputType::OutputSingle { path: String::new() }
    }
}

/// A server with its listening groups.
#[derive(Default, Debug, Clone, PartialEq)]
pub struct Server {
    pub name: String,
    pub target: ServerType,
    pub group: Vec<ServerGroup>,
}

/// One listening endpoint of a server.
#[derive(Default, Debug, Clone, PartialEq)]
pub struct ServerGroup {
    pub name: String,
    pub port: u32,
    pub address: String,
    pub token: ServerTokenType,
    pub schema: ServerSchema,
}

/// What a server serves.
#[derive(Debug, Clone, Copy, PartialEq, Eq, Structural, Hash)]
pub enum ServerType {
    /// No target; printed as `None`.
    Unset,
    Media,
    Api,
}

impl Default for ServerType {
    fn default() -> (res: Self)
        ensures
            res == ServerType::Unset,
    {
        ServerType::Unset
    }
}

impl ServerType {
    /// The variant's name.
    pub fn name(&self) -> (res: &'static str)
        ensures
            res@ == server_type_name(*self)@,
    {
        match self {
            ServerType::Unset => "None",
            ServerType::Media => "Media",
            ServerType::Api => "Api",
        }
    }
}

/// The printed name of a server type.
pub open spec fn server_type_name(t: ServerType) -> &'static str {
    match t {
        ServerType::Unset => "None",
        ServerType::Media => "Media",
        ServerType::Api => "Api",
    }
}

/// The token of a server endpoint.
#[derive(Debug, Clone, PartialEq)]
pub enum ServerTokenType {
    SingleToken { token: String },
    CSToken { server: String, client: String },
}

impl Default for ServerTokenType {
    fn default() -> (res: Self)
        ensures
            res@ == (ServerTokenTypeView::SingleToken { token: Seq::empty() }),
    {
        ServerTokenType::SingleToken { token: String::new() }
    }
}

impl ServerTokenType {
    /// The variant's name.
    pub fn name(&self) -> (res: &'static str)
        ensures
            res@ == (match self { ServerTokenType::SingleToken { .. } => "SingleToken"@, ServerTokenType::CSToken { .. } => "CSToken"@ }),
    {
        match self {
            ServerTokenType::SingleToken { .. } => "SingleToken",
            ServerTokenType::CSToken { .. } => "CSToken",
        }
    }
}

/// The protocol of a server endpoint.
#[derive(Debug, Clone, Copy, PartialEq, Eq, Structural, Hash)]
pub enum ServerSchema {
    /// No schema; printed as `None`.
    Unset,
    Rtmp,
    Http,
}

impl Default for ServerSchema {
    fn default() -> (res: Self)
        ensures
            res == ServerSchema::Unset,
    {
        ServerSchema::Unset
    }
}

impl ServerSchema {
    /// The variant's name.
    pub fn name(&self) -> (res: &'static str)
        ensures
            res@ == server_schema_name(*self)@,
    {
        match self {
            ServerSchema::Unset => "None",
            ServerSchema::Rtmp => "Rtmp",
            ServerSchema::Http => "Http",
        }
    }
}

/// The printed name of a schema.
pub open spec fn server_schema_name(s: ServerSchema) -> &'static str {
    match s {
        ServerSchema::Unset => "None",
        ServerSchema::Rtmp => "Rtmp",
        ServerSchema::Http => "Http",
    }
}

/// A transcoding instance.
#[derive(Default, Debug, Clone, PartialEq)]
pub struct Instance {
    pub name: String,
    pub playlist: String,
    pub scene: String,
    pub server: String,
    pub cache: Cache,
    pub encode: Encode,
}

/// The cache settings of an instance.
#[derive(Default, Debug, Clone, PartialEq)]
pub struct Cache {
    pub on: bool,
    pub cache_directory: String,
}

/// The encoder settings of an instance.
#[derive(Default, Debug, Clone, PartialEq)]
pub struct Encode {
    pub video: Video,
    pub audio: Audio,
    pub mode: String,
    pub max_bit_rate: i64,
    pub avg_quality: u32,
    pub profile: String,
    pub preset: String,
    pub gop_uint: u8,
}

/// The video encoder settings.
#[derive(Default, Debug, Clone, Copy, PartialEq, Eq, Structural)]
pub struct Video {
    pub width: u16,
    pub height: u16,
    pub fps: u8,
}

/// The audio encoder settings.
#[derive(Default, Debug, Clone, Copy, PartialEq, Eq, Structural)]
pub struct Audio {
    pub channel_layout: u8,
    pub channels: u8,
    pub sample_rate: u16,
}

// ----- views -----

#[verifier::ext_equal]
pub struct RootView {
    pub version: Seq<char>,
    pub playlist: Seq<PlaylistView>,
    pub scene: Seq<SceneView>,
    pub output: Seq<OutputView>,
    pub server: Seq<ServerView>,
    pub instance: Seq<InstanceView>,
}

#[verifier::ext_equal]
pub struct PlaylistView {
    pub name: Seq<char>,
    pub resource: Seq<ResourceTypeView>,
    pub start_point: usize,
    pub play_mode: Seq<char>,
    pub universal_seek: i64,
    pub universal_end: i64,
    pub universal_reverse_seek: i64,
    pub universal_reverse_end: i64,
}

#[verifier::ext_equal]
pub enum ResourceTypeView {
    ResourceSingle { path: Seq<char> },
    ResourceDirectory { directory: Seq<char>, extension: Seq<Seq<char>> },
    ResourceDetail {
        path: Seq<char>,
        name: Option<Seq<char>>,
        seek: Option<i32>,
        end: Option<i32>,
        stream: Option<Stream>,
    },
}

#[verifier::ext_equal]
pub struct SceneView {
    pub name: Seq<char>,
    pub group: Seq<GroupView>,
}

#[verifier::ext_equal]
pub struct GroupView {
    pub name: Seq<char>,
    pub app: Seq<char>,
    pub params: ParamsView,
}

#[verifier::ext_equal]
pub struct ParamsView {
    pub text: Seq<char>,
    pub y: i64,
    pub font_size: i64,
}

#[verifier::ext_equal]
pub struct OutputView {
    pub name: Seq<char>,
    pub source: Seq<char>,
    pub group: Seq<OutputTypeView>,
}

#[verifier::ext_equal]
pub enum OutputTypeView {
    OutputSingle { path: Seq<char> },
    OutputDetail { name: Seq<char>, reconnect_internal: u32, path: Seq<char> },
}

#[verifier::ext_equal]
pub struct ServerView {
    pub name: Seq<char>,
    pub target: ServerType,
    pub group: Seq<ServerGroupView>,
}

#[verifier::ext_equal]
pub struct ServerGroupView {
    pub name: Seq<char>,
    pub port: u32,
    pub address: Seq<char>,
    pub token: ServerTokenTypeView,
    pub schema: ServerSchema,
}

#[verifier::ext_equal]
pub enum ServerTokenTypeView {
    SingleToken { token: Seq<char> },
    CSToken { server: Seq<char>, client: Seq<char> },
}

#[verifier::ext_equal]
pub struct InstanceView {
    pub name: Seq<char>,
    pub playlist: Seq<char>,
    pub scene: Seq<char>,
    pub server: Seq<char>,
    pub cache: CacheView,
    pub encode: EncodeView,
}

#[verifier::ext_equal]
pub struct CacheView {
    pub on: bool,
    pub cache_directory: Seq<char>,
}

#[verifier::ext_equal]
pub struct EncodeView {
    pub video: Video,
    pub audio: Audio,
    pub mode: Seq<char>,
    pub max_bit_rate: i64,
    pub avg_quality: u32,
    pub profile: Seq<char>,
    pub preset: Seq<char>,
    pub gop_uint: u8,
}

/// The views of the strings of a list.
pub open spec fn strings_view(v: Seq<String>) -> Seq<Seq<char>> {
    v.map_values(|s: String| s@)
}

pub open spec fn playlists_view(v: Seq<Playlist>) -> Seq<PlaylistView> {
    v.map_values(|x: Playlist| x@)
}

pub open spec fn scenes_view(v: Seq<Scene>) -> Seq<SceneView> {
    v.map_values(|x: Scene| x@)
}

pub open spec fn outputs_view(v: Seq<Output>) -> Seq<OutputView> {
    v.map_values(|x: Output| x@)
}

pub open spec fn servers_view(v: Seq<Server>) -> Seq<ServerView> {
    v.map_values(|x: Server| x@)
}

pub open spec fn instances_view(v: Seq<Instance>) -> Seq<InstanceView> {
    v.map_values(|x: Instance| x@)
}

pub open spec fn resources_view(v: Seq<ResourceType>) -> Seq<ResourceTypeView> {
    v.map_values(|x: ResourceType| x@)
}

pub open spec fn groups_view(v: Seq<Group>) -> Seq<GroupView> {
    v.map_values(|x: Group| x@)
}

pub open spec fn output_types_view(v: Seq<OutputType>) -> Seq<OutputTypeView> {
    v.map_values(|x: OutputType| x@)
}

pub open spec fn server_groups_view(v: Seq<ServerGroup>) -> Seq<ServerGroupView> {
    v.map_values(|x: ServerGroup| x@)
}

impl View for Root {
    type V = RootView;

    open spec fn view(&self) -> RootView {
        RootView {
            version: self.version@,
            playlist: playlists_view(self.playlist@),
            scene: scenes_view(self.scene@),
            output: outputs_view(self.output@),
            server: servers_view(self.server@),
            instance: instances_view(self.instance@),
        }
    }
}

impl View for Playlist {
    type V = PlaylistView;

    open spec fn view(&self) -> PlaylistView {
        PlaylistView {
            name: self.name@,
            resource: resources_view(self.resource@),
            start_point: self.start_point,
            play_mode: self.play_mode@,
            universal_seek: self.universal_seek,
            universal_end: self.universal_end,
            universal_reverse_seek: self.universal_reverse_seek,
            universal_reverse_end: self.universal_reverse_end,
        }
    }
}

impl View for ResourceType {
    type V = ResourceTypeView;

    open spec fn view(&self) -> ResourceTypeView {
        match self {
            ResourceType::ResourceSingle { path } => ResourceTypeView::ResourceSingle { path: path@ },
            ResourceType::ResourceDirectory { directory, extension } => ResourceTypeView::ResourceDirectory {
                directory: directory@,
                extension: strings_view(extension@),
            },
            ResourceType::ResourceDetail { path, name, seek, end, stream } => ResourceTypeView::ResourceDetail {
                path: path@,
                name: match name { Some(n) => Some(n@), None => None },
                seek: *seek,
                end: *end,
                stream: *stream,
            },
        }
    }
}

impl View for Scene {
    type V = SceneView;

    open spec fn view(&self) -> SceneView {
        SceneView { name: self.name@, group: groups_view(self.group@) }
    }
}

impl View for Group {
    type V = GroupView;

    open spec fn view(&self) -> GroupView {
        GroupView { name: self.name@, app: self.app@, params: self.params@ }
    }
}

impl View for Params {
    type V = ParamsView;

    open spec fn view(&self) -> ParamsView {
        ParamsView { text: self.text@, y: self.y, font_size: self.font_size }
    }
}

impl View for Output {
    type V = OutputView;

    open spec fn view(&self) -> OutputView {
        OutputView {
            name: self.name@,
            source: self.source@,
            group: output_types_view(self.group@),
        }
    }
}

impl View for OutputType {
    type V = OutputTypeView;

    open spec fn view(&self) -> OutputTypeView {
        match self {
            OutputType::OutputSingle { path } => OutputTypeView::OutputSingle { path: path@ },
            OutputType::OutputDetail { name, reconnect_internal, path } => OutputTypeView::OutputDetail {
                name: name@,
                reconnect_internal: *reconnect_internal,
                path: path@,
            },
        }
    }
}

impl View for Server {
    type V = ServerView;

    open spec fn view(&self) -> ServerView {
        ServerView {
            name: self.name@,
            target: self.target,
            group: server_groups_view(self.group@),
        }
    }
}

impl View for ServerGroup {
    type V = ServerGroupView;

    open spec fn view(&self) -> ServerGroupView {
        ServerGroupView {
            name: self.name@,
            port: self.port,
            address: self.address@,
            token: self.token@,
            schema: self.schema,
        }
    }
}

impl View for ServerTokenType {
    type V = ServerTokenTypeView;

    open spec fn view(&self) -> ServerTokenTypeView {
        match self {
            ServerTokenType::SingleToken { token } => ServerTokenTypeView::SingleToken { token: token@ },
            ServerTokenType::CSToken { server, client } => ServerTokenTypeView::CSToken {
                server: server@,
                client: client@,
            },
        }
    }
}

impl View for Instance {
    type V = InstanceView;

    open spec fn view(&self) -> InstanceView {
        InstanceView {
            name: self.name@,
            playlist: self.playlist@,
            scene: self.scene@,
            server: self.server@,
            cache: self.cache@,
            encode: self.encode@,
        }
    }
}

impl View for Cache {
    type V = CacheView;

    open spec fn view(&self) -> CacheView {
        CacheView { on: self.on, cache_directory: self.cache_directory@ }
    }
}

impl View for Encode {
    type V = EncodeView;

    open spec fn view(&self) -> EncodeView {
        EncodeView {
            video: self.video,
            audio: self.audio,
            mode: self.mode@,
            max_bit_rate: self.max_bit_rate,
            avg_quality: self.avg_quality,
            profile: self.profile@,
            preset: self.preset@,
            gop_uint: self.gop_uint,
        }
    }
}

} // verus!
