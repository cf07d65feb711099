use kplayer::config::version::version_300::parse_config;
use kplayer::config::{Playlist, ResourceType, Server, ServerGroup, ServerSchema, ServerTokenType, ServerType, Stream};
use kplayer::factory::instance::{instance_plan, KPEncodeProfile};
use kplayer::factory::output::KPGOutput;
use kplayer::factory::playlist::{
    expect_streams, play_model, playlist_media, playlist_plan, KPMediaKind, KPMediaOutcome, KPPlayModel, KPPlaylistItem,
    KPResourceOutcome,
};
use kplayer::factory::scene::{plugin_check, plugin_needs_download, KPPluginCheck, KPPluginInformation};
use kplayer::config::{Group, Params};
use kplayer::util::error::KPGError;
use kplayer::factory::server::{create_server_entries, KPGServerPlan};
use kplayer::factory::{KPGFactory, ThreadResult, ThreadType};
use kplayer::util::error::KPGErrorCode;

fn group(name: &str, schema: ServerSchema, port: u32) -> ServerGroup {
    ServerGroup {
        name: name.to_string(),
        port,
        address: "0.0.0.0".to_string(),
        token: ServerTokenType::SingleToken { token: String::new() },
        schema,
    }
}

#[test]
fn paths() {
    assert_eq!(KPGFactory::get_instance_source("main".to_string(), 1935), "rtmp://127.0.0.1:1935/live/main");
    assert_eq!(KPGFactory::get_instance_cache_path(&"main".to_string()), "cache/main");
    assert_eq!(KPGFactory::get_plugin_file_path(&"text".to_string()), "plugin/text.kpe");
    assert_eq!(KPGFactory::get_font_file_path(&"sans".to_string()), "plugin/sans.ttf");
}

#[test]
fn output_accessors() {
    let o = KPGOutput::new("out".to_string(), "rtmp://a/live/x".to_string(), "rtmp://b/live/y".to_string());
    assert_eq!(o.get_name(), "out");
    assert_eq!(o.get_source_path(), "rtmp://a/live/x");
    assert_eq!(o.get_push_path(), "rtmp://b/live/y");
}

#[test]
fn play_modes() {
    assert_eq!(play_model(&"list".to_string()), Some(KPPlayModel::List));
    assert_eq!(play_model(&"loop".to_string()), Some(KPPlayModel::Loop));
    assert_eq!(play_model(&"random".to_string()), Some(KPPlayModel::Random));
    assert_eq!(play_model(&"shuffle".to_string()), None);
}

#[test]
fn stream_indexes_skip_negative() {
    let v = expect_streams(&Some(Stream { video: 0, audio: -1, subtitle: 2 }));
    assert_eq!(v, vec![(KPMediaKind::Video, 0), (KPMediaKind::Subtitle, 2)]);
    assert!(expect_streams(&None).is_empty());
}

#[test]
fn playlist_plan_items() {
    let pl = Playlist {
        name: "main".to_string(),
        resource: vec![
            ResourceType::ResourceSingle { path: "a.mp4".to_string() },
            ResourceType::ResourceDirectory { directory: "d".to_string(), extension: vec!["mp4".to_string()] },
        ],
        start_point: 2,
        play_mode: "random".to_string(),
        universal_seek: -1,
        universal_end: -1,
        universal_reverse_seek: -1,
        universal_reverse_end: -1,
    };
    let p = playlist_plan(&pl).unwrap();
    assert_eq!(p.mode, KPPlayModel::Random);
    assert_eq!(p.start_point, 2);
    assert_eq!(p.items.len(), 2);
    assert!(matches!(&p.items[0], KPPlaylistItem::Media(m) if m.path == "a.mp4" && m.name.is_none()));
    assert!(matches!(&p.items[1], KPPlaylistItem::Directory { directory, .. } if directory == "d"));
}

#[test]
fn playlist_bad_mode() {
    let pl = Playlist { name: "main".to_string(), play_mode: "shuffle".to_string(), ..Default::default() };
    let e = playlist_plan(&pl).unwrap_err();
    assert_eq!(e.code(), KPGErrorCode::KPGFactoryParseConfigFailed);
    assert_eq!(e.message(), "invalid playlist play model. name: main, play_model: shuffle");
}

#[test]
fn server_entries() {
    let servers = vec![
        Server { name: "media".to_string(), target: ServerType::Media, group: vec![group("r", ServerSchema::Rtmp, 1935), group("h", ServerSchema::Http, 8080)] },
        Server { name: "api".to_string(), target: ServerType::Api, group: vec![group("a", ServerSchema::Http, 4156)] },
    ];
    let es = create_server_entries(&servers).unwrap();
    assert_eq!(es.len(), 2);
    assert_eq!(es[0].0, "media");
    match &es[0].1 {
        KPGServerPlan::Media { contexts, .. } => {
            assert_eq!(contexts.len(), 2);
            assert_eq!(contexts[0].port, 1935);
        }
        other => panic!("unexpected: {:?}", other),
    }
    assert!(matches!(&es[1].1, KPGServerPlan::Api(h) if h.name == "a" && h.server_context[0].port == 4156));
}

#[test]
fn server_errors() {
    let none = vec![Server { name: "x".to_string(), target: ServerType::Unset, group: vec![] }];
    assert_eq!(create_server_entries(&none).unwrap_err().message(), "invalid server schema. schema: None");
    let api_rtmp = vec![Server { name: "x".to_string(), target: ServerType::Api, group: vec![group("g", ServerSchema::Rtmp, 1)] }];
    assert_eq!(create_server_entries(&api_rtmp).unwrap_err().message(), "not support api server schema. schema: Rtmp");
    let media_none = vec![Server { name: "x".to_string(), target: ServerType::Media, group: vec![group("g", ServerSchema::Unset, 1)] }];
    assert_eq!(create_server_entries(&media_none).unwrap_err().message(), "not support media server schema. schema: None");
}

const SAMPLE: &str = r#"{
  "playlist": [{"name": "main", "play_mode": "loop", "resource": ["movie.mp4"]}],
  "server": [{"name": "media", "target": "media", "group": [{"name": "rtmp", "schema": "rtmp", "port": 1936}]}],
  "instance": [
    {"name": "ins", "playlist": "main", "scene": "", "server": "media",
     "cache": {"on": true, "cache_directory": "cache"},
     "encode": {"video": {"width": 1280, "height": 720, "fps": 25},
                "audio": {"channel_layout": 3, "channels": 2, "sample_rate": 44100},
                "mode": "rtmp", "max_bit_rate": 3000, "avg_quality": 0, "profile": "high", "preset": "veryfast", "gop_uint": 1}}
  ]
}"#;

fn sample_media() -> Vec<Vec<KPResourceOutcome>> {
    vec![vec![KPResourceOutcome::Media(KPMediaOutcome::Added)]]
}

#[test]
fn factory_creates_everything() {
    let root = parse_config(&SAMPLE.as_bytes().to_vec()).unwrap().unwrap();
    let mut f = KPGFactory::new("kplayer".to_string());
    f.create(&root, &sample_media(), &vec![]).unwrap();
    assert_eq!(f.playlist.len(), 1);
    assert_eq!(f.server.len(), 1);
    assert_eq!(f.instance.len(), 1);
    let ins = &f.instance[0];
    assert_eq!(ins.output_url.as_deref(), Some("rtmp://127.0.0.1:1936/live/ins"));
    assert_eq!(ins.cache_path.as_deref(), Some("cache/ins"));
    assert!(ins.consistent_timestamp);
    assert_eq!(ins.encode.profile, KPEncodeProfile::High);
    assert_eq!(f.launch_server_names(None).unwrap(), vec!["media".to_string()]);
    assert_eq!(f.launch_instance_names(Some(&"ins".to_string())).unwrap(), vec!["ins".to_string()]);
    let e = f.launch_server_names(Some(&"nope".to_string())).unwrap_err();
    assert_eq!(e.code(), KPGErrorCode::KPGFactoryLaunchServerFailed);
    assert_eq!(e.message(), "name not found. name: nope");
    let e = f.launch_instance_names(Some(&"nope".to_string())).unwrap_err();
    assert_eq!(e.message(), "instance name not found. name: nope");
}

#[test]
fn instance_errors() {
    let root = parse_config(&SAMPLE.as_bytes().to_vec()).unwrap().unwrap();
    let mut ins = root.instance[0].clone();
    ins.encode.profile = "main".to_string();
    let e = instance_plan(&ins, &vec!["main".to_string()], &vec![], &vec![]).unwrap_err();
    assert_eq!(e.message(), "invalid encode profile. instance: ins, profile: main");
    let mut ins = root.instance[0].clone();
    ins.encode.preset = "slow".to_string();
    let e = instance_plan(&ins, &vec!["main".to_string()], &vec![], &vec![]).unwrap_err();
    assert_eq!(e.message(), "invalid encode preset. instance: ins, preset: slow");
    let ins = root.instance[0].clone();
    let e = instance_plan(&ins, &vec![], &vec![], &vec![]).unwrap_err();
    assert_eq!(e.message(), "couldn't find the playlist for the target configuration instance. instance: ins, playlist: main");
    let e = instance_plan(&ins, &vec!["main".to_string()], &vec![], &vec![]).unwrap_err();
    assert_eq!(e.message(), "couldn't find the server for the target configuration instance. instance: ins, scene: ");
    let mut ins2 = root.instance[0].clone();
    ins2.scene = "s".to_string();
    let e = instance_plan(&ins2, &vec!["main".to_string()], &vec![], &vec![]).unwrap_err();
    assert_eq!(e.message(), "couldn't find the scene for the target configuration instance. instance: ins, scene: s");
}

#[test]
fn later_server_of_same_name_wins() {
    let servers = vec![
        Server { name: "m".to_string(), target: ServerType::Media, group: vec![group("r", ServerSchema::Rtmp, 1000)] },
        Server { name: "m".to_string(), target: ServerType::Media, group: vec![group("r", ServerSchema::Rtmp, 2000)] },
    ];
    let es = create_server_entries(&servers).unwrap();
    let root = parse_config(&SAMPLE.as_bytes().to_vec()).unwrap().unwrap();
    let mut ins = root.instance[0].clone();
    ins.server = "m".to_string();
    let p = instance_plan(&ins, &vec!["main".to_string()], &vec![], &es).unwrap();
    assert_eq!(p.output_url.as_deref(), Some("rtmp://127.0.0.1:2000/live/ins"));
}

#[test]
fn thread_results() {
    let a = ThreadResult { thread_name: "s".to_string(), thread_type: ThreadType::Server };
    assert_eq!(a.clone(), a);
    assert_ne!(ThreadType::Server, ThreadType::Output);
}

#[test]
fn server_list_keeps_last_registration() {
    let mut f = KPGFactory::default();
    assert!(f.name.is_empty());
    let root = kplayer::config::Root {
        server: vec![
            Server { name: "api".to_string(), target: ServerType::Api, group: vec![group("a", ServerSchema::Http, 1), group("b", ServerSchema::Http, 2)] },
            Server { name: "media".to_string(), target: ServerType::Media, group: vec![group("r", ServerSchema::Rtmp, 1935)] },
        ],
        ..Default::default()
    };
    f.create_server(&root).unwrap();
    assert_eq!(f.server.len(), 3);
    assert_eq!(f.get_server_list(), vec!["api".to_string(), "media".to_string()]);
    assert!(f.create_output(&root).is_ok());
    assert!(f.get_output_list().is_empty());
    assert!(f.get_instance_list().is_empty());
    assert!(f.get_instance(&"x".to_string()).is_none());
}

#[test]
fn instance_lookup() {
    let root = parse_config(&SAMPLE.as_bytes().to_vec()).unwrap().unwrap();
    let mut f = KPGFactory::new("k".to_string());
    f.create(&root, &sample_media(), &vec![]).unwrap();
    assert_eq!(f.get_instance_list(), vec!["ins".to_string()]);
    assert_eq!(f.get_instance(&"ins".to_string()).unwrap().name, "ins");
}

#[test]
fn outputs_and_playlists() {
    let mut o = KPGOutput::new("o".to_string(), "s".to_string(), "p".to_string());
    assert!(o.serve().is_ok());
    assert_eq!(o.get_name(), "o");
    let root = parse_config(&SAMPLE.as_bytes().to_vec()).unwrap().unwrap();
    let mut f = KPGFactory::new("k".to_string());
    f.create(&root, &sample_media(), &vec![]).unwrap();
    assert_eq!(f.get_playlist().len(), 1);
    assert_eq!(f.get_playlist()[0].name, "main");
    assert!(f.launch_output_names(None).is_empty());
    assert!(f.launch_output_names(Some(&"x".to_string())).is_empty());
}

fn media_items() -> Vec<KPPlaylistItem> {
    let pl = Playlist {
        name: "main".to_string(),
        resource: vec![
            ResourceType::ResourceSingle { path: "a.mp4".to_string() },
            ResourceType::ResourceDirectory { directory: "d".to_string(), extension: vec!["mp4".to_string()] },
            ResourceType::ResourceSingle { path: "b.mp4".to_string() },
        ],
        play_mode: "list".to_string(),
        ..Default::default()
    };
    playlist_plan(&pl).unwrap().items
}

#[test]
fn playlist_media_in_listing_order_without_unopened() {
    let items = media_items();
    let outs = vec![
        KPResourceOutcome::Media(KPMediaOutcome::OpenFailed),
        KPResourceOutcome::Listed(vec![
            ("d/x.mp4".to_string(), KPMediaOutcome::Added),
            ("d/y.mp4".to_string(), KPMediaOutcome::OpenFailed),
            ("d/z.mp4".to_string(), KPMediaOutcome::Added),
        ]),
        KPResourceOutcome::Media(KPMediaOutcome::Added),
    ];
    let media = playlist_media(&"main".to_string(), &items, &outs).unwrap();
    let paths: Vec<&str> = media.iter().map(|m| m.path.as_str()).collect();
    assert_eq!(paths, vec!["d/x.mp4", "d/z.mp4", "b.mp4"]);
    assert!(media[0].name.is_none() && media[0].expect_streams.is_empty());
}

#[test]
fn playlist_unreadable_directory() {
    let items = media_items();
    let outs = vec![
        KPResourceOutcome::Media(KPMediaOutcome::Added),
        KPResourceOutcome::Unreadable("No such file or directory (os error 2)".to_string()),
        KPResourceOutcome::Media(KPMediaOutcome::AddFailed("late".to_string())),
    ];
    let e = playlist_media(&"main".to_string(), &items, &outs).unwrap_err();
    assert_eq!(e.code(), KPGErrorCode::KPGUtilReadDirectoryFailed);
    assert_eq!(e.message(), "read directory failed. path: \"d\", error: No such file or directory (os error 2)");
}

#[test]
fn playlist_refused_media() {
    let items = media_items();
    let outs = vec![
        KPResourceOutcome::Media(KPMediaOutcome::Added),
        KPResourceOutcome::Listed(vec![("d/x.mp4".to_string(), KPMediaOutcome::AddFailed("full".to_string()))]),
        KPResourceOutcome::Media(KPMediaOutcome::Added),
    ];
    let e = playlist_media(&"main".to_string(), &items, &outs).unwrap_err();
    assert_eq!(e.code(), KPGErrorCode::KPGFactoryParseConfigFailed);
    assert_eq!(e.message(), "add media to playlist failed. playlist: main, media: d/x.mp4, error: full");
}

#[test]
fn factory_stops_at_unreadable_directory() {
    let root = kplayer::config::Root {
        playlist: vec![Playlist {
            name: "main".to_string(),
            resource: vec![ResourceType::ResourceDirectory { directory: "v".to_string(), extension: vec![] }],
            play_mode: "loop".to_string(),
            ..Default::default()
        }],
        ..Default::default()
    };
    let mut f = KPGFactory::new("k".to_string());
    let e = f.create(&root, &vec![vec![KPResourceOutcome::Unreadable("denied".to_string())]], &vec![]).unwrap_err();
    assert_eq!(e.message(), "read directory failed. path: \"v\", error: denied");
    assert!(f.playlist.is_empty());
    f.create(&root, &vec![vec![KPResourceOutcome::Listed(vec![("v/a.flv".to_string(), KPMediaOutcome::Added)])]], &vec![]).unwrap();
    assert_eq!(f.playlist[0].media.len(), 1);
    assert_eq!(f.playlist[0].media[0].path, "v/a.flv");
}

fn text_plugin() -> Group {
    Group { name: "title".to_string(), app: "text".to_string(), params: Params::default() }
}

fn information() -> Result<KPPluginInformation, KPGError> {
    Ok(KPPluginInformation { url: "http://center/text.kpe".to_string(), hash: "900150983cd24fb0d6963f7d28e17f72".to_string() })
}

#[test]
fn plugin_download_decision() {
    assert!(!plugin_needs_download(&Some(b"abc".to_vec()), &"900150983cd24fb0d6963f7d28e17f72".to_string()));
    assert!(plugin_needs_download(&Some(b"abd".to_vec()), &"900150983cd24fb0d6963f7d28e17f72".to_string()));
    assert!(plugin_needs_download(&None, &"900150983cd24fb0d6963f7d28e17f72".to_string()));
}

#[test]
fn plugin_checks() {
    let g = text_plugin();
    let err = KPGError::new(KPGErrorCode::KPGJsonRPCFailed, "no answer");
    let c = KPPluginCheck { information: Err(err), local: None, download: Ok(()), content: Ok(vec![]) };
    let e = plugin_check(&g, &c).unwrap_err();
    assert_eq!((e.code(), e.message()), (KPGErrorCode::KPGJsonRPCFailed, "no answer".to_string()));

    let c = KPPluginCheck { information: information(), local: None, download: Err("timeout".to_string()), content: Ok(vec![1]) };
    let e = plugin_check(&g, &c).unwrap_err();
    assert_eq!(e.code(), KPGErrorCode::KPGPluginCenterDownloadFailed);
    assert_eq!(e.message(), "download plugin file failed. app: text, url: http://center/text.kpe, error: timeout");

    let c = KPPluginCheck { information: information(), local: Some(b"abc".to_vec()), download: Err("timeout".to_string()), content: Ok(b"abc".to_vec()) };
    let p = plugin_check(&g, &c).unwrap();
    assert_eq!((p.name.as_str(), p.app.as_str(), p.file_path.as_str()), ("title", "text", "plugin/text.kpe"));
    assert_eq!(p.content, b"abc".to_vec());

    let read = KPGError::new(KPGErrorCode::KPGFactoryOpenPluginFailed, "open plugin file failed");
    let c = KPPluginCheck { information: information(), local: Some(b"old".to_vec()), download: Ok(()), content: Err(read) };
    let e = plugin_check(&g, &c).unwrap_err();
    assert_eq!(e.code(), KPGErrorCode::KPGFactoryOpenPluginFailed);
}
