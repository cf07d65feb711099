use kplayer::config::file::{config_search_paths, config_not_found_error, parse_file_content};
use kplayer::config::version::version_300::parse_config;
use kplayer::config::{ResourceType, ServerSchema, ServerTokenType, ServerType};
use kplayer::util::error::KPGErrorCode;

const SAMPLE: &str = r#"{
  "version": "3.0.0",
  "playlist": [
    {
      "name": "main",
      "play_mode": "loop",
      "start_point": 1,
      "resource": [
        "movie.mp4",
        {"type": "directory", "directory": "media", "extension": ["mp4", "flv"]},
        {"type": "detail", "path": "a.mp4", "name": "intro", "seek": 10, "end": 20, "stream": {"video": 0, "audio": 1, "subtitle": -1}}
      ]
    }
  ],
  "server": [
    {"name": "media", "target": "media", "group": [{"name": "rtmp", "schema": "rtmp", "port": 1935}, {"name": "web", "schema": "http", "port": 8080, "token": "secret"}]},
    {"name": "api", "target": "api", "group": [{"name": "api", "schema": "http", "port": 4156, "address": "0.0.0.0"}]}
  ],
  "instance": [
    {"name": "ins", "playlist": "main", "scene": "", "server": "media",
     "cache": {"on": true, "cache_directory": "cache"},
     "encode": {"video": {"width": 1280, "height": 720, "fps": 25},
                "audio": {"channel_layout": 3, "channels": 2, "sample_rate": 44100},
                "mode": "rtmp", "max_bit_rate": 3000, "avg_quality": 0, "profile": "high", "preset": "veryfast", "gop_uint": 1}}
  ]
}"#;

#[test]
fn parses_sample_configuration() {
    let root = parse_config(&SAMPLE.as_bytes().to_vec()).unwrap().unwrap();
    assert_eq!(root.version, "\"3.0.0\"");
    assert_eq!(root.playlist.len(), 1);
    let pl = &root.playlist[0];
    assert_eq!(pl.name, "main");
    assert_eq!(pl.play_mode, "loop");
    assert_eq!(pl.start_point, 1);
    assert_eq!(pl.universal_seek, -1);
    assert_eq!(pl.resource.len(), 3);
    assert_eq!(pl.resource[0], ResourceType::ResourceSingle { path: "movie.mp4".to_string() });
    assert_eq!(
        pl.resource[1],
        ResourceType::ResourceDirectory { directory: "media".to_string(), extension: vec!["mp4".to_string(), "flv".to_string()] }
    );
    match &pl.resource[2] {
        ResourceType::ResourceDetail { path, name, seek, end, stream } => {
            assert_eq!(path, "a.mp4");
            assert_eq!(name.as_deref(), Some("intro"));
            assert_eq!((*seek, *end), (Some(10), Some(20)));
            let st = stream.unwrap();
            assert_eq!((st.video, st.audio, st.subtitle), (0, 1, -1));
        }
        other => panic!("unexpected: {:?}", other),
    }
    assert_eq!(root.server.len(), 2);
    let media = &root.server[0];
    assert_eq!(media.target, ServerType::Media);
    assert_eq!(media.group[0].schema, ServerSchema::Rtmp);
    assert_eq!(media.group[0].address, "127.0.0.1");
    assert_eq!(media.group[0].token, ServerTokenType::CSToken { server: String::new(), client: String::new() });
    assert_eq!(media.group[1].token, ServerTokenType::SingleToken { token: "\"secret\"".to_string() });
    assert_eq!(root.server[1].target, ServerType::Api);
    assert_eq!(root.server[1].group[0].port, 4156);
    assert_eq!(root.instance.len(), 1);
    assert_eq!(root.instance[0].encode.audio.sample_rate, 44100);
}

#[test]
fn unnamed_group_gets_random_name() {
    let text = r#"{"server": [{"name": "m", "target": "media", "group": [{"schema": "rtmp", "port": 1935}]}]}"#;
    let root = parse_config(&text.as_bytes().to_vec()).unwrap().unwrap();
    assert_eq!(root.server[0].group[0].name.chars().count(), 8);
    assert!(root.server[0].group[0].name.chars().all(|c| c.is_ascii_digit() || ('a'..='f').contains(&c)));
    assert_eq!(root.server[0].group[0].address, "127.0.0.1");
}

#[test]
fn rejects_non_json() {
    let err = parse_config(&b"not json".to_vec()).unwrap().unwrap_err();
    assert_eq!(err.code(), KPGErrorCode::KPGConfigParseFailed);
}

#[test]
fn rejects_unknown_server_target() {
    let text = r#"{"server": [{"name": "m", "target": "other", "group": []}]}"#;
    let err = parse_config(&text.as_bytes().to_vec()).unwrap().unwrap_err();
    assert_eq!(err.message(), "not support server target");
}

#[test]
fn rejects_root_that_is_not_an_object() {
    let err = parse_config(&b"[1, 2]".to_vec()).unwrap().unwrap_err();
    assert_eq!(err.message(), "invalid root json format");
}

#[test]
fn json5_content() {
    let text = "{playlist: [{name: 'p', resource: ['a.mp4',],},], // comment\n}".to_string();
    let root = parse_file_content(&"\"config.json5\"".to_string(), &text).unwrap().unwrap();
    assert_eq!(root.playlist[0].name, "p");
    assert_eq!(root.playlist[0].play_mode, "list");
}

#[test]
fn json5_error_names_file() {
    let e = parse_file_content(&"\"config.json5\"".to_string(), &"{oops".to_string()).unwrap().unwrap_err();
    assert_eq!(e.code(), KPGErrorCode::KPGConfigFileOpenFailed);
    assert!(e.message().starts_with("parse json5 format failed. path: \"config.json5\", error: "));
}

#[test]
fn search_paths_and_not_found() {
    assert_eq!(config_search_paths(), vec!["config.json".to_string(), "config.json5".to_string()]);
    assert_eq!(
        config_not_found_error().message(),
        "not found config file. search_config_path: [\"config.json\", \"config.json5\"]"
    );
}

fn parse_error(text: &str) -> String {
    parse_config(&text.as_bytes().to_vec()).unwrap().unwrap_err().message()
}

#[test]
fn error_messages_name_the_fault() {
    assert_eq!(parse_error(r#"{"playlist": [{"resource": []}]}"#), "playlist name can not be empty");
    assert_eq!(parse_error(r#"{"playlist": [{"name": 3, "resource": []}]}"#), "playlist name invalid json format");
    assert_eq!(parse_error(r#"{"playlist": [{"name": "p"}]}"#), "invalid playlist resource json format");
    assert_eq!(parse_error(r#"{"playlist": [{"name": "p", "start_point": "x", "resource": []}]}"#), "playlist start_point invalid json format");
    assert_eq!(parse_error(r#"{"playlist": [{"name": "p", "resource": [7]}]}"#), "playlist resource invalid json format");
    assert_eq!(parse_error(r#"{"playlist": 1}"#), "invalid playlist json format");
    assert_eq!(parse_error(r#"{"server": [{"name": "m", "target": "media", "group": [{"schema": "ws", "port": 1}]}]}"#),
        "server group not support schema. schema: \"ws\"");
    assert_eq!(parse_error(r#"{"server": [{"name": "m", "target": "media", "group": [{"port": 1}]}]}"#),
        "server group schema can not be empty");
    assert_eq!(parse_error(r#"{"server": [{"name": "m", "target": "media", "group": [{"schema": "rtmp"}]}]}"#),
        "server group port can not be empty");
    assert_eq!(parse_error(r#"{"server": [{"name": "m", "target": "media"}]}"#), "server name can not be empty");
    assert_eq!(parse_error(r#"{"server": [{"target": "media", "group": []}]}"#), "server name can not be empty");
    assert_eq!(parse_error(r#"{"server": [{"name": "m", "group": []}]}"#), "server target can not be empty");
    assert_eq!(parse_error(r#"{"output": [{"name": "o", "group": []}]}"#), "output source can not be empty");
    assert_eq!(parse_error(r#"{"output": [{"name": "o", "source": "s", "group": [1]}]}"#), "playlist output invalid json format");
    assert_eq!(parse_error(r#"{"scene": 5}"#), "scene invalid json format");
    assert_eq!(parse_error(r#"{"instance": [{}]}"#), "instance invalid json format");
    assert!(parse_error("{").starts_with("parse version 3.0.0 failed. error: "));
}

#[test]
fn unknown_members_are_skipped() {
    let root = parse_config(&br#"{"other": [1, 2], "version": 3}"#.to_vec()).unwrap().unwrap();
    assert_eq!(root.version, "3");
    assert!(root.playlist.is_empty());
}

#[test]
fn panicking_input_is_refused() {
    assert!(parse_config(&br#"{"playlist": [{"name": "p", "resource": [{"type": 1}]}]}"#.to_vec()).is_none());
}
