use kplayer::config::{ServerSchema, ServerTokenType};
use kplayer::gateway::{is_core_started, log_filter, start_server_configs, transcode_output_path};
use kplayer::kpserver::config::KPConfig;
use kplayer::kpserver::message::KPServerMessage;
use kplayer::server::api::KPGApi;
use kplayer::server::controller::{plugin_arguments, MoveInstanceMedia, RemoveInstanceMedia, SeekInstanceMedia, SelectInstanceMedia, UpdateInstancePluginArgumentBody};
use kplayer::server::http::KPGHttp;
use kplayer::server::media::{KPMediaServer, KPMediaServerAction, KPStreamEventKind};
use kplayer::server::media_server::KPGMediaServer;
use kplayer::server::{context_debug, KPGServer, ServerContext};
use kplayer::util::error::KPGErrorCode;
use kplayer::util::event::KPEventMessage;

fn ctx(name: &str, schema: ServerSchema, port: u16) -> ServerContext {
    ServerContext { schema, name: name.to_string(), address: "0.0.0.0".to_string(), port }
}

#[test]
fn api_server_identity() {
    let api = KPGApi::new("api".to_string(), "127.0.0.1".to_string(), 4156);
    assert_eq!(api.get_name(), "api");
    let c = api.get_schema(ServerSchema::Http).unwrap();
    assert_eq!((c.name.as_str(), c.address.as_str(), c.port), ("api", "127.0.0.1", 4156));
}

#[test]
fn http_server_contexts() {
    let h = KPGHttp::new("web".to_string(), vec![ctx("a", ServerSchema::Http, 80), ctx("b", ServerSchema::Http, 81)]).unwrap();
    assert_eq!(h.get_name(), "web");
    assert_eq!(h.get_context("b".to_string()).unwrap().port, 81);
    assert!(h.get_context("c".to_string()).is_none());
}

#[test]
fn http_server_refuses_rtmp() {
    let e = KPGHttp::new("web".to_string(), vec![ctx("a", ServerSchema::Http, 80), ctx("r", ServerSchema::Rtmp, 1935)]).unwrap_err();
    assert_eq!(e.code(), KPGErrorCode::KPGServerNotSupportSchema);
    assert_eq!(
        e.message(),
        "not support schema on http server. context: ServerContext { schema: Rtmp, name: \"r\", address: \"0.0.0.0\", port: 1935 }"
    );
    assert_eq!(
        context_debug(&ctx("q\"x", ServerSchema::Unset, 1)),
        "ServerContext { schema: None, name: \"q\\\"x\", address: \"0.0.0.0\", port: 1 }"
    );
}

#[test]
fn media_server_contexts() {
    let m = KPMediaServer::new("media".to_string(), vec![ctx("r", ServerSchema::Rtmp, 1935)]);
    assert_eq!(m.get_name(), "media");
    assert_eq!(m.get_context("r".to_string()).unwrap().port, 1935);
    assert_eq!(KPMediaServer::notify_action(KPStreamEventKind::Publish), Some(KPMediaServerAction::ServerAddPusher));
    assert_eq!(KPMediaServer::notify_action(KPStreamEventKind::Other), None);
}

#[test]
fn media_server_tokens() {
    let mut m = KPGMediaServer::new("media".to_string());
    let cs = ServerTokenType::CSToken { server: "s".to_string(), client: "c".to_string() };
    let single = ServerTokenType::SingleToken { token: "t".to_string() };
    assert_eq!(KPGMediaServer::cs_token(&cs), Some(("s".to_string(), "c".to_string())));
    assert_eq!(KPGMediaServer::single_token(&single), Some("t".to_string()));
    let e = m.add_rtmp("r".to_string(), "0.0.0.0".to_string(), 1935, single.clone(), Ok(1935)).unwrap_err();
    assert_eq!(e.code(), KPGErrorCode::KPGServerMediaServerEnableSchemaFailed);
    assert_eq!(e.message(), "mismatch token type on the schema: rtmp, address: 0.0.0.0, port: 1935, token: SingleToken");
    let e = m.add_http("h".to_string(), "0.0.0.0".to_string(), 80, cs.clone(), Ok(80)).unwrap_err();
    assert_eq!(e.message(), "mismatch token type on the schema: http, address: 0.0.0.0, port: 80, token: CSToken");
    let e = m.add_rtmp("r".to_string(), "0.0.0.0".to_string(), 1935, cs.clone(), Err("busy".to_string())).unwrap_err();
    assert_eq!(e.message(), "schema: rtmp, address: 0.0.0.0, port: 1935, error: busy");
    assert!(m.contexts.is_empty());
    m.add_rtmp("r".to_string(), "0.0.0.0".to_string(), 1935, cs.clone(), Ok(1936)).unwrap();
    m.add_http("h".to_string(), "0.0.0.0".to_string(), 80, single.clone(), Ok(8080)).unwrap();
    m.add_rtmp("r".to_string(), "1.1.1.1".to_string(), 1935, cs, Ok(1937)).unwrap();
    assert_eq!(m.contexts.len(), 2);
    let r = m.get_schema(ServerSchema::Rtmp).unwrap();
    assert_eq!((r.address.as_str(), r.port), ("1.1.1.1", 1937));
    assert_eq!(m.get_schema(ServerSchema::Http).unwrap().port, 8080);
    assert!(m.get_schema(ServerSchema::Unset).is_none());
}

#[test]
fn media_server_lifecycle() {
    let mut m = KPGMediaServer::new("media".to_string());
    assert!(m.start(Ok(())).is_ok());
    assert!(m.is_start && !m.is_closed);
    let e = m.stop(Err("stuck".to_string())).unwrap_err();
    assert_eq!(e.code(), KPGErrorCode::KPGServerMediaServerStopFailed);
    assert_eq!(e.message(), "media server stop failed. error: stuck");
    assert!(m.is_closed);
    let mut n = KPGMediaServer::new("n".to_string());
    assert_eq!(n.start(Err("no".to_string())).unwrap_err().message(), "media server start failed. error: no");
    assert!(n.is_start && !n.is_closed);
}

#[test]
fn request_bodies() {
    assert!(!RemoveInstanceMedia { name: String::new() }.validate());
    assert!(RemoveInstanceMedia { name: "a".to_string() }.validate());
    assert!(MoveInstanceMedia { name: "a".to_string(), index: 3 }.validate());
    assert!(SeekInstanceMedia { seek: None, end: Some(3), is_persistence: None }.validate());
    assert!(!SelectInstanceMedia { name: String::new() }.validate());
    let body = UpdateInstancePluginArgumentBody { app: "text".to_string(), name: String::new(), arguments: vec![] };
    assert!(!body.validate());
    let args = vec![("a".to_string(), "1".to_string()), ("b".to_string(), String::new()), ("c".to_string(), "3".to_string())];
    assert_eq!(plugin_arguments(&args), vec![("a".to_string(), "1".to_string()), ("c".to_string(), "3".to_string())]);
}

#[test]
fn gateway_wiring() {
    let cs = start_server_configs(&"out".to_string(), &"rtmp://cdn/live/out".to_string(), &"transcode".to_string());
    assert!(matches!(&cs[0], KPConfig::rtmp_push { timeout: Some(10000), retry_interval: Some(5000), app_name, .. } if app_name == "transcode"));
    assert!(matches!(&cs[1], KPConfig::rtmp { port: 1935, gop_number: 29, name, .. } if name == "core"));
    assert_eq!(transcode_output_path(&"transcode".to_string(), &"out".to_string()), "rtmp://127.0.0.1:1935/transcode/out");
    let core = KPEventMessage::server(KPServerMessage::RtmpStart { name: "core".to_string(), address: "0.0.0.0".to_string(), port: 1935 });
    let other = KPEventMessage::server(KPServerMessage::RtmpStart { name: "x".to_string(), address: "0.0.0.0".to_string(), port: 1935 });
    assert!(is_core_started(&core));
    assert!(!is_core_started(&other));
    assert_eq!(log_filter(&None), "error,kplayer=info");
    assert_eq!(log_filter(&Some("debug".to_string())), "error,kplayer=debug");
}

#[test]
fn media_server_binds_default_rtmp_port() {
    assert_eq!(KPMediaServer::serve_address(), "0.0.0.0:1935");
}
