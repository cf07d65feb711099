use kplayer::kpserver::config::KPConfig;
use kplayer::kpserver::const_var::KPProtocol;
use kplayer::kpserver::forward::{ForwardAction, ForwardPullAction, ForwardPullPhase, KPForward};
use kplayer::kpserver::message::{KPHubEvent, KPServerMessage, KPStreamIdentifier};
use kplayer::kpserver::notify::{KPEventNotifier, KPLogNotifier, KPStreamNotice};
use kplayer::kpserver::parse_url::{get_url_info, UrlInfoError};
use kplayer::kpserver::server::{
    initialize_plan, pull_session_plan, KPServer, KPService, push_session_plan, session_failure_message, KPPullTask, KPPushTask,
    PullPhase, PushPhase, ServerAction, TaskAction, TaskEvent,
};

fn s(x: &str) -> String {
    x.to_string()
}

fn rtmp_sub(app: &str, stream: &str) -> TaskEvent {
    TaskEvent::Hub(KPHubEvent::Subscribe {
        identifier: KPStreamIdentifier::Rtmp { app_name: s(app), stream_name: s(stream) },
    })
}

fn rtmp_pub(app: &str, stream: &str) -> TaskEvent {
    TaskEvent::Hub(KPHubEvent::Publish {
        identifier: KPStreamIdentifier::Rtmp { app_name: s(app), stream_name: s(stream) },
    })
}

#[test]
fn url_info_with_port() {
    let r = get_url_info(&s("rtmp://example.com:1936/live/show")).unwrap();
    assert_eq!(r, (s("example.com:1936"), s("live"), s("show")));
}

#[test]
fn url_info_default_port() {
    let r = get_url_info(&s("rtmp://arch.bytelang.com/live/test")).unwrap();
    assert_eq!(r, (s("arch.bytelang.com:1935"), s("live"), s("test")));
}

#[test]
fn url_info_extra_segments_are_ignored() {
    let r = get_url_info(&s("rtmp://h:1/a/b/c")).unwrap();
    assert_eq!(r, (s("h:1"), s("a"), s("b")));
}

#[test]
fn url_info_wrong_scheme() {
    match get_url_info(&s("http://example.com/live/show")) {
        Err(e) => {
            assert!(matches!(e, UrlInfoError::UnsupportedProtocol(_)));
            assert_eq!(e.message(), "can not support forward source protocol. protocol: http");
        }
        Ok(_) => panic!("accepted an http url"),
    }
}

#[test]
fn url_info_missing_stream() {
    match get_url_info(&s("rtmp://example.com/live")) {
        Err(e) => {
            assert!(matches!(e, UrlInfoError::EmptyAppOrStream));
            assert_eq!(e.message(), "source app name or stream name can not be empty");
        }
        Ok(_) => panic!("accepted a url without stream"),
    }
}

#[test]
fn url_info_unparsable() {
    match get_url_info(&s("not a url")) {
        Err(UrlInfoError::Parse(m)) => assert!(!m.is_empty()),
        other => panic!("unexpected: {:?}", other),
    }
}

#[test]
fn protocol_names() {
    assert_eq!(KPProtocol::Rtmp.to_string(), "rtmp");
    assert_eq!(KPProtocol::from_str("rtmp"), Some(KPProtocol::Rtmp));
    assert_eq!(KPProtocol::from_str("http"), None);
}

#[test]
fn plan_starts_servers_in_order() {
    let configs = vec![
        KPConfig::rtmp { name: s("test"), address: s("0.0.0.0"), port: 1935, gop_number: 1 },
        KPConfig::httpflv { name: s("test"), port: 8080 },
        KPConfig::hls { name: s("test"), port: 8000 },
    ];
    let plan = initialize_plan(configs);
    assert_eq!(plan.len(), 9);
    match &plan[0] {
        ServerAction::RunRtmp { name, bind_address, gop_number } => {
            assert_eq!(name, "test");
            assert_eq!(bind_address, "0.0.0.0:1935");
            assert_eq!(*gop_number, 1);
        }
        other => panic!("unexpected: {:?}", other),
    }
    assert!(matches!(&plan[1], ServerAction::Notify(KPServerMessage::RtmpStart { port: 1935, .. })));
    assert!(matches!(&plan[2], ServerAction::RunHttpflv { port: 8080, .. }));
    assert!(matches!(&plan[3], ServerAction::Notify(KPServerMessage::HttpflvStart { .. })));
    assert!(matches!(&plan[4], ServerAction::RunHlsRemuxer { .. }));
    assert!(matches!(&plan[5], ServerAction::Notify(KPServerMessage::HlsStart { .. })));
    assert!(matches!(&plan[6], ServerAction::RunHlsServer { port: 8000, .. }));
    assert!(matches!(&plan[7], ServerAction::EnableHls));
    assert!(matches!(&plan[8], ServerAction::Notify(KPServerMessage::HlsStart { .. })));
}

#[test]
fn plan_spawns_pull_and_push_tasks() {
    let configs = vec![
        KPConfig::rtmp_pull {
            name: s("pull"),
            source_url: s("rtmp://arch.bytelang.com:1935/live/test"),
            app_name: None,
            stream_name: Some(s("tmp")),
            keep_alive: true,
            timeout: None,
            retry_interval: None,
        },
        KPConfig::rtmp_push {
            name: s("push"),
            app_name: s("live"),
            stream_name: s("tmp"),
            sink_url: s("rtmp://arch.bytelang.com:1935/live/forward"),
            timeout: Some(10000),
            retry_interval: Some(3000),
        },
    ];
    let plan = initialize_plan(configs);
    assert_eq!(plan.len(), 4);
    match &plan[0] {
        ServerAction::SpawnPull(t) => {
            assert_eq!(t.name, "pull");
            assert_eq!(t.phase, PullPhase::Idle);
            assert_eq!(t.retry_count, 0);
        }
        other => panic!("unexpected: {:?}", other),
    }
    assert!(matches!(&plan[1], ServerAction::EnablePull));
    assert!(matches!(&plan[2], ServerAction::SpawnPush(t) if t.sink_url == "rtmp://arch.bytelang.com:1935/live/forward"));
    assert!(matches!(&plan[3], ServerAction::EnablePush));
}

fn pull_task(keep_alive: bool, retry: Option<u64>) -> KPPullTask {
    KPPullTask::from_config(KPConfig::rtmp_pull {
        name: s("test"),
        source_url: s("rtmp://source.example:1935/live/test"),
        app_name: Some(s("live")),
        stream_name: Some(s("test")),
        keep_alive,
        timeout: Some(2000),
        retry_interval: retry,
    })
    .unwrap()
}

#[test]
fn pull_retries_count_attempts() {
    let mut t = pull_task(true, Some(5000));
    let a = t.step(TaskEvent::Start);
    assert_eq!(a.len(), 2);
    match &a[0] {
        TaskAction::Notify(KPServerMessage::RtmpPullStart { retry_count, retry_interval, .. }) => {
            assert_eq!(*retry_count, Some(1));
            assert_eq!(*retry_interval, Some(5000));
        }
        other => panic!("unexpected: {:?}", other),
    }
    assert!(matches!(a[1], TaskAction::Connect));
    let b = t.step(TaskEvent::SessionEnded(Some(s("connection refused"))));
    assert_eq!(b.len(), 2);
    match &b[0] {
        TaskAction::Notify(KPServerMessage::RtmpPullStop { error, source, .. }) => {
            assert_eq!(error.as_deref(), Some("connection refused"));
            assert_eq!(source, "rtmp://source.example:1935/live/test");
        }
        other => panic!("unexpected: {:?}", other),
    }
    assert!(matches!(b[1], TaskAction::Sleep(5000)));
    assert_eq!(t.phase, PullPhase::RetryWait);
    let c = t.step(TaskEvent::RetryElapsed);
    assert!(matches!(&c[0], TaskAction::Notify(KPServerMessage::RtmpPullStart { retry_count: Some(2), .. })));
    assert_eq!(t.retry_count, 2);
}

#[test]
fn pull_without_retry_finishes() {
    let mut t = pull_task(true, None);
    let a = t.step(TaskEvent::Start);
    assert!(matches!(&a[0], TaskAction::Notify(KPServerMessage::RtmpPullStart { retry_count: None, .. })));
    let b = t.step(TaskEvent::SessionEnded(None));
    assert_eq!(b.len(), 2);
    assert!(matches!(&b[0], TaskAction::Notify(KPServerMessage::RtmpPullStop { error: None, .. })));
    assert!(matches!(b[1], TaskAction::Stop));
    assert_eq!(t.phase, PullPhase::Finished);
    assert!(t.step(TaskEvent::RetryElapsed).is_empty());
    assert!(t.step(TaskEvent::Start).is_empty());
}

#[test]
fn pull_waits_for_matching_subscriber() {
    let mut t = pull_task(false, Some(5000));
    let a = t.step(TaskEvent::Start);
    assert!(matches!(a[..], [TaskAction::WaitHubEvent]));
    let b = t.step(rtmp_sub("live", "other"));
    assert!(matches!(b[..], [TaskAction::WaitHubEvent]));
    assert_eq!(t.phase, PullPhase::AwaitSubscriber);
    let c = t.step(rtmp_sub("live", "test"));
    assert!(matches!(c[1], TaskAction::Connect));
    assert_eq!(t.phase, PullPhase::Pulling);
    assert_eq!(t.retry_count, 1);
}

#[test]
fn pull_reports_closed_hub() {
    let mut t = pull_task(false, None);
    t.step(TaskEvent::Start);
    let a = t.step(TaskEvent::HubClosed(s("channel closed")));
    match &a[0] {
        TaskAction::Notify(KPServerMessage::Unknown { name, error }) => {
            assert_eq!(name, "test");
            assert_eq!(error, "channel closed");
        }
        other => panic!("unexpected: {:?}", other),
    }
    assert!(matches!(a[1], TaskAction::Stop));
}

#[test]
fn pull_with_bad_source_stops_silently() {
    let mut t = KPPullTask::from_config(KPConfig::rtmp_pull {
        name: s("bad"),
        source_url: s("http://source.example/live/test"),
        app_name: None,
        stream_name: None,
        keep_alive: false,
        timeout: None,
        retry_interval: None,
    })
    .unwrap();
    t.step(TaskEvent::Start);
    let a = t.step(rtmp_sub("live", "test"));
    assert!(matches!(a[..], [TaskAction::Stop]));
    assert_eq!(t.phase, PullPhase::Finished);
}

fn push_task(timeout: Option<u64>) -> KPPushTask {
    KPPushTask::from_config(KPConfig::rtmp_push {
        name: s("push"),
        app_name: s("live"),
        stream_name: s("tmp"),
        sink_url: s("rtmp://sink.example/live/forward"),
        timeout,
        retry_interval: Some(3000),
    })
    .unwrap()
}

#[test]
fn push_waits_for_publisher() {
    let mut t = push_task(Some(10000));
    let a = t.step(TaskEvent::Start);
    assert!(matches!(a[..], [TaskAction::ArmTimeout(10000), TaskAction::WaitHubEvent]));
    let b = t.step(rtmp_pub("live", "other"));
    assert!(matches!(b[..], [TaskAction::WaitHubEvent]));
    let c = t.step(rtmp_pub("live", "tmp"));
    assert!(matches!(&c[0], TaskAction::Notify(KPServerMessage::RtmpPushStart { .. })));
    assert!(matches!(c[1], TaskAction::Connect));
    let d = t.step(TaskEvent::SessionEnded(Some(s("broken pipe"))));
    match &d[0] {
        TaskAction::Notify(KPServerMessage::RtmpPushStop { error, .. }) => assert_eq!(error.as_deref(), Some("broken pipe")),
        other => panic!("unexpected: {:?}", other),
    }
    assert_eq!(t.phase, PushPhase::Finished);
}

#[test]
fn push_timeout_is_reported_then_pushes() {
    let mut t = push_task(Some(10000));
    t.step(TaskEvent::Start);
    let a = t.step(TaskEvent::TimedOut);
    assert_eq!(a.len(), 3);
    match &a[0] {
        TaskAction::Notify(KPServerMessage::RtmpPushStop { error, sink_url, .. }) => {
            assert_eq!(error.as_deref(), Some("find source resource timeout, error: deadline has elapsed"));
            assert_eq!(sink_url, "rtmp://sink.example/live/forward");
        }
        other => panic!("unexpected: {:?}", other),
    }
    assert!(matches!(&a[1], TaskAction::Notify(KPServerMessage::RtmpPushStart { .. })));
    assert!(matches!(a[2], TaskAction::Connect));
}

#[test]
fn push_without_timeout_starts_at_once() {
    let mut t = push_task(None);
    let a = t.step(TaskEvent::Start);
    assert!(matches!(&a[0], TaskAction::Notify(KPServerMessage::RtmpPushStart { .. })));
    assert_eq!(t.phase, PushPhase::Pushing);
}

#[test]
fn session_plans() {
    let p = pull_session_plan(&s("rtmp://src:1000/app/stream"), &None, &Some(s("local"))).unwrap();
    assert_eq!(p.address, "src:1000");
    assert_eq!(p.remote_app, "app");
    assert_eq!(p.remote_stream, "stream");
    assert_eq!(p.local_app, "app");
    assert_eq!(p.local_stream, "local");
    let q = push_session_plan(&s("rtmp://sink/live/out"), &s("live"), &s("tmp")).unwrap();
    assert_eq!(q.address, "sink:1935");
    assert_eq!(q.local_app, "live");
    assert_eq!(q.local_stream, "tmp");
    assert!(pull_session_plan(&s("rtmp://src"), &None, &None).is_err());
    assert_eq!(session_failure_message("timeout"), "client session failed. error: timeout");
}

#[test]
fn forward_waits_then_spawns() {
    let configs = vec![
        KPConfig::rtmp { name: s("main"), address: s("0.0.0.0"), port: 1935, gop_number: 1 },
        KPConfig::rtmp_pull {
            name: s("test"),
            source_url: s("rtmp://src/live/rtmp_pull"),
            app_name: Some(s("live")),
            stream_name: Some(s("rtmp_pull")),
            keep_alive: false,
            timeout: Some(2000),
            retry_interval: Some(5000),
        },
    ];
    let mut f = KPForward::new(configs);
    let a = f.step(TaskEvent::Start);
    assert!(matches!(a[..], [ForwardAction::WaitHubEvent]));
    assert!(f.waiting);
    let b = f.step(rtmp_sub("live", "rtmp_pull"));
    assert_eq!(b.len(), 2);
    match &b[0] {
        ForwardAction::SpawnPull(p) => {
            assert_eq!(p.source_url, "rtmp://src/live/rtmp_pull");
            assert_eq!(p.phase, ForwardPullPhase::Idle);
        }
        other => panic!("unexpected: {:?}", other),
    }
    assert!(matches!(&b[1], ForwardAction::Done(Ok(()))));
    assert!(f.done);
    assert!(f.step(TaskEvent::Start).is_empty());
}

#[test]
fn forward_pull_loop_retries() {
    let mut p = kplayer::kpserver::forward::KPForwardPull {
        name: s("test"),
        source_url: s("rtmp://src/live/x"),
        app_name: None,
        stream_name: None,
        timeout: None,
        retry_interval: Some(5000),
        phase: ForwardPullPhase::Idle,
    };
    assert_eq!(p.step(TaskEvent::Start), Some(ForwardPullAction::Connect));
    assert_eq!(p.step(TaskEvent::SessionEnded(None)), Some(ForwardPullAction::Sleep(5000)));
    assert_eq!(p.step(TaskEvent::RetryElapsed), Some(ForwardPullAction::Connect));
    p.retry_interval = None;
    assert_eq!(p.step(TaskEvent::SessionEnded(Some(s("x")))), Some(ForwardPullAction::Stop));
    assert_eq!(p.phase, ForwardPullPhase::Finished);
}

#[test]
fn forward_reports_bad_source() {
    let configs = vec![KPConfig::rtmp_pull {
        name: s("test"),
        source_url: s("ftp://src/live/x"),
        app_name: None,
        stream_name: None,
        keep_alive: false,
        timeout: None,
        retry_interval: None,
    }];
    let mut f = KPForward::new(configs);
    f.step(TaskEvent::Start);
    let a = f.step(rtmp_sub("live", "x"));
    match &a[..] {
        [ForwardAction::Done(Err(m))] => assert_eq!(m, "can not support forward source protocol. protocol: ftp"),
        other => panic!("unexpected: {:?}", other),
    }
}

#[test]
fn notifiers() {
    let _ = KPLogNotifier::new();
    let n = KPEventNotifier::new();
    let notice = KPStreamNotice::Publish {
        identifier: KPStreamIdentifier::Rtmp { app_name: s("live"), stream_name: s("a") },
        info: s("publisher"),
    };
    assert!(matches!(n.on_publish_notify(notice.clone()), Some(KPServerMessage::Publish { .. })));
    assert!(n.on_play_notify(notice).is_none());
    assert!(n.on_stop_notify(KPStreamNotice::Other).is_none());
}

#[test]
fn service_and_server() {
    let mut service = KPService::new();
    service.append(KPConfig::httpflv { name: s("flv"), port: 8080 });
    service.append(KPConfig::rtmp { name: s("main"), address: s("127.0.0.1"), port: 1936, gop_number: 0 });
    assert_eq!(service.config.len(), 2);
    let plan = KPServer::new(service).initialize();
    assert_eq!(plan.len(), 4);
    assert!(matches!(&plan[2], ServerAction::RunRtmp { bind_address, .. } if bind_address == "127.0.0.1:1936"));
    assert!(matches!(&plan[3], ServerAction::Notify(KPServerMessage::RtmpStart { address, .. }) if address == "127.0.0.1"));
}

#[test]
fn forward_initialize_with_kept_alive_pull() {
    let mut f = KPForward::new(vec![KPConfig::rtmp_pull {
        name: s("p"),
        source_url: s("rtmp://src/live/x"),
        app_name: None,
        stream_name: None,
        keep_alive: true,
        timeout: None,
        retry_interval: None,
    }]);
    let a = f.initialize();
    assert_eq!(a.len(), 2);
    assert!(matches!(&a[0], ForwardAction::SpawnPull(p) if p.name == "p"));
    assert!(matches!(&a[1], ForwardAction::Done(Ok(()))));
}

#[test]
fn pull_run_announces_successive_attempts() {
    let mut t = pull_task(true, Some(1000));
    let mut counts = Vec::new();
    let mut events = vec![TaskEvent::Start];
    for _ in 0..3 {
        events.push(TaskEvent::SessionEnded(Some(s("refused"))));
        events.push(TaskEvent::RetryElapsed);
    }
    for ev in events {
        for a in t.step(ev) {
            if let TaskAction::Notify(KPServerMessage::RtmpPullStart { retry_count: Some(c), .. }) = a {
                counts.push(c);
            }
        }
    }
    assert_eq!(counts, vec![1, 2, 3, 4]);
    assert_eq!(t.retry_count, 4);
}

#[test]
fn push_run_connects_once() {
    let mut t = push_task(Some(100));
    let events = vec![
        TaskEvent::Start,
        rtmp_pub("live", "tmp"),
        rtmp_pub("live", "tmp"),
        TaskEvent::TimedOut,
        TaskEvent::SessionEnded(None),
        TaskEvent::Start,
    ];
    let mut connects = 0;
    for ev in events {
        connects += t.step(ev).iter().filter(|a| matches!(a, TaskAction::Connect)).count();
    }
    assert_eq!(connects, 1);
    assert_eq!(t.phase, PushPhase::Finished);
}

#[test]
fn forward_source_url_info() {
    assert_eq!(
        KPForward::get_source_url_info(&s("rtmp://h/live/a")).unwrap(),
        (s("h:1935"), s("live"), s("a"))
    );
    assert!(matches!(KPForward::get_source_url_info(&s("rtmp:live/a")), Err(UrlInfoError::EmptyHost)));
}

#[test]
fn message_names() {
    assert_eq!(KPServerMessage::HlsStart { name: s("h") }.name(), "HlsStart");
    assert_eq!(KPServerMessage::Unknown { name: s("u"), error: s("e") }.name(), "Unknown");
}
