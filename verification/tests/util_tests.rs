use kplayer::config::json::{JsonNode, JsonNumber, JsonValue};
use kplayer::kpserver::message::KPServerMessage;
use kplayer::util::error::{KPGError, KPGErrorCode};
use kplayer::util::event::{event_log_level, message_log_level, KPEventMessage, KPLogLevel};
use kplayer::util::file::{compare_md5, filter_by_extension, hex_lower_string, read_directory_error};
use kplayer::util::jsonrpc::{jsonrpc_call_error, jsonrpc_response, rpc_answer};
use kplayer::util::rand::{rand_number, rand_string};
use kplayer::util::time::KPDuration;

#[test]
fn error_construction_and_equality() {
    let e = KPGError::new(KPGErrorCode::KPGConfigParseFailed, "bad");
    assert!(e.equal(KPGErrorCode::KPGConfigParseFailed));
    assert!(!e.equal(KPGErrorCode::KPGJsonRPCFailed));
    assert_eq!(e.message(), "bad");
    let e2 = KPGError::new_with_string(KPGErrorCode::KPGJsonRPCFailed, "x".to_string());
    assert_eq!(e2.code(), KPGErrorCode::KPGJsonRPCFailed);
    let e3 = KPGError::new_with_str(KPGErrorCode::KPGErrorCodeNone, "y");
    assert_eq!(e3.message(), "y");
}

#[test]
fn error_codes_count_from_base() {
    assert_eq!(KPGErrorCode::KPGErrorCodeNone.value(), 0);
    assert_eq!(KPGErrorCode::KPGConfigParseOpenFileFailed.value(), -1900000);
    assert_eq!(KPGErrorCode::KPGConfigParseFailed.value(), -1899999);
    assert_eq!(KPGErrorCode::KPGConfigParseFailed.name(), "KPGConfigParseFailed");
}

#[test]
fn error_printed_form() {
    let e = KPGError::new(KPGErrorCode::KPGConfigParseFailed, "bad");
    assert_eq!(e.to_string(), "code: KPGConfigParseFailed, error: bad");
}

#[test]
fn random_names_have_the_length_asked() {
    for n in [0usize, 1, 8, 20, 40, 60] {
        let s = rand_string(n);
        assert_eq!(s.chars().count(), n);
        assert!(s.chars().all(|c| c.is_ascii_hexdigit() || c == ':' || c.is_ascii_lowercase() || c.is_ascii_digit()));
        for (i, c) in s.chars().enumerate() {
            if i < 32 {
                assert!(c.is_ascii_digit() || ('a'..='f').contains(&c));
            } else if i < 34 {
                assert_eq!(c, ':');
            } else {
                assert!(c.is_ascii_digit() || c.is_ascii_lowercase());
            }
        }
    }
}

#[test]
fn random_numbers_stay_in_range() {
    for _ in 0..100 {
        let x = rand_number(3, 7);
        assert!((3..=7).contains(&x));
    }
    assert_eq!(rand_number(5, 5), 5);
}

#[test]
fn durations_print_as_clock() {
    let d = KPDuration::new(3661, 0);
    assert_eq!(d.to_string(), "01:01:01");
    assert_eq!(d.debug_string(), "KPDuration(3661s / 01:01:01)");
    assert_eq!(KPDuration::new(0, 5).to_string(), "00:00:00");
    assert_eq!(KPDuration::new(360000, 0).to_string(), "100:00:00");
    assert_eq!(KPDuration::new(59, 999_999_999).to_string(), "00:00:59");
}

#[test]
fn timestamp_is_after_2020() {
    let t = KPDuration::current_mill_timestamp().unwrap();
    assert!(t > 1_577_836_800_000);
}

#[test]
fn md5_of_abc() {
    assert!(compare_md5(&b"abc".to_vec(), &"900150983cd24fb0d6963f7d28e17f72".to_string()));
    assert!(!compare_md5(&b"abd".to_vec(), &"900150983cd24fb0d6963f7d28e17f72".to_string()));
    assert!(!compare_md5(&b"abc".to_vec(), &"900150983CD24FB0D6963F7D28E17F72".to_string()));
    assert_eq!(hex_lower_string(&vec![0, 15, 16, 255]), "000f10ff");
}

#[test]
fn extension_filter() {
    let entries = vec![
        ("a.mp4".to_string(), Some("mp4".to_string())),
        ("b.txt".to_string(), Some("txt".to_string())),
        ("c".to_string(), None),
        ("d.flv".to_string(), Some("flv".to_string())),
    ];
    let filters = vec!["mp4".to_string(), "flv".to_string()];
    assert_eq!(filter_by_extension(&entries, &filters), vec!["a.mp4".to_string(), "d.flv".to_string()]);
    let e = read_directory_error(&"\"media\"".to_string(), &"denied".to_string());
    assert_eq!(e.code(), KPGErrorCode::KPGUtilReadDirectoryFailed);
    assert_eq!(e.message(), "read directory failed. path: \"media\", error: denied");
}

#[test]
fn jsonrpc_answers() {
    let url = "http://center".to_string();
    let req = "req".to_string();
    let ok = jsonrpc_response(&url, &req, &r#"{"result": {"url": "u", "hash": "h"}, "error": null}"#.to_string()).unwrap().unwrap();
    assert_eq!(ok, r#"{"hash":"h","url":"u"}"#);
    let err = jsonrpc_response(&url, &req, &r#"{"error": {"code": 1}}"#.to_string()).unwrap().unwrap_err();
    assert_eq!(err.code(), KPGErrorCode::KPGJsonRPCFailed);
    assert_eq!(err.message(), r#"json-rpc return error. url: http://center, request: req, error: {"code":1}"#);
    let none = jsonrpc_response(&url, &req, &r#"{"id": 0}"#.to_string()).unwrap().unwrap_err();
    assert_eq!(none.message(), r#"invalid json-rpc response body. url: http://center, request: req, body: {"id": 0}"#);
    assert!(jsonrpc_response(&url, &req, &"<html>".to_string()).is_none());
    let five = JsonNode { value: JsonValue::Number(JsonNumber::PosInt(5)), text: "5".to_string() };
    let v = JsonNode { value: JsonValue::Object(vec![("result".to_string(), five)]), text: r#"{"result":5}"#.to_string() };
    assert_eq!(rpc_answer(&url, &req, &"b".to_string(), &v).unwrap(), "5");
    let e = jsonrpc_call_error(&url, &req, "status", &"500".to_string());
    assert_eq!(e.message(), "call json-rpc failed. url: http://center, request: req, status: 500");
}

#[test]
fn log_levels() {
    let ok = KPServerMessage::RtmpStop { name: "a".to_string(), error: None };
    let bad = KPServerMessage::RtmpPushStop { name: "a".to_string(), sink_url: "s".to_string(), error: Some("e".to_string()) };
    let unknown = KPServerMessage::Unknown { name: "a".to_string(), error: "e".to_string() };
    assert_eq!(message_log_level(&ok), KPLogLevel::Info);
    assert_eq!(message_log_level(&bad), KPLogLevel::Error);
    assert_eq!(message_log_level(&unknown), KPLogLevel::Info);
    assert_eq!(event_log_level(&KPEventMessage::server(bad)), KPLogLevel::Error);
    assert_eq!(event_log_level(&KPEventMessage::transcode("t".to_string())), KPLogLevel::Info);
}

#[test]
fn default_values() {
    let x: u32 = kplayer::util::default();
    assert_eq!(x, 0);
    let s: String = kplayer::util::default();
    assert!(s.is_empty());
}
