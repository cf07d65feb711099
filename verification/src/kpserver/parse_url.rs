//! Splitting an RTMP URL into the address to connect to, the application
//! name and the stream name.

use vstd::prelude::*;
use crate::kpserver::const_var::{KPProtocol, protocol_name};
use crate::util::text::{decimal, string_of, str_equal, append_str, append_decimal, push_char};

verus! {

/// What the URL parser reports of a URL: its scheme, its host as printed,
/// its explicit port and its path segments.
pub struct UrlParts {
    pub scheme: String,
    pub host: Option<String>,
    pub port: Option<u16>,
    pub path_segments: Option<Vec<String>>,
}

#[verifier::ext_equal]
pub struct UrlPartsView {
    pub scheme: Seq<char>,
    pub host: Option<Seq<char>>,
    pub port: Option<u16>,
    pub path_segments: Option<Seq<Seq<char>>>,
}

impl View for UrlParts {
    type V = UrlPartsView;

    open spec fn view(&self) -> UrlPartsView {
        UrlPartsView {
            scheme: self.scheme@,
            host: match self.host { Some(h) => Some(h@), None => None },
            port: self.port,
            path_segments: match self.path_segments {
                Some(v) => Some(crate::config::strings_view(v@)),
                None => None,
            },
        }
    }
}

/// What `url::Url::parse` gives for the text `s`: the parts of the URL, or
/// the printed error where it refuses the text.
pub uninterp spec fn url_parts_of(s: Seq<char>) -> Result<UrlPartsView, Seq<char>>;

/// Calls `url::Url::parse` on `s` and reads `scheme()`, `host()` (printed
/// with `to_string`), `port()` and `path_segments()` of the result, or
/// prints the parser's error with `to_string`. The contract claims that this
/// is what `url_parts_of` names for the same text.
#[verifier::external_body]
fn parse_url(s: &str) -> (res: Result<UrlParts, String>)
    ensures
        match (res, url_parts_of(s@)) {
            (Ok(p), Ok(q)) => p@ == q,
            (Err(m), Err(n)) => m@ == n,
            _ => false,
        },
{
    match url::Url::parse(s) {
        Ok(u) => Ok(UrlParts {
            scheme: u.scheme().to_string(),
            host: match u.host() { Some(h) => Some(h.to_string()), None => None },
            port: u.port(),
            path_segments: match u.path_segments() { Some(p) => Some(p.map(str::to_string).collect()), None => None },
        }),
        Err(e) => Err(e.to_string()),
    }
}

/// Why a URL gives no connection details.
#[derive(Debug, Clone)]
pub enum UrlInfoError {
    /// The URL parser refused the text; its message.
    Parse(String),
    /// The scheme is not `rtmp`; the scheme.
    UnsupportedProtocol(String),
    EmptyHost,
    EmptyAppOrStream,
}

pub enum UrlInfoErrorView {
    Parse(Seq<char>),
    UnsupportedProtocol(Seq<char>),
    EmptyHost,
    EmptyAppOrStream,
}

impl View for UrlInfoError {
    type V = UrlInfoErrorView;

    open spec fn view(&self) -> UrlInfoErrorView {
        match self {
            UrlInfoError::Parse(m) => UrlInfoErrorView::Parse(m@),
            UrlInfoError::UnsupportedProtocol(s) => UrlInfoErrorView::UnsupportedProtocol(s@),
            UrlInfoError::EmptyHost => UrlInfoErrorView::EmptyHost,
            UrlInfoError::EmptyAppOrStream => UrlInfoErrorView::EmptyAppOrStream,
        }
    }
}

/// The message of an error.
pub open spec fn url_info_error_message(e: UrlInfoErrorView) -> Seq<char> {
    match e {
        UrlInfoErrorView::Parse(m) => m,
        UrlInfoErrorView::UnsupportedProtocol(s) => "can not support forward source protocol. protocol: "@ + s,
        UrlInfoErrorView::EmptyHost => "source host can not be empty"@,
        UrlInfoErrorView::EmptyAppOrStream => "source app name or stream name can not be empty"@,
    }
}

impl UrlInfoError {
    /// The message of this error.
    pub fn message(&self) -> (res: String)
        ensures
            res@ == url_info_error_message(self@),
    {
        match self {
            UrlInfoError::Parse(m) => m.clone(),
            UrlInfoError::UnsupportedProtocol(s) => {
                let mut m = string_of("can not support forward source protocol. protocol: ");
                append_str(&mut m, s.as_str());
                m
            },
            UrlInfoError::EmptyHost => string_of("source host can not be empty"),
            UrlInfoError::EmptyAppOrStream => string_of("source app name or stream name can not be empty"),
        }
    }
}

/// The port used where a URL names none.
pub const DEFAULT_RTMP_PORT: u16 = 1935;

/// The connection details of parsed URL parts: the scheme must be `rtmp`
/// and there must be a host; the address is `host:port` (port 1935 where
/// none is given); the application and stream names are the first two path
/// segments, which must exist.
pub open spec fn url_info_spec(p: UrlPartsView) -> Result<(Seq<char>, Seq<char>, Seq<char>), UrlInfoErrorView> {
    if p.scheme != protocol_name(KPProtocol::Rtmp) {
        Err(UrlInfoErrorView::UnsupportedProtocol(p.scheme))
    } else {
        match p.host {
            None => Err(UrlInfoErrorView::EmptyHost),
            Some(host) => {
                let port: u16 = match p.port { Some(x) => x, None => 1935u16 };
                let address = host + seq![':'] + decimal(port as nat);
                match p.path_segments {
                    None => Err(UrlInfoErrorView::EmptyAppOrStream),
                    Some(segs) => if segs.len() < 2 {
                        Err(UrlInfoErrorView::EmptyAppOrStream)
                    } else {
                        Ok((address, segs[0], segs[1]))
                    },
                }
            },
        }
    }
}

/// The view of a triple of strings.
pub open spec fn triple_view(t: (String, String, String)) -> (Seq<char>, Seq<char>, Seq<char>) {
    (t.0@, t.1@, t.2@)
}

/// Whether a result matches what `url_info_spec` describes.
pub open spec fn url_info_matches(
    res: Result<(String, String, String), UrlInfoError>,
    spec: Result<(Seq<char>, Seq<char>, Seq<char>), UrlInfoErrorView>,
) -> bool {
    match (res, spec) {
        (Ok(t), Ok(s)) => triple_view(t) == s,
        (Err(e), Err(s)) => e@ == s,
        _ => false,
    }
}

/// The connection details of parsed URL parts, as `url_info_spec` gives
/// them.
pub fn url_info_from_parts(p: &UrlParts) -> (res: Result<(String, String, String), UrlInfoError>)
    ensures
        url_info_matches(res, url_info_spec(p@)),
{
    let rtmp = KPProtocol::Rtmp.to_string();
    if !str_equal(p.scheme.as_str(), rtmp.as_str()) {
        return Err(UrlInfoError::UnsupportedProtocol(p.scheme.clone()));
    }
    let address = match &p.host {
        None => { return Err(UrlInfoError::EmptyHost); },
        Some(h) => {
            let port: u16 = match p.port { Some(x) => x, None => DEFAULT_RTMP_PORT };
            let mut a = h.clone();
            push_char(&mut a, ':');
            append_decimal(&mut a, port as u64);
            a
        },
    };
    match &p.path_segments {
        None => Err(UrlInfoError::EmptyAppOrStream),
        Some(segs) => {
            if segs.len() < 2 {
                Err(UrlInfoError::EmptyAppOrStream)
            } else {
                let res = (address, segs[0].clone(), segs[1].clone());
                proof {
                    let spec = url_info_spec(p@);
                    let sv = crate::config::strings_view(segs@);
                    assert(sv[0] == segs@[0]@ && sv[1] == segs@[1]@);
                    assert(spec matches Ok(t) && t.1 == res.1@ && t.2 == res.2@);
                    assert(spec matches Ok(t) && t.0 =~= res.0@);
                }
                Ok(res)
            }
        },
    }
}

/// The connection details of the URL text `s`, or why it has none.
pub open spec fn url_info_of(s: Seq<char>) -> Result<(Seq<char>, Seq<char>, Seq<char>), UrlInfoErrorView> {
    match url_parts_of(s) {
        Err(m) => Err(UrlInfoErrorView::Parse(m)),
        Ok(p) => url_info_spec(p),
    }
}

/// The connection details of an RTMP URL: the address to connect to
/// (`host:port`), the application name and the stream name.
pub fn get_url_info(source_url: &String) -> (res: Result<(String, String, String), UrlInfoError>)
    ensures
        url_info_matches(res, url_info_of(source_url@)),
{
    match parse_url(source_url.as_str()) {
        Err(m) => Err(UrlInfoError::Parse(m)),
        Ok(p) => url_info_from_parts(&p),
    }
}

} // verus!
