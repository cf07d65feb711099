//! Reading the answer of a JSON-RPC plugin center, and the errors of a
//! failed call. Sending the request is left to the caller.

use vstd::prelude::*;
use crate::config::json::{JsonNode, json_from_slice, parse_json_slice, get_spec, is_null_spec};
use crate::util::error::{KPGError, KPGErrorCode, KPGErrorView};
use crate::util::text::{string_of, append_str};

verus! {

/// An error of a JSON-RPC call.
pub open spec fn rpc_error(msg: Seq<char>) -> KPGErrorView {
    KPGErrorView { code: KPGErrorCode::KPGJsonRPCFailed, error: msg }
}

/// What a parsed JSON-RPC answer gives: a non-null `error` member is
/// reported with its JSON text; otherwise the JSON text of the `result`
/// member is the result; an answer with neither is reported with its body.
/// `request` is the printed request.
pub open spec fn rpc_answer_spec(url: Seq<char>, request: Seq<char>, body: Seq<char>, v: JsonNode)
    -> Result<Seq<char>, KPGErrorView>
{
    match get_spec(v, "error"@) {
        Some(e) if !is_null_spec(e) => Err(rpc_error("json-rpc return error. url: "@ + url + ", request: "@
            + request + ", error: "@ + e.text@)),
        _ => match get_spec(v, "result"@) {
            Some(r) => Ok(r.text@),
            None => Err(rpc_error("invalid json-rpc response body. url: "@ + url + ", request: "@
                + request + ", body: "@ + body)),
        },
    }
}

/// What a parsed JSON-RPC answer gives, as `rpc_answer_spec` says.
pub fn rpc_answer(url: &String, request: &String, body: &String, v: &JsonNode) -> (res: Result<String, KPGError>)
    ensures
        match (res, rpc_answer_spec(url@, request@, body@, *v)) {
            (Ok(r), Ok(s)) => r@ == s,
            (Err(e), Err(s)) => e@ == s,
            _ => false,
        },
{
    proof {
        reveal_strlit("error");
        reveal_strlit("result");
        reveal_strlit("json-rpc return error. url: ");
        reveal_strlit(", request: ");
        reveal_strlit(", error: ");
        reveal_strlit("invalid json-rpc response body. url: ");
        reveal_strlit(", body: ");
    }
    match v.get("error") {
        Some(e) => {
            if !e.is_null() {
                let mut m = string_of("json-rpc return error. url: ");
                append_str(&mut m, url.as_str());
                append_str(&mut m, ", request: ");
                append_str(&mut m, request.as_str());
                append_str(&mut m, ", error: ");
                append_str(&mut m, e.text.as_str());
                return Err(KPGError::new_with_string(KPGErrorCode::KPGJsonRPCFailed, m));
            }
        },
        None => {},
    }
    match v.get("result") {
        Some(r) => Ok(r.text.clone()),
        None => {
            let mut m = string_of("invalid json-rpc response body. url: ");
            append_str(&mut m, url.as_str());
            append_str(&mut m, ", request: ");
            append_str(&mut m, request.as_str());
            append_str(&mut m, ", body: ");
            append_str(&mut m, body.as_str());
            Err(KPGError::new_with_string(KPGErrorCode::KPGJsonRPCFailed, m))
        },
    }
}

/// What the answer body of a JSON-RPC call gives: `None` where the body is
/// not JSON (the call cannot go on), and otherwise what `rpc_answer_spec`
/// says of the parsed body.
pub fn jsonrpc_response(url: &String, request: &String, body: &String) -> (res: Option<Result<String, KPGError>>)
    ensures
        match json_from_slice(vstd::utf8::encode_utf8(body@)) {
            Err(_) => res is None,
            Ok(v) => match (res, rpc_answer_spec(url@, request@, body@, v)) {
                (Some(Ok(r)), Ok(s)) => r@ == s,
                (Some(Err(e)), Err(s)) => e@ == s,
                _ => false,
            },
        },
{
    let bytes = body.as_str().as_bytes();
    proof { assert(bytes@ == vstd::utf8::encode_utf8(body@)); }
    match parse_json_slice(bytes) {
        Err(_) => None,
        Ok(v) => Some(rpc_answer(url, request, body, &v)),
    }
}

/// The error of a call that got no answer, or an unsuccessful one: `what`
/// is `error` or `status`, `detail` the transport's error or the status.
pub fn jsonrpc_call_error(url: &String, request: &String, what: &str, detail: &String) -> (res: KPGError)
    ensures
        res@ == rpc_error("call json-rpc failed. url: "@ + url@ + ", request: "@ + request@ + ", "@ + what@
            + ": "@ + detail@),
{
    let mut m = string_of("call json-rpc failed. url: ");
    append_str(&mut m, url.as_str());
    append_str(&mut m, ", request: ");
    append_str(&mut m, request.as_str());
    append_str(&mut m, ", ");
    append_str(&mut m, what);
    append_str(&mut m, ": ");
    append_str(&mut m, detail.as_str());
    KPGError::new_with_string(KPGErrorCode::KPGJsonRPCFailed, m)
}

} // verus!
