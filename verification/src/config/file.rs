//! Reading the configuration file's text: the files searched for, the
//! JSON5 text turned into JSON, and the errors of each step. Finding and
//! reading the file is left to the caller.

use vstd::prelude::*;
use crate::config::Root;
use crate::config::version::version_300::{parse_config, config_admits, version_300_result};
use crate::util::error::{KPGError, KPGErrorCode, KPGErrorView};
use crate::util::text::{string_of, append_str};

verus! {

/// What `json5::from_str::<serde_json::Value>` gives for `text`: the
/// compact JSON text of the value (`to_string`), or the `Debug` text of the
/// error.
pub uninterp spec fn json5_to_json(text: Seq<char>) -> Result<Seq<char>, Seq<char>>;

/// Calls `json5::from_str::<serde_json::Value>` on `text` and prints the
/// value with `to_string`, or the error with `{:?}`; the contract claims
/// that this is what `json5_to_json` names for the same text.
#[verifier::external_body]
fn json5_normalize(text: &str) -> (res: Result<String, String>)
    ensures
        match (res, json5_to_json(text@)) {
            (Ok(a), Ok(b)) => a@ == b,
            (Err(a), Err(b)) => a@ == b,
            _ => false,
        },
{
    match json5::from_str::<serde_json::Value>(text) {
        Ok(v) => Ok(v.to_string()),
        Err(e) => Err(format!("{:?}", e)),
    }
}

/// The files searched for the configuration, in order.
pub fn config_search_paths() -> (res: Vec<String>)
    ensures
        res@.len() == 2,
        res@[0]@ == "config.json"@,
        res@[1]@ == "config.json5"@,
{
    vec![string_of("config.json"), string_of("config.json5")]
}

/// An error of the configuration file.
pub open spec fn file_error(msg: Seq<char>) -> KPGErrorView {
    KPGErrorView { code: KPGErrorCode::KPGConfigFileOpenFailed, error: msg }
}

/// The error where no configuration file is found.
pub fn config_not_found_error() -> (res: KPGError)
    ensures
        res@ == file_error("not found config file. search_config_path: [\"config.json\", \"config.json5\"]"@),
{
    KPGError::new_with_str(KPGErrorCode::KPGConfigFileOpenFailed,
        "not found config file. search_config_path: [\"config.json\", \"config.json5\"]")
}

/// The error of a configuration file that could not be opened, read or
/// parsed: `what` names the step; `path` and `err` are appended as given
/// (the program hands in their `{:?}` forms).
pub fn config_file_error(what: &str, path: &String, err: &String) -> (res: KPGError)
    ensures
        res@ == file_error(what@ + " failed. path: "@ + path@ + ", error: "@ + err@),
{
    let mut m = string_of(what);
    append_str(&mut m, " failed. path: ");
    append_str(&mut m, path.as_str());
    append_str(&mut m, ", error: ");
    append_str(&mut m, err.as_str());
    KPGError::new_with_string(KPGErrorCode::KPGConfigFileOpenFailed, m)
}

/// The configuration in the text of a file: the JSON5 text is turned into
/// JSON and read by the version 3.0.0 reader. A text that is not JSON5 is
/// refused with `KPGConfigFileOpenFailed`, naming the file by `path`,
/// appended as given (the program hands in its `{:?}` form); `None` where
/// the reader would panic.
pub fn parse_file_content(path: &String, content: &String) -> (res: Option<Result<Root, KPGError>>)
    ensures
        match json5_to_json(content@) {
            Err(d) => res matches Some(Err(e)) && e@ == file_error("parse json5 format failed. path: "@ + path@
                + ", error: "@ + d),
            Ok(j) => {
                &&& (res is None <==> !config_admits(vstd::utf8::encode_utf8(j)))
                &&& res matches Some(r) ==> version_300_result(vstd::utf8::encode_utf8(j), r)
            },
        },
{
    match json5_normalize(content.as_str()) {
        Err(d) => {
            proof {
                reveal_strlit("parse json5 format");
                reveal_strlit(" failed. path: ");
                reveal_strlit("parse json5 format failed. path: ");
            }
            let e = config_file_error("parse json5 format", path, &d);
            assert(e@.error =~= "parse json5 format failed. path: "@ + path@ + ", error: "@ + d@);
            Some(Err(e))
        },
        Ok(j) => {
            let bytes = j.as_str().as_bytes();
            let mut data: Vec<u8> = Vec::new();
            let mut i: usize = 0;
            while i < bytes.len()
                invariant
                    i <= bytes@.len(),
                    data@ == bytes@.take(i as int),
                decreases bytes@.len() - i,
            {
                data.push(bytes[i]);
                proof { assert(data@ =~= bytes@.take(i + 1)); }
                i = i + 1;
            }
            proof { assert(bytes@.take(bytes@.len() as int) =~= bytes@); }
            parse_config(&data)
        },
    }
}

} // verus!
