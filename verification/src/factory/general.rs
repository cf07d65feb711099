//! Where the factory finds plugins and fonts, and the addresses and paths
//! it gives its instances.

use vstd::prelude::*;
use crate::util::text::{decimal, string_of, append_str, append_decimal};
use crate::util::error::{KPGError, KPGErrorCode, KPGErrorView};
use crate::factory::KPGFactory;

verus! {

/// The directory of plugins and fonts, under the working directory.
pub const PLUGIN_DIRECTORY: &'static str = "plugin/";

/// The extension of plugin files.
pub const PLUGIN_EXTENSION: &'static str = ".kpe";

/// Where a plugin's file lies, relative to the working directory.
pub open spec fn plugin_file_path_spec(name: Seq<char>) -> Seq<char> {
    "plugin/"@ + name + ".kpe"@
}

/// Where a font's file lies, relative to the working directory.
pub open spec fn font_file_path_spec(name: Seq<char>) -> Seq<char> {
    "plugin/"@ + name + ".ttf"@
}

/// The local RTMP address an instance streams to.
pub open spec fn instance_source_spec(name: Seq<char>, port: u16) -> Seq<char> {
    "rtmp://127.0.0.1:"@ + decimal(port as nat) + "/live/"@ + name
}

/// The cache directory of an instance.
pub open spec fn instance_cache_path_spec(name: Seq<char>) -> Seq<char> {
    "cache/"@ + name
}

impl KPGFactory {
    /// The file path of the plugin called `plugin_name`, relative to the
    /// working directory.
    pub fn get_plugin_file_path(plugin_name: &String) -> (res: String)
        ensures
            res@ == plugin_file_path_spec(plugin_name@),
    {
        let mut p = string_of(PLUGIN_DIRECTORY);
        append_str(&mut p, plugin_name.as_str());
        append_str(&mut p, PLUGIN_EXTENSION);
        proof { reveal_strlit("plugin/"); reveal_strlit(".kpe"); }
        p
    }

    /// The file path of the font called `font_name`, relative to the working
    /// directory.
    pub fn get_font_file_path(font_name: &String) -> (res: String)
        ensures
            res@ == font_file_path_spec(font_name@),
    {
        let mut p = string_of(PLUGIN_DIRECTORY);
        append_str(&mut p, font_name.as_str());
        append_str(&mut p, ".ttf");
        proof { reveal_strlit("plugin/"); reveal_strlit(".ttf"); }
        p
    }

    /// The local RTMP address the instance `name` streams to on `port`.
    pub fn get_instance_source(name: String, port: u16) -> (res: String)
        ensures
            res@ == instance_source_spec(name@, port),
    {
        let mut s = string_of("rtmp://127.0.0.1:");
        append_decimal(&mut s, port as u64);
        append_str(&mut s, "/live/");
        append_str(&mut s, name.as_str());
        proof { reveal_strlit("rtmp://127.0.0.1:"); reveal_strlit("/live/"); }
        s
    }

    /// The cache directory of the instance `name`.
    pub fn get_instance_cache_path(name: &String) -> (res: String)
        ensures
            res@ == instance_cache_path_spec(name@),
    {
        let mut s = string_of("cache/");
        append_str(&mut s, name.as_str());
        proof { reveal_strlit("cache/"); }
        s
    }
}

/// The error of a plugin file that could not be opened or read: `what` is
/// `open` or `read`.
pub fn plugin_file_error(what: &str, path: &String, err: &String) -> (res: KPGError)
    ensures
        res@ == (KPGErrorView {
            code: KPGErrorCode::KPGFactoryOpenPluginFailed,
            error: what@ + " plugin file failed. path: "@ + path@ + ", error: "@ + err@,
        }),
{
    let mut m = string_of(what);
    append_str(&mut m, " plugin file failed. path: ");
    append_str(&mut m, path.as_str());
    append_str(&mut m, ", error: ");
    append_str(&mut m, err.as_str());
    KPGError::new_with_string(KPGErrorCode::KPGFactoryOpenPluginFailed, m)
}

} // verus!
