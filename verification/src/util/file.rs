//! Checks on files: whether a file's content has an expected MD5 digest,
//! and which directory entries a playlist takes. Reading files and
//! directories is left to the caller.

use vstd::prelude::*;
use crate::config::strings_view;
use crate::util::error::{KPGError, KPGErrorCode, KPGErrorView};
use crate::util::rand::{md5_digest, md5_of, hex_lower, push_hex_digit};
use crate::util::text::{string_of, append_str};

verus! {

/// Two lowercase hexadecimal digits per byte of `data`.
pub fn hex_lower_string(data: &Vec<u8>) -> (res: String)
    ensures
        res@ == hex_lower(data@),
{
    let mut s = String::new();
    let mut i: usize = 0;
    proof { assert(data@.take(0) =~= Seq::<u8>::empty()); }
    while i < data.len()
        invariant
            i <= data@.len(),
            s@ == hex_lower(data@.take(i as int)),
        decreases data@.len() - i,
    {
        let b = data[i];
        push_hex_digit(&mut s, b / 16);
        push_hex_digit(&mut s, b % 16);
        proof { assert(data@.take(i + 1).drop_last() =~= data@.take(i as int)); }
        i = i + 1;
    }
    proof { assert(data@.take(data@.len() as int) =~= data@); }
    s
}

/// Whether the content's MD5 digest, in lowercase hexadecimal, is the
/// expected text.
pub fn compare_md5(content: &Vec<u8>, expected_md5: &String) -> (res: bool)
    ensures
        res == (hex_lower(md5_of(content@)) == expected_md5@),
{
    let digest = md5_digest(content.as_slice());
    let text = hex_lower_string(&digest);
    text == *expected_md5
}

/// The entries whose extension is one of the filters, in order; `entries`
/// holds each entry's path and extension (if it has one).
pub open spec fn filter_by_extension_spec(entries: Seq<(String, Option<String>)>, filters: Seq<Seq<char>>) -> Seq<Seq<char>>
    decreases entries.len(),
{
    if entries.len() == 0 {
        seq![]
    } else {
        let rest = filter_by_extension_spec(entries.drop_last(), filters);
        match entries.last().1 {
            Some(ext) => if filters.contains(ext@) { rest.push(entries.last().0@) } else { rest },
            None => rest,
        }
    }
}

/// The paths of the entries whose extension is one of the filters.
pub fn filter_by_extension(entries: &Vec<(String, Option<String>)>, filters: &Vec<String>) -> (res: Vec<String>)
    ensures
        strings_view(res@) == filter_by_extension_spec(entries@, strings_view(filters@)),
{
    let ghost fs = strings_view(filters@);
    let mut out: Vec<String> = Vec::new();
    let mut i: usize = 0;
    while i < entries.len()
        invariant
            i <= entries.len(),
            fs == strings_view(filters@),
            strings_view(out@) == filter_by_extension_spec(entries@.take(i as int), fs),
        decreases entries.len() - i,
    {
        proof {
            assert(entries@.take(i + 1).drop_last() =~= entries@.take(i as int));
            assert(entries@.take(i + 1).last() == entries@[i as int]);
        }
        match &entries[i].1 {
            Some(ext) => {
                if crate::factory::instance::contains_name(filters, ext) {
                    let ghost before = out@;
                    let p = entries[i].0.clone();
                    out.push(p);
                    proof { assert(strings_view(out@) =~= strings_view(before).push(p@)); }
                }
            },
            None => {},
        }
        i = i + 1;
    }
    proof { assert(entries@.take(entries@.len() as int) =~= entries@); }
    out
}

/// The error of a directory that could not be read; `path` and `err` are
/// appended as given (the playlist hands in the path's `{:?}` form).
pub fn read_directory_error(path: &String, err: &String) -> (res: KPGError)
    ensures
        res@ == (KPGErrorView {
            code: KPGErrorCode::KPGUtilReadDirectoryFailed,
            error: "read directory failed. path: "@ + path@ + ", error: "@ + err@,
        }),
{
    let mut m = string_of("read directory failed. path: ");
    append_str(&mut m, path.as_str());
    append_str(&mut m, ", error: ");
    append_str(&mut m, err.as_str());
    KPGError::new_with_string(KPGErrorCode::KPGUtilReadDirectoryFailed, m)
}

} // verus!
