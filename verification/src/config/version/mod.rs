pub mod version_300;
pub mod reader_laws;

use vstd::prelude::*;
use crate::config::Root;
use crate::util::error::KPGError;

verus! {

/// A reader of one version of the configuration's file form.
pub trait ParseConfig {
    /// Whether the reader runs to an end on the bytes `cfg` (where it does
    /// not, it panics).
    spec fn admits(&self, cfg: Seq<u8>) -> bool;

    /// Reads a configuration from the bytes of a JSON file.
    fn parse(&self, cfg: &Vec<u8>) -> (res: Result<Root, KPGError>)
        requires
            self.admits(cfg@),
    ;
}

} // verus!
