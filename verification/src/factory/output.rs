//! An output of the factory: where a stream is read from and pushed to.

use vstd::prelude::*;

verus! {

/// An output: its name, the stream it reads and where it pushes it.
#[derive(Debug)]
pub struct KPGOutput {
    name: String,
    source_path: String,
    push_path: String,
}

impl KPGOutput {
    /// An output with the given name, source and push paths.
    pub fn new(name: String, source_path: String, push_path: String) -> (res: KPGOutput)
        ensures
            res.name() == name,
            res.source_path() == source_path,
            res.push_path() == push_path,
    {
        KPGOutput { name, source_path, push_path }
    }

    /// The output's name.
    pub closed spec fn name(&self) -> String {
        self.name
    }

    /// The stream the output reads.
    pub closed spec fn source_path(&self) -> String {
        self.source_path
    }

    /// Where the output pushes.
    pub closed spec fn push_path(&self) -> String {
        self.push_path
    }

    /// Serves the output: there is nothing to do, and it succeeds.
    pub fn serve(&mut self) -> (res: Result<(), crate::util::error::KPGError>)
        ensures
            res is Ok,
            *final(self) == *old(self),
    {
        Ok(())
    }

    /// The output's name.
    pub fn get_name(&self) -> (res: String)
        ensures
            res == self.name(),
    {
        self.name.clone()
    }

    /// Where the output pushes.
    pub fn get_push_path(&self) -> (res: String)
        ensures
            res == self.push_path(),
    {
        self.push_path.clone()
    }

    /// The stream the output reads.
    pub fn get_source_path(&self) -> (res: String)
        ensures
            res == self.source_path(),
    {
        self.source_path.clone()
    }
}

} // verus!
