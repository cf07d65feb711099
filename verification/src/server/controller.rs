//! The bodies the HTTP API accepts, the checks made on them, and the
//! plugin arguments it passes on.

use vstd::prelude::*;

verus! {

/// Removes the media called `name` from a playlist.
#[derive(Debug)]
pub struct RemoveInstanceMedia {
    pub name: String,
}

/// Moves the media called `name` to position `index`.
#[derive(Debug)]
pub struct MoveInstanceMedia {
    pub name: String,
    pub index: usize,
}

/// Seeks within the current media.
#[derive(Debug)]
pub struct SeekInstanceMedia {
    pub seek: Option<i32>,
    pub end: Option<i32>,
    pub is_persistence: Option<bool>,
}

/// Plays the media called `name`.
#[derive(Debug)]
pub struct SelectInstanceMedia {
    pub name: String,
}

/// New arguments for a plugin of an instance.
#[derive(Debug)]
pub struct UpdateInstancePluginArgumentBody {
    pub app: String,
    pub name: String,
    pub arguments: Vec<(String, String)>,
}

impl RemoveInstanceMedia {
    /// Whether the body is acceptable: the name has at least one character.
    pub fn validate(&self) -> (res: bool)
        ensures
            res == (self.name@.len() >= 1),
    {
        self.name.as_str().unicode_len() >= 1
    }
}

impl MoveInstanceMedia {
    /// Whether the body is acceptable: the name has at least one character.
    pub fn validate(&self) -> (res: bool)
        ensures
            res == (self.name@.len() >= 1),
    {
        self.name.as_str().unicode_len() >= 1
    }
}

impl SeekInstanceMedia {
    /// Whether the body is acceptable: every seek body is.
    pub fn validate(&self) -> (res: bool)
        ensures
            res,
    {
        true
    }
}

impl SelectInstanceMedia {
    /// Whether the body is acceptable: the name has at least one character.
    pub fn validate(&self) -> (res: bool)
        ensures
            res == (self.name@.len() >= 1),
    {
        self.name.as_str().unicode_len() >= 1
    }
}

impl UpdateInstancePluginArgumentBody {
    /// Whether the body is acceptable: the application and the name each
    /// have at least one character.
    pub fn validate(&self) -> (res: bool)
        ensures
            res == (self.app@.len() >= 1 && self.name@.len() >= 1),
    {
        self.app.as_str().unicode_len() >= 1 && self.name.as_str().unicode_len() >= 1
    }
}

/// The arguments with a non-empty value, in their order.
pub open spec fn nonempty_arguments(args: Seq<(String, String)>) -> Seq<(String, String)>
    decreases args.len(),
{
    if args.len() == 0 {
        seq![]
    } else {
        let rest = nonempty_arguments(args.drop_last());
        if args.last().1@.len() > 0 { rest.push(args.last()) } else { rest }
    }
}

/// The arguments passed on to a plugin: those whose value is not empty.
pub fn plugin_arguments(args: &Vec<(String, String)>) -> (res: Vec<(String, String)>)
    ensures
        res@ == nonempty_arguments(args@),
{
    let mut res: Vec<(String, String)> = Vec::new();
    let mut i: usize = 0;
    while i < args.len()
        invariant
            i <= args.len(),
            res@ == nonempty_arguments(args@.take(i as int)),
        decreases args.len() - i,
    {
        proof {
            assert(args@.take(i + 1).drop_last() =~= args@.take(i as int));
        }
        let (k, v) = (&args[i].0, &args[i].1);
        if v.as_str().unicode_len() > 0 {
            res.push((k.clone(), v.clone()));
        }
        i = i + 1;
    }
    proof {
        assert(args@.take(args@.len() as int) =~= args@);
    }
    res
}

} // verus!
