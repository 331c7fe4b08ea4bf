use vstd::prelude::*;

use crate::layout::ResourceFile;

verus! {

/// Work that a save or a load asks of the outside world.
#[derive(Debug, PartialEq, Eq)]
pub enum Request {
    /// Find the directory that holds the resources of this type.
    Locate { resource_type: String },
    /// Replace the whole of `file` in `dir` with `text`.
    Write { dir: String, file: ResourceFile, text: String },
    /// Read the whole of `file` in `dir` as text.
    Read { dir: String, file: ResourceFile },
}

/// The outcome of a `Request`, as handed back to the operation that made it.
/// An error is a message meant for people.
#[derive(Debug, PartialEq, Eq)]
pub enum Reply {
    Located(Result<String, String>),
    Written(Result<(), String>),
    ReadText(Result<String, String>),
}

} // verus!
