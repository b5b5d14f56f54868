//! The handle to a file picked through a non-blocking dialog.
use std::path::PathBuf;
use vstd::prelude::*;

verus! {

/// An opaque reference to what the user selected. The native layer makes
/// one when the user confirms a selection, and the caller owns it from then
/// on. It says nothing about whether the file still exists.
pub struct FileHandle {
    path: PathBuf,
}

impl View for FileHandle {
    type V = PathBuf;

    closed spec fn view(&self) -> PathBuf {
        self.path
    }
}

impl FileHandle {
    /// The handle to the file at `path`.
    pub fn wrap(path: PathBuf) -> (handle: Self)
        ensures
            handle@ == path,
    {
        FileHandle { path }
    }

    /// The path this handle refers to.
    pub fn path(&self) -> (path: &PathBuf)
        ensures
            *path == self@,
    {
        &self.path
    }
}

} // verus!
