//! Watching a folder for changes to the files in it.

use vstd::prelude::*;

verus! {

/// A change to a file below the watched folder; paths are as the operating
/// system reported them.
#[derive(Debug, Clone)]
pub enum FileEvent {
    Created(String),
    Modified(String),
    Deleted(String),
    Renamed { from: String, to: String },
}

/// Watches one folder, recursively.
pub struct FileWatcher {
    watch_path: String,
}

impl View for FileWatcher {
    type V = Seq<char>;

    /// The folder being watched.
    closed spec fn view(&self) -> Seq<char> {
        self.watch_path@
    }
}

impl FileWatcher {
    pub fn new(watch_path: String) -> (r: Self)
        ensures
            r@ == watch_path@,
    {
        FileWatcher { watch_path }
    }

    /// The folder being watched.
    pub fn watch_path(&self) -> (r: &str)
        ensures
            r@ == self@,
    {
        self.watch_path.as_str()
    }
}

} // verus!
