//! What a look at the file system found at a path.

use vstd::prelude::*;

verus! {

/// The outcome of examining one path. The host program asks the operating
/// system and reports the answer in this form.
#[derive(Debug, Clone, Copy, PartialEq, Eq, Structural)]
pub enum PathStatus {
    /// The path could not be examined: nothing is there, or it cannot be
    /// reached.
    Missing,
    /// Something other than a directory is there.
    File,
    /// A directory is there.
    Directory,
}

impl PathStatus {
    /// Whether the path exists: anything but [`PathStatus::Missing`].
    pub open spec fn present(self) -> bool {
        self != PathStatus::Missing
    }

    /// Whether the path exists.
    pub fn is_present(&self) -> (found: bool)
        ensures
            found == self.present(),
    {
        match self {
            PathStatus::Missing => false,
            PathStatus::File => true,
            PathStatus::Directory => true,
        }
    }
}

} // verus!
