//! The conrod thread's loop when the application's look is loaded from a shared library
//! that is reloaded whenever the library file changes.
use vstd::prelude::*;
pub use crate::run_conrod_borrow::Conrod_Message;

verus! {

/// Whether a library loaded when its file was last modified at `last_modified` is to be
/// reloaded, given the modification time read now (`None` when it could not be read).
pub open spec fn reloads(last_modified: i128, modified: Option<i128>) -> bool {
    modified matches Some(m) && m > last_modified
}

/// The modification time of the loaded library after the check.
pub open spec fn loaded_version(last_modified: i128, modified: Option<i128>) -> i128 {
    if reloads(last_modified, modified) {
        modified->0
    } else {
        last_modified
    }
}

/// Tracks the modification time of the loaded library file, in nanoseconds from the
/// Unix epoch (negative before it).
pub struct LibraryWatch {
    pub last_modified: i128,
}

impl LibraryWatch {
    /// Watches a library file that was loaded when it was last modified at `last_modified`.
    pub fn new(last_modified: i128) -> (w: Self)
        ensures
            w.last_modified == last_modified,
    {
        LibraryWatch { last_modified }
    }

    /// Takes in the file's modification time as read now (`None` when it could not be
    /// read): the library is to be reloaded exactly when the file was modified after the
    /// loaded version, and that time becomes the one loaded.
    pub fn changed(&mut self, modified: Option<i128>) -> (reload: bool)
        ensures
            reload == reloads(old(self).last_modified, modified),
            final(self).last_modified == loaded_version(old(self).last_modified, modified),
    {
        match modified {
            Some(m) => if m > self.last_modified {
                self.last_modified = m;
                true
            } else {
                false
            },
            None => false,
        }
    }
}

/// The loaded version never goes back, and a modification time that was already seen
/// never causes a second reload.
pub proof fn lemma_reload_once(last_modified: i128, modified: Option<i128>)
    ensures
        loaded_version(last_modified, modified) >= last_modified,
        !reloads(loaded_version(last_modified, modified), modified),
{
}

} // verus!
