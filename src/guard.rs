//! Deferred removal of a file on failure.
use vstd::prelude::*;

verus! {

/// A file to remove when the work that made it does not finish, unless the
/// guard is cancelled first.
pub struct Guard {
    pub path: String,
    pub armed: bool,
}

impl Guard {
    /// A guard armed to remove `path`.
    pub fn new(path: String) -> (r: Guard)
        ensures
            r.path == path,
            r.armed,
    {
        Guard { path, armed: true }
    }

    /// Disarms the guard: the file stays.
    pub fn cancel(&mut self)
        ensures
            final(self).path == old(self).path,
            !final(self).armed,
    {
        self.armed = false;
    }

    /// The file to remove now that the work has ended, if the guard is still
    /// armed.
    pub fn pending(&self) -> (r: Option<&String>)
        ensures
            self.armed ==> r == Some(&self.path),
            !self.armed ==> r is None,
    {
        if self.armed {
            Some(&self.path)
        } else {
            None
        }
    }
}

} // verus!
