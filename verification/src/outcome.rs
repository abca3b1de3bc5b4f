//! The error taxonomy of the file operations around a handle, and the
//! one carve-out in it: a delete of a file that is already absent is
//! success, not an error.

use vstd::prelude::*;

verus! {

/// What went wrong with a filesystem call, as far as the callers of
/// this library tell the cases apart: a missing file is expected on a
/// first run and must stay distinguishable from every other failure.
#[derive(Debug, Clone, Copy, PartialEq, Eq, Structural)]
pub enum IoErrorKind {
    /// The file (or a directory on its path) does not exist.
    NotFound,
    /// The file exists but may not be touched.
    PermissionDenied,
    /// Any other failure of the underlying filesystem call.
    Other,
}

/// The result a delete reports, given how the removal itself ended: a
/// removal that failed only because the file was already absent counts
/// as success, and every other outcome is kept as it is.
pub fn delete_outcome(removal: Result<(), IoErrorKind>) -> (r: Result<(), IoErrorKind>)
    ensures
        r is Ok <==> (removal is Ok || removal == Err::<(), IoErrorKind>(IoErrorKind::NotFound)),
        r is Err ==> r == removal,
{
    match removal {
        Ok(()) => Ok(()),
        Err(IoErrorKind::NotFound) => Ok(()),
        Err(k) => Err(k),
    }
}

} // verus!
