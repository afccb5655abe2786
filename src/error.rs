use vstd::prelude::*;

verus! {

/// What went wrong while resolving commits.
#[derive(Clone, Copy, Debug, PartialEq, Eq, Structural)]
pub enum ResolveError {
    /// The repository could not be opened or read.
    RepositoryAccess,
    /// A revision expression names no object.
    RevisionNotFound,
    /// A revision expression names more than one object.
    RevisionAmbiguous,
    /// A text is not a hexadecimal object id.
    MalformedIdentifier,
    /// An id names no commit of the object store.
    ObjectNotFound,
    /// The repository's mailmap could not be loaded.
    MailmapLoadFailure,
    /// A commit object could not be decoded.
    CorruptObject,
}

} // verus!
