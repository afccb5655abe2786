use vstd::prelude::*;
use crate::error::ResolveError;
use crate::git::{
    error_code, object_id, oid_bytes, oid_from_bytes, oid_from_str, oid_to_bytes, revparse_single,
};
use crate::hex::{hex_of, hex_prefix, id_bytes_of_text, is_id_text};
use crate::repo_path::{open_git_repo, RepoPath};

verus! {

#[verifier::external_type_specification]
pub struct ExObjectId(gix::ObjectId);

/// Identifies a single commit by the 20 bytes of its content hash. Equality and order are
/// those of the bytes; all zeros stands for no commit.
#[derive(Clone, Copy, PartialEq, Eq, Hash, PartialOrd, Ord, Debug)]
pub struct CommitId {
    pub bytes: [u8; 20],
}

impl View for CommitId {
    type V = Seq<u8>;

    open spec fn view(&self) -> Seq<u8> {
        self.bytes@
    }
}

/// The gix object id with the same bytes as `c`.
pub open spec fn object_id_of(c: CommitId) -> gix::ObjectId {
    gix::ObjectId::Sha1(c.bytes)
}

/// The commit id with the same bytes as a gix object id.
pub open spec fn commit_id_of(o: gix::ObjectId) -> CommitId {
    match o {
        gix::ObjectId::Sha1(b) => CommitId { bytes: b },
        _ => arbitrary(),
    }
}

/// Going to the gix representation and back gives the same id, and so does the way
/// round from the gix side.
pub proof fn law_object_id_round_trip(c: CommitId, o: gix::ObjectId)
    ensures
        commit_id_of(object_id_of(c)) == c,
        object_id_of(commit_id_of(o)) == o,
{
}

/// Error for a revision expression that could not be resolved, by the class of the
/// backend's error.
pub open spec fn revision_error_of(code: git2::ErrorCode) -> ResolveError {
    match code {
        git2::ErrorCode::NotFound => ResolveError::RevisionNotFound,
        git2::ErrorCode::Ambiguous => ResolveError::RevisionAmbiguous,
        git2::ErrorCode::InvalidSpec => ResolveError::RevisionNotFound,
        _ => ResolveError::RepositoryAccess,
    }
}

/// Classifies the backend's error for a revision expression.
pub fn revision_error(code: git2::ErrorCode) -> (r: ResolveError)
    ensures
        r == revision_error_of(code),
{
    match code {
        git2::ErrorCode::NotFound => ResolveError::RevisionNotFound,
        git2::ErrorCode::Ambiguous => ResolveError::RevisionAmbiguous,
        git2::ErrorCode::InvalidSpec => ResolveError::RevisionNotFound,
        _ => ResolveError::RepositoryAccess,
    }
}

impl Default for CommitId {
    /// The all-zero id, which names no commit.
    fn default() -> (r: Self)
        ensures
            r@ == Seq::new(20, |i: int| 0u8),
    {
        let r = CommitId { bytes: [0u8; 20] };
        assert(r@ =~= Seq::new(20, |i: int| 0u8));
        r
    }
}

impl CommitId {
    /// Builds the id from a git2 object id.
    pub fn new(id: git2::Oid) -> (r: CommitId)
        ensures
            r@ == oid_bytes(id),
    {
        CommitId { bytes: oid_to_bytes(&id) }
    }

    /// Builds the id from its bytes.
    pub fn from_bytes(bytes: [u8; 20]) -> (r: CommitId)
        ensures
            r.bytes == bytes,
    {
        CommitId { bytes }
    }

    /// The git2 object id with the same bytes.
    pub fn get_oid(self) -> (r: git2::Oid)
        ensures
            oid_bytes(r) == self@,
    {
        oid_from_bytes(&self.bytes)
    }

    /// Converts into the object id type of the gix backend.
    pub fn to_object_id(&self) -> (r: gix::ObjectId)
        ensures
            r == object_id_of(*self),
    {
        gix::ObjectId::Sha1(self.bytes)
    }

    /// Builds the id from an object id of the gix backend.
    pub fn from_object_id(id: &gix::ObjectId) -> (r: CommitId)
        ensures
            r == commit_id_of(*id),
    {
        match id {
            gix::ObjectId::Sha1(b) => CommitId { bytes: *b },
            _ => CommitId { bytes: [0u8; 20] },
        }
    }

    /// The 40 lower-case hexadecimal digits of the id.
    pub fn to_hex_string(&self) -> (r: String)
        ensures
            r@ == hex_of(self@),
    {
        let r = hex_prefix(&self.bytes, 40);
        assert(hex_of(self@).take(40) =~= hex_of(self@));
        r
    }

    /// The first seven hexadecimal digits: a short form for display.
    pub fn get_short_string(&self) -> (r: String)
        ensures
            r@ == hex_of(self@).take(7),
    {
        hex_prefix(&self.bytes, 7)
    }

    /// Resolves a revision expression (a full or abbreviated hash, a reference name, `HEAD`,
    /// relative syntax) in the repository at `repo_path`.
    pub fn from_revision(repo_path: &RepoPath, revision: &str) -> (r: Result<CommitId, ResolveError>)
        ensures
            r matches Err(e) ==> (e == ResolveError::RepositoryAccess || e
                == ResolveError::RevisionNotFound || e == ResolveError::RevisionAmbiguous),
    {
        let repo = open_git_repo(repo_path)?;
        let found = revparse_single(&repo, revision);
        let r = match found {
            Ok(obj) => Ok(CommitId::new(object_id(&obj))),
            Err(e) => Err(revision_error(error_code(&e))),
        };
        r
    }

    /// Parses a full or abbreviated hexadecimal id; missing digits are zero.
    pub fn from_str_unchecked(commit_id_str: &str) -> (r: Result<CommitId, ResolveError>)
        ensures
            r is Ok <==> is_id_text(commit_id_str@),
            r matches Ok(c) ==> c@ == id_bytes_of_text(commit_id_str@),
            r matches Err(e) ==> e == ResolveError::MalformedIdentifier,
    {
        match oid_from_str(commit_id_str) {
            Ok(v) => Ok(CommitId::new(v)),
            Err(_) => Err(ResolveError::MalformedIdentifier),
        }
    }
}

} // verus!
