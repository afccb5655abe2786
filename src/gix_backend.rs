use vstd::prelude::*;

verus! {

#[verifier::external_type_specification]
#[verifier::external_body]
pub struct ExGixRepository(gix::Repository);

#[verifier::external_type_specification]
#[verifier::external_body]
pub struct ExGixError(gix::Error);

#[verifier::external_type_specification]
#[verifier::external_body]
pub struct ExGixCommit<'repo>(gix::Commit<'repo>);

#[verifier::external_type_specification]
#[verifier::external_body]
pub struct ExCommitRef<'a>(gix::objs::CommitRef<'a>);

#[verifier::external_type_specification]
#[verifier::external_body]
pub struct ExSnapshot(gix::mailmap::Snapshot);

#[verifier::external_type_specification]
#[verifier::external_body]
pub struct ExSignatureRef<'a>(gix::actor::SignatureRef<'a>);

/// Relies on `gix::open`: opens the repository at `path`.
#[verifier::external_body]
pub(crate) fn open_repository(path: &str) -> (r: Result<gix::Repository, gix::Error>) {
    gix::open(path)
}

/// Relies on `gix::mailmap::Snapshot::default`: a mailmap without entries.
#[verifier::external_body]
pub(crate) fn empty_mailmap() -> (r: gix::mailmap::Snapshot) {
    gix::mailmap::Snapshot::default()
}

/// Relies on `gix::Repository::open_mailmap_into`: merges the repository's mailmaps as they
/// are now into `target`, and reports the first one that could not be read.
#[verifier::external_body]
pub(crate) fn open_mailmap_into(repo: &gix::Repository, target: &mut gix::mailmap::Snapshot) -> (r:
    Result<(), gix::Error>) {
    repo.open_mailmap_into(target)
}

/// Relies on `gix::Repository::find_commit`: looks a commit up by its id.
#[verifier::external_body]
pub(crate) fn find_commit<'repo>(repo: &'repo gix::Repository, id: gix::ObjectId) -> (r: Result<
    gix::Commit<'repo>,
    gix::Error,
>) {
    repo.find_commit(id)
}

/// Relies on `gix::Commit::decode`: parses the commit object.
#[verifier::external_body]
pub(crate) fn decode_commit<'a>(c: &'a gix::Commit) -> (r: Result<
    gix::objs::CommitRef<'a>,
    gix::Error,
>) {
    c.decode()
}

/// The raw message bytes of a decoded gix commit.
pub uninterp spec fn commit_ref_message_bytes(c: gix::objs::CommitRef<'_>) -> Seq<u8>;

/// Relies on the `message` field of `gix::objs::CommitRef`: the message bytes as stored.
#[verifier::external_body]
pub(crate) fn commit_message_bytes(c: &gix::objs::CommitRef) -> (r: Vec<u8>)
    ensures
        r@ == commit_ref_message_bytes(*c),
{
    c.message.to_vec()
}

/// Relies on `gix::objs::CommitRef::author`: the parsed author, trimmed.
#[verifier::external_body]
pub(crate) fn commit_author<'a>(c: &gix::objs::CommitRef<'a>) -> (r: Result<
    gix::actor::SignatureRef<'a>,
    gix::Error,
>) {
    c.author()
}

/// Relies on `gix::objs::CommitRef::time`: the commit time in seconds since the epoch.
#[verifier::external_body]
pub(crate) fn commit_seconds(c: &gix::objs::CommitRef) -> (r: Result<i64, gix::Error>) {
    c.time().map(|t| t.seconds)
}

/// Relies on the `name` field of `gix::actor::SignatureRef`: the name in raw bytes.
#[verifier::external_body]
pub(crate) fn signature_name_bytes(s: &gix::actor::SignatureRef) -> (r: Vec<u8>) {
    s.name.to_vec()
}

/// Relies on `gix::mailmap::Snapshot::try_resolve`: the mapped name in raw bytes, if an
/// entry matches.
#[verifier::external_body]
pub(crate) fn try_resolve_name(m: &gix::mailmap::Snapshot, s: &gix::actor::SignatureRef) -> (r:
    Option<Vec<u8>>) {
    m.try_resolve(*s).map(|sig| sig.name.to_vec())
}

} // verus!
