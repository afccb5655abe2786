use vstd::prelude::*;
use crate::hex::{id_bytes_of_text, is_id_text};

verus! {

#[verifier::external_type_specification]
#[verifier::external_body]
pub struct ExRepository(git2::Repository);

#[verifier::external_type_specification]
#[verifier::external_body]
pub struct ExOid(git2::Oid);

#[verifier::external_type_specification]
#[verifier::external_body]
pub struct ExGitError(git2::Error);

#[verifier::external_type_specification]
pub struct ExErrorCode(git2::ErrorCode);

#[verifier::external_type_specification]
#[verifier::external_body]
pub struct ExMailmap(git2::Mailmap);

#[verifier::external_type_specification]
#[verifier::external_body]
pub struct ExCommit<'repo>(git2::Commit<'repo>);

#[verifier::external_type_specification]
#[verifier::external_body]
pub struct ExObject<'repo>(git2::Object<'repo>);

#[verifier::external_type_specification]
#[verifier::external_body]
pub struct ExSignature<'a>(git2::Signature<'a>);

/// The 20 bytes held by a git2 object id.
pub uninterp spec fn oid_bytes(o: git2::Oid) -> Seq<u8>;

/// Relies on `git2::Oid::as_bytes`: the raw 20 bytes of the id.
#[verifier::external_body]
pub(crate) fn oid_to_bytes(o: &git2::Oid) -> (r: [u8; 20])
    ensures
        r@ == oid_bytes(*o),
{
    let mut r = [0u8; 20];
    r.copy_from_slice(o.as_bytes());
    r
}

/// Relies on `git2::Oid::from_bytes`, which fails only on a slice whose length is not 20.
#[verifier::external_body]
pub(crate) fn oid_from_bytes(b: &[u8; 20]) -> (r: git2::Oid)
    ensures
        oid_bytes(r) == b@,
{
    git2::Oid::from_bytes(b).unwrap()
}

/// Relies on `git2::Oid::from_str`: it fails exactly on an empty text, one longer than
/// 40 digits, or one with a non-hexadecimal character; a short text is padded with zeros.
#[verifier::external_body]
pub(crate) fn oid_from_str(s: &str) -> (r: Result<git2::Oid, git2::Error>)
    ensures
        r is Ok <==> is_id_text(s@),
        r matches Ok(o) ==> oid_bytes(o) == id_bytes_of_text(s@),
{
    git2::Oid::from_str(s)
}

/// Relies on `git2::Error::code`: the class of a libgit2 error.
#[verifier::external_body]
pub(crate) fn error_code(e: &git2::Error) -> (r: git2::ErrorCode) {
    e.code()
}

/// Relies on `git2::Repository::open`: opens the repository at `path`.
#[verifier::external_body]
pub(crate) fn open_repository(path: &str) -> (r: Result<git2::Repository, git2::Error>) {
    git2::Repository::open(path)
}

/// Relies on `git2::Repository::set_workdir`: points the repository at another work tree.
#[verifier::external_body]
pub(crate) fn set_workdir(repo: &git2::Repository, dir: &str) -> (r: Result<(), git2::Error>) {
    repo.set_workdir(std::path::Path::new(dir), false)
}

/// Relies on `git2::Repository::revparse_single`: the object a revision expression names.
#[verifier::external_body]
pub(crate) fn revparse_single<'repo>(repo: &'repo git2::Repository, spec: &str) -> (r: Result<
    git2::Object<'repo>,
    git2::Error,
>) {
    repo.revparse_single(spec)
}

/// Relies on `git2::Object::id`.
#[verifier::external_body]
pub(crate) fn object_id(o: &git2::Object) -> (r: git2::Oid) {
    o.id()
}

/// Relies on `git2::Repository::mailmap`: reads the repository's mailmap as it is now.
#[verifier::external_body]
pub(crate) fn repository_mailmap(repo: &git2::Repository) -> (r: Result<git2::Mailmap, git2::Error>) {
    repo.mailmap()
}

/// The 20 bytes of a git2 commit's own id.
pub uninterp spec fn commit_key(c: git2::Commit<'_>) -> Seq<u8>;

/// Relies on `git2::Repository::find_commit`: looks a commit up by its id, so the commit
/// found carries that id.
#[verifier::external_body]
pub(crate) fn find_commit<'repo>(repo: &'repo git2::Repository, id: git2::Oid) -> (r: Result<
    git2::Commit<'repo>,
    git2::Error,
>)
    ensures
        r matches Ok(c) ==> commit_key(c) == oid_bytes(id),
{
    repo.find_commit(id)
}

/// The raw message bytes of a git2 commit.
pub uninterp spec fn message_bytes_of(c: git2::Commit<'_>) -> Seq<u8>;

/// Relies on `git2::Commit::message_bytes`: the raw bytes of the commit message.
#[verifier::external_body]
pub(crate) fn commit_message_bytes(c: &git2::Commit) -> (r: Vec<u8>)
    ensures
        r@ == message_bytes_of(*c),
{
    c.message_bytes().to_vec()
}

/// The time recorded in a git2 commit, in seconds since the epoch.
pub uninterp spec fn commit_time_of(c: git2::Commit<'_>) -> i64;

/// Relies on `git2::Commit::time` and `git2::Time::seconds`: the commit time as recorded.
#[verifier::external_body]
pub(crate) fn commit_seconds(c: &git2::Commit) -> (r: i64)
    ensures
        r == commit_time_of(*c),
{
    c.time().seconds()
}

/// Relies on `git2::Commit::author_with_mailmap`: the author as the mailmap rewrites it.
#[verifier::external_body]
pub(crate) fn author_with_mailmap(c: &git2::Commit, m: &git2::Mailmap) -> (r: Result<
    git2::Signature<'static>,
    git2::Error,
>) {
    c.author_with_mailmap(m)
}

/// Relies on `git2::Commit::author`: the author as recorded.
#[verifier::external_body]
pub(crate) fn commit_author<'a>(c: &'a git2::Commit) -> (r: git2::Signature<'a>) {
    c.author()
}

/// Relies on `git2::Signature::name_bytes`: the name as recorded, in raw bytes.
#[verifier::external_body]
pub(crate) fn signature_name_bytes(s: &git2::Signature) -> (r: Vec<u8>) {
    s.name_bytes().to_vec()
}

} // verus!
