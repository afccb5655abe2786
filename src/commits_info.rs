use vstd::prelude::*;
use vstd::string::*;
use crate::commit_id::CommitId;
use crate::error::ResolveError;
use crate::git;
use crate::gix_backend;
use crate::message::{format_message, formatted};
use crate::repo_path::{open_git_repo, RepoPath};

verus! {

/// A commit as it is shown: message, time in seconds since the epoch, author and id.
#[derive(Debug, Clone)]
pub struct CommitInfo {
    pub message: String,
    pub time: i64,
    pub author: String,
    pub id: CommitId,
}

/// What the raw message bytes decode to, invalid UTF-8 replaced.
pub uninterp spec fn lossy_text(b: Seq<u8>) -> Seq<char>;

/// The first `k` bytes of `b` are ASCII.
pub open spec fn ascii_before(b: Seq<u8>, k: int) -> bool {
    forall|j: int| 0 <= j < k ==> #[trigger] b[j] < 128
}

/// Relies on `String::from_utf8_lossy`: decoding never fails, and valid UTF-8 is kept as it
/// is, so a leading run of ASCII bytes comes out as the same characters.
#[verifier::external_body]
fn decode_lossy(b: &[u8]) -> (r: String)
    ensures
        r@ == lossy_text(b@),
        forall|k: int|
            0 <= k <= b@.len() && #[trigger] ascii_before(b@, k) ==> k <= r@.len() && forall|j: int|
                0 <= j < k ==> r@[j] == (#[trigger] b@[j]) as char,
{
    String::from_utf8_lossy(b).into_owned()
}

/// The name shown for an author that has none.
pub open spec fn unknown_author() -> Seq<char> {
    seq!['<', 'u', 'n', 'k', 'n', 'o', 'w', 'n', '>']
}

/// The author shown: the name the mailmap gives if it gives one, else the recorded name;
/// the placeholder where that is missing or empty.
pub open spec fn author_of(mapped: Option<Seq<char>>, raw: Option<Seq<char>>) -> Seq<char> {
    let pick = if mapped is Some {
        mapped
    } else {
        raw
    };
    match pick {
        Some(n) => if n.len() > 0 {
            n
        } else {
            unknown_author()
        },
        None => unknown_author(),
    }
}

/// The text of an optional string.
pub open spec fn opt_text(o: Option<String>) -> Option<Seq<char>> {
    match o {
        Some(s) => Some(s@),
        None => None,
    }
}

/// `r` is the record of commit `id` with raw message `message`, shown under `limit`, whose
/// author the mailmap maps to `mapped` and whose recorded author is `raw`.
pub open spec fn is_record_of(
    r: CommitInfo,
    id: CommitId,
    message: Seq<char>,
    limit: Option<usize>,
    mapped: Option<Seq<char>>,
    raw: Option<Seq<char>>,
    time: i64,
) -> bool {
    &&& r.message@ == formatted(message, limit)
    &&& r.time == time
    &&& r.author@ == author_of(mapped, raw)
    &&& r.id == id
}

/// `r` is the record, under `limit`, of the git2 commit `c` whose id is `id`: its message
/// bytes decoded with replacement, its time, and the author that the mailmap gave.
pub open spec fn record_of_commit(r: CommitInfo, c: git2::Commit<'_>, id: CommitId, limit: usize) -> bool {
    &&& git::commit_key(c) == id@
    &&& exists|mapped: Option<Seq<char>>, raw: Option<Seq<char>>|
        is_record_of(
            r,
            id,
            lossy_text(git::message_bytes_of(c)),
            Some(limit),
            mapped,
            raw,
            git::commit_time_of(c),
        )
}

/// `r` is the record of commit `id` for some raw message bytes, decoded with replacement,
/// some mailmap answer, recorded author and time, its message shaped under `limit`.
pub open spec fn resolved_from_bytes(r: CommitInfo, id: CommitId, limit: Option<usize>) -> bool {
    exists|b: Seq<u8>, mapped: Option<Seq<char>>, raw: Option<Seq<char>>, t: i64|
        is_record_of(r, id, lossy_text(b), limit, mapped, raw, t)
}

/// Picks the author name to show.
pub fn display_author(mapped: Option<String>, raw: Option<String>) -> (r: String)
    ensures
        r@ == author_of(opt_text(mapped), opt_text(raw)),
        r@.len() > 0,
{
    let pick = match mapped {
        Some(m) => Some(m),
        None => raw,
    };
    match pick {
        Some(n) => {
            if n.as_str().unicode_len() > 0 {
                n
            } else {
                let r = String::from_str("<unknown>");
                proof {
                    reveal_strlit("<unknown>");
                }
                assert(r@ =~= unknown_author());
                r
            }
        },
        None => {
            let r = String::from_str("<unknown>");
            proof {
                reveal_strlit("<unknown>");
            }
            assert(r@ =~= unknown_author());
            r
        },
    }
}

/// Assembles the record of one commit from what the backend read of it.
pub fn commit_record(
    id: CommitId,
    message: &str,
    limit: Option<usize>,
    mapped: Option<String>,
    raw: Option<String>,
    time: i64,
) -> (r: CommitInfo)
    ensures
        is_record_of(r, id, message@, limit, opt_text(mapped), opt_text(raw), time),
        r.author@.len() > 0,
{
    CommitInfo { message: format_message(message, limit), time, author: display_author(mapped, raw), id }
}

/// A mailmap entry can change the author of a record and nothing else: two records of one
/// commit that differ only in what the mailmap says agree on message, time and id. With no
/// entry, the author is the recorded name where it is not empty.
pub proof fn law_mailmap_changes_only_author(
    a: CommitInfo,
    b: CommitInfo,
    id: CommitId,
    message: Seq<char>,
    limit: Option<usize>,
    mapped_a: Option<Seq<char>>,
    mapped_b: Option<Seq<char>>,
    raw: Option<Seq<char>>,
    time: i64,
)
    requires
        is_record_of(a, id, message, limit, mapped_a, raw, time),
        is_record_of(b, id, message, limit, mapped_b, raw, time),
    ensures
        a.message@ == b.message@,
        a.time == b.time,
        a.id == b.id,
        (mapped_a is None && raw is Some && raw->0.len() > 0) ==> a.author@ == raw->0,
        mapped_a == mapped_b ==> a.author@ == b.author@,
{
}

/// The message of a git2 commit, decoded and shaped by `format_message`.
pub fn get_message(c: &git2::Commit, message_limit: Option<usize>) -> (r: String)
    ensures
        r@ == formatted(lossy_text(git::message_bytes_of(*c)), message_limit),
{
    let bytes = git::commit_message_bytes(c);
    let text = decode_lossy(bytes.as_slice());
    format_message(text.as_str(), message_limit)
}

/// The message of a gix commit, decoded and shaped by `format_message`.
pub fn gix_get_message(commit_ref: &gix::objs::CommitRef, message_limit: Option<usize>) -> (r:
    String)
    ensures
        r@ == formatted(
            lossy_text(gix_backend::commit_ref_message_bytes(*commit_ref)),
            message_limit,
        ),
{
    let bytes = gix_backend::commit_message_bytes(commit_ref);
    let text = decode_lossy(bytes.as_slice());
    format_message(text.as_str(), message_limit)
}

/// Resolves each id of `ids` to its record through the git2 backend, in the order given,
/// duplicates included; messages are cut to their first line within `message_length_limit`
/// display columns. The mailmap is read afresh. Any id that names no commit fails the whole
/// call.
pub fn get_commits_info(repo_path: &RepoPath, ids: &[CommitId], message_length_limit: usize) -> (r:
    Result<Vec<CommitInfo>, ResolveError>)
    ensures
        r matches Ok(v) ==> {
            &&& v.len() == ids@.len()
            &&& forall|i: int|
                0 <= i < v.len() ==> {
                    &&& (#[trigger] v[i]).id == ids@[i]
                    &&& exists|c: git2::Commit| record_of_commit(v[i], c, ids@[i], message_length_limit)
                    &&& v[i].author@.len() > 0
                }
        },
        r matches Err(e) ==> (e == ResolveError::RepositoryAccess || e
            == ResolveError::MailmapLoadFailure || e == ResolveError::ObjectNotFound),
{
    let repo = open_git_repo(repo_path)?;
    let mailmap = match git::repository_mailmap(&repo) {
        Ok(m) => m,
        Err(_) => return Err(ResolveError::MailmapLoadFailure),
    };
    let n = ids.len();
    let mut commits: Vec<git2::Commit> = Vec::new();
    let mut i: usize = 0;
    while i < n
        invariant
            n == ids@.len(),
            i <= n,
            commits.len() == i,
            forall|j: int| 0 <= j < i ==> git::commit_key(#[trigger] commits@[j]) == ids@[j]@,
        decreases n - i,
    {
        let found = git::find_commit(&repo, ids[i].get_oid());
        match found {
            Ok(c) => commits.push(c),
            Err(_) => return Err(ResolveError::ObjectNotFound),
        }
        i = i + 1;
    }
    let mut res: Vec<CommitInfo> = Vec::new();
    let mut k: usize = 0;
    while k < n
        invariant
            n == ids@.len(),
            commits.len() == n,
            forall|j: int| 0 <= j < n ==> git::commit_key(#[trigger] commits@[j]) == ids@[j]@,
            k <= n,
            res.len() == k,
            forall|j: int|
                0 <= j < k ==> {
                    &&& (#[trigger] res[j]).id == ids@[j]
                    &&& exists|c: git2::Commit| record_of_commit(res[j], c, ids@[j], message_length_limit)
                    &&& res[j].author@.len() > 0
                },
        decreases n - k,
    {
        let c = &commits[k];
        let bytes = git::commit_message_bytes(c);
        let text = decode_lossy(bytes.as_slice());
        let mapped = match git::author_with_mailmap(c, &mailmap) {
            Ok(sig) => Some(decode_lossy(git::signature_name_bytes(&sig).as_slice())),
            Err(_) => None,
        };
        let raw = Some(decode_lossy(git::signature_name_bytes(&git::commit_author(c)).as_slice()));
        let time = git::commit_seconds(c);
        let rec = commit_record(ids[k], text.as_str(), Some(message_length_limit), mapped, raw, time);
        assert(is_record_of(
            rec,
            ids@[k as int],
            lossy_text(bytes@),
            Some(message_length_limit),
            opt_text(mapped),
            opt_text(raw),
            time,
        ));
        assert(record_of_commit(rec, commits@[k as int], ids@[k as int], message_length_limit));
        let ghost prev = res@;
        res.push(rec);
        assert forall|j: int| 0 <= j < k + 1 implies {
            &&& (#[trigger] res[j]).id == ids@[j]
            &&& exists|c: git2::Commit| record_of_commit(res[j], c, ids@[j], message_length_limit)
            &&& res[j].author@.len() > 0
        } by {
            if j < k {
                assert(res@[j] == prev[j]);
            } else {
                assert(res@[j] == rec);
                assert(record_of_commit(res[j], commits@[k as int], ids@[j], message_length_limit));
            }
        }
        k = k + 1;
    }
    Ok(res)
}

/// Resolves one id to its record through the gix backend and its own mailmap; the message
/// is trimmed and kept whole.
pub fn get_commit_info(repo_path: &RepoPath, commit_id: &CommitId) -> (r: Result<
    CommitInfo,
    ResolveError,
>)
    ensures
        r matches Ok(info) ==> {
            &&& info.id == *commit_id
            &&& resolved_from_bytes(info, *commit_id, None)
            &&& info.author@.len() > 0
        },
        r matches Err(e) ==> (e == ResolveError::RepositoryAccess || e
            == ResolveError::MailmapLoadFailure || e == ResolveError::ObjectNotFound || e
            == ResolveError::CorruptObject),
{
    let repo = match gix_backend::open_repository(repo_path.gitpath()) {
        Ok(repo) => repo,
        Err(_) => return Err(ResolveError::RepositoryAccess),
    };
    let mut mailmap = gix_backend::empty_mailmap();
    match gix_backend::open_mailmap_into(&repo, &mut mailmap) {
        Ok(()) => {},
        Err(_) => return Err(ResolveError::MailmapLoadFailure),
    }
    let found = gix_backend::find_commit(&repo, commit_id.to_object_id());
    let commit = match found {
        Ok(c) => c,
        Err(_) => return Err(ResolveError::ObjectNotFound),
    };
    let decoded = gix_backend::decode_commit(&commit);
    let r = match decoded {
        Ok(commit_ref) => {
            let bytes = gix_backend::commit_message_bytes(&commit_ref);
            let text = decode_lossy(bytes.as_slice());
            match gix_backend::commit_author(&commit_ref) {
                Ok(author) => match gix_backend::commit_seconds(&commit_ref) {
                    Ok(time) => {
                        let mapped = match gix_backend::try_resolve_name(&mailmap, &author) {
                            Some(b) => Some(decode_lossy(b.as_slice())),
                            None => None,
                        };
                        let raw = Some(
                            decode_lossy(gix_backend::signature_name_bytes(&author).as_slice()),
                        );
                        let rec = commit_record(*commit_id, text.as_str(), None, mapped, raw, time);
                        assert(is_record_of(
                            rec,
                            *commit_id,
                            lossy_text(bytes@),
                            None,
                            opt_text(mapped),
                            opt_text(raw),
                            time,
                        ));
                        Ok(rec)
                    },
                    Err(_) => Err(ResolveError::CorruptObject),
                },
                Err(_) => Err(ResolveError::CorruptObject),
            }
        },
        Err(_) => Err(ResolveError::CorruptObject),
    };
    r
}

} // verus!
