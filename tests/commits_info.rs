use commits_info::commit_id::CommitId;
use commits_info::commits_info::{get_commit_info, get_commits_info, get_message};
use commits_info::error::ResolveError;
use commits_info::repo_path::RepoPath;
use git2::{Oid, Repository, Signature};
use tempfile::TempDir;

fn repo_init_empty() -> (TempDir, Repository) {
    let td = TempDir::new().unwrap();
    let repo = Repository::init(td.path()).unwrap();
    {
        let mut config = repo.config().unwrap();
        config.set_str("user.name", "name").unwrap();
        config.set_str("user.email", "email").unwrap();
    }
    (td, repo)
}

fn path_of(td: &TempDir) -> RepoPath {
    RepoPath::Path(td.path().to_str().unwrap().to_string())
}

/// Commits a tree holding `foo` with the given content on top of HEAD.
fn commit(repo: &Repository, content: &[u8], msg: &str) -> CommitId {
    let blob = repo.blob(content).unwrap();
    let mut tb = repo.treebuilder(None).unwrap();
    tb.insert("foo", blob, 0o100644).unwrap();
    let tree = repo.find_tree(tb.write().unwrap()).unwrap();
    let sig = Signature::now("name", "email").unwrap();
    let parent = repo.head().ok().and_then(|h| h.peel_to_commit().ok());
    let parents: Vec<&git2::Commit> = parent.iter().collect();
    let id = repo.commit(Some("HEAD"), &sig, &sig, msg, &tree, &parents).unwrap();
    CommitId::new(id)
}

/// Puts a `.mailmap` file with `content` into the work tree.
fn write_worktree_mailmap(repo: &Repository, content: &[u8]) {
    let blob = repo.blob(content).unwrap();
    let mut tb = repo.treebuilder(None).unwrap();
    tb.insert(".mailmap", blob, 0o100644).unwrap();
    let tree = repo.find_tree(tb.write().unwrap()).unwrap();
    let mut opts = git2::build::CheckoutBuilder::new();
    opts.force();
    repo.checkout_tree(tree.as_object(), Some(&mut opts)).unwrap();
}

fn head_id(repo: &Repository) -> CommitId {
    CommitId::new(repo.head().unwrap().peel_to_commit().unwrap().id())
}

fn id_from(byte: u8) -> CommitId {
    CommitId::from_bytes([byte; 20])
}

#[test]
fn test_log() {
    let (td, repo) = repo_init_empty();
    let repo_path = path_of(&td);

    let c1 = commit(&repo, b"a", "commit1");
    let c2 = commit(&repo, b"a", "commit2");

    let res = get_commits_info(&repo_path, &[c2, c1], 50).unwrap();

    assert_eq!(res.len(), 2);
    assert_eq!(res[0].message.as_str(), "commit2");
    assert_eq!(res[0].author.as_str(), "name");
    assert_eq!(res[1].message.as_str(), "commit1");

    write_worktree_mailmap(&repo, b"new name <newemail> <email>");
    let res = get_commits_info(&repo_path, &[c2], 50).unwrap();

    assert_eq!(res[0].author.as_str(), "new name");
}

#[test]
fn test_log_first_msg_line() {
    let (td, repo) = repo_init_empty();
    let repo_path = path_of(&td);

    let c1 = commit(&repo, b"a", "subject\nbody");

    let res = get_commits_info(&repo_path, &[c1], 50).unwrap();

    assert_eq!(res.len(), 1);
    assert_eq!(res[0].message.as_str(), "subject");
}

#[test]
fn test_invalid_utf8() {
    let (td, repo) = repo_init_empty();
    let repo_path = path_of(&td);
    commit(&repo, b"a", "first");

    let head = repo.head().unwrap().peel_to_commit().unwrap();
    let mut raw = format!(
        "tree {}\nparent {}\nauthor name <email> 0 +0000\ncommitter name <email> 0 +0000\n\n",
        head.tree_id(),
        head.id()
    )
    .into_bytes();
    raw.extend_from_slice(b"test msg\xff\xfe\x80");
    let oid = repo.odb().unwrap().write(git2::ObjectType::Commit, &raw).unwrap();
    repo.reference("refs/heads/master", oid, true, "raw commit").unwrap();
    repo.set_head("refs/heads/master").unwrap();

    let res = get_commits_info(&repo_path, &[head_id(&repo)], 50).unwrap();

    assert_eq!(res.len(), 1);
    assert!(res[0].message.starts_with("test msg"));
}

#[test]
fn test_get_commit_from_revision() {
    let (td, repo) = repo_init_empty();
    let repo_path = path_of(&td);

    let c1 = commit(&repo, b"a", "subject: foo\nbody");
    let c1_rev = c1.get_short_string();

    assert_eq!(CommitId::from_revision(&repo_path, c1_rev.as_str()).unwrap(), c1);

    const FOREIGN_HASH: &str = "d6d7d55cb6e4ba7301d6a11a657aab4211e5777e";
    assert!(CommitId::from_revision(&repo_path, FOREIGN_HASH).is_err());
}

#[test]
fn foreign_hash_is_not_found() {
    let (td, repo) = repo_init_empty();
    let repo_path = path_of(&td);
    commit(&repo, b"a", "one");
    assert_eq!(
        CommitId::from_revision(&repo_path, "d6d7d55cb6e4ba7301d6a11a657aab4211e5777e"),
        Err(ResolveError::RevisionNotFound)
    );
}

#[test]
fn revision_head_and_full_hash() {
    let (td, repo) = repo_init_empty();
    let repo_path = path_of(&td);
    let c1 = commit(&repo, b"a", "one");
    assert_eq!(CommitId::from_revision(&repo_path, "HEAD").unwrap(), c1);
    assert_eq!(CommitId::from_revision(&repo_path, c1.to_hex_string().as_str()).unwrap(), c1);
}

#[test]
fn batch_keeps_order_with_duplicates() {
    let (td, repo) = repo_init_empty();
    let repo_path = path_of(&td);
    let c1 = commit(&repo, b"a", "commit1");
    let c2 = commit(&repo, b"b", "commit2");
    let res = get_commits_info(&repo_path, &[c1, c2, c1, c1], 50).unwrap();
    let ids: Vec<CommitId> = res.iter().map(|r| r.id).collect();
    assert_eq!(ids, vec![c1, c2, c1, c1]);
    let msgs: Vec<&str> = res.iter().map(|r| r.message.as_str()).collect();
    assert_eq!(msgs, vec!["commit1", "commit2", "commit1", "commit1"]);
}

#[test]
fn batch_of_nothing_is_empty() {
    let (td, repo) = repo_init_empty();
    commit(&repo, b"a", "one");
    assert!(get_commits_info(&path_of(&td), &[], 10).unwrap().is_empty());
}

#[test]
fn batch_fails_on_missing_id() {
    let (td, repo) = repo_init_empty();
    let c1 = commit(&repo, b"a", "one");
    assert_eq!(
        get_commits_info(&path_of(&td), &[c1, id_from(0xab)], 50).unwrap_err(),
        ResolveError::ObjectNotFound
    );
}

#[test]
fn missing_repository_is_an_access_error() {
    let td = TempDir::new().unwrap();
    let path = RepoPath::Path(td.path().join("nothing").to_str().unwrap().to_string());
    assert_eq!(get_commits_info(&path, &[], 50).unwrap_err(), ResolveError::RepositoryAccess);
    assert_eq!(
        CommitId::from_revision(&path, "HEAD"),
        Err(ResolveError::RepositoryAccess)
    );
    assert_eq!(
        get_commit_info(&path, &id_from(1)).unwrap_err(),
        ResolveError::RepositoryAccess
    );
}

#[test]
fn mailmap_changes_only_author() {
    let (td, repo) = repo_init_empty();
    let repo_path = path_of(&td);
    let c1 = commit(&repo, b"a", "subject\nbody");
    let before = get_commits_info(&repo_path, &[c1], 50).unwrap();
    let mailmap = repo.blob(b"new name <newemail> <email>").unwrap();
    repo.config().unwrap().set_str("mailmap.blob", &mailmap.to_string()).unwrap();
    let after = get_commits_info(&repo_path, &[c1], 50).unwrap();
    assert_eq!(before[0].author, "name");
    assert_eq!(after[0].author, "new name");
    assert_eq!(before[0].message, after[0].message);
    assert_eq!(before[0].time, after[0].time);
    assert_eq!(before[0].id, after[0].id);
}

#[test]
fn batch_truncates_to_display_width() {
    let (td, repo) = repo_init_empty();
    let c1 = commit(&repo, b"a", "  hello world  \nmore");
    let res = get_commits_info(&path_of(&td), &[c1], 5).unwrap();
    assert_eq!(res[0].message, "hello");
}

#[test]
fn single_resolution_with_gix() {
    let (td, repo) = repo_init_empty();
    let repo_path = path_of(&td);
    let c1 = commit(&repo, b"a", "  subject\nbody\n");
    let info = get_commit_info(&repo_path, &c1).unwrap();
    assert_eq!(info.id, c1);
    assert_eq!(info.message, "subject\nbody");
    assert_eq!(info.author, "name");
    let batch = get_commits_info(&repo_path, &[c1], 50).unwrap();
    assert_eq!(info.time, batch[0].time);
    assert_eq!(info.author, batch[0].author);
}

#[test]
fn single_resolution_missing_object() {
    let (td, repo) = repo_init_empty();
    commit(&repo, b"a", "one");
    assert_eq!(
        get_commit_info(&path_of(&td), &id_from(0x42)).unwrap_err(),
        ResolveError::ObjectNotFound
    );
}

#[test]
fn message_of_git2_commit() {
    let (_td, repo) = repo_init_empty();
    let c1 = commit(&repo, b"a", "\n title line \nbody\n");
    let c = repo.find_commit(c1.get_oid()).unwrap();
    assert_eq!(get_message(&c, None), "title line \nbody");
    assert_eq!(get_message(&c, Some(50)), "title line ");
    assert_eq!(get_message(&c, Some(3)), "tit");
}

#[test]
fn oid_conversions_keep_bytes() {
    let oid = Oid::from_str("d6d7d55cb6e4ba7301d6a11a657aab4211e5777e").unwrap();
    let id = CommitId::new(oid);
    assert_eq!(id.get_oid(), oid);
    assert_eq!(id.to_hex_string(), "d6d7d55cb6e4ba7301d6a11a657aab4211e5777e");
    assert_eq!(id.get_short_string(), "d6d7d55");
    assert_eq!(id.bytes[0], 0xd6);
    assert_eq!(id.bytes[19], 0x7e);
}

#[test]
fn gix_mailmap_entry_renames_author() {
    let (td, repo) = repo_init_empty();
    let repo_path = path_of(&td);
    let c1 = commit(&repo, b"a", "commit1");
    let mailmap = repo.blob(b"new name <newemail> <email>").unwrap();
    repo.config().unwrap().set_str("mailmap.blob", &mailmap.to_string()).unwrap();
    let info = get_commit_info(&repo_path, &c1).unwrap();
    assert_eq!(info.author, "new name");
    assert_eq!(info.message, "commit1");
    let batch = get_commits_info(&repo_path, &[c1], 50).unwrap();
    assert_eq!(info.author, batch[0].author);
}

#[test]
fn message_of_gix_commit() {
    let (td, repo) = repo_init_empty();
    let c1 = commit(&repo, b"a", "  first line\nsecond line\n");
    let gix_repo = gix::open(td.path()).unwrap();
    let commit = gix_repo.find_commit(c1.to_object_id()).unwrap();
    let commit_ref = commit.decode().unwrap();
    assert_eq!(
        commits_info::commits_info::gix_get_message(&commit_ref, None),
        "first line\nsecond line"
    );
    assert_eq!(commits_info::commits_info::gix_get_message(&commit_ref, Some(5)), "first");
}

#[test]
fn backends_agree_on_non_utf8_author() {
    let (td, repo) = repo_init_empty();
    let repo_path = path_of(&td);
    commit(&repo, b"a", "first");
    let head = repo.head().unwrap().peel_to_commit().unwrap();
    let mut raw = format!("tree {}\nparent {}\n", head.tree_id(), head.id()).into_bytes();
    raw.extend_from_slice(b"author na\xffme <email> 7 +0000\ncommitter name <email> 7 +0000\n\n");
    raw.extend_from_slice(b"\n\nmsg \xfe\nbody\n");
    let oid = repo.odb().unwrap().write(git2::ObjectType::Commit, &raw).unwrap();
    let id = CommitId::new(oid);
    let batch = get_commits_info(&repo_path, &[id], 50).unwrap();
    let single = get_commit_info(&repo_path, &id).unwrap();
    assert_eq!(batch[0].author, "na\u{fffd}me");
    assert_eq!(single.author, batch[0].author);
    assert_eq!(single.time, 7);
    assert_eq!(batch[0].time, 7);
    assert_eq!(batch[0].message, "msg \u{fffd}");
    assert_eq!(single.message, "msg \u{fffd}\nbody");
}
