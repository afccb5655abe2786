use vstd::prelude::*;
use crate::error::ResolveError;
use crate::git::{open_repository, set_workdir};

verus! {

/// Where a repository lives: a directory, or a git directory with its own work tree.
#[derive(Clone, Debug)]
pub enum RepoPath {
    Path(String),
    Workdir { gitdir: String, workdir: String },
}

impl RepoPath {
    /// The git directory.
    pub fn gitpath(&self) -> (r: &str)
        ensures
            r@ == match self {
                RepoPath::Path(p) => p@,
                RepoPath::Workdir { gitdir, .. } => gitdir@,
            },
    {
        match self {
            RepoPath::Path(p) => p.as_str(),
            RepoPath::Workdir { gitdir, .. } => gitdir.as_str(),
        }
    }

    /// The explicit work tree, if one was given.
    pub fn workdir(&self) -> (r: Option<&str>)
        ensures
            match self {
                RepoPath::Path(_) => r is None,
                RepoPath::Workdir { workdir, .. } => r matches Some(w) && w@ == workdir@,
            },
    {
        match self {
            RepoPath::Path(_) => None,
            RepoPath::Workdir { workdir, .. } => Some(workdir.as_str()),
        }
    }
}

/// Opens the repository with the git2 backend; any failure is a failure to access it.
pub fn open_git_repo(path: &RepoPath) -> (r: Result<git2::Repository, ResolveError>)
    ensures
        r matches Err(e) ==> e == ResolveError::RepositoryAccess,
{
    let repo = match open_repository(path.gitpath()) {
        Ok(repo) => repo,
        Err(_) => return Err(ResolveError::RepositoryAccess),
    };
    match path.workdir() {
        Some(w) => match set_workdir(&repo, w) {
            Ok(()) => Ok(repo),
            Err(_) => Err(ResolveError::RepositoryAccess),
        },
        None => Ok(repo),
    }
}

} // verus!
