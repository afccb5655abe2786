pub mod commit_id;
pub mod message;
pub mod error;
pub mod hex;
pub mod git;
pub mod repo_path;
pub mod gix_backend;
pub mod commits_info;
pub mod args;
