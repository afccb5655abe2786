use vstd::prelude::*;
use vstd::string::*;
use crate::repo_path::RepoPath;

verus! {

/// The startup configuration: the theme file, the repository and the update mode.
#[derive(Clone, Debug)]
pub struct CliArgs {
    pub theme: String,
    pub repo_path: RepoPath,
    pub notify_watcher: bool,
}

/// `rel` below `base`, joined by one `/`: `rel` alone where it is absolute or `base` is
/// empty, and no second separator where `base` already ends with one.
pub open spec fn joined_path(base: Seq<char>, rel: Seq<char>) -> Seq<char> {
    if (rel.len() > 0 && rel[0] == '/') || base.len() == 0 {
        rel
    } else if base.last() == '/' {
        base + rel
    } else {
        base + seq!['/'] + rel
    }
}

/// Joins two paths with `/`.
pub fn join_path(base: &str, rel: &str) -> (r: String)
    ensures
        r@ == joined_path(base@, rel@),
{
    let nb = base.unicode_len();
    let nr = rel.unicode_len();
    if (nr > 0 && rel.get_char(0) == '/') || nb == 0 {
        String::from_str(rel)
    } else if base.get_char(nb - 1) == '/' {
        String::from_str(base).concat(rel)
    } else {
        let sep = "/";
        proof {
            reveal_strlit("/");
        }
        assert(sep@ =~= seq!['/']);
        String::from_str(base).concat(sep).concat(rel)
    }
}

/// The text of an option, or `default` where it is absent.
pub open spec fn text_or(o: Option<String>, default: Seq<char>) -> Seq<char> {
    match o {
        Some(s) => s@,
        None => default,
    }
}

/// The repository named by the options: the git directory (the current one by default),
/// with its work tree where one is given.
pub open spec fn repo_path_of(directory: Option<String>, workdir: Option<String>, r: RepoPath) -> bool {
    match workdir {
        Some(w) => r matches RepoPath::Workdir { gitdir, workdir } && gitdir@ == text_or(
            directory,
            seq!['.'],
        ) && workdir@ == w@,
        None => r matches RepoPath::Path(p) && p@ == text_or(directory, seq!['.']),
    }
}

/// The default theme file name.
pub open spec fn default_theme() -> Seq<char> {
    seq!['t', 'h', 'e', 'm', 'e', '.', 'r', 'o', 'n']
}

/// The directory of this application below a platform directory.
pub fn app_dir(base: &str) -> (r: String)
    ensures
        r@ == joined_path(base@, seq!['g', 'i', 't', 'u', 'i']),
{
    let name = "gitui";
    proof {
        reveal_strlit("gitui");
    }
    assert(name@ =~= seq!['g', 'i', 't', 'u', 'i']);
    join_path(base, name)
}

/// The log file: the one given, else `gitui.log` in the cache directory.
pub fn log_file_path(path_override: Option<String>, cache_dir: &str) -> (r: String)
    ensures
        r@ == match path_override {
            Some(p) => p@,
            None => joined_path(cache_dir@, seq!['g', 'i', 't', 'u', 'i', '.', 'l', 'o', 'g']),
        },
{
    match path_override {
        Some(p) => p,
        None => {
            let name = "gitui.log";
            proof {
                reveal_strlit("gitui.log");
            }
            assert(name@ =~= seq!['g', 'i', 't', 'u', 'i', '.', 'l', 'o', 'g']);
            join_path(cache_dir, name)
        },
    }
}

/// Builds the startup configuration from the parsed options and the configuration
/// directory: the theme file lies in that directory, `theme.ron` by default.
pub fn startup_config(
    theme: Option<String>,
    directory: Option<String>,
    workdir: Option<String>,
    config_dir: &str,
    notify_watcher: bool,
) -> (r: CliArgs)
    ensures
        r.theme@ == joined_path(config_dir@, text_or(theme, default_theme())),
        repo_path_of(directory, workdir, r.repo_path),
        r.notify_watcher == notify_watcher,
{
    let gitdir = match directory {
        Some(d) => d,
        None => {
            let r = String::from_str(".");
            proof {
                reveal_strlit(".");
            }
            assert(r@ =~= seq!['.']);
            r
        },
    };
    let repo_path = match workdir {
        Some(w) => RepoPath::Workdir { gitdir, workdir: w },
        None => RepoPath::Path(gitdir),
    };
    let theme_file = match theme {
        Some(t) => t,
        None => {
            let r = String::from_str("theme.ron");
            proof {
                reveal_strlit("theme.ron");
            }
            assert(r@ =~= default_theme());
            r
        },
    };
    CliArgs { theme: join_path(config_dir, theme_file.as_str()), repo_path, notify_watcher }
}

} // verus!
