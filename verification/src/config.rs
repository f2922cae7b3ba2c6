//! Settings: a global file and a per-repository file, merged field by field.
use vstd::prelude::*;
use crate::paths::{file_name_of, join_lit, join_path, join_path_chars, parent_of, path_file_name, path_parent};
use crate::text::{append_chars, chars_of, opt_seq, replace_char, replace_char_chars, string_of};

verus! {

#[derive(Debug, Clone, PartialEq, Eq)]
pub struct Config {
    pub shell_startup_command: Option<String>,
}

impl Default for Config {
    fn default() -> (r: Self)
        ensures
            r.shell_startup_command is None,
    {
        Config { shell_startup_command: None }
    }
}

impl Config {
    /// The settings in effect: local fields override global ones where set.
    /// A missing or unreadable file counts as empty.
    pub fn load(global: Option<Config>, local: Option<Config>) -> (r: Self)
        ensures
            opt_seq(r.shell_startup_command) == match local {
                Some(l) if l.shell_startup_command is Some => opt_seq(l.shell_startup_command),
                _ => match global {
                    Some(g) => opt_seq(g.shell_startup_command),
                    None => None,
                },
            },
    {
        let g = match global {
            Some(g) => g,
            None => Config::default(),
        };
        let l = match local {
            Some(l) => l,
            None => Config::default(),
        };
        Self::merge(g, l)
    }

    /// Local fields override global fields where set.
    pub fn merge(global: Self, local: Self) -> (r: Self)
        ensures
            r.shell_startup_command == match local.shell_startup_command {
                Some(c) => Some(c),
                None => global.shell_startup_command,
            },
    {
        Config {
            shell_startup_command: match local.shell_startup_command {
                Some(c) => Some(c),
                None => global.shell_startup_command,
            },
        }
    }
}

/// `<home>/.config/fellowship/config.toml`.
pub fn global_config_path(home: &str) -> (r: String)
    ensures
        r@ == join_path(home@, ".config/fellowship/config.toml"@),
{
    string_of(&join_lit(&chars_of(home), ".config/fellowship/config.toml"))
}

/// `<repo>/.fellowship/config.toml`.
pub fn local_config_path(repo: &str) -> (r: String)
    ensures
        r@ == join_path(repo@, ".fellowship/config.toml"@),
{
    string_of(&join_lit(&chars_of(repo), ".fellowship/config.toml"))
}

/// The sibling directory of a repository for a branch:
/// `<parent>/<repo name>-<branch with / replaced by ->`.
pub open spec fn sibling_spec(repo_path: Seq<char>, branch: Seq<char>) -> Seq<char> {
    let name = match path_file_name(repo_path) {
        Some(n) => n,
        None => "repo"@,
    };
    let parent = match path_parent(repo_path) {
        Some(p) => p,
        None => repo_path,
    };
    join_path(parent, name.push('-') + replace_char(branch, '/', '-'))
}

pub fn worktree_sibling_path(repo_path: &str, branch: &str) -> (r: String)
    ensures
        r@ == sibling_spec(repo_path@, branch@),
{
    let name = match file_name_of(repo_path) {
        Some(n) => chars_of(n.as_str()),
        None => chars_of("repo"),
    };
    let slug = replace_char_chars(&chars_of(branch), '/', '-');
    let parent = match parent_of(repo_path) {
        Some(p) => chars_of(p.as_str()),
        None => chars_of(repo_path),
    };
    let mut leaf = name;
    leaf.push('-');
    append_chars(&mut leaf, &slug);
    string_of(&join_path_chars(&parent, &leaf))
}

} // verus!
