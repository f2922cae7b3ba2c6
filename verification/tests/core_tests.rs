use std::collections::HashMap;
use std::path::Path;

use fellowship::beads::{is_blank_output, Bead, RawIssue, Status};
use fellowship::config::{global_config_path, local_config_path, worktree_sibling_path, Config};
use fellowship::git::{
    branch_from_rev_parse, origin_from_config, parse_owner_repo, parse_shortstat,
    parse_worktree_porcelain, push_name_status, push_untracked, repo_dirname,
    worktree_target_path, Diff, FileStatus,
};
use fellowship::runtime::{
    agent_notes_path, agent_state_dir, agent_state_path, bus_tick_path, current_session_marker_path,
    journal_path, parse_current_session, request_file_path, resolve_runtime_dir, subdir_path,
};
use fellowship::surface::{MemberId, Role, Surface};

// ---- beads ----

#[test]
fn status_parse_recognizes_known_values() {
    assert_eq!(Status::parse("open"), Status::Open);
    assert_eq!(Status::parse("in_progress"), Status::InProgress);
    assert_eq!(Status::parse("in-progress"), Status::InProgress);
    assert_eq!(Status::parse("in_review"), Status::InReview);
    assert_eq!(Status::parse("closed"), Status::Closed);
    assert_eq!(Status::parse("done"), Status::Closed);
    assert_eq!(Status::parse("anything-else"), Status::Other);
}

#[test]
fn status_parse_accepts_hyphenated_review_and_is_case_sensitive() {
    assert_eq!(Status::parse("in-review"), Status::InReview);
    assert_eq!(Status::parse("Open"), Status::Other);
    assert_eq!(Status::parse(""), Status::Other);
}

#[test]
fn bead_from_raw_issue_parses_status_and_keeps_fields() {
    let raw = RawIssue {
        id: "bd-1".into(),
        title: "hello".into(),
        status: "in_progress".into(),
        assignee: Some("engineer-1".into()),
        labels: vec!["role:engineer".into()],
        priority: Some(2),
        issue_type: Some("task".into()),
    };
    let b = Bead::from(raw);
    assert_eq!(b.id, "bd-1");
    assert_eq!(b.title, "hello");
    assert_eq!(b.status, Status::InProgress);
    assert_eq!(b.assignee.as_deref(), Some("engineer-1"));
    assert_eq!(b.labels, vec!["role:engineer".to_string()]);
    assert_eq!(b.priority, Some(2));
    assert_eq!(b.issue_type.as_deref(), Some("task"));
}

#[test]
fn blank_output_is_whitespace_only() {
    assert!(is_blank_output(b"   \n  "));
    assert!(is_blank_output(b""));
    assert!(!is_blank_output(b"[]"));
}

// ---- config ----

#[test]
fn local_overrides_global() {
    let global = Config { shell_startup_command: Some("global-cmd".into()) };
    let local = Config { shell_startup_command: Some("local-cmd".into()) };
    let merged = Config::merge(global, local);
    assert_eq!(merged.shell_startup_command.as_deref(), Some("local-cmd"));
}

#[test]
fn local_unset_falls_back_to_global() {
    let global = Config { shell_startup_command: Some("global-cmd".into()) };
    let local = Config::default();
    let merged = Config::merge(global, local);
    assert_eq!(merged.shell_startup_command.as_deref(), Some("global-cmd"));
}

#[test]
fn load_treats_missing_files_as_empty() {
    let none = Config::load(None, None);
    assert!(none.shell_startup_command.is_none());
    let only_global = Config::load(Some(Config { shell_startup_command: Some("g".into()) }), None);
    assert_eq!(only_global.shell_startup_command.as_deref(), Some("g"));
    let both = Config::load(
        Some(Config { shell_startup_command: Some("g".into()) }),
        Some(Config { shell_startup_command: Some("l".into()) }),
    );
    assert_eq!(both.shell_startup_command.as_deref(), Some("l"));
}

#[test]
fn config_paths_are_fixed_below_home_and_repo() {
    assert_eq!(global_config_path("/home/u"), "/home/u/.config/fellowship/config.toml");
    assert_eq!(local_config_path("/repo"), "/repo/.fellowship/config.toml");
}

#[test]
fn worktree_sibling_path_slugs_branch_next_to_repo() {
    assert_eq!(worktree_sibling_path("/src/app", "feat/x"), "/src/app-feat-x");
}

// ---- git ----

#[test]
fn test_parse_worktree_porcelain_basic() {
    let input = "\
worktree /home/user/repo
HEAD abc123
branch refs/heads/main

worktree /home/user/repo-feat
HEAD def456
branch refs/heads/feat/test

";
    let wts = parse_worktree_porcelain(input);
    assert_eq!(wts.len(), 2);
    assert_eq!(wts[0].branch.as_deref(), Some("main"));
    assert!(wts[0].is_current);
    assert_eq!(wts[1].branch.as_deref(), Some("feat/test"));
    assert!(!wts[1].is_current);
}

#[test]
fn test_parse_worktree_porcelain_bare_skipped() {
    let input = "\
worktree /home/user/repo
HEAD abc123
branch refs/heads/main

worktree /home/user/repo.git
HEAD 000000
bare

";
    let wts = parse_worktree_porcelain(input);
    assert_eq!(wts.len(), 1);
    assert_eq!(wts[0].branch.as_deref(), Some("main"));
}

#[test]
fn test_parse_worktree_porcelain_no_trailing_newline() {
    let input = "worktree /home/user/repo\nHEAD abc123\nbranch refs/heads/main";
    let wts = parse_worktree_porcelain(input);
    assert_eq!(wts.len(), 1);
}

#[test]
fn porcelain_keeps_path_and_head() {
    let wts = parse_worktree_porcelain("worktree /r\nHEAD 0123\ndetached\n\n");
    assert_eq!(wts.len(), 1);
    assert_eq!(wts[0].path, "/r");
    assert_eq!(wts[0].head.as_deref(), Some("0123"));
    assert_eq!(wts[0].branch, None);
    assert!(wts[0].is_current);
}

#[test]
fn test_parse_shortstat() {
    let mut diff = Diff::default();
    parse_shortstat(" 3 files changed, 45 insertions(+), 12 deletions(-)", &mut diff);
    assert_eq!(diff.insertions, 45);
    assert_eq!(diff.deletions, 12);
}

#[test]
fn test_parse_shortstat_insertions_only() {
    let mut diff = Diff::default();
    parse_shortstat(" 1 file changed, 5 insertions(+)", &mut diff);
    assert_eq!(diff.insertions, 5);
    assert_eq!(diff.deletions, 0);
}

#[test]
fn shortstat_deletions_only_and_empty() {
    let mut diff = Diff::default();
    parse_shortstat(" 2 files changed, 7 deletions(-)", &mut diff);
    assert_eq!(diff.insertions, 0);
    assert_eq!(diff.deletions, 7);
    let mut empty = Diff::default();
    parse_shortstat("", &mut empty);
    assert_eq!(empty.insertions, 0);
    assert_eq!(empty.deletions, 0);
}

#[test]
fn test_file_status_symbols() {
    assert_eq!(FileStatus::Added.symbol(), "A");
    assert_eq!(FileStatus::Modified.symbol(), "M");
    assert_eq!(FileStatus::Deleted.symbol(), "D");
    assert_eq!(FileStatus::Renamed.symbol(), "R");
}

#[test]
fn file_status_from_char_round_trips_known_letters() {
    for c in ['A', 'M', 'D', 'R', 'C', '?'] {
        assert_eq!(FileStatus::from_char(c).symbol(), c.to_string());
    }
    assert_eq!(FileStatus::from_char('X'), FileStatus::Other('X'));
    assert_eq!(FileStatus::from_char('X').symbol(), "~");
}

#[test]
fn name_status_and_untracked_lines_become_files() {
    let mut files = Vec::new();
    push_name_status("M\tsrc/a.rs\nA\tsrc/b.rs\nR100\told.rs\tnew.rs\n\n", &mut files);
    push_untracked("notes.txt\n", &mut files);
    assert_eq!(
        files,
        vec![
            (FileStatus::Modified, "src/a.rs".to_string()),
            (FileStatus::Added, "src/b.rs".to_string()),
            (FileStatus::Renamed, "new.rs".to_string()),
            (FileStatus::Untracked, "notes.txt".to_string()),
        ]
    );
}

#[test]
fn parse_owner_repo_github_ssh() {
    assert_eq!(parse_owner_repo("git@github.com:foo/bar.git"), Some(("foo".into(), "bar".into())));
}

#[test]
fn parse_owner_repo_github_https() {
    assert_eq!(parse_owner_repo("https://github.com/foo/bar.git"), Some(("foo".into(), "bar".into())));
}

#[test]
fn parse_owner_repo_https_no_dot_git() {
    assert_eq!(parse_owner_repo("https://github.com/foo/bar"), Some(("foo".into(), "bar".into())));
}

#[test]
fn parse_owner_repo_gitlab_nested() {
    assert_eq!(
        parse_owner_repo("https://gitlab.com/group/sub/repo.git"),
        Some(("group-sub".into(), "repo".into()))
    );
}

#[test]
fn parse_owner_repo_ssh_url() {
    assert_eq!(parse_owner_repo("ssh://git@github.com/foo/bar.git"), Some(("foo".into(), "bar".into())));
}

#[test]
fn parse_owner_repo_unknown_returns_none() {
    assert_eq!(parse_owner_repo(""), None);
    assert_eq!(parse_owner_repo("not-a-url"), None);
    assert_eq!(parse_owner_repo("git@host:onlyone"), None);
}

#[test]
fn worktree_target_groups_by_owner_and_repo() {
    assert_eq!(
        worktree_target_path("/home/u", Some("git@github.com:foo/bar.git".into()), "/src/bar", "feat/x"),
        "/home/u/.fellowship/worktrees/foo/bar/feat/x"
    );
}

#[test]
fn worktree_target_falls_back_to_local_repo_dirname() {
    assert_eq!(
        worktree_target_path("/home/u", None, "/src/myrepo", "fix"),
        "/home/u/.fellowship/worktrees/local/myrepo/fix"
    );
    assert_eq!(
        worktree_target_path("/home/u", Some("not-a-url".into()), "/src/myrepo", "fix"),
        "/home/u/.fellowship/worktrees/local/myrepo/fix"
    );
}

#[test]
fn repo_dirname_is_last_component() {
    assert_eq!(repo_dirname("/src/myrepo"), "myrepo");
    assert_eq!(repo_dirname("/"), "repo");
}

#[test]
fn rev_parse_and_config_outputs_are_trimmed() {
    assert_eq!(branch_from_rev_parse("main\n"), Some("main".to_string()));
    assert_eq!(branch_from_rev_parse("HEAD\n"), None);
    assert_eq!(origin_from_config("git@github.com:a/b.git\n"), Some("git@github.com:a/b.git".to_string()));
    assert_eq!(origin_from_config(""), None);
}

// ---- runtime ----

#[test]
fn agent_state_paths_are_under_runtime_root() {
    let root = "/tmp/fellowship-rt";
    let state = agent_state_path(root, "engineer-1");
    let notes = agent_notes_path(root, "engineer-1");
    let dir = agent_state_dir(root);
    assert!(Path::new(&state).starts_with(root));
    assert!(Path::new(&notes).starts_with(root));
    assert!(Path::new(&dir).starts_with(root));
    assert_eq!(Path::new(&state).file_name().unwrap(), "engineer-1.json");
    assert_eq!(Path::new(&notes).file_name().unwrap(), "notes.md");
    assert!(
        Path::new(&notes).parent().unwrap().ends_with("agent_state/engineer-1"),
        "notes path should live inside per-agent subdir, got {}",
        notes
    );
}

#[test]
fn bus_tick_path_uses_recipient_label() {
    let root = "/tmp/fellowship-rt";
    let tick = bus_tick_path(root, "pm");
    assert!(Path::new(&tick).starts_with(root));
    assert_eq!(Path::new(&tick).file_name().unwrap(), "pm.tick");
    assert!(Path::new(&tick).parent().unwrap().ends_with("bus-tick"));
}

#[test]
fn runtime_file_names_are_fixed() {
    assert_eq!(journal_path("/rt"), "/rt/journal.ndjson");
    assert_eq!(subdir_path("/rt", "state"), "/rt/state");
    assert_eq!(request_file_path("/rt/spawn-requests", "abc"), "/rt/spawn-requests/abc.json");
    assert_eq!(current_session_marker_path("/home/u"), "/home/u/.fellowship/runtime/CURRENT_SESSION");
}

#[test]
fn runtime_dir_prefers_override_then_session() {
    let home = || Some("/home/u".to_string());
    assert_eq!(
        resolve_runtime_dir(Some("/explicit".into()), home(), Some("s1".into()), Some("s2".into())),
        Some("/explicit".to_string())
    );
    assert_eq!(
        resolve_runtime_dir(None, home(), Some("s1".into()), Some("s2".into())),
        Some("/home/u/.fellowship/runtime/s1".to_string())
    );
    assert_eq!(
        resolve_runtime_dir(None, home(), None, Some("s2".into())),
        Some("/home/u/.fellowship/runtime/s2".to_string())
    );
    assert_eq!(
        resolve_runtime_dir(None, home(), None, None),
        Some("/home/u/.fellowship/runtime/default".to_string())
    );
    assert_eq!(resolve_runtime_dir(None, None, None, None), None);
}

#[test]
fn current_session_marker_is_trimmed() {
    assert_eq!(parse_current_session("abc\n"), Some("abc".to_string()));
    assert_eq!(parse_current_session("  \n"), None);
}

// ---- surface ----

#[test]
fn workspace_and_member_distinct_hashmap_keys() {
    let mut m: HashMap<Surface, u32> = HashMap::new();
    m.insert(Surface::Workspace("/a".into()), 1);
    m.insert(Surface::Member(MemberId::singleton(Role::Pm)), 2);
    m.insert(Surface::Member(MemberId::engineer(1)), 3);
    m.insert(Surface::Member(MemberId::engineer(2)), 4);
    assert_eq!(m.len(), 4);
    assert_eq!(m[&Surface::Workspace("/a".into())], 1);
    assert_eq!(m[&Surface::Member(MemberId::engineer(1))], 3);
}

#[test]
fn member_id_singleton_label_drops_instance() {
    assert_eq!(MemberId::singleton(Role::Pm).label(), "pm");
    assert_eq!(MemberId::singleton(Role::Orchestrator).label(), "orchestrator");
}

#[test]
fn member_id_engineer_label_includes_instance() {
    assert_eq!(MemberId::engineer(1).label(), "engineer-1");
    assert_eq!(MemberId::engineer(42).label(), "engineer-42");
}

#[test]
fn workspace_path_returns_path_for_workspace_only() {
    let s = Surface::Workspace("/repo".into());
    assert_eq!(s.workspace_path().map(|p| p.as_str()), Some("/repo"));
    let m = Surface::Member(MemberId::singleton(Role::Architect));
    assert_eq!(m.workspace_path(), None);
}

#[test]
fn role_texts_are_stable() {
    assert_eq!(Role::Pm.as_str(), "pm");
    assert_eq!(Role::Orchestrator.as_str(), "orchestrator");
    assert_eq!(Role::Architect.as_str(), "architect");
    assert_eq!(Role::Recon.as_str(), "recon");
    assert_eq!(Role::Engineer.as_str(), "engineer");
}

#[test]
fn parse_owner_repo_plain_http_and_scp_without_suffix() {
    assert_eq!(parse_owner_repo("http://example.org/team/tool"), Some(("team".into(), "tool".into())));
    assert_eq!(parse_owner_repo("git@example.org:team/tool"), Some(("team".into(), "tool".into())));
    assert_eq!(parse_owner_repo("ssh://git@example.org/a/b/c/tool.git"), Some(("a-b-c".into(), "tool".into())));
}

#[test]
fn porcelain_lists_no_more_worktrees_than_worktree_lines() {
    let input = "worktree /a\nHEAD 1\nbranch refs/heads/x\n\nHEAD 2\n\nworktree /b\nbare\n\nworktree /c\n";
    let wts = parse_worktree_porcelain(input);
    assert_eq!(wts.len(), 2);
    assert_eq!(wts[0].path, "/a");
    assert_eq!(wts[1].path, "/c");
    assert!(wts[0].is_current && !wts[1].is_current);
}
