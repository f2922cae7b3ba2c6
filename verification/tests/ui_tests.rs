use fellowship::agents::registry::AgentRegistry;
use fellowship::app::StringHashSet;
use fellowship::beads::{Bead, Status};
use fellowship::gh::pr_comments_endpoints;
use fellowship::panes::members::MemberRow;
use fellowship::panes::status::{kanban_column, kanban_columns, JournalRow};
use fellowship::runtime::HeartbeatRecord;
use fellowship::app::PaneId;
use fellowship::event::Event;
use fellowship::guard::{decide, detect_tool, shim_names, shim_step, Decision, ShimEntry, ShimStep, Tool};
use fellowship::keymap::{default_bindings, prefix_key, Action, Dir, InputMode, Key, KeyCode, KeyModifiers, Keymap};
use fellowship::layout::{terminal_pane_size, PaneLayout, Slot};
use fellowship::panes::color::UiColor;
use fellowship::panes::gitstatus::{diff_title, pr_state_color, status_style, GitStatusPane};
use fellowship::panes::key_to_bytes::encode;
use fellowship::panes::members::MembersPane;
use fellowship::panes::status::{color_for_agent, truncate, StatusPane, SubView, JOURNAL_TAIL_MAX};
use fellowship::panes::workspaces::{WorkspaceKeyOutcome, WorkspacesPane};
use fellowship::git::{FileStatus, Worktree};
use fellowship::runtime::JournalEntry;
use fellowship::surface::{MemberId, Role, Surface};

fn args(parts: &[&str]) -> Vec<String> {
    parts.iter().map(|s| (*s).to_string()).collect()
}

fn key(code: KeyCode, mods: KeyModifiers) -> Key {
    Key::new(code, mods)
}

fn char_key(c: char) -> Key {
    key(KeyCode::Char(c), KeyModifiers::none())
}

fn ctrl_a() -> Key {
    key(KeyCode::Char('a'), KeyModifiers::control())
}

fn make_keymap() -> Keymap {
    Keymap::new(default_bindings())
}

// ---- guard ----

#[test]
fn detect_tool_recognizes_git_and_gh_via_basename() {
    assert_eq!(detect_tool("git"), Tool::Git);
    assert_eq!(detect_tool("/usr/bin/git"), Tool::Git);
    assert_eq!(detect_tool("/home/u/.fellowship/bin/gh"), Tool::Gh);
    assert_eq!(detect_tool("ls"), Tool::Other);
}

#[test]
fn git_merge_is_blocked() {
    assert!(matches!(decide(Tool::Git, &args(&["merge", "feat/x"])), Decision::Block(_)));
    assert!(matches!(decide(Tool::Git, &args(&["-C", "/tmp", "merge", "feat/x"])), Decision::Block(_)));
}

#[test]
fn git_push_force_is_blocked() {
    for flag in ["--force", "-f", "--force-with-lease"] {
        let r = decide(Tool::Git, &args(&["push", flag, "origin", "feat/x"]));
        assert!(matches!(r, Decision::Block(_)), "{flag} should be blocked");
    }
}

#[test]
fn git_push_to_main_or_master_is_blocked() {
    for branch in ["main", "master", "refs/heads/main", "refs/heads/master"] {
        let r = decide(Tool::Git, &args(&["push", "origin", branch]));
        assert!(matches!(r, Decision::Block(_)), "push to {branch}");
    }
    let r = decide(Tool::Git, &args(&["push", "origin", "HEAD:main"]));
    assert!(matches!(r, Decision::Block(_)));
}

#[test]
fn git_push_feature_branch_is_allowed() {
    let r = decide(Tool::Git, &args(&["push", "origin", "feat/bead-1"]));
    assert_eq!(r, Decision::Allow);
    let r = decide(Tool::Git, &args(&["push", "-u", "origin", "feat/bead-1"]));
    assert_eq!(r, Decision::Allow);
}

#[test]
fn git_unrelated_subcommands_pass_through() {
    for cmd in ["status", "diff", "log", "commit", "fetch", "pull", "rebase"] {
        assert_eq!(decide(Tool::Git, &args(&[cmd])), Decision::Allow);
    }
}

#[test]
fn gh_pr_merge_is_blocked() {
    let r = decide(Tool::Gh, &args(&["pr", "merge", "42"]));
    assert!(matches!(r, Decision::Block(_)));
    let r = decide(Tool::Gh, &args(&["pr", "merge", "--squash", "42"]));
    assert!(matches!(r, Decision::Block(_)));
}

#[test]
fn gh_other_pr_subcommands_allowed() {
    for sub in ["create", "view", "list", "checkout", "diff", "comment"] {
        let r = decide(Tool::Gh, &args(&["pr", sub]));
        assert_eq!(r, Decision::Allow);
    }
}

#[test]
fn gh_unrelated_subcommands_allowed() {
    let r = decide(Tool::Gh, &args(&["repo", "view"]));
    assert_eq!(r, Decision::Allow);
}

#[test]
fn other_tool_is_allow_by_default() {
    let r = decide(Tool::Other, &args(&["anything"]));
    assert_eq!(r, Decision::Allow);
}

#[test]
fn empty_argv_is_allow() {
    assert_eq!(decide(Tool::Git, &[]), Decision::Allow);
    assert_eq!(decide(Tool::Gh, &[]), Decision::Allow);
}

#[test]
fn git_global_options_before_subcommand_are_skipped() {
    assert!(matches!(
        decide(Tool::Git, &args(&["--git-dir", "/r/.git", "-c", "a=b", "merge", "x"])),
        Decision::Block(_)
    ));
    assert!(matches!(decide(Tool::Git, &args(&["push", "origin", "feat:master"])), Decision::Block(_)));
    assert_eq!(decide(Tool::Git, &args(&["push", "origin", "mainline"])), Decision::Allow);
}

// ---- keymap ----

#[test]
fn prefix_then_e_focuses_workspaces() {
    let km = make_keymap();
    let mut mode = InputMode::Normal;
    let a1 = km.handle(&mut mode, ctrl_a(), PaneId::GitStatus);
    assert_eq!(a1, Action::Consume);
    assert!(matches!(mode, InputMode::AwaitingPrefixFollower));
    let a2 = km.handle(&mut mode, char_key('e'), PaneId::GitStatus);
    assert_eq!(a2, Action::FocusPane(PaneId::Workspaces));
    assert!(matches!(mode, InputMode::Normal));
}

#[test]
fn prefix_then_t_focuses_terminal() {
    let km = make_keymap();
    let mut mode = InputMode::Normal;
    km.handle(&mut mode, ctrl_a(), PaneId::Workspaces);
    let a = km.handle(&mut mode, char_key('t'), PaneId::Workspaces);
    assert_eq!(a, Action::FocusPane(PaneId::Terminal));
}

#[test]
fn prefix_then_g_focuses_gitstatus() {
    let km = make_keymap();
    let mut mode = InputMode::Normal;
    km.handle(&mut mode, ctrl_a(), PaneId::Terminal);
    let a = km.handle(&mut mode, char_key('g'), PaneId::Terminal);
    assert_eq!(a, Action::FocusPane(PaneId::GitStatus));
}

#[test]
fn prefix_then_q_quits() {
    let km = make_keymap();
    let mut mode = InputMode::Normal;
    km.handle(&mut mode, ctrl_a(), PaneId::Terminal);
    let a = km.handle(&mut mode, char_key('q'), PaneId::Terminal);
    assert_eq!(a, Action::Quit);
}

#[test]
fn double_prefix_emits_send_literal_prefix() {
    let km = make_keymap();
    let mut mode = InputMode::Normal;
    km.handle(&mut mode, ctrl_a(), PaneId::Terminal);
    let a = km.handle(&mut mode, ctrl_a(), PaneId::Terminal);
    assert_eq!(a, Action::SendLiteralPrefix);
}

#[test]
fn prefix_then_digit_switches_worktree() {
    let km = make_keymap();
    let mut mode = InputMode::Normal;
    km.handle(&mut mode, ctrl_a(), PaneId::Terminal);
    let a = km.handle(&mut mode, char_key('1'), PaneId::Terminal);
    assert_eq!(a, Action::SwitchWorktree(0));
    km.handle(&mut mode, ctrl_a(), PaneId::Terminal);
    let a = km.handle(&mut mode, char_key('9'), PaneId::Terminal);
    assert_eq!(a, Action::SwitchWorktree(8));
}

#[test]
fn esc_cancels_prefix_mode() {
    let km = make_keymap();
    let mut mode = InputMode::Normal;
    km.handle(&mut mode, ctrl_a(), PaneId::Workspaces);
    assert!(matches!(mode, InputMode::AwaitingPrefixFollower));
    let a = km.handle(&mut mode, key(KeyCode::Esc, KeyModifiers::none()), PaneId::Workspaces);
    assert_eq!(a, Action::Consume);
    assert!(matches!(mode, InputMode::Normal));
}

#[test]
fn unbound_follower_silently_dropped() {
    let km = make_keymap();
    let mut mode = InputMode::Normal;
    km.handle(&mut mode, ctrl_a(), PaneId::Terminal);
    let a = km.handle(&mut mode, char_key('z'), PaneId::Terminal);
    assert_eq!(a, Action::Consume);
    assert!(matches!(mode, InputMode::Normal));
}

#[test]
fn prefix_then_h_focuses_dir_left() {
    let km = make_keymap();
    let mut mode = InputMode::Normal;
    km.handle(&mut mode, ctrl_a(), PaneId::Terminal);
    let a = km.handle(&mut mode, char_key('h'), PaneId::Terminal);
    assert_eq!(a, Action::FocusDir(Dir::Left));
}

#[test]
fn prefix_then_j_focuses_dir_down() {
    let km = make_keymap();
    let mut mode = InputMode::Normal;
    km.handle(&mut mode, ctrl_a(), PaneId::Terminal);
    let a = km.handle(&mut mode, char_key('j'), PaneId::Terminal);
    assert_eq!(a, Action::FocusDir(Dir::Down));
}

#[test]
fn prefix_then_k_focuses_dir_up() {
    let km = make_keymap();
    let mut mode = InputMode::Normal;
    km.handle(&mut mode, ctrl_a(), PaneId::Terminal);
    let a = km.handle(&mut mode, char_key('k'), PaneId::Terminal);
    assert_eq!(a, Action::FocusDir(Dir::Up));
}

#[test]
fn prefix_then_l_focuses_dir_right() {
    let km = make_keymap();
    let mut mode = InputMode::Normal;
    km.handle(&mut mode, ctrl_a(), PaneId::Terminal);
    let a = km.handle(&mut mode, char_key('l'), PaneId::Terminal);
    assert_eq!(a, Action::FocusDir(Dir::Right));
}

#[test]
fn prefix_then_m_focuses_members() {
    let km = make_keymap();
    let mut mode = InputMode::Normal;
    km.handle(&mut mode, ctrl_a(), PaneId::Terminal);
    let a = km.handle(&mut mode, char_key('m'), PaneId::Terminal);
    assert_eq!(a, Action::FocusPane(PaneId::Members));
}

#[test]
fn prefix_then_o_cycles_pane() {
    let km = make_keymap();
    let mut mode = InputMode::Normal;
    km.handle(&mut mode, ctrl_a(), PaneId::Terminal);
    let a = km.handle(&mut mode, char_key('o'), PaneId::Terminal);
    assert_eq!(a, Action::CyclePane);
}

#[test]
fn prefix_then_colon_enters_command_mode() {
    let km = make_keymap();
    let mut mode = InputMode::Normal;
    km.handle(&mut mode, ctrl_a(), PaneId::Terminal);
    let a = km.handle(&mut mode, char_key(':'), PaneId::Terminal);
    assert_eq!(a, Action::Consume);
    assert!(matches!(mode, InputMode::Command(ref s) if s.is_empty()));
}

#[test]
fn command_mode_collects_chars_and_executes_on_enter() {
    let km = make_keymap();
    let mut mode = InputMode::Command(String::new());
    for c in "quit".chars() {
        let a = km.handle(&mut mode, char_key(c), PaneId::Terminal);
        assert_eq!(a, Action::Consume);
    }
    let a = km.handle(&mut mode, key(KeyCode::Enter, KeyModifiers::none()), PaneId::Terminal);
    assert_eq!(a, Action::ExecuteCommand("quit".into()));
    assert!(matches!(mode, InputMode::Normal));
}

#[test]
fn command_mode_esc_cancels() {
    let km = make_keymap();
    let mut mode = InputMode::Command("foo".into());
    let a = km.handle(&mut mode, key(KeyCode::Esc, KeyModifiers::none()), PaneId::Terminal);
    assert_eq!(a, Action::Consume);
    assert!(matches!(mode, InputMode::Normal));
}

#[test]
fn command_mode_backspace_deletes_then_exits_when_empty() {
    let km = make_keymap();
    let mut mode = InputMode::Command("ab".into());
    km.handle(&mut mode, key(KeyCode::Backspace, KeyModifiers::none()), PaneId::Terminal);
    assert!(matches!(mode, InputMode::Command(ref s) if s == "a"));
    km.handle(&mut mode, key(KeyCode::Backspace, KeyModifiers::none()), PaneId::Terminal);
    assert!(matches!(mode, InputMode::Command(ref s) if s.is_empty()));
    km.handle(&mut mode, key(KeyCode::Backspace, KeyModifiers::none()), PaneId::Terminal);
    assert!(matches!(mode, InputMode::Normal));
}

#[test]
fn terminal_focus_passes_through_normal_keys() {
    let km = make_keymap();
    let mut mode = InputMode::Normal;
    let a = km.handle(&mut mode, char_key('q'), PaneId::Terminal);
    assert_eq!(a, Action::PassThrough);
    let a2 = km.handle(&mut mode, key(KeyCode::Esc, KeyModifiers::none()), PaneId::Terminal);
    assert_eq!(a2, Action::PassThrough);
}

#[test]
fn prefix_key_is_ctrl_a_and_later_binding_wins() {
    assert_eq!(prefix_key(), ctrl_a());
    let km = Keymap::new(vec![(char_key('x'), Action::Quit), (char_key('x'), Action::CyclePane)]);
    let mut mode = InputMode::Normal;
    km.handle(&mut mode, ctrl_a(), PaneId::Terminal);
    assert_eq!(km.handle(&mut mode, char_key('x'), PaneId::Terminal), Action::CyclePane);
}

// ---- layout ----

fn default() -> PaneLayout {
    PaneLayout::default_horizontal()
}

fn custom() -> PaneLayout {
    PaneLayout {
        slots: vec![
            Slot { pane: PaneId::Workspaces, col: 0, row: 0 },
            Slot { pane: PaneId::Terminal, col: 1, row: 0 },
            Slot { pane: PaneId::GitStatus, col: 0, row: 1 },
        ],
    }
}

#[test]
fn default_terminal_left_is_workspaces() {
    assert_eq!(default().neighbor(PaneId::Terminal, Dir::Left), Some(PaneId::Workspaces));
}

#[test]
fn default_terminal_right_is_gitstatus() {
    assert_eq!(default().neighbor(PaneId::Terminal, Dir::Right), Some(PaneId::GitStatus));
}

#[test]
fn default_terminal_up_is_none() {
    assert_eq!(default().neighbor(PaneId::Terminal, Dir::Up), None);
}

#[test]
fn default_terminal_down_is_none() {
    assert_eq!(default().neighbor(PaneId::Terminal, Dir::Down), None);
}

#[test]
fn default_workspaces_left_is_none() {
    assert_eq!(default().neighbor(PaneId::Workspaces, Dir::Left), None);
}

#[test]
fn default_workspaces_right_is_terminal() {
    assert_eq!(default().neighbor(PaneId::Workspaces, Dir::Right), Some(PaneId::Terminal));
}

#[test]
fn default_workspaces_up_is_none() {
    assert_eq!(default().neighbor(PaneId::Workspaces, Dir::Up), None);
}

#[test]
fn default_workspaces_down_is_none() {
    assert_eq!(default().neighbor(PaneId::Workspaces, Dir::Down), None);
}

#[test]
fn default_gitstatus_left_is_terminal() {
    assert_eq!(default().neighbor(PaneId::GitStatus, Dir::Left), Some(PaneId::Terminal));
}

#[test]
fn default_gitstatus_right_is_none() {
    assert_eq!(default().neighbor(PaneId::GitStatus, Dir::Right), None);
}

#[test]
fn default_gitstatus_up_is_none() {
    assert_eq!(default().neighbor(PaneId::GitStatus, Dir::Up), None);
}

#[test]
fn default_gitstatus_down_is_none() {
    assert_eq!(default().neighbor(PaneId::GitStatus, Dir::Down), None);
}

#[test]
fn custom_workspaces_down_is_gitstatus() {
    assert_eq!(custom().neighbor(PaneId::Workspaces, Dir::Down), Some(PaneId::GitStatus));
}

#[test]
fn custom_terminal_down_is_gitstatus() {
    assert_eq!(custom().neighbor(PaneId::Terminal, Dir::Down), Some(PaneId::GitStatus));
}

#[test]
fn custom_gitstatus_up_is_workspaces() {
    assert_eq!(custom().neighbor(PaneId::GitStatus, Dir::Up), Some(PaneId::Workspaces));
}

#[test]
fn custom_gitstatus_right_is_terminal() {
    assert_eq!(custom().neighbor(PaneId::GitStatus, Dir::Right), Some(PaneId::Terminal));
}

#[test]
fn neighbor_of_pane_without_slot_is_none() {
    assert_eq!(default().neighbor(PaneId::Members, Dir::Left), None);
    assert!(default().slot(PaneId::Members).is_none());
    assert_eq!(default().slot(PaneId::Terminal).map(|s| (s.col, s.row)), Some((1, 0)));
}

// ---- terminal key encoding ----

#[test]
fn arrow_up() {
    assert_eq!(encode(key(KeyCode::Up, KeyModifiers::none())), b"\x1b[A");
}

#[test]
fn arrow_down() {
    assert_eq!(encode(key(KeyCode::Down, KeyModifiers::none())), b"\x1b[B");
}

#[test]
fn arrow_right() {
    assert_eq!(encode(key(KeyCode::Right, KeyModifiers::none())), b"\x1b[C");
}

#[test]
fn arrow_left() {
    assert_eq!(encode(key(KeyCode::Left, KeyModifiers::none())), b"\x1b[D");
}

#[test]
fn ctrl_c() {
    assert_eq!(encode(key(KeyCode::Char('c'), KeyModifiers::control())), vec![0x03]);
}

#[test]
fn ctrl_space() {
    assert_eq!(encode(key(KeyCode::Char(' '), KeyModifiers::control())), vec![0x00]);
}

#[test]
fn enter_is_cr() {
    assert_eq!(encode(key(KeyCode::Enter, KeyModifiers::none())), b"\r");
}

#[test]
fn backspace_is_del() {
    assert_eq!(encode(key(KeyCode::Backspace, KeyModifiers::none())), b"\x7f");
}

#[test]
fn f1_ss3() {
    assert_eq!(encode(key(KeyCode::F(1), KeyModifiers::none())), b"\x1bOP");
}

#[test]
fn f4_ss3() {
    assert_eq!(encode(key(KeyCode::F(4), KeyModifiers::none())), b"\x1bOS");
}

#[test]
fn f5_csi() {
    assert_eq!(encode(key(KeyCode::F(5), KeyModifiers::none())), b"\x1b[15~");
}

#[test]
fn f12_csi() {
    assert_eq!(encode(key(KeyCode::F(12), KeyModifiers::none())), b"\x1b[24~");
}

#[test]
fn alt_letter_prepends_esc() {
    let result = encode(key(KeyCode::Char('a'), KeyModifiers::alt()));
    assert_eq!(result, b"\x1ba");
}

#[test]
fn plain_char() {
    assert_eq!(encode(key(KeyCode::Char('z'), KeyModifiers::none())), b"z");
}

#[test]
fn page_up() {
    assert_eq!(encode(key(KeyCode::PageUp, KeyModifiers::none())), b"\x1b[5~");
}

#[test]
fn page_down() {
    assert_eq!(encode(key(KeyCode::PageDown, KeyModifiers::none())), b"\x1b[6~");
}

#[test]
fn multibyte_char_is_utf8() {
    assert_eq!(encode(key(KeyCode::Char('é'), KeyModifiers::none())), "é".as_bytes());
}

// ---- members pane ----

#[test]
fn new_lists_three_singletons_no_active() {
    let m = MembersPane::new();
    assert_eq!(m.selected, 0);
    assert!(m.active.is_none());
    assert_eq!(m.members.len(), 3);
    assert_eq!(m.members[0], MemberId::singleton(Role::Pm));
    assert_eq!(m.members[1], MemberId::singleton(Role::Architect));
    assert_eq!(m.members[2], MemberId::singleton(Role::Recon));
}

#[test]
fn j_moves_down_clamped() {
    let mut m = MembersPane::new();
    for _ in 0..100 {
        m.handle_key(char_key('j'));
    }
    assert_eq!(m.selected, m.members.len() - 1);
}

#[test]
fn k_moves_up_clamped() {
    let mut m = MembersPane::new();
    m.handle_key(char_key('j'));
    m.handle_key(char_key('j'));
    m.handle_key(char_key('k'));
    assert_eq!(m.selected, 1);
    for _ in 0..10 {
        m.handle_key(char_key('k'));
    }
    assert_eq!(m.selected, 0);
}

#[test]
fn enter_emits_switch_surface_event() {
    let mut m = MembersPane::new();
    m.handle_key(char_key('j'));
    let event = m.handle_key(key(KeyCode::Enter, KeyModifiers::none()));
    match event {
        Some(Event::SwitchSurface(Surface::Member(id))) => {
            assert_eq!(id, MemberId::singleton(Role::Architect));
        }
        other => panic!("expected SwitchSurface(Member(architect)), got {:?}", other),
    }
}

#[test]
fn set_active_member_drives_render_marker() {
    let mut m = MembersPane::new();
    assert!(m.active.is_none());
    let pm = MemberId::singleton(Role::Pm);
    m.set_active_member(Some(pm));
    assert_eq!(m.active, Some(pm));
    m.set_active_member(None);
    assert!(m.active.is_none());
}

#[test]
fn add_member_appends_and_dedupes() {
    let mut m = MembersPane::new();
    let len_before = m.members.len();
    let e1 = MemberId::engineer(1);
    m.add_member(e1);
    assert_eq!(m.members.len(), len_before + 1);
    assert_eq!(*m.members.last().unwrap(), e1);
    m.add_member(e1);
    assert_eq!(m.members.len(), len_before + 1);
}

#[test]
fn remove_member_clears_active_and_clamps_selection() {
    let mut m = MembersPane::new();
    let e1 = MemberId::engineer(1);
    m.add_member(e1);
    m.set_active_member(Some(e1));
    m.selected = m.members.len() - 1;
    m.remove_member(e1);
    assert!(m.active.is_none());
    assert!(m.selected < m.members.len());
    assert!(!m.members.contains(&e1));
}

#[test]
fn engineer_instances_returns_only_engineer_role_ids() {
    let mut m = MembersPane::new();
    m.add_member(MemberId::engineer(1));
    m.add_member(MemberId::engineer(3));
    let mut got = m.engineer_instances();
    got.sort();
    assert_eq!(got, vec![1, 3]);
}

#[test]
fn selected_member_follows_selection() {
    let mut m = MembersPane::new();
    assert_eq!(m.selected_member(), Some(MemberId::singleton(Role::Pm)));
    m.handle_key(key(KeyCode::Down, KeyModifiers::none()));
    assert_eq!(m.selected_member(), Some(MemberId::singleton(Role::Architect)));
    assert_eq!(m.handle_key(char_key('x')), None);
}

// ---- status pane ----

fn entry(agent: &str, msg: &str) -> JournalEntry {
    JournalEntry { ts_ms: 0, agent_id: agent.into(), message: msg.into() }
}

#[test]
fn capital_j_toggles_subview() {
    let mut p = StatusPane::new();
    assert_eq!(p.sub_view, SubView::Beads);
    p.handle_key(key(KeyCode::Char('J'), KeyModifiers::shift()));
    assert_eq!(p.sub_view, SubView::Journal);
    p.handle_key(key(KeyCode::Char('J'), KeyModifiers::shift()));
    assert_eq!(p.sub_view, SubView::Beads);
}

#[test]
fn lowercase_f_only_filters_when_journal_active() {
    let mut p = StatusPane::new();
    p.replace_journal(vec![entry("pm", "hello"), entry("engineer-1", "wip")]);
    p.handle_key(key(KeyCode::Char('f'), KeyModifiers::none()));
    assert!(p.journal_filter.is_none());
    p.handle_key(key(KeyCode::Char('J'), KeyModifiers::shift()));
    p.handle_key(key(KeyCode::Char('f'), KeyModifiers::none()));
    assert_eq!(p.journal_filter.as_deref(), Some("engineer-1"));
    p.handle_key(key(KeyCode::Char('f'), KeyModifiers::none()));
    assert!(p.journal_filter.is_none());
}

#[test]
fn replace_journal_caps_to_max_keeping_newest() {
    let mut p = StatusPane::new();
    let entries: Vec<_> = (0..JOURNAL_TAIL_MAX + 50).map(|i| entry("pm", &format!("msg-{}", i))).collect();
    p.replace_journal(entries);
    assert_eq!(p.journal_tail.len(), JOURNAL_TAIL_MAX);
    assert_eq!(p.journal_tail.first().unwrap().message, "msg-50");
    assert_eq!(p.journal_tail.last().unwrap().message, format!("msg-{}", JOURNAL_TAIL_MAX + 50 - 1));
}

#[test]
fn truncate_short_passthrough_long_ellipsis() {
    assert_eq!(truncate("short", 10), "short");
    assert_eq!(truncate("abcdefghij", 10), "abcdefghij");
    assert_eq!(truncate("abcdefghijk", 10), "abcdefghi…");
}

#[test]
fn color_for_agent_is_stable_per_id() {
    let a = color_for_agent("pm");
    let b = color_for_agent("pm");
    assert_eq!(a, b);
    let c = color_for_agent("orchestrator");
    let d = color_for_agent("orchestrator");
    assert_eq!(c, d);
}

#[test]
fn color_for_agent_empty_id_is_first_palette_entry() {
    assert_eq!(color_for_agent(""), UiColor::Cyan);
}

// ---- git status pane ----

#[test]
fn status_style_and_pr_colors() {
    assert_eq!(status_style(&FileStatus::Added), ("A", UiColor::Green));
    assert_eq!(status_style(&FileStatus::Deleted), ("D", UiColor::Red));
    assert_eq!(pr_state_color("OPEN"), UiColor::Green);
    assert_eq!(pr_state_color("MERGED"), UiColor::Magenta);
    assert_eq!(pr_state_color("CLOSED"), UiColor::Red);
    assert_eq!(pr_state_color("DRAFT"), UiColor::Gray);
}

#[test]
fn diff_title_counts_lines() {
    assert_eq!(diff_title(3, 2), " Diff  +3  -2 ");
    assert_eq!(diff_title(0, 0), " Diff ");
}

#[test]
fn git_status_pane_without_pr_has_small_pr_block() {
    let p = GitStatusPane::new("/repo".into());
    assert_eq!(p.pr_height(), 2);
}

// ---- workspaces pane ----

fn wt(path: &str) -> Worktree {
    Worktree { path: path.into(), branch: None, head: None, is_current: false }
}

#[test]
fn workspaces_navigation_and_switch() {
    let mut p = WorkspacesPane::new("/r".into());
    p.set_worktrees(vec![wt("/r"), wt("/r-a"), wt("/r-b")]);
    assert_eq!(p.handle_key(char_key('G'), "".to_string()), WorkspaceKeyOutcome::Nothing);
    assert_eq!(p.selected, 2);
    p.handle_key(char_key('k'), "".to_string());
    assert_eq!(p.selected, 1);
    assert_eq!(
        p.handle_key(key(KeyCode::Enter, KeyModifiers::none()), "".to_string()),
        WorkspaceKeyOutcome::Event(Event::SwitchWorkspace("/r-a".into()))
    );
    p.select_path("/r");
    assert_eq!(p.selected, 0);
    assert_eq!(p.handle_key(char_key('r'), "".to_string()), WorkspaceKeyOutcome::Event(Event::GitRefresh));
}

#[test]
fn workspaces_modal_creates_worktree_on_enter() {
    let mut p = WorkspacesPane::new("/r".into());
    p.handle_key(char_key('n'), "".to_string());
    assert!(p.modal_open);
    assert_eq!(p.handle_key(char_key('x'), "x".to_string()), WorkspaceKeyOutcome::EditInput);
    assert_eq!(
        p.handle_key(key(KeyCode::Enter, KeyModifiers::none()), "feat/x".to_string()),
        WorkspaceKeyOutcome::Event(Event::CreateWorktree("feat/x".into()))
    );
    assert!(!p.modal_open);
}

// ---- pane contents ----


fn bead(id: &str, title: &str, status: Status) -> Bead {
    Bead {
        id: id.into(),
        title: title.into(),
        status,
        assignee: None,
        labels: Vec::new(),
        priority: None,
        issue_type: None,
    }
}

#[test]
fn kanban_columns_are_open_inprog_review_done() {
    let cols: Vec<&str> = kanban_columns().iter().map(|c| c.0).collect();
    assert_eq!(cols, vec!["OPEN", "IN-PROG", "REVIEW", "DONE"]);
}

#[test]
fn kanban_column_lists_first_eight_matching_beads_with_short_titles() {
    let mut beads = vec![bead("bd-x", "closed one", Status::Closed)];
    for i in 0..10 {
        beads.push(bead(&format!("bd-{i}"), "a title that is far too long to show", Status::Open));
    }
    let col = kanban_column(&beads, Status::Open);
    assert_eq!(col.len(), 8);
    assert_eq!(col[0], "bd-0 a title that is far…");
    assert_eq!(kanban_column(&beads, Status::Closed), vec!["bd-x closed one".to_string()]);
    assert!(kanban_column(&beads, Status::InReview).is_empty());
}

#[test]
fn journal_rows_follow_filter() {
    let mut p = StatusPane::new();
    p.replace_journal(vec![entry("pm", "hello"), entry("engineer-1", "wip")]);
    let rows = p.journal_rows();
    assert_eq!(rows.len(), 2);
    assert_eq!(rows[0], JournalRow { tag: "[pm] ".into(), color: color_for_agent("pm"), message: "hello".into() });
    assert_eq!(p.journal_filter_hint(), " [no filter]  ");
    p.journal_filter = Some("engineer-1".into());
    let rows = p.journal_rows();
    assert_eq!(rows.len(), 1);
    assert_eq!(rows[0].tag, "[engineer-1] ");
    assert_eq!(p.journal_filter_hint(), " [filter: engineer-1]  ");
}

#[test]
fn member_rows_show_marker_status_and_badges() {
    let mut m = MembersPane::new();
    m.set_active_member(Some(MemberId::singleton(Role::Pm)));
    let mut reg = AgentRegistry::new();
    reg.upsert(HeartbeatRecord { agent_id: "pm".into(), last_seen_ms: 1_000, status: "chatting".into() });
    reg.upsert(HeartbeatRecord { agent_id: "architect".into(), last_seen_ms: 1_000, status: "idle".into() });
    let mut failed = StringHashSet::new();
    failed.insert("recon".to_string());
    let rows = m.rows(&reg, &failed, 1_000 + 90_000);
    assert_eq!(
        rows[0],
        MemberRow { text: "* pm \u{2014} chatting".into(), active: true, badge: Some((" [STALE]", UiColor::Yellow)) }
    );
    assert_eq!(rows[1].text, "  architect \u{2014} idle");
    assert_eq!(rows[2], MemberRow { text: "  recon".into(), active: false, badge: Some((" [DEAD]", UiColor::Red)) });
    let fresh = m.rows(&reg, &StringHashSet::new(), 1_000);
    assert_eq!(fresh[0].badge, Some((" [WORK]", UiColor::Green)));
    assert_eq!(fresh[2].badge, None);
}

#[test]
fn pr_comment_endpoints_cover_review_and_issue_comments() {
    assert_eq!(
        pr_comments_endpoints("owner/name", 42),
        vec!["repos/owner/name/pulls/42/comments".to_string(), "repos/owner/name/issues/42/comments".to_string()]
    );
}

#[test]
fn terminal_pane_takes_what_the_side_columns_leave() {
    assert_eq!(terminal_pane_size(200, 50, 5, 20), (47, 126));
    assert_eq!(terminal_pane_size(80, 24, 1, 1), (21, 6));
}

#[test]
fn terminal_pane_never_shrinks_below_the_minimum() {
    assert_eq!(terminal_pane_size(10, 2, 5, 20), (5, 20));
    assert_eq!(terminal_pane_size(80, 24, 5, 20), (21, 20));
    assert_eq!(terminal_pane_size(0, 0, 1, 1), (1, 1));
}

#[test]
fn shim_install_keeps_replaces_creates_or_refuses() {
    assert_eq!(shim_names(), vec!["git", "gh"]);
    assert_eq!(shim_step(&ShimEntry::Missing, "/opt/safe-git"), ShimStep::Create);
    assert_eq!(shim_step(&ShimEntry::Symlink("/opt/safe-git".to_string()), "/opt/safe-git"), ShimStep::Keep);
    assert_eq!(shim_step(&ShimEntry::Symlink("/opt//safe-git".to_string()), "/opt/safe-git"), ShimStep::Keep);
    assert_eq!(shim_step(&ShimEntry::Symlink("/old/safe-git".to_string()), "/opt/safe-git"), ShimStep::Replace);
    assert_eq!(shim_step(&ShimEntry::NotSymlink, "/opt/safe-git"), ShimStep::Refuse);
}

#[test]
fn detect_tool_reads_the_final_component() {
    assert_eq!(detect_tool("/usr/bin/git"), Tool::Git);
    assert_eq!(detect_tool("/home/u/.fellowship/bin/gh"), Tool::Gh);
    assert_eq!(detect_tool("/usr/bin/git-upload-pack"), Tool::Other);
}
