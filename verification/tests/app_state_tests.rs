use fellowship::agents::spawn::{AgentCli, SpawnAction};
use fellowship::app::{App, Effect, PaneId};
use fellowship::event::Event;
use fellowship::git::Worktree;
use fellowship::keymap::{InputMode, Key, KeyCode, KeyModifiers};
use fellowship::runtime::{HeartbeatRecord, ReleaseRequest, SpawnRequest};
use fellowship::surface::{MemberId, Role, Surface};

fn cli() -> AgentCli {
    AgentCli { program: "agent-cli".to_string(), recon_model: None }
}

fn app(cli_available: bool) -> App {
    App::new(
        "/repo".to_string(),
        "session-1".to_string(),
        "/shim:/usr/bin".to_string(),
        cli(),
        cli_available,
        (24, 80),
        None,
    )
}

fn plain(c: char) -> Key {
    Key::new(KeyCode::Char(c), KeyModifiers::none())
}

fn ctrl_a() -> Key {
    Key::new(KeyCode::Char('a'), KeyModifiers::control())
}

fn press(a: &mut App, k: Key) -> Vec<Effect> {
    a.handle_event(Event::Key(k), String::new())
}

fn wt(path: &str) -> Worktree {
    Worktree { path: path.into(), branch: None, head: None, is_current: false }
}

fn spawn_req(id: &str, branch: Option<&str>) -> SpawnRequest {
    SpawnRequest {
        request_id: id.to_string(),
        branch: branch.map(|b| b.to_string()),
        single_shot: false,
        requested_at_ms: 0,
    }
}

#[test]
fn boot_with_cli_starts_on_pm_member() {
    let a = app(true);
    assert_eq!(a.active_surface, Surface::Member(MemberId::singleton(Role::Pm)));
    assert_eq!(a.members.active, Some(MemberId::singleton(Role::Pm)));
    assert_eq!(a.focus, PaneId::Terminal);
    assert_eq!(a.max_engineers, 4);
    assert_eq!(a.max_restarts, 3);
}

#[test]
fn boot_without_cli_starts_on_workspace() {
    let a = app(false);
    assert_eq!(a.active_surface, Surface::Workspace("/repo".to_string()));
    assert!(a.members.active.is_none());
}

#[test]
fn boot_members_are_the_four_singletons() {
    let ids = App::boot_members();
    assert_eq!(
        ids,
        vec![
            MemberId::singleton(Role::Pm),
            MemberId::singleton(Role::Orchestrator),
            MemberId::singleton(Role::Architect),
            MemberId::singleton(Role::Recon),
        ]
    );
}

#[test]
fn launch_plan_carries_path_and_request_id() {
    let a = app(true);
    let (action, env) = a.launch_plan(MemberId::engineer(2), Some("req-9".to_string()));
    assert_eq!(
        env,
        vec![
            ("PATH".to_string(), "/shim:/usr/bin".to_string()),
            ("FELLOWSHIP_SPAWN_REQUEST_ID".to_string(), "req-9".to_string()),
        ]
    );
    match action {
        SpawnAction::Program { program, env, .. } => {
            assert_eq!(program, "agent-cli");
            assert!(env.iter().any(|(k, v)| k == "AGENT_ID" && v == "engineer-2"));
        }
        other => panic!("expected Program action, got {other:?}"),
    }
}

#[test]
fn terminal_keys_are_forwarded() {
    let mut a = app(true);
    assert_eq!(press(&mut a, plain('x')), vec![Effect::WriteKey(plain('x'))]);
}

#[test]
fn prefix_then_q_quits_the_app() {
    let mut a = app(true);
    assert!(press(&mut a, ctrl_a()).is_empty());
    assert!(press(&mut a, plain('q')).is_empty());
    assert!(a.should_quit);
}

#[test]
fn double_prefix_writes_literal_ctrl_a_to_terminal() {
    let mut a = app(true);
    press(&mut a, ctrl_a());
    assert_eq!(press(&mut a, ctrl_a()), vec![Effect::WriteKey(ctrl_a())]);
}

#[test]
fn prefix_digit_switches_to_listed_worktree() {
    let mut a = app(true);
    a.handle_event(Event::WorktreesRefreshed(vec![wt("/repo"), wt("/repo-b")]), String::new());
    press(&mut a, ctrl_a());
    assert_eq!(press(&mut a, plain('2')), vec![Effect::Send(Event::SwitchWorkspace("/repo-b".to_string()))]);
    press(&mut a, ctrl_a());
    assert!(press(&mut a, plain('9')).is_empty());
}

#[test]
fn command_line_quit_sets_should_quit() {
    let mut a = app(true);
    press(&mut a, ctrl_a());
    press(&mut a, plain(':'));
    for c in " quit ".chars() {
        press(&mut a, plain(c));
    }
    press(&mut a, Key::new(KeyCode::Enter, KeyModifiers::none()));
    assert!(a.should_quit);
    assert!(matches!(a.input_mode, InputMode::Normal));
}

#[test]
fn cycle_and_toggle_help() {
    let mut a = app(true);
    press(&mut a, ctrl_a());
    press(&mut a, plain('o'));
    assert_eq!(a.focus, PaneId::GitStatus);
    press(&mut a, ctrl_a());
    press(&mut a, plain('?'));
    assert!(a.show_help);
}

#[test]
fn focus_dir_follows_layout() {
    let mut a = app(true);
    press(&mut a, ctrl_a());
    press(&mut a, plain('h'));
    assert_eq!(a.focus, PaneId::Workspaces);
    press(&mut a, ctrl_a());
    press(&mut a, plain('h'));
    assert_eq!(a.focus, PaneId::Workspaces);
}

#[test]
fn workspaces_pane_keys_open_dialog_and_create_worktree() {
    let mut a = app(true);
    press(&mut a, ctrl_a());
    press(&mut a, plain('e'));
    assert_eq!(press(&mut a, plain('n')), vec![Effect::ResetModalInput]);
    assert_eq!(press(&mut a, plain('z')), vec![Effect::EditModalInput(plain('z'))]);
    let effects = a.handle_event(Event::Key(Key::new(KeyCode::Enter, KeyModifiers::none())), "feat/z".to_string());
    assert_eq!(
        effects,
        vec![Effect::Send(Event::CreateWorktree("feat/z".to_string())), Effect::ResetModalInput]
    );
}

#[test]
fn members_pane_enter_switches_surface() {
    let mut a = app(true);
    press(&mut a, ctrl_a());
    press(&mut a, plain('m'));
    press(&mut a, plain('j'));
    let effects = press(&mut a, Key::new(KeyCode::Enter, KeyModifiers::none()));
    let architect = MemberId::singleton(Role::Architect);
    assert_eq!(effects, vec![Effect::Send(Event::SwitchSurface(Surface::Member(architect)))]);
    let effects = a.handle_event(Event::SwitchSurface(Surface::Member(architect)), String::new());
    assert_eq!(effects, vec![Effect::ResizeTerminal(Surface::Member(architect))]);
    assert_eq!(a.active_surface, Surface::Member(architect));
    assert_eq!(a.members.active, Some(architect));
    assert_eq!(a.focus, PaneId::Terminal);
}

#[test]
fn switch_workspace_binds_terminal_and_refreshes_git() {
    let mut a = app(true);
    a.handle_event(Event::WorktreesRefreshed(vec![wt("/repo"), wt("/repo-b")]), String::new());
    let effects = a.handle_event(Event::SwitchWorkspace("/repo-b".to_string()), String::new());
    assert_eq!(
        effects,
        vec![Effect::OpenWorkspaceTerminal("/repo-b".to_string()), Effect::Send(Event::GitRefresh)]
    );
    assert_eq!(a.last_workspace_path, "/repo-b");
    assert_eq!(a.git_status.root_path, "/repo-b");
    assert_eq!(a.workspaces.selected, 1);
    assert!(a.members.active.is_none());
    assert_eq!(a.handle_event(Event::GitRefresh, String::new()), vec![Effect::RefreshGit("/repo-b".to_string())]);
}

#[test]
fn switch_surface_to_workspace_goes_through_switch_workspace() {
    let mut a = app(true);
    let effects = a.handle_event(Event::SwitchSurface(Surface::Workspace("/w".to_string())), String::new());
    assert_eq!(effects, vec![Effect::Send(Event::SwitchWorkspace("/w".to_string()))]);
}

#[test]
fn deleting_current_worktree_is_refused_and_others_need_confirmation() {
    let mut a = app(true);
    a.handle_event(Event::PromptDeleteWorktree("/repo".to_string(), "repo".to_string()), String::new());
    assert!(a.pending_delete.is_none());
    a.handle_event(Event::PromptDeleteWorktree("/repo-b".to_string(), "repo-b".to_string()), String::new());
    assert_eq!(a.pending_delete, Some(("/repo-b".to_string(), "repo-b".to_string())));
    assert!(press(&mut a, plain('x')).is_empty());
    assert!(a.pending_delete.is_some());
    assert_eq!(press(&mut a, plain('y')), vec![Effect::Send(Event::DeleteWorktree("/repo-b".to_string()))]);
    assert!(a.pending_delete.is_none());
    let effects = a.handle_event(Event::DeleteWorktree("/repo-b".to_string()), String::new());
    assert_eq!(
        effects,
        vec![
            Effect::CloseTerminal(Surface::Workspace("/repo-b".to_string())),
            Effect::RemoveWorktree { root: "/repo".to_string(), path: "/repo-b".to_string() },
        ]
    );
}

#[test]
fn pending_delete_cancelled_by_escape() {
    let mut a = app(true);
    a.handle_event(Event::PromptDeleteWorktree("/repo-b".to_string(), "b".to_string()), String::new());
    assert!(press(&mut a, Key::new(KeyCode::Esc, KeyModifiers::none())).is_empty());
    assert!(a.pending_delete.is_none());
}

#[test]
fn create_worktree_runs_against_current_workspace() {
    let mut a = app(true);
    let effects = a.handle_event(Event::CreateWorktree("feat/x".to_string()), String::new());
    assert_eq!(effects, vec![Effect::AddWorktree { root: "/repo".to_string(), branch: "feat/x".to_string() }]);
}

#[test]
fn spawn_request_creates_engineer_with_next_free_instance() {
    let mut a = app(true);
    let effects = a.handle_event(Event::SpawnRequestReceived(spawn_req("r1", Some("feat/a"))), String::new());
    assert_eq!(
        effects,
        vec![Effect::CreateEngineer {
            id: MemberId::engineer(1),
            repo: "/repo".to_string(),
            branch: "feat/a".to_string(),
            request_id: "r1".to_string(),
        }]
    );
    a.engineer_launched(MemberId::engineer(1), "/wt/feat-a".to_string());
    a.engineer_launched(MemberId::engineer(3), "/wt/feat-c".to_string());
    assert_eq!(a.next_engineer_instance(), 2);
    assert_eq!(a.live_engineer_count(), 2);
}

#[test]
fn spawn_request_without_branch_does_nothing() {
    let mut a = app(true);
    assert!(a.handle_event(Event::SpawnRequestReceived(spawn_req("r1", None)), String::new()).is_empty());
    assert!(a.spawn_queue.is_empty());
}

#[test]
fn spawn_requests_queue_at_capacity_and_drain_on_release() {
    let mut a = app(true);
    for n in 1..=4 {
        a.engineer_launched(MemberId::engineer(n), format!("/wt/{n}"));
    }
    assert!(a.handle_event(Event::SpawnRequestReceived(spawn_req("r5", Some("feat/e"))), String::new()).is_empty());
    assert_eq!(a.spawn_queue.len(), 1);
    let effects = a.handle_event(
        Event::ReleaseRequestReceived(ReleaseRequest { request_id: "x".into(), agent_id: "engineer-2".into(), requested_at_ms: 0 }),
        String::new(),
    );
    assert_eq!(
        effects,
        vec![
            Effect::CloseTerminal(Surface::Member(MemberId::engineer(2))),
            Effect::CreateEngineer {
                id: MemberId::engineer(2),
                repo: "/repo".to_string(),
                branch: "feat/e".to_string(),
                request_id: "r5".to_string(),
            },
        ]
    );
    assert!(a.spawn_queue.is_empty());
    assert!(!a.members.members.contains(&MemberId::engineer(2)));
}

#[test]
fn release_of_non_engineer_is_ignored() {
    let mut a = app(true);
    let effects = a.handle_event(
        Event::ReleaseRequestReceived(ReleaseRequest { request_id: "x".into(), agent_id: "pm".into(), requested_at_ms: 0 }),
        String::new(),
    );
    assert!(effects.is_empty());
    assert_eq!(a.members.members.len(), 3);
}

#[test]
fn watchdog_restarts_dead_member_and_heartbeat_resets_count() {
    let mut a = app(true);
    a.handle_event(
        Event::AgentHeartbeat(HeartbeatRecord { agent_id: "architect".into(), last_seen_ms: 1_000, status: "alive".into() }),
        String::new(),
    );
    let architect = MemberId::singleton(Role::Architect);
    let effects = a.run_watchdog(1_000 + 200_000);
    assert_eq!(
        effects,
        vec![
            Effect::CloseTerminal(Surface::Member(architect)),
            Effect::Launch { id: architect, cwd: "/repo".to_string() },
        ]
    );
    assert_eq!(a.restart_counts.get("architect"), Some(&1));
    assert!(a.agent_registry.get("architect").is_none());
    a.handle_event(
        Event::AgentHeartbeat(HeartbeatRecord { agent_id: "architect".into(), last_seen_ms: 300_000, status: "alive".into() }),
        String::new(),
    );
    assert!(a.restart_counts.get("architect").is_none());
}

#[test]
fn watchdog_gives_up_at_cap_and_engineer_without_worktree_is_not_relaunched() {
    let mut a = app(true);
    let e1 = MemberId::engineer(1);
    a.members.add_member(e1);
    a.restart_counts.insert("architect".to_string(), 3);
    for id in ["architect", "engineer-1"] {
        a.handle_event(
            Event::AgentHeartbeat(HeartbeatRecord { agent_id: id.into(), last_seen_ms: 0, status: "alive".into() }),
            String::new(),
        );
    }
    a.restart_counts.insert("architect".to_string(), 3);
    let effects = a.run_watchdog(500_000);
    assert_eq!(effects, vec![Effect::CloseTerminal(Surface::Member(e1))]);
    assert!(a.failed_agents.contains("architect"));
    assert_eq!(a.restart_counts.get("engineer-1"), Some(&1));
}

#[test]
fn resize_follows_active_surface() {
    let mut a = app(false);
    assert_eq!(a.resize_terminal(40, 100), Effect::ResizeTerminal(Surface::Workspace("/repo".to_string())));
    assert_eq!(a.last_term_size, (40, 100));
}

#[test]
fn quit_event_and_data_events() {
    let mut a = app(true);
    a.handle_event(Event::BeadsRefreshed(Vec::new()), String::new());
    a.handle_event(Event::Quit, String::new());
    assert!(a.should_quit);
}

#[test]
fn git_refresh_after_member_switch_targets_last_workspace() {
    let mut a = app(false);
    a.handle_event(Event::SwitchWorkspace("/repo-b".to_string()), String::new());
    a.handle_event(Event::SwitchSurface(Surface::Member(MemberId::singleton(Role::Recon))), String::new());
    assert_eq!(a.last_workspace_path, "/repo-b");
    assert_eq!(a.handle_event(Event::GitRefresh, String::new()), vec![Effect::RefreshGit("/repo-b".to_string())]);
}

#[test]
fn heartbeat_with_padded_engineer_number_resets_canonical_count() {
    let mut a = app(true);
    a.restart_counts.insert("engineer-7".to_string(), 2);
    a.handle_event(
        Event::AgentHeartbeat(HeartbeatRecord { agent_id: "engineer-07".into(), last_seen_ms: 5, status: "ok".into() }),
        String::new(),
    );
    assert!(a.restart_counts.get("engineer-7").is_none());
    assert!(a.agent_registry.get("engineer-07").is_some());
}

#[test]
fn watchdog_tick_at_a_given_time_restarts_the_dead_member() {
    let mut a = app(true);
    a.handle_event(
        Event::AgentHeartbeat(HeartbeatRecord { agent_id: "recon".into(), last_seen_ms: 5_000, status: "alive".into() }),
        String::new(),
    );
    assert!(a.handle_event_at(Event::WatchdogTick, String::new(), 6_000).is_empty());
    let recon = MemberId::singleton(Role::Recon);
    let effects = a.handle_event_at(Event::WatchdogTick, String::new(), 5_000 + 200_000);
    assert_eq!(
        effects,
        vec![Effect::CloseTerminal(Surface::Member(recon)), Effect::Launch { id: recon, cwd: "/repo".to_string() }]
    );
    assert_eq!(a.restart_counts.get("recon"), Some(&1));
}
