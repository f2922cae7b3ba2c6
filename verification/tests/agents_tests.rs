use fellowship::agents::orchestrator::{decide_spawns, is_open_engineer_bead, note_routed, routing_enabled, StringHashSet};
use fellowship::agents::registry::{AgentRegistry, Liveness, HEARTBEAT_DEAD_SEC, HEARTBEAT_WARN_SEC};
use fellowship::agents::spawn::{action_env, default_model_for, merge_env, plan_for, prompt_for, AgentCli, SpawnAction};
use fellowship::agents::state::AgentState;
use fellowship::agents::watcher::{
    classify_runtime_path, is_json_file, is_tick_file, parse_member_label_from_tick_path, RuntimeFile,
};
use fellowship::beads::{Bead, Status};
use fellowship::runtime::{bus_tick_path, HeartbeatRecord};
use fellowship::surface::{MemberId, Role};

fn bead(id: &str, status: Status, assignee: Option<&str>, labels: &[&str]) -> Bead {
    Bead {
        id: id.into(),
        title: format!("title for {id}"),
        status,
        assignee: assignee.map(|s| s.into()),
        labels: labels.iter().map(|s| (*s).to_string()).collect(),
        priority: None,
        issue_type: None,
    }
}

#[test]
fn decide_spawns_routes_unclaimed_engineer_beads() {
    let beads = vec![
        bead("bd-1", Status::Open, None, &["role:engineer"]),
        bead("bd-2", Status::Open, None, &["role:engineer", "kind:bugfix"]),
    ];
    let routed = decide_spawns(&beads, &StringHashSet::new(), 0, 4);
    assert_eq!(routed, vec!["bd-1".to_string(), "bd-2".to_string()]);
}

#[test]
fn decide_spawns_skips_beads_with_assignees() {
    let beads = vec![
        bead("bd-1", Status::Open, Some("engineer-1"), &["role:engineer"]),
        bead("bd-2", Status::Open, None, &["role:engineer"]),
    ];
    let routed = decide_spawns(&beads, &StringHashSet::new(), 0, 4);
    assert_eq!(routed, vec!["bd-2".to_string()]);
}

#[test]
fn decide_spawns_skips_already_routed_ids() {
    let beads = vec![bead("bd-1", Status::Open, None, &["role:engineer"])];
    let mut already = StringHashSet::new();
    already.insert("bd-1".to_string());
    let routed = decide_spawns(&beads, &already, 0, 4);
    assert!(routed.is_empty(), "already-routed bead must not re-spawn");
}

#[test]
fn decide_spawns_skips_non_engineer_roles() {
    let beads = vec![
        bead("bd-1", Status::Open, None, &["role:architect"]),
        bead("bd-2", Status::Open, None, &["role:recon"]),
        bead("bd-3", Status::Open, None, &["role:engineer"]),
    ];
    let routed = decide_spawns(&beads, &StringHashSet::new(), 0, 4);
    assert_eq!(routed, vec!["bd-3".to_string()]);
}

#[test]
fn decide_spawns_skips_non_open_status() {
    let beads = vec![
        bead("bd-1", Status::InProgress, None, &["role:engineer"]),
        bead("bd-2", Status::Closed, None, &["role:engineer"]),
        bead("bd-3", Status::Open, None, &["role:engineer"]),
    ];
    let routed = decide_spawns(&beads, &StringHashSet::new(), 0, 4);
    assert_eq!(routed, vec!["bd-3".to_string()]);
}

#[test]
fn decide_spawns_respects_pool_cap() {
    let beads = vec![
        bead("bd-1", Status::Open, None, &["role:engineer"]),
        bead("bd-2", Status::Open, None, &["role:engineer"]),
        bead("bd-3", Status::Open, None, &["role:engineer"]),
    ];
    let routed = decide_spawns(&beads, &StringHashSet::new(), 4, 4);
    assert!(routed.is_empty());
    let routed = decide_spawns(&beads, &StringHashSet::new(), 3, 4);
    assert_eq!(routed.len(), 1);
    assert_eq!(routed[0], "bd-1");
    let routed = decide_spawns(&beads, &StringHashSet::new(), 0, 2);
    assert_eq!(routed, vec!["bd-1".to_string(), "bd-2".to_string()]);
}

#[test]
fn decide_spawns_returns_empty_for_empty_board() {
    let routed = decide_spawns(&[], &StringHashSet::new(), 0, 4);
    assert!(routed.is_empty());
}

#[test]
fn is_open_engineer_bead_requires_role_label() {
    let b = bead("bd-1", Status::Open, None, &["kind:implementation"]);
    assert!(!is_open_engineer_bead(&b));
    let b = bead("bd-2", Status::Open, None, &["role:architect"]);
    assert!(!is_open_engineer_bead(&b));
    let b = bead("bd-3", Status::Open, None, &["role:engineer"]);
    assert!(is_open_engineer_bead(&b));
}

fn record(agent_id: &str, status: &str, ts: u128) -> HeartbeatRecord {
    HeartbeatRecord { agent_id: agent_id.into(), last_seen_ms: ts, status: status.into() }
}

#[test]
fn upsert_replaces_existing_record() {
    let mut reg = AgentRegistry::new();
    reg.upsert(record("pm", "first", 100));
    reg.upsert(record("pm", "second", 200));
    let r = reg.get("pm").unwrap();
    assert_eq!(r.status, "second");
    assert_eq!(r.last_seen_ms, 200);
}

#[test]
fn get_returns_none_for_unknown() {
    let reg = AgentRegistry::new();
    assert!(reg.get("ghost").is_none());
}

#[test]
fn clear_removes_record_so_liveness_becomes_unknown() {
    let mut reg = AgentRegistry::new();
    reg.upsert(record("pm", "alive", 0));
    let dead_ms = (HEARTBEAT_DEAD_SEC as u128) * 1000;
    assert_eq!(reg.liveness_for("pm", dead_ms), Liveness::Dead);
    reg.clear("pm");
    assert!(reg.get("pm").is_none());
    assert_eq!(reg.liveness_for("pm", dead_ms), Liveness::Unknown);
    reg.clear("pm");
    reg.clear("never-existed");
}

#[test]
fn liveness_for_unknown_when_no_record() {
    let reg = AgentRegistry::new();
    assert_eq!(reg.liveness_for("ghost", 0), Liveness::Unknown);
}

#[test]
fn liveness_for_live_when_within_warn_threshold() {
    let mut reg = AgentRegistry::new();
    reg.upsert(record("pm", "alive", 1_000_000));
    assert_eq!(reg.liveness_for("pm", 1_030_000), Liveness::Live);
}

#[test]
fn liveness_for_stale_at_warn_threshold() {
    let mut reg = AgentRegistry::new();
    reg.upsert(record("pm", "alive", 0));
    let warn_ms = (HEARTBEAT_WARN_SEC as u128) * 1000;
    assert_eq!(reg.liveness_for("pm", warn_ms), Liveness::Stale);
}

#[test]
fn liveness_for_dead_at_dead_threshold() {
    let mut reg = AgentRegistry::new();
    reg.upsert(record("pm", "alive", 0));
    let dead_ms = (HEARTBEAT_DEAD_SEC as u128) * 1000;
    assert_eq!(reg.liveness_for("pm", dead_ms), Liveness::Dead);
    assert_eq!(reg.liveness_for("pm", dead_ms * 10), Liveness::Dead);
}

#[test]
fn prompt_for_returns_non_empty_for_every_role() {
    for role in [Role::Pm, Role::Orchestrator, Role::Architect, Role::Recon, Role::Engineer] {
        let p = prompt_for(role);
        assert!(!p.is_empty(), "{role:?} prompt empty");
        assert!(p.contains("Role:"), "{role:?} prompt missing role header");
    }
}

/// The agent CLI the planning tests run against.
fn cli() -> AgentCli {
    AgentCli { program: "agent-cli".to_string(), recon_model: Some("haiku-4-5".to_string()) }
}

#[test]
fn default_model_only_set_for_recon() {
    let cli = cli();
    assert_eq!(default_model_for(Role::Pm, &cli), None);
    assert_eq!(default_model_for(Role::Orchestrator, &cli), None);
    assert_eq!(default_model_for(Role::Architect, &cli), None);
    assert_eq!(default_model_for(Role::Engineer, &cli), None);
    assert_eq!(default_model_for(Role::Recon, &cli), Some("haiku-4-5".to_string()));
}

#[test]
fn plan_with_claude_available_emits_program_action() {
    let action = plan_for(Role::Pm, "pm", &cli(), true);
    match action {
        SpawnAction::Program { program, args, env } => {
            assert_eq!(program, "agent-cli");
            assert!(args.iter().any(|a| a == "--dangerously-skip-permissions"));
            assert!(args.iter().any(|a| a == "--append-system-prompt"));
            assert!(args.iter().any(|a| a.contains("Product Manager")));
            assert!(!args.iter().any(|a| a == "--model"));
            let env_keys: Vec<&str> = env.iter().map(|(k, _)| k.as_str()).collect();
            assert!(env_keys.contains(&"AGENT_PROMPT"));
            assert!(env_keys.contains(&"AGENT_ID"));
            assert!(!env_keys.contains(&"AGENT_MODEL"));
        }
        other => panic!("expected Program action, got {other:?}"),
    }
}

#[test]
fn plan_for_recon_passes_haiku_model_in_argv_and_env() {
    let action = plan_for(Role::Recon, "recon", &cli(), true);
    match action {
        SpawnAction::Program { args, env, .. } => {
            let model_idx = args.iter().position(|a| a == "--model").expect("--model arg missing");
            assert_eq!(args[model_idx + 1], "haiku-4-5");
            let env_map: std::collections::HashMap<_, _> =
                env.iter().map(|(k, v)| (k.as_str(), v.as_str())).collect();
            assert_eq!(env_map.get("AGENT_MODEL"), Some(&"haiku-4-5"));
        }
        other => panic!("expected Program action, got {other:?}"),
    }
}

#[test]
fn plan_for_recon_without_configured_model_uses_cli_default() {
    let cli = AgentCli { program: "agent-cli".to_string(), recon_model: None };
    match plan_for(Role::Recon, "recon", &cli, true) {
        SpawnAction::Program { args, env, .. } => {
            assert!(!args.iter().any(|a| a == "--model"));
            assert!(!env.iter().any(|(k, _)| k == "AGENT_MODEL"));
        }
        other => panic!("expected Program action, got {other:?}"),
    }
}

#[test]
fn plan_with_claude_missing_uses_banner_action() {
    let action = plan_for(Role::Engineer, "engineer-1", &cli(), false);
    match action {
        SpawnAction::Banner { startup_cmd, env } => {
            assert!(startup_cmd.contains("agent-cli not on PATH"));
            assert!(startup_cmd.starts_with("echo '[engineer-1] "));
            assert!(startup_cmd.contains("exec bash"));
            let env_keys: Vec<&str> = env.iter().map(|(k, _)| k.as_str()).collect();
            assert!(env_keys.contains(&"AGENT_PROMPT"));
        }
        other => panic!("expected Banner action, got {other:?}"),
    }
}

#[test]
fn plan_for_engineer_includes_agent_id_in_env() {
    let action = plan_for(Role::Engineer, "engineer-7", &cli(), true);
    let env: std::collections::HashMap<_, _> =
        action_env(&action).iter().map(|(k, v)| (k.as_str(), v.as_str())).collect();
    assert_eq!(env.get("AGENT_ID"), Some(&"engineer-7"));
}

#[test]
fn merge_env_overrides_take_precedence() {
    let base = vec![
        ("PATH".to_string(), "/usr/bin".to_string()),
        ("FOO".to_string(), "base".to_string()),
    ];
    let overrides = vec![
        ("FOO".to_string(), "override".to_string()),
        ("BAR".to_string(), "new".to_string()),
    ];
    let merged = merge_env(&base, &overrides);
    let map: std::collections::HashMap<_, _> =
        merged.iter().map(|(k, v)| (k.as_str(), v.as_str())).collect();
    assert_eq!(map.get("FOO"), Some(&"override"));
    assert_eq!(map.get("PATH"), Some(&"/usr/bin"));
    assert_eq!(map.get("BAR"), Some(&"new"));
}

fn engineer_1() -> MemberId {
    MemberId::engineer(1)
}

#[test]
fn bump_restart_follows_backoff_schedule() {
    let now = 1_000_000_u64;
    let mut state = AgentState::new(&engineer_1(), "agent-cli".to_string(), now);
    let mut delays = Vec::new();
    for _ in 0..6 {
        delays.push(state.bump_restart(now));
    }
    assert_eq!(delays, vec![5, 15, 45, 120, 300, 300]);
    assert_eq!(
        state.next_restart_at_ms,
        Some(now + 300 * 1_000),
        "final next_restart_at_ms should reflect capped 300 s delay"
    );
    assert_eq!(state.restart_attempts, 6);
}

#[test]
fn clear_restart_resets_counter_and_timer() {
    let mut state = AgentState::new(&engineer_1(), "agent-cli".to_string(), 0);
    state.bump_restart(0);
    state.bump_restart(0);
    assert_eq!(state.restart_attempts, 2);
    state.clear_restart();
    assert_eq!(state.restart_attempts, 0);
    assert!(state.next_restart_at_ms.is_none());
}

#[test]
fn is_json_file_filters_extensions() {
    assert!(is_json_file("/x/pm.json"));
    assert!(!is_json_file("/x/pm.txt"));
    assert!(!is_json_file("/x/pm"));
}

#[test]
fn parse_tick_path_round_trips_singleton_and_engineer_labels() {
    let pm = parse_member_label_from_tick_path("/runtime/bus-tick/pm.tick").unwrap();
    assert_eq!(pm, MemberId::singleton(Role::Pm));
    let arch = parse_member_label_from_tick_path("/runtime/bus-tick/architect.tick").unwrap();
    assert_eq!(arch, MemberId::singleton(Role::Architect));
    let eng1 = parse_member_label_from_tick_path("/runtime/bus-tick/engineer-1.tick").unwrap();
    assert_eq!(eng1, MemberId::engineer(1));
    let eng42 = parse_member_label_from_tick_path("/runtime/bus-tick/engineer-42.tick").unwrap();
    assert_eq!(eng42, MemberId::engineer(42));
    assert!(parse_member_label_from_tick_path("/x/junk.tick").is_none());
    assert!(parse_member_label_from_tick_path("/x/engineer-NaN.tick").is_none());
}

#[test]
fn set_session_id_records_the_cli_session() {
    let mut state = AgentState::new(&engineer_1(), "agent-cli".to_string(), 7);
    assert!(state.session_id.is_none());
    state.set_session_id("abc-123".to_string());
    assert_eq!(state.session_id.as_deref(), Some("abc-123"));
    assert_eq!(state.member_id, "engineer-1");
    assert_eq!(state.role, "engineer");
    assert_eq!(state.spawned_at_ms, 7);
}

#[test]
fn tick_files_are_recognised_by_extension() {
    assert!(is_tick_file("/rt/bus-tick/pm.tick"));
    assert!(!is_tick_file("/rt/bus-tick/pm.json"));
    assert!(!is_tick_file("/rt/bus-tick/tick"));
}

#[test]
fn runtime_paths_are_classified_by_place_and_extension() {
    let c = |p: &str| classify_runtime_path("/rt/spawn-requests", "/rt/release-requests", "/rt/bus-tick", p);
    assert_eq!(c("/rt/journal.ndjson"), RuntimeFile::Journal);
    assert_eq!(c("/rt/bus-tick/pm.tick"), RuntimeFile::Tick(Some(MemberId::singleton(Role::Pm))));
    assert_eq!(c("/rt/bus-tick/junk.tick"), RuntimeFile::Tick(None));
    assert_eq!(c("/rt/spawn-requests/abc.json"), RuntimeFile::SpawnRequest);
    assert_eq!(c("/rt/release-requests/abc.json"), RuntimeFile::ReleaseRequest);
    assert_eq!(c("/rt/state/engineer-1.json"), RuntimeFile::Heartbeat);
    assert_eq!(c("/rt/spawn-requests/abc.tmp"), RuntimeFile::Other);
    assert_eq!(c("/rt/spawn-requestsx/abc.json"), RuntimeFile::Heartbeat);
}

#[test]
fn tick_paths_written_for_members_parse_back() {
    for m in [MemberId::singleton(Role::Recon), MemberId::singleton(Role::Orchestrator), MemberId::engineer(7)] {
        let p = bus_tick_path("/tmp/rt", &m.label());
        assert_eq!(parse_member_label_from_tick_path(&p), Some(m));
    }
}

#[test]
fn a_bead_counts_as_routed_only_once_its_request_is_written() {
    let mut routed = StringHashSet::new();
    note_routed(&mut routed, "bd-1".to_string(), false);
    assert!(!routed.contains("bd-1"));
    note_routed(&mut routed, "bd-1".to_string(), true);
    assert!(routed.contains("bd-1"));
    assert!(!routing_enabled(0));
    assert!(routing_enabled(4));
}

#[test]
fn merge_env_keeps_base_order_and_adds_new_keys_once() {
    let s = |a: &str, b: &str| (a.to_string(), b.to_string());
    let base = vec![s("A", "1"), s("B", "2"), s("C", "3")];
    let overrides = vec![s("D", "4"), s("B", "x"), s("D", "5")];
    let merged = merge_env(&base, &overrides);
    assert_eq!(merged, vec![s("A", "1"), s("B", "x"), s("C", "3"), s("D", "5")]);
}
