use fellowship::agents::registry::{AgentRegistry, HEARTBEAT_DEAD_SEC, HEARTBEAT_WARN_SEC};
use fellowship::app::{
    decide_watchdog_actions, parse_engineer_id, singleton_id_for_label, StringHashMap, StringHashSet,
    WatchdogAction,
};
use fellowship::runtime::HeartbeatRecord;
use fellowship::surface::{MemberId, Role};

#[test]
fn parse_engineer_id_accepts_valid_shape() {
    assert_eq!(parse_engineer_id("engineer-1"), Some(MemberId::engineer(1)));
    assert_eq!(parse_engineer_id("engineer-42"), Some(MemberId::engineer(42)));
}

#[test]
fn parse_engineer_id_rejects_singleton_and_garbage() {
    assert!(parse_engineer_id("pm").is_none());
    assert!(parse_engineer_id("orchestrator").is_none());
    assert!(parse_engineer_id("engineer-").is_none());
    assert!(parse_engineer_id("engineer-x").is_none());
    assert!(parse_engineer_id("engineer").is_none());
    assert!(parse_engineer_id("").is_none());
}

#[test]
fn singleton_id_for_label_recognizes_canonical_names() {
    assert_eq!(singleton_id_for_label("pm"), Some(MemberId::singleton(Role::Pm)));
    assert_eq!(singleton_id_for_label("orchestrator"), Some(MemberId::singleton(Role::Orchestrator)));
    assert_eq!(singleton_id_for_label("architect"), Some(MemberId::singleton(Role::Architect)));
    assert_eq!(singleton_id_for_label("recon"), Some(MemberId::singleton(Role::Recon)));
}

#[test]
fn singleton_id_for_label_rejects_non_singletons_and_garbage() {
    assert!(singleton_id_for_label("engineer-1").is_none());
    assert!(singleton_id_for_label("PM").is_none());
    assert!(singleton_id_for_label("").is_none());
    assert!(singleton_id_for_label("anything-else").is_none());
}

fn fresh_registry(records: &[(&str, u128)]) -> AgentRegistry {
    let mut reg = AgentRegistry::new();
    for (id, last_seen_ms) in records {
        reg.upsert(HeartbeatRecord {
            agent_id: (*id).to_string(),
            last_seen_ms: *last_seen_ms,
            status: "test".into(),
        });
    }
    reg
}

#[test]
fn watchdog_no_actions_when_all_live() {
    let pm = MemberId::singleton(Role::Pm);
    let now = 1_000_000;
    let warn_ms = (HEARTBEAT_WARN_SEC as u128) * 1000;
    let reg = fresh_registry(&[("pm", now - warn_ms / 2)]);
    let actions = decide_watchdog_actions(&[pm], &reg, &StringHashMap::new(), &StringHashSet::new(), 3, now);
    assert!(actions.is_empty(), "live member should not trigger actions");
}

#[test]
fn watchdog_emits_note_stale_for_stale_members() {
    let pm = MemberId::singleton(Role::Pm);
    let now = 1_000_000;
    let warn_ms = (HEARTBEAT_WARN_SEC as u128) * 1000;
    let reg = fresh_registry(&[("pm", now - warn_ms - 1000)]);
    let actions = decide_watchdog_actions(&[pm], &reg, &StringHashMap::new(), &StringHashSet::new(), 3, now);
    assert_eq!(actions, vec![WatchdogAction::NoteStale(pm)]);
}

#[test]
fn watchdog_skips_unknown_no_telemetry_members() {
    let arch = MemberId::singleton(Role::Architect);
    let actions = decide_watchdog_actions(
        &[arch],
        &AgentRegistry::new(),
        &StringHashMap::new(),
        &StringHashSet::new(),
        3,
        1_000_000,
    );
    assert!(actions.is_empty(), "Unknown liveness must be a no-op");
}

#[test]
fn watchdog_restarts_dead_member_under_cap() {
    let pm = MemberId::singleton(Role::Pm);
    let now = 1_000_000;
    let dead_ms = (HEARTBEAT_DEAD_SEC as u128) * 1000;
    let reg = fresh_registry(&[("pm", now - dead_ms - 1000)]);
    let actions = decide_watchdog_actions(&[pm], &reg, &StringHashMap::new(), &StringHashSet::new(), 3, now);
    assert_eq!(actions, vec![WatchdogAction::Restart { id: pm, attempt: 1 }]);
}

#[test]
fn watchdog_increments_attempt_with_existing_count() {
    let pm = MemberId::singleton(Role::Pm);
    let now = 1_000_000;
    let dead_ms = (HEARTBEAT_DEAD_SEC as u128) * 1000;
    let reg = fresh_registry(&[("pm", now - dead_ms - 1)]);
    let mut counts = StringHashMap::new();
    counts.insert(pm.label(), 2);
    let actions = decide_watchdog_actions(&[pm], &reg, &counts, &StringHashSet::new(), 3, now);
    assert_eq!(actions, vec![WatchdogAction::Restart { id: pm, attempt: 3 }]);
}

#[test]
fn watchdog_escalates_at_max_restarts() {
    let pm = MemberId::singleton(Role::Pm);
    let now = 1_000_000;
    let dead_ms = (HEARTBEAT_DEAD_SEC as u128) * 1000;
    let reg = fresh_registry(&[("pm", now - dead_ms - 1)]);
    let mut counts = StringHashMap::new();
    counts.insert(pm.label(), 3);
    let actions = decide_watchdog_actions(&[pm], &reg, &counts, &StringHashSet::new(), 3, now);
    assert_eq!(actions, vec![WatchdogAction::Escalate { id: pm, restarts: 3 }]);
}

#[test]
fn watchdog_skips_already_failed_members() {
    let pm = MemberId::singleton(Role::Pm);
    let now = 1_000_000;
    let dead_ms = (HEARTBEAT_DEAD_SEC as u128) * 1000;
    let reg = fresh_registry(&[("pm", now - dead_ms - 1)]);
    let mut failed = StringHashSet::new();
    failed.insert(pm.label());
    let actions = decide_watchdog_actions(&[pm], &reg, &StringHashMap::new(), &failed, 3, now);
    assert!(actions.is_empty(), "failed members must produce no further actions");
}

#[test]
fn watchdog_handles_mixed_member_set_in_one_pass() {
    let pm = MemberId::singleton(Role::Pm);
    let arch = MemberId::singleton(Role::Architect);
    let recon = MemberId::singleton(Role::Recon);
    let eng = MemberId::engineer(1);
    let now = 1_000_000;
    let warn_ms = (HEARTBEAT_WARN_SEC as u128) * 1000;
    let dead_ms = (HEARTBEAT_DEAD_SEC as u128) * 1000;
    let reg = fresh_registry(&[
        ("pm", now - 5_000),
        ("architect", now - warn_ms - 5_000),
        ("engineer-1", now - dead_ms - 5_000),
    ]);
    let actions = decide_watchdog_actions(
        &[pm, arch, recon, eng],
        &reg,
        &StringHashMap::new(),
        &StringHashSet::new(),
        3,
        now,
    );
    assert_eq!(
        actions,
        vec![WatchdogAction::NoteStale(arch), WatchdogAction::Restart { id: eng, attempt: 1 }]
    );
}
