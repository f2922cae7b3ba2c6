//! The application's state machine: the panes, the agent team and the
//! engineer pool, and how each event changes them. The work that touches
//! the terminal, the PTYs, git and the clock is handed back as [`Effect`]s
//! for the caller to perform. Also the watchdog policy that decides, tick by
//! tick, which agents to restart or give up on.
use vstd::prelude::*;
pub use vstd::hash_map::StringHashMap;
use crate::agents::registry::{liveness_in, AgentRegistry, Liveness};
use crate::agents::spawn::{plan_for, plan_post, AgentCli, SpawnAction};
use crate::beads::Bead;
use crate::event::Event;
use crate::keymap::{
    binding_views, default_bindings, default_bindings_spec, handle_spec, prefix_key, prefix_key_spec,
    Action, ActionView, InputMode, Key, KeyCode, Keymap, ModeView,
};
use crate::layout::{neighbor_spec, PaneLayout, Slot};
use crate::panes::gitstatus::GitStatusPane;
use crate::panes::members::{
    engineer_instances_of, members_event, members_selected_after, remove_member_post, MembersPane,
};
use crate::panes::status::{journal_tail_of, status_filter_after, status_view_after, StatusPane, SubView};
use crate::panes::workspaces::{path_index, ws_modal_after, ws_outcome, ws_selected_after, WorkspaceKeyOutcome, WorkspacesPane};
use crate::paths::{path_equal, paths_equal};
use crate::runtime::{now_ms, HeartbeatRecord, ReleaseRequest, SpawnRequest};
use crate::surface::{label_of, MemberId, Role, Surface};
use crate::text::{
    chars_of, decimal, digits_value, is_lit, parse_u32, parse_u32_chars, strip_prefix, strip_prefix_lit,
    all_digits, is_digit, trim, trim_chars,
};

pub use vstd::hash_set::StringHashSet;

verus! {

#[derive(Debug, Clone, Copy, PartialEq, Eq, Hash, Structural)]
pub enum PaneId {
    Members,
    Workspaces,
    Terminal,
    GitStatus,
}

/// Which sub-view the right column currently shows.
#[derive(Debug, Clone, Copy, PartialEq, Eq, Structural)]
pub enum RightView {
    Git,
    Status,
}

/// The member `engineer-<n>` names, if `s` has that shape.
pub open spec fn engineer_id_spec(s: Seq<char>) -> Option<MemberId> {
    match strip_prefix(s, "engineer-"@) {
        Some(rest) => match parse_u32(rest) {
            Some(n) => Some(MemberId { role: Role::Engineer, instance: n }),
            None => None,
        },
        None => None,
    }
}

/// The singleton member a label names (`pm`, `orchestrator`, `architect`,
/// `recon`), if any.
pub open spec fn singleton_id_spec(s: Seq<char>) -> Option<MemberId> {
    if s == "pm"@ {
        Some(MemberId { role: Role::Pm, instance: 0 })
    } else if s == "orchestrator"@ {
        Some(MemberId { role: Role::Orchestrator, instance: 0 })
    } else if s == "architect"@ {
        Some(MemberId { role: Role::Architect, instance: 0 })
    } else if s == "recon"@ {
        Some(MemberId { role: Role::Recon, instance: 0 })
    } else {
        None
    }
}

/// Parses `engineer-<n>` into a member id; any other shape is `None`.
pub fn parse_engineer_id(s: &str) -> (r: Option<MemberId>)
    ensures
        r == engineer_id_spec(s@),
{
    let v = chars_of(s);
    match strip_prefix_lit(&v, "engineer-") {
        Some(rest) => match parse_u32_chars(&rest) {
            Some(n) => Some(MemberId::engineer(n)),
            None => None,
        },
        None => None,
    }
}

/// Parses a singleton label into its member id.
pub fn singleton_id_for_label(label: &str) -> (r: Option<MemberId>)
    ensures
        r == singleton_id_spec(label@),
{
    let v = chars_of(label);
    if is_lit(&v, "pm") {
        Some(MemberId::singleton(Role::Pm))
    } else if is_lit(&v, "orchestrator") {
        Some(MemberId::singleton(Role::Orchestrator))
    } else if is_lit(&v, "architect") {
        Some(MemberId::singleton(Role::Architect))
    } else if is_lit(&v, "recon") {
        Some(MemberId::singleton(Role::Recon))
    } else {
        None
    }
}

/// A member id as the TUI creates them: engineers with any instance, the
/// other roles with instance 0.
pub open spec fn canonical(id: MemberId) -> bool {
    id.role == Role::Engineer || id.instance == 0
}

pub(crate) proof fn lemma_decimal_digits(n: nat)
    ensures
        decimal(n).len() >= 1,
        all_digits(decimal(n)),
        digits_value(decimal(n)) == n,
    decreases n,
{
    if n >= 10 {
        lemma_decimal_digits(n / 10);
        let d = decimal(n / 10);
        let c = crate::text::digit_char(n % 10);
        crate::text::lemma_digit_char_is_digit(n % 10);
        assert(decimal(n) == d.push(c));
        assert(d.push(c).drop_last() =~= d);
        assert(d.push(c).last() == c);
        assert(digits_value(d.push(c)) == digits_value(d) * 10 + crate::text::digit_value(c));
        assert((n / 10) * 10 + n % 10 == n);
        assert forall|i: int| 0 <= i < d.push(c).len() implies is_digit(#[trigger] d.push(c)[i]) by {
            if i < d.len() {
                assert(d.push(c)[i] == d[i]);
            }
        }
    } else {
        let s = decimal(n);
        crate::text::lemma_digit_char_is_digit(n);
        assert(s.drop_last() =~= Seq::<char>::empty());
        assert(digits_value(s.drop_last()) == 0);
        assert(s.last() == crate::text::digit_char(n));
        assert(digits_value(s) == digits_value(s.drop_last()) * 10 + crate::text::digit_value(s.last()));
    }
}

/// Parsing the decimal rendering of a number gives the number back.
pub proof fn lemma_parse_decimal(n: u32)
    ensures
        parse_u32(decimal(n as nat)) == Some(n),
{
    lemma_decimal_digits(n as nat);
    let s = decimal(n as nat);
    assert(is_digit(s[0]));
}

/// Labels round-trip: parsing the label of a member gives the member back,
/// through `parse_engineer_id` for engineers and `singleton_id_for_label`
/// for the other roles.
pub proof fn law_label_round_trip(id: MemberId)
    requires
        canonical(id),
    ensures
        id.role == Role::Engineer ==> engineer_id_spec(label_of(id)) == Some(id),
        id.role == Role::Engineer ==> singleton_id_spec(label_of(id)) is None,
        id.role != Role::Engineer ==> singleton_id_spec(label_of(id)) == Some(id),
        id.role != Role::Engineer ==> engineer_id_spec(label_of(id)) is None,
{
    reveal_strlit("engineer-");
    reveal_strlit("engineer");
    reveal_strlit("pm");
    reveal_strlit("orchestrator");
    reveal_strlit("architect");
    reveal_strlit("recon");
    let l = label_of(id);
    if id.role == Role::Engineer {
        lemma_parse_decimal(id.instance);
        let p = "engineer-"@;
        assert(l.subrange(0, p.len() as int) =~= p);
        assert(l.subrange(p.len() as int, l.len() as int) =~= decimal(id.instance as nat));
        assert(l.len() >= 10);
    } else {
        assert(l.len() < 9 || l[8] != '-');
        match id.role {
            Role::Pm => {
                assert(l =~= "pm"@);
            },
            Role::Orchestrator => {
                assert(l =~= "orchestrator"@);
                assert(l != "pm"@);
            },
            Role::Architect => {
                assert(l =~= "architect"@);
                assert(l != "pm"@);
                assert(l != "orchestrator"@);
            },
            Role::Recon => {
                assert(l =~= "recon"@);
                assert(l != "pm"@);
                assert(l != "orchestrator"@);
                assert(l != "architect"@);
            },
            Role::Engineer => {},
        }
    }
}

/// Labels of canonical members determine the member.
pub proof fn law_label_injective(a: MemberId, b: MemberId)
    requires
        canonical(a),
        canonical(b),
        label_of(a) == label_of(b),
    ensures
        a == b,
{
    law_label_round_trip(a);
    law_label_round_trip(b);
}

/// In a well-formed state distinct listed members have distinct labels, so
/// the restart counts, the given-up set and the worktrees, all keyed by
/// label, are kept per member.
pub proof fn law_listed_labels_distinct(a: App, i: int, j: int)
    requires
        a.wf(),
        0 <= i < j < a.members.members@.len(),
    ensures
        label_of(a.members.members@[i]) != label_of(a.members.members@[j]),
{
    let x = a.members.members@[i];
    let y = a.members.members@[j];
    assert(canonical(x) && canonical(y));
    if label_of(x) == label_of(y) {
        law_label_injective(x, y);
    }
}

/// One tick's decision for one member.
#[derive(Debug, Clone, Copy, PartialEq, Eq, Structural)]
pub enum WatchdogAction {
    /// Restart this member; `attempt` is the new restart count (1-based).
    Restart { id: MemberId, attempt: u32 },
    /// Give up on this member after `restarts` failed restarts.
    Escalate { id: MemberId, restarts: u32 },
    /// The member is stale; nothing changes.
    NoteStale(MemberId),
}

/// The watchdog's decision for `id` this tick.
pub open spec fn watchdog_action_for(
    id: MemberId,
    registry: Map<Seq<char>, crate::runtime::HeartbeatRecord>,
    counts: Map<Seq<char>, u32>,
    failed: Set<Seq<char>>,
    max_restarts: u32,
    now_ms: u128,
) -> Option<WatchdogAction> {
    let l = label_of(id);
    if failed.contains(l) {
        None
    } else {
        match liveness_in(registry, l, now_ms) {
            Liveness::Dead => {
                let c = if counts.contains_key(l) { counts[l] } else { 0 };
                if c >= max_restarts {
                    Some(WatchdogAction::Escalate { id, restarts: c })
                } else {
                    Some(WatchdogAction::Restart { id, attempt: (c + 1) as u32 })
                }
            },
            Liveness::Stale => Some(WatchdogAction::NoteStale(id)),
            _ => None,
        }
    }
}

/// The watchdog's decisions for all members, in member order.
pub open spec fn watchdog_actions(
    members: Seq<MemberId>,
    registry: Map<Seq<char>, crate::runtime::HeartbeatRecord>,
    counts: Map<Seq<char>, u32>,
    failed: Set<Seq<char>>,
    max_restarts: u32,
    now_ms: u128,
) -> Seq<WatchdogAction>
    decreases members.len(),
{
    if members.len() == 0 {
        Seq::empty()
    } else {
        let pre = watchdog_actions(members.drop_last(), registry, counts, failed, max_restarts, now_ms);
        match watchdog_action_for(members.last(), registry, counts, failed, max_restarts, now_ms) {
            Some(a) => pre.push(a),
            None => pre,
        }
    }
}

/// Watchdog policy for one tick: restart dead members under the restart
/// cap, escalate dead members at the cap, note stale members; members
/// already given up on, live members and members without telemetry get no
/// action. `restart_counts` and `failed_agents` are keyed by member label.
pub fn decide_watchdog_actions(
    members: &[MemberId],
    registry: &AgentRegistry,
    restart_counts: &StringHashMap<u32>,
    failed_agents: &StringHashSet,
    max_restarts: u32,
    now_ms: u128,
) -> (out: Vec<WatchdogAction>)
    ensures
        out@ == watchdog_actions(
            members@,
            registry@,
            restart_counts@,
            failed_agents@,
            max_restarts,
            now_ms,
        ),
{
    let mut out: Vec<WatchdogAction> = Vec::new();
    let mut i: usize = 0;
    while i < members.len()
        invariant
            i <= members@.len(),
            out@ == watchdog_actions(
                members@.take(i as int),
                registry@,
                restart_counts@,
                failed_agents@,
                max_restarts,
                now_ms,
            ),
        decreases members@.len() - i,
    {
        proof {
            assert(members@.take(i + 1).drop_last() =~= members@.take(i as int));
            assert(members@.take(i + 1).last() == members@[i as int]);
        }
        let id = members[i];
        let label = id.label();
        if !failed_agents.contains(label.as_str()) {
            match registry.liveness_for(label.as_str(), now_ms) {
                Liveness::Dead => {
                    let count: u32 = match restart_counts.get(label.as_str()) {
                        Some(c) => *c,
                        None => 0,
                    };
                    if count >= max_restarts {
                        out.push(WatchdogAction::Escalate { id, restarts: count });
                    } else {
                        out.push(WatchdogAction::Restart { id, attempt: count + 1 });
                    }
                },
                Liveness::Stale => {
                    out.push(WatchdogAction::NoteStale(id));
                },
                _ => {},
            }
        }
        i = i + 1;
    }
    assert(members@.take(members@.len() as int) =~= members@);
    out
}

/// The member an action is about.
pub open spec fn action_member(a: WatchdogAction) -> MemberId {
    match a {
        WatchdogAction::Restart { id, .. } => id,
        WatchdogAction::Escalate { id, .. } => id,
        WatchdogAction::NoteStale(id) => id,
    }
}

/// Every action concerns a listed member that has not been given up on;
/// restarts stay within the cap and escalations happen only at it.
pub proof fn law_watchdog_respects_failures_and_cap(
    members: Seq<MemberId>,
    registry: Map<Seq<char>, crate::runtime::HeartbeatRecord>,
    counts: Map<Seq<char>, u32>,
    failed: Set<Seq<char>>,
    max_restarts: u32,
    now_ms: u128,
    k: int,
)
    requires
        0 <= k < watchdog_actions(members, registry, counts, failed, max_restarts, now_ms).len(),
    ensures
        ({
            let a = watchdog_actions(members, registry, counts, failed, max_restarts, now_ms)[k];
            &&& members.contains(action_member(a))
            &&& !failed.contains(label_of(action_member(a)))
            &&& (a matches WatchdogAction::Restart { attempt, .. } ==> 1 <= attempt <= max_restarts)
            &&& (a matches WatchdogAction::Escalate { restarts, .. } ==> restarts >= max_restarts)
            &&& (a matches WatchdogAction::NoteStale(id) ==> liveness_in(registry, label_of(id), now_ms)
                == Liveness::Stale)
            &&& (!(a is NoteStale) ==> liveness_in(registry, label_of(action_member(a)), now_ms)
                == Liveness::Dead)
        }),
    decreases members.len(),
{
    let pre = watchdog_actions(members.drop_last(), registry, counts, failed, max_restarts, now_ms);
    if k < pre.len() {
        law_watchdog_respects_failures_and_cap(
            members.drop_last(),
            registry,
            counts,
            failed,
            max_restarts,
            now_ms,
            k,
        );
        let a = pre[k];
        let j = choose|j: int| 0 <= j < members.drop_last().len() && members.drop_last()[j] == action_member(a);
        assert(members[j] == members.drop_last()[j]);
    } else {
        assert(members[members.len() - 1] == members.last());
    }
}


// ---------------------------------------------------------------------------
// The application state machine
// ---------------------------------------------------------------------------

/// Work the state machine hands to the caller, in order.
#[derive(Debug, Clone, PartialEq, Eq)]
pub enum Effect {
    /// Queue this event for a later turn of the loop.
    Send(Event),
    /// Write the terminal encoding of this key (see
    /// [`crate::panes::key_to_bytes::encode`]) to the active surface's
    /// terminal, if it has one and the encoding is not empty.
    WriteKey(Key),
    /// Bind a terminal to the workspace at this path: resize the one it
    /// has, or spawn one there with the configured startup command.
    OpenWorkspaceTerminal(String),
    /// Resize this surface's terminal, if it has one, to the last size.
    ResizeTerminal(Surface),
    /// Shut down and drop this surface's terminal, if it has one.
    CloseTerminal(Surface),
    /// Start member `id`'s terminal in `cwd`, as [`App::launch_plan`] says.
    Launch { id: MemberId, cwd: String },
    /// Create a worktree on `branch` in `repo` for the new engineer `id`;
    /// on success, launch it there (with `request_id` in its environment),
    /// report it with [`App::engineer_launched`], and refresh the worktree
    /// list.
    CreateEngineer { id: MemberId, repo: String, branch: String, request_id: String },
    /// `git worktree remove` the worktree at `path` of `root`, then refresh
    /// the worktree list.
    RemoveWorktree { root: String, path: String },
    /// `git worktree add` a worktree on `branch` of `root`, then refresh the
    /// worktree list.
    AddWorktree { root: String, branch: String },
    /// Recompute the diff, the pull request and the worktrees of this path
    /// and report them as events.
    RefreshGit(String),
    /// Feed this key to the text field of the new-worktree dialog.
    EditModalInput(Key),
    /// Empty the text field of the new-worktree dialog.
    ResetModalInput,
}

pub struct App {
    pub focus: PaneId,
    pub input_mode: InputMode,
    pub members: MembersPane,
    pub workspaces: WorkspacesPane,
    pub git_status: GitStatusPane,
    pub status: StatusPane,
    pub right_view: RightView,
    pub agent_registry: AgentRegistry,
    pub beads: Vec<Bead>,
    /// Per-session id, handed to every PTY.
    pub session_id: String,
    /// `PATH` of every member PTY (the shim directory first).
    pub agent_path: String,
    /// The agent CLI that members run.
    pub cli: AgentCli,
    /// Whether the agent CLI was found at boot.
    pub cli_available: bool,
    /// Most engineer PTYs at once.
    pub max_engineers: usize,
    /// Spawn requests received at capacity, oldest first.
    pub spawn_queue: Vec<SpawnRequest>,
    /// Worktree of each engineer, by member label.
    pub engineer_worktrees: StringHashMap<String>,
    /// Restarts taken so far, by member label.
    pub restart_counts: StringHashMap<u32>,
    /// Labels of the members the watchdog gave up on.
    pub failed_agents: StringHashSet,
    /// Restarts per member before giving up.
    pub max_restarts: u32,
    pub show_help: bool,
    pub should_quit: bool,
    /// A worktree removal awaiting confirmation: its path and name.
    pub pending_delete: Option<(String, String)>,
    /// The surface bound to the terminal pane.
    pub active_surface: Surface,
    /// The most recently active workspace; git work runs against it.
    pub last_workspace_path: String,
    /// Rows and columns of the terminal pane.
    pub last_term_size: (u16, u16),
    pub layout: PaneLayout,
    /// Command typed into each new workspace terminal.
    pub startup_cmd: Option<String>,
    pub keymap: Keymap,
}

/// The singleton members that get a terminal at boot, in order.
pub open spec fn boot_members_spec() -> Seq<MemberId> {
    seq![
        MemberId { role: Role::Pm, instance: 0 },
        MemberId { role: Role::Orchestrator, instance: 0 },
        MemberId { role: Role::Architect, instance: 0 },
        MemberId { role: Role::Recon, instance: 0 },
    ]
}

/// The smallest instance number from `n` on that `used` does not hold;
/// `u32::MAX` when none below it is free.
pub open spec fn first_free_from(used: Seq<u32>, n: nat) -> u32
    decreases u32::MAX - n,
{
    if n >= u32::MAX {
        u32::MAX
    } else if !used.contains(n as u32) {
        n as u32
    } else {
        first_free_from(used, n + 1)
    }
}

/// The instance number a new engineer gets: the smallest one from 1 up
/// that no listed engineer has.
pub open spec fn next_instance_spec(members: Seq<MemberId>) -> u32 {
    first_free_from(engineer_instances_of(members), 1)
}

/// How many engineers are listed.
pub open spec fn live_count(members: Seq<MemberId>) -> nat {
    engineer_instances_of(members).len()
}

/// The environment every member PTY starts from: `PATH`, and the spawn
/// request's id when there is one.
pub open spec fn base_env_spec(agent_path: Seq<char>, request_id: Option<Seq<char>>) -> Seq<(Seq<char>, Seq<char>)> {
    let base = seq![("PATH"@, agent_path)];
    match request_id {
        Some(rid) => base.push(("FELLOWSHIP_SPAWN_REQUEST_ID"@, rid)),
        None => base,
    }
}

/// The fields that only boot sets.
pub open spec fn same_config(a: App, b: App) -> bool {
    &&& b.session_id == a.session_id
    &&& b.agent_path == a.agent_path
    &&& b.cli == a.cli
    &&& b.cli_available == a.cli_available
    &&& b.max_engineers == a.max_engineers
    &&& b.max_restarts == a.max_restarts
    &&& b.layout == a.layout
    &&& b.startup_cmd == a.startup_cmd
    &&& b.keymap == a.keymap
}

/// The agent-team bookkeeping.
pub open spec fn same_agents(a: App, b: App) -> bool {
    &&& b.agent_registry == a.agent_registry
    &&& b.spawn_queue == a.spawn_queue
    &&& b.engineer_worktrees == a.engineer_worktrees
    &&& b.restart_counts == a.restart_counts
    &&& b.failed_agents == a.failed_agents
}

/// Input modes, focus and flags.
pub open spec fn same_modes(a: App, b: App) -> bool {
    &&& b.focus == a.focus
    &&& b.input_mode == a.input_mode
    &&& b.show_help == a.show_help
    &&& b.should_quit == a.should_quit
    &&& b.pending_delete == a.pending_delete
    &&& b.right_view == a.right_view
}

/// The panes.
pub open spec fn same_panes(a: App, b: App) -> bool {
    &&& b.members == a.members
    &&& b.workspaces == a.workspaces
    &&& b.git_status == a.git_status
    &&& b.status == a.status
}

/// Where the terminal is bound and how large it is.
pub open spec fn same_place(a: App, b: App) -> bool {
    &&& b.active_surface == a.active_surface
    &&& b.last_workspace_path == a.last_workspace_path
    &&& b.last_term_size == a.last_term_size
}

/// Nothing changed.
pub open spec fn same_app(a: App, b: App) -> bool {
    &&& same_config(a, b)
    &&& same_agents(a, b)
    &&& same_modes(a, b)
    &&& same_panes(a, b)
    &&& same_place(a, b)
    &&& b.beads == a.beads
}

fn add_base_pair(env: &mut Vec<(String, String)>, k: &str, v: &str)
    ensures
        crate::agents::spawn::pair_views(final(env)@) == crate::agents::spawn::pair_views(old(env)@).push((k@, v@)),
{
    let ghost before = crate::agents::spawn::pair_views(env@);
    env.push((String::from_str(k), String::from_str(v)));
    assert(crate::agents::spawn::pair_views(env@) =~= before.push((k@, v@)));
}

impl App {
    /// The members list has no duplicates and a valid selection, every
    /// member is one the TUI makes (so its label names it alone, and the
    /// label-keyed bookkeeping is per member), and every heartbeat is filed
    /// under its agent id.
    pub open spec fn wf(&self) -> bool {
        &&& self.members.wf()
        &&& forall|i: int| 0 <= i < self.members.members@.len() ==> canonical(#[trigger] self.members.members@[i])
        &&& self.agent_registry.wf()
    }

    /// The state at boot, in the workspace `root_path`. With the agent CLI
    /// available the terminal starts on the PM; otherwise on the workspace.
    pub fn new(
        root_path: String,
        session_id: String,
        agent_path: String,
        cli: AgentCli,
        cli_available: bool,
        term_size: (u16, u16),
        startup_cmd: Option<String>,
    ) -> (r: Self)
        ensures
            r.wf(),
            r.focus == PaneId::Terminal,
            r.input_mode@ == ModeView::Normal,
            r.members.members@ == seq![
                MemberId { role: Role::Pm, instance: 0 },
                MemberId { role: Role::Architect, instance: 0 },
                MemberId { role: Role::Recon, instance: 0 },
            ],
            r.members.selected == 0,
            r.members.active == (if cli_available {
                Some(MemberId { role: Role::Pm, instance: 0 })
            } else {
                None
            }),
            r.workspaces.root_path == root_path,
            r.workspaces.worktrees@.len() == 0,
            r.workspaces.selected == 0,
            !r.workspaces.modal_open,
            r.git_status.root_path == root_path,
            r.git_status.diff.files@.len() == 0,
            r.git_status.diff.insertions == 0,
            r.git_status.diff.deletions == 0,
            r.git_status.pr_info is None,
            r.status.sub_view == SubView::Beads,
            r.status.journal_tail@.len() == 0,
            r.status.journal_filter is None,
            r.right_view == RightView::Git,
            r.agent_registry@ == Map::<Seq<char>, HeartbeatRecord>::empty(),
            r.beads@.len() == 0,
            r.session_id == session_id,
            r.agent_path == agent_path,
            r.cli == cli,
            r.cli_available == cli_available,
            r.max_engineers == 4,
            r.spawn_queue@.len() == 0,
            r.engineer_worktrees@ == Map::<Seq<char>, String>::empty(),
            r.restart_counts@ == Map::<Seq<char>, u32>::empty(),
            r.failed_agents@ == Set::<Seq<char>>::empty(),
            r.max_restarts == 3,
            !r.show_help,
            !r.should_quit,
            r.pending_delete is None,
            r.active_surface == (if cli_available {
                Surface::Member(MemberId { role: Role::Pm, instance: 0 })
            } else {
                Surface::Workspace(root_path)
            }),
            r.last_workspace_path == root_path,
            r.last_term_size == term_size,
            r.layout.slots@ == seq![
                Slot { pane: PaneId::Workspaces, col: 0, row: 0 },
                Slot { pane: PaneId::Terminal, col: 1, row: 0 },
                Slot { pane: PaneId::GitStatus, col: 2, row: 0 },
            ],
            r.startup_cmd == startup_cmd,
            binding_views(r.keymap.bindings@) == default_bindings_spec(),
    {
        let mut members = MembersPane::new();
        let active_surface = if cli_available {
            let pm = MemberId::singleton(Role::Pm);
            members.set_active_member(Some(pm));
            Surface::Member(pm)
        } else {
            Surface::Workspace(root_path.clone())
        };
        App {
            focus: PaneId::Terminal,
            input_mode: InputMode::Normal,
            members,
            workspaces: WorkspacesPane::new(root_path.clone()),
            git_status: GitStatusPane::new(root_path.clone()),
            status: StatusPane::new(),
            right_view: RightView::Git,
            agent_registry: AgentRegistry::new(),
            beads: Vec::new(),
            session_id,
            agent_path,
            cli,
            cli_available,
            max_engineers: 4,
            spawn_queue: Vec::new(),
            engineer_worktrees: StringHashMap::new(),
            restart_counts: StringHashMap::new(),
            failed_agents: StringHashSet::new(),
            max_restarts: 3,
            show_help: false,
            should_quit: false,
            pending_delete: None,
            active_surface,
            last_workspace_path: root_path,
            last_term_size: term_size,
            layout: PaneLayout::default_horizontal(),
            startup_cmd,
            keymap: Keymap::new(default_bindings()),
        }
    }

    /// The singleton members that get a terminal at boot: PM, Orchestrator,
    /// Architect and Recon.
    pub fn boot_members() -> (r: Vec<MemberId>)
        ensures
            r@ == boot_members_spec(),
    {
        let mut v: Vec<MemberId> = Vec::new();
        v.push(MemberId::singleton(Role::Pm));
        v.push(MemberId::singleton(Role::Orchestrator));
        v.push(MemberId::singleton(Role::Architect));
        v.push(MemberId::singleton(Role::Recon));
        assert(v@ =~= boot_members_spec());
        v
    }

    /// What to run in member `id`'s terminal, and the environment it starts
    /// from (the action's own environment goes on top of it).
    pub fn launch_plan(&self, id: MemberId, request_id: Option<String>) -> (r: (SpawnAction, Vec<(String, String)>))
        ensures
            plan_post(id.role, label_of(id), self.cli, self.cli_available, r.0),
            crate::agents::spawn::pair_views(r.1@) == base_env_spec(self.agent_path@, crate::text::opt_seq(request_id)),
    {
        let label = id.label();
        let action = plan_for(id.role, label.as_str(), &self.cli, self.cli_available);
        let mut env: Vec<(String, String)> = Vec::new();
        add_base_pair(&mut env, "PATH", self.agent_path.as_str());
        match &request_id {
            Some(rid) => add_base_pair(&mut env, "FELLOWSHIP_SPAWN_REQUEST_ID", rid.as_str()),
            None => {},
        }
        assert(crate::agents::spawn::pair_views(env@) =~= base_env_spec(
            self.agent_path@,
            crate::text::opt_seq(request_id),
        ));
        (action, env)
    }

    /// Smallest engineer instance number not in use, starting at 1.
    pub fn next_engineer_instance(&self) -> (r: u32)
        ensures
            r == next_instance_spec(self.members.members@),
    {
        let used = self.members.engineer_instances();
        let mut n: u32 = 1;
        loop
            invariant
                1 <= n,
                used@ == engineer_instances_of(self.members.members@),
                first_free_from(used@, n as nat) == first_free_from(used@, 1),
            decreases u32::MAX - n,
        {
            if n == u32::MAX {
                return n;
            }
            let mut found = false;
            let mut i: usize = 0;
            while i < used.len()
                invariant
                    i <= used@.len(),
                    found == (exists|j: int| 0 <= j < i && used@[j] == n),
                decreases used@.len() - i,
            {
                if used[i] == n {
                    found = true;
                }
                i = i + 1;
            }
            if !found {
                assert(!used@.contains(n));
                return n;
            }
            assert(used@.contains(n));
            n = n + 1;
        }
    }

    /// How many engineers are listed.
    pub fn live_engineer_count(&self) -> (r: usize)
        ensures
            r == live_count(self.members.members@),
    {
        self.members.engineer_instances().len()
    }

    /// Records that engineer `id` runs in `worktree`.
    pub fn engineer_launched(&mut self, id: MemberId, worktree: String)
        requires
            old(self).wf(),
            canonical(id),
        ensures
            final(self).wf(),
            final(self).members.members@ == (if old(self).members.members@.contains(id) {
                old(self).members.members@
            } else {
                old(self).members.members@.push(id)
            }),
            final(self).members.selected == old(self).members.selected,
            final(self).members.active == old(self).members.active,
            final(self).engineer_worktrees@ == old(self).engineer_worktrees@.insert(label_of(id), worktree),
            same_config(*old(self), *final(self)),
            same_modes(*old(self), *final(self)),
            same_place(*old(self), *final(self)),
            final(self).agent_registry == old(self).agent_registry,
            final(self).spawn_queue == old(self).spawn_queue,
            final(self).restart_counts == old(self).restart_counts,
            final(self).failed_agents == old(self).failed_agents,
            final(self).workspaces == old(self).workspaces,
            final(self).git_status == old(self).git_status,
            final(self).status == old(self).status,
            final(self).beads == old(self).beads,
    {
        self.members.add_member(id);
        let label = id.label();
        self.engineer_worktrees.insert(label, worktree);
    }

    /// Records the terminal pane's new size; the active terminal follows.
    pub fn resize_terminal(&mut self, rows: u16, cols: u16) -> (r: Effect)
        ensures
            final(self).last_term_size == (rows, cols),
            r == Effect::ResizeTerminal(old(self).active_surface),
            final(self).active_surface == old(self).active_surface,
            final(self).last_workspace_path == old(self).last_workspace_path,
            same_config(*old(self), *final(self)),
            same_agents(*old(self), *final(self)),
            same_modes(*old(self), *final(self)),
            same_panes(*old(self), *final(self)),
            final(self).beads == old(self).beads,
    {
        self.last_term_size = (rows, cols);
        Effect::ResizeTerminal(self.active_surface.copied())
    }
}


/// Whether `key` confirms a pending worktree removal (`y`, `Y`, Enter).
pub open spec fn confirms_delete(key: Key) -> bool {
    key.code == KeyCode::Char('y') || key.code == KeyCode::Char('Y') || key.code == KeyCode::Enter
}

/// Whether `key` cancels a pending worktree removal (`n`, `N`, Esc).
pub open spec fn cancels_delete(key: Key) -> bool {
    key.code == KeyCode::Char('n') || key.code == KeyCode::Char('N') || key.code == KeyCode::Esc
}

/// The keymap's step for `key` in `a`'s input mode: the next mode and the
/// action.
pub open spec fn key_step(a: App, key: Key) -> (ModeView, ActionView) {
    handle_spec(binding_views(a.keymap.bindings@), a.input_mode@, key)
}

/// The pane after `p` in the cycling order Members, Workspaces, Terminal,
/// GitStatus.
pub open spec fn next_pane(p: PaneId) -> PaneId {
    match p {
        PaneId::Members => PaneId::Workspaces,
        PaneId::Workspaces => PaneId::Terminal,
        PaneId::Terminal => PaneId::GitStatus,
        PaneId::GitStatus => PaneId::Members,
    }
}

/// The focus after `act`.
pub open spec fn focus_after(a: App, act: ActionView) -> PaneId {
    match act {
        ActionView::FocusPane(p) => p,
        ActionView::FocusDir(d) => match neighbor_spec(a.layout.slots@, a.focus, d) {
            Some(t) => t,
            None => a.focus,
        },
        ActionView::CyclePane => next_pane(a.focus),
        _ => a.focus,
    }
}

/// Whether a command line asks to quit (`q` or `quit`, spaces aside).
pub open spec fn is_quit_command(cmd: Seq<char>) -> bool {
    trim(cmd) == "q"@ || trim(cmd) == "quit"@
}

/// Whether the application is to quit after `act`.
pub open spec fn quit_after(a: App, act: ActionView) -> bool {
    a.should_quit || act == ActionView::Quit || (act matches ActionView::ExecuteCommand(c)
        && is_quit_command(c))
}

/// Whether `key` goes to the pane `p` (the keymap passed it through and `p`
/// has the focus).
pub open spec fn key_reaches(a: App, act: ActionView, p: PaneId) -> bool {
    act == ActionView::PassThrough && a.focus == p
}

/// Whether `key` goes to the status view of the right column.
pub open spec fn key_reaches_status(a: App, act: ActionView) -> bool {
    key_reaches(a, act, PaneId::GitStatus) && a.right_view == RightView::Status
}

/// The effects of the workspaces pane's reaction to `key`.
pub open spec fn workspace_key_effects(a: App, key: Key, modal_value: String) -> Seq<Effect> {
    let base = match ws_outcome(a.workspaces, key, modal_value) {
        WorkspaceKeyOutcome::Nothing => Seq::empty(),
        WorkspaceKeyOutcome::Event(e) => seq![Effect::Send(e)],
        WorkspaceKeyOutcome::EditInput => seq![Effect::EditModalInput(key)],
    };
    if ws_modal_after(a.workspaces, key) != a.workspaces.modal_open {
        base.push(Effect::ResetModalInput)
    } else {
        base
    }
}

/// The effects of a key that the keymap passed through to the focused pane.
pub open spec fn pass_through_effects(a: App, key: Key, modal_value: String) -> Seq<Effect> {
    match a.focus {
        PaneId::Terminal => seq![Effect::WriteKey(key)],
        PaneId::Workspaces => workspace_key_effects(a, key, modal_value),
        PaneId::GitStatus => Seq::empty(),
        PaneId::Members => match members_event(a.members.members@, a.members.selected, key) {
            Some(e) => seq![Effect::Send(e)],
            None => Seq::empty(),
        },
    }
}

/// The effects of the keymap action `act`.
pub open spec fn action_effects(a: App, act: ActionView, key: Key, modal_value: String) -> Seq<Effect> {
    match act {
        ActionView::SwitchWorktree(i) => if i < a.workspaces.worktrees@.len() {
            seq![Effect::Send(Event::SwitchWorkspace(a.workspaces.worktrees@[i as int].path))]
        } else {
            Seq::empty()
        },
        ActionView::SendLiteralPrefix => if a.focus == PaneId::Terminal {
            seq![Effect::WriteKey(prefix_key_spec())]
        } else {
            Seq::empty()
        },
        ActionView::PassThrough => pass_through_effects(a, key, modal_value),
        _ => Seq::empty(),
    }
}

/// Everything that key handling leaves alone.
pub open spec fn same_background(a: App, b: App) -> bool {
    &&& same_config(a, b)
    &&& same_agents(a, b)
    &&& same_place(a, b)
    &&& b.right_view == a.right_view
    &&& b.git_status == a.git_status
    &&& b.beads == a.beads
}

/// What a key press does. While a worktree removal awaits confirmation,
/// the key only confirms or cancels it. Otherwise the keymap turns it into
/// an action: focus moves, quitting, the help overlay, a worktree switch, a
/// literal prefix for the terminal, or the key passes through to the
/// focused pane.
pub open spec fn key_post(a: App, b: App, key: Key, modal_value: String, r: Seq<Effect>) -> bool {
    if a.pending_delete is Some {
        &&& b.pending_delete == (if confirms_delete(key) || cancels_delete(key) {
            None
        } else {
            a.pending_delete
        })
        &&& r == (match a.pending_delete {
            Some((path, _name)) if confirms_delete(key) => seq![Effect::Send(Event::DeleteWorktree(path))],
            _ => Seq::empty(),
        })
        &&& b.focus == a.focus
        &&& b.input_mode == a.input_mode
        &&& b.show_help == a.show_help
        &&& b.should_quit == a.should_quit
        &&& same_panes(a, b)
        &&& same_background(a, b)
    } else {
        let (m, act) = key_step(a, key);
        &&& b.input_mode@ == m
        &&& b.pending_delete is None
        &&& b.focus == focus_after(a, act)
        &&& b.should_quit == quit_after(a, act)
        &&& b.show_help == (if act == ActionView::ToggleHelp {
            !a.show_help
        } else {
            a.show_help
        })
        &&& b.members.members == a.members.members
        &&& b.members.active == a.members.active
        &&& b.members.selected == (if key_reaches(a, act, PaneId::Members) {
            members_selected_after(a.members.members@, a.members.selected, key)
        } else {
            a.members.selected
        })
        &&& b.workspaces.worktrees == a.workspaces.worktrees
        &&& b.workspaces.root_path == a.workspaces.root_path
        &&& b.workspaces.selected == (if key_reaches(a, act, PaneId::Workspaces) {
            ws_selected_after(a.workspaces, key)
        } else {
            a.workspaces.selected
        })
        &&& b.workspaces.modal_open == (if key_reaches(a, act, PaneId::Workspaces) {
            ws_modal_after(a.workspaces, key)
        } else {
            a.workspaces.modal_open
        })
        &&& b.status.journal_tail == a.status.journal_tail
        &&& b.status.sub_view == (if key_reaches_status(a, act) {
            status_view_after(a.status, key)
        } else {
            a.status.sub_view
        })
        &&& b.status.journal_filter == (if key_reaches_status(a, act) {
            status_filter_after(a.status, key)
        } else {
            a.status.journal_filter
        })
        &&& r == action_effects(a, act, key, modal_value)
        &&& same_background(a, b)
    }
}

fn is_quit_text(cmd: &str) -> (r: bool)
    ensures
        r == is_quit_command(cmd@),
{
    let t = trim_chars(&chars_of(cmd));
    is_lit(&t, "q") || is_lit(&t, "quit")
}

impl App {
    /// Sends a key that the keymap passed through to the focused pane.
    fn dispatch_key_to_focused_pane(&mut self, key: Key, modal_value: String) -> (r: Vec<Effect>)
        requires
            old(self).wf(),
        ensures
            final(self).wf(),
            r@ == pass_through_effects(*old(self), key, modal_value),
            final(self).members.members == old(self).members.members,
            final(self).members.active == old(self).members.active,
            final(self).members.selected == (if old(self).focus == PaneId::Members {
                members_selected_after(old(self).members.members@, old(self).members.selected, key)
            } else {
                old(self).members.selected
            }),
            final(self).workspaces.worktrees == old(self).workspaces.worktrees,
            final(self).workspaces.root_path == old(self).workspaces.root_path,
            final(self).workspaces.selected == (if old(self).focus == PaneId::Workspaces {
                ws_selected_after(old(self).workspaces, key)
            } else {
                old(self).workspaces.selected
            }),
            final(self).workspaces.modal_open == (if old(self).focus == PaneId::Workspaces {
                ws_modal_after(old(self).workspaces, key)
            } else {
                old(self).workspaces.modal_open
            }),
            final(self).status.journal_tail == old(self).status.journal_tail,
            final(self).status.sub_view == (if old(self).focus == PaneId::GitStatus && old(self).right_view
                == RightView::Status {
                status_view_after(old(self).status, key)
            } else {
                old(self).status.sub_view
            }),
            final(self).status.journal_filter == (if old(self).focus == PaneId::GitStatus
                && old(self).right_view == RightView::Status {
                status_filter_after(old(self).status, key)
            } else {
                old(self).status.journal_filter
            }),
            same_modes(*old(self), *final(self)),
            same_background(*old(self), *final(self)),
    {
        let mut out: Vec<Effect> = Vec::new();
        match self.focus {
            PaneId::Terminal => {
                out.push(Effect::WriteKey(key));
            },
            PaneId::Workspaces => {
                let was_open = self.workspaces.modal_open;
                let outcome = self.workspaces.handle_key(key, modal_value);
                match outcome {
                    WorkspaceKeyOutcome::Nothing => {},
                    WorkspaceKeyOutcome::Event(e) => {
                        out.push(Effect::Send(e));
                    },
                    WorkspaceKeyOutcome::EditInput => {
                        out.push(Effect::EditModalInput(key));
                    },
                }
                if self.workspaces.modal_open != was_open {
                    out.push(Effect::ResetModalInput);
                }
            },
            PaneId::GitStatus => {
                match self.right_view {
                    RightView::Git => {},
                    RightView::Status => {
                        self.status.handle_key(key);
                    },
                }
            },
            PaneId::Members => {
                match self.members.handle_key(key) {
                    Some(e) => {
                        out.push(Effect::Send(e));
                    },
                    None => {},
                }
            },
        }
        proof {
            assert(out@ =~= pass_through_effects(*old(self), key, modal_value));
        }
        out
    }

    /// Reacts to a key press; `modal_value` is the text of the new-worktree
    /// dialog's field.
    pub fn handle_key(&mut self, key: Key, modal_value: String) -> (r: Vec<Effect>)
        requires
            old(self).wf(),
        ensures
            final(self).wf(),
            key_post(*old(self), *final(self), key, modal_value, r@),
    {
        let mut out: Vec<Effect> = Vec::new();
        if self.pending_delete.is_some() {
            if key.code == KeyCode::Char('y') || key.code == KeyCode::Char('Y') || key.code == KeyCode::Enter {
                let pending = match &self.pending_delete {
                    Some(pd) => pd.0.clone(),
                    None => String::new(),
                };
                self.pending_delete = None;
                out.push(Effect::Send(Event::DeleteWorktree(pending)));
            } else if key.code == KeyCode::Char('n') || key.code == KeyCode::Char('N') || key.code
                == KeyCode::Esc {
                self.pending_delete = None;
            }
            return out;
        }
        let focus = self.focus;
        let action = self.keymap.handle(&mut self.input_mode, key, focus);
        match action {
            Action::FocusPane(p) => {
                self.focus = p;
            },
            Action::FocusDir(d) => {
                match self.layout.neighbor(self.focus, d) {
                    Some(t) => {
                        self.focus = t;
                    },
                    None => {},
                }
            },
            Action::SwitchWorktree(i) => {
                if i < self.workspaces.worktrees.len() {
                    let path = self.workspaces.worktrees[i].path.clone();
                    out.push(Effect::Send(Event::SwitchWorkspace(path)));
                }
            },
            Action::Quit => {
                self.should_quit = true;
            },
            Action::CyclePane => {
                self.focus = match self.focus {
                    PaneId::Members => PaneId::Workspaces,
                    PaneId::Workspaces => PaneId::Terminal,
                    PaneId::Terminal => PaneId::GitStatus,
                    PaneId::GitStatus => PaneId::Members,
                };
            },
            Action::ToggleHelp => {
                self.show_help = !self.show_help;
            },
            Action::EnterCommandMode => {},
            Action::ExecuteCommand(cmd) => {
                if is_quit_text(cmd.as_str()) {
                    self.should_quit = true;
                }
            },
            Action::SendLiteralPrefix => {
                if self.focus == PaneId::Terminal {
                    out.push(Effect::WriteKey(prefix_key()));
                }
            },
            Action::PassThrough => {
                out = self.dispatch_key_to_focused_pane(key, modal_value);
            },
            Action::Consume => {},
        }
        proof {
            assert(out@ =~= action_effects(*old(self), action@, key, modal_value));
        }
        out
    }
}


/// Restart counts after the watchdog records each restart in `acts`.
pub open spec fn counts_after(counts: Map<Seq<char>, u32>, acts: Seq<WatchdogAction>) -> Map<Seq<char>, u32>
    decreases acts.len(),
{
    if acts.len() == 0 {
        counts
    } else {
        let pre = counts_after(counts, acts.drop_last());
        match acts.last() {
            WatchdogAction::Restart { id, attempt } => pre.insert(label_of(id), attempt),
            _ => pre,
        }
    }
}

/// The given-up set after the escalations in `acts`.
pub open spec fn failed_after(failed: Set<Seq<char>>, acts: Seq<WatchdogAction>) -> Set<Seq<char>>
    decreases acts.len(),
{
    if acts.len() == 0 {
        failed
    } else {
        let pre = failed_after(failed, acts.drop_last());
        match acts.last() {
            WatchdogAction::Escalate { id, .. } => pre.insert(label_of(id)),
            _ => pre,
        }
    }
}

/// The heartbeat records after the restarts in `acts` (a restarted member
/// has no telemetry until it writes again).
pub open spec fn registry_after(
    reg: Map<Seq<char>, HeartbeatRecord>,
    acts: Seq<WatchdogAction>,
) -> Map<Seq<char>, HeartbeatRecord>
    decreases acts.len(),
{
    if acts.len() == 0 {
        reg
    } else {
        let pre = registry_after(reg, acts.drop_last());
        match acts.last() {
            WatchdogAction::Restart { id, .. } => pre.remove(label_of(id)),
            _ => pre,
        }
    }
}

/// Where member `id` restarts: an engineer in its recorded worktree (none
/// recorded: no restart), every other member in the current workspace.
pub open spec fn restart_cwd(a: App, id: MemberId) -> Option<String> {
    if id.role == Role::Engineer {
        if a.engineer_worktrees@.contains_key(label_of(id)) {
            Some(a.engineer_worktrees@[label_of(id)])
        } else {
            None
        }
    } else {
        Some(a.last_workspace_path)
    }
}

/// The effects of restarting `id`: its terminal goes, and a new one starts
/// where it runs.
pub open spec fn restart_effects(a: App, id: MemberId) -> Seq<Effect> {
    let close = seq![Effect::CloseTerminal(Surface::Member(id))];
    match restart_cwd(a, id) {
        Some(cwd) => close.push(Effect::Launch { id, cwd }),
        None => close,
    }
}

/// The effects of the watchdog's actions, in order.
pub open spec fn watchdog_effects(a: App, acts: Seq<WatchdogAction>) -> Seq<Effect>
    decreases acts.len(),
{
    if acts.len() == 0 {
        Seq::empty()
    } else {
        let pre = watchdog_effects(a, acts.drop_last());
        match acts.last() {
            WatchdogAction::Restart { id, .. } => pre + restart_effects(a, id),
            _ => pre,
        }
    }
}

/// The watchdog's actions for `a` at `now_ms`.
pub open spec fn app_watchdog_actions(a: App, now_ms: u128) -> Seq<WatchdogAction> {
    watchdog_actions(
        a.members.members@,
        a.agent_registry@,
        a.restart_counts@,
        a.failed_agents@,
        a.max_restarts,
        now_ms,
    )
}

/// What one watchdog pass at `now_ms` does: each restart is counted and
/// clears the member's heartbeat, each escalation marks the member as given
/// up on.
pub open spec fn watchdog_post(a: App, b: App, now_ms: u128, r: Seq<Effect>) -> bool {
    let acts = app_watchdog_actions(a, now_ms);
    &&& b.restart_counts@ == counts_after(a.restart_counts@, acts)
    &&& b.failed_agents@ == failed_after(a.failed_agents@, acts)
    &&& b.agent_registry@ == registry_after(a.agent_registry@, acts)
    &&& r == watchdog_effects(a, acts)
    &&& b.spawn_queue == a.spawn_queue
    &&& b.engineer_worktrees == a.engineer_worktrees
    &&& same_config(a, b)
    &&& same_modes(a, b)
    &&& same_panes(a, b)
    &&& same_place(a, b)
    &&& b.beads == a.beads
}

/// The effect of serving a spawn request: a new engineer with the next free
/// instance number on the requested branch in `repo`; nothing without a
/// branch.
pub open spec fn spawn_effects(members: Seq<MemberId>, repo: String, req: SpawnRequest) -> Seq<Effect> {
    match req.branch {
        None => Seq::empty(),
        Some(branch) => seq![
            Effect::CreateEngineer {
                id: MemberId { role: Role::Engineer, instance: next_instance_spec(members) },
                repo,
                branch,
                request_id: req.request_id,
            },
        ],
    }
}

/// What a spawn request does: at capacity it waits in the queue, else it is
/// served at once.
pub open spec fn spawn_post(a: App, b: App, req: SpawnRequest, r: Seq<Effect>) -> bool {
    if live_count(a.members.members@) >= a.max_engineers {
        &&& b.spawn_queue@ == a.spawn_queue@.push(req)
        &&& r.len() == 0
        &&& b.agent_registry == a.agent_registry
        &&& b.engineer_worktrees == a.engineer_worktrees
        &&& b.restart_counts == a.restart_counts
        &&& b.failed_agents == a.failed_agents
        &&& same_config(a, b)
        &&& same_modes(a, b)
        &&& same_panes(a, b)
        &&& same_place(a, b)
        &&& b.beads == a.beads
    } else {
        &&& same_app(a, b)
        &&& r == spawn_effects(a.members.members@, a.last_workspace_path, req)
    }
}

/// What a release request does: for an `engineer-<n>` id, that engineer's
/// terminal goes, it leaves the members list with its worktree record, its
/// restart count and its given-up mark, and the oldest queued spawn request
/// is served when the pool has room again. Any other id changes nothing.
pub open spec fn release_post(a: App, b: App, req: ReleaseRequest, r: Seq<Effect>) -> bool {
    match engineer_id_spec(req.agent_id@) {
        None => same_app(a, b) && r.len() == 0,
        Some(id) => {
            let l = label_of(id);
            let close = seq![Effect::CloseTerminal(Surface::Member(id))];
            &&& remove_member_post(a.members, b.members, id)
            &&& b.engineer_worktrees@ == a.engineer_worktrees@.remove(l)
            &&& b.restart_counts@ == a.restart_counts@.remove(l)
            &&& b.failed_agents@ == a.failed_agents@.remove(l)
            &&& b.agent_registry == a.agent_registry
            &&& (if live_count(b.members.members@) < a.max_engineers && a.spawn_queue@.len() > 0 {
                &&& b.spawn_queue@ == a.spawn_queue@.drop_first()
                &&& r == close + spawn_effects(b.members.members@, a.last_workspace_path, a.spawn_queue@[0])
            } else {
                &&& b.spawn_queue == a.spawn_queue
                &&& r == close
            })
            &&& b.workspaces == a.workspaces
            &&& b.git_status == a.git_status
            &&& b.status == a.status
            &&& same_config(a, b)
            &&& same_modes(a, b)
            &&& same_place(a, b)
            &&& b.beads == a.beads
        },
    }
}

/// The member a heartbeat's agent id names, if any.
pub open spec fn heartbeat_member(agent_id: Seq<char>) -> Option<MemberId> {
    match engineer_id_spec(agent_id) {
        Some(id) => Some(id),
        None => singleton_id_spec(agent_id),
    }
}

impl App {
    /// Restarts member `id`: its terminal goes, its heartbeat is dropped so
    /// the new process is not judged against the old record, and a new
    /// terminal starts where it runs.
    fn restart_agent(&mut self, id: MemberId, out: &mut Vec<Effect>)
        requires
            old(self).wf(),
        ensures
            final(self).wf(),
            final(out)@ == old(out)@ + restart_effects(*old(self), id),
            final(self).agent_registry@ == old(self).agent_registry@.remove(label_of(id)),
            final(self).restart_counts == old(self).restart_counts,
            final(self).failed_agents == old(self).failed_agents,
            final(self).spawn_queue == old(self).spawn_queue,
            final(self).engineer_worktrees == old(self).engineer_worktrees,
            same_config(*old(self), *final(self)),
            same_modes(*old(self), *final(self)),
            same_panes(*old(self), *final(self)),
            same_place(*old(self), *final(self)),
            final(self).beads == old(self).beads,
    {
        out.push(Effect::CloseTerminal(Surface::Member(id)));
        let label = id.label();
        self.agent_registry.clear(label.as_str());
        let cwd: Option<String> = if id.role == Role::Engineer {
            match self.engineer_worktrees.get(label.as_str()) {
                Some(w) => Some(w.clone()),
                None => None,
            }
        } else {
            Some(self.last_workspace_path.clone())
        };
        match cwd {
            Some(c) => {
                out.push(Effect::Launch { id, cwd: c });
            },
            None => {},
        }
        proof {
            assert(out@ =~= old(out)@ + restart_effects(*old(self), id));
        }
    }

    /// One watchdog pass at `now_ms` (see [`decide_watchdog_actions`]).
    pub fn run_watchdog(&mut self, now_ms: u128) -> (r: Vec<Effect>)
        requires
            old(self).wf(),
        ensures
            final(self).wf(),
            watchdog_post(*old(self), *final(self), now_ms, r@),
    {
        let ghost a = *self;
        let actions = decide_watchdog_actions(
            &self.members.members,
            &self.agent_registry,
            &self.restart_counts,
            &self.failed_agents,
            self.max_restarts,
            now_ms,
        );
        let ghost acts = actions@;
        let mut out: Vec<Effect> = Vec::new();
        let mut i: usize = 0;
        while i < actions.len()
            invariant
                i <= acts.len(),
                acts == actions@,
                acts == app_watchdog_actions(a, now_ms),
                self.wf(),
                self.restart_counts@ == counts_after(a.restart_counts@, acts.take(i as int)),
                self.failed_agents@ == failed_after(a.failed_agents@, acts.take(i as int)),
                self.agent_registry@ == registry_after(a.agent_registry@, acts.take(i as int)),
                out@ == watchdog_effects(a, acts.take(i as int)),
                self.spawn_queue == a.spawn_queue,
                self.engineer_worktrees == a.engineer_worktrees,
                same_config(a, *self),
                same_modes(a, *self),
                same_panes(a, *self),
                same_place(a, *self),
                self.beads == a.beads,
            decreases acts.len() - i,
        {
            proof {
                assert(acts.take(i + 1).drop_last() =~= acts.take(i as int));
                assert(acts.take(i + 1).last() == acts[i as int]);
            }
            match actions[i] {
                WatchdogAction::Restart { id, attempt } => {
                    let label = id.label();
                    self.restart_counts.insert(label, attempt);
                    proof {
                        assert(restart_effects(*self, id) == restart_effects(a, id));
                    }
                    self.restart_agent(id, &mut out);
                },
                WatchdogAction::Escalate { id, restarts: _ } => {
                    let label = id.label();
                    self.failed_agents.insert(label);
                },
                WatchdogAction::NoteStale(_) => {},
            }
            i = i + 1;
        }
        proof {
            assert(acts.take(acts.len() as int) =~= acts);
        }
        out
    }

    /// Serves a spawn request now: appends the effect that creates the
    /// engineer, or nothing when the request names no branch.
    fn spawn_engineer(&self, req: SpawnRequest, out: &mut Vec<Effect>)
        ensures
            final(out)@ == old(out)@ + spawn_effects(self.members.members@, self.last_workspace_path, req),
    {
        match req.branch {
            Some(branch) => {
                let instance = self.next_engineer_instance();
                out.push(
                    Effect::CreateEngineer {
                        id: MemberId::engineer(instance),
                        repo: self.last_workspace_path.clone(),
                        branch,
                        request_id: req.request_id,
                    },
                );
            },
            None => {},
        }
        proof {
            assert(out@ =~= old(out)@ + spawn_effects(self.members.members@, self.last_workspace_path, req));
        }
    }

    /// An engineer-spawn request: queued while the pool is full, else
    /// served.
    pub fn handle_spawn_request(&mut self, req: SpawnRequest) -> (r: Vec<Effect>)
        ensures
            spawn_post(*old(self), *final(self), req, r@),
    {
        if self.live_engineer_count() >= self.max_engineers {
            self.spawn_queue.push(req);
            return Vec::new();
        }
        let mut out: Vec<Effect> = Vec::new();
        self.spawn_engineer(req, &mut out);
        out
    }

    /// An engineer-release request (see [`release_post`]).
    pub fn handle_release_request(&mut self, req: ReleaseRequest) -> (r: Vec<Effect>)
        requires
            old(self).wf(),
        ensures
            final(self).wf(),
            release_post(*old(self), *final(self), req, r@),
    {
        let id = match parse_engineer_id(req.agent_id.as_str()) {
            Some(id) => id,
            None => {
                return Vec::new();
            },
        };
        let mut out: Vec<Effect> = Vec::new();
        out.push(Effect::CloseTerminal(Surface::Member(id)));
        let ghost before = self.members.members@;
        self.members.remove_member(id);
        proof {
            if let Some(k) = crate::panes::members::first_index(before, id) {
                crate::panes::members::lemma_first_index_props(before, id);
                assert forall|i: int| 0 <= i < self.members.members@.len() implies canonical(
                    #[trigger] self.members.members@[i],
                ) by {
                    if i < k {
                        assert(self.members.members@[i] == before[i]);
                    } else {
                        assert(self.members.members@[i] == before[i + 1]);
                    }
                }
            }
        }
        let label = id.label();
        self.engineer_worktrees.remove(label.as_str());
        self.restart_counts.remove(label.as_str());
        self.failed_agents.remove(label.as_str());
        if self.live_engineer_count() < self.max_engineers && self.spawn_queue.len() > 0 {
            let next = self.spawn_queue.remove(0);
            self.spawn_engineer(next, &mut out);
        }
        out
    }
}


/// What switching the terminal to the workspace at `path` does: the
/// workspace becomes the active surface and the target of git work, its
/// worktree is selected, no member is active, the terminal pane takes the
/// focus; its terminal is opened and git state refreshed.
pub open spec fn switch_workspace_post(a: App, b: App, path: String, r: Seq<Effect>) -> bool {
    &&& b.active_surface == Surface::Workspace(path)
    &&& b.last_workspace_path == path
    &&& b.git_status.root_path == path
    &&& b.git_status.diff == a.git_status.diff
    &&& b.git_status.pr_info == a.git_status.pr_info
    &&& b.workspaces.selected == (match path_index(a.workspaces.worktrees@, path@) {
        Some(i) => i as usize,
        None => a.workspaces.selected,
    })
    &&& b.workspaces.worktrees == a.workspaces.worktrees
    &&& b.workspaces.modal_open == a.workspaces.modal_open
    &&& b.workspaces.root_path == a.workspaces.root_path
    &&& b.members.active is None
    &&& b.members.members == a.members.members
    &&& b.members.selected == a.members.selected
    &&& b.focus == PaneId::Terminal
    &&& b.input_mode == a.input_mode
    &&& b.show_help == a.show_help
    &&& b.should_quit == a.should_quit
    &&& b.pending_delete == a.pending_delete
    &&& b.right_view == a.right_view
    &&& b.status == a.status
    &&& b.last_term_size == a.last_term_size
    &&& same_agents(a, b)
    &&& same_config(a, b)
    &&& b.beads == a.beads
    &&& r == seq![Effect::OpenWorkspaceTerminal(path), Effect::Send(Event::GitRefresh)]
}

/// Everything but the panes and the place stays.
pub open spec fn same_outside_panes(a: App, b: App) -> bool {
    &&& same_config(a, b)
    &&& same_agents(a, b)
    &&& same_modes(a, b)
    &&& same_place(a, b)
    &&& b.beads == a.beads
}

/// What each event does to the state, and the effects it hands back.
/// [`event_post`] at a known time: a watchdog tick runs the watchdog at
/// `now`.
pub open spec fn event_post_at(a: App, b: App, event: Event, modal_value: String, now: u128, r: Seq<Effect>) -> bool {
    match event {
        Event::WatchdogTick => watchdog_post(a, b, now, r),
        _ => event_post(a, b, event, modal_value, r),
    }
}

pub open spec fn event_post(a: App, b: App, event: Event, modal_value: String, r: Seq<Effect>) -> bool {
    match event {
        Event::Key(key) => key_post(a, b, key, modal_value, r),
        Event::Tick | Event::Redraw | Event::PtyOutput => same_app(a, b) && r.len() == 0,
        Event::GitRefresh => same_app(a, b) && r == seq![Effect::RefreshGit(a.last_workspace_path)],
        Event::SwitchWorkspace(path) => switch_workspace_post(a, b, path, r),
        Event::SwitchSurface(Surface::Workspace(path)) => same_app(a, b) && r == seq![
            Effect::Send(Event::SwitchWorkspace(path)),
        ],
        Event::SwitchSurface(Surface::Member(id)) => {
            &&& b.active_surface == Surface::Member(id)
            &&& b.members.active == Some(id)
            &&& b.members.members == a.members.members
            &&& b.members.selected == a.members.selected
            &&& b.focus == PaneId::Terminal
            &&& b.input_mode == a.input_mode
            &&& b.show_help == a.show_help
            &&& b.should_quit == a.should_quit
            &&& b.pending_delete == a.pending_delete
            &&& b.right_view == a.right_view
            &&& b.workspaces == a.workspaces
            &&& b.git_status == a.git_status
            &&& b.status == a.status
            &&& b.last_workspace_path == a.last_workspace_path
            &&& b.last_term_size == a.last_term_size
            &&& same_agents(a, b)
            &&& same_config(a, b)
            &&& b.beads == a.beads
            &&& r == seq![Effect::ResizeTerminal(Surface::Member(id))]
        },
        Event::PromptDeleteWorktree(path, name) => {
            &&& r.len() == 0
            &&& if path_equal(path@, a.last_workspace_path@) {
                same_app(a, b)
            } else {
                &&& b.pending_delete == Some((path, name))
                &&& b.focus == a.focus
                &&& b.input_mode == a.input_mode
                &&& b.show_help == a.show_help
                &&& b.should_quit == a.should_quit
                &&& b.right_view == a.right_view
                &&& same_panes(a, b)
                &&& same_place(a, b)
                &&& same_agents(a, b)
                &&& same_config(a, b)
                &&& b.beads == a.beads
            }
        },
        Event::DeleteWorktree(path) => same_app(a, b) && r == seq![
            Effect::CloseTerminal(Surface::Workspace(path)),
            Effect::RemoveWorktree { root: a.last_workspace_path, path },
        ],
        Event::CreateWorktree(branch) => same_app(a, b) && r == seq![
            Effect::AddWorktree { root: a.last_workspace_path, branch },
        ],
        Event::WorktreesRefreshed(w) => {
            &&& b.workspaces.worktrees == w
            &&& b.workspaces.selected == (if a.workspaces.selected >= w@.len() && w@.len() > 0 {
                (w@.len() - 1) as usize
            } else {
                a.workspaces.selected
            })
            &&& b.workspaces.modal_open == a.workspaces.modal_open
            &&& b.workspaces.root_path == a.workspaces.root_path
            &&& b.members == a.members
            &&& b.git_status == a.git_status
            &&& b.status == a.status
            &&& same_outside_panes(a, b)
            &&& r.len() == 0
        },
        Event::AgentHeartbeat(record) => {
            &&& b.agent_registry@ == a.agent_registry@.insert(record.agent_id@, record)
            &&& b.restart_counts@ == (match heartbeat_member(record.agent_id@) {
                Some(id) => a.restart_counts@.remove(label_of(id)),
                None => a.restart_counts@,
            })
            &&& b.spawn_queue == a.spawn_queue
            &&& b.engineer_worktrees == a.engineer_worktrees
            &&& b.failed_agents == a.failed_agents
            &&& same_config(a, b)
            &&& same_modes(a, b)
            &&& same_panes(a, b)
            &&& same_place(a, b)
            &&& b.beads == a.beads
            &&& r.len() == 0
        },
        Event::WatchdogTick => exists|now: u128| watchdog_post(a, b, now, r),
        Event::SpawnRequestReceived(req) => spawn_post(a, b, req, r),
        Event::ReleaseRequestReceived(req) => release_post(a, b, req, r),
        Event::BeadsRefreshed(beads) => {
            &&& b.beads == beads
            &&& same_config(a, b)
            &&& same_agents(a, b)
            &&& same_modes(a, b)
            &&& same_panes(a, b)
            &&& same_place(a, b)
            &&& r.len() == 0
        },
        Event::JournalSnapshot(entries) => {
            &&& b.status.journal_tail@ == journal_tail_of(entries@)
            &&& b.status.sub_view == a.status.sub_view
            &&& b.status.journal_filter == a.status.journal_filter
            &&& b.members == a.members
            &&& b.workspaces == a.workspaces
            &&& b.git_status == a.git_status
            &&& same_outside_panes(a, b)
            &&& r.len() == 0
        },
        Event::DiffUpdated(diff) => {
            &&& b.git_status.diff == diff
            &&& b.git_status.root_path == a.git_status.root_path
            &&& b.git_status.pr_info == a.git_status.pr_info
            &&& b.members == a.members
            &&& b.workspaces == a.workspaces
            &&& b.status == a.status
            &&& same_outside_panes(a, b)
            &&& r.len() == 0
        },
        Event::PrUpdated(pr) => {
            &&& b.git_status.pr_info == pr
            &&& b.git_status.root_path == a.git_status.root_path
            &&& b.git_status.diff == a.git_status.diff
            &&& b.members == a.members
            &&& b.workspaces == a.workspaces
            &&& b.status == a.status
            &&& same_outside_panes(a, b)
            &&& r.len() == 0
        },
        Event::Quit => {
            &&& b.should_quit
            &&& b.focus == a.focus
            &&& b.input_mode == a.input_mode
            &&& b.show_help == a.show_help
            &&& b.pending_delete == a.pending_delete
            &&& b.right_view == a.right_view
            &&& same_panes(a, b)
            &&& same_place(a, b)
            &&& same_agents(a, b)
            &&& same_config(a, b)
            &&& b.beads == a.beads
            &&& r.len() == 0
        },
    }
}

impl App {
    fn switch_workspace(&mut self, path: String) -> (r: Vec<Effect>)
        requires
            old(self).wf(),
        ensures
            final(self).wf(),
            switch_workspace_post(*old(self), *final(self), path, r@),
    {
        self.active_surface = Surface::Workspace(path.clone());
        self.last_workspace_path = path.clone();
        self.git_status.root_path = path.clone();
        self.workspaces.select_path(path.as_str());
        self.members.set_active_member(None);
        self.focus = PaneId::Terminal;
        let mut out: Vec<Effect> = Vec::new();
        out.push(Effect::OpenWorkspaceTerminal(path));
        out.push(Effect::Send(Event::GitRefresh));
        proof {
            assert(out@ =~= seq![Effect::OpenWorkspaceTerminal(path), Effect::Send(Event::GitRefresh)]);
        }
        out
    }

    /// Reacts to one event; `modal_value` is the text of the new-worktree
    /// dialog's field. A watchdog tick reads the clock, then does what
    /// [`App::handle_event_at`] does at that time.
    pub fn handle_event(&mut self, event: Event, modal_value: String) -> (r: Vec<Effect>)
        requires
            old(self).wf(),
        ensures
            final(self).wf(),
            event_post(*old(self), *final(self), event, modal_value, r@),
    {
        let now = now_ms();
        self.handle_event_at(event, modal_value, now)
    }

    /// Reacts to one event at the time `now` (Unix milliseconds), which only
    /// a watchdog tick uses.
    pub fn handle_event_at(&mut self, event: Event, modal_value: String, now: u128) -> (r: Vec<Effect>)
        requires
            old(self).wf(),
        ensures
            final(self).wf(),
            event_post_at(*old(self), *final(self), event, modal_value, now, r@),
    {
        let mut out: Vec<Effect> = Vec::new();
        match event {
            Event::Key(key) => {
                out = self.handle_key(key, modal_value);
            },
            Event::Tick | Event::Redraw | Event::PtyOutput => {},
            Event::GitRefresh => {
                out.push(Effect::RefreshGit(self.last_workspace_path.clone()));
                proof {
                    assert(out@ =~= seq![Effect::RefreshGit(old(self).last_workspace_path)]);
                }
            },
            Event::SwitchWorkspace(path) => {
                out = self.switch_workspace(path);
            },
            Event::SwitchSurface(surface) => {
                match surface {
                    Surface::Workspace(path) => {
                        out.push(Effect::Send(Event::SwitchWorkspace(path)));
                        proof {
                            assert(out@ =~= seq![Effect::Send(Event::SwitchWorkspace(path))]);
                        }
                    },
                    Surface::Member(id) => {
                        self.active_surface = Surface::Member(id);
                        self.members.set_active_member(Some(id));
                        self.focus = PaneId::Terminal;
                        out.push(Effect::ResizeTerminal(Surface::Member(id)));
                        proof {
                            assert(out@ =~= seq![Effect::ResizeTerminal(Surface::Member(id))]);
                        }
                    },
                }
            },
            Event::PromptDeleteWorktree(path, name) => {
                if !paths_equal(path.as_str(), self.last_workspace_path.as_str()) {
                    self.pending_delete = Some((path, name));
                }
            },
            Event::DeleteWorktree(path) => {
                out.push(Effect::CloseTerminal(Surface::Workspace(path.clone())));
                out.push(Effect::RemoveWorktree { root: self.last_workspace_path.clone(), path });
                proof {
                    assert(out@ =~= seq![
                        Effect::CloseTerminal(Surface::Workspace(path)),
                        Effect::RemoveWorktree { root: old(self).last_workspace_path, path },
                    ]);
                }
            },
            Event::CreateWorktree(branch) => {
                out.push(Effect::AddWorktree { root: self.last_workspace_path.clone(), branch });
                proof {
                    assert(out@ =~= seq![Effect::AddWorktree { root: old(self).last_workspace_path, branch }]);
                }
            },
            Event::WorktreesRefreshed(w) => {
                self.workspaces.set_worktrees(w);
            },
            Event::AgentHeartbeat(record) => {
                let id = match parse_engineer_id(record.agent_id.as_str()) {
                    Some(id) => Some(id),
                    None => singleton_id_for_label(record.agent_id.as_str()),
                };
                match id {
                    Some(id) => {
                        let label = id.label();
                        self.restart_counts.remove(label.as_str());
                    },
                    None => {},
                }
                self.agent_registry.upsert(record);
            },
            Event::WatchdogTick => {
                out = self.run_watchdog(now);
            },
            Event::SpawnRequestReceived(req) => {
                out = self.handle_spawn_request(req);
            },
            Event::ReleaseRequestReceived(req) => {
                out = self.handle_release_request(req);
            },
            Event::BeadsRefreshed(beads) => {
                self.beads = beads;
            },
            Event::JournalSnapshot(entries) => {
                self.status.replace_journal(entries);
            },
            Event::DiffUpdated(diff) => {
                self.git_status.update_diff(diff);
            },
            Event::PrUpdated(pr) => {
                self.git_status.update_pr(pr);
            },
            Event::Quit => {
                self.should_quit = true;
            },
        }
        out
    }
}


// ---------------------------------------------------------------------------
// Laws of the state machine
// ---------------------------------------------------------------------------

proof fn lemma_first_free_from(used: Seq<u32>, n: nat)
    requires
        1 <= n,
    ensures
        n <= first_free_from(used, n) || first_free_from(used, n) == u32::MAX,
        first_free_from(used, n) < u32::MAX ==> !used.contains(first_free_from(used, n)),
        forall|k: u32| n <= k < first_free_from(used, n) ==> #[trigger] used.contains(k),
    decreases u32::MAX - n,
{
    if n < u32::MAX && used.contains(n as u32) {
        lemma_first_free_from(used, n + 1);
    }
}

/// A new engineer gets the smallest instance number from 1 up that no
/// listed engineer has.
pub proof fn law_next_instance_is_smallest_free(members: Seq<MemberId>)
    ensures
        1 <= next_instance_spec(members),
        next_instance_spec(members) < u32::MAX ==> !engineer_instances_of(members).contains(
            next_instance_spec(members),
        ),
        forall|k: u32|
            1 <= k < next_instance_spec(members) ==> #[trigger] engineer_instances_of(members).contains(k),
{
    lemma_first_free_from(engineer_instances_of(members), 1);
}

/// `Enter` on the command line quits exactly when the typed command is `q`
/// or `quit` (surrounding white space aside); any other command leaves the
/// quit flag as it was.
pub proof fn law_command_q_or_quit_quits(
    a: App,
    b: App,
    key: Key,
    modal_value: String,
    r: Seq<Effect>,
    cmd: Seq<char>,
)
    requires
        a.pending_delete is None,
        a.input_mode@ == ModeView::Command(cmd),
        key.code == KeyCode::Enter,
        key_post(a, b, key, modal_value, r),
    ensures
        (trim(cmd) == "q"@ || trim(cmd) == "quit"@) ==> b.should_quit,
        !(trim(cmd) == "q"@ || trim(cmd) == "quit"@) ==> b.should_quit == a.should_quit,
{
}

/// In the terminal pane, outside the prefix and command modes, every key
/// but the prefix goes to the terminal unchanged.
pub proof fn law_terminal_forwards_keys(a: App, b: App, key: Key, modal_value: String, r: Seq<Effect>)
    requires
        key_post(a, b, key, modal_value, r),
        a.pending_delete is None,
        a.input_mode@ == ModeView::Normal,
        a.focus == PaneId::Terminal,
        key != prefix_key_spec(),
    ensures
        r == seq![Effect::WriteKey(key)],
        b.focus == PaneId::Terminal,
        b.input_mode@ == ModeView::Normal,
{
}

/// No key press removes a worktree unless a removal was pending and the
/// key confirms it.
pub proof fn law_removal_needs_confirmation(a: App, b: App, key: Key, modal_value: String, r: Seq<Effect>, i: int)
    requires
        key_post(a, b, key, modal_value, r),
        0 <= i < r.len(),
        r[i] matches Effect::Send(Event::DeleteWorktree(_)),
    ensures
        a.pending_delete is Some,
        confirms_delete(key),
{
    if a.pending_delete is None {
        let (m, act) = key_step(a, key);
        match act {
            ActionView::PassThrough => {
                match a.focus {
                    PaneId::Workspaces => {
                        let o = ws_outcome(a.workspaces, key, modal_value);
                        assert(!(o matches WorkspaceKeyOutcome::Event(Event::DeleteWorktree(_))));
                    },
                    PaneId::Members => {},
                    _ => {},
                }
            },
            _ => {},
        }
    }
}

proof fn lemma_counts_capped(
    members: Seq<MemberId>,
    registry: Map<Seq<char>, HeartbeatRecord>,
    counts: Map<Seq<char>, u32>,
    failed: Set<Seq<char>>,
    max_restarts: u32,
    now_ms: u128,
    n: int,
)
    requires
        0 <= n <= watchdog_actions(members, registry, counts, failed, max_restarts, now_ms).len(),
        forall|l: Seq<char>| #[trigger] counts.contains_key(l) ==> counts[l] <= max_restarts,
    ensures
        ({
            let c = counts_after(counts, watchdog_actions(members, registry, counts, failed, max_restarts, now_ms).take(n));
            forall|l: Seq<char>| #[trigger] c.contains_key(l) ==> c[l] <= max_restarts
        }),
    decreases n,
{
    let acts = watchdog_actions(members, registry, counts, failed, max_restarts, now_ms);
    if n == 0 {
        assert(acts.take(0) =~= Seq::<WatchdogAction>::empty());
    } else {
        lemma_counts_capped(members, registry, counts, failed, max_restarts, now_ms, n - 1);
        assert(acts.take(n).drop_last() =~= acts.take(n - 1));
        assert(acts.take(n).last() == acts[n - 1]);
        law_watchdog_respects_failures_and_cap(members, registry, counts, failed, max_restarts, now_ms, n - 1);
        let pre = counts_after(counts, acts.take(n - 1));
        let c = counts_after(counts, acts.take(n));
        assert forall|l: Seq<char>| #[trigger] c.contains_key(l) implies c[l] <= max_restarts by {
            match acts[n - 1] {
                WatchdogAction::Restart { id, attempt } => {
                    if l != label_of(id) {
                        assert(pre.contains_key(l));
                    }
                },
                _ => {
                    assert(pre.contains_key(l));
                },
            }
        }
    }
}

/// The watchdog never counts more restarts for a member than the cap: if
/// every count is within the cap before a pass, every count is after it.
pub proof fn law_restart_counts_stay_capped(a: App, b: App, now_ms: u128, r: Seq<Effect>)
    requires
        watchdog_post(a, b, now_ms, r),
        forall|l: Seq<char>| #[trigger] a.restart_counts@.contains_key(l) ==> a.restart_counts@[l] <= a.max_restarts,
    ensures
        forall|l: Seq<char>| #[trigger] b.restart_counts@.contains_key(l) ==> b.restart_counts@[l] <= b.max_restarts,
{
    let acts = app_watchdog_actions(a, now_ms);
    lemma_counts_capped(
        a.members.members@,
        a.agent_registry@,
        a.restart_counts@,
        a.failed_agents@,
        a.max_restarts,
        now_ms,
        acts.len() as int,
    );
    assert(acts.take(acts.len() as int) =~= acts);
}

/// The pool cap holds for requests: at capacity a spawn request creates no
/// engineer (it waits in the queue); below it, a request with a branch
/// creates exactly one engineer, with an instance number no listed engineer
/// has.
pub proof fn law_spawn_respects_pool(a: App, b: App, req: SpawnRequest, r: Seq<Effect>)
    requires
        spawn_post(a, b, req, r),
        a.members.members@.len() < u32::MAX - 1,
    ensures
        live_count(a.members.members@) >= a.max_engineers ==> r.len() == 0 && b.spawn_queue@.last() == req,
        live_count(a.members.members@) < a.max_engineers && req.branch is Some ==> r.len() == 1 && (
        r[0] matches Effect::CreateEngineer { id, .. } && id.role == Role::Engineer
            && !engineer_instances_of(a.members.members@).contains(id.instance)),
{
    law_next_instance_is_smallest_free(a.members.members@);
    lemma_instances_len(a.members.members@);
    if next_instance_spec(a.members.members@) == u32::MAX {
        lemma_free_below_len(engineer_instances_of(a.members.members@));
    }
}

proof fn lemma_instances_len(members: Seq<MemberId>)
    ensures
        engineer_instances_of(members).len() <= members.len(),
    decreases members.len(),
{
    if members.len() > 0 {
        lemma_instances_len(members.drop_last());
    }
}

/// A sequence shorter than `u32::MAX - 1` misses some number in
/// `1..u32::MAX`, so the first free number is below `u32::MAX`.
proof fn lemma_free_below_len(used: Seq<u32>)
    requires
        used.len() < u32::MAX - 1,
    ensures
        first_free_from(used, 1) < u32::MAX,
{
    lemma_first_free_from(used, 1);
    if first_free_from(used, 1) == u32::MAX {
        // Every number in 1..u32::MAX is in `used`: too many for its length.
        lemma_pigeonhole(used, (u32::MAX - 1) as nat);
    }
}

/// If `used` holds every number of `1..=m`, it has at least `m` entries.
proof fn lemma_pigeonhole(used: Seq<u32>, m: nat)
    requires
        m < u32::MAX,
        forall|k: u32| 1 <= k <= m ==> #[trigger] used.contains(k),
    ensures
        used.len() >= m,
    decreases m,
{
    if m > 0 {
        let mu = m as u32;
        let i = choose|i: int| 0 <= i < used.len() && used[i] == mu;
        let rest = used.remove(i);
        assert(used.contains(mu));
        assert forall|k: u32| 1 <= k <= (m - 1) as nat implies #[trigger] rest.contains(k) by {
            assert(used.contains(k));
            let j = choose|j: int| 0 <= j < used.len() && used[j] == k;
            assert(j != i);
            if j < i {
                assert(rest[j] == used[j]);
            } else {
                assert(rest[j - 1] == used[j]);
            }
        }
        lemma_pigeonhole(rest, (m - 1) as nat);
    }
}


/// Git work keeps following the last workspace: after the terminal switches
/// to a member, a git refresh still runs against the workspace that was
/// active before.
pub proof fn law_git_work_follows_last_workspace(
    a: App,
    b: App,
    c: App,
    id: MemberId,
    modal_value: String,
    r1: Seq<Effect>,
    r2: Seq<Effect>,
)
    requires
        event_post(a, b, Event::SwitchSurface(Surface::Member(id)), modal_value, r1),
        event_post(b, c, Event::GitRefresh, modal_value, r2),
    ensures
        b.last_workspace_path == a.last_workspace_path,
        r2 == seq![Effect::RefreshGit(a.last_workspace_path)],
{
}

} // verus!
