//! What the application reacts to: key presses, requests that panes hand up,
//! and reports from the runtime watcher, the pollers and background git work.
use vstd::prelude::*;
use crate::beads::Bead;
use crate::gh::PrInfo;
use crate::git::{Diff, Worktree};
use crate::keymap::Key;
use crate::runtime::{HeartbeatRecord, JournalEntry, ReleaseRequest, SpawnRequest};
use crate::surface::Surface;

verus! {

#[derive(Debug, Clone, PartialEq, Eq)]
pub enum Event {
    Key(Key),
    Tick,
    /// Refresh git state of the current workspace.
    GitRefresh,
    PtyOutput,
    /// Bind the terminal to the workspace at this path.
    SwitchWorkspace(String),
    /// Bind the terminal to another surface.
    SwitchSurface(Surface),
    /// A heartbeat file was written.
    AgentHeartbeat(HeartbeatRecord),
    /// The periodic watchdog pass is due.
    WatchdogTick,
    /// An engineer-spawn request file arrived (and was consumed).
    SpawnRequestReceived(SpawnRequest),
    /// An engineer-release request file arrived (and was consumed).
    ReleaseRequestReceived(ReleaseRequest),
    /// The journal changed; carries every entry.
    JournalSnapshot(Vec<JournalEntry>),
    /// The latest bead board.
    BeadsRefreshed(Vec<Bead>),
    /// Create a worktree on this new branch.
    CreateWorktree(String),
    /// Ask the user to confirm removing the worktree at this path (with its
    /// display name).
    PromptDeleteWorktree(String, String),
    /// Remove the worktree at this path.
    DeleteWorktree(String),
    WorktreesRefreshed(Vec<Worktree>),
    DiffUpdated(Diff),
    PrUpdated(Option<PrInfo>),
    Redraw,
    Quit,
}

} // verus!
