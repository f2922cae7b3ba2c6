//! Per-agent persistent state: session id, assigned beads and the restart
//! backoff schedule that the watchdog follows.
use vstd::prelude::*;
use crate::surface::{label_of, role_str, MemberId};

verus! {

/// Backoff delay (seconds) after the `attempts`-th restart: 5, 15, 45, 120,
/// then 300 for every later attempt.
pub open spec fn backoff_delay(attempts: u32) -> u64 {
    if attempts <= 1 {
        5
    } else if attempts == 2 {
        15
    } else if attempts == 3 {
        45
    } else if attempts == 4 {
        120
    } else {
        300
    }
}

/// `a + b`, capped at `u64::MAX`.
pub open spec fn sat_add_u64(a: u64, b: int) -> u64 {
    if a + b > u64::MAX {
        u64::MAX
    } else {
        (a + b) as u64
    }
}

/// One on-disk record per agent.
#[derive(Debug, Clone, PartialEq, Eq)]
pub struct AgentState {
    /// Stable label such as `pm`, `architect`, `engineer-1`.
    pub member_id: String,
    /// Role label.
    pub role: String,
    /// Which CLI is driving this agent.
    pub cli: String,
    /// Captured from the CLI's startup banner.
    pub session_id: Option<String>,
    /// Beads the agent currently has open.
    pub assigned_beads: Vec<String>,
    /// Highest bead-update timestamp the agent has already read.
    pub last_bead_cursor_ms: Option<u64>,
    /// Restarts so far; grows across restarts until a healthy heartbeat.
    pub restart_attempts: u32,
    /// Earliest wall-clock millisecond at which the watchdog may re-spawn.
    pub next_restart_at_ms: Option<u64>,
    /// Epoch millis when the most recent live PTY was spawned.
    pub spawned_at_ms: u64,
}

impl AgentState {
    /// Fresh state for a newly spawned agent.
    pub fn new(member_id: &MemberId, cli: String, spawned_at_ms: u64) -> (r: Self)
        ensures
            r.member_id@ == label_of(*member_id),
            r.role@ == role_str(member_id.role),
            r.cli == cli,
            r.session_id is None,
            r.assigned_beads@.len() == 0,
            r.last_bead_cursor_ms is None,
            r.restart_attempts == 0,
            r.next_restart_at_ms is None,
            r.spawned_at_ms == spawned_at_ms,
    {
        AgentState {
            member_id: member_id.label(),
            role: String::from_str(member_id.role.as_str()),
            cli,
            session_id: None,
            assigned_beads: Vec::new(),
            last_bead_cursor_ms: None,
            restart_attempts: 0,
            next_restart_at_ms: None,
            spawned_at_ms,
        }
    }

    /// Counts one more restart and schedules the next one after the backoff
    /// delay for that attempt; returns the delay in seconds.
    pub fn bump_restart(&mut self, now_ms: u64) -> (delay: u64)
        ensures
            final(self).restart_attempts == (if old(self).restart_attempts == u32::MAX {
                u32::MAX
            } else {
                (old(self).restart_attempts + 1) as u32
            }),
            delay == backoff_delay(final(self).restart_attempts),
            final(self).next_restart_at_ms == Some(sat_add_u64(now_ms, delay * 1000)),
            final(self).member_id == old(self).member_id,
            final(self).role == old(self).role,
            final(self).cli == old(self).cli,
            final(self).session_id == old(self).session_id,
            final(self).assigned_beads == old(self).assigned_beads,
            final(self).last_bead_cursor_ms == old(self).last_bead_cursor_ms,
            final(self).spawned_at_ms == old(self).spawned_at_ms,
    {
        self.restart_attempts = self.restart_attempts.saturating_add(1);
        let attempts = self.restart_attempts;
        let delay: u64 = if attempts <= 1 {
            5
        } else if attempts == 2 {
            15
        } else if attempts == 3 {
            45
        } else if attempts == 4 {
            120
        } else {
            300
        };
        self.next_restart_at_ms = Some(now_ms.saturating_add(delay * 1000));
        delay
    }

    /// Marks the agent healthy: no restarts counted, none pending.
    pub fn clear_restart(&mut self)
        ensures
            final(self).restart_attempts == 0,
            final(self).next_restart_at_ms is None,
            final(self).member_id == old(self).member_id,
            final(self).role == old(self).role,
            final(self).cli == old(self).cli,
            final(self).session_id == old(self).session_id,
            final(self).assigned_beads == old(self).assigned_beads,
            final(self).last_bead_cursor_ms == old(self).last_bead_cursor_ms,
            final(self).spawned_at_ms == old(self).spawned_at_ms,
    {
        self.restart_attempts = 0;
        self.next_restart_at_ms = None;
    }

    /// Records a freshly observed CLI session id.
    pub fn set_session_id(&mut self, session_id: String)
        ensures
            final(self).session_id == Some(session_id),
            final(self).member_id == old(self).member_id,
            final(self).role == old(self).role,
            final(self).cli == old(self).cli,
            final(self).assigned_beads == old(self).assigned_beads,
            final(self).last_bead_cursor_ms == old(self).last_bead_cursor_ms,
            final(self).restart_attempts == old(self).restart_attempts,
            final(self).next_restart_at_ms == old(self).next_restart_at_ms,
            final(self).spawned_at_ms == old(self).spawned_at_ms,
    {
        self.session_id = Some(session_id);
    }
}

/// The k-th restart from a clean slate waits `backoff_delay(k)` seconds:
/// the schedule is 5, 15, 45, 120, 300, and stays at 300.
pub proof fn law_backoff_schedule(k: u32)
    ensures
        k <= 1 ==> backoff_delay(k) == 5,
        k == 2 ==> backoff_delay(k) == 15,
        k == 3 ==> backoff_delay(k) == 45,
        k == 4 ==> backoff_delay(k) == 120,
        k >= 5 ==> backoff_delay(k) == 300,
        backoff_delay(k) <= 300,
        k >= 1 ==> backoff_delay(k) <= backoff_delay((k + 1) as u32) || k == u32::MAX,
{
}

} // verus!
