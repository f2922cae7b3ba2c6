//! In-memory mirror of the latest heartbeat per agent, and the liveness
//! derived from its age.
use vstd::prelude::*;
use vstd::hash_map::StringHashMap;
use crate::runtime::HeartbeatRecord;

verus! {

/// Heartbeat age (seconds) from which an agent counts as stale.
pub const HEARTBEAT_WARN_SEC: u64 = 60;
/// Heartbeat age (seconds) from which an agent counts as dead.
pub const HEARTBEAT_DEAD_SEC: u64 = 180;

/// Liveness derived from the most recent heartbeat for an agent id.
#[derive(Debug, Clone, Copy, PartialEq, Eq, Structural)]
pub enum Liveness {
    /// A heartbeat in the last `HEARTBEAT_WARN_SEC`.
    Live,
    /// Last heartbeat at least `HEARTBEAT_WARN_SEC` old but younger than
    /// `HEARTBEAT_DEAD_SEC`.
    Stale,
    /// Last heartbeat at least `HEARTBEAT_DEAD_SEC` old.
    Dead,
    /// No heartbeat record at all.
    Unknown,
}

/// Whole seconds elapsed from `last_seen_ms` to `now_ms` (0 when the
/// heartbeat lies in the future).
pub open spec fn elapsed_sec(last_seen_ms: u128, now_ms: u128) -> int {
    if now_ms >= last_seen_ms {
        (now_ms - last_seen_ms) as int / 1000
    } else {
        0
    }
}

/// Liveness of a heartbeat taken at `last_seen_ms`, judged at `now_ms`.
pub open spec fn liveness_of_age(last_seen_ms: u128, now_ms: u128) -> Liveness {
    let e = elapsed_sec(last_seen_ms, now_ms);
    if e >= HEARTBEAT_DEAD_SEC {
        Liveness::Dead
    } else if e >= HEARTBEAT_WARN_SEC {
        Liveness::Stale
    } else {
        Liveness::Live
    }
}

/// Liveness of `agent_id` given the records `m`.
pub open spec fn liveness_in(m: Map<Seq<char>, HeartbeatRecord>, agent_id: Seq<char>, now_ms: u128) -> Liveness {
    if m.contains_key(agent_id) {
        liveness_of_age(m[agent_id].last_seen_ms, now_ms)
    } else {
        Liveness::Unknown
    }
}

/// Latest heartbeat per agent id.
pub struct AgentRegistry {
    records: StringHashMap<HeartbeatRecord>,
}

impl View for AgentRegistry {
    type V = Map<Seq<char>, HeartbeatRecord>;

    closed spec fn view(&self) -> Map<Seq<char>, HeartbeatRecord> {
        self.records@
    }
}

impl AgentRegistry {
    /// Every record is filed under its own agent id.
    pub closed spec fn wf(&self) -> bool {
        forall|k: Seq<char>| #[trigger] self.records@.contains_key(k) ==> self.records@[k].agent_id@ == k
    }

    pub fn new() -> (r: Self)
        ensures
            r@ == Map::<Seq<char>, HeartbeatRecord>::empty(),
            r.wf(),
    {
        AgentRegistry { records: StringHashMap::new() }
    }

    /// Stores `record` as the latest heartbeat of its agent, replacing any
    /// earlier one.
    pub fn upsert(&mut self, record: HeartbeatRecord)
        requires
            old(self).wf(),
        ensures
            final(self).wf(),
            final(self)@ == old(self)@.insert(record.agent_id@, record),
    {
        let key = record.agent_id.clone();
        self.records.insert(key, record);
    }

    pub fn get(&self, agent_id: &str) -> (r: Option<&HeartbeatRecord>)
        ensures
            match r {
                Some(rec) => self@.contains_key(agent_id@) && *rec == self@[agent_id@],
                None => !self@.contains_key(agent_id@),
            },
    {
        self.records.get(agent_id)
    }

    /// Drops the heartbeat record of `agent_id`.
    pub fn clear(&mut self, agent_id: &str)
        requires
            old(self).wf(),
        ensures
            final(self).wf(),
            final(self)@ == old(self)@.remove(agent_id@),
    {
        self.records.remove(agent_id);
    }

    /// Liveness of `agent_id` at wall-clock time `now_ms`.
    pub fn liveness_for(&self, agent_id: &str, now_ms: u128) -> (r: Liveness)
        ensures
            r == liveness_in(self@, agent_id@, now_ms),
    {
        match self.records.get(agent_id) {
            None => Liveness::Unknown,
            Some(rec) => {
                let elapsed: u128 = if now_ms >= rec.last_seen_ms {
                    (now_ms - rec.last_seen_ms) / 1000
                } else {
                    0
                };
                if elapsed >= HEARTBEAT_DEAD_SEC as u128 {
                    Liveness::Dead
                } else if elapsed >= HEARTBEAT_WARN_SEC as u128 {
                    Liveness::Stale
                } else {
                    Liveness::Live
                }
            },
        }
    }
}

/// Severity order of liveness: live < stale < dead.
pub open spec fn severity(l: Liveness) -> int {
    match l {
        Liveness::Live => 0,
        Liveness::Stale => 1,
        Liveness::Dead => 2,
        Liveness::Unknown => -1,
    }
}

/// A recorded agent only grows more severe as time passes.
pub proof fn law_liveness_monotone_in_time(
    m: Map<Seq<char>, HeartbeatRecord>,
    agent_id: Seq<char>,
    t1: u128,
    t2: u128,
)
    requires
        m.contains_key(agent_id),
        t1 <= t2,
    ensures
        severity(liveness_in(m, agent_id, t1)) <= severity(liveness_in(m, agent_id, t2)),
        liveness_in(m, agent_id, t1) != Liveness::Unknown,
{
    let last = m[agent_id].last_seen_ms;
    if t1 >= last {
        assert((t1 - last) as int / 1000 <= (t2 - last) as int / 1000) by (nonlinear_arith)
            requires
                t1 - last <= t2 - last,
                t1 >= last;
    }
}

/// After an upsert, the agent's latest record is the one just stored and
/// the liveness of every other agent is unchanged.
pub proof fn law_upsert_then_lookup(
    m: Map<Seq<char>, HeartbeatRecord>,
    record: HeartbeatRecord,
    other: Seq<char>,
    now_ms: u128,
)
    requires
        other != record.agent_id@,
    ensures
        m.insert(record.agent_id@, record)[record.agent_id@] == record,
        liveness_in(m.insert(record.agent_id@, record), record.agent_id@, now_ms) == liveness_of_age(
            record.last_seen_ms,
            now_ms,
        ),
        liveness_in(m.insert(record.agent_id@, record), other, now_ms) == liveness_in(m, other, now_ms),
{
}

/// After a clear, the agent has no telemetry: its liveness is `Unknown`.
pub proof fn law_clear_makes_unknown(m: Map<Seq<char>, HeartbeatRecord>, agent_id: Seq<char>, now_ms: u128)
    ensures
        liveness_in(m.remove(agent_id), agent_id, now_ms) == Liveness::Unknown,
{
}

} // verus!
