//! Routing policy of the native orchestrator: which open engineer beads get
//! a spawn request on a poll tick.
use vstd::prelude::*;
use crate::beads::{Bead, Status};
use crate::text::{append_chars, chars_of, has_prefix, is_lit, starts_with, str_views, string_of};

pub use vstd::hash_set::StringHashSet;

verus! {

/// Default poll cadence (seconds).
pub const DEFAULT_POLL_SECS: u64 = 5;

/// Whether a label list holds `role:engineer`.
pub open spec fn has_engineer_label(labels: Seq<String>) -> bool {
    exists|j: int| 0 <= j < labels.len() && (#[trigger] labels[j])@ == "role:engineer"@
}

/// An open, unassigned bead labelled for engineers.
pub open spec fn open_engineer_bead(b: Bead) -> bool {
    b.status == Status::Open && b.assignee is None && has_engineer_label(b.labels@)
}

/// The ids of the beads that warrant a spawn request, in board order: open
/// engineer beads not yet routed this session.
pub open spec fn routable_ids(beads: Seq<Bead>, routed: Set<Seq<char>>) -> Seq<Seq<char>>
    decreases beads.len(),
{
    if beads.len() == 0 {
        Seq::empty()
    } else {
        let pre = routable_ids(beads.drop_last(), routed);
        let b = beads.last();
        if open_engineer_bead(b) && !routed.contains(b.id@) {
            pre.push(b.id@)
        } else {
            pre
        }
    }
}

/// What one tick routes: as many routable ids, from the front, as the pool
/// has headroom for.
pub open spec fn spawn_decision(
    beads: Seq<Bead>,
    routed: Set<Seq<char>>,
    current_pool: int,
    max_engineers: int,
) -> Seq<Seq<char>> {
    if current_pool >= max_engineers {
        Seq::empty()
    } else {
        let ids = routable_ids(beads, routed);
        let headroom = max_engineers - current_pool;
        if ids.len() <= headroom {
            ids
        } else {
            ids.take(headroom)
        }
    }
}

proof fn lemma_routable_prefix(beads: Seq<Bead>, routed: Set<Seq<char>>, i: int)
    requires
        0 <= i <= beads.len(),
    ensures
        routable_ids(beads.take(i), routed).len() <= routable_ids(beads, routed).len(),
        routable_ids(beads.take(i), routed) == routable_ids(beads, routed).take(
            routable_ids(beads.take(i), routed).len() as int,
        ),
    decreases beads.len() - i,
{
    if i == beads.len() {
        assert(beads.take(i) =~= beads);
        assert(routable_ids(beads, routed).take(routable_ids(beads, routed).len() as int)
            =~= routable_ids(beads, routed));
    } else {
        lemma_routable_prefix(beads, routed, i + 1);
        assert(beads.take(i + 1).drop_last() =~= beads.take(i));
        let a = routable_ids(beads.take(i), routed);
        let b = routable_ids(beads.take(i + 1), routed);
        let c = routable_ids(beads, routed);
        assert(a == b || a == b.drop_last());
        if a != b {
            assert(a =~= c.take(a.len() as int));
        }
    }
}

/// Whether `labels` holds `role:engineer`.
fn labels_have_engineer(labels: &Vec<String>) -> (r: bool)
    ensures
        r == has_engineer_label(labels@),
{
    let mut i: usize = 0;
    while i < labels.len()
        invariant
            i <= labels.len(),
            forall|j: int| 0 <= j < i ==> (#[trigger] labels@[j])@ != "role:engineer"@,
        decreases labels.len() - i,
    {
        if is_lit(&chars_of(labels[i].as_str()), "role:engineer") {
            return true;
        }
        i = i + 1;
    }
    false
}

/// An open, unassigned bead labelled `role:engineer`.
pub fn is_open_engineer_bead(bead: &Bead) -> (r: bool)
    ensures
        r == open_engineer_bead(*bead),
{
    if bead.status != Status::Open {
        return false;
    }
    if bead.assignee.is_some() {
        return false;
    }
    labels_have_engineer(&bead.labels)
}

/// Routing decision for one tick: the ids of open engineer beads not yet
/// routed, in board order, capped at the pool's headroom.
pub fn decide_spawns(
    beads: &[Bead],
    already_spawned: &StringHashSet,
    current_pool: usize,
    max_engineers: usize,
) -> (out: Vec<String>)
    ensures
        str_views(out@) == spawn_decision(beads@, already_spawned@, current_pool as int, max_engineers as int),
{
    if current_pool >= max_engineers {
        assert(str_views(Seq::<String>::empty()) =~= Seq::<Seq<char>>::empty());
        return Vec::new();
    }
    let headroom = max_engineers - current_pool;
    let ghost ids = routable_ids(beads@, already_spawned@);
    let mut out: Vec<String> = Vec::new();
    let mut i: usize = 0;
    while i < beads.len()
        invariant
            i <= beads@.len(),
            headroom == max_engineers - current_pool,
            current_pool < max_engineers,
            ids == routable_ids(beads@, already_spawned@),
            str_views(out@) == routable_ids(beads@.take(i as int), already_spawned@),
            out@.len() < headroom,
        decreases beads@.len() - i,
    {
        let bead = &beads[i];
        proof {
            assert(beads@.take(i + 1).drop_last() =~= beads@.take(i as int));
            assert(beads@.take(i + 1).last() == beads@[i as int]);
        }
        if is_open_engineer_bead(bead) && !already_spawned.contains(bead.id.as_str()) {
            let ghost before = str_views(out@);
            let id = bead.id.clone();
            out.push(id);
            assert(str_views(out@) =~= before.push(bead.id@));
        }
        i = i + 1;
        if out.len() >= headroom {
            proof {
                lemma_routable_prefix(beads@, already_spawned@, i as int);
                assert(str_views(out@).len() == out@.len());
                if ids.len() <= headroom {
                    assert(str_views(out@) =~= ids);
                } else {
                    assert(str_views(out@) =~= ids.take(headroom as int));
                }
            }
            return out;
        }
    }
    assert(beads@.take(beads@.len() as int) =~= beads@);
    assert(str_views(out@).len() == out@.len());
    out
}

/// Beads currently worked on by an engineer: assigned to `engineer-*` and
/// in progress or in review.
pub open spec fn engineer_busy(b: Bead) -> bool {
    &&& b.assignee is Some
    &&& starts_with(b.assignee->0@, "engineer-"@)
    &&& (b.status == Status::InProgress || b.status == Status::InReview)
}

/// Number of beads among `beads` that an engineer is working on.
pub open spec fn busy_count(beads: Seq<Bead>) -> nat
    decreases beads.len(),
{
    if beads.len() == 0 {
        0
    } else {
        busy_count(beads.drop_last()) + if engineer_busy(beads.last()) { 1nat } else { 0nat }
    }
}

/// The engineer pool size as the board shows it: beads assigned to an
/// `engineer-*` that are in progress or in review.
pub fn engineer_pool_size(beads: &[Bead]) -> (n: usize)
    ensures
        n == busy_count(beads@),
{
    let prefix = chars_of("engineer-");
    let mut n: usize = 0;
    let mut i: usize = 0;
    while i < beads.len()
        invariant
            i <= beads@.len(),
            prefix@ == "engineer-"@,
            n == busy_count(beads@.take(i as int)),
            n <= i,
        decreases beads@.len() - i,
    {
        proof {
            assert(beads@.take(i + 1).drop_last() =~= beads@.take(i as int));
        }
        let b = &beads[i];
        let busy = match &b.assignee {
            Some(a) => has_prefix(&chars_of(a.as_str()), &prefix) && (b.status == Status::InProgress
                || b.status == Status::InReview),
            None => false,
        };
        if busy {
            n = n + 1;
        }
        i = i + 1;
    }
    assert(beads@.take(beads@.len() as int) =~= beads@);
    n
}

/// The branch an engineer works on for a bead: `feat/bead-<id>`.
pub fn branch_for_bead(bead_id: &str) -> (r: String)
    ensures
        r@ == "feat/bead-"@ + bead_id@,
{
    let mut v = chars_of("feat/bead-");
    append_chars(&mut v, &chars_of(bead_id));
    string_of(&v)
}

/// A routed bead id was routable: open, unassigned, engineer-labelled and
/// not already routed; and no tick routes more beads than the headroom.
pub proof fn law_routing_is_sound(
    beads: Seq<Bead>,
    routed: Set<Seq<char>>,
    current_pool: int,
    max_engineers: int,
    k: int,
)
    requires
        0 <= k < spawn_decision(beads, routed, current_pool, max_engineers).len(),
    ensures
        !routed.contains(spawn_decision(beads, routed, current_pool, max_engineers)[k]),
        exists|j: int|
            0 <= j < beads.len() && open_engineer_bead(#[trigger] beads[j]) && beads[j].id@
                == spawn_decision(beads, routed, current_pool, max_engineers)[k],
        spawn_decision(beads, routed, current_pool, max_engineers).len() <= max_engineers
            - current_pool,
{
    lemma_routable_sound(beads, routed, k);
}

proof fn lemma_routable_sound(beads: Seq<Bead>, routed: Set<Seq<char>>, k: int)
    requires
        0 <= k < routable_ids(beads, routed).len(),
    ensures
        !routed.contains(routable_ids(beads, routed)[k]),
        exists|j: int|
            0 <= j < beads.len() && open_engineer_bead(#[trigger] beads[j]) && beads[j].id@
                == routable_ids(beads, routed)[k],
    decreases beads.len(),
{
    let pre = routable_ids(beads.drop_last(), routed);
    if k < pre.len() {
        lemma_routable_sound(beads.drop_last(), routed, k);
        let j = choose|j: int|
            0 <= j < beads.drop_last().len() && open_engineer_bead(#[trigger] beads.drop_last()[j])
                && beads.drop_last()[j].id@ == pre[k];
        assert(beads[j] == beads.drop_last()[j]);
    } else {
        assert(beads[beads.len() - 1] == beads.last());
    }
}

/// What one more bead adds to the engineer pool: one when it is held by an
/// `engineer-*` id and in progress or in review, nothing when it is open,
/// closed or of another status, unassigned, or held by anyone else.
pub proof fn law_pool_counts_beads_in_progress_or_review(beads: Seq<Bead>, b: Bead)
    ensures
        (b.assignee matches Some(a) && starts_with(a@, "engineer-"@)) && b.status == Status::InProgress
            ==> busy_count(beads.push(b)) == busy_count(beads) + 1,
        (b.assignee matches Some(a) && starts_with(a@, "engineer-"@)) && b.status == Status::InReview
            ==> busy_count(beads.push(b)) == busy_count(beads) + 1,
        b.status == Status::Open || b.status == Status::Closed || b.status == Status::Other
            ==> busy_count(beads.push(b)) == busy_count(beads),
        b.assignee is None ==> busy_count(beads.push(b)) == busy_count(beads),
        (b.assignee matches Some(a) && !starts_with(a@, "engineer-"@))
            ==> busy_count(beads.push(b)) == busy_count(beads),
        busy_count(beads) <= beads.len(),
    decreases beads.len(),
{
    assert(beads.push(b).drop_last() =~= beads);
    if beads.len() > 0 {
        law_pool_counts_beads_in_progress_or_review(beads.drop_last(), beads.last());
    }
}

/// Whether the orchestrator routes at all: not with an empty engineer pool.
pub fn routing_enabled(max_engineers: usize) -> (r: bool)
    ensures
        r == (max_engineers > 0),
{
    max_engineers > 0
}

/// Books a bead as routed once its spawn request is written; a bead whose
/// request could not be written stays unrouted and is tried again next tick.
pub fn note_routed(routed: &mut StringHashSet, bead_id: String, written: bool)
    ensures
        final(routed)@ == (if written {
            old(routed)@.insert(bead_id@)
        } else {
            old(routed)@
        }),
{
    if written {
        routed.insert(bead_id);
    }
}

} // verus!
