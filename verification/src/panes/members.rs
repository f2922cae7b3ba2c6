//! The members pane: the agent team, the selection, and which member the
//! terminal shows.
use vstd::prelude::*;
use crate::event::Event;
use crate::keymap::{no_mods, Key, KeyCode};
use crate::agents::registry::{liveness_in, AgentRegistry, Liveness};
use crate::panes::color::UiColor;
use crate::runtime::HeartbeatRecord;
use crate::surface::{label_of, MemberId, Role, Surface};
use crate::text::{chars_of, string_of};
use vstd::hash_set::StringHashSet;

verus! {

pub struct MembersPane {
    pub members: Vec<MemberId>,
    pub selected: usize,
    /// The member the terminal is bound to, if any.
    pub active: Option<MemberId>,
}

impl Default for MembersPane {
    fn default() -> (r: Self)
        ensures
            r.wf(),
    {
        Self::new()
    }
}

/// The engineer instance numbers among `members`, in order.
pub open spec fn engineer_instances_of(members: Seq<MemberId>) -> Seq<u32>
    decreases members.len(),
{
    if members.len() == 0 {
        Seq::empty()
    } else {
        let pre = engineer_instances_of(members.drop_last());
        if members.last().role == Role::Engineer {
            pre.push(members.last().instance)
        } else {
            pre
        }
    }
}

impl MembersPane {
    /// The selection points at a member (or is 0 when there is none), and
    /// no member is listed twice.
    pub open spec fn wf(&self) -> bool {
        &&& (self.selected == 0 || self.selected < self.members@.len())
        &&& forall|i: int, j: int|
            0 <= i < j < self.members@.len() ==> self.members@[i] != self.members@[j]
    }

    /// The singleton roles that are always members: PM, Architect, Recon.
    pub fn new() -> (r: Self)
        ensures
            r.members@ == seq![
                MemberId { role: Role::Pm, instance: 0 },
                MemberId { role: Role::Architect, instance: 0 },
                MemberId { role: Role::Recon, instance: 0 },
            ],
            r.selected == 0,
            r.active is None,
            r.wf(),
    {
        let mut members: Vec<MemberId> = Vec::new();
        members.push(MemberId::singleton(Role::Pm));
        members.push(MemberId::singleton(Role::Architect));
        members.push(MemberId::singleton(Role::Recon));
        MembersPane { members, selected: 0, active: None }
    }

    pub fn move_down(&mut self)
        ensures
            final(self).selected == (if old(self).members@.len() == 0 {
                old(self).selected as int
            } else if old(self).selected + 1 < old(self).members@.len() {
                old(self).selected + 1
            } else {
                old(self).members@.len() - 1
            }),
            final(self).members == old(self).members,
            final(self).active == old(self).active,
            old(self).wf() ==> final(self).wf(),
    {
        if self.members.len() > 0 {
            let last = self.members.len() - 1;
            self.selected = if self.selected < last { self.selected + 1 } else { last };
        }
    }

    pub fn move_up(&mut self)
        ensures
            final(self).selected == (if old(self).selected > 0 {
                old(self).selected - 1
            } else {
                0
            }),
            final(self).members == old(self).members,
            final(self).active == old(self).active,
            old(self).wf() ==> final(self).wf(),
    {
        if self.selected > 0 {
            self.selected = self.selected - 1;
        }
    }

    /// Records which member the terminal is bound to.
    pub fn set_active_member(&mut self, id: Option<MemberId>)
        ensures
            final(self).active == id,
            final(self).members == old(self).members,
            final(self).selected == old(self).selected,
            old(self).wf() ==> final(self).wf(),
    {
        self.active = id;
    }

    pub fn selected_member(&self) -> (r: Option<MemberId>)
        ensures
            r == (if self.selected < self.members@.len() {
                Some(self.members@[self.selected as int])
            } else {
                None
            }),
    {
        if self.selected < self.members.len() {
            Some(self.members[self.selected])
        } else {
            None
        }
    }

    /// Appends `id` unless it is already listed.
    pub fn add_member(&mut self, id: MemberId)
        ensures
            final(self).members@ == (if old(self).members@.contains(id) {
                old(self).members@
            } else {
                old(self).members@.push(id)
            }),
            final(self).selected == old(self).selected,
            final(self).active == old(self).active,
            old(self).wf() ==> final(self).wf(),
    {
        let mut i: usize = 0;
        while i < self.members.len()
            invariant
                i <= self.members@.len(),
                forall|j: int| 0 <= j < i ==> self.members@[j] != id,
                self.members@ == old(self).members@,
                self.selected == old(self).selected,
                self.active == old(self).active,
            decreases self.members@.len() - i,
        {
            if self.members[i] == id {
                assert(self.members@.contains(id));
                return;
            }
            i = i + 1;
        }
        self.members.push(id);
        proof {
            assert forall|a: int, b: int| 0 <= a < b < self.members@.len() && old(self).wf()
                implies self.members@[a] != self.members@[b] by {
                if b == old(self).members@.len() {
                    assert(self.members@[a] == old(self).members@[a]);
                } else {
                    assert(self.members@[a] == old(self).members@[a]);
                    assert(self.members@[b] == old(self).members@[b]);
                }
            }
        }
    }

    /// Removes the first entry for `id`; clears the active member if it was
    /// `id`, and keeps the selection on a listed member.
    pub fn remove_member(&mut self, id: MemberId)
        ensures
            remove_member_post(*old(self), *final(self), id),
            old(self).wf() ==> final(self).wf(),
    {
        let mut i: usize = 0;
        while i < self.members.len()
            invariant
                i <= self.members@.len(),
                forall|j: int| 0 <= j < i ==> self.members@[j] != id,
                self.members@ == old(self).members@,
                self.selected == old(self).selected,
                self.active == old(self).active,
            decreases self.members@.len() - i,
        {
            if self.members[i] == id {
                proof {
                    lemma_first_index_is(self.members@, id, i as int);
                }
                self.members.remove(i);
                if self.active == Some(id) {
                    self.active = None;
                }
                if self.selected >= self.members.len() && self.members.len() > 0 {
                    self.selected = self.members.len() - 1;
                }
                proof {
                    if old(self).wf() {
                        assert forall|a: int, b: int| 0 <= a < b < self.members@.len()
                            implies self.members@[a] != self.members@[b] by {
                            let o = old(self).members@;
                            let ia = if a < i { a } else { a + 1 };
                            let ib = if b < i { b } else { b + 1 };
                            assert(self.members@[a] == o[ia]);
                            assert(self.members@[b] == o[ib]);
                        }
                    }
                }
                return;
            }
            i = i + 1;
        }
        proof {
            lemma_first_index_none(self.members@, id);
        }
    }

    /// All currently listed engineer instance numbers.
    pub fn engineer_instances(&self) -> (r: Vec<u32>)
        ensures
            r@ == engineer_instances_of(self.members@),
    {
        let mut out: Vec<u32> = Vec::new();
        let mut i: usize = 0;
        while i < self.members.len()
            invariant
                i <= self.members@.len(),
                out@ == engineer_instances_of(self.members@.take(i as int)),
            decreases self.members@.len() - i,
        {
            assert(self.members@.take(i + 1).drop_last() =~= self.members@.take(i as int));
            let m = self.members[i];
            if m.role == Role::Engineer {
                out.push(m.instance);
            }
            i = i + 1;
        }
        assert(self.members@.take(self.members@.len() as int) =~= self.members@);
        out
    }

    /// `j`/Down and `k`/Up move the selection; Enter asks to switch the
    /// terminal to the selected member.
    pub fn handle_key(&mut self, key: Key) -> (r: Option<Event>)
        ensures
            final(self).members == old(self).members,
            final(self).active == old(self).active,
            final(self).selected == members_selected_after(old(self).members@, old(self).selected, key),
            r == members_event(old(self).members@, old(self).selected, key),
            old(self).wf() ==> final(self).wf(),
    {
        let j = Key { code: KeyCode::Char('j'), modifiers: crate::keymap::KeyModifiers::none() };
        let k = Key { code: KeyCode::Char('k'), modifiers: crate::keymap::KeyModifiers::none() };
        if key == j || key.code == KeyCode::Down {
            self.move_down();
            None
        } else if key == k || key.code == KeyCode::Up {
            self.move_up();
            None
        } else if key.code == KeyCode::Enter {
            match self.selected_member() {
                Some(id) => Some(Event::SwitchSurface(Surface::Member(id))),
                None => None,
            }
        } else {
            None
        }
    }
}

/// Whether `key` moves the selection down (`j` or Down).
pub open spec fn is_down_key(key: Key) -> bool {
    key == (Key { code: KeyCode::Char('j'), modifiers: no_mods() }) || key.code == KeyCode::Down
}

/// Whether `key` moves the selection up (`k` or Up).
pub open spec fn is_up_key(key: Key) -> bool {
    key == (Key { code: KeyCode::Char('k'), modifiers: no_mods() }) || key.code == KeyCode::Up
}

/// One step down a list of `len` entries, stopping at the last one.
pub open spec fn step_down(selected: usize, len: nat) -> usize {
    if len == 0 {
        selected
    } else if selected + 1 < len {
        (selected + 1) as usize
    } else {
        (len - 1) as usize
    }
}

/// One step up, stopping at the first entry.
pub open spec fn step_up(selected: usize) -> usize {
    if selected > 0 {
        (selected - 1) as usize
    } else {
        0
    }
}

/// The selection of the members pane after `key`.
pub open spec fn members_selected_after(members: Seq<MemberId>, selected: usize, key: Key) -> usize {
    if is_down_key(key) {
        step_down(selected, members.len())
    } else if is_up_key(key) {
        step_up(selected)
    } else {
        selected
    }
}

/// The request the members pane hands up after `key`: Enter on a listed
/// member asks to switch the terminal to it.
pub open spec fn members_event(members: Seq<MemberId>, selected: usize, key: Key) -> Option<Event> {
    if is_down_key(key) || is_up_key(key) {
        None
    } else if key.code == KeyCode::Enter && selected < members.len() {
        Some(Event::SwitchSurface(Surface::Member(members[selected as int])))
    } else {
        None
    }
}

/// What [`MembersPane::remove_member`] does: the first entry for `id` goes,
/// the active member is cleared if it was `id`, and the selection is pulled
/// back onto the list; nothing changes when `id` is not listed.
pub open spec fn remove_member_post(a: MembersPane, b: MembersPane, id: MemberId) -> bool {
    match first_index(a.members@, id) {
        None => b.members@ == a.members@ && b.active == a.active && b.selected == a.selected,
        Some(k) => {
            &&& b.members@ == a.members@.remove(k)
            &&& b.active == (if a.active == Some(id) {
                None
            } else {
                a.active
            })
            &&& b.selected == (if a.selected >= b.members@.len() && b.members@.len() > 0 {
                (b.members@.len() - 1) as usize
            } else {
                a.selected
            })
        },
    }
}

/// Index of the first entry equal to `id`.
pub open spec fn first_index(s: Seq<MemberId>, id: MemberId) -> Option<int>
    decreases s.len(),
{
    if s.len() == 0 {
        None
    } else {
        match first_index(s.drop_last(), id) {
            Some(i) => Some(i),
            None => if s.last() == id {
                Some(s.len() - 1)
            } else {
                None
            },
        }
    }
}

pub(crate) proof fn lemma_first_index_props(s: Seq<MemberId>, id: MemberId)
    ensures
        match first_index(s, id) {
            Some(i) => 0 <= i < s.len() && s[i] == id && forall|j: int| 0 <= j < i ==> s[j] != id,
            None => forall|j: int| 0 <= j < s.len() ==> s[j] != id,
        },
    decreases s.len(),
{
    if s.len() > 0 {
        let t = s.drop_last();
        lemma_first_index_props(t, id);
        assert forall|j: int| 0 <= j < t.len() implies t[j] == s[j] by {}
    }
}

proof fn lemma_first_index_is(s: Seq<MemberId>, id: MemberId, i: int)
    requires
        0 <= i < s.len(),
        s[i] == id,
        forall|j: int| 0 <= j < i ==> s[j] != id,
    ensures
        first_index(s, id) == Some(i),
{
    lemma_first_index_props(s, id);
    match first_index(s, id) {
        Some(m) => {
            if m > i {
                assert(s[i] != id);
            }
        },
        None => {
            assert(s[i] != id);
        },
    }
}

proof fn lemma_first_index_none(s: Seq<MemberId>, id: MemberId)
    requires
        forall|j: int| 0 <= j < s.len() ==> s[j] != id,
    ensures
        first_index(s, id) is None,
{
    lemma_first_index_props(s, id);
    match first_index(s, id) {
        Some(m) => {
            assert(s[m] != id);
        },
        None => {},
    }
}

/// In a list without duplicates, removing the first entry for a member
/// leaves no entry for it; a member that is absent is listed once appended.
pub proof fn law_members_add_remove(members: Seq<MemberId>, id: MemberId)
    requires
        forall|i: int, j: int| 0 <= i < j < members.len() ==> members[i] != members[j],
    ensures
        match first_index(members, id) {
            Some(k) => !members.remove(k).contains(id),
            None => !members.contains(id),
        },
        !members.contains(id) ==> members.push(id).contains(id),
{
    lemma_first_index_props(members, id);
    match first_index(members, id) {
        Some(k) => {
            let r = members.remove(k);
            if r.contains(id) {
                let j = choose|j: int| 0 <= j < r.len() && r[j] == id;
                if j < k {
                    assert(r[j] == members[j]);
                } else {
                    assert(r[j] == members[j + 1]);
                }
            }
        },
        None => {},
    }
    if !members.contains(id) {
        assert(members.push(id)[members.len() as int] == id);
    }
}


/// One line of the members list: the text (active marker, label and the
/// latest heartbeat status), whether it is the active member, and the
/// liveness badge with its color.
#[derive(Debug, Clone, PartialEq, Eq)]
pub struct MemberRow {
    pub text: String,
    pub active: bool,
    pub badge: Option<(&'static str, UiColor)>,
}

/// The text of member `id`'s line.
pub open spec fn member_text(
    id: MemberId,
    active: Option<MemberId>,
    reg: Map<Seq<char>, HeartbeatRecord>,
) -> Seq<char> {
    let marker = if active == Some(id) {
        "* "@
    } else {
        "  "@
    };
    let suffix = if reg.contains_key(label_of(id)) {
        " \u{2014} "@ + reg[label_of(id)].status@
    } else {
        Seq::empty()
    };
    marker + label_of(id) + suffix
}

/// The badge of member `id`: `[DEAD]` once given up on, else its liveness
/// (none without telemetry).
pub open spec fn member_badge(
    id: MemberId,
    reg: Map<Seq<char>, HeartbeatRecord>,
    failed: Set<Seq<char>>,
    now_ms: u128,
) -> Option<(Seq<char>, UiColor)> {
    if failed.contains(label_of(id)) {
        Some((" [DEAD]"@, UiColor::Red))
    } else {
        match liveness_in(reg, label_of(id), now_ms) {
            Liveness::Live => Some((" [WORK]"@, UiColor::Green)),
            Liveness::Stale => Some((" [STALE]"@, UiColor::Yellow)),
            Liveness::Dead => Some((" [DEAD]"@, UiColor::Red)),
            Liveness::Unknown => None,
        }
    }
}

pub open spec fn member_row_view(r: MemberRow) -> (Seq<char>, bool, Option<(Seq<char>, UiColor)>) {
    (r.text@, r.active, match r.badge {
        Some((t, c)) => Some((t@, c)),
        None => None,
    })
}

impl MembersPane {
    /// The lines of the members list, in list order.
    pub fn rows(&self, registry: &AgentRegistry, failed_agents: &StringHashSet, now_ms: u128) -> (r: Vec<MemberRow>)
        ensures
            r@.len() == self.members@.len(),
            forall|i: int|
                0 <= i < r@.len() ==> #[trigger] member_row_view(r@[i]) == (
                    member_text(self.members@[i], self.active, registry@),
                    self.active == Some(self.members@[i]),
                    member_badge(self.members@[i], registry@, failed_agents@, now_ms),
                ),
    {
        let mut rows: Vec<MemberRow> = Vec::new();
        let mut i: usize = 0;
        while i < self.members.len()
            invariant
                i <= self.members@.len(),
                rows@.len() == i,
                forall|j: int|
                    0 <= j < i ==> #[trigger] member_row_view(rows@[j]) == (
                        member_text(self.members@[j], self.active, registry@),
                        self.active == Some(self.members@[j]),
                        member_badge(self.members@[j], registry@, failed_agents@, now_ms),
                    ),
            decreases self.members@.len() - i,
        {
            let id = self.members[i];
            let is_active = match self.active {
                Some(a) => a == id,
                None => false,
            };
            let label = id.label();
            let mut text = if is_active {
                chars_of("* ")
            } else {
                chars_of("  ")
            };
            crate::text::append_chars(&mut text, &chars_of(label.as_str()));
            match registry.get(label.as_str()) {
                Some(rec) => {
                    crate::text::append_lit(&mut text, " \u{2014} ");
                    crate::text::append_chars(&mut text, &chars_of(rec.status.as_str()));
                },
                None => {},
            }
            let badge: Option<(&'static str, UiColor)> = if failed_agents.contains(label.as_str()) {
                Some((" [DEAD]", UiColor::Red))
            } else {
                match registry.liveness_for(label.as_str(), now_ms) {
                    Liveness::Live => Some((" [WORK]", UiColor::Green)),
                    Liveness::Stale => Some((" [STALE]", UiColor::Yellow)),
                    Liveness::Dead => Some((" [DEAD]", UiColor::Red)),
                    Liveness::Unknown => None,
                }
            };
            proof {
                assert(text@ =~= member_text(id, self.active, registry@));
            }
            rows.push(MemberRow { text: string_of(&text), active: is_active, badge });
            proof {
                assert(member_row_view(rows@[i as int]) == (
                    member_text(self.members@[i as int], self.active, registry@),
                    self.active == Some(self.members@[i as int]),
                    member_badge(self.members@[i as int], registry@, failed_agents@, now_ms),
                ));
            }
            i = i + 1;
        }
        rows
    }
}

} // verus!
