//! The status pane: the bead board or the tail of the agent journal.
use vstd::prelude::*;
use crate::keymap::{Key, KeyCode};
use crate::panes::color::UiColor;
use crate::beads::{Bead, Status};
use crate::runtime::JournalEntry;
use crate::text::{chars_of, slice_of, string_of};
use vstd::string::StringSliceAdditionalSpecFns;

verus! {

/// How many journal entries the pane keeps.
pub const JOURNAL_TAIL_MAX: usize = 200;
/// How many beads each board column lists.
pub const KANBAN_COLUMN_LIMIT: usize = 8;

#[derive(Debug, Clone, Copy, PartialEq, Eq, Structural)]
pub enum SubView {
    Beads,
    Journal,
}

pub struct StatusPane {
    pub sub_view: SubView,
    /// Most recent journal lines, oldest first, at most `JOURNAL_TAIL_MAX`.
    pub journal_tail: Vec<JournalEntry>,
    /// When set, the journal view shows only entries of this agent id.
    pub journal_filter: Option<String>,
}

impl Default for StatusPane {
    fn default() -> (r: Self)
        ensures
            r.sub_view == SubView::Beads,
            r.journal_tail@.len() == 0,
            r.journal_filter is None,
    {
        Self::new()
    }
}

/// The newest `JOURNAL_TAIL_MAX` entries of `entries`, in order.
pub open spec fn journal_tail_of(entries: Seq<JournalEntry>) -> Seq<JournalEntry> {
    if entries.len() <= JOURNAL_TAIL_MAX {
        entries
    } else {
        entries.skip(entries.len() - JOURNAL_TAIL_MAX)
    }
}

impl StatusPane {
    pub fn new() -> (r: Self)
        ensures
            r.sub_view == SubView::Beads,
            r.journal_tail@.len() == 0,
            r.journal_filter is None,
    {
        StatusPane { sub_view: SubView::Beads, journal_tail: Vec::new(), journal_filter: None }
    }

    /// Keeps the newest `JOURNAL_TAIL_MAX` entries.
    pub fn replace_journal(&mut self, entries: Vec<JournalEntry>)
        ensures
            final(self).journal_tail@ == journal_tail_of(entries@),
            final(self).sub_view == old(self).sub_view,
            final(self).journal_filter == old(self).journal_filter,
    {
        let len = entries.len();
        if len <= JOURNAL_TAIL_MAX {
            self.journal_tail = entries;
            return;
        }
        let start = len - JOURNAL_TAIL_MAX;
        let mut entries = entries;
        let mut tail: Vec<JournalEntry> = entries.split_off(start);
        self.journal_tail = tail;
    }

    /// `J` flips between the board and the journal; in the journal, plain
    /// `f` clears the filter, or filters on the newest entry's agent.
    pub fn handle_key(&mut self, key: Key)
        ensures
            final(self).sub_view == status_view_after(*old(self), key),
            final(self).journal_filter == status_filter_after(*old(self), key),
            final(self).journal_tail == old(self).journal_tail,
    {
        if key.code == KeyCode::Char('J') {
            self.sub_view = match self.sub_view {
                SubView::Beads => SubView::Journal,
                SubView::Journal => SubView::Beads,
            };
        } else if key.code == KeyCode::Char('f') && key.modifiers == crate::keymap::KeyModifiers::none()
            && self.sub_view == SubView::Journal {
            if self.journal_filter.is_some() {
                self.journal_filter = None;
            } else if self.journal_tail.len() > 0 {
                let n = self.journal_tail.len();
                let id = self.journal_tail[n - 1].agent_id.clone();
                self.journal_filter = Some(id);
            }
        }
    }
}

/// Whether `key` is a plain `f` pressed while the journal is shown.
pub open spec fn is_filter_key(p: StatusPane, key: Key) -> bool {
    key.code == KeyCode::Char('f') && key.modifiers == crate::keymap::no_mods() && p.sub_view
        == SubView::Journal
}

/// The sub-view after `key`: `J` flips it.
pub open spec fn status_view_after(p: StatusPane, key: Key) -> SubView {
    if key.code == KeyCode::Char('J') {
        match p.sub_view {
            SubView::Beads => SubView::Journal,
            SubView::Journal => SubView::Beads,
        }
    } else {
        p.sub_view
    }
}

/// The journal filter after `key`: the filter key clears a set filter, or
/// sets it to the agent of the newest entry.
pub open spec fn status_filter_after(p: StatusPane, key: Key) -> Option<String> {
    if key.code != KeyCode::Char('J') && is_filter_key(p, key) {
        if p.journal_filter is Some {
            None
        } else if p.journal_tail@.len() > 0 {
            Some(p.journal_tail@.last().agent_id)
        } else {
            None
        }
    } else {
        p.journal_filter
    }
}

/// `s` shortened to at most `n` characters: longer text keeps its first
/// `n - 1` characters and ends with an ellipsis.
pub open spec fn truncate_spec(s: Seq<char>, n: nat) -> Seq<char> {
    if s.len() <= n {
        s
    } else {
        s.take(if n >= 1 { n - 1 } else { 0 }).push('\u{2026}')
    }
}

pub fn truncate(s: &str, n: usize) -> (r: String)
    ensures
        r@ == truncate_spec(s@, n as nat),
{
    let v = chars_of(s);
    if v.len() <= n {
        return string_of(&v);
    }
    let keep: usize = if n >= 1 { n - 1 } else { 0 };
    let mut out = slice_of(&v, 0, keep);
    out.push('\u{2026}');
    string_of(&out)
}

/// Text no longer than the limit passes unchanged; longer text ends up
/// exactly at the limit (one character for a zero limit).
pub proof fn law_truncate_length(s: Seq<char>, n: nat)
    ensures
        s.len() <= n ==> truncate_spec(s, n) == s,
        s.len() > n ==> truncate_spec(s, n).len() == (if n >= 1 { n } else { 1 }),
        s.len() > n ==> truncate_spec(s, n).last() == '\u{2026}',
{
}

/// The palette that agent ids are colored from.
pub open spec fn palette(i: int) -> UiColor {
    if i == 0 {
        UiColor::Cyan
    } else if i == 1 {
        UiColor::Magenta
    } else if i == 2 {
        UiColor::Green
    } else if i == 3 {
        UiColor::Yellow
    } else if i == 4 {
        UiColor::Blue
    } else if i == 5 {
        UiColor::LightRed
    } else if i == 6 {
        UiColor::LightGreen
    } else {
        UiColor::LightCyan
    }
}

/// The 32-bit string hash `h = h * 31 + byte` over the UTF-8 bytes.
pub open spec fn agent_hash(bytes: Seq<u8>) -> int
    decreases bytes.len(),
{
    if bytes.len() == 0 {
        0
    } else {
        (agent_hash(bytes.drop_last()) * 31 + bytes.last()) % 0x1_0000_0000
    }
}

/// A stable color per agent id.
pub fn color_for_agent(id: &str) -> (r: UiColor)
    ensures
        r == palette(agent_hash(id.spec_bytes()) % 8),
{
    let b = id.as_bytes();
    let mut h: u64 = 0;
    let mut i: usize = 0;
    while i < b.len()
        invariant
            i <= b@.len(),
            b@ == id.spec_bytes(),
            h == agent_hash(b@.take(i as int)),
            h < 0x1_0000_0000,
        decreases b@.len() - i,
    {
        assert(b@.take(i + 1).drop_last() =~= b@.take(i as int));
        h = (h * 31 + b[i] as u64) % 0x1_0000_0000;
        i = i + 1;
    }
    assert(b@.take(b@.len() as int) =~= b@);
    let k = h % 8;
    if k == 0 {
        UiColor::Cyan
    } else if k == 1 {
        UiColor::Magenta
    } else if k == 2 {
        UiColor::Green
    } else if k == 3 {
        UiColor::Yellow
    } else if k == 4 {
        UiColor::Blue
    } else if k == 5 {
        UiColor::LightRed
    } else if k == 6 {
        UiColor::LightGreen
    } else {
        UiColor::LightCyan
    }
}


/// One line of the journal view: the `[agent] ` tag in the agent's color,
/// then the message.
#[derive(Debug, Clone, PartialEq, Eq)]
pub struct JournalRow {
    pub tag: String,
    pub color: UiColor,
    pub message: String,
}

/// The journal entries the view shows: all of them, or those of the
/// filtered agent.
pub open spec fn visible_entries(tail: Seq<JournalEntry>, filter: Option<Seq<char>>) -> Seq<JournalEntry>
    decreases tail.len(),
{
    if tail.len() == 0 {
        Seq::empty()
    } else {
        let pre = visible_entries(tail.drop_last(), filter);
        match filter {
            Some(f) => if tail.last().agent_id@ == f {
                pre.push(tail.last())
            } else {
                pre
            },
            None => pre.push(tail.last()),
        }
    }
}

/// The row of one journal entry.
pub open spec fn journal_row_spec(e: JournalEntry) -> (Seq<char>, UiColor, Seq<char>) {
    ("["@ + e.agent_id@ + "] "@, palette(agent_hash(vstd::utf8::encode_utf8(e.agent_id@)) % 8), e.message@)
}

pub open spec fn row_views(rows: Seq<JournalRow>) -> Seq<(Seq<char>, UiColor, Seq<char>)> {
    rows.map_values(|r: JournalRow| (r.tag@, r.color, r.message@))
}

/// The header of the journal view: the filter in effect.
pub open spec fn filter_hint_spec(filter: Option<Seq<char>>) -> Seq<char> {
    match filter {
        Some(id) => " [filter: "@ + id + "]  "@,
        None => " [no filter]  "@,
    }
}

/// The board's columns, left to right: heading and the status listed.
pub open spec fn kanban_columns_spec() -> Seq<(Seq<char>, Status)> {
    seq![
        ("OPEN"@, Status::Open),
        ("IN-PROG"@, Status::InProgress),
        ("REVIEW"@, Status::InReview),
        ("DONE"@, Status::Closed),
    ]
}

/// The beads with `status`, in board order.
pub open spec fn beads_with_status(beads: Seq<Bead>, status: Status) -> Seq<Bead>
    decreases beads.len(),
{
    if beads.len() == 0 {
        Seq::empty()
    } else {
        let pre = beads_with_status(beads.drop_last(), status);
        if beads.last().status == status {
            pre.push(beads.last())
        } else {
            pre
        }
    }
}

/// The line of a bead on the board: its id and its title cut to 20
/// characters.
pub open spec fn kanban_line(b: Bead) -> Seq<char> {
    b.id@ + " "@ + truncate_spec(b.title@, 20)
}

/// The lines of one board column: the first `KANBAN_COLUMN_LIMIT` beads
/// with `status`.
pub open spec fn kanban_column_spec(beads: Seq<Bead>, status: Status) -> Seq<Seq<char>> {
    let picked = beads_with_status(beads, status);
    let shown = if picked.len() <= KANBAN_COLUMN_LIMIT {
        picked
    } else {
        picked.take(KANBAN_COLUMN_LIMIT as int)
    };
    shown.map_values(|b: Bead| kanban_line(b))
}

/// The board's columns: heading and status, left to right.
pub fn kanban_columns() -> (r: Vec<(&'static str, Status)>)
    ensures
        r@.map_values(|c: (&'static str, Status)| (c.0@, c.1)) == kanban_columns_spec(),
{
    let mut v: Vec<(&'static str, Status)> = Vec::new();
    v.push(("OPEN", Status::Open));
    v.push(("IN-PROG", Status::InProgress));
    v.push(("REVIEW", Status::InReview));
    v.push(("DONE", Status::Closed));
    assert(v@.map_values(|c: (&'static str, Status)| (c.0@, c.1)) =~= kanban_columns_spec());
    v
}

/// The lines of the board column for `status`.
pub fn kanban_column(beads: &[Bead], status: Status) -> (r: Vec<String>)
    ensures
        crate::text::str_views(r@) == kanban_column_spec(beads@, status),
{
    let ghost all = beads@;
    let mut lines: Vec<String> = Vec::new();
    let mut picked: Ghost<Seq<Bead>> = Ghost(Seq::empty());
    let mut i: usize = 0;
    while i < beads.len()
        invariant
            i <= all.len(),
            all == beads@,
            picked@ == beads_with_status(all.take(i as int), status),
            lines@.len() <= KANBAN_COLUMN_LIMIT,
            lines@.len() == (if picked@.len() <= KANBAN_COLUMN_LIMIT {
                picked@.len()
            } else {
                KANBAN_COLUMN_LIMIT as nat
            }),
            crate::text::str_views(lines@) == picked@.take(lines@.len() as int).map_values(
                |b: Bead| kanban_line(b),
            ),
        decreases all.len() - i,
    {
        proof {
            assert(all.take(i + 1).drop_last() =~= all.take(i as int));
            assert(all.take(i + 1).last() == all[i as int]);
        }
        let b = &beads[i];
        if b.status == status {
            let ghost before = picked@;
            proof {
                picked@ = picked@.push(all[i as int]);
            }
            if lines.len() < KANBAN_COLUMN_LIMIT {
                let mut v = chars_of(b.id.as_str());
                v.push(' ');
                let t = truncate(b.title.as_str(), 20);
                crate::text::append_chars(&mut v, &chars_of(t.as_str()));
                proof {
                    reveal_strlit(" ");
                    assert(v@ =~= kanban_line(all[i as int]));
                }
                let ghost lv = crate::text::str_views(lines@);
                lines.push(string_of(&v));
                proof {
                    assert(crate::text::str_views(lines@) =~= lv.push(kanban_line(all[i as int])));
                    assert(picked@.take(lines@.len() as int) =~= before.take((lines@.len() - 1) as int).push(
                        all[i as int],
                    ));
                    assert(picked@.take(lines@.len() as int).map_values(|b: Bead| kanban_line(b))
                        =~= before.take((lines@.len() - 1) as int).map_values(|b: Bead| kanban_line(b)).push(
                        kanban_line(all[i as int]),
                    ));
                }
            } else {
                proof {
                    assert(picked@.take(lines@.len() as int) =~= before.take(lines@.len() as int));
                }
            }
        }
        i = i + 1;
    }
    proof {
        assert(all.take(all.len() as int) =~= all);
        let p = picked@;
        if p.len() <= KANBAN_COLUMN_LIMIT {
            assert(p.take(p.len() as int) =~= p);
        }
    }
    lines
}

impl StatusPane {
    /// The header text of the journal view.
    pub fn journal_filter_hint(&self) -> (r: String)
        ensures
            r@ == filter_hint_spec(crate::text::opt_seq(self.journal_filter)),
    {
        match &self.journal_filter {
            Some(id) => {
                let mut v = chars_of(" [filter: ");
                crate::text::append_chars(&mut v, &chars_of(id.as_str()));
                crate::text::append_lit(&mut v, "]  ");
                string_of(&v)
            },
            None => String::from_str(" [no filter]  "),
        }
    }

    /// The rows of the journal view, oldest first.
    pub fn journal_rows(&self) -> (r: Vec<JournalRow>)
        ensures
            row_views(r@) == visible_entries(self.journal_tail@, crate::text::opt_seq(self.journal_filter)).map_values(
                |e: JournalEntry| journal_row_spec(e),
            ),
    {
        let ghost tail = self.journal_tail@;
        let ghost filter = crate::text::opt_seq(self.journal_filter);
        let mut rows: Vec<JournalRow> = Vec::new();
        let mut i: usize = 0;
        while i < self.journal_tail.len()
            invariant
                i <= tail.len(),
                tail == self.journal_tail@,
                filter == crate::text::opt_seq(self.journal_filter),
                row_views(rows@) == visible_entries(tail.take(i as int), filter).map_values(
                    |e: JournalEntry| journal_row_spec(e),
                ),
            decreases tail.len() - i,
        {
            proof {
                assert(tail.take(i + 1).drop_last() =~= tail.take(i as int));
                assert(tail.take(i + 1).last() == tail[i as int]);
            }
            let e = &self.journal_tail[i];
            let shown = match &self.journal_filter {
                Some(f) => crate::text::chars_eq(&chars_of(f.as_str()), &chars_of(e.agent_id.as_str())),
                None => true,
            };
            if shown {
                let mut tag = chars_of("[");
                crate::text::append_chars(&mut tag, &chars_of(e.agent_id.as_str()));
                crate::text::append_lit(&mut tag, "] ");
                let ghost before = row_views(rows@);
                let ghost prev = visible_entries(tail.take(i as int), filter);
                rows.push(
                    JournalRow {
                        tag: string_of(&tag),
                        color: color_for_agent(e.agent_id.as_str()),
                        message: e.message.clone(),
                    },
                );
                proof {
                    assert(row_views(rows@) =~= before.push(journal_row_spec(tail[i as int])));
                    assert(prev.push(tail[i as int]).map_values(|e: JournalEntry| journal_row_spec(e))
                        =~= prev.map_values(|e: JournalEntry| journal_row_spec(e)).push(
                        journal_row_spec(tail[i as int]),
                    ));
                }
            }
            i = i + 1;
        }
        proof {
            assert(tail.take(tail.len() as int) =~= tail);
        }
        rows
    }
}

} // verus!
