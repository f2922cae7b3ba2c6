//! Grid positions of the panes and directional focus movement.
use vstd::prelude::*;
use crate::app::PaneId;
use crate::keymap::Dir;

verus! {

#[derive(Debug, Clone, Copy, PartialEq, Eq, Structural)]
pub struct Slot {
    pub pane: PaneId,
    pub col: u8,
    pub row: u8,
}

pub struct PaneLayout {
    pub slots: Vec<Slot>,
}

/// Index of the first slot holding `pane`.
pub open spec fn slot_index(slots: Seq<Slot>, pane: PaneId) -> Option<int>
    decreases slots.len(),
{
    if slots.len() == 0 {
        None
    } else {
        match slot_index(slots.drop_last(), pane) {
            Some(i) => Some(i),
            None => if slots.last().pane == pane {
                Some(slots.len() - 1)
            } else {
                None
            },
        }
    }
}

/// Whether `s` lies strictly in direction `dir` from `(fc, fr)`.
pub open spec fn in_direction(s: Slot, fc: u8, fr: u8, dir: Dir) -> bool {
    match dir {
        Dir::Left => s.col < fc,
        Dir::Right => s.col > fc,
        Dir::Up => s.row < fr,
        Dir::Down => s.row > fr,
    }
}

pub open spec fn dist(a: u8, b: u8) -> int {
    if a >= b {
        a - b
    } else {
        b - a
    }
}

/// How far `s` is from `(fc, fr)` for a move in `dir`, compared
/// lexicographically: first whether it leaves the row (for horizontal
/// moves) or the column (for vertical ones), then the distance along the
/// move, then the distance across it.
pub open spec fn move_key(s: Slot, fc: u8, fr: u8, dir: Dir) -> (int, int, int) {
    match dir {
        Dir::Left | Dir::Right => (if s.row != fr { 1 } else { 0 }, dist(s.col, fc), dist(s.row, fr)),
        Dir::Up | Dir::Down => (if s.col != fc { 1 } else { 0 }, dist(s.row, fr), dist(s.col, fc)),
    }
}

pub open spec fn key_le(a: (int, int, int), b: (int, int, int)) -> bool {
    a.0 < b.0 || (a.0 == b.0 && (a.1 < b.1 || (a.1 == b.1 && a.2 <= b.2)))
}

/// The neighbor chosen for a move: the first slot in the direction whose
/// key is smallest.
pub open spec fn is_best_neighbor(slots: Seq<Slot>, fc: u8, fr: u8, dir: Dir, j: int) -> bool {
    &&& 0 <= j < slots.len()
    &&& in_direction(slots[j], fc, fr, dir)
    &&& forall|k: int|
        0 <= k < slots.len() && in_direction(#[trigger] slots[k], fc, fr, dir) ==> key_le(
            move_key(slots[j], fc, fr, dir),
            move_key(slots[k], fc, fr, dir),
        )
    &&& forall|k: int|
        0 <= k < j && in_direction(#[trigger] slots[k], fc, fr, dir) ==> !key_le(
            move_key(slots[k], fc, fr, dir),
            move_key(slots[j], fc, fr, dir),
        )
}

/// The pane that a move from `from` in direction `dir` lands on: the best
/// neighbor (see [`is_best_neighbor`]) of the first slot holding `from`;
/// `None` when `from` has no slot or nothing lies that way.
pub open spec fn neighbor_spec(slots: Seq<Slot>, from: PaneId, dir: Dir) -> Option<PaneId> {
    match slot_index(slots, from) {
        None => None,
        Some(f) => {
            let fc = slots[f].col;
            let fr = slots[f].row;
            if exists|j: int| is_best_neighbor(slots, fc, fr, dir, j) {
                Some(slots[choose|j: int| is_best_neighbor(slots, fc, fr, dir, j)].pane)
            } else {
                None
            }
        },
    }
}

/// There is at most one best neighbor.
proof fn lemma_best_neighbor_unique(slots: Seq<Slot>, fc: u8, fr: u8, dir: Dir, j: int, m: int)
    requires
        is_best_neighbor(slots, fc, fr, dir, j),
        is_best_neighbor(slots, fc, fr, dir, m),
    ensures
        j == m,
{
    if j < m {
        assert(in_direction(slots[j], fc, fr, dir));
        assert(in_direction(slots[m], fc, fr, dir));
    } else if m < j {
        assert(in_direction(slots[j], fc, fr, dir));
        assert(in_direction(slots[m], fc, fr, dir));
    }
}

proof fn lemma_slot_index(slots: Seq<Slot>, pane: PaneId)
    ensures
        match slot_index(slots, pane) {
            Some(i) => 0 <= i < slots.len() && slots[i].pane == pane && forall|j: int|
                0 <= j < i ==> slots[j].pane != pane,
            None => forall|j: int| 0 <= j < slots.len() ==> slots[j].pane != pane,
        },
    decreases slots.len(),
{
    if slots.len() > 0 {
        let t = slots.drop_last();
        lemma_slot_index(t, pane);
        assert forall|j: int| 0 <= j < t.len() implies t[j] == slots[j] by {}
    }
}

impl PaneLayout {
    /// Default three-column layout: Workspaces | Terminal | GitStatus.
    pub fn default_horizontal() -> (r: Self)
        ensures
            r.slots@ == seq![
                Slot { pane: PaneId::Workspaces, col: 0, row: 0 },
                Slot { pane: PaneId::Terminal, col: 1, row: 0 },
                Slot { pane: PaneId::GitStatus, col: 2, row: 0 },
            ],
    {
        let mut slots: Vec<Slot> = Vec::new();
        slots.push(Slot { pane: PaneId::Workspaces, col: 0, row: 0 });
        slots.push(Slot { pane: PaneId::Terminal, col: 1, row: 0 });
        slots.push(Slot { pane: PaneId::GitStatus, col: 2, row: 0 });
        assert(slots@ =~= seq![
            Slot { pane: PaneId::Workspaces, col: 0, row: 0 },
            Slot { pane: PaneId::Terminal, col: 1, row: 0 },
            Slot { pane: PaneId::GitStatus, col: 2, row: 0 },
        ]);
        PaneLayout { slots }
    }

    fn slot_pos(&self, pane: PaneId) -> (r: Option<usize>)
        ensures
            match r {
                Some(i) => slot_index(self.slots@, pane) == Some(i as int),
                None => slot_index(self.slots@, pane) is None,
            },
    {
        proof {
            lemma_slot_index(self.slots@, pane);
        }
        let mut i: usize = 0;
        while i < self.slots.len()
            invariant
                i <= self.slots@.len(),
                forall|j: int| 0 <= j < i ==> self.slots@[j].pane != pane,
                match slot_index(self.slots@, pane) {
                    Some(m) => 0 <= m < self.slots@.len() && self.slots@[m].pane == pane && forall|j: int|
                        0 <= j < m ==> self.slots@[j].pane != pane,
                    None => forall|j: int| 0 <= j < self.slots@.len() ==> self.slots@[j].pane != pane,
                },
            decreases self.slots@.len() - i,
        {
            if self.slots[i].pane == pane {
                return Some(i);
            }
            i = i + 1;
        }
        None
    }

    /// The first slot holding `pane`.
    pub fn slot(&self, pane: PaneId) -> (r: Option<&Slot>)
        ensures
            match slot_index(self.slots@, pane) {
                Some(i) => r == Some(&self.slots@[i]),
                None => r is None,
            },
    {
        proof {
            lemma_slot_index(self.slots@, pane);
        }
        match self.slot_pos(pane) {
            Some(i) => Some(&self.slots[i]),
            None => None,
        }
    }

    /// The nearest neighbor of `from` in direction `dir`: among the slots
    /// strictly that way, the first with the smallest key (see
    /// [`move_key`]); `None` when `from` has no slot or nothing lies that
    /// way.
    pub fn neighbor(&self, from: PaneId, dir: Dir) -> (r: Option<PaneId>)
        ensures
            r == neighbor_spec(self.slots@, from, dir),
            match slot_index(self.slots@, from) {
                None => r is None,
                Some(f) => {
                    let fc = self.slots@[f].col;
                    let fr = self.slots@[f].row;
                    match r {
                        None => forall|k: int|
                            0 <= k < self.slots@.len() ==> !in_direction(#[trigger] self.slots@[k], fc, fr, dir),
                        Some(p) => exists|j: int|
                            is_best_neighbor(self.slots@, fc, fr, dir, j) && (#[trigger] self.slots@[j]).pane == p,
                    }
                },
            },
    {
        proof {
            lemma_slot_index(self.slots@, from);
        }
        let f = match self.slot_pos(from) {
            Some(f) => f,
            None => return None,
        };
        let fc = self.slots[f].col;
        let fr = self.slots[f].row;
        let ghost sl = self.slots@;
        let mut best: Option<usize> = None;
        let mut i: usize = 0;
        while i < self.slots.len()
            invariant
                i <= sl.len(),
                sl == self.slots@,
                match best {
                    None => forall|k: int| 0 <= k < i ==> !in_direction(#[trigger] sl[k], fc, fr, dir),
                    Some(b) => {
                        &&& b < i
                        &&& in_direction(sl[b as int], fc, fr, dir)
                        &&& forall|k: int|
                            0 <= k < i && in_direction(#[trigger] sl[k], fc, fr, dir) ==> key_le(
                                move_key(sl[b as int], fc, fr, dir),
                                move_key(sl[k], fc, fr, dir),
                            )
                        &&& forall|k: int|
                            0 <= k < b && in_direction(#[trigger] sl[k], fc, fr, dir) ==> !key_le(
                                move_key(sl[k], fc, fr, dir),
                                move_key(sl[b as int], fc, fr, dir),
                            )
                    },
                },
            decreases sl.len() - i,
        {
            let s = self.slots[i];
            let inside = match dir {
                Dir::Left => s.col < fc,
                Dir::Right => s.col > fc,
                Dir::Up => s.row < fr,
                Dir::Down => s.row > fr,
            };
            if inside {
                match best {
                    None => {
                        best = Some(i);
                    },
                    Some(b) => {
                        let t = self.slots[b];
                        if Self::key_less(s, t, fc, fr, dir) {
                            best = Some(i);
                        }
                    },
                }
            }
            i = i + 1;
        }
        match best {
            None => {
                assert(!exists|j: int| is_best_neighbor(sl, fc, fr, dir, j)) by {
                    if exists|j: int| is_best_neighbor(sl, fc, fr, dir, j) {
                        let j = choose|j: int| is_best_neighbor(sl, fc, fr, dir, j);
                        assert(in_direction(sl[j], fc, fr, dir));
                    }
                }
                None
            },
            Some(b) => {
                assert(is_best_neighbor(sl, fc, fr, dir, b as int));
                proof {
                    let c = choose|j: int| is_best_neighbor(sl, fc, fr, dir, j);
                    lemma_best_neighbor_unique(sl, fc, fr, dir, b as int, c);
                }
                Some(self.slots[b].pane)
            },
        }
    }

    fn dist_u8(a: u8, b: u8) -> (r: u8)
        ensures
            r == dist(a, b),
    {
        if a >= b {
            a - b
        } else {
            b - a
        }
    }

    /// Whether `s` has a strictly smaller key than `t`.
    fn key_less(s: Slot, t: Slot, fc: u8, fr: u8, dir: Dir) -> (r: bool)
        ensures
            r == !key_le(move_key(t, fc, fr, dir), move_key(s, fc, fr, dir)),
    {
        let horizontal = match dir {
            Dir::Left | Dir::Right => true,
            Dir::Up | Dir::Down => false,
        };
        let (sa, sb, sc, ta, tb, tc): (u8, u8, u8, u8, u8, u8) = if horizontal {
            (
                if s.row != fr { 1 } else { 0 },
                Self::dist_u8(s.col, fc),
                Self::dist_u8(s.row, fr),
                if t.row != fr { 1 } else { 0 },
                Self::dist_u8(t.col, fc),
                Self::dist_u8(t.row, fr),
            )
        } else {
            (
                if s.col != fc { 1 } else { 0 },
                Self::dist_u8(s.row, fr),
                Self::dist_u8(s.col, fc),
                if t.col != fc { 1 } else { 0 },
                Self::dist_u8(t.row, fr),
                Self::dist_u8(t.col, fc),
            )
        };
        sa < ta || (sa == ta && (sb < tb || (sb == tb && sc < tc)))
    }
}

/// A move never lands on a pane that lies the other way: the chosen
/// neighbor is strictly in the direction of the move, and no slot in that
/// direction is closer by the move's key.
pub proof fn law_neighbor_is_in_direction_and_nearest(
    slots: Seq<Slot>,
    fc: u8,
    fr: u8,
    dir: Dir,
    j: int,
    k: int,
)
    requires
        is_best_neighbor(slots, fc, fr, dir, j),
        0 <= k < slots.len(),
        in_direction(slots[k], fc, fr, dir),
    ensures
        in_direction(slots[j], fc, fr, dir),
        key_le(move_key(slots[j], fc, fr, dir), move_key(slots[k], fc, fr, dir)),
        k < j ==> !key_le(move_key(slots[k], fc, fr, dir), move_key(slots[j], fc, fr, dir)),
{
}


/// Columns the side panes and the borders take from the screen width: the
/// workspaces column (28), the right column (40) and six border cells.
pub const SIDE_COLUMNS: u16 = 74;

/// `a - b`, or 0 when `b` is larger.
pub open spec fn sat_sub(a: u16, b: u16) -> u16 {
    if a >= b {
        (a - b) as u16
    } else {
        0
    }
}

pub open spec fn at_least(a: u16, m: u16) -> u16 {
    if a >= m {
        a
    } else {
        m
    }
}

/// Rows and columns of the terminal pane on a `width` x `height` screen:
/// what the side columns, the borders and the status bar leave, but at
/// least `min_rows` rows and `min_cols` columns.
pub open spec fn terminal_pane_size_spec(width: u16, height: u16, min_rows: u16, min_cols: u16) -> (u16, u16) {
    (at_least(sat_sub(height, 3), min_rows), at_least(sat_sub(width, SIDE_COLUMNS), min_cols))
}

pub fn terminal_pane_size(width: u16, height: u16, min_rows: u16, min_cols: u16) -> (r: (u16, u16))
    ensures
        r == terminal_pane_size_spec(width, height, min_rows, min_cols),
{
    let cols = width.saturating_sub(SIDE_COLUMNS);
    let rows = height.saturating_sub(3);
    (if rows >= min_rows { rows } else { min_rows }, if cols >= min_cols { cols } else { min_cols })
}

} // verus!
