//! The workspaces pane: the repository's worktrees, the selection, and the
//! "new worktree" dialog (whose text field the application edits).
use vstd::prelude::*;
use crate::event::Event;
use crate::panes::members::{is_down_key, is_up_key, step_down, step_up};
use crate::git::Worktree;
use crate::paths::{path_equal, paths_equal};
use crate::keymap::{no_mods, Key, KeyCode};

verus! {

pub struct WorkspacesPane {
    pub root_path: String,
    pub worktrees: Vec<Worktree>,
    pub selected: usize,
    pub modal_open: bool,
}

/// What a key press in the workspaces pane leads to.
#[derive(Debug, Clone, PartialEq, Eq)]
pub enum WorkspaceKeyOutcome {
    /// Nothing beyond the pane's own state change.
    Nothing,
    /// A request for the application.
    Event(Event),
    /// The key edits the dialog's text field.
    EditInput,
}

/// Index of the first worktree at `path`.
pub open spec fn path_index(w: Seq<Worktree>, path: Seq<char>) -> Option<int>
    decreases w.len(),
{
    if w.len() == 0 {
        None
    } else {
        match path_index(w.drop_last(), path) {
            Some(i) => Some(i),
            None => if path_equal(w.last().path@, path) {
                Some(w.len() - 1)
            } else {
                None
            },
        }
    }
}

proof fn lemma_path_index(w: Seq<Worktree>, path: Seq<char>)
    ensures
        match path_index(w, path) {
            Some(i) => 0 <= i < w.len() && path_equal(w[i].path@, path) && forall|j: int|
                0 <= j < i ==> !path_equal(w[j].path@, path),
            None => forall|j: int| 0 <= j < w.len() ==> !path_equal(w[j].path@, path),
        },
    decreases w.len(),
{
    if w.len() > 0 {
        let t = w.drop_last();
        lemma_path_index(t, path);
        assert forall|j: int| 0 <= j < t.len() implies t[j] == w[j] by {}
    }
}

pub open spec fn plain_key(c: char) -> Key {
    Key { code: KeyCode::Char(c), modifiers: no_mods() }
}

impl WorkspacesPane {
    /// The selection points at a worktree, or is 0 when there is none.
    pub open spec fn wf(&self) -> bool {
        self.selected == 0 || self.selected < self.worktrees@.len()
    }

    pub fn new(root_path: String) -> (r: Self)
        ensures
            r.root_path == root_path,
            r.worktrees@.len() == 0,
            r.selected == 0,
            !r.modal_open,
            r.wf(),
    {
        WorkspacesPane { root_path, worktrees: Vec::new(), selected: 0, modal_open: false }
    }

    /// Replaces the list, pulling the selection back onto it.
    pub fn set_worktrees(&mut self, worktrees: Vec<Worktree>)
        ensures
            final(self).worktrees == worktrees,
            final(self).selected == (if old(self).selected >= worktrees@.len() && worktrees@.len() > 0 {
                (worktrees@.len() - 1) as usize
            } else {
                old(self).selected
            }),
            final(self).modal_open == old(self).modal_open,
            final(self).root_path == old(self).root_path,
            old(self).selected == 0 ==> final(self).wf(),
            old(self).selected < worktrees@.len() ==> final(self).wf(),
    {
        self.worktrees = worktrees;
        if self.selected >= self.worktrees.len() && self.worktrees.len() > 0 {
            self.selected = self.worktrees.len() - 1;
        }
    }

    /// Selects the first worktree at `path`, if any.
    pub fn select_path(&mut self, path: &str)
        ensures
            final(self).selected == (match path_index(old(self).worktrees@, path@) {
                Some(i) => i as usize,
                None => old(self).selected,
            }),
            final(self).worktrees == old(self).worktrees,
            final(self).modal_open == old(self).modal_open,
            final(self).root_path == old(self).root_path,
            old(self).wf() ==> final(self).wf(),
    {
        proof {
            lemma_path_index(self.worktrees@, path@);
        }
        let mut i: usize = 0;
        while i < self.worktrees.len()
            invariant
                i <= self.worktrees@.len(),
                forall|j: int| 0 <= j < i ==> !path_equal(self.worktrees@[j].path@, path@),
                self.worktrees == old(self).worktrees,
                self.selected == old(self).selected,
                self.modal_open == old(self).modal_open,
                self.root_path == old(self).root_path,
                match path_index(self.worktrees@, path@) {
                    Some(m) => 0 <= m < self.worktrees@.len() && path_equal(self.worktrees@[m].path@, path@)
                        && forall|j: int| 0 <= j < m ==> !path_equal(self.worktrees@[j].path@, path@),
                    None => forall|j: int|
                        0 <= j < self.worktrees@.len() ==> !path_equal(self.worktrees@[j].path@, path@),
                },
            decreases self.worktrees@.len() - i,
        {
            if paths_equal(self.worktrees[i].path.as_str(), path) {
                self.selected = i;
                return;
            }
            i = i + 1;
        }
    }

    pub fn move_down(&mut self)
        ensures
            final(self).selected == (if old(self).worktrees@.len() == 0 {
                old(self).selected as int
            } else if old(self).selected + 1 < old(self).worktrees@.len() {
                old(self).selected + 1
            } else {
                old(self).worktrees@.len() - 1
            }),
            final(self).worktrees == old(self).worktrees,
            final(self).modal_open == old(self).modal_open,
            final(self).root_path == old(self).root_path,
            old(self).wf() ==> final(self).wf(),
    {
        if self.worktrees.len() > 0 {
            let last = self.worktrees.len() - 1;
            self.selected = if self.selected < last { self.selected + 1 } else { last };
        }
    }

    pub fn move_up(&mut self)
        ensures
            final(self).selected == (if old(self).selected > 0 {
                old(self).selected - 1
            } else {
                0
            }),
            final(self).worktrees == old(self).worktrees,
            final(self).modal_open == old(self).modal_open,
            final(self).root_path == old(self).root_path,
            old(self).wf() ==> final(self).wf(),
    {
        if self.selected > 0 {
            self.selected = self.selected - 1;
        }
    }

    pub fn move_top(&mut self)
        ensures
            final(self).selected == 0,
            final(self).worktrees == old(self).worktrees,
            final(self).modal_open == old(self).modal_open,
            final(self).root_path == old(self).root_path,
            final(self).wf(),
    {
        self.selected = 0;
    }

    pub fn move_bottom(&mut self)
        ensures
            final(self).selected == (if old(self).worktrees@.len() > 0 {
                (old(self).worktrees@.len() - 1) as usize
            } else {
                old(self).selected
            }),
            final(self).worktrees == old(self).worktrees,
            final(self).modal_open == old(self).modal_open,
            final(self).root_path == old(self).root_path,
            old(self).wf() ==> final(self).wf(),
    {
        if self.worktrees.len() > 0 {
            self.selected = self.worktrees.len() - 1;
        }
    }

    pub fn open_modal(&mut self)
        ensures
            final(self).modal_open,
            final(self).worktrees == old(self).worktrees,
            final(self).selected == old(self).selected,
            final(self).root_path == old(self).root_path,
    {
        self.modal_open = true;
    }

    pub fn close_modal(&mut self)
        ensures
            !final(self).modal_open,
            final(self).worktrees == old(self).worktrees,
            final(self).selected == old(self).selected,
            final(self).root_path == old(self).root_path,
    {
        self.modal_open = false;
    }

    pub fn selected_worktree(&self) -> (r: Option<&Worktree>)
        ensures
            r == (if self.selected < self.worktrees@.len() {
                Some(&self.worktrees@[self.selected as int])
            } else {
                None
            }),
    {
        if self.selected < self.worktrees.len() {
            Some(&self.worktrees[self.selected])
        } else {
            None
        }
    }

    /// Closes the dialog and hands back the branch typed into it.
    pub fn take_modal_branch(&mut self, value: String) -> (r: String)
        ensures
            r == value,
            !final(self).modal_open,
            final(self).worktrees == old(self).worktrees,
            final(self).selected == old(self).selected,
            final(self).root_path == old(self).root_path,
    {
        self.close_modal();
        value
    }

    /// Key handling. With the dialog open: Esc closes it, Enter closes it
    /// and asks for a worktree on the typed branch (if any), other keys edit
    /// the text field. Otherwise: `j`/`k`/`g`/`G` and the arrows move the
    /// selection, `r` asks for a refresh, `n` opens the dialog, Enter asks
    /// to switch to the selected worktree. `modal_value` is the text typed
    /// into the dialog so far.
    pub fn handle_key(&mut self, key: Key, modal_value: String) -> (r: WorkspaceKeyOutcome)
        ensures
            final(self).worktrees == old(self).worktrees,
            final(self).root_path == old(self).root_path,
            final(self).selected == ws_selected_after(*old(self), key),
            final(self).modal_open == ws_modal_after(*old(self), key),
            r == ws_outcome(*old(self), key, modal_value),
            old(self).wf() ==> final(self).wf(),
    {
        if self.modal_open {
            match key.code {
                KeyCode::Esc => {
                    self.close_modal();
                    WorkspaceKeyOutcome::Nothing
                },
                KeyCode::Enter => {
                    let branch = self.take_modal_branch(modal_value);
                    if branch.as_str().unicode_len() > 0 {
                        WorkspaceKeyOutcome::Event(Event::CreateWorktree(branch))
                    } else {
                        WorkspaceKeyOutcome::Nothing
                    }
                },
                _ => WorkspaceKeyOutcome::EditInput,
            }
        } else {
            let j = Key { code: KeyCode::Char('j'), modifiers: crate::keymap::KeyModifiers::none() };
            let k = Key { code: KeyCode::Char('k'), modifiers: crate::keymap::KeyModifiers::none() };
            let g = Key { code: KeyCode::Char('g'), modifiers: crate::keymap::KeyModifiers::none() };
            let big_g = Key { code: KeyCode::Char('G'), modifiers: crate::keymap::KeyModifiers::none() };
            let r = Key { code: KeyCode::Char('r'), modifiers: crate::keymap::KeyModifiers::none() };
            let n = Key { code: KeyCode::Char('n'), modifiers: crate::keymap::KeyModifiers::none() };
            if key == j || key.code == KeyCode::Down {
                self.move_down();
                WorkspaceKeyOutcome::Nothing
            } else if key == k || key.code == KeyCode::Up {
                self.move_up();
                WorkspaceKeyOutcome::Nothing
            } else if key == g {
                self.move_top();
                WorkspaceKeyOutcome::Nothing
            } else if key == big_g {
                self.move_bottom();
                WorkspaceKeyOutcome::Nothing
            } else if key == r {
                WorkspaceKeyOutcome::Event(Event::GitRefresh)
            } else if key == n {
                self.open_modal();
                WorkspaceKeyOutcome::Nothing
            } else if key.code == KeyCode::Enter {
                match self.selected_worktree() {
                    Some(wt) => WorkspaceKeyOutcome::Event(Event::SwitchWorkspace(wt.path.clone())),
                    None => WorkspaceKeyOutcome::Nothing,
                }
            } else {
                WorkspaceKeyOutcome::Nothing
            }
        }
    }
}

/// The selection after `key` (the dialog, when open, takes every key).
pub open spec fn ws_selected_after(p: WorkspacesPane, key: Key) -> usize {
    if p.modal_open {
        p.selected
    } else if is_down_key(key) {
        step_down(p.selected, p.worktrees@.len())
    } else if is_up_key(key) {
        step_up(p.selected)
    } else if key == plain_key('g') {
        0
    } else if key == plain_key('G') && p.worktrees@.len() > 0 {
        (p.worktrees@.len() - 1) as usize
    } else {
        p.selected
    }
}

/// Whether the dialog is open after `key`: Esc and Enter close it, `n`
/// opens it.
pub open spec fn ws_modal_after(p: WorkspacesPane, key: Key) -> bool {
    if p.modal_open {
        !(key.code == KeyCode::Esc || key.code == KeyCode::Enter)
    } else {
        !is_down_key(key) && !is_up_key(key) && key != plain_key('g') && key != plain_key('G')
            && key != plain_key('r') && key == plain_key('n')
    }
}

/// What `key` leads to in the workspaces pane.
pub open spec fn ws_outcome(p: WorkspacesPane, key: Key, modal_value: String) -> WorkspaceKeyOutcome {
    if p.modal_open {
        if key.code == KeyCode::Esc {
            WorkspaceKeyOutcome::Nothing
        } else if key.code == KeyCode::Enter {
            if modal_value@.len() > 0 {
                WorkspaceKeyOutcome::Event(Event::CreateWorktree(modal_value))
            } else {
                WorkspaceKeyOutcome::Nothing
            }
        } else {
            WorkspaceKeyOutcome::EditInput
        }
    } else if is_down_key(key) || is_up_key(key) || key == plain_key('g') || key == plain_key('G') {
        WorkspaceKeyOutcome::Nothing
    } else if key == plain_key('r') {
        WorkspaceKeyOutcome::Event(Event::GitRefresh)
    } else if key == plain_key('n') {
        WorkspaceKeyOutcome::Nothing
    } else if key.code == KeyCode::Enter && p.selected < p.worktrees@.len() {
        WorkspaceKeyOutcome::Event(Event::SwitchWorkspace(p.worktrees@[p.selected as int].path))
    } else {
        WorkspaceKeyOutcome::Nothing
    }
}

} // verus!
