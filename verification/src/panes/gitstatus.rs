//! The git status pane: the diff summary and the branch's pull request.
use vstd::prelude::*;
use crate::gh::PrInfo;
use crate::git::{Diff, FileStatus};
use crate::panes::color::UiColor;
use crate::text::{append_lit, chars_of, decimal, push_decimal, string_of};

verus! {

pub struct GitStatusPane {
    pub root_path: String,
    pub diff: Diff,
    pub pr_info: Option<PrInfo>,
}

impl GitStatusPane {
    pub fn new(root_path: String) -> (r: Self)
        ensures
            r.root_path == root_path,
            r.diff.files@.len() == 0,
            r.diff.insertions == 0,
            r.diff.deletions == 0,
            r.pr_info is None,
    {
        GitStatusPane { root_path, diff: Diff::default(), pr_info: None }
    }

    pub fn update_diff(&mut self, diff: Diff)
        ensures
            final(self).diff == diff,
            final(self).root_path == old(self).root_path,
            final(self).pr_info == old(self).pr_info,
    {
        self.diff = diff;
    }

    pub fn update_pr(&mut self, pr_info: Option<PrInfo>)
        ensures
            final(self).pr_info == pr_info,
            final(self).root_path == old(self).root_path,
            final(self).diff == old(self).diff,
    {
        self.pr_info = pr_info;
    }

    /// Rows the pull-request section takes: four with a PR, two without.
    pub fn pr_height(&self) -> (r: u16)
        ensures
            r == (if self.pr_info is Some { 4u16 } else { 2u16 }),
    {
        if self.pr_info.is_some() {
            4
        } else {
            2
        }
    }
}

/// Symbol and color of a file status in the diff list.
pub open spec fn status_style_spec(s: FileStatus) -> (Seq<char>, UiColor) {
    match s {
        FileStatus::Added => ("A"@, UiColor::Green),
        FileStatus::Modified => ("M"@, UiColor::Yellow),
        FileStatus::Deleted => ("D"@, UiColor::Red),
        FileStatus::Renamed => ("R"@, UiColor::Cyan),
        FileStatus::Copied => ("C"@, UiColor::Blue),
        FileStatus::Untracked => ("?"@, UiColor::Gray),
        FileStatus::Other(_) => ("~"@, UiColor::DarkGray),
    }
}

pub fn status_style(status: &FileStatus) -> (r: (&'static str, UiColor))
    ensures
        (r.0@, r.1) == status_style_spec(*status),
{
    match status {
        FileStatus::Added => ("A", UiColor::Green),
        FileStatus::Modified => ("M", UiColor::Yellow),
        FileStatus::Deleted => ("D", UiColor::Red),
        FileStatus::Renamed => ("R", UiColor::Cyan),
        FileStatus::Copied => ("C", UiColor::Blue),
        FileStatus::Untracked => ("?", UiColor::Gray),
        FileStatus::Other(_) => ("~", UiColor::DarkGray),
    }
}

/// The color of a pull request's state.
pub open spec fn pr_state_color_spec(state: Seq<char>) -> UiColor {
    if state == "OPEN"@ {
        UiColor::Green
    } else if state == "CLOSED"@ {
        UiColor::Red
    } else if state == "MERGED"@ {
        UiColor::Magenta
    } else {
        UiColor::Gray
    }
}

pub fn pr_state_color(state: &str) -> (r: UiColor)
    ensures
        r == pr_state_color_spec(state@),
{
    let v = chars_of(state);
    if crate::text::is_lit(&v, "OPEN") {
        UiColor::Green
    } else if crate::text::is_lit(&v, "CLOSED") {
        UiColor::Red
    } else if crate::text::is_lit(&v, "MERGED") {
        UiColor::Magenta
    } else {
        UiColor::Gray
    }
}

/// The title of the diff section: ` Diff ` without changes, else
/// ` Diff  +<insertions>  -<deletions> `.
pub open spec fn diff_title_spec(ins: u32, del: u32) -> Seq<char> {
    if ins == 0 && del == 0 {
        " Diff "@
    } else {
        " Diff  +"@ + decimal(ins as nat) + "  -"@ + decimal(del as nat) + " "@
    }
}

pub fn diff_title(ins: u32, del: u32) -> (r: String)
    ensures
        r@ == diff_title_spec(ins, del),
{
    if ins == 0 && del == 0 {
        return String::from_str(" Diff ");
    }
    let mut v = chars_of(" Diff  +");
    push_decimal(&mut v, ins);
    append_lit(&mut v, "  -");
    push_decimal(&mut v, del);
    append_lit(&mut v, " ");
    string_of(&v)
}

} // verus!
