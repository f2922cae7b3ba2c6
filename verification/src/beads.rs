//! The canonical view of a bead (an issue of the `bd` tracker).
use vstd::prelude::*;
use vstd::std_specs::convert::FromSpecImpl;
use crate::text::chars_of;

verus! {

/// One element of `bd list --json`, as its fields arrive.
#[derive(Debug, Clone, Default)]
pub struct RawIssue {
    pub id: String,
    pub title: String,
    pub status: String,
    pub assignee: Option<String>,
    pub labels: Vec<String>,
    pub priority: Option<i32>,
    pub issue_type: Option<String>,
}

#[derive(Debug, Clone, Copy, PartialEq, Eq, Structural)]
pub enum Status {
    Open,
    InProgress,
    InReview,
    Closed,
    Other,
}

/// The status that a `bd` status text denotes.
pub open spec fn status_of(s: Seq<char>) -> Status {
    if s == "open"@ {
        Status::Open
    } else if s == "in_progress"@ || s == "in-progress"@ {
        Status::InProgress
    } else if s == "in_review"@ || s == "in-review"@ {
        Status::InReview
    } else if s == "closed"@ || s == "done"@ {
        Status::Closed
    } else {
        Status::Other
    }
}

impl Status {
    pub fn parse(s: &str) -> (r: Status)
        ensures
            r == status_of(s@),
    {
        let v = chars_of(s);
        if crate::text::is_lit(&v, "open") {
            Status::Open
        } else if crate::text::is_lit(&v, "in_progress") || crate::text::is_lit(&v, "in-progress") {
            Status::InProgress
        } else if crate::text::is_lit(&v, "in_review") || crate::text::is_lit(&v, "in-review") {
            Status::InReview
        } else if crate::text::is_lit(&v, "closed") || crate::text::is_lit(&v, "done") {
            Status::Closed
        } else {
            Status::Other
        }
    }
}

/// Canonical fellowship view of a bead.
#[derive(Debug, Clone, PartialEq, Eq)]
pub struct Bead {
    pub id: String,
    pub title: String,
    pub status: Status,
    pub assignee: Option<String>,
    pub labels: Vec<String>,
    pub priority: Option<i32>,
    pub issue_type: Option<String>,
}

impl From<RawIssue> for Bead {
    fn from(raw: RawIssue) -> (r: Bead) {
        let status = Status::parse(raw.status.as_str());
        Bead {
            id: raw.id,
            title: raw.title,
            status,
            assignee: raw.assignee,
            labels: raw.labels,
            priority: raw.priority,
            issue_type: raw.issue_type,
        }
    }
}

impl FromSpecImpl<RawIssue> for Bead {
    open spec fn obeys_from_spec() -> bool {
        true
    }

    open spec fn from_spec(raw: RawIssue) -> Bead {
        Bead {
            id: raw.id,
            title: raw.title,
            status: status_of(raw.status@),
            assignee: raw.assignee,
            labels: raw.labels,
            priority: raw.priority,
            issue_type: raw.issue_type,
        }
    }
}

/// `u8::is_ascii_whitespace`.
pub open spec fn is_ascii_ws(b: u8) -> bool {
    b == 0x20 || b == 0x09 || b == 0x0a || b == 0x0c || b == 0x0d
}

/// Whether `bd`'s output holds nothing but ASCII whitespace (then it lists
/// no beads).
pub fn is_blank_output(stdout: &[u8]) -> (r: bool)
    ensures
        r == forall|i: int| 0 <= i < stdout@.len() ==> is_ascii_ws(#[trigger] stdout@[i]),
{
    let mut i: usize = 0;
    while i < stdout.len()
        invariant
            i <= stdout@.len(),
            forall|j: int| 0 <= j < i ==> is_ascii_ws(#[trigger] stdout@[j]),
        decreases stdout@.len() - i,
    {
        let b = stdout[i];
        if !(b == 0x20 || b == 0x09 || b == 0x0a || b == 0x0c || b == 0x0d) {
            return false;
        }
        i = i + 1;
    }
    true
}

} // verus!
