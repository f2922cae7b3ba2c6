//! Parsing of `git`'s machine-readable outputs and the naming of worktree
//! locations.
use vstd::prelude::*;
use crate::paths::{after_last_slash, file_name_of, join_path, join_path_chars, path_file_name, plain_name};
use crate::text::{
    chars_of, contains_lit, contains_seq, first_token, first_token_chars,
    join, join_chars, lines, lines_chars, parse_u32, parse_u32_chars, rtrim_char, rtrim_char_chars,
    segments, segments_chars, split_chars, split_once, split_once_chars, starts_with,
    string_of, strip_prefix, strip_prefix_lit, strip_suffix, strip_suffix_lit, trim, trim_chars,
    views, has_prefix, is_lit, ends_with, is_ws, ltrim, rtrim, split_on, non_empty, find_char,
    lemma_find_char_at,
};

verus! {

#[derive(Debug, Clone, PartialEq, Eq, Structural)]
pub enum FileStatus {
    Added,
    Modified,
    Deleted,
    Renamed,
    Copied,
    Untracked,
    Other(char),
}

/// The status a `git diff --name-status` letter denotes.
pub open spec fn status_of_char(c: char) -> FileStatus {
    if c == 'A' {
        FileStatus::Added
    } else if c == 'M' {
        FileStatus::Modified
    } else if c == 'D' {
        FileStatus::Deleted
    } else if c == 'R' {
        FileStatus::Renamed
    } else if c == 'C' {
        FileStatus::Copied
    } else if c == '?' {
        FileStatus::Untracked
    } else {
        FileStatus::Other(c)
    }
}

/// The one-letter symbol shown for a status.
pub open spec fn symbol_of(s: FileStatus) -> Seq<char> {
    match s {
        FileStatus::Added => "A"@,
        FileStatus::Modified => "M"@,
        FileStatus::Deleted => "D"@,
        FileStatus::Renamed => "R"@,
        FileStatus::Copied => "C"@,
        FileStatus::Untracked => "?"@,
        FileStatus::Other(_) => "~"@,
    }
}

impl FileStatus {
    pub fn from_char(c: char) -> (r: Self)
        ensures
            r == status_of_char(c),
    {
        match c {
            'A' => FileStatus::Added,
            'M' => FileStatus::Modified,
            'D' => FileStatus::Deleted,
            'R' => FileStatus::Renamed,
            'C' => FileStatus::Copied,
            '?' => FileStatus::Untracked,
            other => FileStatus::Other(other),
        }
    }

    pub fn symbol(&self) -> (r: &'static str)
        ensures
            r@ == symbol_of(*self),
    {
        match self {
            FileStatus::Added => "A",
            FileStatus::Modified => "M",
            FileStatus::Deleted => "D",
            FileStatus::Renamed => "R",
            FileStatus::Copied => "C",
            FileStatus::Untracked => "?",
            FileStatus::Other(_) => "~",
        }
    }
}

/// Letters of known statuses map back to themselves through `symbol`.
pub proof fn law_symbol_of_known_letter(c: char)
    requires
        c == 'A' || c == 'M' || c == 'D' || c == 'R' || c == 'C' || c == '?',
    ensures
        symbol_of(status_of_char(c)) == seq![c],
{
    reveal_strlit("A");
    reveal_strlit("M");
    reveal_strlit("D");
    reveal_strlit("R");
    reveal_strlit("C");
    reveal_strlit("?");
    assert(symbol_of(status_of_char(c)) =~= seq![c]);
}

#[derive(Debug, Clone, PartialEq, Eq)]
pub struct Worktree {
    pub path: String,
    pub branch: Option<String>,
    pub head: Option<String>,
    pub is_current: bool,
}

/// A worktree as text: path, branch, head and whether it is the current one.
pub type WorktreeView = (Seq<char>, Option<Seq<char>>, Option<Seq<char>>, bool);

impl View for Worktree {
    type V = WorktreeView;

    open spec fn view(&self) -> WorktreeView {
        (self.path@, crate::text::opt_seq(self.branch), crate::text::opt_seq(self.head), self.is_current)
    }
}

pub open spec fn worktree_views(v: Seq<Worktree>) -> Seq<WorktreeView> {
    v.map_values(|w: Worktree| w@)
}

/// The state of the porcelain reader between lines.
#[verifier::ext_equal]
pub struct PorcelainState {
    pub done: Seq<WorktreeView>,
    pub path: Option<Seq<char>>,
    pub branch: Option<Seq<char>>,
    pub head: Option<Seq<char>>,
    pub bare: bool,
    pub first: bool,
    pub current: bool,
}

/// Ends a record: a record with a path that is not bare becomes a worktree.
pub open spec fn flush_record(st: PorcelainState) -> Seq<WorktreeView> {
    match st.path {
        Some(p) => if !st.bare {
            st.done.push((p, st.branch, st.head, st.current))
        } else {
            st.done
        },
        None => st.done,
    }
}

/// `git worktree list --porcelain` is a line protocol: a blank line ends a
/// record; `worktree <path>`, `HEAD <sha>`, `branch <ref>` and `bare` set its
/// fields. The worktree named before the first blank line is the current one.
pub open spec fn porcelain_step(st: PorcelainState, line: Seq<char>) -> PorcelainState {
    if line.len() == 0 {
        PorcelainState {
            done: flush_record(st),
            path: None,
            branch: None,
            head: None,
            bare: false,
            first: false,
            current: false,
        }
    } else if strip_prefix(line, "worktree "@) is Some {
        PorcelainState {
            path: Some(strip_prefix(line, "worktree "@)->0),
            current: st.first,
            ..st
        }
    } else if strip_prefix(line, "HEAD "@) is Some {
        PorcelainState { head: Some(strip_prefix(line, "HEAD "@)->0), ..st }
    } else if strip_prefix(line, "branch "@) is Some {
        let rest = strip_prefix(line, "branch "@)->0;
        let b = match strip_prefix(rest, "refs/heads/"@) {
            Some(x) => x,
            None => rest,
        };
        PorcelainState { branch: Some(b), ..st }
    } else if line == "bare"@ {
        PorcelainState { bare: true, ..st }
    } else {
        st
    }
}

pub open spec fn porcelain_start() -> PorcelainState {
    PorcelainState {
        done: Seq::empty(),
        path: None,
        branch: None,
        head: None,
        bare: false,
        first: true,
        current: false,
    }
}

pub open spec fn porcelain_fold(ls: Seq<Seq<char>>) -> PorcelainState
    decreases ls.len(),
{
    if ls.len() == 0 {
        porcelain_start()
    } else {
        porcelain_step(porcelain_fold(ls.drop_last()), ls.last())
    }
}

/// The worktrees that a porcelain listing describes.
pub open spec fn porcelain_worktrees(input: Seq<char>) -> Seq<WorktreeView> {
    flush_record(porcelain_fold(lines(input)))
}

/// How many lines of `ls` are `worktree <path>` lines.
pub open spec fn worktree_line_count(ls: Seq<Seq<char>>) -> nat
    decreases ls.len(),
{
    if ls.len() == 0 {
        0
    } else {
        worktree_line_count(ls.drop_last()) + if strip_prefix(ls.last(), "worktree "@) is Some {
            1nat
        } else {
            0nat
        }
    }
}

/// Whether some line of `ls` is `worktree <p>`.
pub open spec fn named_by_worktree_line(ls: Seq<Seq<char>>, p: Seq<char>) -> bool {
    exists|i: int| 0 <= i < ls.len() && strip_prefix(#[trigger] ls[i], "worktree "@) == Some(p)
}

/// Whether the record being read (the lines after the last blank one) has
/// a `bare` line.
pub open spec fn open_record_is_bare(ls: Seq<Seq<char>>) -> bool
    decreases ls.len(),
{
    if ls.len() == 0 {
        false
    } else if ls.last().len() == 0 {
        false
    } else {
        ls.last() == "bare"@ || open_record_is_bare(ls.drop_last())
    }
}

proof fn lemma_porcelain_fold_inv(ls: Seq<Seq<char>>)
    ensures
        ({
            let st = porcelain_fold(ls);
            &&& st.done.len() + (if st.path is Some { 1nat } else { 0nat }) <= worktree_line_count(ls)
            &&& forall|k: int| 0 <= k < st.done.len() ==> named_by_worktree_line(ls, #[trigger] st.done[k].0)
            &&& st.path is Some ==> named_by_worktree_line(ls, st.path->0)
            &&& st.bare == open_record_is_bare(ls)
        }),
    decreases ls.len(),
{
    reveal_strlit("worktree ");
    reveal_strlit("HEAD ");
    reveal_strlit("branch ");
    reveal_strlit("bare");
    if ls.len() > 0 {
        let pl = ls.drop_last();
        lemma_porcelain_fold_inv(pl);
        let st0 = porcelain_fold(pl);
        let line = ls.last();
        assert forall|p: Seq<char>| named_by_worktree_line(pl, p) implies named_by_worktree_line(ls, p) by {
            let i = choose|i: int| 0 <= i < pl.len() && strip_prefix(#[trigger] pl[i], "worktree "@) == Some(p);
            assert(ls[i] == pl[i]);
        }
        if strip_prefix(line, "worktree "@) is Some {
            assert(ls[ls.len() - 1] == line);
            assert(named_by_worktree_line(ls, strip_prefix(line, "worktree "@)->0));
            assert(line.len() > 0);
            assert(line != "bare"@) by {
                if line == "bare"@ {
                    assert(line.subrange(0, 9) =~= "worktree "@);
                }
            }
        }
        if line.len() == 0 {
            assert(strip_prefix(line, "worktree "@) is None);
        }
    }
}

/// Every listed worktree comes from a `worktree <path>` line of the
/// listing, and no more worktrees are listed than there are such lines.
pub proof fn law_worktrees_come_from_worktree_lines(input: Seq<char>)
    ensures
        porcelain_worktrees(input).len() <= worktree_line_count(lines(input)),
        forall|k: int|
            0 <= k < porcelain_worktrees(input).len() ==> named_by_worktree_line(
                lines(input),
                #[trigger] porcelain_worktrees(input)[k].0,
            ),
{
    let ls = lines(input);
    lemma_porcelain_fold_inv(ls);
    let st = porcelain_fold(ls);
    assert forall|k: int| 0 <= k < flush_record(st).len() implies named_by_worktree_line(
        ls,
        #[trigger] flush_record(st)[k].0,
    ) by {
        if k < st.done.len() {
            assert(flush_record(st)[k] == st.done[k]);
        }
    }
}

/// A record with a `bare` line lists nothing: ending it, by a blank line or
/// by the end of the listing, leaves the list as it was.
pub proof fn law_bare_record_lists_nothing(ls: Seq<Seq<char>>)
    requires
        open_record_is_bare(ls),
    ensures
        flush_record(porcelain_fold(ls)) == porcelain_fold(ls).done,
        porcelain_fold(ls.push(Seq::empty())).done == porcelain_fold(ls).done,
{
    lemma_porcelain_fold_inv(ls);
    assert(ls.push(Seq::empty()).drop_last() =~= ls);
}

fn opt_string(o: &Option<Vec<char>>) -> (r: Option<String>)
    ensures
        crate::text::opt_seq(r) == match *o {
            Some(v) => Some(v@),
            None => None::<Seq<char>>,
        },
{
    match o {
        Some(v) => Some(string_of(v)),
        None => None,
    }
}

/// Parses `git worktree list --porcelain`.
pub fn parse_worktree_porcelain(input: &str) -> (r: Vec<Worktree>)
    ensures
        worktree_views(r@) == porcelain_worktrees(input@),
{
    let ls = lines_chars(&chars_of(input));
    let ghost lv = views(ls@);
    let mut out: Vec<Worktree> = Vec::new();
    let mut path: Option<Vec<char>> = None;
    let mut branch: Option<Vec<char>> = None;
    let mut head: Option<Vec<char>> = None;
    let mut bare = false;
    let mut first = true;
    let mut current = false;
    let mut i: usize = 0;
    while i < ls.len()
        invariant
            i <= ls@.len(),
            lv == views(ls@),
            lv == lines(input@),
            ({
                let st = porcelain_fold(lv.take(i as int));
                &&& st.done == worktree_views(out@)
                &&& st.path == (match path { Some(v) => Some(v@), None => None::<Seq<char>> })
                &&& st.branch == (match branch { Some(v) => Some(v@), None => None::<Seq<char>> })
                &&& st.head == (match head { Some(v) => Some(v@), None => None::<Seq<char>> })
                &&& st.bare == bare
                &&& st.first == first
                &&& st.current == current
            }),
        decreases ls@.len() - i,
    {
        let ghost st0 = porcelain_fold(lv.take(i as int));
        proof {
            assert(lv.take(i + 1).drop_last() =~= lv.take(i as int));
            assert(lv.take(i + 1).last() == ls@[i as int]@);
        }
        let line = &ls[i];
        if line.len() == 0 {
            match &path {
                Some(p) => {
                    if !bare {
                        let w = Worktree {
                            path: string_of(p),
                            branch: opt_string(&branch),
                            head: opt_string(&head),
                            is_current: current,
                        };
                        let ghost before = worktree_views(out@);
                        out.push(w);
                        assert(worktree_views(out@) =~= before.push(w@));
                    }
                },
                None => {},
            }
            path = None;
            branch = None;
            head = None;
            bare = false;
            current = false;
            first = false;
        } else {
            match strip_prefix_lit(line, "worktree ") {
                Some(rest) => {
                    path = Some(rest);
                    current = first;
                },
                None => match strip_prefix_lit(line, "HEAD ") {
                    Some(rest) => {
                        head = Some(rest);
                    },
                    None => match strip_prefix_lit(line, "branch ") {
                        Some(rest) => {
                            let b = match strip_prefix_lit(&rest, "refs/heads/") {
                                Some(x) => x,
                                None => rest,
                            };
                            branch = Some(b);
                        },
                        None => {
                            if is_lit(line, "bare") {
                                bare = true;
                            }
                        },
                    },
                },
            }
        }
        i = i + 1;
    }
    assert(lv.take(ls@.len() as int) =~= lv);
    match &path {
        Some(p) => {
            if !bare {
                let w = Worktree {
                    path: string_of(p),
                    branch: opt_string(&branch),
                    head: opt_string(&head),
                    is_current: current,
                };
                let ghost before = worktree_views(out@);
                out.push(w);
                assert(worktree_views(out@) =~= before.push(w@));
            }
        },
        None => {},
    }
    out
}

/// What the reader keeps true between lines: only a record begun before
/// the first blank line can be current, so at most the first worktree is.
pub open spec fn porcelain_inv(st: PorcelainState) -> bool {
    &&& (st.first || st.current) ==> st.done.len() == 0
    &&& forall|i: int| 0 <= i < st.done.len() && (#[trigger] st.done[i]).3 ==> i == 0
}

proof fn lemma_porcelain_inv(ls: Seq<Seq<char>>)
    ensures
        porcelain_inv(porcelain_fold(ls)),
    decreases ls.len(),
{
    if ls.len() > 0 {
        lemma_porcelain_inv(ls.drop_last());
        let st = porcelain_fold(ls.drop_last());
        let d = flush_record(st);
        assert forall|i: int| 0 <= i < d.len() && (#[trigger] d[i]).3 implies i == 0 by {
            if i < st.done.len() {
                assert(d[i] == st.done[i]);
            }
        }
    }
}

/// At most one listed worktree is current, and if one is, it is the first.
pub proof fn law_only_first_worktree_current(input: Seq<char>, i: int)
    requires
        0 <= i < porcelain_worktrees(input).len(),
        porcelain_worktrees(input)[i].3,
    ensures
        i == 0,
{
    let st = porcelain_fold(lines(input));
    lemma_porcelain_inv(lines(input));
    let d = flush_record(st);
    if i < st.done.len() {
        assert(d[i] == st.done[i]);
    }
}

#[derive(Debug, Clone, PartialEq, Eq)]
pub struct Diff {
    pub files: Vec<(FileStatus, String)>,
    pub insertions: u32,
    pub deletions: u32,
}

impl Default for Diff {
    fn default() -> (r: Self)
        ensures
            r.files@.len() == 0,
            r.insertions == 0,
            r.deletions == 0,
    {
        Diff { files: Vec::new(), insertions: 0, deletions: 0 }
    }
}

/// The number that leads a part of a shortstat line, if any.
pub open spec fn leading_number(part: Seq<char>) -> Option<u32> {
    match first_token(part) {
        Some(t) => parse_u32(t),
        None => None,
    }
}

/// Counts `(insertions, deletions)` after reading the comma-separated
/// parts in order: a part mentioning `insertion` with a leading number sets
/// insertions, else a part mentioning `deletion` with one sets deletions.
pub open spec fn shortstat_fold(parts: Seq<Seq<char>>, init: (u32, u32)) -> (u32, u32)
    decreases parts.len(),
{
    if parts.len() == 0 {
        init
    } else {
        let (ins, del) = shortstat_fold(parts.drop_last(), init);
        let p = trim(parts.last());
        if contains_seq(p, "insertion"@) && leading_number(p) is Some {
            (leading_number(p)->0, del)
        } else if contains_seq(p, "deletion"@) && leading_number(p) is Some {
            (ins, leading_number(p)->0)
        } else {
            (ins, del)
        }
    }
}

/// Whether a trimmed shortstat part is an insertion count: it mentions
/// `insertion` (as in `1 insertion(+)` and `45 insertions(+)`) and starts
/// with a number.
pub open spec fn is_insertion_part(p: Seq<char>) -> bool {
    contains_seq(trim(p), "insertion"@) && leading_number(trim(p)) is Some
}

/// Whether a trimmed shortstat part is a deletion count (and not an
/// insertion count).
pub open spec fn is_deletion_part(p: Seq<char>) -> bool {
    !is_insertion_part(p) && contains_seq(trim(p), "deletion"@) && leading_number(trim(p)) is Some
}

/// The insertion count is the number of the last part that mentions
/// `insertion` and starts with a number, singular or plural alike; the
/// deletion count likewise for `deletion`. Parts of other kinds change
/// neither count.
pub proof fn law_shortstat_counts_come_from_their_parts(parts: Seq<Seq<char>>, init: (u32, u32), i: int)
    requires
        0 <= i < parts.len(),
    ensures
        is_insertion_part(parts[i]) && (forall|j: int| i < j < parts.len() ==> !is_insertion_part(#[trigger] parts[j]))
            ==> shortstat_fold(parts, init).0 == leading_number(trim(parts[i]))->0,
        is_deletion_part(parts[i]) && (forall|j: int| i < j < parts.len() ==> !is_deletion_part(#[trigger] parts[j]))
            ==> shortstat_fold(parts, init).1 == leading_number(trim(parts[i]))->0,
    decreases parts.len(),
{
    let n = parts.len();
    if i < n - 1 {
        let t = parts.drop_last();
        law_shortstat_counts_come_from_their_parts(t, init, i);
        assert(t[i] == parts[i]);
        assert forall|j: int| i < j < t.len() implies t[j] == parts[j] by {}
        assert(parts.last() == parts[n - 1]);
    }
}

fn leading_number_chars(p: &Vec<char>) -> (r: Option<u32>)
    ensures
        r == leading_number(p@),
{
    match first_token_chars(p) {
        Some(t) => parse_u32_chars(&t),
        None => None,
    }
}

/// Reads the insertion and deletion counts of a `git diff --shortstat`
/// line, e.g. ` 3 files changed, 45 insertions(+), 12 deletions(-)`.
pub fn parse_shortstat(text: &str, diff: &mut Diff)
    ensures
        (final(diff).insertions, final(diff).deletions) == shortstat_fold(
            crate::text::split_on(text@, ','),
            (old(diff).insertions, old(diff).deletions),
        ),
        final(diff).files == old(diff).files,
{
    let parts = split_chars(&chars_of(text), ',');
    let ghost pv = views(parts@);
    let ghost init = (diff.insertions, diff.deletions);
    let mut i: usize = 0;
    while i < parts.len()
        invariant
            i <= parts@.len(),
            pv == views(parts@),
            pv == crate::text::split_on(text@, ','),
            (diff.insertions, diff.deletions) == shortstat_fold(pv.take(i as int), init),
            diff.files == old(diff).files,
            init == (old(diff).insertions, old(diff).deletions),
        decreases parts@.len() - i,
    {
        proof {
            assert(pv.take(i + 1).drop_last() =~= pv.take(i as int));
            assert(pv.take(i + 1).last() == parts@[i as int]@);
        }
        let p = trim_chars(&parts[i]);
        let n = leading_number_chars(&p);
        if contains_lit(&p, "insertion") && n.is_some() {
            diff.insertions = n.unwrap();
        } else if contains_lit(&p, "deletion") && n.is_some() {
            diff.deletions = n.unwrap();
        }
        i = i + 1;
    }
    assert(pv.take(parts@.len() as int) =~= pv);
}

/// The `(owner, repo)` that a remote path names: the last segment is the
/// repository, the segments before it, joined with `-`, the owner. Fewer
/// than two segments name nothing.
pub open spec fn owner_repo_of_path(path: Seq<char>) -> Option<(Seq<char>, Seq<char>)> {
    let s = segments(path, '/');
    if s.len() < 2 {
        None
    } else {
        Some((join(s.take(s.len() - 1), '-'), s.last()))
    }
}

/// Splits a remote path into `(owner, repo)`.
pub fn split_path_into_owner_repo(path: &Vec<char>) -> (r: Option<(String, String)>)
    ensures
        match r {
            Some((o, p)) => owner_repo_of_path(path@) == Some((o@, p@)),
            None => owner_repo_of_path(path@) is None,
        },
{
    let segs = segments_chars(path, '/');
    let n = segs.len();
    if n < 2 {
        return None;
    }
    let owner = join_chars(&segs, n - 1, '-');
    let last = &segs[n - 1];
    assert(views(segs@).last() == last@);
    Some((string_of(&owner), string_of(last)))
}

/// `url` without surrounding whitespace, trailing slashes and a `.git`
/// suffix.
pub open spec fn normalized_url(url: Seq<char>) -> Seq<char> {
    let u = rtrim_char(trim(url), '/');
    match strip_suffix(u, ".git"@) {
        Some(x) => x,
        None => u,
    }
}

pub open spec fn has_scheme(u: Seq<char>) -> bool {
    starts_with(u, "http://"@) || starts_with(u, "https://"@) || starts_with(u, "ssh://"@)
}

/// What follows the scheme of a URL (`https://`, then `http://`, then
/// `ssh://` are tried).
pub open spec fn after_scheme(u: Seq<char>) -> Option<Seq<char>> {
    match strip_prefix(u, "https://"@) {
        Some(r) => Some(r),
        None => match strip_prefix(u, "http://"@) {
            Some(r) => Some(r),
            None => strip_prefix(u, "ssh://"@),
        },
    }
}

/// `(owner, repo)` of a remote URL: SCP-style `host:owner/repo` or
/// `scheme://host/owner/repo`, with nested groups joined by `-`.
pub open spec fn owner_repo_spec(url: Seq<char>) -> Option<(Seq<char>, Seq<char>)> {
    let u = normalized_url(url);
    let scp_path = match split_once(u, ':') {
        Some((_, p)) => p,
        None => Seq::empty(),
    };
    if split_once(u, ':') is Some && !has_scheme(u) && scp_path.len() > 0 {
        owner_repo_of_path(scp_path)
    } else {
        match after_scheme(u) {
            Some(rest) => match split_once(rest, '/') {
                Some((_, path)) => owner_repo_of_path(path),
                None => None,
            },
            None => None,
        }
    }
}

/// Parses `owner/repo` from common remote URL shapes; `None` on unknown
/// formats.
pub fn parse_owner_repo(url: &str) -> (r: Option<(String, String)>)
    ensures
        match r {
            Some((o, p)) => owner_repo_spec(url@) == Some((o@, p@)),
            None => owner_repo_spec(url@) is None,
        },
{
    let t = rtrim_char_chars(&trim_chars(&chars_of(url)), '/');
    let u = match strip_suffix_lit(&t, ".git") {
        Some(x) => x,
        None => t,
    };
    assert(u@ == normalized_url(url@));
    let http = has_prefix(&u, &chars_of("http://"));
    let https = has_prefix(&u, &chars_of("https://"));
    let ssh = has_prefix(&u, &chars_of("ssh://"));
    match split_once_chars(&u, ':') {
        Some((_, path)) => {
            if !http && !https && !ssh && path.len() > 0 {
                return split_path_into_owner_repo(&path);
            }
        },
        None => {},
    }
    let rest = match strip_prefix_lit(&u, "https://") {
        Some(r) => r,
        None => match strip_prefix_lit(&u, "http://") {
            Some(r) => r,
            None => match strip_prefix_lit(&u, "ssh://") {
                Some(r) => r,
                None => return None,
            },
        },
    };
    match split_once_chars(&rest, '/') {
        Some((_, path)) => split_path_into_owner_repo(&path),
        None => None,
    }
}

pub(crate) proof fn lemma_split_on_append(pre: Seq<char>, b: Seq<char>, sep: char)
    requires
        !b.contains(sep),
    ensures
        split_on(pre + b, sep) == split_on(pre, sep).update(
            split_on(pre, sep).len() - 1,
            split_on(pre, sep).last() + b,
        ),
    decreases b.len(),
{
    crate::text::lemma_split_on_nonempty(pre, sep);
    if b.len() == 0 {
        assert(pre + b =~= pre);
        assert(split_on(pre, sep).last() + b =~= split_on(pre, sep).last());
        assert(split_on(pre, sep).update(split_on(pre, sep).len() - 1, split_on(pre, sep).last())
            =~= split_on(pre, sep));
    } else {
        let bb = b.drop_last();
        assert(!bb.contains(sep)) by {
            if bb.contains(sep) {
                let i = choose|i: int| 0 <= i < bb.len() && bb[i] == sep;
                assert(b[i] == sep);
            }
        }
        lemma_split_on_append(pre, bb, sep);
        assert((pre + b).drop_last() =~= pre + bb);
        assert((pre + b).last() == b[b.len() - 1]);
        assert(b[b.len() - 1] != sep);
        assert(split_on(pre, sep).last() + bb.push(b.last()) =~= split_on(pre, sep).last() + b);
        assert(bb.push(b.last()) =~= b);
        assert(split_on(pre + b, sep) =~= split_on(pre, sep).update(
            split_on(pre, sep).len() - 1,
            split_on(pre, sep).last() + b,
        ));
    }
}

/// A path `owner/repo` of two plain segments names exactly that pair.
pub proof fn law_two_segment_path(owner: Seq<char>, repo: Seq<char>)
    requires
        owner.len() > 0,
        repo.len() > 0,
        !owner.contains('/'),
        !repo.contains('/'),
    ensures
        owner_repo_of_path(owner.push('/') + repo) == Some((owner, repo)),
{
    lemma_split_on_append(Seq::empty(), owner, '/');
    assert(Seq::<char>::empty() + owner =~= owner);
    assert(split_on(Seq::<char>::empty(), '/') =~= seq![Seq::<char>::empty()]);
    assert(split_on(owner, '/') =~= seq![owner]);
    assert(owner.push('/').drop_last() =~= owner);
    assert(split_on(owner.push('/'), '/') =~= seq![owner, Seq::<char>::empty()]);
    lemma_split_on_append(owner.push('/'), repo, '/');
    let parts = seq![owner, repo];
    assert(split_on(owner.push('/') + repo, '/') =~= parts);
    assert(parts.drop_last() =~= seq![owner]);
    assert(seq![owner].drop_last() =~= Seq::<Seq<char>>::empty());
    assert(non_empty(Seq::<Seq<char>>::empty()) =~= Seq::<Seq<char>>::empty());
    assert(non_empty(seq![owner]) =~= seq![owner]);
    assert(non_empty(parts) =~= parts);
    assert(parts.take(1) =~= seq![owner]);
}

/// A URL written without surrounding space or a trailing `/` normalizes
/// to itself, with a `.git` suffix dropped.
proof fn lemma_normalized(u: Seq<char>, git: bool)
    requires
        u.len() > 0,
        !is_ws(u[0]),
        !is_ws(u.last()),
        u.last() != '/',
        !git ==> !ends_with(u, ".git"@),
    ensures
        normalized_url(if git { u + ".git"@ } else { u }) == u,
{
    reveal_strlit(".git");
    let url = if git { u + ".git"@ } else { u };
    assert(url[0] == u[0]);
    assert(ltrim(url) == url);
    assert(!is_ws(url.last()) && url.last() != '/') by {
        if git {
            assert(url.last() == 't');
        }
    }
    assert(rtrim(url) == url);
    assert(rtrim_char(url, '/') == url);
    if git {
        assert(url.subrange(url.len() - 4, url.len() as int) =~= ".git"@);
        assert(url.subrange(0, url.len() - 4) =~= u);
    }
}

/// The SCP-style remote `user@host:path` (optionally with `.git`) names
/// what its path names: for `git@host:owner/repo`, `(owner, repo)`.
#[verifier::spinoff_prover]
#[verifier::rlimit(40)]
pub proof fn law_owner_repo_scp(host: Seq<char>, path: Seq<char>, git: bool)
    requires
        host.len() > 0,
        !host.contains(':'),
        !is_ws(host[0]),
        path.len() > 0,
        path[0] != '/',
        !is_ws(path.last()),
        path.last() != '/',
        !git ==> !ends_with(path, ".git"@),
    ensures
        owner_repo_spec(if git { host.push(':') + path + ".git"@ } else { host.push(':') + path })
            == owner_repo_of_path(path),
{
    reveal_strlit("http://");
    reveal_strlit("https://");
    reveal_strlit("ssh://");
    reveal_strlit(".git");
    let u = host.push(':') + path;
    assert(u[0] == host[0]);
    assert(u.last() == path.last());
    assert(!git ==> !ends_with(u, ".git"@)) by {
        if !git && ends_with(u, ".git"@) {
            assert(u.subrange(u.len() - 4, u.len() as int) == ".git"@);
            if path.len() >= 4 {
                assert(path.subrange(path.len() - 4, path.len() as int)
                    =~= u.subrange(u.len() - 4, u.len() as int));
            } else {
                assert(u[u.len() - 1 - path.len()] == ':');
                assert(".git"@[3 - path.len()] != ':');
            }
        }
    }
    lemma_normalized(u, git);
    if git {
        assert(host.push(':') + path + ".git"@ =~= u + ".git"@);
    }
    let k = host.len() as int;
    assert forall|j: int| 0 <= j < k implies u[j] != ':' by {
        assert(u[j] == host[j]);
        if host[j] == ':' {
            assert(host.contains(':'));
        }
    }
    lemma_find_char_at(u, ':', k);
    assert(u.skip(k + 1) =~= path);
    assert(split_once(u, ':') == Some((u.take(k), path)));
    assert(u[k] == ':');
    assert(u[k + 1] == path[0]);
    if starts_with(u, "http://"@) {
        let q = u.subrange(0, 7);
        assert(q[0] == 'h' && q[1] == 't' && q[2] == 't' && q[3] == 'p' && q[4] == ':' && q[5] == '/');
        assert(u[0] == q[0] && u[1] == q[1] && u[2] == q[2] && u[3] == q[3] && u[4] == q[4] && u[5] == q[5]);
        assert(k == 4);
        assert(false);
    }
    if starts_with(u, "https://"@) {
        let q = u.subrange(0, 8);
        assert(q[0] == 'h' && q[1] == 't' && q[2] == 't' && q[3] == 'p' && q[4] == 's' && q[5] == ':'
            && q[6] == '/');
        assert(u[0] == q[0] && u[1] == q[1] && u[2] == q[2] && u[3] == q[3] && u[4] == q[4] && u[5] == q[5]
            && u[6] == q[6]);
        assert(k == 5);
        assert(false);
    }
    if starts_with(u, "ssh://"@) {
        let q = u.subrange(0, 6);
        assert(q[0] == 's' && q[1] == 's' && q[2] == 'h' && q[3] == ':' && q[4] == '/');
        assert(u[0] == q[0] && u[1] == q[1] && u[2] == q[2] && u[3] == q[3] && u[4] == q[4]);
        assert(k == 3);
        assert(false);
    }
    assert(!has_scheme(u));
}

/// A remote `scheme://host/path` (`https`, `http` or `ssh`, optionally
/// with `.git`) names what its path names: for `https://host/owner/repo`,
/// `(owner, repo)`; for `https://host/group/sub/repo`, `(group-sub, repo)`.
#[verifier::spinoff_prover]
#[verifier::rlimit(40)]
pub proof fn law_owner_repo_scheme(scheme: int, host: Seq<char>, path: Seq<char>, git: bool)
    requires
        0 <= scheme < 3,
        !host.contains('/'),
        path.len() > 0,
        !is_ws(path.last()),
        path.last() != '/',
        !git ==> !ends_with(path, ".git"@),
    ensures
        ({
            let pre = if scheme == 0 {
                "https://"@
            } else if scheme == 1 {
                "http://"@
            } else {
                "ssh://"@
            };
            let u = pre + host.push('/') + path;
            owner_repo_spec(if git { u + ".git"@ } else { u }) == owner_repo_of_path(path)
        }),
{
    reveal_strlit("http://");
    reveal_strlit("https://");
    reveal_strlit("ssh://");
    reveal_strlit(".git");
    let pre = if scheme == 0 {
        "https://"@
    } else if scheme == 1 {
        "http://"@
    } else {
        "ssh://"@
    };
    let rest = host.push('/') + path;
    let u = pre + rest;
    assert(u.last() == path.last());
    assert(!is_ws(u[0]));
    assert(!git ==> !ends_with(u, ".git"@)) by {
        if !git && ends_with(u, ".git"@) {
            if path.len() >= 4 {
                assert(path.subrange(path.len() - 4, path.len() as int)
                    =~= u.subrange(u.len() - 4, u.len() as int));
            } else {
                assert(u[u.len() - 1 - path.len()] == '/');
                assert(u.subrange(u.len() - 4, u.len() as int)[3 - path.len()] == '/');
            }
        }
    }
    lemma_normalized(u, git);
    assert(u.subrange(0, pre.len() as int) =~= pre);
    assert(has_scheme(u));
    assert(u.subrange(pre.len() as int, u.len() as int) =~= rest);
    if scheme == 1 {
        assert(!starts_with(u, "https://"@)) by {
            if starts_with(u, "https://"@) {
                assert(u.subrange(0, 8)[4] == u[4]);
            }
        }
    }
    if scheme == 2 {
        assert(!starts_with(u, "https://"@)) by {
            if starts_with(u, "https://"@) {
                assert(u.subrange(0, 8)[0] == u[0]);
            }
        }
        assert(!starts_with(u, "http://"@)) by {
            if starts_with(u, "http://"@) {
                assert(u.subrange(0, 7)[0] == u[0]);
            }
        }
    }
    assert(after_scheme(u) == Some(rest));
    let k = host.len() as int;
    assert forall|j: int| 0 <= j < k implies rest[j] != '/' by {
        assert(rest[j] == host[j]);
        if host[j] == '/' {
            assert(host.contains('/'));
        }
    }
    lemma_find_char_at(rest, '/', k);
    assert(rest.skip(k + 1) =~= path);
    assert(split_once(rest, '/') == Some((rest.take(k), path)));
    assert(pre + host.push('/') + path =~= u);
    assert(normalized_url(if git { u + ".git"@ } else { u }) == u);
}

/// The directory name of a repository path, `repo` when it has none.
pub open spec fn repo_dirname_spec(repo_path: Seq<char>) -> Seq<char> {
    match path_file_name(repo_path) {
        Some(n) => n,
        None => "repo"@,
    }
}

pub fn repo_dirname(repo_path: &str) -> (r: String)
    ensures
        r@ == repo_dirname_spec(repo_path@),
        plain_name(after_last_slash(repo_path@)) ==> r@ == after_last_slash(repo_path@),
{
    match file_name_of(repo_path) {
        Some(n) => n,
        None => String::from_str("repo"),
    }
}

/// `base` with each segment pushed in turn.
pub open spec fn push_all(base: Seq<char>, segs: Seq<Seq<char>>) -> Seq<char>
    decreases segs.len(),
{
    if segs.len() == 0 {
        base
    } else {
        join_path(push_all(base, segs.drop_last()), segs.last())
    }
}

/// Where a new worktree for `branch` goes:
/// `<home>/.fellowship/worktrees/<owner>/<repo>/<branch segments>`, owner
/// and repo from the origin URL, or `local/<repo dirname>` when there is no
/// origin or its URL has an unknown shape.
pub open spec fn worktree_target_spec(
    home: Seq<char>,
    origin: Option<Seq<char>>,
    repo_path: Seq<char>,
    branch: Seq<char>,
) -> Seq<char> {
    let base = join_path(join_path(home, ".fellowship"@), "worktrees"@);
    let (owner, repo) = match origin {
        Some(url) => match owner_repo_spec(url) {
            Some(p) => p,
            None => ("local"@, repo_dirname_spec(repo_path)),
        },
        None => ("local"@, repo_dirname_spec(repo_path)),
    };
    push_all(join_path(join_path(base, owner), repo), segments(branch, '/'))
}

/// Computes where a new worktree for `branch` goes (see
/// [`worktree_target_spec`]); `origin` is the `remote.origin.url` value.
pub fn worktree_target_path(home: &str, origin: Option<String>, repo_path: &str, branch: &str) -> (r: String)
    ensures
        r@ == worktree_target_spec(home@, crate::text::opt_seq(origin), repo_path@, branch@),
{
    let base = crate::paths::join_lit(&crate::paths::join_lit(&chars_of(home), ".fellowship"), "worktrees");
    let parsed = match &origin {
        Some(url) => parse_owner_repo(url.as_str()),
        None => None,
    };
    let (owner, repo) = match parsed {
        Some(p) => p,
        None => (String::from_str("local"), repo_dirname(repo_path)),
    };
    let mut path = join_path_chars(&join_path_chars(&base, &chars_of(owner.as_str())), &chars_of(repo.as_str()));
    let segs = segments_chars(&chars_of(branch), '/');
    let ghost sv = views(segs@);
    let ghost start = path@;
    let mut i: usize = 0;
    while i < segs.len()
        invariant
            i <= segs@.len(),
            sv == views(segs@),
            path@ == push_all(start, sv.take(i as int)),
        decreases segs@.len() - i,
    {
        assert(sv.take(i + 1).drop_last() =~= sv.take(i as int));
        assert(sv.take(i + 1).last() == segs@[i as int]@);
        path = join_path_chars(&path, &segs[i]);
        i = i + 1;
    }
    assert(sv.take(segs@.len() as int) =~= sv);
    string_of(&path)
}

/// The file that one line of `git diff --name-status` reports: the status
/// letter (`?` when empty) and the path, the new name for renames and
/// copies. Lines without a tab report nothing.
pub open spec fn name_status_entry(line: Seq<char>) -> Option<(FileStatus, Seq<char>)> {
    match split_once(line, '\t') {
        None => None,
        Some((st, path)) => {
            let c = if st.len() > 0 { st[0] } else { '?' };
            let p = if c == 'R' || c == 'C' {
                match split_once(path, '\t') {
                    Some((_, new_name)) => new_name,
                    None => path,
                }
            } else {
                path
            };
            Some((status_of_char(c), p))
        },
    }
}

pub open spec fn name_status_entries(ls: Seq<Seq<char>>) -> Seq<(FileStatus, Seq<char>)>
    decreases ls.len(),
{
    if ls.len() == 0 {
        Seq::empty()
    } else {
        let pre = name_status_entries(ls.drop_last());
        match name_status_entry(ls.last()) {
            Some(e) => pre.push(e),
            None => pre,
        }
    }
}

pub open spec fn file_views(v: Seq<(FileStatus, String)>) -> Seq<(FileStatus, Seq<char>)> {
    v.map_values(|e: (FileStatus, String)| (e.0, e.1@))
}

/// Appends the files that `git diff --name-status` output lists.
pub fn push_name_status(text: &str, files: &mut Vec<(FileStatus, String)>)
    ensures
        file_views(final(files)@) == file_views(old(files)@) + name_status_entries(lines(text@)),
{
    let ls = lines_chars(&chars_of(text));
    let ghost lv = views(ls@);
    let mut i: usize = 0;
    while i < ls.len()
        invariant
            i <= ls@.len(),
            lv == views(ls@),
            lv == lines(text@),
            file_views(files@) == file_views(old(files)@) + name_status_entries(lv.take(i as int)),
        decreases ls@.len() - i,
    {
        proof {
            assert(lv.take(i + 1).drop_last() =~= lv.take(i as int));
            assert(lv.take(i + 1).last() == ls@[i as int]@);
        }
        let line = &ls[i];
        match split_once_chars(line, '\t') {
            Some((st, path)) => {
                let c: char = if st.len() > 0 { st[0] } else { '?' };
                let p = if c == 'R' || c == 'C' {
                    match split_once_chars(&path, '\t') {
                        Some((_, new_name)) => new_name,
                        None => path,
                    }
                } else {
                    path
                };
                let ghost before = file_views(files@);
                files.push((FileStatus::from_char(c), string_of(&p)));
                assert(file_views(files@) =~= before.push((status_of_char(c), p@)));
            },
            None => {},
        }
        i = i + 1;
    }
    assert(lv.take(ls@.len() as int) =~= lv);
}

/// The untracked files that `git ls-files --others` lists: each trimmed
/// line that is not empty.
pub open spec fn untracked_entries(ls: Seq<Seq<char>>) -> Seq<(FileStatus, Seq<char>)>
    decreases ls.len(),
{
    if ls.len() == 0 {
        Seq::empty()
    } else {
        let pre = untracked_entries(ls.drop_last());
        let p = trim(ls.last());
        if p.len() > 0 {
            pre.push((FileStatus::Untracked, p))
        } else {
            pre
        }
    }
}

/// Appends the untracked files that `git ls-files --others` output lists.
pub fn push_untracked(text: &str, files: &mut Vec<(FileStatus, String)>)
    ensures
        file_views(final(files)@) == file_views(old(files)@) + untracked_entries(lines(text@)),
{
    let ls = lines_chars(&chars_of(text));
    let ghost lv = views(ls@);
    let mut i: usize = 0;
    while i < ls.len()
        invariant
            i <= ls@.len(),
            lv == views(ls@),
            lv == lines(text@),
            file_views(files@) == file_views(old(files)@) + untracked_entries(lv.take(i as int)),
        decreases ls@.len() - i,
    {
        proof {
            assert(lv.take(i + 1).drop_last() =~= lv.take(i as int));
            assert(lv.take(i + 1).last() == ls@[i as int]@);
        }
        let p = trim_chars(&ls[i]);
        if p.len() > 0 {
            let ghost before = file_views(files@);
            files.push((FileStatus::Untracked, string_of(&p)));
            assert(file_views(files@) =~= before.push((FileStatus::Untracked, p@)));
        }
        i = i + 1;
    }
    assert(lv.take(ls@.len() as int) =~= lv);
}

/// The branch that `git rev-parse --abbrev-ref HEAD` reports: its trimmed
/// output, `None` for a detached `HEAD`.
pub fn branch_from_rev_parse(stdout: &str) -> (r: Option<String>)
    ensures
        match r {
            Some(b) => trim(stdout@) != "HEAD"@ && b@ == trim(stdout@),
            None => trim(stdout@) == "HEAD"@,
        },
{
    let t = trim_chars(&chars_of(stdout));
    if is_lit(&t, "HEAD") {
        None
    } else {
        Some(string_of(&t))
    }
}

/// The origin URL that `git config --get remote.origin.url` reports: its
/// trimmed output, `None` when that is empty.
pub fn origin_from_config(stdout: &str) -> (r: Option<String>)
    ensures
        match r {
            Some(u) => trim(stdout@).len() > 0 && u@ == trim(stdout@),
            None => trim(stdout@).len() == 0,
        },
{
    let t = trim_chars(&chars_of(stdout));
    if t.len() == 0 {
        None
    } else {
        Some(string_of(&t))
    }
}

} // verus!
