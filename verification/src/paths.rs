//! Path handling on the string form of paths (Unix separators).
//!
//! Joining is this crate's own logic and is verified; the component queries
//! (`file_name`, `file_stem`, `extension`, `parent`) are std's, reached
//! through the wrappers below, whose results are named by spec functions.
use vstd::prelude::*;
use crate::text::{append_chars, chars_of, slice_of};

verus! {

/// `PathBuf::join` on Unix: an absolute `b` replaces `a`; otherwise `b` is
/// appended, with a `/` between unless `a` is empty or already ends in one.
pub open spec fn join_path(a: Seq<char>, b: Seq<char>) -> Seq<char> {
    if b.len() > 0 && b[0] == '/' {
        b
    } else if a.len() == 0 || a.last() == '/' {
        a + b
    } else {
        a.push('/') + b
    }
}

/// The final piece of a joined path: joining a relative name without `/`
/// onto a non-empty base leaves that name after the last `/`.
pub proof fn lemma_after_last_slash_join(a: Seq<char>, b: Seq<char>)
    requires
        a.len() > 0,
        b.len() > 0,
        !b.contains('/'),
    ensures
        after_last_slash(join_path(a, b)) == b,
{
    let j = join_path(a, b);
    assert(j == a.push('/') + b || (a.last() == '/' && j == a + b));
    let base = if a.last() == '/' { a } else { a.push('/') };
    assert(base.last() == '/');
    assert(j =~= base + b);
    lemma_after_last_slash_suffix(base, b);
}

proof fn lemma_after_last_slash_suffix(base: Seq<char>, b: Seq<char>)
    requires
        base.len() > 0,
        base.last() == '/',
        !b.contains('/'),
    ensures
        after_last_slash(base + b) == b,
    decreases b.len(),
{
    if b.len() == 0 {
        assert(base + b =~= base);
    } else {
        let bb = b.drop_last();
        assert((base + b).drop_last() =~= base + bb);
        assert((base + b).last() == b.last());
        assert(b.last() == b[b.len() - 1]);
        assert(!bb.contains('/')) by {
            if bb.contains('/') {
                let i = choose|i: int| 0 <= i < bb.len() && bb[i] == '/';
                assert(b[i] == '/');
            }
        }
        lemma_after_last_slash_suffix(base, bb);
        assert(bb.push(b.last()) =~= b);
    }
}

/// Executable `join_path` on character vectors.
pub fn join_path_chars(a: &Vec<char>, b: &Vec<char>) -> (r: Vec<char>)
    ensures
        r@ == join_path(a@, b@),
{
    if b.len() > 0 && b[0] == '/' {
        return slice_of(b, 0, b.len());
    }
    let mut r = slice_of(a, 0, a.len());
    if !(a.len() == 0 || a[a.len() - 1] == '/') {
        r.push('/');
    }
    append_chars(&mut r, b);
    r
}

/// Joins a literal relative component onto `a`.
pub fn join_lit(a: &Vec<char>, lit: &str) -> (r: Vec<char>)
    ensures
        r@ == join_path(a@, lit@),
{
    let b = chars_of(lit);
    join_path_chars(a, &b)
}

/// What `Path::file_name` returns for the path `p` (as text).
pub uninterp spec fn path_file_name(p: Seq<char>) -> Option<Seq<char>>;

/// What `Path::file_stem` returns for the path `p` (as text).
pub uninterp spec fn path_file_stem(p: Seq<char>) -> Option<Seq<char>>;

/// What `Path::extension` returns for the path `p` (as text).
pub uninterp spec fn path_extension(p: Seq<char>) -> Option<Seq<char>>;

/// What `Path::parent` returns for the path `p` (as text).
pub uninterp spec fn path_parent(p: Seq<char>) -> Option<Seq<char>>;

/// Whether std's `Path` equality holds between the paths `a` and `b`
/// (which compares them component by component).
pub uninterp spec fn path_equal(a: Seq<char>, b: Seq<char>) -> bool;

/// Calls std's `==` on `Path`; the result is `path_equal` of the
/// arguments. Only the name is claimed, not how std compares.
#[verifier::external_body]
pub(crate) fn paths_equal(a: &str, b: &str) -> (r: bool)
    ensures
        r == path_equal(a@, b@),
{
    std::path::Path::new(a) == std::path::Path::new(b)
}

/// Whether std's `Path::starts_with` holds: `base` is a leading run of
/// `p`'s components.
pub uninterp spec fn path_starts_with(p: Seq<char>, base: Seq<char>) -> bool;

/// Whether std's `Path::ends_with` holds: `child` is a trailing run of
/// `p`'s components.
pub uninterp spec fn path_ends_with(p: Seq<char>, child: Seq<char>) -> bool;

/// Calls std's `Path::starts_with`; the result is `path_starts_with` of the
/// arguments.
#[verifier::external_body]
pub(crate) fn starts_with_path(p: &str, base: &str) -> (r: bool)
    ensures
        r == path_starts_with(p@, base@),
{
    std::path::Path::new(p).starts_with(base)
}

/// Calls std's `Path::ends_with`; the result is `path_ends_with` of the
/// arguments.
#[verifier::external_body]
pub(crate) fn ends_with_path(p: &str, child: &str) -> (r: bool)
    ensures
        r == path_ends_with(p@, child@),
{
    std::path::Path::new(p).ends_with(child)
}

/// Calls std's `Path::file_name`; the result is `path_file_name` of the
/// argument. Where the text after the last `/` is an ordinary name (not
/// empty, `.` or `..`), that name is the path's final component and the
/// result.
#[verifier::external_body]
pub(crate) fn file_name_of(p: &str) -> (r: Option<String>)
    ensures
        match r {
            Some(s) => path_file_name(p@) == Some(s@),
            None => path_file_name(p@) is None,
        },
        plain_name(after_last_slash(p@)) ==> (r is Some && r->0@ == after_last_slash(p@)),
{
    std::path::Path::new(p).file_name().map(|n| n.to_string_lossy().into_owned())
}

/// The text after the last `/` of `p` (all of `p` when it has none).
pub open spec fn after_last_slash(p: Seq<char>) -> Seq<char>
    decreases p.len(),
{
    if p.len() == 0 {
        p
    } else if p.last() == '/' {
        Seq::empty()
    } else {
        after_last_slash(p.drop_last()).push(p.last())
    }
}

/// A final component that names an ordinary file: not empty, `.` or `..`.
pub open spec fn plain_name(n: Seq<char>) -> bool {
    n.len() > 0 && n != "."@ && n != ".."@
}

/// Index of the last `.` in `n`.
pub open spec fn last_dot(n: Seq<char>) -> Option<int>
    decreases n.len(),
{
    if n.len() == 0 {
        None
    } else if n.last() == '.' {
        Some(n.len() - 1)
    } else {
        last_dot(n.drop_last())
    }
}

/// The stem of a file name as `Path::file_stem` documents it: the part
/// before the last `.`, or the whole name when it has no `.` or its only
/// `.` leads.
pub open spec fn name_stem(n: Seq<char>) -> Seq<char> {
    match last_dot(n) {
        Some(i) => if i > 0 {
            n.subrange(0, i)
        } else {
            n
        },
        None => n,
    }
}

/// Calls std's `Path::file_stem`; the result is `path_file_stem` of the
/// argument. Where the text after the last `/` is an ordinary file name,
/// that name is the path's final component (`Path::file_name`) and the
/// result is its stem as `Path::file_stem` documents it.
#[verifier::external_body]
pub(crate) fn file_stem_of(p: &str) -> (r: Option<String>)
    ensures
        match r {
            Some(s) => path_file_stem(p@) == Some(s@),
            None => path_file_stem(p@) is None,
        },
        plain_name(after_last_slash(p@)) ==> (r is Some && r->0@ == name_stem(after_last_slash(p@))),
{
    std::path::Path::new(p).file_stem().map(|n| n.to_string_lossy().into_owned())
}

/// Calls std's `Path::extension`; the result is `path_extension` of the
/// argument.
#[verifier::external_body]
pub(crate) fn extension_of(p: &str) -> (r: Option<String>)
    ensures
        match r {
            Some(s) => path_extension(p@) == Some(s@),
            None => path_extension(p@) is None,
        },
{
    std::path::Path::new(p).extension().map(|n| n.to_string_lossy().into_owned())
}

/// Calls std's `Path::parent`; the result is `path_parent` of the argument.
#[verifier::external_body]
pub(crate) fn parent_of(p: &str) -> (r: Option<String>)
    ensures
        match r {
            Some(s) => path_parent(p@) == Some(s@),
            None => path_parent(p@) is None,
        },
{
    std::path::Path::new(p).parent().map(|n| n.to_string_lossy().into_owned())
}

} // verus!
