//! The pull request of the current branch, as `gh pr view` reports it, and
//! the `gh api` endpoints that list a pull request's comments.
use vstd::prelude::*;
use crate::text::{append_chars, append_lit, chars_of, decimal, push_decimal, str_views, string_of};

verus! {

#[derive(Debug, Clone, PartialEq, Eq)]
pub struct PrInfo {
    pub number: u64,
    pub title: String,
    pub state: String,
    pub url: String,
}

/// The `gh api` endpoints listing the review comments and the discussion
/// comments of pull request `pr_number` in the repository `slug`
/// (`<owner>/<repo>`), in that order.
pub open spec fn pr_comments_endpoints_spec(slug: Seq<char>, pr_number: u32) -> Seq<Seq<char>> {
    seq![
        "repos/"@ + slug + "/pulls/"@ + decimal(pr_number as nat) + "/comments"@,
        "repos/"@ + slug + "/issues/"@ + decimal(pr_number as nat) + "/comments"@,
    ]
}

fn endpoint(slug: &str, kind: &str, pr_number: u32) -> (r: String)
    ensures
        r@ == "repos/"@ + slug@ + kind@ + decimal(pr_number as nat) + "/comments"@,
{
    let mut v = chars_of("repos/");
    append_chars(&mut v, &chars_of(slug));
    append_lit(&mut v, kind);
    push_decimal(&mut v, pr_number);
    append_lit(&mut v, "/comments");
    string_of(&v)
}

pub fn pr_comments_endpoints(slug: &str, pr_number: u32) -> (r: Vec<String>)
    ensures
        str_views(r@) == pr_comments_endpoints_spec(slug@, pr_number),
{
    let mut out: Vec<String> = Vec::new();
    out.push(endpoint(slug, "/pulls/", pr_number));
    out.push(endpoint(slug, "/issues/", pr_number));
    assert(str_views(out@) =~= pr_comments_endpoints_spec(slug@, pr_number));
    out
}

} // verus!
