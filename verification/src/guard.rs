//! Policy of the `safe-git` shim: which `git` and `gh` invocations agents
//! may run.
use vstd::prelude::*;
use crate::paths::{after_last_slash, file_name_of, path_equal, path_file_name, paths_equal, plain_name};
use crate::text::{
    append_chars, append_lit, chars_of, has_prefix, is_lit, lemma_split_on_nonempty, slice_of,
    split_chars, split_on, starts_with, str_views, string_of, strip_prefix, strip_prefix_lit,
    views,
};

verus! {

#[derive(Debug, Clone, Copy, PartialEq, Eq, Structural)]
pub enum Tool {
    Git,
    Gh,
    Other,
}

#[derive(Debug, Clone, PartialEq, Eq)]
pub enum Decision {
    Allow,
    Block(String),
}

/// `None` for `Allow`, the reason for `Block`.
pub open spec fn decision_view(d: Decision) -> Option<Seq<char>> {
    match d {
        Decision::Allow => None,
        Decision::Block(m) => Some(m@),
    }
}

/// The tool that a program name denotes.
pub open spec fn tool_of_name(name: Seq<char>) -> Tool {
    if name == "git"@ {
        Tool::Git
    } else if name == "gh"@ {
        Tool::Gh
    } else {
        Tool::Other
    }
}

/// The tool an `argv[0]` invokes, judged by its file name.
pub open spec fn detect_tool_spec(argv0: Seq<char>) -> Tool {
    match path_file_name(argv0) {
        Some(n) => tool_of_name(n),
        None => tool_of_name(argv0),
    }
}

pub fn detect_tool(argv0: &str) -> (r: Tool)
    ensures
        r == detect_tool_spec(argv0@),
        plain_name(after_last_slash(argv0@)) ==> r == tool_of_name(after_last_slash(argv0@)),
{
    let name = match file_name_of(argv0) {
        Some(n) => chars_of(n.as_str()),
        None => chars_of(argv0),
    };
    if is_lit(&name, "git") {
        Tool::Git
    } else if is_lit(&name, "gh") {
        Tool::Gh
    } else {
        Tool::Other
    }
}

/// Global options of `git` that take their value as the next argument.
pub open spec fn is_value_flag(a: Seq<char>) -> bool {
    a == "--git-dir"@ || a == "--work-tree"@ || a == "--namespace"@ || a == "--super-prefix"@
}

/// Index of the subcommand, scanning from `i`: long options are skipped
/// (with their value for the value-bearing ones), short options are
/// skipped (with their value for `-C` and `-c`), and the first argument
/// that is not an option is the subcommand.
pub open spec fn subcommand_from(args: Seq<Seq<char>>, i: int) -> Option<int>
    decreases args.len() + 2 - i,
{
    if i < 0 || i >= args.len() {
        None
    } else {
        let a = args[i];
        if starts_with(a, "--"@) {
            if is_value_flag(a) {
                subcommand_from(args, i + 2)
            } else {
                subcommand_from(args, i + 1)
            }
        } else if starts_with(a, "-"@) {
            if a == "-C"@ || a == "-c"@ {
                subcommand_from(args, i + 2)
            } else {
                subcommand_from(args, i + 1)
            }
        } else {
            Some(i)
        }
    }
}

proof fn lemma_subcommand_bounds(args: Seq<Seq<char>>, i: int)
    ensures
        subcommand_from(args, i) matches Some(k) ==> 0 <= i <= k < args.len(),
    decreases args.len() + 2 - i,
{
    if 0 <= i < args.len() {
        lemma_subcommand_bounds(args, i + 1);
        lemma_subcommand_bounds(args, i + 2);
    }
}

fn all_chars(args: &[String]) -> (r: Vec<Vec<char>>)
    ensures
        views(r@) == str_views(args@),
{
    let mut r: Vec<Vec<char>> = Vec::new();
    let mut i: usize = 0;
    while i < args.len()
        invariant
            i <= args@.len(),
            views(r@) == str_views(args@.take(i as int)),
        decreases args@.len() - i,
    {
        let ghost before = views(r@);
        r.push(chars_of(args[i].as_str()));
        assert(views(r@) =~= before.push(args@[i as int]@));
        assert(str_views(args@.take(i + 1)) =~= str_views(args@.take(i as int)).push(args@[i as int]@));
        i = i + 1;
    }
    assert(args@.take(args@.len() as int) =~= args@);
    r
}

/// Finds the index of `git`'s subcommand among `args`.
fn first_subcommand(args: &Vec<Vec<char>>) -> (r: Option<usize>)
    ensures
        match r {
            Some(k) => subcommand_from(views(args@), 0) == Some(k as int),
            None => subcommand_from(views(args@), 0) is None,
        },
{
    let ghost a = views(args@);
    let n = args.len();
    let long = chars_of("--");
    let short = chars_of("-");
    let mut i: usize = 0;
    while i < n
        invariant
            n == args@.len() == a.len(),
            a == views(args@),
            long@ == "--"@,
            short@ == "-"@,
            i <= n,
            subcommand_from(a, 0) == subcommand_from(a, i as int),
        decreases n - i,
    {
        let arg = &args[i];
        assert(a[i as int] == arg@);
        let step: usize = if has_prefix(arg, &long) {
            if is_lit(arg, "--git-dir") || is_lit(arg, "--work-tree") || is_lit(arg, "--namespace")
                || is_lit(arg, "--super-prefix") {
                2
            } else {
                1
            }
        } else if has_prefix(arg, &short) {
            if is_lit(arg, "-C") || is_lit(arg, "-c") {
                2
            } else {
                1
            }
        } else {
            return Some(i);
        };
        if n - i >= step {
            i = i + step;
        } else {
            assert(subcommand_from(a, i + step) is None);
            i = n;
        }
    }
    None
}

pub open spec fn is_force_flag(a: Seq<char>) -> bool {
    a == "--force"@ || a == "-f"@ || a == "--force-with-lease"@
}

/// The arguments that are not options, in order.
pub open spec fn positionals(args: Seq<Seq<char>>) -> Seq<Seq<char>>
    decreases args.len(),
{
    if args.len() == 0 {
        Seq::empty()
    } else if starts_with(args.last(), "-"@) {
        positionals(args.drop_last())
    } else {
        positionals(args.drop_last()).push(args.last())
    }
}

/// The branch a push refspec targets: the part after its last `:`, without
/// a `refs/heads/` prefix.
pub open spec fn push_target(refspec: Seq<char>) -> Seq<char> {
    let target = split_on(refspec, ':').last();
    match strip_prefix(target, "refs/heads/"@) {
        Some(b) => b,
        None => target,
    }
}

pub open spec fn force_push_reason() -> Seq<char> {
    "agents must not force-push \u{2014} pushes are append-only."@
}

pub open spec fn protected_push_reason(branch: Seq<char>) -> Seq<char> {
    "agents must not push directly to `"@ + branch
        + "` \u{2014} open a PR from a feature branch."@
}

pub open spec fn git_merge_reason() -> Seq<char> {
    "agents must not run `git merge` \u{2014} humans review and merge PRs."@
}

pub open spec fn gh_merge_reason() -> Seq<char> {
    "agents must not run `gh pr merge` \u{2014} humans review and merge PRs."@
}

/// Decision on the arguments after `git push`: any force flag blocks; a
/// refspec (second positional) targeting `main` or `master` blocks.
pub open spec fn git_push_spec(args: Seq<Seq<char>>) -> Option<Seq<char>> {
    if exists|j: int| 0 <= j < args.len() && is_force_flag(#[trigger] args[j]) {
        Some(force_push_reason())
    } else {
        let pos = positionals(args);
        if pos.len() > 1 && (push_target(pos[1]) == "main"@ || push_target(pos[1]) == "master"@) {
            Some(protected_push_reason(push_target(pos[1])))
        } else {
            None
        }
    }
}

/// Decision on a `git` command line.
pub open spec fn git_spec(args: Seq<Seq<char>>) -> Option<Seq<char>> {
    match subcommand_from(args, 0) {
        None => None,
        Some(k) => if args[k] == "merge"@ {
            Some(git_merge_reason())
        } else if args[k] == "push"@ {
            git_push_spec(args.skip(k + 1))
        } else {
            None
        },
    }
}

/// The first argument of `args` that is not an option.
pub open spec fn first_positional(args: Seq<Seq<char>>) -> Option<Seq<char>>
    decreases args.len(),
{
    if args.len() == 0 {
        None
    } else if !starts_with(args[0], "-"@) {
        Some(args[0])
    } else {
        first_positional(args.drop_first())
    }
}

/// Decision on a `gh` command line: only `gh pr merge` is blocked.
pub open spec fn gh_spec(args: Seq<Seq<char>>) -> Option<Seq<char>> {
    match subcommand_from(args, 0) {
        None => None,
        Some(k) => if args[k] != "pr"@ {
            None
        } else if first_positional(args.skip(k + 1)) == Some("merge"@) {
            Some(gh_merge_reason())
        } else {
            None
        },
    }
}

/// The whole policy.
pub open spec fn decide_spec(tool: Tool, args: Seq<Seq<char>>) -> Option<Seq<char>> {
    match tool {
        Tool::Git => git_spec(args),
        Tool::Gh => gh_spec(args),
        Tool::Other => None,
    }
}

/// Whether the invocation of `tool` with `args` is allowed, and why not.
pub fn decide(tool: Tool, args: &[String]) -> (r: Decision)
    ensures
        decision_view(r) == decide_spec(tool, str_views(args@)),
{
    match tool {
        Tool::Git => {
            let v = all_chars(args);
            decide_git(&v)
        },
        Tool::Gh => {
            let v = all_chars(args);
            decide_gh(&v)
        },
        Tool::Other => Decision::Allow,
    }
}

fn decide_git(args: &Vec<Vec<char>>) -> (r: Decision)
    ensures
        decision_view(r) == git_spec(views(args@)),
{
    let ghost a = views(args@);
    match first_subcommand(args) {
        None => Decision::Allow,
        Some(k) => {
            proof {
                lemma_subcommand_bounds(a, 0);
            }
            assert(a[k as int] == args@[k as int]@);
            if is_lit(&args[k], "merge") {
                Decision::Block(
                    String::from_str(
                        "agents must not run `git merge` \u{2014} humans review and merge PRs.",
                    ),
                )
            } else if is_lit(&args[k], "push") {
                assert(k < args.len());
                decide_git_push(args, k + 1)
            } else {
                Decision::Allow
            }
        },
    }
}

fn is_force(a: &Vec<char>) -> (r: bool)
    ensures
        r == is_force_flag(a@),
{
    is_lit(a, "--force") || is_lit(a, "-f") || is_lit(a, "--force-with-lease")
}

proof fn lemma_positionals_len(args: Seq<Seq<char>>)
    ensures
        positionals(args).len() <= args.len(),
    decreases args.len(),
{
    if args.len() > 0 {
        lemma_positionals_len(args.drop_last());
    }
}

/// Decision on `args[from..]`, the arguments after `git push`.
fn decide_git_push(args: &Vec<Vec<char>>, from: usize) -> (r: Decision)
    requires
        from <= args@.len(),
    ensures
        decision_view(r) == git_push_spec(views(args@).skip(from as int)),
{
    let ghost a = views(args@).skip(from as int);
    let n = args.len();
    let mut i: usize = from;
    while i < n
        invariant
            from <= i <= n == args@.len(),
            a == views(args@).skip(from as int),
            forall|j: int| 0 <= j < i - from ==> !is_force_flag(#[trigger] a[j]),
        decreases n - i,
    {
        assert(a[i - from] == args@[i as int]@);
        if is_force(&args[i]) {
            return Decision::Block(
                String::from_str("agents must not force-push \u{2014} pushes are append-only."),
            );
        }
        i = i + 1;
    }
    let dash = chars_of("-");
    let mut pos: Vec<usize> = Vec::new();
    let mut i: usize = from;
    while i < n
        invariant
            from <= i <= n == args@.len(),
            a == views(args@).skip(from as int),
            dash@ == "-"@,
            pos@.len() == positionals(a.take(i - from)).len(),
            forall|j: int| 0 <= j < pos@.len() ==> pos@[j] < n && args@[pos@[j] as int]@ == positionals(a.take(i - from))[j],
        decreases n - i,
    {
        let ghost t = a.take(i - from + 1);
        assert(t.drop_last() =~= a.take(i - from));
        assert(t.last() == args@[i as int]@);
        if !has_prefix(&args[i], &dash) {
            pos.push(i);
        }
        i = i + 1;
    }
    assert(a.take(n - from) =~= a);
    if pos.len() > 1 {
        let refspec = &args[pos[1]];
        let parts = split_chars(refspec, ':');
        proof {
            lemma_split_on_nonempty(refspec@, ':');
        }
        let last = &parts[parts.len() - 1];
        assert(last@ == split_on(refspec@, ':').last());
        let bare = match strip_prefix_lit(last, "refs/heads/") {
            Some(b) => b,
            None => slice_of(last, 0, last.len()),
        };
        assert(bare@ == push_target(refspec@));
        if is_lit(&bare, "main") || is_lit(&bare, "master") {
            let mut msg = chars_of("agents must not push directly to `");
            append_chars(&mut msg, &bare);
            append_lit(&mut msg, "` \u{2014} open a PR from a feature branch.");
            return Decision::Block(string_of(&msg));
        }
    }
    Decision::Allow
}

fn decide_gh(args: &Vec<Vec<char>>) -> (r: Decision)
    ensures
        decision_view(r) == gh_spec(views(args@)),
{
    let ghost a = views(args@);
    match first_subcommand(args) {
        None => Decision::Allow,
        Some(k) => {
            proof {
                lemma_subcommand_bounds(a, 0);
            }
            assert(a[k as int] == args@[k as int]@);
            if !is_lit(&args[k], "pr") {
                return Decision::Allow;
            }
            let dash = chars_of("-");
            let n = args.len();
            let mut i: usize = k + 1;
            while i < n
                invariant
                    k < n == args@.len(),
                    k + 1 <= i <= n,
                    a == views(args@),
                    dash@ == "-"@,
                    first_positional(a.skip(k + 1)) == first_positional(a.skip(i as int)),
                    subcommand_from(a, 0) == Some(k as int),
                    a[k as int] == "pr"@,
                decreases n - i,
            {
                let ghost s = a.skip(i as int);
                assert(s.len() > 0);
                assert(s[0] == args@[i as int]@);
                assert(s.drop_first() =~= a.skip(i + 1));
                if !has_prefix(&args[i], &dash) {
                    assert(first_positional(s) == Some(s[0]));
                    if is_lit(&args[i], "merge") {
                        return Decision::Block(
                            String::from_str(
                                "agents must not run `gh pr merge` \u{2014} humans review and merge PRs.",
                            ),
                        );
                    }
                    return Decision::Allow;
                }
                i = i + 1;
            }
            assert(a.skip(n as int).len() == 0);
            Decision::Allow
        },
    }
}

/// Only `git` and `gh` are policed: any other tool is allowed.
pub proof fn law_other_tools_allowed(args: Seq<Seq<char>>)
    ensures
        decide_spec(Tool::Other, args) is None,
{
}

/// With no arguments at all, nothing is blocked.
pub proof fn law_empty_command_allowed(tool: Tool)
    ensures
        decide_spec(tool, Seq::empty()) is None,
{
}

/// `git merge` is blocked whatever global options precede it.
pub proof fn law_git_merge_blocked(args: Seq<Seq<char>>, k: int)
    requires
        subcommand_from(args, 0) == Some(k),
        args[k] == "merge"@,
    ensures
        decide_spec(Tool::Git, args) == Some(git_merge_reason()),
{
}

/// A push that carries a force flag anywhere among its arguments is
/// blocked.
pub proof fn law_force_push_blocked(args: Seq<Seq<char>>, k: int, j: int)
    requires
        subcommand_from(args, 0) == Some(k),
        args[k] == "push"@,
        k < j < args.len(),
        is_force_flag(args[j]),
    ensures
        decide_spec(Tool::Git, args) == Some(force_push_reason()),
{
    reveal_strlit("merge");
    reveal_strlit("push");
    lemma_subcommand_bounds(args, 0);
    let rest = args.skip(k + 1);
    assert(rest[j - k - 1] == args[j]);
    assert("push"@[0] != "merge"@[0]);
    assert(args[k] != "merge"@);
}

/// `gh pr merge` is blocked, whatever flags come between `pr` and `merge`.
pub proof fn law_gh_pr_merge_blocked(args: Seq<Seq<char>>, k: int)
    requires
        subcommand_from(args, 0) == Some(k),
        args[k] == "pr"@,
        first_positional(args.skip(k + 1)) == Some("merge"@),
    ensures
        decide_spec(Tool::Gh, args) == Some(gh_merge_reason()),
{
}


/// A push whose refspec targets `main` or `master` (plain, as
/// `refs/heads/...`, or after a `:`) is blocked.
pub proof fn law_protected_push_blocked(args: Seq<Seq<char>>, k: int)
    requires
        subcommand_from(args, 0) == Some(k),
        args[k] == "push"@,
        positionals(args.skip(k + 1)).len() > 1,
        push_target(positionals(args.skip(k + 1))[1]) == "main"@ || push_target(
            positionals(args.skip(k + 1))[1],
        ) == "master"@,
    ensures
        decide_spec(Tool::Git, args) is Some,
{
    reveal_strlit("merge");
    reveal_strlit("push");
    assert("push"@[0] != "merge"@[0]);
    assert(args[k] != "merge"@);
}

/// The positionals of two runs of arguments are those of each, in order.
proof fn lemma_positionals_append(x: Seq<Seq<char>>, y: Seq<Seq<char>>)
    ensures
        positionals(x + y) == positionals(x) + positionals(y),
    decreases y.len(),
{
    if y.len() == 0 {
        assert(x + y =~= x);
        assert(positionals(x) + positionals(y) =~= positionals(x));
    } else {
        lemma_positionals_append(x, y.drop_last());
        assert((x + y).drop_last() =~= x + y.drop_last());
        assert((x + y).last() == y.last());
        assert(positionals(x) + positionals(y.drop_last()).push(y.last())
            =~= (positionals(x) + positionals(y.drop_last())).push(y.last()));
    }
}

/// Arguments that all start with `-` have no positionals.
proof fn lemma_positionals_of_options(f: Seq<Seq<char>>)
    requires
        forall|i: int| 0 <= i < f.len() ==> (#[trigger] f[i]).len() > 0 && f[i][0] == '-',
    ensures
        positionals(f) == Seq::<Seq<char>>::empty(),
    decreases f.len(),
{
    reveal_strlit("-");
    if f.len() > 0 {
        assert(f[f.len() - 1] == f.last());
        assert(f.last().subrange(0, 1) =~= "-"@);
        lemma_positionals_of_options(f.drop_last());
        assert forall|i: int| 0 <= i < f.drop_last().len() implies (#[trigger] f.drop_last()[i]).len() > 0
            && f.drop_last()[i][0] == '-' by {
            assert(f.drop_last()[i] == f[i]);
        }
    }
}

/// A push's options never take the place of its remote or refspec: for
/// `git push <options> <remote> <options> <refspec> <options>`, where every
/// option starts with `-` and the remote does not, a refspec `main` or
/// `master` is blocked, whatever options stand around them.
pub proof fn law_push_options_do_not_shift_the_refspec(
    f1: Seq<Seq<char>>,
    f2: Seq<Seq<char>>,
    f3: Seq<Seq<char>>,
    remote: Seq<char>,
    refspec: Seq<char>,
)
    requires
        forall|i: int| 0 <= i < f1.len() ==> (#[trigger] f1[i]).len() > 0 && f1[i][0] == '-',
        forall|i: int| 0 <= i < f2.len() ==> (#[trigger] f2[i]).len() > 0 && f2[i][0] == '-',
        forall|i: int| 0 <= i < f3.len() ==> (#[trigger] f3[i]).len() > 0 && f3[i][0] == '-',
        remote.len() > 0,
        remote[0] != '-',
        refspec == "main"@ || refspec == "master"@,
    ensures
        decide_spec(Tool::Git, seq!["push"@] + f1 + seq![remote] + f2 + seq![refspec] + f3) is Some,
{
    reveal_strlit("push");
    reveal_strlit("merge");
    reveal_strlit("main");
    reveal_strlit("master");
    reveal_strlit("-");
    reveal_strlit("--");
    reveal_strlit("refs/heads/");
    let rest = f1 + seq![remote] + f2 + seq![refspec] + f3;
    let args = seq!["push"@] + f1 + seq![remote] + f2 + seq![refspec] + f3;
    assert(args =~= seq!["push"@] + rest);
    assert(args[0] == "push"@);
    assert(args[0][0] == 'p');
    assert(args[0].subrange(0, 1)[0] == 'p');
    assert(args[0].subrange(0, 2)[0] == 'p');
    assert(!starts_with(args[0], "-"@));
    assert(!starts_with(args[0], "--"@));
    assert(subcommand_from(args, 0) == Some(0int));
    assert("push"@[0] != "merge"@[0]);
    assert(args.skip(1) =~= rest);
    lemma_positionals_of_options(f1);
    lemma_positionals_of_options(f2);
    lemma_positionals_of_options(f3);
    assert(remote.subrange(0, 1)[0] == remote[0]);
    assert(!starts_with(remote, "-"@));
    assert(positionals(seq![remote]) =~= seq![remote]) by {
        assert(seq![remote].drop_last() =~= Seq::<Seq<char>>::empty());
        assert(positionals(Seq::<Seq<char>>::empty()) == Seq::<Seq<char>>::empty());
        assert(!starts_with(seq![remote].last(), "-"@));
        assert(seq![remote].last() == remote);
    }
    assert(refspec.subrange(0, 1)[0] == 'm');
    assert(!starts_with(refspec, "-"@));
    assert(positionals(seq![refspec]) =~= seq![refspec]) by {
        assert(seq![refspec].drop_last() =~= Seq::<Seq<char>>::empty());
        assert(seq![refspec].last() == refspec);
    }
    lemma_positionals_append(f1, seq![remote]);
    lemma_positionals_append(f1 + seq![remote], f2);
    lemma_positionals_append(f1 + seq![remote] + f2, seq![refspec]);
    lemma_positionals_append(f1 + seq![remote] + f2 + seq![refspec], f3);
    let pos = positionals(rest);
    assert(pos =~= seq![remote, refspec]);
    assert(!refspec.contains(':'));
    crate::git::lemma_split_on_append(Seq::empty(), refspec, ':');
    assert(Seq::<char>::empty() + refspec =~= refspec);
    assert(split_on(Seq::<char>::empty(), ':') =~= seq![Seq::<char>::empty()]);
    assert(split_on(refspec, ':') =~= seq![refspec]);
    assert(!starts_with(refspec, "refs/heads/"@));
    assert(push_target(refspec) == refspec);
    if !(exists|j: int| 0 <= j < rest.len() && is_force_flag(#[trigger] rest[j])) {
        assert(git_push_spec(rest) == Some(protected_push_reason(refspec)));
    }
}

/// The positionals of `push <f1> <remote> <f2> <refspec> <f3>` when every
/// `f` starts with `-` and neither remote nor refspec does.
proof fn lemma_push_positionals(
    f1: Seq<Seq<char>>,
    f2: Seq<Seq<char>>,
    f3: Seq<Seq<char>>,
    remote: Seq<char>,
    refspec: Seq<char>,
)
    requires
        forall|i: int| 0 <= i < f1.len() ==> (#[trigger] f1[i]).len() > 0 && f1[i][0] == '-',
        forall|i: int| 0 <= i < f2.len() ==> (#[trigger] f2[i]).len() > 0 && f2[i][0] == '-',
        forall|i: int| 0 <= i < f3.len() ==> (#[trigger] f3[i]).len() > 0 && f3[i][0] == '-',
        remote.len() > 0,
        remote[0] != '-',
        refspec.len() > 0,
        refspec[0] != '-',
    ensures
        ({
            let args = seq!["push"@] + f1 + seq![remote] + f2 + seq![refspec] + f3;
            &&& subcommand_from(args, 0) == Some(0int)
            &&& args[0] == "push"@
            &&& positionals(args.skip(1)) == seq![remote, refspec]
        }),
{
    reveal_strlit("push");
    reveal_strlit("-");
    reveal_strlit("--");
    let rest = f1 + seq![remote] + f2 + seq![refspec] + f3;
    let args = seq!["push"@] + f1 + seq![remote] + f2 + seq![refspec] + f3;
    assert(args =~= seq!["push"@] + rest);
    assert(args[0] == "push"@);
    assert(args[0][0] == 'p');
    assert(args[0].subrange(0, 1)[0] == 'p');
    assert(args[0].subrange(0, 2)[0] == 'p');
    assert(!starts_with(args[0], "-"@));
    assert(!starts_with(args[0], "--"@));
    assert(args.skip(1) =~= rest);
    lemma_positionals_of_options(f1);
    lemma_positionals_of_options(f2);
    lemma_positionals_of_options(f3);
    assert(positionals(Seq::<Seq<char>>::empty()) == Seq::<Seq<char>>::empty());
    assert(remote.subrange(0, 1)[0] == remote[0]);
    assert(positionals(seq![remote]) =~= seq![remote]) by {
        assert(seq![remote].drop_last() =~= Seq::<Seq<char>>::empty());
        assert(!starts_with(seq![remote].last(), "-"@));
    }
    assert(refspec.subrange(0, 1)[0] == refspec[0]);
    assert(positionals(seq![refspec]) =~= seq![refspec]) by {
        assert(seq![refspec].drop_last() =~= Seq::<Seq<char>>::empty());
        assert(!starts_with(seq![refspec].last(), "-"@));
    }
    lemma_positionals_append(f1, seq![remote]);
    lemma_positionals_append(f1 + seq![remote], f2);
    lemma_positionals_append(f1 + seq![remote] + f2, seq![refspec]);
    lemma_positionals_append(f1 + seq![remote] + f2 + seq![refspec], f3);
    assert(positionals(rest) =~= seq![remote, refspec]);
}

/// A push of a refspec whose destination is `main` or `master` (plain, as
/// `refs/heads/...`, or after `src:`) is blocked, whatever options stand
/// around the remote and the refspec.
pub proof fn law_push_to_protected_destination_blocked(
    f1: Seq<Seq<char>>,
    f2: Seq<Seq<char>>,
    f3: Seq<Seq<char>>,
    remote: Seq<char>,
    src: Seq<char>,
    dest: Seq<char>,
)
    requires
        forall|i: int| 0 <= i < f1.len() ==> (#[trigger] f1[i]).len() > 0 && f1[i][0] == '-',
        forall|i: int| 0 <= i < f2.len() ==> (#[trigger] f2[i]).len() > 0 && f2[i][0] == '-',
        forall|i: int| 0 <= i < f3.len() ==> (#[trigger] f3[i]).len() > 0 && f3[i][0] == '-',
        remote.len() > 0,
        remote[0] != '-',
        src.len() > 0 ==> src[0] != '-',
        dest == "main"@ || dest == "master"@ || dest == "refs/heads/main"@ || dest == "refs/heads/master"@,
    ensures
        decide_spec(
            Tool::Git,
            seq!["push"@] + f1 + seq![remote] + f2 + seq![if src.len() > 0 { src.push(':') + dest } else { dest }] + f3,
        ) is Some,
{
    reveal_strlit("main");
    reveal_strlit("master");
    reveal_strlit("refs/heads/main");
    reveal_strlit("refs/heads/master");
    reveal_strlit("refs/heads/");
    reveal_strlit("merge");
    reveal_strlit("push");
    let refspec = if src.len() > 0 { src.push(':') + dest } else { dest };
    assert(refspec[0] != '-') by {
        if src.len() > 0 {
            assert(refspec[0] == src[0]);
        }
    }
    lemma_push_positionals(f1, f2, f3, remote, refspec);
    let args = seq!["push"@] + f1 + seq![remote] + f2 + seq![refspec] + f3;
    assert("push"@[0] != "merge"@[0]);
    assert(!dest.contains(':'));
    if src.len() > 0 {
        crate::git::lemma_split_on_append(src.push(':'), dest, ':');
        crate::git::lemma_split_on_append(src, Seq::empty(), ':');
        crate::text::lemma_split_on_nonempty(src, ':');
        assert(src.push(':').drop_last() =~= src);
        assert(split_on(src.push(':'), ':').last() == Seq::<char>::empty());
        assert(split_on(refspec, ':').last() =~= dest);
    } else {
        crate::git::lemma_split_on_append(Seq::empty(), dest, ':');
        assert(Seq::<char>::empty() + dest =~= dest);
        assert(split_on(Seq::<char>::empty(), ':') =~= seq![Seq::<char>::empty()]);
        assert(split_on(refspec, ':').last() =~= dest);
    }
    if dest == "refs/heads/main"@ {
        assert(dest.subrange(0, 11) =~= "refs/heads/"@);
        assert(dest.subrange(11, dest.len() as int) =~= "main"@);
    } else if dest == "refs/heads/master"@ {
        assert(dest.subrange(0, 11) =~= "refs/heads/"@);
        assert(dest.subrange(11, dest.len() as int) =~= "master"@);
    } else {
        assert(dest.len() < 11 || dest.subrange(0, 11)[0] != 'r');
        assert(!starts_with(dest, "refs/heads/"@));
    }
    assert(push_target(refspec) == "main"@ || push_target(refspec) == "master"@);
}

/// A push of another branch, with no force flag, is allowed: options
/// around the remote and the branch never make it look like a push to
/// `main` or `master`.
pub proof fn law_push_of_other_branch_allowed(
    f1: Seq<Seq<char>>,
    f2: Seq<Seq<char>>,
    f3: Seq<Seq<char>>,
    remote: Seq<char>,
    branch: Seq<char>,
)
    requires
        forall|i: int| 0 <= i < f1.len() ==> (#[trigger] f1[i]).len() > 0 && f1[i][0] == '-',
        forall|i: int| 0 <= i < f2.len() ==> (#[trigger] f2[i]).len() > 0 && f2[i][0] == '-',
        forall|i: int| 0 <= i < f3.len() ==> (#[trigger] f3[i]).len() > 0 && f3[i][0] == '-',
        forall|i: int| 0 <= i < f1.len() ==> #[trigger] f1[i] != "-f"@ && f1[i] != "--force"@ && f1[i] != "--force-with-lease"@,
        forall|i: int| 0 <= i < f2.len() ==> #[trigger] f2[i] != "-f"@ && f2[i] != "--force"@ && f2[i] != "--force-with-lease"@,
        forall|i: int| 0 <= i < f3.len() ==> #[trigger] f3[i] != "-f"@ && f3[i] != "--force"@ && f3[i] != "--force-with-lease"@,
        remote.len() > 0,
        remote[0] != '-',
        branch.len() > 0,
        branch[0] != '-',
        branch[0] != 'r',
        !branch.contains(':'),
        branch != "main"@,
        branch != "master"@,
    ensures
        decide_spec(Tool::Git, seq!["push"@] + f1 + seq![remote] + f2 + seq![branch] + f3) is None,
{
    reveal_strlit("merge");
    reveal_strlit("push");
    reveal_strlit("refs/heads/");
    lemma_push_positionals(f1, f2, f3, remote, branch);
    let rest = f1 + seq![remote] + f2 + seq![branch] + f3;
    let args = seq!["push"@] + rest;
    assert(args =~= seq!["push"@] + f1 + seq![remote] + f2 + seq![branch] + f3);
    assert("push"@[0] != "merge"@[0]);
    assert(args.skip(1) =~= rest);
    assert forall|j: int| 0 <= j < rest.len() implies !is_force_flag(#[trigger] rest[j]) by {
        let a = f1.len() as int;
        let b = a + 1 + f2.len();
        if j < a {
            assert(rest[j] == f1[j]);
        } else if j == a {
            assert(rest[j] == remote);
            assert(remote[0] != '-');
        } else if j < b {
            assert(rest[j] == f2[j - a - 1]);
        } else if j == b {
            assert(rest[j] == branch);
        } else {
            assert(rest[j] == f3[j - b - 1]);
        }
        reveal_strlit("-f");
        reveal_strlit("--force");
        reveal_strlit("--force-with-lease");
    }
    crate::git::lemma_split_on_append(Seq::empty(), branch, ':');
    assert(Seq::<char>::empty() + branch =~= branch);
    assert(split_on(Seq::<char>::empty(), ':') =~= seq![Seq::<char>::empty()]);
    assert(split_on(branch, ':').last() =~= branch);
    assert(branch.len() < 11 || branch.subrange(0, 11)[0] != 'r');
    assert(!starts_with(branch, "refs/heads/"@));
    assert(push_target(branch) == branch);
}

/// The names under which the shim is installed, in order.
pub open spec fn shim_names_spec() -> Seq<Seq<char>> {
    seq!["git"@, "gh"@]
}

pub fn shim_names() -> (r: Vec<&'static str>)
    ensures
        r@.map_values(|n: &'static str| n@) == shim_names_spec(),
{
    let r = vec!["git", "gh"];
    assert(r@.map_values(|n: &'static str| n@) =~= shim_names_spec());
    r
}

/// What the shim directory holds under a shim's name.
#[derive(Debug, Clone)]
pub enum ShimEntry {
    /// Nothing.
    Missing,
    /// A symlink, with its target.
    Symlink(String),
    /// Something that is not a symlink.
    NotSymlink,
}

/// What installing a shim does with what it finds.
#[derive(Debug, Clone, Copy, PartialEq, Eq, Structural)]
pub enum ShimStep {
    /// The symlink already points at the shim: leave it.
    Keep,
    /// A symlink to something else: remove it, then link the shim.
    Replace,
    /// Nothing there: link the shim.
    Create,
    /// Not a symlink: refuse to clobber it.
    Refuse,
}

pub open spec fn shim_step_spec(entry: ShimEntry, target: Seq<char>) -> ShimStep {
    match entry {
        ShimEntry::Missing => ShimStep::Create,
        ShimEntry::Symlink(t) => if path_equal(t@, target) {
            ShimStep::Keep
        } else {
            ShimStep::Replace
        },
        ShimEntry::NotSymlink => ShimStep::Refuse,
    }
}

/// Decides, for what is found at a shim's path, whether to keep it,
/// replace it, create the link or refuse: only symlinks are ever replaced,
/// and one already pointing at `target` (as a path) is kept.
pub fn shim_step(entry: &ShimEntry, target: &str) -> (r: ShimStep)
    ensures
        r == shim_step_spec(*entry, target@),
{
    match entry {
        ShimEntry::Missing => ShimStep::Create,
        ShimEntry::Symlink(t) => if paths_equal(t.as_str(), target) {
            ShimStep::Keep
        } else {
            ShimStep::Replace
        },
        ShimEntry::NotSymlink => ShimStep::Refuse,
    }
}

} // verus!
