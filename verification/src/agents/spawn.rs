//! Per-role planning of what runs in a member's terminal: the agent CLI
//! with the role prompt, or a shell banner when that CLI is missing.
use vstd::prelude::*;
use crate::agents::prompts::{
    ARCHITECT_PROMPT, ENGINEER_PROMPT, ORCHESTRATOR_PROMPT, PM_PROMPT, RECON_PROMPT,
};
use crate::surface::Role;
use crate::text::{append_chars, append_lit, chars_of, opt_seq, str_views, string_of};

verus! {

/// The agent command-line program that members run in, and the model the
/// Recon role runs with (every other role uses the program's default).
#[derive(Debug, Clone)]
pub struct AgentCli {
    pub program: String,
    pub recon_model: Option<String>,
}

/// What to launch in a member's terminal.
#[derive(Debug, Clone)]
pub enum SpawnAction {
    /// Launch a binary directly (no shell wrapper).
    Program { program: String, args: Vec<String>, env: Vec<(String, String)> },
    /// Launch the user's shell with a one-shot startup command.
    Banner { startup_cmd: String, env: Vec<(String, String)> },
}

/// The views of a list of environment pairs.
pub open spec fn pair_views(v: Seq<(String, String)>) -> Seq<(Seq<char>, Seq<char>)> {
    v.map_values(|p: (String, String)| (p.0@, p.1@))
}

/// The prompt text of each role.
pub open spec fn prompt_spec(role: Role) -> Seq<char> {
    match role {
        Role::Pm => PM_PROMPT@,
        Role::Orchestrator => ORCHESTRATOR_PROMPT@,
        Role::Architect => ARCHITECT_PROMPT@,
        Role::Recon => RECON_PROMPT@,
        Role::Engineer => ENGINEER_PROMPT@,
    }
}

/// The model each role runs with: Recon the configured Recon model, the
/// others the CLI's default.
pub open spec fn model_spec(role: Role, recon_model: Option<Seq<char>>) -> Option<Seq<char>> {
    match role {
        Role::Recon => recon_model,
        _ => None,
    }
}

/// The environment of a member's terminal: its prompt, its id and, where
/// set, its model.
pub open spec fn env_spec(role: Role, agent_id: Seq<char>, recon_model: Option<Seq<char>>) -> Seq<
    (Seq<char>, Seq<char>),
> {
    let base = seq![("AGENT_PROMPT"@, prompt_spec(role)), ("AGENT_ID"@, agent_id)];
    match model_spec(role, recon_model) {
        Some(m) => base.push(("AGENT_MODEL"@, m)),
        None => base,
    }
}

/// The CLI arguments of a role.
pub open spec fn args_spec(role: Role, recon_model: Option<Seq<char>>) -> Seq<Seq<char>> {
    let base = seq![
        "--dangerously-skip-permissions"@,
        "--append-system-prompt"@,
        prompt_spec(role),
    ];
    match model_spec(role, recon_model) {
        Some(m) => base.push("--model"@).push(m),
        None => base,
    }
}

/// The startup command of the banner shown when the CLI is missing.
pub open spec fn banner_spec(agent_id: Seq<char>, program: Seq<char>) -> Seq<char> {
    "echo '["@ + agent_id + "] "@ + program
        + " not on PATH \u{2014} install it and restart fellowship'; echo '(role prompt is in $AGENT_PROMPT)'; exec bash"@
}

/// What [`plan_for`] returns: the CLI with the role's arguments when it is
/// available, else the banner; the member's environment either way.
pub open spec fn plan_post(role: Role, agent_id: Seq<char>, cli: AgentCli, cli_available: bool, r: SpawnAction) -> bool {
    match r {
        SpawnAction::Program { program, args, env } => {
            &&& cli_available
            &&& program@ == cli.program@
            &&& str_views(args@) == args_spec(role, opt_seq(cli.recon_model))
            &&& pair_views(env@) == env_spec(role, agent_id, opt_seq(cli.recon_model))
        },
        SpawnAction::Banner { startup_cmd, env } => {
            &&& !cli_available
            &&& startup_cmd@ == banner_spec(agent_id, cli.program@)
            &&& pair_views(env@) == env_spec(role, agent_id, opt_seq(cli.recon_model))
        },
    }
}

pub fn prompt_for(role: Role) -> (r: &'static str)
    ensures
        r@ == prompt_spec(role),
{
    match role {
        Role::Pm => PM_PROMPT,
        Role::Orchestrator => ORCHESTRATOR_PROMPT,
        Role::Architect => ARCHITECT_PROMPT,
        Role::Recon => RECON_PROMPT,
        Role::Engineer => ENGINEER_PROMPT,
    }
}

/// Default model per role: Recon uses the configured Recon model; everyone
/// else the CLI default.
pub fn default_model_for(role: Role, cli: &AgentCli) -> (r: Option<String>)
    ensures
        opt_seq(r) == model_spec(role, opt_seq(cli.recon_model)),
{
    match role {
        Role::Recon => match &cli.recon_model {
            Some(m) => Some(m.clone()),
            None => None,
        },
        _ => None,
    }
}

fn pair(k: &str, v: &str) -> (r: (String, String))
    ensures
        r.0@ == k@,
        r.1@ == v@,
{
    (String::from_str(k), String::from_str(v))
}

/// Builds the spawn action for `role` with member label `agent_id`: the CLI
/// itself when it is available, a shell banner otherwise.
pub fn plan_for(role: Role, agent_id: &str, cli: &AgentCli, cli_available: bool) -> (r: SpawnAction)
    ensures
        plan_post(role, agent_id@, *cli, cli_available, r),
{
    let prompt = prompt_for(role);
    let model = default_model_for(role, cli);
    let mut env: Vec<(String, String)> = Vec::new();
    env.push(pair("AGENT_PROMPT", prompt));
    env.push(pair("AGENT_ID", agent_id));
    if let Some(m) = &model {
        env.push(pair("AGENT_MODEL", m.as_str()));
    }
    assert(pair_views(env@) =~= env_spec(role, agent_id@, opt_seq(cli.recon_model)));
    if cli_available {
        let mut args: Vec<String> = Vec::new();
        args.push(String::from_str("--dangerously-skip-permissions"));
        args.push(String::from_str("--append-system-prompt"));
        args.push(String::from_str(prompt));
        if let Some(m) = model {
            args.push(String::from_str("--model"));
            args.push(m);
        }
        assert(str_views(args@) =~= args_spec(role, opt_seq(cli.recon_model)));
        SpawnAction::Program { program: cli.program.clone(), args, env }
    } else {
        let mut cmd = chars_of("echo '[");
        append_chars(&mut cmd, &chars_of(agent_id));
        append_lit(&mut cmd, "] ");
        append_chars(&mut cmd, &chars_of(cli.program.as_str()));
        append_lit(
            &mut cmd,
            " not on PATH \u{2014} install it and restart fellowship'; echo '(role prompt is in $AGENT_PROMPT)'; exec bash",
        );
        SpawnAction::Banner { startup_cmd: string_of(&cmd), env }
    }
}

/// The environment that an action carries.
pub fn action_env(action: &SpawnAction) -> (r: &Vec<(String, String)>)
    ensures
        match *action {
            SpawnAction::Program { env, .. } => *r == env,
            SpawnAction::Banner { env, .. } => *r == env,
        },
{
    match action {
        SpawnAction::Program { env, .. } => env,
        SpawnAction::Banner { env, .. } => env,
    }
}

/// Index of the first pair whose key is `k`.
pub open spec fn first_key(v: Seq<(Seq<char>, Seq<char>)>, k: Seq<char>) -> Option<int>
    decreases v.len(),
{
    if v.len() == 0 {
        None
    } else {
        match first_key(v.drop_last(), k) {
            Some(i) => Some(i),
            None => if v.last().0 == k {
                Some(v.len() - 1)
            } else {
                None
            },
        }
    }
}

/// Sets `k` to `val` in `v`: the first pair with that key gets the value,
/// or a new pair is appended.
pub open spec fn set_key(
    v: Seq<(Seq<char>, Seq<char>)>,
    k: Seq<char>,
    val: Seq<char>,
) -> Seq<(Seq<char>, Seq<char>)> {
    match first_key(v, k) {
        Some(i) => v.update(i, (v[i].0, val)),
        None => v.push((k, val)),
    }
}

/// `base` with every pair of `overrides` set in turn.
pub open spec fn merge_spec(
    base: Seq<(Seq<char>, Seq<char>)>,
    overrides: Seq<(Seq<char>, Seq<char>)>,
) -> Seq<(Seq<char>, Seq<char>)>
    decreases overrides.len(),
{
    if overrides.len() == 0 {
        base
    } else {
        let pre = merge_spec(base, overrides.drop_last());
        set_key(pre, overrides.last().0, overrides.last().1)
    }
}

proof fn lemma_first_key_props(v: Seq<(Seq<char>, Seq<char>)>, k: Seq<char>)
    ensures
        match first_key(v, k) {
            Some(i) => 0 <= i < v.len() && v[i].0 == k && forall|j: int|
                0 <= j < i ==> v[j].0 != k,
            None => forall|j: int| 0 <= j < v.len() ==> v[j].0 != k,
        },
    decreases v.len(),
{
    if v.len() > 0 {
        let t = v.drop_last();
        lemma_first_key_props(t, k);
        assert forall|j: int| 0 <= j < t.len() implies t[j] == v[j] by {}
    }
}

proof fn lemma_first_key_is(v: Seq<(Seq<char>, Seq<char>)>, k: Seq<char>, i: int)
    requires
        0 <= i < v.len(),
        v[i].0 == k,
        forall|j: int| 0 <= j < i ==> v[j].0 != k,
    ensures
        first_key(v, k) == Some(i),
{
    lemma_first_key_props(v, k);
    match first_key(v, k) {
        Some(m) => {
            if m < i {
            } else if m > i {
                assert(v[i].0 != k);
            }
        },
        None => {
            assert(v[i].0 != k);
        },
    }
}

proof fn lemma_first_key_none(v: Seq<(Seq<char>, Seq<char>)>, k: Seq<char>)
    requires
        forall|j: int| 0 <= j < v.len() ==> v[j].0 != k,
    ensures
        first_key(v, k) is None,
{
    lemma_first_key_props(v, k);
    match first_key(v, k) {
        Some(m) => {
            assert(v[m].0 != k);
        },
        None => {},
    }
}

fn clone_pairs(v: &[(String, String)]) -> (r: Vec<(String, String)>)
    ensures
        pair_views(r@) == pair_views(v@),
{
    let mut r: Vec<(String, String)> = Vec::new();
    let mut i: usize = 0;
    while i < v.len()
        invariant
            i <= v@.len(),
            pair_views(r@) == pair_views(v@.take(i as int)),
        decreases v@.len() - i,
    {
        let k = v[i].0.clone();
        let val = v[i].1.clone();
        let ghost before = pair_views(r@);
        r.push((k, val));
        assert(pair_views(r@) =~= before.push((v@[i as int].0@, v@[i as int].1@)));
        assert(v@.take(i + 1) =~= v@.take(i as int).push(v@[i as int]));
        i = i + 1;
        assert(pair_views(r@) =~= pair_views(v@.take(i as int)));
    }
    assert(v@.take(v@.len() as int) =~= v@);
    r
}

/// `base` with each of `overrides` applied: an override replaces the value
/// of the first pair with its key, or is appended.
pub fn merge_env(base: &[(String, String)], overrides: &[(String, String)]) -> (out: Vec<
    (String, String),
>)
    ensures
        pair_views(out@) == merge_spec(pair_views(base@), pair_views(overrides@)),
{
    let mut out = clone_pairs(base);
    let ghost b = pair_views(base@);
    let mut i: usize = 0;
    while i < overrides.len()
        invariant
            i <= overrides@.len(),
            b == pair_views(base@),
            pair_views(out@) == merge_spec(b, pair_views(overrides@).take(i as int)),
        decreases overrides@.len() - i,
    {
        let ghost ov = pair_views(overrides@);
        let ghost pre = pair_views(out@);
        assert(ov.take(i + 1).drop_last() =~= ov.take(i as int));
        assert(ov.take(i + 1).last() == ov[i as int]);
        let k = &overrides[i].0;
        let v = &overrides[i].1;
        let mut j: usize = 0;
        let mut found = false;
        while j < out.len()
            invariant_except_break
                !found,
            invariant
                j <= out@.len(),
                pre == pair_views(out@),
                forall|m: int| 0 <= m < j ==> pre[m].0 != k@,
            ensures
                found ==> j < out@.len() && pre[j as int].0 == k@,
                !found ==> j == out@.len(),
                forall|m: int| 0 <= m < j ==> pre[m].0 != k@,
                pre == pair_views(out@),
            decreases out@.len() - j,
        {
            if out[j].0 == *k {
                found = true;
                break;
            }
            j = j + 1;
        }
        if found {
            proof {
                lemma_first_key_is(pre, k@, j as int);
            }
            let newv = v.clone();
            let kk = out[j].0.clone();
            out.set(j, (kk, newv));
            assert(pair_views(out@) =~= pre.update(j as int, (pre[j as int].0, v@)));
        } else {
            proof {
                lemma_first_key_none(pre, k@);
            }
            out.push((k.clone(), v.clone()));
            assert(pair_views(out@) =~= pre.push((k@, v@)));
        }
        i = i + 1;
    }
    assert(pair_views(overrides@).take(overrides@.len() as int) =~= pair_views(overrides@));
    out
}

/// The value that a lookup of `k` in `v` finds: that of the first pair with
/// key `k`.
pub open spec fn lookup(v: Seq<(Seq<char>, Seq<char>)>, k: Seq<char>) -> Option<Seq<char>> {
    match first_key(v, k) {
        Some(i) => Some(v[i].1),
        None => None,
    }
}

/// The value of the last override for `k`, if any.
pub open spec fn last_value(v: Seq<(Seq<char>, Seq<char>)>, k: Seq<char>) -> Option<Seq<char>>
    decreases v.len(),
{
    if v.len() == 0 {
        None
    } else if v.last().0 == k {
        Some(v.last().1)
    } else {
        last_value(v.drop_last(), k)
    }
}

/// Overrides take precedence: after a merge, a key that some override sets
/// has the value of the last such override; any other key keeps its value
/// in `base`.
pub proof fn law_merge_env_overrides_win(
    base: Seq<(Seq<char>, Seq<char>)>,
    overrides: Seq<(Seq<char>, Seq<char>)>,
    k: Seq<char>,
)
    ensures
        lookup(merge_spec(base, overrides), k) == match last_value(overrides, k) {
            Some(v) => Some(v),
            None => lookup(base, k),
        },
    decreases overrides.len(),
{
    if overrides.len() > 0 {
        let pre = merge_spec(base, overrides.drop_last());
        law_merge_env_overrides_win(base, overrides.drop_last(), k);
        let (ok, ov) = overrides.last();
        lemma_set_key_lookup(pre, ok, ov, k);
    }
}

/// Whether some pair of `v` has the key `k`.
pub open spec fn has_key(v: Seq<(Seq<char>, Seq<char>)>, k: Seq<char>) -> bool {
    exists|i: int| 0 <= i < v.len() && #[trigger] v[i].0 == k
}

/// No key occurs twice in `v`.
pub open spec fn distinct_keys(v: Seq<(Seq<char>, Seq<char>)>) -> bool {
    forall|i: int, j: int| 0 <= i < j < v.len() ==> #[trigger] v[i].0 != #[trigger] v[j].0
}

proof fn lemma_set_key_shape(v: Seq<(Seq<char>, Seq<char>)>, k: Seq<char>, val: Seq<char>)
    ensures
        set_key(v, k, val).len() >= v.len(),
        forall|i: int| 0 <= i < v.len() ==> #[trigger] set_key(v, k, val)[i].0 == v[i].0,
        forall|q: Seq<char>| #[trigger] has_key(set_key(v, k, val), q) <==> (has_key(v, q) || q == k),
        distinct_keys(v) ==> distinct_keys(set_key(v, k, val)),
{
    lemma_first_key_props(v, k);
    let s = set_key(v, k, val);
    match first_key(v, k) {
        Some(i) => {
            assert forall|q: Seq<char>| #[trigger] has_key(s, q) <==> (has_key(v, q) || q == k) by {
                if has_key(s, q) {
                    let j = choose|j: int| 0 <= j < s.len() && #[trigger] s[j].0 == q;
                    assert(v[j].0 == q);
                }
                if has_key(v, q) {
                    let j = choose|j: int| 0 <= j < v.len() && #[trigger] v[j].0 == q;
                    assert(s[j].0 == q);
                }
                if q == k {
                    assert(s[i].0 == q);
                }
            }
        },
        None => {
            assert forall|q: Seq<char>| #[trigger] has_key(s, q) <==> (has_key(v, q) || q == k) by {
                if has_key(s, q) {
                    let j = choose|j: int| 0 <= j < s.len() && #[trigger] s[j].0 == q;
                    if j < v.len() {
                        assert(v[j].0 == q);
                    }
                }
                if has_key(v, q) {
                    let j = choose|j: int| 0 <= j < v.len() && #[trigger] v[j].0 == q;
                    assert(s[j].0 == q);
                }
                if q == k {
                    assert(s[v.len() as int].0 == q);
                }
            }
            if distinct_keys(v) {
                assert forall|a: int, b: int| 0 <= a < b < s.len() implies #[trigger] s[a].0 != #[trigger] s[b].0 by {
                    if b == v.len() {
                        assert(s[a].0 == v[a].0);
                    } else {
                        assert(s[a].0 == v[a].0 && s[b].0 == v[b].0);
                    }
                }
            }
        },
    }
}

/// The shape of a merge: `base`'s keys keep their places in front; the keys
/// are those of `base` and of `overrides`; and a `base` without repeated
/// keys gives a result without repeated keys.
pub proof fn law_merge_env_shape(base: Seq<(Seq<char>, Seq<char>)>, overrides: Seq<(Seq<char>, Seq<char>)>)
    ensures
        merge_spec(base, overrides).len() >= base.len(),
        forall|i: int| 0 <= i < base.len() ==> #[trigger] merge_spec(base, overrides)[i].0 == base[i].0,
        forall|q: Seq<char>|
            #[trigger] has_key(merge_spec(base, overrides), q) <==> (has_key(base, q) || has_key(overrides, q)),
        distinct_keys(base) ==> distinct_keys(merge_spec(base, overrides)),
    decreases overrides.len(),
{
    if overrides.len() > 0 {
        let ov = overrides.drop_last();
        let pre = merge_spec(base, ov);
        law_merge_env_shape(base, ov);
        let (k, v) = overrides.last();
        lemma_set_key_shape(pre, k, v);
        let m = merge_spec(base, overrides);
        assert(m == set_key(pre, k, v));
        assert forall|i: int| 0 <= i < base.len() implies #[trigger] m[i].0 == base[i].0 by {
            assert(m[i].0 == pre[i].0);
            assert(pre[i].0 == base[i].0);
        }
        assert forall|q: Seq<char>| #[trigger] has_key(m, q) <==> (has_key(base, q) || has_key(overrides, q)) by {
            assert(has_key(m, q) <==> (has_key(pre, q) || q == k));
            assert(has_key(pre, q) <==> (has_key(base, q) || has_key(ov, q)));
            if has_key(ov, q) {
                let j = choose|j: int| 0 <= j < ov.len() && #[trigger] ov[j].0 == q;
                assert(overrides[j].0 == q);
            }
            if q == k {
                assert(overrides[overrides.len() - 1].0 == q);
            }
            if has_key(overrides, q) && q != k {
                let j = choose|j: int| 0 <= j < overrides.len() && #[trigger] overrides[j].0 == q;
                assert(j < ov.len());
                assert(ov[j].0 == q);
            }
        }
    }
}

proof fn lemma_set_key_lookup(
    v: Seq<(Seq<char>, Seq<char>)>,
    k: Seq<char>,
    val: Seq<char>,
    q: Seq<char>,
)
    ensures
        lookup(set_key(v, k, val), q) == if q == k {
            Some(val)
        } else {
            lookup(v, q)
        },
{
    lemma_first_key_props(v, k);
    lemma_first_key_props(v, q);
    let s = set_key(v, k, val);
    match first_key(v, k) {
        Some(i) => {
            if q == k {
                lemma_first_key_is(s, q, i);
            } else {
                match first_key(v, q) {
                    Some(m) => {
                        lemma_first_key_is(s, q, m);
                    },
                    None => {
                        lemma_first_key_none(s, q);
                    },
                }
            }
        },
        None => {
            if q == k {
                lemma_first_key_is(s, q, v.len() as int);
            } else {
                match first_key(v, q) {
                    Some(m) => {
                        lemma_first_key_is(s, q, m);
                    },
                    None => {
                        lemma_first_key_none(s, q);
                    },
                }
            }
        },
    }
}

} // verus!
