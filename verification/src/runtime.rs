//! Shared runtime records and the layout of the runtime directory.
//!
//! The records are the messages that agents and the TUI exchange through
//! files under the runtime directory; the functions here compute where each
//! file lives.
use vstd::prelude::*;
use crate::paths::{join_lit, join_path, join_path_chars};
use crate::text::{append_lit, chars_of, opt_seq, string_of, trim, trim_chars};

verus! {

pub const STATE_DIR: &'static str = "state";
pub const SPAWN_REQUEST_DIR: &'static str = "spawn-requests";
pub const RELEASE_REQUEST_DIR: &'static str = "release-requests";
pub const JOURNAL_FILE: &'static str = "journal.ndjson";
/// Per-agent persistent state files.
pub const AGENT_STATE_DIR: &'static str = "agent_state";
/// Bus-tick nudge files, one per recipient agent.
pub const BUS_TICK_DIR: &'static str = "bus-tick";

/// Per-agent heartbeat record.
#[derive(Debug, Clone, PartialEq, Eq)]
pub struct HeartbeatRecord {
    pub agent_id: String,
    pub last_seen_ms: u128,
    pub status: String,
}

/// Engineer-spawn request.
#[derive(Debug, Clone, PartialEq, Eq)]
pub struct SpawnRequest {
    pub request_id: String,
    pub branch: Option<String>,
    pub single_shot: bool,
    pub requested_at_ms: u128,
}

/// Engineer-release request.
#[derive(Debug, Clone, PartialEq, Eq)]
pub struct ReleaseRequest {
    pub request_id: String,
    pub agent_id: String,
    pub requested_at_ms: u128,
}

/// One line of the agent activity journal.
#[derive(Debug, Clone, PartialEq, Eq)]
pub struct JournalEntry {
    pub ts_ms: u128,
    pub agent_id: String,
    pub message: String,
}

/// Milliseconds since the Unix epoch, 0 if the clock is before it.
/// Reads the system clock, so nothing is claimed of the value.
#[verifier::external_body]
pub fn now_ms() -> u128 {
    std::time::SystemTime::now().duration_since(std::time::UNIX_EPOCH).map(|d| d.as_millis()).unwrap_or(0)
}

pub open spec fn spec_agent_state_dir(root: Seq<char>) -> Seq<char> {
    join_path(root, "agent_state"@)
}

pub open spec fn spec_agent_state_path(root: Seq<char>, label: Seq<char>) -> Seq<char> {
    join_path(spec_agent_state_dir(root), label + ".json"@)
}

pub open spec fn spec_agent_notes_path(root: Seq<char>, label: Seq<char>) -> Seq<char> {
    join_path(join_path(spec_agent_state_dir(root), label), "notes.md"@)
}

pub open spec fn spec_bus_tick_dir(root: Seq<char>) -> Seq<char> {
    join_path(root, "bus-tick"@)
}

pub open spec fn spec_bus_tick_path(root: Seq<char>, label: Seq<char>) -> Seq<char> {
    join_path(spec_bus_tick_dir(root), label + ".tick"@)
}

fn agent_state_dir_chars(root: &str) -> (r: Vec<char>)
    ensures
        r@ == spec_agent_state_dir(root@),
{
    join_lit(&chars_of(root), AGENT_STATE_DIR)
}

/// Directory holding per-agent persistent state files.
pub fn agent_state_dir(root: &str) -> (r: String)
    ensures
        r@ == spec_agent_state_dir(root@),
{
    string_of(&agent_state_dir_chars(root))
}

/// Path to one agent's state file, `<root>/agent_state/<label>.json`.
pub fn agent_state_path(root: &str, member_label: &str) -> (r: String)
    ensures
        r@ == spec_agent_state_path(root@, member_label@),
{
    let dir = agent_state_dir_chars(root);
    let mut name = chars_of(member_label);
    append_lit(&mut name, ".json");
    string_of(&join_path_chars(&dir, &name))
}

/// Path to one agent's notes file, `<root>/agent_state/<label>/notes.md`.
pub fn agent_notes_path(root: &str, member_label: &str) -> (r: String)
    ensures
        r@ == spec_agent_notes_path(root@, member_label@),
{
    let dir = agent_state_dir_chars(root);
    let sub = join_path_chars(&dir, &chars_of(member_label));
    string_of(&join_lit(&sub, "notes.md"))
}

/// Directory holding bus-tick nudge files.
pub fn bus_tick_dir(root: &str) -> (r: String)
    ensures
        r@ == spec_bus_tick_dir(root@),
{
    string_of(&join_lit(&chars_of(root), BUS_TICK_DIR))
}

/// Path to one agent's bus-tick file, `<root>/bus-tick/<label>.tick`.
pub fn bus_tick_path(root: &str, member_label: &str) -> (r: String)
    ensures
        r@ == spec_bus_tick_path(root@, member_label@),
{
    let dir = join_lit(&chars_of(root), BUS_TICK_DIR);
    let mut name = chars_of(member_label);
    append_lit(&mut name, ".tick");
    string_of(&join_path_chars(&dir, &name))
}

/// Path to the journal file.
pub fn journal_path(root: &str) -> (r: String)
    ensures
        r@ == join_path(root@, "journal.ndjson"@),
{
    string_of(&join_lit(&chars_of(root), JOURNAL_FILE))
}

/// Path of `<dir>/<name>` for a subdirectory name of the runtime root.
pub fn subdir_path(root: &str, name: &str) -> (r: String)
    ensures
        r@ == join_path(root@, name@),
{
    string_of(&join_path_chars(&chars_of(root), &chars_of(name)))
}

/// Path of the request file `<dir>/<request_id>.json`.
pub fn request_file_path(dir: &str, request_id: &str) -> (r: String)
    ensures
        r@ == join_path(dir@, request_id@ + ".json"@),
{
    let mut name = chars_of(request_id);
    append_lit(&mut name, ".json");
    string_of(&join_path_chars(&chars_of(dir), &name))
}

/// `<home>/.fellowship/runtime`.
pub open spec fn spec_runtime_base(home: Seq<char>) -> Seq<char> {
    join_path(join_path(home, ".fellowship"@), "runtime"@)
}

/// Where the runtime directory is, from the environment: an explicit
/// override wins; otherwise `<home>/.fellowship/runtime/<session>`, the
/// session being the `FELLOWSHIP_SESSION` value, else the recorded current
/// session, else `default`. `None` when neither an override nor a home
/// directory is known.
pub open spec fn spec_runtime_dir(
    override_dir: Option<Seq<char>>,
    home: Option<Seq<char>>,
    session_env: Option<Seq<char>>,
    current_session: Option<Seq<char>>,
) -> Option<Seq<char>> {
    match override_dir {
        Some(d) => Some(d),
        None => match home {
            None => None,
            Some(h) => {
                let session = match session_env {
                    Some(s) => s,
                    None => match current_session {
                        Some(s) => s,
                        None => "default"@,
                    },
                };
                Some(join_path(spec_runtime_base(h), session))
            },
        },
    }
}

fn opt_view(o: &Option<String>) -> (r: Option<Vec<char>>)
    ensures
        match *o {
            Some(s) => r is Some && r->0@ == s@,
            None => r is None,
        },
{
    match o {
        Some(s) => Some(chars_of(s.as_str())),
        None => None,
    }
}

/// Resolves the runtime directory from the values of the environment (see
/// [`spec_runtime_dir`]).
pub fn resolve_runtime_dir(
    override_dir: Option<String>,
    home: Option<String>,
    session_env: Option<String>,
    current_session: Option<String>,
) -> (r: Option<String>)
    ensures
        match r {
            Some(p) => spec_runtime_dir(
                opt_seq(override_dir),
                opt_seq(home),
                opt_seq(session_env),
                opt_seq(current_session),
            ) == Some(p@),
            None => spec_runtime_dir(
                opt_seq(override_dir),
                opt_seq(home),
                opt_seq(session_env),
                opt_seq(current_session),
            ) is None,
        },
{
    if let Some(d) = override_dir {
        return Some(d);
    }
    let h = match home {
        Some(h) => h,
        None => return None,
    };
    let session: Vec<char> = match opt_view(&session_env) {
        Some(s) => s,
        None => match opt_view(&current_session) {
            Some(s) => s,
            None => chars_of("default"),
        },
    };
    let base = join_lit(&join_lit(&chars_of(h.as_str()), ".fellowship"), "runtime");
    Some(string_of(&join_path_chars(&base, &session)))
}

/// `<home>/.fellowship/runtime/CURRENT_SESSION`.
pub fn current_session_marker_path(home: &str) -> (r: String)
    ensures
        r@ == join_path(spec_runtime_base(home@), "CURRENT_SESSION"@),
{
    let base = join_lit(&join_lit(&chars_of(home), ".fellowship"), "runtime");
    string_of(&join_lit(&base, "CURRENT_SESSION"))
}

/// The session recorded in a CURRENT_SESSION marker: its trimmed text, or
/// `None` when that is empty.
pub fn parse_current_session(text: &str) -> (r: Option<String>)
    ensures
        match r {
            Some(s) => trim(text@).len() > 0 && s@ == trim(text@),
            None => trim(text@).len() == 0,
        },
{
    let t = trim_chars(&chars_of(text));
    if t.len() == 0 {
        None
    } else {
        Some(string_of(&t))
    }
}

} // verus!
