//! Recognition of the files that appear in the runtime directory.
use vstd::prelude::*;
use crate::app::{engineer_id_spec, parse_engineer_id, singleton_id_for_label, singleton_id_spec};
use crate::app::{canonical, law_label_round_trip};
use crate::paths::{
    after_last_slash, plain_name, ends_with_path, extension_of, file_stem_of, join_path, last_dot,
    lemma_after_last_slash_join, name_stem, path_ends_with, path_extension, path_file_stem,
    path_starts_with, starts_with_path,
};
use crate::runtime::{spec_bus_tick_dir, spec_bus_tick_path, JOURNAL_FILE};
use crate::surface::{label_of, MemberId, Role};
use crate::text::{chars_of, has_prefix, is_lit, starts_with};

verus! {

/// The member a tick-file stem names: `engineer-<n>` or a singleton label.
pub open spec fn member_for_stem(stem: Seq<char>) -> Option<MemberId> {
    if starts_with(stem, "engineer-"@) {
        engineer_id_spec(stem)
    } else {
        singleton_id_spec(stem)
    }
}

/// Parses a tick filename like `engineer-1.tick` or `pm.tick` back into a
/// member; stray names give `None`.
pub fn parse_member_label_from_tick_path(path: &str) -> (r: Option<MemberId>)
    ensures
        r == match path_file_stem(path@) {
            Some(stem) => member_for_stem(stem),
            None => None,
        },
        plain_name(after_last_slash(path@)) ==> r == member_for_stem(name_stem(after_last_slash(path@))),
{
    let stem = match file_stem_of(path) {
        Some(s) => s,
        None => return None,
    };
    if has_prefix(&chars_of(stem.as_str()), &chars_of("engineer-")) {
        parse_engineer_id(stem.as_str())
    } else {
        singleton_id_for_label(stem.as_str())
    }
}

/// A member's tick file names that member: the path the bus writes for a
/// member's label parses back to the member, whatever the runtime root.
pub proof fn law_tick_path_round_trip(root: Seq<char>, m: MemberId)
    requires
        canonical(m),
    ensures
        plain_name(after_last_slash(spec_bus_tick_path(root, label_of(m)))),
        member_for_stem(name_stem(after_last_slash(spec_bus_tick_path(root, label_of(m))))) == Some(m),
{
    reveal_strlit(".");
    reveal_strlit("..");
    reveal_strlit("bus-tick");
    reveal_strlit(".tick");
    reveal_strlit("engineer-");
    reveal_strlit("engineer");
    reveal_strlit("pm");
    reveal_strlit("orchestrator");
    reveal_strlit("architect");
    reveal_strlit("recon");
    let l = label_of(m);
    let name = l + ".tick"@;
    let dir = spec_bus_tick_dir(root);
    assert(l.len() > 0 && l[0] != '/' && l[0] != '.');
    assert(!l.contains('/') && !l.contains('.')) by {
        if m.role == Role::Engineer {
            crate::app::lemma_decimal_digits(m.instance as nat);
            assert forall|i: int| 0 <= i < l.len() implies l[i] != '/' && l[i] != '.' by {
                if i >= 9 {
                    assert(l[i] == crate::text::decimal(m.instance as nat)[i - 9]);
                    assert(crate::text::is_digit(crate::text::decimal(m.instance as nat)[i - 9]));
                }
            }
        }
    }
    assert(!name.contains('/')) by {
        if name.contains('/') {
            let i = choose|i: int| 0 <= i < name.len() && name[i] == '/';
            if i < l.len() {
                assert(name[i] == l[i]);
            }
        }
    }
    assert(dir.len() > 0);
    lemma_after_last_slash_join(dir, name);
    assert(after_last_slash(spec_bus_tick_path(root, l)) == name);
    assert(name.len() > 2 && name[0] != '.');
    assert(name != "."@ && name != ".."@);
    assert(last_dot(name) == Some(l.len() as int)) by {
        reveal_with_fuel(last_dot, 6);
        let n4 = name.drop_last().drop_last().drop_last().drop_last();
        assert(n4 =~= l.push('.'));
    }
    assert(name_stem(name) =~= l);
    law_label_round_trip(m);
    if m.role == Role::Engineer {
        assert(l.subrange(0, 9) =~= "engineer-"@);
        assert(starts_with(l, "engineer-"@));
    } else {
        assert(l[0] != 'e');
        if l.len() >= 9 {
            assert(l.subrange(0, 9)[0] == l[0]);
            assert("engineer-"@[0] == 'e');
        }
        assert(!starts_with(l, "engineer-"@));
    }
    assert(member_for_stem(l) == Some(m));
}

/// Whether `path` has the `json` extension.
pub fn is_json_file(path: &str) -> (r: bool)
    ensures
        r == (path_extension(path@) == Some("json"@)),
{
    match extension_of(path) {
        Some(e) => is_lit(&chars_of(e.as_str()), "json"),
        None => false,
    }
}

/// Whether `path` has the `tick` extension.
pub fn is_tick_file(path: &str) -> (r: bool)
    ensures
        r == (path_extension(path@) == Some("tick"@)),
{
    match extension_of(path) {
        Some(e) => is_lit(&chars_of(e.as_str()), "tick"),
        None => false,
    }
}


/// What a changed file under the runtime directory is.
#[derive(Debug, Clone, Copy, PartialEq, Eq, Structural)]
pub enum RuntimeFile {
    /// The journal changed.
    Journal,
    /// A bus-tick nudge for the member its name gives (if it names one).
    Tick(Option<MemberId>),
    /// An engineer-spawn request.
    SpawnRequest,
    /// An engineer-release request.
    ReleaseRequest,
    /// Any other JSON file: a heartbeat.
    Heartbeat,
    /// Nothing to act on.
    Other,
}

/// How the watcher reads a changed `path`: the journal file; a `.tick`
/// under the bus-tick directory; then, among JSON files only, a request
/// under the spawn or the release directory, else a heartbeat.
pub open spec fn runtime_file_spec(
    spawn_dir: Seq<char>,
    release_dir: Seq<char>,
    tick_dir: Seq<char>,
    path: Seq<char>,
) -> RuntimeFile {
    if path_ends_with(path, JOURNAL_FILE@) {
        RuntimeFile::Journal
    } else if path_starts_with(path, tick_dir) && path_extension(path) == Some("tick"@) {
        RuntimeFile::Tick(
            match path_file_stem(path) {
                Some(stem) => member_for_stem(stem),
                None => None,
            },
        )
    } else if path_extension(path) != Some("json"@) {
        RuntimeFile::Other
    } else if path_starts_with(path, spawn_dir) {
        RuntimeFile::SpawnRequest
    } else if path_starts_with(path, release_dir) {
        RuntimeFile::ReleaseRequest
    } else {
        RuntimeFile::Heartbeat
    }
}

/// Classifies a changed file under the runtime directory (see
/// [`runtime_file_spec`]).
pub fn classify_runtime_path(spawn_dir: &str, release_dir: &str, tick_dir: &str, path: &str) -> (r: RuntimeFile)
    ensures
        r == runtime_file_spec(spawn_dir@, release_dir@, tick_dir@, path@),
{
    if ends_with_path(path, JOURNAL_FILE) {
        RuntimeFile::Journal
    } else if starts_with_path(path, tick_dir) && is_tick_file(path) {
        RuntimeFile::Tick(parse_member_label_from_tick_path(path))
    } else if !is_json_file(path) {
        RuntimeFile::Other
    } else if starts_with_path(path, spawn_dir) {
        RuntimeFile::SpawnRequest
    } else if starts_with_path(path, release_dir) {
        RuntimeFile::ReleaseRequest
    } else {
        RuntimeFile::Heartbeat
    }
}

} // verus!
