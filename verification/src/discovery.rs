//! Which files under the projects directory are session logs, which of them
//! fall in a time window, and which is the newest.

use vstd::prelude::*;
use crate::text::{contains, contains_text, str_eq};

verus! {

/// A session log is a `.jsonl` file outside any `subagents` directory (any
/// path that mentions `subagents` is left out).
pub open spec fn spec_is_session_log(extension: Option<Seq<char>>, path: Seq<char>) -> bool {
    extension == Some("jsonl"@) && !contains_text(path, "subagents"@)
}

/// A file is a session log exactly when its extension is `jsonl` and its
/// path does not mention `subagents`: any path with `subagents` in it is
/// left out, and no other word in a path (`agents` among them) leaves a
/// `.jsonl` file out.
pub proof fn law_session_logs(extension: Option<Seq<char>>, path: Seq<char>, before: Seq<char>, after: Seq<char>)
    ensures
        spec_is_session_log(extension, path) <==> (extension == Some("jsonl"@) && !contains_text(
            path,
            "subagents"@,
        )),
        !spec_is_session_log(extension, before + "subagents"@ + after),
        extension != Some("jsonl"@) ==> !spec_is_session_log(extension, path),
{
    let p = before + "subagents"@ + after;
    assert(p.subrange(before.len() as int, before.len() + "subagents"@.len() as int) =~= "subagents"@);
}

/// Whether a file with this extension and this path text is a session log.
pub fn is_session_log(extension: Option<&str>, path: &str) -> (log: bool)
    ensures
        log == spec_is_session_log(
            match extension {
                Some(e) => Some(e@),
                None => None,
            },
            path@,
        ),
{
    let is_jsonl = match extension {
        Some(e) => str_eq(e, "jsonl"),
        None => false,
    };
    is_jsonl && !contains(path, "subagents")
}

/// Seconds in `days` days.
pub open spec fn window_seconds(days: u32) -> nat {
    days as nat * 86400
}

/// A file is in a window of `days` days unless its age, when it is known, is
/// more than that many days.
pub open spec fn spec_within_window(age_seconds: Option<u64>, days: u32) -> bool {
    match age_seconds {
        Some(age) => age <= window_seconds(days),
        None => true,
    }
}

/// Whether a file of this age (in seconds, `None` when it cannot be told)
/// belongs to a window of `days` days.
pub fn within_window(age_seconds: Option<u64>, days: u32) -> (inside: bool)
    ensures
        inside == spec_within_window(age_seconds, days),
{
    match age_seconds {
        Some(age) => {
            assert(days as u64 * 86400 <= u64::MAX) by (nonlinear_arith)
                requires
                    days <= u32::MAX,
            ;
            age <= (days as u64) * 86400
        },
        None => true,
    }
}

/// `i` is the first place of the greatest stamp: every earlier stamp is
/// smaller, and no stamp is greater.
pub open spec fn is_first_newest(stamps: Seq<i128>, i: int) -> bool {
    &&& 0 <= i < stamps.len()
    &&& forall|j: int| 0 <= j < i ==> stamps[j] < stamps[i]
    &&& forall|j: int| 0 <= j < stamps.len() ==> stamps[j] <= stamps[i]
}

/// The newest of a list of modification stamps: the first of the greatest,
/// since a later one only replaces it when strictly newer. `None` for an
/// empty list.
pub fn newest_index(stamps: &Vec<i128>) -> (newest: Option<usize>)
    ensures
        newest is None <==> stamps@.len() == 0,
        newest matches Some(i) ==> is_first_newest(stamps@, i as int),
{
    if stamps.len() == 0 {
        return None;
    }
    let mut best: usize = 0;
    let mut i: usize = 1;
    while i < stamps.len()
        invariant
            1 <= i <= stamps.len(),
            best < i,
            forall|j: int| 0 <= j < best ==> stamps@[j] < stamps@[best as int],
            forall|j: int| 0 <= j < i ==> stamps@[j] <= stamps@[best as int],
        decreases stamps.len() - i,
    {
        if stamps[i] > stamps[best] {
            best = i;
        }
        i += 1;
    }
    Some(best)
}

} // verus!
