//! Reading a session log (one JSON document per line) into a [`TokenSummary`].

use vstd::prelude::*;
use crate::json::{json_document, parse_json, Json};
use crate::session::TokenSummary;
use crate::text::{opt_text, str_eq};

verus! {

/// What the lines read so far add up to, with counts that cannot overflow.
pub ghost struct Tally {
    pub turns: nat,
    pub input: nat,
    pub output: nat,
    pub cache_read: nat,
    pub cache_write: nat,
    pub model: Option<Seq<char>>,
    pub first_ts: Option<Seq<char>>,
    pub last_ts: Option<Seq<char>>,
}

pub open spec fn empty_tally() -> Tally {
    Tally {
        turns: 0,
        input: 0,
        output: 0,
        cache_read: 0,
        cache_write: 0,
        model: None,
        first_ts: None,
        last_ts: None,
    }
}

/// Whether every count of the tally fits in a `u64`.
pub open spec fn tally_fits(t: Tally) -> bool {
    &&& t.turns <= u64::MAX
    &&& t.input <= u64::MAX
    &&& t.output <= u64::MAX
    &&& t.cache_read <= u64::MAX
    &&& t.cache_write <= u64::MAX
}

/// Every count of `a` is at most the same count of `b`.
pub open spec fn counts_le(a: Tally, b: Tally) -> bool {
    &&& a.turns <= b.turns
    &&& a.input <= b.input
    &&& a.output <= b.output
    &&& a.cache_read <= b.cache_read
    &&& a.cache_write <= b.cache_write
}

/// The text of member `key`, when it is a string.
pub open spec fn text_field(v: Json, key: Seq<char>) -> Option<Seq<char>> {
    match v.field(key) {
        Some(x) => x.text(),
        None => None,
    }
}

/// The value of member `key` when it is an integer that fits in a `u64`, else 0.
pub open spec fn count_field(v: Json, key: Seq<char>) -> nat {
    match v.field(key) {
        Some(x) => match x.unsigned() {
            Some(n) => n as nat,
            None => 0,
        },
        None => 0,
    }
}

/// Adds a usage block to the tally: one more turn and its four counts.
pub open spec fn tally_usage(t: Tally, usage: Json) -> Tally {
    Tally {
        turns: t.turns + 1,
        input: t.input + count_field(usage, "input_tokens"@),
        output: t.output + count_field(usage, "output_tokens"@),
        cache_read: t.cache_read + count_field(usage, "cache_read_input_tokens"@),
        cache_write: t.cache_write + count_field(usage, "cache_creation_input_tokens"@),
        ..t
    }
}

/// Adds one parsed record. Its `timestamp`, when it is a string, becomes the
/// last one seen (and the first, if none was seen yet). Only a record whose
/// `type` is `"assistant"` and that has a `message` counts further: the
/// message's `model` is kept if no model was known yet, and its `usage`, if
/// present, adds a turn and its token counts.
pub open spec fn tally_record(t: Tally, v: Json) -> Tally {
    let t1 = match text_field(v, "timestamp"@) {
        Some(ts) => Tally {
            first_ts: if t.first_ts is Some { t.first_ts } else { Some(ts) },
            last_ts: Some(ts),
            ..t
        },
        None => t,
    };
    if text_field(v, "type"@) != Some("assistant"@) {
        t1
    } else {
        match v.field("message"@) {
            None => t1,
            Some(msg) => {
                let t2 = if t1.model is None {
                    Tally { model: text_field(msg, "model"@), ..t1 }
                } else {
                    t1
                };
                match msg.field("usage"@) {
                    None => t2,
                    Some(usage) => tally_usage(t2, usage),
                }
            },
        }
    }
}

/// Adds one line: an empty line, or one that is not JSON, adds nothing.
pub open spec fn tally_line(t: Tally, line: Seq<char>) -> Tally {
    if line.len() == 0 {
        t
    } else {
        match json_document(line) {
            Some(v) => tally_record(t, v),
            None => t,
        }
    }
}

/// The tally of a whole log, line after line.
pub open spec fn tally_lines(lines: Seq<Seq<char>>) -> Tally
    decreases lines.len(),
{
    if lines.len() == 0 {
        empty_tally()
    } else {
        tally_line(tally_lines(lines.drop_last()), lines.last())
    }
}

/// The characters of each line.
pub open spec fn texts(lines: Seq<String>) -> Seq<Seq<char>> {
    lines.map_values(|l: String| l@)
}

/// What a summary says of the lines it was read from.
pub open spec fn tally_of(s: TokenSummary) -> Tally {
    Tally {
        turns: s.turns as nat,
        input: s.input_tokens as nat,
        output: s.output_tokens as nat,
        cache_read: s.cache_read_input_tokens as nat,
        cache_write: s.cache_creation_input_tokens as nat,
        model: opt_text(s.model),
        first_ts: opt_text(s.first_ts),
        last_ts: opt_text(s.last_ts),
    }
}

pub proof fn lemma_tally_line_grows(t: Tally, line: Seq<char>)
    ensures
        counts_le(t, tally_line(t, line)),
{
}

/// A log that grows by more lines never shows a smaller count: turns, input,
/// output, cache read and cache creation only go up.
pub proof fn law_appending_lines_never_lowers_counts(lines: Seq<Seq<char>>, more: Seq<Seq<char>>)
    ensures
        counts_le(tally_lines(lines), tally_lines(lines + more)),
    decreases more.len(),
{
    if more.len() == 0 {
        assert(lines + more =~= lines);
    } else {
        law_appending_lines_never_lowers_counts(lines, more.drop_last());
        assert((lines + more).drop_last() =~= lines + more.drop_last());
        assert((lines + more).last() == more.last());
        lemma_tally_line_grows(tally_lines(lines + more.drop_last()), more.last());
    }
}

/// Summaries of a session log taken as it grows never go down: the later
/// one has at least the effective context, and at least the billed total, of
/// the earlier one.
pub proof fn law_growing_log_never_lowers_context(
    earlier: TokenSummary,
    later: TokenSummary,
    lines: Seq<Seq<char>>,
    more: Seq<Seq<char>>,
)
    requires
        tally_of(earlier) == tally_lines(lines),
        tally_of(later) == tally_lines(lines + more),
    ensures
        earlier.spec_effective_context() <= later.spec_effective_context(),
        earlier.spec_total_tokens() <= later.spec_total_tokens(),
{
    law_appending_lines_never_lowers_counts(lines, more);
}

/// A line that adds nothing: empty, or not JSON.
pub open spec fn is_inert(line: Seq<char>) -> bool {
    line.len() == 0 || json_document(line) is None
}

/// The lines of a log that can add something.
pub open spec fn meaningful_lines(lines: Seq<Seq<char>>) -> Seq<Seq<char>> {
    lines.filter(|l: Seq<char>| !is_inert(l))
}

/// A log adds up to what its meaningful lines add up to.
pub proof fn lemma_tally_of_meaningful_lines(lines: Seq<Seq<char>>)
    ensures
        tally_lines(lines) == tally_lines(meaningful_lines(lines)),
    decreases lines.len(),
{
    reveal(Seq::filter);
    if lines.len() > 0 {
        lemma_tally_of_meaningful_lines(lines.drop_last());
        let kept = meaningful_lines(lines.drop_last());
        if !is_inert(lines.last()) {
            assert(meaningful_lines(lines) == kept.push(lines.last()));
            assert(kept.push(lines.last()).drop_last() =~= kept);
        }
    }
}

/// Empty lines and lines that are not JSON, inserted anywhere and in any
/// number, change nothing: two logs with the same meaningful lines, in the
/// same order, add up to the same summary.
pub proof fn law_inert_lines_change_nothing(lines: Seq<Seq<char>>, other: Seq<Seq<char>>)
    requires
        meaningful_lines(lines) == meaningful_lines(other),
    ensures
        tally_lines(lines) == tally_lines(other),
{
    lemma_tally_of_meaningful_lines(lines);
    lemma_tally_of_meaningful_lines(other);
}

/// The first of two values that is present.
pub open spec fn first_present(a: Option<Seq<char>>, b: Option<Seq<char>>) -> Option<Seq<char>> {
    if a is Some {
        a
    } else {
        b
    }
}

/// What two logs add up to when the second follows the first: counts add,
/// the first timestamp and the model come from the first log when it has
/// them, and the last timestamp from the second log when it has one.
pub open spec fn join_tallies(a: Tally, b: Tally) -> Tally {
    Tally {
        turns: a.turns + b.turns,
        input: a.input + b.input,
        output: a.output + b.output,
        cache_read: a.cache_read + b.cache_read,
        cache_write: a.cache_write + b.cache_write,
        model: first_present(a.model, b.model),
        first_ts: first_present(a.first_ts, b.first_ts),
        last_ts: first_present(b.last_ts, a.last_ts),
    }
}

/// Reading a line after a log commutes with joining that log in front.
pub proof fn lemma_line_after_join(a: Tally, t: Tally, line: Seq<char>)
    ensures
        tally_line(join_tallies(a, t), line) == join_tallies(a, tally_line(t, line)),
{
}

/// A log joined from two parts adds up to the join of what each part adds
/// up to.
pub proof fn lemma_tally_of_joined_lines(first: Seq<Seq<char>>, second: Seq<Seq<char>>)
    ensures
        tally_lines(first + second) == join_tallies(tally_lines(first), tally_lines(second)),
    decreases second.len(),
{
    if second.len() == 0 {
        assert(first + second =~= first);
    } else {
        lemma_tally_of_joined_lines(first, second.drop_last());
        assert((first + second).drop_last() =~= first + second.drop_last());
        assert((first + second).last() == second.last());
        lemma_line_after_join(tally_lines(first), tally_lines(second.drop_last()), second.last());
    }
}

/// The summary of two logs joined, one after the other: turns and the four
/// token counts are the sums of the two summaries'; the first timestamp and
/// the model are the first log's when it has them, else the second's; the
/// last timestamp is the second log's when it has one, else the first's.
pub proof fn law_joined_logs(
    a: TokenSummary,
    b: TokenSummary,
    joined: TokenSummary,
    first: Seq<Seq<char>>,
    second: Seq<Seq<char>>,
)
    requires
        tally_of(a) == tally_lines(first),
        tally_of(b) == tally_lines(second),
        tally_of(joined) == tally_lines(first + second),
    ensures
        joined.turns == a.turns + b.turns,
        joined.input_tokens == a.input_tokens + b.input_tokens,
        joined.output_tokens == a.output_tokens + b.output_tokens,
        joined.cache_read_input_tokens == a.cache_read_input_tokens + b.cache_read_input_tokens,
        joined.cache_creation_input_tokens == a.cache_creation_input_tokens
            + b.cache_creation_input_tokens,
        opt_text(joined.model) == first_present(opt_text(a.model), opt_text(b.model)),
        opt_text(joined.first_ts) == first_present(opt_text(a.first_ts), opt_text(b.first_ts)),
        opt_text(joined.last_ts) == first_present(opt_text(b.last_ts), opt_text(a.last_ts)),
{
    lemma_tally_of_joined_lines(first, second);
}

/// A log has a first timestamp exactly when it has a last one.
pub proof fn law_first_and_last_timestamp_together(lines: Seq<Seq<char>>)
    ensures
        tally_lines(lines).first_ts is Some <==> tally_lines(lines).last_ts is Some,
    decreases lines.len(),
{
    if lines.len() > 0 {
        law_first_and_last_timestamp_together(lines.drop_last());
    }
}

/// A log has no more turns than lines.
pub proof fn law_turns_at_most_lines(lines: Seq<Seq<char>>)
    ensures
        tally_lines(lines).turns <= lines.len(),
    decreases lines.len(),
{
    if lines.len() > 0 {
        law_turns_at_most_lines(lines.drop_last());
    }
}

/// The text of member `key` of `v`, when it is a string.
fn member_text<'a>(v: &'a Json, key: &str) -> (t: Option<&'a str>)
    ensures
        match t {
            Some(s) => text_field(*v, key@) == Some(s@),
            None => text_field(*v, key@) is None,
        },
{
    match v.get(key) {
        Some(m) => m.as_str(),
        None => None,
    }
}

/// The count in member `key` of `v`, 0 when it is missing or not a `u64`.
fn member_count(v: &Json, key: &str) -> (n: u64)
    ensures
        n == count_field(*v, key@),
{
    match v.get(key) {
        Some(m) => match m.as_u64() {
            Some(n) => n,
            None => 0,
        },
        None => 0,
    }
}

/// Adds a usage block to `s`; `false`, with `s` unspecified, when a count
/// would no longer fit in a `u64`.
fn absorb_usage(s: &mut TokenSummary, usage: &Json) -> (ok: bool)
    ensures
        final(s).file == old(s).file,
        ok == tally_fits(tally_usage(tally_of(*old(s)), *usage)),
        ok ==> tally_of(*final(s)) == tally_usage(tally_of(*old(s)), *usage),
{
    let turns = s.turns.checked_add(1);
    let input = s.input_tokens.checked_add(member_count(usage, "input_tokens"));
    let output = s.output_tokens.checked_add(member_count(usage, "output_tokens"));
    let cache_read = s.cache_read_input_tokens.checked_add(
        member_count(usage, "cache_read_input_tokens"),
    );
    let cache_write = s.cache_creation_input_tokens.checked_add(
        member_count(usage, "cache_creation_input_tokens"),
    );
    match (turns, input, output, cache_read, cache_write) {
        (Some(a), Some(b), Some(c), Some(d), Some(e)) => {
            s.turns = a;
            s.input_tokens = b;
            s.output_tokens = c;
            s.cache_read_input_tokens = d;
            s.cache_creation_input_tokens = e;
            true
        },
        _ => false,
    }
}

/// Adds one parsed record to `s`: `false`, with `s` unspecified, when a
/// count would no longer fit in a `u64`.
pub fn absorb_record(s: &mut TokenSummary, v: &Json) -> (ok: bool)
    ensures
        final(s).file == old(s).file,
        ok == tally_fits(tally_record(tally_of(*old(s)), *v)),
        ok ==> tally_of(*final(s)) == tally_record(tally_of(*old(s)), *v),
{
    if let Some(ts) = member_text(v, "timestamp") {
        if s.first_ts.is_none() {
            s.first_ts = Some(ts.to_owned());
        }
        s.last_ts = Some(ts.to_owned());
    }
    let is_assistant = match member_text(v, "type") {
        Some(kind) => str_eq(kind, "assistant"),
        None => false,
    };
    if !is_assistant {
        return true;
    }
    let msg = match v.get("message") {
        Some(m) => m,
        None => return true,
    };
    if s.model.is_none() {
        if let Some(m) = member_text(msg, "model") {
            s.model = Some(m.to_owned());
        }
    }
    match msg.get("usage") {
        Some(usage) => absorb_usage(s, usage),
        None => true,
    }
}

/// Adds one line of a session log to `s`: `false`, with `s` unspecified,
/// when a count would no longer fit in a `u64`.
pub fn absorb_line(s: &mut TokenSummary, line: &str) -> (ok: bool)
    ensures
        final(s).file == old(s).file,
        ok == tally_fits(tally_line(tally_of(*old(s)), line@)),
        ok ==> tally_of(*final(s)) == tally_line(tally_of(*old(s)), line@),
{
    if line.is_empty() {
        return true;
    }
    match parse_json(line) {
        Some(v) => absorb_record(s, &v),
        None => true,
    }
}

/// Reads the lines of a session log into a summary labelled `file`. `None`
/// exactly when one of the counts would not fit in a `u64`.
pub fn summarize_session(file: String, lines: &Vec<String>) -> (summary: Option<TokenSummary>)
    ensures
        summary is Some <==> tally_fits(tally_lines(texts(lines@))),
        summary matches Some(s) ==> s.file == file && tally_of(s) == tally_lines(texts(lines@)),
{
    let ghost all = texts(lines@);
    let ghost file0 = file;
    let mut s = TokenSummary {
        file,
        turns: 0,
        input_tokens: 0,
        output_tokens: 0,
        cache_read_input_tokens: 0,
        cache_creation_input_tokens: 0,
        model: None,
        first_ts: None,
        last_ts: None,
    };
    assert(all.take(0) =~= Seq::<Seq<char>>::empty());
    let mut i: usize = 0;
    while i < lines.len()
        invariant
            i <= lines.len(),
            all == texts(lines@),
            s.file == file0,
            tally_of(s) == tally_lines(all.take(i as int)),
        decreases lines.len() - i,
    {
        let ok = absorb_line(&mut s, lines[i].as_str());
        assert(all.take(i + 1).drop_last() =~= all.take(i as int));
        assert(all.take(i + 1).last() == lines@[i as int]@);
        if !ok {
            proof {
                law_appending_lines_never_lowers_counts(all.take(i + 1), all.skip(i + 1));
                assert(all.take(i + 1) + all.skip(i + 1) =~= all);
            }
            return None;
        }
        i += 1;
    }
    assert(all.take(lines.len() as int) =~= all);
    Some(s)
}

} // verus!
