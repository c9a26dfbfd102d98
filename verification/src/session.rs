//! Session-level token summary.

use vstd::prelude::*;
use vstd::string::StringExecFns;
use crate::text::{decimal_digits, push_decimal};

verus! {

/// What one session log adds up to.
#[derive(Debug, Clone)]
pub struct TokenSummary {
    pub file: String,
    pub turns: u64,
    pub input_tokens: u64,
    pub output_tokens: u64,
    pub cache_read_input_tokens: u64,
    pub cache_creation_input_tokens: u64,
    pub model: Option<String>,
    pub first_ts: Option<String>,
    pub last_ts: Option<String>,
}

impl TokenSummary {
    /// Every token the session was billed for, cache traffic included.
    pub open spec fn spec_total_tokens(&self) -> int {
        self.input_tokens + self.output_tokens + self.cache_read_input_tokens
            + self.cache_creation_input_tokens
    }

    /// The tokens that were loaded into the context window: input, cache read
    /// and cache creation, but not output.
    pub open spec fn spec_effective_context(&self) -> int {
        self.input_tokens + self.cache_read_input_tokens + self.cache_creation_input_tokens
    }

    pub fn total_tokens(&self) -> (total: u64)
        requires
            self.spec_total_tokens() <= u64::MAX,
        ensures
            total == self.input_tokens + self.output_tokens + self.cache_read_input_tokens
                + self.cache_creation_input_tokens,
            total == self.spec_total_tokens(),
    {
        self.input_tokens + self.output_tokens + self.cache_read_input_tokens
            + self.cache_creation_input_tokens
    }

    /// Effective context-window consumption (most billing APIs treat cache_read as
    /// a fraction of input cost, but the raw count still counts toward the
    /// 200k window).
    pub fn effective_context(&self) -> (ctx: u64)
        requires
            self.spec_effective_context() <= u64::MAX,
        ensures
            ctx == self.input_tokens + self.cache_read_input_tokens
                + self.cache_creation_input_tokens,
            ctx == self.spec_effective_context(),
    {
        self.input_tokens + self.cache_read_input_tokens + self.cache_creation_input_tokens
    }
}


/// The billed total is the effective context plus the output: the effective
/// context never exceeds it.
pub proof fn law_total_is_effective_context_plus_output(s: TokenSummary)
    ensures
        s.spec_total_tokens() == s.spec_effective_context() + s.output_tokens,
        s.spec_effective_context() <= s.spec_total_tokens(),
{
}

/// The effective context counts input, cache read and cache creation, each
/// in full, and nothing else; the billed total adds the output to it.
pub proof fn law_effective_context_counts_each_part(s: TokenSummary)
    ensures
        s.spec_effective_context() == s.input_tokens + s.cache_read_input_tokens
            + s.cache_creation_input_tokens,
        s.spec_total_tokens() == s.input_tokens + s.output_tokens + s.cache_read_input_tokens
            + s.cache_creation_input_tokens,
{
}

/// Between any two summaries, the effective context differs by exactly the
/// differences in input, cache read and cache creation, and the billed total
/// by those and the difference in output: every token of each part counts
/// once, however large the part.
pub proof fn law_counts_move_token_for_token(s: TokenSummary, t: TokenSummary)
    ensures
        t.spec_effective_context() - s.spec_effective_context() == (t.input_tokens
            - s.input_tokens) + (t.cache_read_input_tokens - s.cache_read_input_tokens) + (
        t.cache_creation_input_tokens - s.cache_creation_input_tokens),
        t.spec_total_tokens() - s.spec_total_tokens() == (t.spec_effective_context()
            - s.spec_effective_context()) + (t.output_tokens - s.output_tokens),
{
}

/// Whole minutes in a span of `seconds`, 0 for a span that runs backwards.
pub open spec fn spec_minutes_from_seconds(seconds: i64) -> nat {
    if seconds >= 0 {
        (seconds / 60) as nat
    } else {
        0
    }
}

/// Whole minutes in a span of `seconds`: the seconds divided by 60, rounded
/// toward zero, and never below 0.
pub fn minutes_from_seconds(seconds: i64) -> (minutes: u64)
    ensures
        seconds >= 0 ==> minutes * 60 <= seconds < minutes * 60 + 60,
        seconds < 0 ==> minutes == 0,
        minutes == spec_minutes_from_seconds(seconds),
{
    if seconds < 0 {
        0
    } else {
        (seconds / 60) as u64
    }
}

/// What chrono makes of two RFC 3339 timestamps: `None` unless
/// `DateTime::parse_from_rfc3339` accepts both, else the whole seconds
/// (`TimeDelta::num_seconds`) of the second minus the first.
pub uninterp spec fn rfc3339_elapsed_seconds(first: Seq<char>, last: Seq<char>) -> Option<i64>;

/// Parses both timestamps with `chrono::DateTime::parse_from_rfc3339` and
/// takes `(last - first).num_seconds()`. The contract only names the result:
/// which texts chrono accepts, and how it counts across leap seconds and
/// offsets, is chrono's.
#[verifier::external_body]
fn rfc3339_seconds_between(first: &str, last: &str) -> (seconds: Option<i64>)
    ensures
        seconds == rfc3339_elapsed_seconds(first@, last@),
{
    let start = chrono::DateTime::parse_from_rfc3339(first).ok()?;
    let end = chrono::DateTime::parse_from_rfc3339(last).ok()?;
    Some((end - start).num_seconds())
}

/// A timestamp as the report writes it: its text, or `None` when there is none.
pub open spec fn timestamp_text(ts: Option<String>) -> Seq<char> {
    match ts {
        Some(t) => t@,
        None => "None"@,
    }
}

fn push_timestamp(out: &mut String, ts: &Option<String>)
    ensures
        final(out)@ == old(out)@ + timestamp_text(*ts),
{
    match ts {
        Some(t) => out.append(t.as_str()),
        None => out.append("None"),
    }
}

impl TokenSummary {
    /// The minutes from the first to the last timestamp.
    pub open spec fn spec_duration_minutes(&self) -> Option<nat> {
        match (self.first_ts, self.last_ts) {
            (Some(a), Some(b)) => match rfc3339_elapsed_seconds(a@, b@) {
                Some(seconds) => Some(spec_minutes_from_seconds(seconds)),
                None => None,
            },
            _ => None,
        }
    }

    /// The whole minutes between the first and the last timestamp; `None`
    /// when either is missing or chrono does not read it as RFC 3339.
    pub fn duration_minutes(&self) -> (minutes: Option<u64>)
        ensures
            minutes matches Some(m) ==> ({
                &&& self.first_ts matches Some(a)
                &&& self.last_ts matches Some(b)
                &&& rfc3339_elapsed_seconds(a@, b@) matches Some(seconds)
                &&& seconds >= 0 ==> m * 60 <= seconds < m * 60 + 60
                &&& seconds < 0 ==> m == 0
            }),
            match minutes {
                Some(m) => self.spec_duration_minutes() == Some(m as nat),
                None => self.spec_duration_minutes() is None,
            },
    {
        match (&self.first_ts, &self.last_ts) {
            (Some(a), Some(b)) => match rfc3339_seconds_between(a.as_str(), b.as_str()) {
                Some(seconds) => Some(minutes_from_seconds(seconds)),
                None => None,
            },
            _ => None,
        }
    }

    /// The lines of the human-readable report of one session.
    pub open spec fn spec_report(&self) -> Seq<Seq<char>> {
        let minutes: nat = match self.spec_duration_minutes() {
            Some(m) => m,
            None => 0,
        };
        seq!["file:        "@ + self.file@] + match self.model {
            Some(m) => seq!["model:       "@ + m@],
            None => Seq::<Seq<char>>::empty(),
        } + seq![
            "turns:       "@ + decimal_digits(self.turns as nat),
            "first / last: "@ + timestamp_text(self.first_ts) + " / "@ + timestamp_text(self.last_ts)
                + "  ("@ + decimal_digits(minutes) + " min)"@,
            "input:       "@ + decimal_digits(self.input_tokens as nat),
            "output:      "@ + decimal_digits(self.output_tokens as nat),
            "cache_read:  "@ + decimal_digits(self.cache_read_input_tokens as nat),
            "cache_write: "@ + decimal_digits(self.cache_creation_input_tokens as nat),
            "---"@,
            "total billed:    "@ + decimal_digits(self.spec_total_tokens() as nat),
            "effective ctx:   "@ + decimal_digits(self.spec_effective_context() as nat),
        ]
    }

    /// The human-readable report of one session, line by line.
    pub fn human_report(&self) -> (lines: Vec<String>)
        requires
            self.spec_total_tokens() <= u64::MAX,
        ensures
            lines.deep_view() == self.spec_report(),
    {
        let mut lines: Vec<String> = Vec::new();
        let mut line = String::from_str("file:        ");
        line.append(self.file.as_str());
        lines.push(line);
        if let Some(m) = &self.model {
            let mut line = String::from_str("model:       ");
            line.append(m.as_str());
            lines.push(line);
        }
        let mut line = String::from_str("turns:       ");
        push_decimal(&mut line, self.turns);
        lines.push(line);
        let minutes = match self.duration_minutes() {
            Some(m) => m,
            None => 0,
        };
        let mut line = String::from_str("first / last: ");
        push_timestamp(&mut line, &self.first_ts);
        line.append(" / ");
        push_timestamp(&mut line, &self.last_ts);
        line.append("  (");
        push_decimal(&mut line, minutes);
        line.append(" min)");
        lines.push(line);
        let mut line = String::from_str("input:       ");
        push_decimal(&mut line, self.input_tokens);
        lines.push(line);
        let mut line = String::from_str("output:      ");
        push_decimal(&mut line, self.output_tokens);
        lines.push(line);
        let mut line = String::from_str("cache_read:  ");
        push_decimal(&mut line, self.cache_read_input_tokens);
        lines.push(line);
        let mut line = String::from_str("cache_write: ");
        push_decimal(&mut line, self.cache_creation_input_tokens);
        lines.push(line);
        lines.push(String::from_str("---"));
        let mut line = String::from_str("total billed:    ");
        push_decimal(&mut line, self.total_tokens());
        lines.push(line);
        let mut line = String::from_str("effective ctx:   ");
        push_decimal(&mut line, self.effective_context());
        lines.push(line);
        assert(lines.deep_view() =~= self.spec_report());
        lines
    }
}


/// The duration is the whole minutes of the seconds chrono counts from the
/// first timestamp to the last: `m` minutes for `60 m` up to `60 m + 59`
/// seconds, so it grows with the span without bound, and 0 for a span that
/// runs backwards. It is absent exactly when a timestamp is missing or
/// chrono does not read the pair.
pub proof fn law_duration_is_whole_minutes(s: TokenSummary)
    ensures
        match (s.first_ts, s.last_ts) {
            (Some(a), Some(b)) => match rfc3339_elapsed_seconds(a@, b@) {
                Some(seconds) => {
                    &&& s.spec_duration_minutes() is Some
                    &&& seconds >= 0 ==> s.spec_duration_minutes().unwrap() * 60 <= seconds
                        < s.spec_duration_minutes().unwrap() * 60 + 60
                    &&& seconds < 0 ==> s.spec_duration_minutes().unwrap() == 0
                },
                None => s.spec_duration_minutes() is None,
            },
            _ => s.spec_duration_minutes() is None,
        },
{
}

/// The report's lines, each stated from the summary's fields: the file, the
/// model when there is one, the turns, the timestamps, the four counts, the
/// billed total (all four counts added) and the effective context (all but
/// the output added).
pub proof fn law_report_lines(s: TokenSummary)
    ensures
        ({
            let r = s.spec_report();
            let k: int = if s.model is Some { 1 } else { 0 };
            &&& r.len() == 10 + k
            &&& r[0] == "file:        "@ + s.file@
            &&& s.model matches Some(m) ==> r[1] == "model:       "@ + m@
            &&& r[1 + k] == "turns:       "@ + decimal_digits(s.turns as nat)
            &&& r[3 + k] == "input:       "@ + decimal_digits(s.input_tokens as nat)
            &&& r[4 + k] == "output:      "@ + decimal_digits(s.output_tokens as nat)
            &&& r[5 + k] == "cache_read:  "@ + decimal_digits(s.cache_read_input_tokens as nat)
            &&& r[6 + k] == "cache_write: "@ + decimal_digits(
                s.cache_creation_input_tokens as nat,
            )
            &&& r[7 + k] == "---"@
            &&& r[8 + k] == "total billed:    "@ + decimal_digits(
                (s.input_tokens + s.output_tokens + s.cache_read_input_tokens
                    + s.cache_creation_input_tokens) as nat,
            )
            &&& r[9 + k] == "effective ctx:   "@ + decimal_digits(
                (s.input_tokens + s.cache_read_input_tokens + s.cache_creation_input_tokens) as nat,
            )
        }),
{
}

} // verus!
