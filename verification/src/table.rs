//! The table of many sessions: one row per session, and the totals for the
//! closing line.

use vstd::prelude::*;
use vstd::string::StringExecFns;
use crate::session::TokenSummary;
use crate::text::{last_path_segment, last_segment};

verus! {

/// One row of the sessions table, before the counts are written compactly.
pub struct SessionRow {
    /// The file name of the session log.
    pub session: String,
    /// The model, `?` when unknown.
    pub model: String,
    pub turns: u64,
    pub input: u64,
    pub output: u64,
    pub cache_rd: u64,
    /// The effective context of the session.
    pub ctx_window: u64,
}

impl SessionRow {
    /// The row of one session.
    pub fn from_summary(s: &TokenSummary) -> (row: SessionRow)
        requires
            s.spec_effective_context() <= u64::MAX,
        ensures
            row.session@ == last_segment(s.file@),
            row.model@ == match s.model {
                Some(m) => m@,
                None => "?"@,
            },
            row.turns == s.turns,
            row.input == s.input_tokens,
            row.output == s.output_tokens,
            row.cache_rd == s.cache_read_input_tokens,
            row.ctx_window == s.spec_effective_context(),
    {
        let model = match &s.model {
            Some(m) => m.clone(),
            None => String::from_str("?"),
        };
        SessionRow {
            session: last_path_segment(s.file.as_str()),
            model,
            turns: s.turns,
            input: s.input_tokens,
            output: s.output_tokens,
            cache_rd: s.cache_read_input_tokens,
            ctx_window: s.effective_context(),
        }
    }
}

/// The billed tokens of all sessions together.
pub open spec fn sum_total_tokens(summaries: Seq<TokenSummary>) -> int
    decreases summaries.len(),
{
    if summaries.len() == 0 {
        0
    } else {
        sum_total_tokens(summaries.drop_last()) + summaries.last().spec_total_tokens()
    }
}

/// The effective context of all sessions together.
pub open spec fn sum_effective_context(summaries: Seq<TokenSummary>) -> int
    decreases summaries.len(),
{
    if summaries.len() == 0 {
        0
    } else {
        sum_effective_context(summaries.drop_last()) + summaries.last().spec_effective_context()
    }
}

/// The sums over the sessions of a table: nothing for no session; for one
/// session, its four counts (billed) and its input, cache read and cache
/// creation (effective context), output left out; and the sum over two
/// lists joined is the sum of the sums.
pub proof fn law_table_sums(a: Seq<TokenSummary>, b: Seq<TokenSummary>, s: TokenSummary)
    ensures
        sum_total_tokens(Seq::empty()) == 0,
        sum_effective_context(Seq::empty()) == 0,
        sum_total_tokens(seq![s]) == s.input_tokens + s.output_tokens + s.cache_read_input_tokens
            + s.cache_creation_input_tokens,
        sum_effective_context(seq![s]) == s.input_tokens + s.cache_read_input_tokens
            + s.cache_creation_input_tokens,
        sum_total_tokens(a + b) == sum_total_tokens(a) + sum_total_tokens(b),
        sum_effective_context(a + b) == sum_effective_context(a) + sum_effective_context(b),
    decreases b.len(),
{
    assert(seq![s].drop_last() =~= Seq::<TokenSummary>::empty());
    assert(seq![s].last() == s);
    if b.len() == 0 {
        assert(a + b =~= a);
    } else {
        law_table_sums(a, b.drop_last(), s);
        assert((a + b).drop_last() =~= a + b.drop_last());
        assert((a + b).last() == b.last());
    }
}

/// Adding sessions never lowers either sum.
pub proof fn lemma_sums_grow(summaries: Seq<TokenSummary>, n: int)
    requires
        0 <= n <= summaries.len(),
    ensures
        0 <= sum_total_tokens(summaries.take(n)) <= sum_total_tokens(summaries),
        0 <= sum_effective_context(summaries.take(n)) <= sum_effective_context(summaries),
    decreases summaries.len() - n,
{
    if n < summaries.len() {
        lemma_sums_grow(summaries, n + 1);
        assert(summaries.take(n + 1).drop_last() =~= summaries.take(n));
    } else {
        assert(summaries.take(n) =~= summaries);
    }
    lemma_sums_nonnegative(summaries.take(n));
}

pub proof fn lemma_sums_nonnegative(summaries: Seq<TokenSummary>)
    ensures
        sum_total_tokens(summaries) >= 0,
        sum_effective_context(summaries) >= 0,
    decreases summaries.len(),
{
    if summaries.len() > 0 {
        lemma_sums_nonnegative(summaries.drop_last());
    }
}

/// What the closing line of the table reports: how many sessions, and their
/// billed and effective-context tokens together.
pub struct TableTotals {
    pub sessions: usize,
    pub total_billed: u64,
    pub effective_context: u64,
}

/// The totals of the sessions table. `None` exactly when one of the two sums
/// would not fit in a `u64`.
pub fn table_totals(summaries: &Vec<TokenSummary>) -> (totals: Option<TableTotals>)
    ensures
        totals is Some <==> (sum_total_tokens(summaries@) <= u64::MAX && sum_effective_context(
            summaries@,
        ) <= u64::MAX),
        totals matches Some(t) ==> {
            &&& t.sessions == summaries@.len()
            &&& t.total_billed == sum_total_tokens(summaries@)
            &&& t.effective_context == sum_effective_context(summaries@)
        },
{
    let mut total: u64 = 0;
    let mut ctx: u64 = 0;
    let mut i: usize = 0;
    assert(summaries@.take(0) =~= Seq::<TokenSummary>::empty());
    while i < summaries.len()
        invariant
            i <= summaries.len(),
            total == sum_total_tokens(summaries@.take(i as int)),
            ctx == sum_effective_context(summaries@.take(i as int)),
        decreases summaries.len() - i,
    {
        let s = &summaries[i];
        assert(summaries@.take(i + 1).drop_last() =~= summaries@.take(i as int));
        let next_total = match total.checked_add(s.input_tokens) {
            Some(t) => t.checked_add(s.output_tokens),
            None => None,
        };
        let next_total = match next_total {
            Some(t) => t.checked_add(s.cache_read_input_tokens),
            None => None,
        };
        let next_total = match next_total {
            Some(t) => t.checked_add(s.cache_creation_input_tokens),
            None => None,
        };
        let next_ctx = match ctx.checked_add(s.input_tokens) {
            Some(c) => c.checked_add(s.cache_read_input_tokens),
            None => None,
        };
        let next_ctx = match next_ctx {
            Some(c) => c.checked_add(s.cache_creation_input_tokens),
            None => None,
        };
        match (next_total, next_ctx) {
            (Some(t), Some(c)) => {
                total = t;
                ctx = c;
            },
            _ => {
                proof {
                    lemma_sums_grow(summaries@, i + 1);
                }
                return None;
            },
        }
        i += 1;
    }
    assert(summaries@.take(summaries.len() as int) =~= summaries@);
    Some(TableTotals { sessions: summaries.len(), total_billed: total, effective_context: ctx })
}

} // verus!
