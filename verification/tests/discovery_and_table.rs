use ctxguard::discovery::{is_session_log, newest_index, within_window};
use ctxguard::session::TokenSummary;
use ctxguard::table::{table_totals, SessionRow};
use ctxguard::text::{contains, decimal, last_path_segment};
use ctxguard::token::{token_scale, TokenScale};

fn summary(file: &str, input: u64, output: u64, cache_read: u64, cache_write: u64) -> TokenSummary {
    TokenSummary {
        file: file.to_string(),
        turns: 3,
        input_tokens: input,
        output_tokens: output,
        cache_read_input_tokens: cache_read,
        cache_creation_input_tokens: cache_write,
        model: None,
        first_ts: None,
        last_ts: None,
    }
}

#[test]
fn session_logs_are_jsonl_outside_subagents() {
    assert!(is_session_log(Some("jsonl"), "/home/u/.agent/projects/p/a.jsonl"));
    assert!(!is_session_log(Some("json"), "/home/u/.agent/projects/p/a.json"));
    assert!(!is_session_log(None, "/home/u/.agent/projects/p/jsonl"));
    assert!(!is_session_log(Some("jsonl"), "/home/u/.agent/projects/p/subagents/a.jsonl"));
    assert!(!is_session_log(Some("jsonl"), "/p/my-subagents-notes.jsonl"));
}

#[test]
fn window_of_days() {
    assert!(within_window(None, 0));
    assert!(within_window(Some(0), 0));
    assert!(!within_window(Some(1), 0));
    assert!(within_window(Some(7 * 86400), 7));
    assert!(!within_window(Some(7 * 86400 + 1), 7));
    assert!(within_window(Some(u32::MAX as u64 * 86400), u32::MAX));
    assert!(!within_window(Some(u32::MAX as u64 * 86400 + 1), u32::MAX));
}

#[test]
fn newest_is_first_of_greatest() {
    assert_eq!(newest_index(&vec![]), None);
    assert_eq!(newest_index(&vec![5]), Some(0));
    assert_eq!(newest_index(&vec![3, 9, 1, 9, -4]), Some(1));
    assert_eq!(newest_index(&vec![-10, -2, -7]), Some(1));
}

#[test]
fn last_segment_of_paths() {
    assert_eq!(last_path_segment("C:\\Users\\zk\\.agent\\7a811832.jsonl"), "7a811832.jsonl");
    assert_eq!(last_path_segment("/home/u/p/f744bd4b.jsonl"), "f744bd4b.jsonl");
    assert_eq!(last_path_segment("mixed/a\\b.jsonl"), "b.jsonl");
    assert_eq!(last_path_segment("plain.jsonl"), "plain.jsonl");
    assert_eq!(last_path_segment("dir/"), "");
    assert_eq!(last_path_segment(""), "");
}

#[test]
fn contains_text() {
    assert!(contains("abc", ""));
    assert!(contains("a/subagents/b", "subagents"));
    assert!(!contains("a/subagent/b", "subagents"));
    assert!(!contains("", "x"));
    assert!(contains("ééx", "éx"));
}

#[test]
fn decimal_digits() {
    assert_eq!(decimal(0), "0");
    assert_eq!(decimal(7), "7");
    assert_eq!(decimal(999), "999");
    assert_eq!(decimal(1000), "1000");
    assert_eq!(decimal(u64::MAX), "18446744073709551615");
}

#[test]
fn token_scales() {
    assert_eq!(token_scale(0), TokenScale::Units);
    assert_eq!(token_scale(999), TokenScale::Units);
    assert_eq!(token_scale(1000), TokenScale::Thousands);
    assert_eq!(token_scale(999_999), TokenScale::Thousands);
    assert_eq!(token_scale(1_000_000), TokenScale::Millions);
    assert_eq!(token_scale(u64::MAX), TokenScale::Millions);
}

#[test]
fn row_of_a_session() {
    let mut s = summary("C:/x/.agent/projects/p/7a811832.jsonl", 2_500_000, 216_000, 71_300_000, 0);
    let row = SessionRow::from_summary(&s);
    assert_eq!(row.session, "7a811832.jsonl");
    assert_eq!(row.model, "?");
    assert_eq!(row.turns, 3);
    assert_eq!(row.input, 2_500_000);
    assert_eq!(row.output, 216_000);
    assert_eq!(row.cache_rd, 71_300_000);
    assert_eq!(row.ctx_window, 73_800_000);
    s.model = Some("opus-4-8".to_string());
    assert_eq!(SessionRow::from_summary(&s).model, "opus-4-8");
}

#[test]
fn table_totals_add_up() {
    let list = vec![summary("a", 1, 2, 3, 4), summary("b", 10, 20, 30, 40)];
    let t = table_totals(&list).unwrap();
    assert_eq!((t.sessions, t.total_billed, t.effective_context), (2, 110, 88));
    let big = vec![summary("a", 612_000_000, 0, 0, 0)];
    let t = table_totals(&big).unwrap();
    assert_eq!((t.sessions, t.total_billed, t.effective_context), (1, 612_000_000, 612_000_000));
    let t = table_totals(&vec![]).unwrap();
    assert_eq!((t.sessions, t.total_billed, t.effective_context), (0, 0, 0));
}

#[test]
fn table_totals_overflow_is_none() {
    let list = vec![summary("a", u64::MAX, 0, 0, 0), summary("b", 1, 0, 0, 0)];
    assert!(table_totals(&list).is_none());
    let list = vec![summary("a", 0, u64::MAX, 0, 0), summary("b", 0, 1, 0, 0)];
    assert!(table_totals(&list).is_none());
}
