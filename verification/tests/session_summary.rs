use ctxguard::session::{minutes_from_seconds, TokenSummary};
use ctxguard::json::parse_json;
use ctxguard::session_log::{absorb_line, absorb_record, summarize_session};

fn summary(input: u64, output: u64, cache_read: u64, cache_write: u64) -> TokenSummary {
    TokenSummary {
        file: "C:/Users/zk/.agent/projects/p/cd3b58f7.jsonl".to_string(),
        turns: 128,
        input_tokens: input,
        output_tokens: output,
        cache_read_input_tokens: cache_read,
        cache_creation_input_tokens: cache_write,
        model: Some("opus-4-8".to_string()),
        first_ts: Some("2026-07-18T12:01:25Z".to_string()),
        last_ts: Some("2026-07-18T12:52:46Z".to_string()),
    }
}

fn lines(raw: &[&str]) -> Vec<String> {
    raw.iter().map(|l| l.to_string()).collect()
}

#[test]
fn readme_session_totals() {
    let s = summary(479081, 102575, 11861184, 0);
    assert_eq!(s.total_tokens(), 12442840);
    assert_eq!(s.effective_context(), 12340265);
}

#[test]
fn effective_context_leaves_out_output_only() {
    let s = summary(10, 20, 30, 40);
    assert_eq!(s.total_tokens(), 100);
    assert_eq!(s.effective_context(), 80);
    assert_eq!(s.total_tokens() - s.effective_context(), s.output_tokens);
}

#[test]
fn duration_of_readme_session_is_51_minutes() {
    let s = summary(0, 0, 0, 0);
    assert_eq!(s.duration_minutes(), Some(51));
}

#[test]
fn duration_counts_whole_minutes_across_offsets() {
    let mut s = summary(0, 0, 0, 0);
    s.first_ts = Some("2026-07-18T12:00:00+02:00".to_string());
    s.last_ts = Some("2026-07-18T10:59:59.900Z".to_string());
    assert_eq!(s.duration_minutes(), Some(59));
}

#[test]
fn duration_running_backwards_is_zero() {
    let mut s = summary(0, 0, 0, 0);
    s.first_ts = Some("2026-07-18T12:52:46Z".to_string());
    s.last_ts = Some("2026-07-18T12:01:25Z".to_string());
    assert_eq!(s.duration_minutes(), Some(0));
}

#[test]
fn duration_needs_both_readable_timestamps() {
    let mut s = summary(0, 0, 0, 0);
    s.last_ts = None;
    assert_eq!(s.duration_minutes(), None);
    let mut s = summary(0, 0, 0, 0);
    s.first_ts = Some("yesterday".to_string());
    assert_eq!(s.duration_minutes(), None);
}

#[test]
fn minutes_from_seconds_rounds_toward_zero() {
    assert_eq!(minutes_from_seconds(0), 0);
    assert_eq!(minutes_from_seconds(59), 0);
    assert_eq!(minutes_from_seconds(60), 1);
    assert_eq!(minutes_from_seconds(3081), 51);
    assert_eq!(minutes_from_seconds(-3081), 0);
    assert_eq!(minutes_from_seconds(i64::MAX), 153722867280912930);
}

#[test]
fn human_report_of_readme_session() {
    let s = summary(479081, 102575, 11861184, 0);
    let expected = vec![
        "file:        C:/Users/zk/.agent/projects/p/cd3b58f7.jsonl",
        "model:       opus-4-8",
        "turns:       128",
        "first / last: 2026-07-18T12:01:25Z / 2026-07-18T12:52:46Z  (51 min)",
        "input:       479081",
        "output:      102575",
        "cache_read:  11861184",
        "cache_write: 0",
        "---",
        "total billed:    12442840",
        "effective ctx:   12340265",
    ];
    assert_eq!(s.human_report(), expected);
}

#[test]
fn human_report_without_model_or_timestamps() {
    let mut s = summary(1, 2, 3, 4);
    s.model = None;
    s.first_ts = None;
    s.last_ts = None;
    let report = s.human_report();
    assert_eq!(report.len(), 10);
    assert_eq!(report[1], "turns:       128");
    assert_eq!(report[2], "first / last: None / None  (0 min)");
    assert_eq!(report[9], "effective ctx:   8");
}

#[test]
fn summarize_counts_assistant_usage() {
    let log = lines(&[
        r#"{"type":"user","timestamp":"2026-07-18T12:01:25Z","message":{"role":"user","content":"hi"}}"#,
        "",
        "not json at all",
        r#"{"type":"assistant","timestamp":"2026-07-18T12:02:00Z","message":{"model":"opus-4-8","usage":{"input_tokens":10,"output_tokens":5,"cache_read_input_tokens":100,"cache_creation_input_tokens":7}}}"#,
        r#"{"type":"assistant","timestamp":"2026-07-18T12:03:00Z","message":{"model":"sonnet-4","usage":{"input_tokens":1,"output_tokens":2,"cache_read_input_tokens":-3,"cache_creation_input_tokens":1.5}}}"#,
        r#"{"type":"assistant","message":{"content":[]}}"#,
        r#"{"type":"summary","timestamp":"2026-07-18T12:52:46Z"}"#,
    ]);
    let s = summarize_session("a/b.jsonl".to_string(), &log).unwrap();
    assert_eq!(s.file, "a/b.jsonl");
    assert_eq!(s.turns, 2);
    assert_eq!(s.input_tokens, 11);
    assert_eq!(s.output_tokens, 7);
    assert_eq!(s.cache_read_input_tokens, 100);
    assert_eq!(s.cache_creation_input_tokens, 7);
    assert_eq!(s.model.as_deref(), Some("opus-4-8"));
    assert_eq!(s.first_ts.as_deref(), Some("2026-07-18T12:01:25Z"));
    assert_eq!(s.last_ts.as_deref(), Some("2026-07-18T12:52:46Z"));
    assert_eq!(s.duration_minutes(), Some(51));
}

#[test]
fn summarize_empty_log() {
    let s = summarize_session("x.jsonl".to_string(), &Vec::new()).unwrap();
    assert_eq!(s.turns, 0);
    assert_eq!(s.total_tokens(), 0);
    assert_eq!(s.model, None);
    assert_eq!(s.first_ts, None);
    assert_eq!(s.last_ts, None);
}

#[test]
fn summarize_ignores_non_string_timestamp_and_type() {
    let log = lines(&[
        r#"{"type":"assistant","timestamp":5,"message":{"usage":{"input_tokens":3}}}"#,
        r#"{"type":["assistant"],"timestamp":"t1","message":{"usage":{"input_tokens":4}}}"#,
        r#"[1,2,3]"#,
    ]);
    let s = summarize_session("x".to_string(), &log).unwrap();
    assert_eq!(s.turns, 1);
    assert_eq!(s.input_tokens, 3);
    assert_eq!(s.first_ts.as_deref(), Some("t1"));
    assert_eq!(s.model, None);
}

#[test]
fn summarize_reports_overflow() {
    let big = format!(
        r#"{{"type":"assistant","message":{{"usage":{{"output_tokens":{}}}}}}}"#,
        u64::MAX
    );
    let one = r#"{"type":"assistant","message":{"usage":{"output_tokens":1}}}"#.to_string();
    assert!(summarize_session("x".to_string(), &vec![big.clone()]).is_some());
    assert!(summarize_session("x".to_string(), &vec![big, one]).is_none());
}

#[test]
fn growing_log_never_lowers_context() {
    let first = r#"{"type":"assistant","message":{"usage":{"input_tokens":10,"cache_read_input_tokens":5}}}"#;
    let second = r#"{"type":"assistant","message":{"usage":{"input_tokens":1}}}"#;
    let a = summarize_session("x".to_string(), &lines(&[first])).unwrap();
    let b = summarize_session("x".to_string(), &lines(&[first, "garbage", second])).unwrap();
    assert!(a.effective_context() <= b.effective_context());
    assert_eq!(b.effective_context(), 16);
}

#[test]
fn inserted_blank_and_garbage_lines_change_nothing() {
    let a = r#"{"type":"user","timestamp":"t0"}"#;
    let b = r#"{"type":"assistant","timestamp":"t1","message":{"model":"m","usage":{"input_tokens":4,"output_tokens":2}}}"#;
    let plain = summarize_session("x".to_string(), &lines(&[a, b])).unwrap();
    let padded =
        summarize_session("x".to_string(), &lines(&["", a, "{oops", "", "]", b, ""])).unwrap();
    assert_eq!(format!("{:?}", plain), format!("{:?}", padded));
}

#[test]
fn joined_logs_add_up() {
    let a = lines(&[
        r#"{"type":"assistant","timestamp":"t1","message":{"usage":{"input_tokens":4,"cache_read_input_tokens":1}}}"#,
    ]);
    let b = lines(&[
        r#"{"type":"assistant","timestamp":"t2","message":{"model":"m2","usage":{"input_tokens":6,"output_tokens":3}}}"#,
        r#"{"type":"user","timestamp":"t3"}"#,
    ]);
    let joined_lines: Vec<String> = a.iter().chain(b.iter()).cloned().collect();
    let sa = summarize_session("f".to_string(), &a).unwrap();
    let sb = summarize_session("f".to_string(), &b).unwrap();
    let r = summarize_session("f".to_string(), &joined_lines).unwrap();
    assert_eq!(r.turns, sa.turns + sb.turns);
    assert_eq!(r.input_tokens, 10);
    assert_eq!(r.output_tokens, 3);
    assert_eq!(r.cache_read_input_tokens, 1);
    assert_eq!(r.first_ts, sa.first_ts.clone().or(sb.first_ts.clone()));
    assert_eq!(r.last_ts.as_deref(), Some("t3"));
    assert_eq!(r.model.as_deref(), Some("m2"));
}

#[test]
fn absorb_record_reads_one_record() {
    let mut s = summarize_session("f".to_string(), &Vec::new()).unwrap();
    let v = parse_json(r#"{"type":"assistant","timestamp":"t","message":{"model":"m","usage":{"output_tokens":9}}}"#).unwrap();
    assert!(absorb_record(&mut s, &v));
    assert_eq!(s.turns, 1);
    assert_eq!(s.output_tokens, 9);
    assert_eq!(s.model.as_deref(), Some("m"));
    assert_eq!(s.first_ts.as_deref(), Some("t"));
    let other = parse_json(r#"{"type":"assistant","message":{"model":"n","usage":{}}}"#).unwrap();
    assert!(absorb_record(&mut s, &other));
    assert_eq!(s.turns, 2);
    assert_eq!(s.model.as_deref(), Some("m"));
    assert!(absorb_line(&mut s, "not json"));
    assert_eq!(s.turns, 2);
    s.output_tokens = u64::MAX;
    assert!(!absorb_line(&mut s, r#"{"type":"assistant","message":{"usage":{"output_tokens":1}}}"#));
}
