use meet::meeting::{
    make_meeting, report_lines, select_next, start_instant, summarize, time_until, timing_line,
    Event, OutputConfig,
};

const TEN: i64 = 1_704_103_200; // 2024-01-01T10:00:00Z

fn event(summary: Option<&str>, start: Option<i64>, location: Option<&str>) -> Event {
    Event {
        summary: summary.map(|s| s.to_string()),
        start,
        location: location.map(|s| s.to_string()),
        join_link: None,
    }
}

fn full() -> OutputConfig {
    OutputConfig { time_only: false, join_link: false }
}

#[test]
fn selects_first_event_with_summary_and_start() {
    let events = vec![
        event(None, Some(TEN + 600), None),
        event(Some("A"), None, None),
        event(Some("B"), Some(TEN + 1800), None),
    ];
    assert_eq!(select_next(&events), Some(2));
    let lines = summarize(&events, TEN, &full());
    assert_eq!(lines, vec!["Next Meeting Details:", "B", "Starts in 30m"]);
}

#[test]
fn no_events_gives_no_meetings_message() {
    let lines = summarize(&Vec::new(), TEN, &full());
    assert_eq!(lines, vec!["Congrats! Keep working, you have no upcoming meetings"]);
}

#[test]
fn only_disqualified_events_gives_no_meetings_message() {
    let events = vec![event(None, Some(TEN), None), event(Some("A"), None, Some("Room 1"))];
    assert_eq!(select_next(&events), None);
    let lines = summarize(&events, TEN, &full());
    assert_eq!(lines, vec!["Congrats! Keep working, you have no upcoming meetings"]);
}

#[test]
fn upcoming_meeting_starts_in() {
    let events = vec![event(Some("Standup"), Some(TEN + 1800), None)];
    let lines = summarize(&events, TEN, &full());
    assert_eq!(lines[2], "Starts in 30m");
}

#[test]
fn started_meeting_already_started() {
    let events = vec![event(Some("Standup"), Some(TEN - 1800), None)];
    let lines = summarize(&events, TEN, &full());
    assert_eq!(lines[2], "Already started 30m ago");
}

#[test]
fn meeting_starting_now_reads_zero() {
    let events = vec![event(Some("Now"), Some(TEN), None)];
    let lines = summarize(&events, TEN, &full());
    assert_eq!(lines[2], "Starts in 0s");
}

#[test]
fn duration_text_comes_from_humantime() {
    let events = vec![event(Some("Long"), Some(TEN + 9420), None)];
    let lines = summarize(&events, TEN, &full());
    assert_eq!(lines[2], "Starts in 2h 37m");
}

#[test]
fn location_adds_only_the_trailing_clause() {
    let with_place = vec![event(Some("Review"), Some(TEN + 1800), Some("Room 4"))];
    let without_place = vec![event(Some("Review"), Some(TEN + 1800), None)];
    let a = summarize(&with_place, TEN, &full());
    let b = summarize(&without_place, TEN, &full());
    assert_eq!(a.len(), b.len());
    assert_eq!(a[0], b[0]);
    assert_eq!(a[1], b[1]);
    assert_eq!(a[2], format!("{} in location Room 4", b[2]));
}

#[test]
fn time_until_signs() {
    assert_eq!(time_until(TEN + 1800, TEN), (false, 1800));
    assert_eq!(time_until(TEN - 1800, TEN), (true, 1800));
    assert_eq!(time_until(TEN, TEN), (false, 0));
    assert_eq!(time_until(i64::MAX, i64::MIN), (false, u64::MAX));
    assert_eq!(time_until(i64::MIN, i64::MAX), (true, u64::MAX));
}

#[test]
fn timing_line_forms() {
    assert_eq!(timing_line(false, "5m", &None), "Starts in 5m");
    assert_eq!(timing_line(true, "5m", &None), "Already started 5m ago");
    assert_eq!(
        timing_line(true, "1h", &Some("Hall".to_string())),
        "Already started 1h ago in location Hall"
    );
}

#[test]
fn time_only_report() {
    let events = vec![event(Some("Sync"), Some(TEN + 300), Some("Room 2"))];
    let config = OutputConfig { time_only: true, join_link: false };
    assert_eq!(summarize(&events, TEN, &config), vec!["Starts in 5m"]);
}

#[test]
fn join_link_only_when_asked_and_present() {
    let mut e = event(Some("Sync"), Some(TEN + 300), None);
    e.join_link = Some("https://meet.example/abc".to_string());
    let m = make_meeting(&e, TEN);
    let asked = OutputConfig { time_only: false, join_link: true };
    assert_eq!(
        report_lines(&m, "5m", &asked),
        vec!["Next Meeting Details:", "Sync", "Starts in 5m", "Join link: https://meet.example/abc"]
    );
    assert_eq!(report_lines(&m, "5m", &full()).len(), 3);
    let timed = OutputConfig { time_only: true, join_link: true };
    assert_eq!(
        report_lines(&m, "5m", &timed),
        vec!["Starts in 5m", "Join link: https://meet.example/abc"]
    );
    let plain = make_meeting(&event(Some("Sync"), Some(TEN + 300), None), TEN);
    assert_eq!(report_lines(&plain, "5m", &asked).len(), 3);
}

#[test]
fn start_instant_reads_rfc3339() {
    assert_eq!(start_instant(&Some("2024-01-01T10:30:00Z".to_string())), Some(TEN + 1800));
    assert_eq!(start_instant(&Some("2024-01-01T11:30:00+01:00".to_string())), Some(TEN + 1800));
    assert_eq!(start_instant(&Some("tomorrow".to_string())), None);
    assert_eq!(start_instant(&None), None);
}
