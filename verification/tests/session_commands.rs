use cortex_mem_cli::decimal::decimal_text;
use cortex_mem_cli::session::{
    close_intro, close_outcome, create_intro, create_outcome, create_request, creation_message,
    list_intro, list_outcome, list_report, session_entries, session_entry, SessionEntry,
    SessionSummary,
};
use cortex_mem_cli::style::{Line, Tone};
use cortex_mem_cli::timestamp::{format_session_time, UtcInstant};

fn view(lines: &[Line]) -> Vec<Vec<(String, Tone)>> {
    lines
        .iter()
        .map(|l| l.spans.iter().map(|s| (s.text.clone(), s.tone)).collect())
        .collect()
}

fn sp(text: &str, tone: Tone) -> (String, Tone) {
    (text.to_string(), tone)
}

fn entry(id: &str, status: &str, created: &str, updated: &str) -> SessionEntry {
    SessionEntry {
        thread_id: id.to_string(),
        status: status.to_string(),
        created: created.to_string(),
        updated: updated.to_string(),
    }
}

fn field(label: &str, value: &str) -> Vec<(String, Tone)> {
    vec![
        sp("  ", Tone::Plain),
        sp(label, Tone::Dimmed),
        sp(": ", Tone::Plain),
        sp(value, Tone::Plain),
    ]
}

#[test]
fn creation_message_names_the_title() {
    assert_eq!(creation_message(Some("Weekly sync")), "Session: Weekly sync");
    assert_eq!(creation_message(Some("")), "Session: ");
}

#[test]
fn creation_message_without_title() {
    assert_eq!(creation_message(None), "Session created");
}

#[test]
fn create_request_is_a_system_message_on_the_thread() {
    let r = create_request("thread-7", Some("Planning"));
    assert_eq!(r.thread_id, "thread-7");
    assert_eq!(r.role, "system");
    assert_eq!(r.content, "Session: Planning");
    let r = create_request("thread-8", None);
    assert_eq!(r.thread_id, "thread-8");
    assert_eq!(r.role, "system");
    assert_eq!(r.content, "Session created");
}

#[test]
fn create_intro_names_the_thread() {
    assert_eq!(
        view(&create_intro("abc")),
        vec![vec![
            sp("📝", Tone::Bold),
            sp(" Creating session: ", Tone::Plain),
            sp("abc", Tone::Cyan),
        ]]
    );
}

#[test]
fn create_outcome_with_title_shows_it_last() {
    let v = view(&create_outcome("abc", Some("Notes")));
    assert_eq!(v.len(), 3);
    assert_eq!(
        v[0],
        vec![sp("✓", Tone::BoldGreen), sp(" Session created successfully", Tone::Plain)]
    );
    assert_eq!(
        v[1],
        vec![sp("  ", Tone::Plain), sp("Thread ID", Tone::Cyan), sp(": ", Tone::Plain), sp("abc", Tone::Plain)]
    );
    assert_eq!(
        v[2],
        vec![sp("  ", Tone::Plain), sp("Title", Tone::Cyan), sp(": ", Tone::Plain), sp("Notes", Tone::Plain)]
    );
}

#[test]
fn create_outcome_without_title_has_no_title_line() {
    let v = view(&create_outcome("abc", None));
    assert_eq!(v.len(), 2);
    assert!(v.iter().all(|l| l.iter().all(|(t, _)| t != "Title")));
}

#[test]
fn close_lines() {
    assert_eq!(
        view(&close_intro("t1")),
        vec![
            vec![sp("🔒", Tone::Bold), sp(" Closing session: ", Tone::Plain), sp("t1", Tone::Cyan)],
            vec![
                sp("⏳", Tone::BoldYellow),
                sp(
                    " Waiting for memory extraction, L0/L1 generation, and indexing to complete...",
                    Tone::Plain
                ),
            ],
        ]
    );
    assert_eq!(
        view(&close_outcome("t1")),
        vec![
            vec![sp("✓", Tone::BoldGreen), sp(" Session closed and all processing completed", Tone::Plain)],
            vec![sp("  ", Tone::Plain), sp("Thread ID", Tone::Cyan), sp(": ", Tone::Plain), sp("t1", Tone::Plain)],
        ]
    );
}

#[test]
fn list_intro_line() {
    assert_eq!(
        view(&list_intro()),
        vec![vec![sp("📋", Tone::Bold), sp(" Listing all sessions", Tone::Plain)]]
    );
}

#[test]
fn list_outcome_without_sessions_shows_notice() {
    assert_eq!(
        view(&list_outcome(&vec![])),
        vec![vec![], vec![sp("ℹ", Tone::BoldYellow), sp(" No sessions found", Tone::Plain)]]
    );
}

#[test]
fn list_outcome_shows_count_and_each_session_in_order() {
    let es = vec![
        entry("a", "active", "2024-01-01 00:00:00 UTC", "2024-01-02 00:00:00 UTC"),
        entry("b", "closed", "2024-02-01 10:00:00 UTC", "2024-02-01 11:00:00 UTC"),
    ];
    let v = view(&list_outcome(&es));
    assert_eq!(v.len(), 3 + 5 * 2);
    assert_eq!(v[0], vec![]);
    assert_eq!(
        v[1],
        vec![
            sp("✓", Tone::BoldGreen),
            sp(" Found ", Tone::Plain),
            sp("2", Tone::Plain),
            sp(" sessions:", Tone::Plain),
        ]
    );
    assert_eq!(v[2], vec![]);
    assert_eq!(v[3], vec![sp("• ", Tone::Plain), sp("a", Tone::BoldBrightBlue)]);
    assert_eq!(v[4], field("Status", "active"));
    assert_eq!(v[5], field("Created", "2024-01-01 00:00:00 UTC"));
    assert_eq!(v[6], field("Updated", "2024-01-02 00:00:00 UTC"));
    assert_eq!(v[7], vec![]);
    assert_eq!(v[8], vec![sp("• ", Tone::Plain), sp("b", Tone::BoldBrightBlue)]);
    assert_eq!(v[9], field("Status", "closed"));
    assert_eq!(v[10], field("Created", "2024-02-01 10:00:00 UTC"));
    assert_eq!(v[11], field("Updated", "2024-02-01 11:00:00 UTC"));
    assert_eq!(v[12], vec![]);
}

#[test]
fn list_outcome_counts_many_sessions() {
    let es: Vec<SessionEntry> = (0..12).map(|i| entry(&format!("t{}", i), "s", "c", "u")).collect();
    let v = view(&list_outcome(&es));
    assert_eq!(v.len(), 3 + 5 * 12);
    assert_eq!(v[1][2], sp("12", Tone::Plain));
    assert_eq!(v[3 + 5 * 11][1], sp("t11", Tone::BoldBrightBlue));
}

#[test]
fn decimal_text_matches_display() {
    for n in [0usize, 1, 9, 10, 11, 99, 100, 305, 1000, 123456789, usize::MAX] {
        assert_eq!(decimal_text(n), n.to_string());
    }
}

#[test]
fn session_time_format() {
    let t = UtcInstant { secs: 1431648000, nanos: 0 };
    assert_eq!(format_session_time(&t).as_deref(), Some("2015-05-15 00:00:00 UTC"));
    let t = UtcInstant { secs: 1725029869, nanos: 999_999_999 };
    assert_eq!(format_session_time(&t).as_deref(), Some("2024-08-30 14:57:49 UTC"));
    let t = UtcInstant { secs: -1, nanos: 0 };
    assert_eq!(format_session_time(&t).as_deref(), Some("1969-12-31 23:59:59 UTC"));
}

#[test]
fn session_time_leap_second() {
    let t = UtcInstant { secs: 1483228799, nanos: 1_500_000_000 };
    assert_eq!(format_session_time(&t).as_deref(), Some("2016-12-31 23:59:60 UTC"));
    let t = UtcInstant { secs: 1483228798, nanos: 1_500_000_000 };
    assert_eq!(format_session_time(&t), None);
}

#[test]
fn session_time_out_of_range() {
    assert_eq!(format_session_time(&UtcInstant { secs: 0, nanos: 2_000_000_000 }), None);
    assert_eq!(format_session_time(&UtcInstant { secs: i64::MAX, nanos: 0 }), None);
}

fn summary(id: &str, status: &str, created: i64, updated: i64) -> SessionSummary {
    SessionSummary {
        thread_id: id.to_string(),
        status: status.to_string(),
        created_at: UtcInstant { secs: created, nanos: 0 },
        updated_at: UtcInstant { secs: updated, nanos: 0 },
    }
}

#[test]
fn session_entry_renders_both_times() {
    let e = session_entry(&summary("x", "active", 1431648000, 1431648061)).unwrap();
    assert_eq!(e.thread_id, "x");
    assert_eq!(e.status, "active");
    assert_eq!(e.created, "2015-05-15 00:00:00 UTC");
    assert_eq!(e.updated, "2015-05-15 00:01:01 UTC");
    assert!(session_entry(&summary("x", "active", 0, i64::MIN)).is_none());
}

#[test]
fn session_entries_keep_order() {
    let es = session_entries(&vec![summary("p", "a", 0, 0), summary("q", "b", 60, 120)]).unwrap();
    assert_eq!(es.len(), 2);
    assert_eq!(es[0].thread_id, "p");
    assert_eq!(es[1].thread_id, "q");
    assert_eq!(es[1].updated, "1970-01-01 00:02:00 UTC");
    assert!(session_entries(&vec![summary("p", "a", 0, 0), summary("q", "b", i64::MAX, 0)]).is_none());
}

#[test]
fn list_report_lists_sessions() {
    let v = view(&list_report(&vec![summary("only", "active", 86400, 86400)]).unwrap());
    assert_eq!(v.len(), 8);
    assert_eq!(v[1][2], sp("1", Tone::Plain));
    assert_eq!(v[3][1], sp("only", Tone::BoldBrightBlue));
    assert_eq!(v[5], field("Created", "1970-01-02 00:00:00 UTC"));
    let v = view(&list_report(&vec![]).unwrap());
    assert_eq!(v[1][1], sp(" No sessions found", Tone::Plain));
    assert!(list_report(&vec![summary("bad", "x", i64::MIN, 0)]).is_none());
}

#[test]
fn session_time_range_bounds() {
    let first = UtcInstant { secs: -8_334_601_228_800, nanos: 0 };
    assert_eq!(format_session_time(&first).as_deref(), Some("-262143-01-01 00:00:00 UTC"));
    let before = UtcInstant { secs: -8_334_601_228_801, nanos: 999_999_999 };
    assert_eq!(format_session_time(&before), None);
    let last = UtcInstant { secs: 8_210_266_876_799, nanos: 999_999_999 };
    assert_eq!(format_session_time(&last).as_deref(), Some("+262142-12-31 23:59:59 UTC"));
    let after = UtcInstant { secs: 8_210_266_876_800, nanos: 0 };
    assert_eq!(format_session_time(&after), None);
}

#[test]
fn list_report_succeeds_for_chrono_instants() {
    let ss = vec![summary("a", "s", -8_334_601_228_800, 8_210_266_876_799), summary("b", "s", 0, 1)];
    assert!(list_report(&ss).is_some());
    assert!(session_entries(&ss).is_some());
}
