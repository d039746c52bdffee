//! The journal of operations, and the switches.

use novelx::features::FeatureFlags;
use novelx::json::Json;
use novelx::ops_journal::{
    args_summary, build_entry, build_entry_at, chapter_from_value, format_entry_line,
    journal_lines, journal_path, select_entries, should_append, tool_apply_succeeded,
    truncate_str, truncate_value, OpsJournalEntry, OpsJournalKind, OpsJournalQuery,
    MAX_FIELD_CHARS,
};

fn three() -> Vec<OpsJournalEntry> {
    let project = "sample-novel";
    vec![
        build_entry(
            project,
            Some("thr_1"),
            Some("turn_1"),
            Some(3),
            Some("mut_abc"),
            OpsJournalKind::MutationPreview,
            "preview setting",
            &Json::object().with_str("tool", "upsert_setting"),
        ),
        build_entry(
            project,
            Some("thr_1"),
            Some("turn_2"),
            Some(3),
            Some("mut_abc"),
            OpsJournalKind::MutationApplied,
            "applied",
            &Json::object(),
        ),
        build_entry(
            project,
            Some("thr_1"),
            Some("turn_3"),
            Some(4),
            None,
            OpsJournalKind::HistoryReset,
            "cleared chat",
            &Json::object(),
        ),
    ]
}

#[test]
fn append_and_query_filters() {
    assert!(three().iter().all(should_append));

    let all = select_entries(three(), &OpsJournalQuery::recent(50));
    assert_eq!(all.len(), 3);

    let mut q = OpsJournalQuery::recent(50);
    q.kind = Some(OpsJournalKind::MutationApplied);
    let applied = select_entries(three(), &q);
    assert_eq!(applied.len(), 1);
    assert_eq!(applied[0].kind, OpsJournalKind::MutationApplied);

    q.kind = None;
    q.chapter = Some(3);
    let ch3 = select_entries(three(), &q);
    assert_eq!(ch3.len(), 2);

    let still = select_entries(three(), &OpsJournalQuery::recent(50));
    assert_eq!(still.len(), 3);
}

#[test]
fn truncate_long_strings() {
    let long = "甲".repeat(3000);
    let t = truncate_str(&long, MAX_FIELD_CHARS);
    assert!(t.chars().count() <= MAX_FIELD_CHARS);
    assert!(t.ends_with('…'));
    let v = truncate_value(&Json::object().with_str("body", &long), 100);
    assert!(v.get_str("body").unwrap().chars().count() <= 100);
}

#[test]
fn empty_project_skips_append() {
    let entry =
        build_entry("", None, None, None, None, OpsJournalKind::UserInput, "noop", &Json::object());
    assert!(!should_append(&entry));
}

#[test]
fn tool_apply_succeeded_rejects_failures() {
    assert!(tool_apply_succeeded(&Json::object()));
    assert!(tool_apply_succeeded(&Json::object().with_bool("ok", true)));
    assert!(!tool_apply_succeeded(
        &Json::object().with_bool("ok", false).with_str("error", "boom")
    ));
    assert!(!tool_apply_succeeded(&Json::object().with_bool("blocked", true)));
    assert!(!tool_apply_succeeded(&Json::object().with_bool("needs_confirm", true)));
    assert!(!tool_apply_succeeded(&Json::object().with_bool("content_rule_blocked", true)));
}

#[test]
fn ops_journal_defaults_on() {
    assert!(FeatureFlags::defaults().ops_journal());
    let off = FeatureFlags::from_entries(vec![("studio.ops_journal".to_string(), false)]);
    assert!(!off.ops_journal());
}

#[test]
fn the_limit_keeps_the_newest() {
    let last = select_entries(three(), &OpsJournalQuery::recent(1));
    assert_eq!(last.len(), 1);
    assert_eq!(last[0].summary, "cleared chat");
}

#[test]
fn entries_carry_the_time_in_writing() {
    let e = build_entry("p", None, None, None, None, OpsJournalKind::UserInput, "s", &Json::object());
    assert!(e.ts.contains('T'));
    assert!(e.ts.len() >= 25);
    assert_eq!(&e.ts[4..5], "-");
    assert_eq!(&e.ts[10..11], "T");
    assert_eq!(&e.ts[13..14], ":");
    assert!(e.ts.ends_with("+00:00") || e.ts.ends_with('Z'));
    let fixed = build_entry_at(
        "2024-01-02T03:04:05+00:00".to_string(),
        "p",
        None,
        None,
        Some(3),
        None,
        OpsJournalKind::UserInput,
        "s",
        &Json::object(),
    );
    assert_eq!(fixed.ts, "2024-01-02T03:04:05+00:00");
    assert!(format_entry_line(&fixed).contains("user_input"));
}

#[test]
fn short_texts_are_not_cut() {
    assert_eq!(truncate_str("abc", 3), "abc");
    assert_eq!(truncate_str("abcd", 3), "ab…");
}

#[test]
fn chapters_are_read_off_values() {
    assert_eq!(chapter_from_value(&Json::object().with_u32("chapter", 5)), Some(5));
    assert_eq!(chapter_from_value(&Json::object()), None);
}

#[test]
fn blank_lines_of_the_file_do_not_count() {
    assert_eq!(journal_lines("a\n\n  \nb\n").len(), 2);
}

#[test]
fn the_file_lies_in_the_project() {
    let p = journal_path("/srv/projects", "demo");
    assert!(p.starts_with("/srv/projects/demo/"));
}

#[test]
fn arguments_are_summarised() {
    let long = "甲".repeat(3000);
    let s = args_summary(&Json::object().with_str("project", "demo").with_str("body", &long));
    assert_eq!(s.get_str("project"), Some("demo"));
}

#[test]
fn switches_have_defaults() {
    let f = FeatureFlags::defaults();
    assert!(f.deterministic_intents());
    assert!(f.enabled("studio.deterministic_intents"));
    assert!(!f.enabled("no.such.switch"));
}
