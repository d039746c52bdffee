//! The buttons of a failed audit, and the texts that go with them.

use novelx::audit_decisions::{
    audit_fail_prompt, build_fallback_audit_decisions, decisions_to_ui_options,
    format_audit_issue_checklist, resolve_decision_pick, validate_offered_decisions,
};
use novelx::issues::{count_with_priority, issue_ids, p0_issues, AuditIssue};
use novelx::json::Json;
use novelx::prompts::{
    chapter_next_length_prompt, defer_pause_for_studio_audit_offer, fill_continue_chapter_arg,
    is_audit_checklist_text, is_length_publish_blocked, merge_tool_ui_output,
    mutation_apply_agent_summary, parse_todo_items, should_open_audit_offer_fallback,
};

fn issue(id: Option<&str>, kind: &str, priority: &str, message: &str) -> AuditIssue {
    AuditIssue {
        id: id.map(|s| s.to_string()),
        priority: priority.to_string(),
        kind: kind.to_string(),
        message: Some(message.to_string()),
        location: String::new(),
        quote: String::new(),
    }
}

#[test]
fn checklist_skips_long_report_prose() {
    let mut i = issue(None, "META", "P0", "叙述中出现章号指称");
    i.location = "第4段".to_string();
    i.quote = "他走了五章的路".to_string();
    let brief = format_audit_issue_checklist(&vec![i], 17);
    assert!(brief.contains("问题清单"));
    assert!(brief.contains("META"));
    assert!(!brief.contains("【已核对】"));
    assert!(brief.contains("p0-meta-1") || brief.contains("`"));
}

#[test]
fn fallback_has_per_p0_and_accept() {
    let issues = vec![
        issue(Some("p0-meta-1"), "META", "P0", "章号元叙述"),
        issue(Some("p0-timeline-2"), "TIMELINE", "P0", "倒计时互斥"),
    ];
    let opts = build_fallback_audit_decisions("demo", 17, &issues, false);
    assert!(opts.iter().any(|o| o.id == "fix_p0-meta-1"));
    assert!(opts.iter().any(|o| o.id == "fix_all_p0"));
    assert!(opts.iter().any(|o| o.id == "accept"));
    let (tool, args) = resolve_decision_pick("1", &opts).unwrap();
    assert_eq!(tool, "steer_run");
    assert_eq!(args.get_str("choice"), Some("revise"));
}

#[test]
fn a_queue_adds_its_own_buttons() {
    let issues = vec![issue(Some("a"), "META", "P0", "x")];
    let alone = build_fallback_audit_decisions("demo", 1, &issues, false);
    let queued = build_fallback_audit_decisions("demo", 1, &issues, true);
    assert!(queued.len() > alone.len());
    assert_eq!(decisions_to_ui_options(&queued).len(), queued.len());
}

#[test]
fn an_unknown_pick_names_nothing() {
    let issues = vec![issue(Some("a"), "META", "P0", "x")];
    let opts = build_fallback_audit_decisions("demo", 1, &issues, false);
    assert!(resolve_decision_pick("随便", &opts).is_none());
    assert!(resolve_decision_pick("99", &opts).is_none());
}

#[test]
fn offered_options_are_held_against_the_issues() {
    let issues = vec![issue(Some("a"), "META", "P0", "x")];
    assert!(validate_offered_decisions("demo", 1, &issues, &vec![], false).is_err());
    let good = Json::object()
        .with_str("id", "fix_a")
        .with_str("label", "修 a")
        .with("issue_ids", Json::List(vec![Json::str("a")]));
    let bad = Json::object()
        .with_str("id", "fix_b")
        .with_str("label", "修 b")
        .with("issue_ids", Json::List(vec![Json::str("no-such-issue")]));
    let offered = validate_offered_decisions("demo", 1, &issues, &vec![good], false);
    match offered {
        Ok(v) => assert!(!v.is_empty()),
        Err(e) => panic!("{}", e),
    }
    assert!(validate_offered_decisions("demo", 1, &issues, &vec![bad], false).is_err());
}

#[test]
fn issues_are_counted_and_named() {
    let issues = vec![issue(Some("a"), "META", "P0", "x"), issue(None, "STYLE", "P1", "y")];
    assert_eq!(p0_issues(&issues).len(), 1);
    assert_eq!(count_with_priority(&issues, "P1"), 1);
    assert_eq!(issue_ids(&issues), vec!["a".to_string()]);
    assert!(audit_fail_prompt(3, &issues, false).contains("第3章"));
}

#[test]
fn length_publish_blocked_detects_hard_and_escalate() {
    let status = |s: &str| Json::object().with_str("length_status", s);
    assert!(is_length_publish_blocked(&status("hard_short")));
    assert!(is_length_publish_blocked(&status("soft_short_escalated")));
    assert!(!is_length_publish_blocked(&status("soft_short")));
    assert!(!is_length_publish_blocked(&status("ok")));
    assert!(!is_length_publish_blocked(&Json::object()));
}

#[test]
fn length_prompt_mentions_expand() {
    let p = chapter_next_length_prompt(3, "正文字数 4200，低于硬门控 4500");
    assert!(p.contains("第3章"));
    assert!(p.contains("字数"));
    assert!(p.contains("修正本章"));
}

#[test]
fn merge_tool_ui_skips_restated_audit_report() {
    let streamed = format!(
        "一致性审计\n## 第17章审校报告\n结果：未通过\n{}",
        "长文".repeat(80)
    );
    let final_out = format!("——\n{streamed}");
    let merged = merge_tool_ui_output(&streamed, &final_out);
    assert_eq!(merged, streamed.trim_end());
    assert_eq!(
        merged.matches("第17章审校报告").count(),
        1,
        "must not paste the audit report twice"
    );
}

#[test]
fn merge_tool_ui_keeps_short_fail_coda() {
    let streamed = "一致性审计\n## 审校报告\n结果：未通过\n细节…";
    let coda = "——\n一致性未通过（详见上方流式输出；请在下方决策卡选择）";
    let merged = merge_tool_ui_output(streamed, coda);
    assert!(merged.contains("详见上方"));
    assert!(merged.starts_with("一致性审计"));
}

#[test]
fn merge_tool_ui_drops_contradictory_consistency_fail_coda() {
    let streamed = "✓ 一致性审计: 一致性通过\n✓ 节奏审查: 节奏审查完成";
    let bad = "——\n一致性未通过（详见上方流式输出；请在下方决策卡选择）";
    let merged = merge_tool_ui_output(streamed, bad);
    assert!(!merged.contains("一致性未通过"));
    assert!(merged.contains("一致性通过"));
}

#[test]
fn merge_tool_ui_keeps_hard_rule_coda_after_consistency_pass() {
    let streamed = "✓ 一致性审计: 一致性通过\n✓ 节奏审查: 节奏审查完成";
    let coda = "——\n第22章硬规则未通过（未发布；详见上方；请在下方选择修正本章）";
    let merged = merge_tool_ui_output(streamed, coda);
    assert!(merged.contains("硬规则未通过"));
    assert!(merged.contains("一致性通过"));
}

#[test]
fn checklist_text_detector() {
    assert!(is_audit_checklist_text("## 第17章审校未通过\n\n### 问题清单\n1. `p0` "));
    assert!(!is_audit_checklist_text("复审通过，本轮已正常结束。"));
}

#[test]
fn mutation_apply_summary_omits_success_tool_output() {
    let intro = "已确认，正在应用：将写入character设定卡「甲」";
    let output = "已写入设定卡 /tmp/sample-novel/entities/characters/甲.md";
    let ok = mutation_apply_agent_summary(intro, output, &Json::object().with_str("path", "/tmp/x"));
    assert_eq!(ok, intro);
    let blocked = mutation_apply_agent_summary(
        intro,
        "设定审计 BLOCKER，未写入",
        &Json::object().with_bool("blocked", true),
    );
    assert!(blocked.contains("BLOCKER"));
}

#[test]
fn continue_writing_audit_fail_defers_pause_and_fallback_opens() {
    assert!(defer_pause_for_studio_audit_offer(true, true));
    assert!(!defer_pause_for_studio_audit_offer(true, false));
    assert!(!defer_pause_for_studio_audit_offer(false, true));
    assert!(should_open_audit_offer_fallback(true, true));
    assert!(!should_open_audit_offer_fallback(true, false));
    assert!(!should_open_audit_offer_fallback(false, true));
}

#[test]
fn fill_continue_chapter_from_user_only() {
    let mut args = Json::object().with_str("project", "demo");
    assert!(!fill_continue_chapter_arg(&mut args, &["继续"]));
    assert!(args.get("chapter").is_none());
    assert!(fill_continue_chapter_arg(&mut args, &["写第7章"]));
    assert_eq!(args.get_u64("chapter"), Some(7));
}

#[test]
fn todos_are_read_off_a_list() {
    let one = Json::object().with_str("content", "审第1章").with_str("status", "completed");
    let list = Json::List(vec![one]);
    let todos = parse_todo_items(Some(&list)).unwrap();
    assert_eq!(todos.len(), 1);
    assert_eq!(todos[0].content, "审第1章");
    assert!(parse_todo_items(None).is_none());
}

fn refusal(r: Result<Vec<novelx::audit_decisions::AuditDecisionOption>, String>) -> String {
    match r {
        Ok(_) => panic!("expected a refusal"),
        Err(e) => e,
    }
}

#[test]
fn named_issues_must_exist_even_where_none_was_reported() {
    let ghost = Json::object()
        .with_str("label", "修")
        .with("issue_ids", Json::List(vec![Json::str("ghost")]));
    let none = validate_offered_decisions("demo", 1, &vec![], &vec![ghost.copy()], false);
    assert_eq!(refusal(none), "未知 issue_id：ghost");
    let unnamed = vec![issue(None, "META", "P0", "x")];
    let r = validate_offered_decisions("demo", 1, &unnamed, &vec![ghost], false);
    assert_eq!(refusal(r), "未知 issue_id：ghost");
    let plain = Json::object().with_str("label", "修");
    match validate_offered_decisions("demo", 1, &vec![], &vec![plain], false) {
        Ok(v) => assert_eq!(v[0].id, "opt_1"),
        Err(e) => panic!("{}", e),
    }
}

#[test]
fn merging_only_ever_appends() {
    let cases = [
        ("", " 结果 "),
        ("流  \n", "结果"),
        ("流 结果", "结果"),
        ("一致性通过", "——\n一致性未通过\n第3章硬规则未通过"),
        ("一致性审计", "一致性未通过（详见上方）"),
    ];
    for (streamed, out) in cases {
        let once = merge_tool_ui_output(streamed, out);
        assert!(once.starts_with(streamed.trim_end()));
        assert_eq!(merge_tool_ui_output(&once, out), once);
    }
    assert_eq!(merge_tool_ui_output("", " 结果 "), "结果");
    assert_eq!(merge_tool_ui_output("流 结果", "结果"), "流 结果");
    let trailing = merge_tool_ui_output("一致性通过", "硬规则 \n一致性未通过");
    assert_eq!(trailing, "一致性通过\n硬规则 ");
    assert_eq!(merge_tool_ui_output(&trailing, "硬规则 \n一致性未通过"), "一致性通过\n硬规则");
}
