//! Rules that stand by themselves: sub-agents, repairs, and what the chat shows.

use novelx::agent::{message_mail, plan_spawn, wait_step, SpawnAgentRequest, SpawnFacts, WaitStep};
use novelx::audit_offers::existing_checklist;
use novelx::cascade::source_is_unknown;
use novelx::confirm::say_reaudit;
use novelx::decision_council::{p0_issue_types, DecisionCouncilConfig};
use novelx::gates::{GateCatalog, GateOptionSpec, GateResolve, GateSpec};
use novelx::issues::AuditIssue;
use novelx::json::Json;
use novelx::order::sorted_unique;
use novelx::prompts::{autofix_meta_chapter_refs, mirror_status_for_agent_bubble};
use novelx::stage_picks::setup_put_off;
use novelx::steer::{say_step, SteerNext};
use novelx::text;
use novelx::thread_state::{PendingSettingBlocker, ThreadState};
use novelx::volume::{VolumeFacts, VolumePhase};

fn request(chapter: Option<u32>, mode: Option<&str>) -> SpawnAgentRequest {
    SpawnAgentRequest {
        parent_thread_id: "p".to_string(),
        role: "editor".to_string(),
        task: "读".to_string(),
        project: None,
        chapter,
        mode: mode.map(|s| s.to_string()),
        revision: Some(Json::object().with_bool("prefer_local_patch", true)),
    }
}

fn facts() -> SpawnFacts {
    SpawnFacts {
        spawnable: true,
        pipeline_role: false,
        parent_depth: Some(0),
        children: 0,
        parent_project: Some("demo".to_string()),
    }
}

fn denied(r: SpawnAgentRequest, f: SpawnFacts) -> String {
    match plan_spawn(&r, &f) {
        Ok(_) => panic!("expected a refusal"),
        Err(e) => e,
    }
}

#[test]
fn sub_agents_take_the_project_of_their_parent() {
    match plan_spawn(&request(None, None), &facts()) {
        Ok(p) => {
            assert_eq!(p.depth, 1);
            assert_eq!(p.job.role, "editor");
            assert_eq!(p.job.project.as_deref(), Some("demo"));
            assert!(p.job.revision.unwrap().is_true("prefer_local_patch"));
        },
        Err(e) => panic!("{}", e),
    }
}

#[test]
fn sub_agents_are_refused_for_a_reason() {
    let f = SpawnFacts { spawnable: false, ..facts() };
    assert_eq!(denied(request(None, None), f), "role 'editor' is not spawnable");
    assert_eq!(
        denied(request(Some(3), Some("revise")), facts()),
        "role 'editor' is not a chapter-pipeline agent"
    );
    let f = SpawnFacts { parent_depth: None, ..facts() };
    assert_eq!(denied(request(None, None), f), "unknown parent thread");
    let f = SpawnFacts { parent_depth: Some(4), ..facts() };
    assert_eq!(denied(request(None, None), f), "max spawn depth exceeded");
    let f = SpawnFacts { children: 32, ..facts() };
    assert_eq!(denied(request(None, None), f), "max children exceeded");
}

#[test]
fn waiting_ends_with_a_result_or_in_time() {
    assert_eq!(wait_step(true, 500, 100), WaitStep::Done);
    assert_eq!(wait_step(false, 100, 100), WaitStep::TimedOut);
    assert_eq!(wait_step(false, 0, 1000), WaitStep::Sleep(100));
    assert_eq!(wait_step(false, 970, 1000), WaitStep::Sleep(30));
    let m = message_mail("a", "b", "hi", true);
    assert_eq!(m.recipient_thread_id, "b");
    assert!(m.trigger_turn);
}

fn issue(kind: &str, priority: &str) -> AuditIssue {
    AuditIssue {
        id: None,
        priority: priority.to_string(),
        kind: kind.to_string(),
        message: None,
        location: String::new(),
        quote: String::new(),
    }
}

#[test]
fn blocking_kinds_are_listed_once_in_order() {
    let list = vec![
        issue("TIMELINE", "P0"),
        issue("META", "P0"),
        issue("TIMELINE", "P0"),
        issue("STYLE", "P1"),
    ];
    assert_eq!(p0_issue_types(&list), vec!["META".to_string(), "TIMELINE".to_string()]);
    let words = vec!["b".to_string(), "a".to_string(), "b".to_string()];
    assert_eq!(sorted_unique(&words), vec!["a".to_string(), "b".to_string()]);
    assert!(!DecisionCouncilConfig::defaults().kind_enabled("no_such_kind"));
}

fn word(id: &str, label: &str, resolve: &str) -> GateOptionSpec {
    GateOptionSpec {
        id: id.to_string(),
        label: label.to_string(),
        tool: None,
        args: None,
        resolve: Some(resolve.to_string()),
        aliases: vec![],
    }
}

fn call(id: &str, label: &str, tool: &str) -> GateOptionSpec {
    GateOptionSpec {
        id: id.to_string(),
        label: label.to_string(),
        tool: Some(tool.to_string()),
        args: Some(Json::object().with_str("project", "{{project}}")),
        resolve: None,
        aliases: vec![],
    }
}

#[test]
fn numbers_choose_the_button_that_is_shown() {
    let mut c = GateCatalog::empty();
    let gates = vec![
        ("planned_plot", vec![word("pp_go", "激活", "activate_plot_write"), word("pp_no", "暂不", "dismiss_gate")]),
        ("need_plot", vec![call("np", "设计", "design_plot")]),
        ("volume_audit", vec![call("va", "深审", "audit_chapters")]),
        ("volume_handoff_arc", vec![call("vh", "卷纲", "design_arc_outline")]),
    ];
    for (name, options) in gates {
        c.insert(GateSpec { name: name.to_string(), options });
    }
    assert!(matches!(
        c.resolve_planned_plot_visible("2", "demo", "t"),
        Some(GateResolve::DismissGate)
    ));
    assert!(c.resolve_planned_plot_visible("3", "demo", "t").is_none());
    assert!(matches!(
        c.resolve_need_plot_visible("1", "demo", 1, "t"),
        Some(GateResolve::Tool { name, .. }) if name == "design_plot"
    ));
    assert!(matches!(
        c.resolve_volume_audit_visible("1", "demo", &vec![2]),
        Some(GateResolve::Tool { name, .. }) if name == "audit_chapters"
    ));
    assert!(matches!(
        c.resolve_volume_handoff("卷纲", "demo", "awaiting_next_arc", 2, "t"),
        Some(GateResolve::Tool { name, .. }) if name == "design_arc_outline"
    ));
    assert!(c.resolve_volume_handoff("卷纲", "demo", "drafting_volume", 2, "t").is_none());
}

#[test]
fn the_chat_repeats_status_lines_only() {
    let shown = mirror_status_for_agent_bubble("▶ 一致性审计\n正文第一句\n✓ 完成").unwrap();
    assert!(shown.contains("▶ 一致性审计"));
    assert!(shown.contains("✓ 完成"));
    assert!(!shown.contains("正文第一句"));
    assert_eq!(mirror_status_for_agent_bubble("只是正文"), None);
}

#[test]
fn chapter_numbers_in_a_draft_are_repaired_only_alone() {
    let meta = vec!["meta_chapter_ref".to_string()];
    let other = vec!["meta_chapter_ref".to_string(), "length".to_string()];
    assert!(autofix_meta_chapter_refs("demo", 3, &meta, true, &vec![]).is_some());
    assert!(autofix_meta_chapter_refs("demo", 3, &other, true, &vec![]).is_none());
    assert!(autofix_meta_chapter_refs("demo", 3, &meta, false, &vec![]).is_none());
    assert!(autofix_meta_chapter_refs("demo", 3, &meta, true, &meta).is_none());
    assert!(autofix_meta_chapter_refs("demo", 0, &meta, true, &vec![]).is_none());
    assert!(autofix_meta_chapter_refs("", 3, &meta, true, &vec![]).is_none());
}

#[test]
fn a_checklist_is_found_in_its_own_turn() {
    let item = Json::object()
        .with_str("type", "agent_message")
        .with_str("id", "i1")
        .with_str("text", "第4章审校未通过");
    let turn = Json::object().with_str("id", "t1").with("items", Json::List(vec![item]));
    let turns = Json::List(vec![turn]);
    assert_eq!(existing_checklist(&turns, "t1", 4).as_deref(), Some("i1"));
    assert_eq!(existing_checklist(&turns, "t1", 5), None);
    assert_eq!(existing_checklist(&turns, "t2", 4), None);
}

#[test]
fn a_settled_blocker_brings_the_next_card() {
    let mut c = GateCatalog::empty();
    c.insert(GateSpec {
        name: "chapter_next".to_string(),
        options: vec![
            call("cn_continue", "继续创作", "continue_writing"),
            call("cn_revise", "修正本章", "revise_chapter"),
        ],
    });
    let pending = PendingSettingBlocker {
        project: "demo".to_string(),
        chapter: 4,
        detail: "缺地点".to_string(),
        resume_chapter_next: true,
        published: true,
        plot_accept_open: false,
        content_blocked: false,
        revise_instructions: None,
        offer_volume_handoff_after: false,
    };
    let facts =
        VolumeFacts { phase: VolumePhase::DraftingVolume, bounds: vec![], false_end: false };
    let mut t = ThreadState::new(Some("demo".to_string()));
    t.finish_setting_blocker_followups(true, &c, &pending, &facts);
    assert!(t.pending_chapter_next.is_some());
    assert!(!t.awaits_revision_answer());
}

#[test]
fn words_while_work_goes_on() {
    assert_eq!(say_reaudit(4), "\n\n修订已落盘，正在复审第4章…");
    assert_eq!(say_step(&SteerNext::Reaudit(Json::object(), 4)), "\n\n正在复审第4章…");
    assert_eq!(say_step(&SteerNext::ContinueQueue(Json::object())), "\n\n正在接续审阅队列…");
    assert_eq!(say_step(&SteerNext::Nothing), "");
    assert!(setup_put_off().contains("已取消定稿推进"));
    assert_eq!(source_is_unknown(), "无法解析影响源，已跳过级联。");
}

#[test]
fn texts_are_cut_and_joined() {
    assert_eq!(text::trim("\u{3000} a b \n"), "a b");
    assert_eq!(text::trim_char("\"\"x\"", '"'), "x");
    assert_eq!(text::number(0), "0");
    assert_eq!(text::number(1024), "1024");
    assert_eq!(text::replace("aXbX", "X", "--"), "a--b--");
    assert_eq!(text::lines("a\r\nb\n"), vec!["a".to_string(), "b".to_string()]);
    assert_eq!(text::take_chars("甲乙丙", 2), "甲乙");
    assert_eq!(text::parse_usize("+12"), Some(12));
    assert_eq!(text::parse_usize("1a"), None);
    assert!(text::encoded_at_least("甲", 3));
    assert!(!text::encoded_at_least("甲", 4));
}
