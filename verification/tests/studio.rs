//! The cards that open after a tool ran, and what an answer leads to.

use novelx::audit_offers::{
    audit_infra_prompt, extract_audit_issues, todos_from_data, AuditFix, OfferApplyResult,
};
use novelx::chain::{ChainPath, ChainStep, OfferEnv, OfferKind};
use novelx::chapter_offers::{maybe_offer_setting_blocker, rule_stop, ChapterFacts};
use novelx::confirm::{after_apply, close_advance, close_reaudit, reaudit_call, ApplyNext, ConfirmPlan};
use novelx::gates::{GateCatalog, GateOptionSpec, GateSpec, UserInputOption};
use novelx::intent::IntentRouter;
use novelx::issues::AuditIssue;
use novelx::json::Json;
use novelx::offers::{
    chapter_order_prompt, maybe_offer_draft_exists, maybe_offer_plot_write, ImpactScan, Offer,
    StudioNextContext,
};
use novelx::open_gate::TimelineRule;
use novelx::parse_ops::ImpactOp;
use novelx::picks::{
    chapter_choice_intro, chapter_order_intro, choice_call, close_chapter_order,
    draft_blocks_choice, is_confirmed_by_choice, known_request_intro, project_named,
    summarize_with_card,
};
use novelx::reconcile::AuditQueueFacts;
use novelx::stage_picks::{
    close_handoff, handoff_call_args, setup_step_intro, skip_volume_sync, volume_handoff_intro,
    HandoffEnd, SkipEffect, SyncEnd,
};
use novelx::steer::{after_steer, audit_steer_intro, polish_call, SteerFacts, SteerNext};
use novelx::thread_state::{PendingVolumeSync, ThreadState};
use novelx::turn::{Route, TurnFacts};
use novelx::volume::{
    handoff_plot_title, handoff_target_volume, label_of, name_chapters, prompt_of_handoff,
    SetupStep, VolumeBound, VolumeFacts, VolumePhase,
};
use novelx::writing::NextChapter;

fn option(id: &str, label: &str, tool: Option<&str>, args: Json, resolve: Option<&str>) -> GateOptionSpec {
    GateOptionSpec {
        id: id.to_string(),
        label: label.to_string(),
        tool: tool.map(|s| s.to_string()),
        args: Some(args),
        resolve: resolve.map(|s| s.to_string()),
        aliases: vec![],
    }
}

fn project_args() -> Json {
    Json::object().with_str("project", "{{project}}")
}

fn catalog() -> GateCatalog {
    let mut c = GateCatalog::empty();
    let chapter = || project_args().with_str("chapter", "{{chapter}}");
    let steer = |w: &str| chapter().with_str("choice", w);
    let gates: Vec<(&str, Vec<GateOptionSpec>)> = vec![
        (
            "confirm_mutation",
            vec![
                option("cm_apply", "应用修改", None, Json::object(), Some("apply_mutation")),
                option("cm_discard", "放弃", None, Json::object(), Some("discard_mutation")),
            ],
        ),
        (
            "confirm_impact",
            vec![
                option("ci_sync", "自动同步修正", None, Json::object(), Some("sync_impact")),
                option("ci_skip", "暂不同步", None, Json::object(), Some("skip_impact")),
            ],
        ),
        (
            "chapter_order",
            vec![option(
                "co_next",
                "写第{{next_chapter}}章",
                Some("continue_writing"),
                project_args().with_str("chapter", "{{next_chapter}}"),
                None,
            )],
        ),
        (
            "chapter_next",
            vec![
                option("cn_continue", "继续创作", Some("continue_writing"), project_args(), None),
                option("cn_revise", "修正本章", Some("revise_chapter"), chapter(), None),
            ],
        ),
        (
            "audit",
            vec![
                option("1", "按审校局部修订", Some("steer_run"), steer("revise"), None),
                option("2", "接受问题", Some("steer_run"), steer("accept"), None),
            ],
        ),
        (
            "audit_infra",
            vec![option("1", "重新审计", Some("audit_chapter"), chapter(), None)],
        ),
        (
            "audit_queue",
            vec![option(
                "3",
                "跳过，审下一章",
                Some("audit_chapters"),
                project_args().with_str("action", "next"),
                None,
            )],
        ),
        (
            "setup_confirm",
            vec![option(
                "sc_approve",
                "确认定稿",
                Some("confirm_setup"),
                project_args().with_str("action", "approve"),
                None,
            )],
        ),
        (
            "volume_sync",
            vec![
                option(
                    "vs_sync",
                    "同步设定库",
                    Some("sync_volume"),
                    project_args().with_str("volume", "{{volume}}"),
                    None,
                ),
                option("vs_skip", "跳过", None, Json::object(), Some("skip_volume")),
            ],
        ),
        (
            "volume_handoff_arc",
            vec![option(
                "vh_arc",
                "设计下卷卷纲",
                Some("design_arc_outline"),
                project_args().with_str("volume", "{{volume}}"),
                None,
            )],
        ),
    ];
    for (name, options) in gates {
        c.insert(GateSpec { name: name.to_string(), options });
    }
    c
}

fn thread() -> ThreadState {
    ThreadState::new(Some("demo".to_string()))
}

fn change() -> Json {
    Json::object()
        .with_bool("needs_confirm", true)
        .with_str("mutation_id", "mut_1")
        .with_str("mutation_kind", "setting")
        .with_str("summary", "将写入设定卡「甲」")
        .with_str("apply_tool", "upsert_setting")
        .with("apply_args", Json::object().with_str("project", "demo"))
        .with("preview", Json::object().with_str("markdown", "甲"))
}

fn no_scan() -> ImpactScan {
    ImpactScan {
        source: None,
        hits: vec![],
        summary_markdown: String::new(),
        entity_gaps_count: 0,
    }
}

fn drafting() -> VolumeFacts {
    VolumeFacts { phase: VolumePhase::DraftingVolume, bounds: vec![], false_end: false }
}

fn no_facts() -> ChapterFacts {
    ChapterFacts { range_label: "5000-6000".to_string(), draft: String::new(), line_rules: vec![] }
}

fn env<'a>(
    c: &'a GateCatalog,
    tool: &'a str,
    args: &'a Json,
    data: &'a Json,
    scan: &'a ImpactScan,
    volumes: &'a VolumeFacts,
    chapter: &'a ChapterFacts,
    found: &'a Vec<AuditIssue>,
) -> OfferEnv<'a> {
    OfferEnv {
        catalog: c,
        impact_cascade: true,
        enforce_setup: true,
        enforce_volume: true,
        tool,
        args,
        data,
        scan,
        plot_volume: 1,
        plot_title: "第1卷开局",
        setup_step: None,
        memory: "",
        volumes,
        chapter,
        found,
        queue_running: false,
    }
}

fn issue() -> AuditIssue {
    AuditIssue {
        id: Some("p0-meta-1".to_string()),
        priority: "P0".to_string(),
        kind: "META".to_string(),
        message: Some("章号".to_string()),
        location: String::new(),
        quote: String::new(),
    }
}

#[test]
fn a_change_is_shown_and_applied_once() {
    let c = catalog();
    let mut t = thread();
    match t.maybe_offer_mutation_confirm(&c, &change()) {
        Offer::Open(card) => {
            assert_eq!(card.prompt, "待确认：将写入设定卡「甲」");
            assert_eq!(card.options.len(), 2);
            assert!(card.preview.is_some());
        },
        _ => panic!("expected a card"),
    }
    assert!(t.thread_awaiting_human());
    let (name, args) = t.parse_mutation_confirm_op(&c, "应用修改").unwrap();
    match t.decide_mutation(&c, &name, &args) {
        ConfirmPlan::Apply { tool, intro, reaudit_after, .. } => {
            assert_eq!(tool, "upsert_setting");
            assert_eq!(intro, "已确认，正在应用：将写入设定卡「甲」");
            assert!(!reaudit_after);
        },
        _ => panic!("expected to apply"),
    }
    assert!(t.pending_mutation.is_none());
    match t.decide_mutation(&c, &name, &args) {
        ConfirmPlan::NoChange(w) => assert_eq!(w, "没有待确认的修改。"),
        _ => panic!("nothing is left to apply"),
    }
}

#[test]
fn a_dropped_change_leaves_the_files() {
    let c = catalog();
    let mut t = thread();
    t.maybe_offer_mutation_confirm(&c, &change());
    let (name, args) = t.parse_mutation_confirm_op(&c, "放弃").unwrap();
    match t.decide_mutation(&c, &name, &args) {
        ConfirmPlan::Discard { summary, setup_project } => {
            assert_eq!(summary, "已放弃此次修改，磁盘未变更。");
            assert_eq!(setup_project.as_deref(), Some("demo"));
        },
        _ => panic!("expected to discard"),
    }
}

#[test]
fn another_change_is_not_applied_in_its_place() {
    let c = catalog();
    let mut t = thread();
    t.maybe_offer_mutation_confirm(&c, &change());
    let (name, _) = t.parse_mutation_confirm_op(&c, "应用修改").unwrap();
    let other = Json::object().with_str("mutation_id", "mut_2");
    assert!(matches!(t.decide_mutation(&c, &name, &other), ConfirmPlan::Mismatch { .. }));
    assert!(t.pending_mutation.is_some());
}

#[test]
fn an_applied_revision_is_audited_again() {
    let args = Json::object().with_str("project", "demo").with_u32("chapter", 4);
    match after_apply("revise_chapter", &args, true, true, &Json::object()) {
        ApplyNext::Reaudit(Some((p, n))) => {
            assert_eq!(p, "demo");
            assert_eq!(n, 4);
        },
        _ => panic!("expected an audit"),
    }
    assert!(matches!(
        after_apply("upsert_setting", &args, true, true, &Json::object()),
        ApplyNext::Advance
    ));
    let again = Json::object().with_bool("needs_confirm", true);
    assert!(matches!(after_apply("revise_chapter", &args, true, true, &again), ApplyNext::Nested));
    assert_eq!(reaudit_call("demo", 4).get_u64("chapter"), Some(4));
    assert!(close_reaudit(false, true, false).contains("复审通过"));
    assert_eq!(close_advance(Some(OfferKind::Mutation)), "");
    assert!(close_advance(Some(OfferKind::Impact)).contains("已扫描依赖面"));
}

#[test]
fn the_first_card_of_a_chain_wins() {
    let c = catalog();
    let args = Json::object();
    let data = change();
    let (scan, vol, ch, found) = (no_scan(), drafting(), no_facts(), vec![]);
    let e = env(&c, "upsert_setting", &args, &data, &scan, &vol, &ch, &found);
    let mut t = thread();
    let order = ChainPath::ModelCall.order();
    match t.run_chain(&order, 0, &e).step {
        ChainStep::Opened(k, _) => assert!(k == OfferKind::Mutation),
        _ => panic!("expected a card"),
    }
    let quiet = Json::object();
    let e = env(&c, "list_plots", &args, &quiet, &scan, &vol, &ch, &found);
    assert!(matches!(thread().run_chain(&order, 0, &e).step, ChainStep::Ended));
}

#[test]
fn a_chain_goes_on_after_the_studio_was_asked() {
    let c = catalog();
    let args = Json::object().with_str("project", "demo");
    let data = Json::object().with_bool("blocked", true).with_str("reason", "need_design_plot");
    let (scan, vol, ch, found) = (no_scan(), drafting(), no_facts(), vec![]);
    let e = env(&c, "continue_writing", &args, &data, &scan, &vol, &ch, &found);
    let mut t = thread();
    let order = ChainPath::ModelCall.order();
    match t.run_chain(&order, 0, &e).step {
        ChainStep::Asking(k, request, next) => {
            assert!(k == OfferKind::Plot);
            assert_eq!(request.reason, "写章被拦：需要进行中的剧情卡");
            assert!(next <= order.len());
            assert!(matches!(t.run_chain(&order, next, &e).step, ChainStep::Ended));
        },
        _ => panic!("expected a question"),
    }
}

#[test]
fn what_depends_on_a_change_is_offered() {
    let c = catalog();
    let mut t = thread();
    let scan = ImpactScan {
        source: Some(Json::object()),
        hits: vec![Json::object()],
        summary_markdown: "- 第2章".to_string(),
        entity_gaps_count: 0,
    };
    let args = Json::object().with_str("project", "demo");
    let r =
        t.maybe_offer_impact_cascade(true, &c, "upsert_setting", &args, &Json::object(), &scan);
    assert!(matches!(r, Offer::Open(_)));
    assert!(matches!(t.parse_impact_confirm_op(&c, "暂不同步"), Some(ImpactOp::Skip)));
    let (pending, words) = t.decide_impact(ImpactOp::Skip);
    assert!(pending.is_some());
    assert!(!words.is_empty());
    assert!(t.pending_impact.is_none());
    assert!(matches!(
        thread().maybe_offer_impact_cascade(
            false,
            &c,
            "upsert_setting",
            &args,
            &Json::object(),
            &scan
        ),
        Offer::Nothing
    ));
}

#[test]
fn chapters_are_not_skipped() {
    let c = catalog();
    let mut t = thread();
    let data = Json::object()
        .with_bool("blocked", true)
        .with_str("reason", "chapter_skip")
        .with_str("project", "demo")
        .with_u32("next_chapter", 4);
    match t.maybe_offer_chapter_order(&c, "continue_writing", &Json::object(), &data) {
        Offer::Open(card) => {
            assert_eq!(card.prompt, chapter_order_prompt(4));
            assert_eq!(card.options[0].label, "写第4章");
        },
        _ => panic!("expected a card"),
    }
    let (tool, args) = t.parse_chapter_order_op(&c, "co_next").unwrap();
    assert_eq!(tool, "continue_writing");
    assert_eq!(args.get_u64("chapter"), Some(4));
    assert_eq!(chapter_order_intro(&args), "按顺序创作第4章…");
    assert_eq!(close_chapter_order("写了".to_string(), None), "写了");
}

#[test]
fn a_draft_in_the_way_goes_to_the_studio() {
    let data = Json::object()
        .with_bool("blocked", true)
        .with_str("reason", "draft_exists_without_chapter")
        .with_str("project", "demo")
        .with_u32("chapter", 4);
    match maybe_offer_draft_exists("continue_writing", &Json::object(), &data) {
        Offer::Ask(r) => match r.context {
            StudioNextContext::DraftExists { chapter, suggest_chapter } => {
                assert_eq!((chapter, suggest_chapter), (4, 5));
            },
            _ => panic!("expected a draft"),
        },
        _ => panic!("expected a question"),
    }
    let plan = Json::object()
        .with_bool("blocked", true)
        .with_str("reason", "planned_inactive")
        .with_str("project", "demo")
        .with_str("plot_title", "夜渡");
    match maybe_offer_plot_write("continue_writing", &Json::object(), &plan, 2, "x") {
        Offer::Ask(r) => assert_eq!(r.reason, "写章被拦：剧情卡「夜渡」尚未激活"),
        _ => panic!("expected a question"),
    }
}

#[test]
fn a_published_chapter_offers_the_next() {
    let c = catalog();
    let mut t = thread();
    let data = Json::object()
        .with_bool("published", true)
        .with_str("project", "demo")
        .with_u32("chapter", 4);
    let r = t.maybe_offer_chapter_next(&c, "continue_writing", &Json::object(), &data, &no_facts());
    match r {
        Offer::Open(card) => assert!(card.prompt.contains("第4章")),
        _ => panic!("expected a card"),
    }
    let (tool, _) = t.parse_chapter_next_op(&c, "继续创作").unwrap();
    assert_eq!(tool, "continue_writing");
    assert!(rule_stop(4).contains("第4章因硬规则未发布"));
}

#[test]
fn a_setting_that_blocks_goes_to_the_studio() {
    let data = Json::object()
        .with_bool("plot_setting_blocker", true)
        .with_str("project", "demo")
        .with_u32("chapter", 4)
        .with_str("setting_blocker_detail", "缺地点");
    match maybe_offer_setting_blocker("continue_writing", &Json::object(), &data, &no_facts()) {
        Offer::Ask(r) => assert!(r.reason.contains("缺地点")),
        _ => panic!("expected a question"),
    }
}

#[test]
fn a_failed_audit_offers_its_issues() {
    let c = catalog();
    let mut t = thread();
    let data = Json::object()
        .with_bool("consistency_passed", false)
        .with_bool("needs_user_choice", true)
        .with_str("project", "demo")
        .with_u32("chapter", 4);
    let card = t.open_content_audit_gate("demo", 4, vec![issue()], false, None);
    assert!(card.options.iter().any(|o| o.id == "fix_p0-meta-1"));
    let (tool, args) = t.parse_audit_steer_op(&c, "1", false).unwrap();
    assert_eq!(tool, "steer_run");
    assert_eq!(args.get_str("choice"), Some("revise"));
    let passed = Json::object()
        .with_bool("consistency_passed", true)
        .with_str("project", "demo")
        .with_u32("chapter", 4);
    t.maybe_offer_audit_fix(&c, "audit_chapter", &Json::object(), &passed, vec![], false);
    assert!(t.pending_audit.is_none());
    t.prepare_audit_fail_for_studio("demo", 4, vec![issue()]);
    assert!(t.pending_audit.as_ref().unwrap().awaiting_offer);
    assert_eq!(extract_audit_issues(&data, None).len(), 0);
    assert!(audit_infra_prompt(4).contains("第4章"));
}

#[test]
fn an_audit_that_broke_down_offers_a_retry() {
    let c = catalog();
    let mut t = thread();
    let data = Json::object()
        .with_bool("consistency_passed", false)
        .with_str("report", "模型返回为空")
        .with_str("project", "demo")
        .with_u32("chapter", 4);
    match t.maybe_offer_audit_fix(&c, "audit_chapter", &Json::object(), &data, vec![], false) {
        AuditFix::Open { card, .. } => {
            assert_eq!(card.prompt, audit_infra_prompt(4));
            assert_eq!(card.options[0].label, "重新审计");
        },
        _ => panic!("expected a card"),
    }
    let (tool, _) = t.parse_audit_steer_op(&c, "重新审计", false).unwrap();
    assert_eq!(tool, "audit_chapter");
    assert!(t.parse_audit_steer_op(&c, "改短一点", false).is_none());
}

#[test]
fn decisions_of_the_studio_open_their_card() {
    let mut t = thread();
    t.prepare_audit_fail_for_studio("demo", 4, vec![issue()]);
    let option = Json::object()
        .with_str("id", "fix_one")
        .with_str("label", "修第一条")
        .with("issue_ids", Json::List(vec![Json::str("p0-meta-1")]));
    let args = Json::object()
        .with_str("project", "demo")
        .with_u32("chapter", 4)
        .with("options", Json::List(vec![option]));
    match t.apply_offer_decisions(&args, &args, vec![issue()], false) {
        OfferApplyResult::OpenedGate(card) => assert!(!card.options.is_empty()),
        OfferApplyResult::Rejected(e) => panic!("{}", e),
        _ => panic!("expected a card"),
    }
}

#[test]
fn todos_come_from_the_data_or_the_queue() {
    let item = Json::object().with_str("content", "审第1章").with_str("status", "pending");
    let data = Json::object().with("todos", Json::List(vec![item]));
    assert_eq!(todos_from_data(&data, None).len(), 1);
    assert_eq!(todos_from_data(&Json::object(), None).len(), 0);
}

fn bounds() -> Vec<VolumeBound> {
    vec![
        VolumeBound { volume_index: 1, name: "起".to_string(), completed: true },
        VolumeBound { volume_index: 2, name: "承".to_string(), completed: false },
    ]
}

#[test]
fn volumes_follow_each_other() {
    assert_eq!(handoff_target_volume(&bounds()), 2);
    assert_eq!(handoff_plot_title(&bounds(), 2), "第2卷·承·开局");
    assert_eq!(handoff_plot_title(&vec![], 2), "第2卷开局");
    assert_eq!(label_of(3, ""), "第3卷");
    assert_eq!(label_of(3, "转"), "第3卷「转」");
    assert!(!name_chapters(&vec![1, 2]).is_empty());
    assert_eq!(
        prompt_of_handoff(VolumePhase::AwaitingNextArc, 2, None),
        "卷间交接：请先设计第2卷卷纲，再开剧情卡写章。"
    );
}

#[test]
fn an_ended_volume_asks_to_be_closed() {
    let c = catalog();
    let mut t = thread();
    let data = Json::object()
        .with_u32("volume_ended", 1)
        .with_str("volume_ended_name", "起")
        .with_str("project", "demo");
    match t.maybe_offer_volume_sync(&c, "continue_writing", &Json::object(), &data, "") {
        Offer::Open(card) => assert!(card.prompt.contains("第1卷「起」")),
        _ => panic!("expected a card"),
    }
    let (tool, args) = t.parse_volume_sync_op(&c, "同步设定库", None, false).unwrap();
    assert_eq!(tool, "sync_volume");
    assert_eq!(args.get_u64("volume"), Some(1));
    let taken = t.take_volume_sync();
    let failed = Json::object().with_bool("blocked", true);
    match t.end_volume_sync(&c, taken, &tool, &args, "失败", &failed) {
        SyncEnd::Again { summary, .. } => assert!(summary.contains("同步失败")),
        SyncEnd::Done(_) => panic!("expected to wait again"),
    }
    assert!(t.pending_volume_sync.is_some());
    let taken = t.take_volume_sync();
    match t.end_volume_sync(&c, taken, &tool, &args, "好", &Json::object().with_u32("volume_index", 1)) {
        SyncEnd::Done(w) => assert!(w.contains("好")),
        SyncEnd::Again { .. } => panic!("expected an end"),
    }
    assert!(t.pending_volume_sync.is_none());
}

#[test]
fn closing_a_volume_can_be_put_off() {
    let p = PendingVolumeSync {
        project: "demo".to_string(),
        volume: 1,
        name: String::new(),
        deferred_setting_blocker: None,
    };
    let (effect, words) = skip_volume_sync(Some(&p), None, false);
    assert!(matches!(effect, SkipEffect::MoveOn));
    assert!(words.starts_with("已跳过卷末设定同步。"));
    assert!(matches!(skip_volume_sync(Some(&p), None, true).0, SkipEffect::Reopen(1)));
    assert!(matches!(skip_volume_sync(None, None, false).0, SkipEffect::NoProject));
}

#[test]
fn a_handoff_that_failed_waits_again() {
    let c = catalog();
    let mut t = thread();
    let facts =
        VolumeFacts { phase: VolumePhase::AwaitingNextArc, bounds: bounds(), false_end: false };
    let r = t.offer_volume_handoff_gate(true, &c, "demo", VolumePhase::AwaitingNextArc, &facts, None);
    assert!(matches!(r, Offer::Open(_)));
    let (tool, args) = t.parse_volume_handoff_op(&c, "设计下卷卷纲").unwrap();
    assert_eq!(tool, "design_arc_outline");
    assert_eq!(args.get_u64("volume"), Some(2));
    assert_eq!(volume_handoff_intro(&tool), "已收到选择，正在设计下卷卷纲…");
    let taken = t.take_handoff();
    assert!(t.pending_volume_handoff.is_none());
    let data = Json::object().with_bool("blocked", true).with_str("audit_summary", "冲突");
    match t.end_handoff(taken, &tool, "没成", &data) {
        HandoffEnd::Failed { error, .. } => assert_eq!(error, "冲突"),
        _ => panic!("expected a failure"),
    }
    assert!(t.pending_volume_handoff.is_some());
    let again = handoff_call_args("design_plot", Json::object(), "冲突");
    assert!(again.get_str("brief").unwrap().contains("冲突"));
    assert!(close_handoff(&Json::object()).contains("请选择下一步"));
}

fn step() -> SetupStep {
    SetupStep {
        name: "confirm".to_string(),
        gate: "setup_confirm".to_string(),
        prompt: "请确认定稿".to_string(),
    }
}

#[test]
fn the_setup_is_confirmed() {
    let c = catalog();
    let mut t = thread();
    assert!(matches!(t.offer_setup_gate(&c, "demo", &step()), Offer::Open(_)));
    let (tool, args) = t.parse_setup_op(&c, "确认定稿", &step()).unwrap();
    assert_eq!(tool, "confirm_setup");
    assert_eq!(args.get_str("action"), Some("approve"));
    assert_eq!(setup_step_intro(&tool), "已收到选择，正在处理定稿…");
    assert!(t.take_setup().is_some());
    assert!(t.pending_setup.is_none());
}

fn no_draft() -> NextChapter {
    NextChapter { next_chapter: Some(4), draft_chars: 0, draft_min_chars: 200 }
}

fn facts<'a>(s: &'a SetupStep, messages: &'a Vec<String>, next: &'a NextChapter) -> TurnFacts<'a> {
    TurnFacts {
        studio_pick: false,
        setup_step: s,
        manual_sync: false,
        soft_target: None,
        queue_active: false,
        audit_queue_active: false,
        asks_to_continue: false,
        messages,
        next,
        deterministic_intents: true,
    }
}

#[test]
fn an_open_change_is_read_first() {
    let c = catalog();
    let (s, m, n) = (step(), vec![], no_draft());
    let mut t = thread();
    t.maybe_offer_mutation_confirm(&c, &change());
    let r = t.route_request(&c, &IntentRouter::empty(), "应用修改", &facts(&s, &m, &n));
    assert!(matches!(r, Route::Mutation(_, _)));
}

#[test]
fn words_without_a_card_are_talked_about() {
    let c = catalog();
    let (s, m, n) = (step(), vec![], no_draft());
    let mut t = thread();
    let r = t.route_request(&c, &IntentRouter::empty(), "你好", &facts(&s, &m, &n));
    assert!(matches!(r, Route::Converse));
    let r = t.route_request(&c, &IntentRouter::empty(), "接受问题", &facts(&s, &m, &n));
    assert!(matches!(r, Route::KeepText));
    let r = t.route_request(&c, &IntentRouter::empty(), "跳过，审下一章", &facts(&s, &m, &n));
    assert!(matches!(r, Route::QueueGone));
}

#[test]
fn the_outline_is_rebuilt_before_a_chapter_is_written() {
    let c = catalog();
    let (s, m, n) = (step(), vec![], no_draft());
    let mut t = thread();
    t.outline_rewrite_active = true;
    let mut f = facts(&s, &m, &n);
    f.asks_to_continue = true;
    let r = t.route_request(&c, &IntentRouter::empty(), "继续", &f);
    assert!(matches!(r, Route::OutlineFirst(_)));
    t.outline_rewrite_active = false;
    let r = t.route_request(&c, &IntentRouter::empty(), "继续", &f);
    match r {
        Route::Request(q) => assert_eq!(q.tool, "continue_writing"),
        _ => panic!("expected a chapter"),
    }
}

#[test]
fn an_open_card_is_shown_and_restored() {
    let c = catalog();
    let mut t = thread();
    assert!(t.build_open_gate_dto(&c, &step(), false).is_none());
    t.maybe_offer_mutation_confirm(&c, &change());
    let g = t.build_open_gate_dto(&c, &step(), false).unwrap();
    assert_eq!(g.kind, "confirm_mutation");
    assert_eq!(g.prompt, "待确认：将写入设定卡「甲」");
    assert!(t.snapshot_gate(false, &c, &step(), false).is_some());
    assert!(t.pending_gate_card(&c, &step(), false).is_some());
    assert!(matches!(thread().timeline_treatment(false), TimelineRule::StripButtons));
}

#[test]
fn restoring_keeps_an_open_change() {
    let c = catalog();
    let mut t = thread();
    t.maybe_offer_mutation_confirm(&c, &change());
    t.reconcile_phase_gates(
        true,
        true,
        None,
        false,
        &drafting(),
        VolumePhase::DraftingVolume,
        Some(3),
    );
    assert!(t.pending_mutation.is_some());
    let q = AuditQueueFacts {
        finished: false,
        current_chapter: Some(2),
        current_failed: true,
        value: Json::object(),
        todos: Json::List(vec![]),
    };
    let mut u = thread();
    u.reconcile_orphan_audit_queue(Some(&q), vec![issue()]);
    u.reconcile_orphan_audit_queue(None, vec![]);
    let r = thread().maybe_reoffer_queue_gate(&c, None, vec![]);
    assert!(matches!(r, AuditFix::Nothing));
}

#[test]
fn a_revision_is_audited_after_it_was_steered() {
    let args = Json::object()
        .with_str("project", "demo")
        .with_u32("chapter", 4)
        .with_str("choice", "revise");
    match after_steer("steer_run", &args, &Json::object(), false, true) {
        SteerNext::Reaudit(call, n) => {
            assert_eq!(n, 4);
            assert_eq!(call.get_str("project"), Some("demo"));
        },
        _ => panic!("expected an audit"),
    }
    let accept = Json::object().with_str("project", "demo").with_str("choice", "accept");
    assert!(matches!(
        after_steer("steer_run", &accept, &Json::object(), false, true),
        SteerNext::Nothing
    ));
    let f = SteerFacts::of("steer_run", &accept, &Json::object());
    assert!(f.accepted);
    assert_eq!(
        f.closing(),
        "\n\n已接受问题，审校门控已关闭。可说「继续」写下一章，或手动 audit_chapter 复审。"
    );
    assert_eq!(
        audit_steer_intro("steer_run", Some("demo")),
        "已收到选择，正在对《demo》执行 steer_run…"
    );
    let (call, words) = polish_call("demo", 4, "改紧凑");
    assert_eq!(call.get_str("instructions"), Some("改紧凑"));
    assert_eq!(words, "按上一轮审校改进项，准备局部修订第4章（《demo》）…");
}

#[test]
fn choices_are_turned_into_calls() {
    assert!(is_confirmed_by_choice("continue_writing"));
    assert!(!is_confirmed_by_choice("revise_chapter"));
    let args = Json::object().with_u32("chapter", 4);
    assert_eq!(project_named(&args, Some("demo")), "demo");
    let (tool, call) = choice_call("revise_chapter", &args, Some("demo"), true);
    assert_eq!(tool, "audit_chapter");
    assert_eq!(call.get_u64("chapter"), Some(4));
    let (tool, _) = choice_call("revise_chapter", &args, Some("demo"), false);
    assert_eq!(tool, "revise_chapter");
    assert_eq!(
        chapter_choice_intro(None, "continue_writing", Some("demo")),
        "已识别指令，正在对《demo》执行 continue_writing…"
    );
    assert_eq!(
        known_request_intro("list_plots", &Json::object(), Some("demo")),
        "正在核对《demo》的剧情进度…"
    );
    let drafted = NextChapter { next_chapter: Some(4), draft_chars: 5000, draft_min_chars: 200 };
    let bare = Json::object();
    let (words, request) =
        draft_blocks_choice("continue_writing", &bare, Some("demo"), &drafted).unwrap();
    assert!(words.contains("第4章已有正文（约 5000 字）"));
    assert_eq!(request.project, "demo");
    assert!(draft_blocks_choice("continue_writing", &bare, Some("demo"), &no_draft()).is_none());
    let data = Json::object().with_u32("next_chapter", 4);
    assert_eq!(
        summarize_with_card(
            ChainPath::Request,
            "x",
            Some(OfferKind::Order),
            &data,
            "",
            false
        ),
        "不能跳章。请先写第4章。"
    );
}

#[test]
fn a_choice_between_buttons_of_the_studio_waits() {
    let mut t = thread();
    t.awaiting_studio_next = true;
    t.begin_new_chapter();
    assert!(!t.awaiting_studio_next);
    let o = UserInputOption { id: "a".to_string(), label: "甲".to_string() };
    assert_eq!(o.copy().label, "甲");
}
