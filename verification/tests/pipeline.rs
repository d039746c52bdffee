//! Tool rounds, the spread of a change, progress, and which chapter is meant.

use novelx::cascade::{
    entity_kind_of, entity_slug_of, resolve_entity_hit_name, CascadeRun, EntityCard, ToolOutcome,
};
use novelx::impact::{consolidate_impact_hits, ImpactHit, ImpactSource, ImpactTargetKind};
use novelx::issues::AuditIssue;
use novelx::json::Json;
use novelx::picks::draft_blocks_choice;
use novelx::progress::{closing_delta, ProgressBuffer, FLUSH_BYTES};
use novelx::thread_state::{AuditGateKind, PendingAudit, ThreadState};
use novelx::threads::{is_superseded, outlives_fresh_start, plan_thread, SpawnPlan, ThreadEntry};
use novelx::tool_loop::{
    cards_to_try, choose_closing, demand_offer, failed_audit_place, is_content_failure, note_unrun,
    refuse_offer, trust_author_only, CallCards, CallStep, ModelCall, ReplyStep, SaidMessage,
    ToolLoop, MAX_TOOL_ROUNDS,
};
use novelx::writing::{
    bare_continue_write_intent, clarify_bare_continue, continue_writing_should_clear_history,
    draft_exists_meta, next_chapter_draft_chars, resolve_continue_chapter, soft_revise_target_chapter, ClearFacts,
    NextChapter, ProjectCounts,
};

fn call(name: &str, args: Json) -> ModelCall {
    ModelCall { id: "c1".to_string(), name: name.to_string(), args }
}

#[test]
fn rounds_come_to_an_end() {
    let mut l = ToolLoop::new();
    let mut n = 0;
    while l.begin_round() {
        n += 1;
        assert!(n <= MAX_TOOL_ROUNDS);
    }
    assert_eq!(n, MAX_TOOL_ROUNDS);
}

#[test]
fn a_reply_without_calls_finishes() {
    let mut l = ToolLoop::new();
    assert!(l.begin_round());
    assert!(matches!(l.on_reply("好了", &vec![], false, Some("demo")), ReplyStep::Finish));
    assert_eq!(l.said(), "好了");
}

#[test]
fn work_that_was_asked_for_is_demanded_once() {
    let mut l = ToolLoop::new();
    assert!(l.begin_round());
    let calls = vec![call("list_projects", Json::object())];
    assert!(matches!(l.on_reply("", &calls, true, Some("demo")), ReplyStep::Run));
    assert!(l.begin_round());
    match l.on_reply("我会写的", &vec![], true, Some("demo")) {
        ReplyStep::Nudge(words) => assert!(words.contains("demo")),
        _ => panic!("expected a reminder"),
    }
    assert!(l.begin_round());
    assert!(matches!(l.on_reply("我会写的", &vec![], true, Some("demo")), ReplyStep::Finish));
}

#[test]
fn calls_are_run() {
    let mut l = ToolLoop::new();
    assert!(l.begin_round());
    let calls = vec![call("continue_writing", Json::object())];
    assert!(matches!(l.on_reply("", &calls, true, Some("demo")), ReplyStep::Run));
}

#[test]
fn reading_the_same_thing_again_is_stopped() {
    let mut l = ToolLoop::new();
    let mut skipped = false;
    while l.begin_round() {
        let calls = vec![call("list_projects", Json::object())];
        match l.on_reply("", &calls, false, Some("demo")) {
            ReplyStep::Skip { .. } => {
                skipped = true;
                break;
            },
            _ => {},
        }
    }
    assert!(skipped);
}

#[test]
fn only_the_author_names_a_chapter() {
    let made_up = Json::object().with_str("project", "demo").with_u32("chapter", 9);
    let kept = trust_author_only("continue_writing", made_up, "继续");
    assert_eq!(kept.get_u64("chapter"), None);
    let named = trust_author_only("continue_writing", Json::object(), "写第7章");
    assert_eq!(named.get_u64("chapter"), Some(7));
    let other = Json::object().with_u32("chapter", 9);
    assert_eq!(trust_author_only("audit_chapter", other, "继续").get_u64("chapter"), Some(9));
}

#[test]
fn a_failed_audit_wants_a_card() {
    let data = Json::object()
        .with_str("project", "demo")
        .with_u32("chapter", 4)
        .with_bool("consistency_passed", false);
    if is_content_failure("audit_chapter", &data) {
        let place = failed_audit_place("audit_chapter", &Json::object(), &data);
        assert_eq!(place, Some(("demo".to_string(), 4)));
    } else {
        panic!("expected a failure");
    }
    assert!(!is_content_failure("list_plots", &data));
    assert!(demand_offer().contains("offer_decisions"));
    assert!(refuse_offer("缺少选项").contains("缺少选项"));
}

#[test]
fn an_open_card_pauses_the_round() {
    let mut l = ToolLoop::new();
    assert!(l.begin_round());
    let none = CallCards { audit: false, chain: false, draft: false, next: false };
    assert!(matches!(l.after_call("list_plots", false, &none), CallStep::NextCall));
    assert!(!l.is_paused());
    let opened = CallCards { audit: false, chain: true, draft: false, next: false };
    assert!(matches!(l.after_call("upsert_setting", false, &opened), CallStep::Pause));
    assert!(l.is_paused());
}

#[test]
fn one_chapter_is_written_a_round() {
    let mut l = ToolLoop::new();
    assert!(l.begin_round());
    let none = CallCards { audit: false, chain: false, draft: false, next: false };
    assert!(matches!(l.after_call("continue_writing", false, &none), CallStep::Pause));
    let mut m = ToolLoop::new();
    assert!(m.begin_round());
    m.await_offer();
    assert!(m.is_awaiting_offer());
    assert!(matches!(m.after_call("continue_writing", true, &none), CallStep::EndBatch));
    assert!(!m.is_paused());
    m.offer_opened();
    assert!(!m.is_awaiting_offer());
    assert!(note_unrun(true, "list_plots").contains("跳过 list_plots"));
    assert!(note_unrun(false, "list_plots").contains("offer_decisions"));
}

#[test]
fn a_demanded_card_opens_by_itself() {
    let mut t = ThreadState::new(Some("demo".to_string()));
    t.pending_audit = Some(PendingAudit {
        project: "demo".to_string(),
        chapter: 4,
        kind: AuditGateKind::Content,
        issues: vec![AuditIssue {
            id: Some("a".to_string()),
            priority: "P0".to_string(),
            kind: "META".to_string(),
            message: Some("x".to_string()),
            location: String::new(),
            quote: String::new(),
        }],
        decision_options: vec![],
        awaiting_offer: true,
    });
    let card = t.open_audit_offer_fallback(true, vec![], false).unwrap();
    assert!(card.options.len() > 0);
    assert!(!t.pending_audit.as_ref().unwrap().awaiting_offer);
    assert!(t.open_audit_offer_fallback(true, vec![], false).is_none());
}

#[test]
fn the_last_words_are_kept() {
    let messages =
        vec![SaidMessage { role: "assistant".to_string(), content: "旧的".to_string() }];
    assert_eq!(choose_closing("新的", &messages, &Json::Null, "t", "i"), "新的");
}

fn hit(kind: ImpactTargetKind, word: &str, rank: u32, target: &str, chapter: Option<u32>) -> ImpactHit {
    ImpactHit {
        target_kind: kind,
        kind_word: word.to_string(),
        rank,
        target_ref: target.to_string(),
        chapter,
        volume: None,
        quote: "原句".to_string(),
        matched_key: "甲".to_string(),
        reason: "改名".to_string(),
        entity_kind: String::new(),
        entity_name: String::new(),
    }
}

fn source() -> ImpactSource {
    ImpactSource {
        id: "s1".to_string(),
        kind_word: "setting".to_string(),
        before_snippet: "甲".to_string(),
        after_snippet: "乙".to_string(),
    }
}

#[test]
fn hits_are_merged_by_place() {
    let hits = vec![
        hit(ImpactTargetKind::Draft, "draft", 3, "chapters/002/draft.md", Some(2)),
        hit(ImpactTargetKind::Outline, "outline", 2, "chapters/001/outline.json", Some(1)),
        hit(ImpactTargetKind::Draft, "draft", 3, "chapters/002/draft.md", Some(2)),
    ];
    let merged = consolidate_impact_hits(&hits);
    assert_eq!(merged.len(), 2);
    assert!(merged[0].rank <= merged[1].rank);
}

#[test]
fn every_place_leaves_a_line() {
    let hits = vec![
        hit(ImpactTargetKind::Draft, "draft", 3, "chapters/002/draft.md", Some(2)),
        hit(ImpactTargetKind::Outline, "outline", 2, "chapters/001/outline.json", Some(1)),
    ];
    let mut run = CascadeRun::start("demo", source(), &hits);
    let mut calls = 0;
    while let Some((tool, args)) = run.next() {
        assert!(!tool.is_empty());
        assert_eq!(args.get_str("project"), Some("demo"));
        calls += 1;
        if calls == 1 {
            run.ran(&ToolOutcome::Ran { output: "好".to_string(), data: Json::object() });
        } else {
            run.ran(&ToolOutcome::Failed("坏".to_string()));
        }
    }
    assert_eq!(calls, 2);
    assert!(run.summary().contains("坏"));
    for n in run.chapters_to_reaudit() {
        run.reaudited(n);
    }
}

#[test]
fn cards_behind_a_path() {
    assert_eq!(entity_kind_of("entities/characters/jia.md"), "character");
    assert_eq!(entity_slug_of("entities/characters/jia.md"), "jia");
    let cards =
        vec![EntityCard { slug: "jia".to_string(), name: "甲".to_string(), alike: false }];
    let (kind, name) = resolve_entity_hit_name("entities/characters/jia.md", &cards);
    assert_eq!(kind, "character");
    assert_eq!(name, "甲");
}

#[test]
fn progress_is_sent_in_pieces_and_nothing_is_lost() {
    let mut b = ProgressBuffer::new();
    assert_eq!(b.push("abc"), None);
    let long = "x".repeat(FLUSH_BYTES);
    let sent = b.push(&long).unwrap();
    assert_eq!(sent, format!("abc{long}"));
    assert_eq!(b.push("end"), None);
    assert_eq!(b.flush().as_deref(), Some("end"));
    assert_eq!(b.flush(), None);
    assert_eq!(b.streamed(), format!("abc{long}end"));
    assert_eq!(closing_delta("", "结果").as_deref(), Some("结果"));
}

fn next(chapter: Option<u32>, chars: usize) -> NextChapter {
    NextChapter { next_chapter: chapter, draft_chars: chars, draft_min_chars: 200 }
}

#[test]
fn the_chapter_to_write_is_the_named_or_the_next() {
    let named = Json::object().with_u32("chapter", 9);
    assert_eq!(resolve_continue_chapter("demo", &named, Some(4)), 9);
    assert_eq!(resolve_continue_chapter("demo", &Json::object(), Some(4)), 4);
    assert_eq!(resolve_continue_chapter("demo", &Json::object(), None), 1);
}

#[test]
fn a_bare_continue_writes_or_asks() {
    let empty = next(Some(4), 0);
    let m = bare_continue_write_intent(Some("demo"), true, &empty).unwrap();
    assert_eq!(m.tool, "continue_writing");
    assert!(clarify_bare_continue(true, &empty).is_none());
    let drafted = next(Some(4), 5000);
    assert!(bare_continue_write_intent(Some("demo"), true, &drafted).is_none());
    let words = clarify_bare_continue(true, &drafted).unwrap();
    assert!(words.contains("第4章"));
    assert_eq!(draft_exists_meta(&drafted), (4, 5000, 5));
    assert!(bare_continue_write_intent(Some("demo"), false, &empty).is_none());
}

#[test]
fn a_project_without_a_state_has_no_next_draft() {
    let n = next(None, 500);
    assert_eq!(next_chapter_draft_chars(&n), 0);
    assert_eq!(next_chapter_draft_chars(&next(Some(4), 500)), 500);
    assert!(draft_blocks_choice("continue_writing", &Json::object(), Some("demo"), &n).is_none());
    assert!(bare_continue_write_intent(Some("demo"), true, &n).is_none());
    let words = clarify_bare_continue(true, &n).unwrap();
    assert!(words.contains("第1章已有正文（约 500 字）"));
    let facts = ClearFacts {
        may_write: true,
        require_confirm: false,
        confirm_skipped: false,
        intends_new_chapter: false,
        bare_continue: true,
        chapter_draft_chars: 500,
    };
    let named = Json::object().with_u32("chapter", 1);
    assert!(continue_writing_should_clear_history("demo", &named, &facts, &n));
    assert!(!continue_writing_should_clear_history("demo", &named, &facts, &next(Some(1), 500)));
}

#[test]
fn cards_after_a_call() {
    assert_eq!(cards_to_try("continue_writing", false), (true, true));
    assert_eq!(cards_to_try("audit_chapter", false), (false, true));
    assert_eq!(cards_to_try("list_plots", false), (false, false));
    assert_eq!(cards_to_try("continue_writing", true), (false, false));
}

#[test]
fn history_is_cleared_only_for_a_new_chapter() {
    let facts = ClearFacts {
        may_write: true,
        require_confirm: false,
        confirm_skipped: false,
        intends_new_chapter: true,
        bare_continue: false,
        chapter_draft_chars: 0,
    };
    let named = Json::object().with_u32("chapter", 4);
    assert!(continue_writing_should_clear_history("demo", &named, &facts, &next(Some(4), 0)));
    let blocked = ClearFacts { may_write: false, ..facts };
    assert!(!continue_writing_should_clear_history("demo", &named, &blocked, &next(Some(4), 0)));
}

#[test]
fn the_newest_audited_chapter_is_revised() {
    let counts = ProjectCounts { published_count: 3, next_chapter: 4 };
    let r = soft_revise_target_chapter("demo", Some(counts), &vec![1, 3, 2], false);
    assert_eq!(r, Some(3));
    assert_eq!(soft_revise_target_chapter("", None, &vec![], false), None);
}

#[test]
fn a_new_chapter_starts_a_new_dialogue() {
    let mut t = ThreadState::new(Some("demo".to_string()));
    t.outline_rewrite_active = true;
    let (notice, kept) = t.begin_new_chapter_history("demo", 4, "写第4章");
    assert!(notice.contains("4"));
    assert_eq!(kept.as_deref(), Some("写第4章"));
    assert!(!t.thread_awaiting_human());
}

#[test]
fn only_root_threads_of_a_project_are_stored() {
    let threads = vec![
        ThreadEntry { id: "a".to_string(), project: Some("demo".to_string()), root: true },
        ThreadEntry { id: "b".to_string(), project: Some("demo".to_string()), root: true },
        ThreadEntry { id: "c".to_string(), project: Some("other".to_string()), root: true },
    ];
    assert!(is_superseded(&threads, "a", Some("demo")));
    assert!(!is_superseded(&threads, "c", Some("other")));
    assert!(!is_superseded(&threads, "a", None));
    assert!(!outlives_fresh_start(&threads[0], "demo"));
    assert!(outlives_fresh_start(&threads[2], "demo"));
    assert!(matches!(plan_thread(Some("demo"), true, true, true), SpawnPlan::ClearAndBegin));
    assert!(matches!(plan_thread(Some("demo"), false, true, true), SpawnPlan::Resume));
    assert!(matches!(plan_thread(None, false, true, false), SpawnPlan::Begin));
}
