//! Turns, the input that waits for them, and the mail between agents.

use novelx::agent::registry::{
    max_children, max_spawn_depth, pipeline_mode_spawn_forbidden, skill_name_for_role,
    spawn_denied_message,
};
use novelx::agent::{AgentFacts, AgentHub, PipelineRun, SubagentJob};
use novelx::json::Json;
use novelx::protocol::{one_text, InterAgentCommunication, InterAgentKind, UserInput};
use novelx::runtime::{
    finish_step, join_steer, looks_again, plan_headless, plan_step, waits_for_turn,
    RunMode, StepOutcome,
};
use novelx::session::handlers::{Op, Session};
use novelx::session::input_queue::{InputQueue, TurnInput};
use novelx::session::TurnGate;

fn steer(text: &str) -> TurnInput {
    TurnInput::UserInput { content: vec![UserInput::text(text)] }
}

fn letter(trigger_turn: bool) -> InterAgentCommunication {
    InterAgentCommunication {
        author_thread_id: "a".to_string(),
        recipient_thread_id: "b".to_string(),
        content: "hi".to_string(),
        trigger_turn,
        kind: InterAgentKind::Message,
    }
}

#[test]
fn pending_steer_drains() {
    let mut q = InputQueue::new();
    q.extend_pending_input(vec![steer("steer me")]);
    assert!(q.has_pending_input());
    let drained = q.drain_pending_input();
    assert_eq!(drained.len(), 1);
    assert!(!q.has_pending_input());
}

#[test]
fn mailbox_enqueue_drain() {
    let mut q = InputQueue::new();
    q.enqueue_mailbox(letter(true));
    let mails = q.drain_mailbox();
    assert_eq!(mails.len(), 1);
    assert_eq!(mails[0].content, "hi");
    assert!(q.drain_mailbox().is_empty());
}

#[test]
fn active_steer_queues_without_consuming_loop() {
    let mut q = InputQueue::new();
    q.extend_pending_input(vec![steer("mid-turn")]);
    assert!(q.has_pending_input());
    let drained = q.drain_pending_input();
    match &drained[0] {
        TurnInput::UserInput { content } => {
            match &content[0] {
                UserInput::Text { text } => assert_eq!(text, "mid-turn"),
                UserInput::Skill { .. } => panic!("expected a text"),
            }
        },
    }
}

#[test]
fn try_begin_rejects_concurrent() {
    let mut g = TurnGate::new();
    assert!(g.try_begin("t1".to_string()));
    assert!(!g.try_begin("t2".to_string()));
    assert_eq!(g.active_id().as_deref(), Some("t1"));
    g.end();
    assert!(g.try_begin("t3".to_string()));
}

#[test]
fn end_if_does_not_clear_other_turn() {
    let mut g = TurnGate::new();
    assert!(g.try_begin("old".to_string()));
    g.end_if("old");
    assert!(g.try_begin("new".to_string()));
    g.end_if("old");
    assert_eq!(g.active_id().as_deref(), Some("new"));
    g.begin("old".to_string());
    assert_eq!(g.active_id().as_deref(), Some("new"));
    g.end_if("new");
    assert!(!g.has_active());
}

#[test]
fn rejects_chapter_plus_pipeline_mode() {
    assert!(pipeline_mode_spawn_forbidden(Some(3), Some("continue")).is_some());
    assert!(pipeline_mode_spawn_forbidden(Some(1), Some("revise")).is_some());
    assert!(pipeline_mode_spawn_forbidden(Some(2), Some("audit_only")).is_some());
}

#[test]
fn allows_specialist_without_pipeline_mode() {
    assert!(pipeline_mode_spawn_forbidden(Some(3), None).is_none());
    assert!(pipeline_mode_spawn_forbidden(None, Some("continue")).is_none());
    assert!(pipeline_mode_spawn_forbidden(Some(1), Some("polish")).is_none());
}

#[test]
fn refusals_say_what_to_do_instead() {
    let msg = spawn_denied_message("writer", None);
    assert!(msg.contains("writer"));
    assert_eq!(max_spawn_depth(), 4);
    assert_eq!(max_children(), 32);
    assert!(!skill_name_for_role("writer").is_empty());
}

#[test]
fn additions_become_one_message() {
    let said: Vec<String> = ["第一句", "  ", "第二句"].iter().map(|s| s.to_string()).collect();
    assert_eq!(join_steer(&said).as_deref(), Some("第一句\n第二句"));
    assert_eq!(join_steer(&vec![" \n ".to_string()]), None);
    assert_eq!(join_steer(&vec![]), None);
}

#[test]
fn a_second_request_waits_for_the_first() {
    let mut s = Session::new();
    let first = s.user_input_or_turn("t1".to_string(), one_text("写第3章"), vec![]);
    assert!(first.start.is_some());
    let second = s.user_input_or_turn("t2".to_string(), one_text("再快点"), vec![]);
    assert!(second.start.is_none());
    assert!(s.queue.has_pending_input());
    assert_eq!(s.gate.active_id().as_deref(), Some("t1"));
}

#[test]
fn an_interrupt_aborts() {
    let mut s = Session::new();
    let o = s
        .dispatch_one("sub".to_string(), "fresh".to_string(), Op::InterruptTurn { turn_id: None });
    match o {
        Ok(o) => assert!(o.abort),
        Err(e) => panic!("{}", e),
    }
}

#[test]
fn mail_that_triggers_starts_a_turn() {
    let mut s = Session::new();
    assert!(s.handle_mailbox(letter(true), "fresh".to_string()).start.is_some());
    let mut t = Session::new();
    assert!(t.handle_mailbox(letter(false), "fresh".to_string()).start.is_none());
}

#[test]
fn senders_of_input_wait_for_the_turn() {
    assert!(waits_for_turn(&Op::UserInput { items: vec![], skills: vec![] }));
    assert!(waits_for_turn(&Op::SteerTurn { text: "x".to_string(), turn_id: None }));
    assert!(!waits_for_turn(&Op::InterruptTurn { turn_id: None }));
    assert!(!waits_for_turn(&Op::Shutdown));
    assert!(looks_again(true, 599));
    assert!(!looks_again(true, 600));
    assert!(!looks_again(false, 0));
}

fn job(project: Option<&str>, chapter: Option<u32>, mode: Option<&str>) -> SubagentJob {
    SubagentJob {
        role: "literary_editor".to_string(),
        task: "读第3章".to_string(),
        project: project.map(|s| s.to_string()),
        chapter,
        mode: mode.map(|s| s.to_string()),
        revision: mode.map(|s| Json::object().with_str("user_instructions", s)),
    }
}

#[test]
fn a_job_without_a_place_takes_the_threads() {
    let p = plan_step(&job(None, None, None), Some("demo"));
    assert_eq!(p.project, "demo");
    assert_eq!(p.chapter, 1);
    assert_eq!(p.mode, RunMode::Continue);
    assert!(p.revision.is_none());
    let p = plan_step(&job(Some("own"), Some(7), Some("revise")), Some("demo"));
    assert_eq!(p.project, "own");
    assert_eq!(p.chapter, 7);
    assert_eq!(p.mode, RunMode::Revise);
    assert_eq!(p.revision.unwrap().get_str("user_instructions"), Some("revise"));
    assert_eq!(plan_step(&job(None, None, Some("audit_only")), None).mode, RunMode::AuditOnly);
}

fn run() -> PipelineRun {
    PipelineRun {
        project: "demo".to_string(),
        chapter: 3,
        consistency_passed: Json::Bool(true),
        needs_user_choice: false,
        revision_applied_via_patch: Json::Null,
        report: Json::Null,
        status: Json::str("ok"),
        volume_ended: Json::Null,
        volume_ended_name: Json::Null,
        volume_ended_start: Json::Null,
        volume_ended_end: Json::Null,
        plots_completed: Json::Null,
        plot_setting_blocker: false,
    }
}

#[test]
fn a_failed_step_still_answers_those_who_wait() {
    let mut hub = AgentHub::new();
    let o = StepOutcome::Failed { error: "boom".to_string() };
    let r = finish_step(&mut hub, "child", Some("parent"), "writer", &o);
    assert_eq!(r.summary, "writer failed: boom");
    assert!(!r.completed);
    assert_eq!(r.mail.unwrap().recipient_thread_id, "parent");
    let kept = hub.result_of("child").unwrap();
    assert_eq!(kept.summary, "writer failed: boom");
    assert_eq!(kept.data.get_str("error"), Some("boom"));
    assert_eq!(kept.data.get_bool("step_ran"), Some(false));
    assert!(hub.result_of("other").is_none());
}

#[test]
fn a_silent_step_is_said_to_be_done() {
    let mut hub = AgentHub::new();
    let o = StepOutcome::Ran { said: Some(String::new()), run: run() };
    let r = finish_step(&mut hub, "child", None, "editor", &o);
    assert_eq!(r.summary, "editor completed");
    assert!(r.completed);
    assert!(r.mail.is_none());
    assert_eq!(hub.result_of("child").unwrap().data.get_u64("chapter"), Some(3));
}

#[test]
fn instructions_make_a_run_a_revision() {
    let p = plan_headless(false, Some("加长".to_string()));
    assert_eq!(p.mode, RunMode::Continue);
    assert!(p.revision_mode);
    assert!(p.prefer_local_patch);
    assert!(!plan_headless(false, None).revision_mode);
    assert_eq!(plan_headless(true, None).mode, RunMode::Revise);
}

#[test]
fn sub_agents_are_listed_in_order() {
    let mut hub = AgentHub::new();
    hub.register_child("p", "c1");
    hub.register_child("p", "c2");
    let known = vec![
        AgentFacts {
            thread_id: "c2".to_string(),
            role: Some("editor".to_string()),
            agent_path: "/root/editor".to_string(),
            lifecycle: "Running".to_string(),
        },
        AgentFacts {
            thread_id: "c1".to_string(),
            role: None,
            agent_path: "/root/x".to_string(),
            lifecycle: "Completed".to_string(),
        },
    ];
    let list = hub.list_agents("p", &known);
    assert_eq!(list.len(), 2);
    assert_eq!(list[0].thread_id, "c1");
    assert_eq!(list[0].role, "");
    assert_eq!(list[1].lifecycle, "running");
    assert!(hub.list_agents("nobody", &known).is_empty());
}
