//! The council that decides on a failed audit without asking.

use novelx::decision_council::{
    aggregate_audit, ballot_from_consistency, ballot_from_pacing, ballot_from_plot_acceptor,
    evaluate_audit_content, next_same_type_streak, verdict_journal_data, CouncilAction,
    CouncilSeverity, CouncilVote, DecisionCouncilConfig, JuryBallot, KindConfig, RevisePlan,
};
use novelx::issues::AuditIssue;
use novelx::json::Json;

fn issue(id: &str, kind: &str, message: &str, quote: &str) -> AuditIssue {
    AuditIssue {
        id: Some(id.to_string()),
        priority: "P0".to_string(),
        kind: kind.to_string(),
        message: Some(message.to_string()),
        location: String::new(),
        quote: quote.to_string(),
    }
}

fn p0_issue(id: &str) -> AuditIssue {
    issue(id, "TIMELINE", "时间互斥", "昨天")
}

fn failed() -> Json {
    Json::object().with_bool("consistency_passed", false)
}

fn full_plan(instructions: &str) -> RevisePlan {
    RevisePlan {
        escalate: false,
        rationale: String::new(),
        summary_line: "整章修订".to_string(),
        arg_updates: vec![
            ("revise_scope".to_string(), Json::str("full")),
            ("prefer_local_patch".to_string(), Json::Bool(false)),
            ("instructions".to_string(), Json::str(instructions)),
        ],
    }
}

fn ballot(agent: &str, vote: CouncilVote, severity: CouncilSeverity, score: u32) -> JuryBallot {
    JuryBallot {
        agent: agent.to_string(),
        vote,
        severity,
        score,
        preferred_action: String::new(),
        reasons: Vec::new(),
        issue_refs: Vec::new(),
    }
}

#[test]
fn p0_veto_forces_revise_not_accept() {
    let cfg = KindConfig::default();
    let issues = vec![p0_issue("i1"), p0_issue("i2")];
    let data = failed();
    let ballots = vec![
        ballot_from_consistency(&data, &issues),
        ballot_from_pacing(&Json::object().with_bool("pacing_passed", true)),
        ballot_from_plot_acceptor(&Json::object()),
    ];
    let plan = full_plan("修正时间互斥");
    let v = aggregate_audit(&cfg, ballots, &issues, "sample-novel", 6, 0, 1, Some(&plan));
    assert_eq!(v.action, CouncilAction::AutoRevise);
    assert_eq!(v.tool, "steer_run");
    assert_eq!(v.args.get_str("choice"), Some("revise"));
    assert_eq!(v.args.get_list("issue_ids").unwrap().len(), 2);
    assert_eq!(v.args.get_str("revise_scope"), Some("full"));
    assert!(!v.args.get_str("instructions").unwrap_or("").is_empty());
}

#[test]
fn p0_short_circuit_chair_only_still_revises() {
    let issues = vec![p0_issue("only")];
    let data = failed().with_bool("pacing_passed", false);
    let plan = full_plan("修正");
    let cfg = DecisionCouncilConfig::defaults();
    let v = evaluate_audit_content(&cfg, "demo", 1, &data, &issues, 0, 1, Some(&plan));
    assert_eq!(v.action, CouncilAction::AutoRevise);
    assert_eq!(v.ballots.len(), 1);
    assert_eq!(v.ballots[0].agent, "consistency_auditor");
    assert_eq!(v.args.get_str("revise_scope"), Some("full"));
}

#[test]
fn max_retries_escalates() {
    let cfg = KindConfig::default();
    let issues = vec![p0_issue("i1")];
    let ballots = vec![ballot_from_consistency(&failed(), &issues)];
    let v = aggregate_audit(&cfg, ballots, &issues, "demo", 1, 1, 1, None);
    assert_eq!(v.action, CouncilAction::EscalateHuman);
    assert!(v.rationale.contains("上限"));
}

#[test]
fn same_type_streak_escalates() {
    let cfg = KindConfig::default();
    let issues = vec![p0_issue("i1")];
    let ballots = vec![ballot_from_consistency(&failed(), &issues)];
    let v = aggregate_audit(&cfg, ballots, &issues, "demo", 1, 0, 2, None);
    assert_eq!(v.action, CouncilAction::EscalateHuman);
    assert!(v.rationale.contains("同类"));
    let types = vec!["TIMELINE".to_string()];
    assert_eq!(next_same_type_streak(&types, &types, 1), 2);
}

#[test]
fn allow_auto_accept_p0_false_never_approve_action() {
    let cfg = KindConfig { allow_auto_accept_p0: false, ..KindConfig::default() };
    let issues = vec![p0_issue("x")];
    let mut b =
        ballot("consistency_auditor", CouncilVote::Approve, CouncilSeverity::Block, 99);
    b.preferred_action = "accept".to_string();
    let plan = full_plan("修正");
    let v = aggregate_audit(&cfg, vec![b], &issues, "demo", 1, 0, 1, Some(&plan));
    assert_ne!(v.action, CouncilAction::AutoContinue);
    if v.action == CouncilAction::AutoRevise {
        assert_ne!(v.args.get_str("choice"), Some("accept"));
    }
}

#[test]
fn deadlock_epsilon_escalates_when_near_scores() {
    let cfg = KindConfig { min_score: 50, deadlock_epsilon: 50, ..KindConfig::default() };
    let issues = vec![p0_issue("a")];
    let mut chair = ballot("consistency_auditor", CouncilVote::Revise, CouncilSeverity::Block, 80);
    chair.preferred_action = "fix_all_p0".to_string();
    chair.issue_refs = vec!["a".to_string()];
    let mut pacing = ballot("pacing_reviewer", CouncilVote::Escalate, CouncilSeverity::Warn, 80);
    pacing.preferred_action = "escalate".to_string();
    let mut plot = ballot("plot_acceptor", CouncilVote::Escalate, CouncilSeverity::Warn, 80);
    plot.preferred_action = "escalate".to_string();
    let v = aggregate_audit(&cfg, vec![chair, pacing, plot], &issues, "demo", 1, 0, 1, None);
    assert!(matches!(v.action, CouncilAction::EscalateHuman | CouncilAction::AutoRevise));
}

#[test]
fn body_state_hard_gate_sets_full_revise_plan() {
    let cfg = KindConfig::default();
    let issues = vec![issue("s1", "STYLE", "文风", "")];
    let ballots = vec![ballot_from_consistency(&failed(), &issues)];
    let plan = full_plan("按状态板修正侧别");
    let v = aggregate_audit(&cfg, ballots, &issues, "demo", 1, 0, 1, Some(&plan));
    assert_eq!(v.action, CouncilAction::AutoRevise);
    assert_eq!(v.args.get_str("revise_scope"), Some("full"));
    assert_eq!(v.args.get_bool("prefer_local_patch"), Some(false));
    assert!(v.args.get_str("instructions").unwrap_or("").contains("状态板"));
}

#[test]
fn a_plan_can_hand_over_to_the_author() {
    let cfg = KindConfig::default();
    let issues = vec![p0_issue("i1")];
    let ballots = vec![ballot_from_consistency(&failed(), &issues)];
    let mut plan = full_plan("x");
    plan.escalate = true;
    plan.rationale = "需要人工".to_string();
    let v = aggregate_audit(&cfg, ballots, &issues, "demo", 1, 0, 1, Some(&plan));
    assert_eq!(v.action, CouncilAction::EscalateHuman);
    assert!(v.rationale.contains("需要人工"));
}

#[test]
fn a_passed_audit_is_not_revised() {
    let b = ballot_from_consistency(&Json::object().with_bool("consistency_passed", true), &vec![]);
    assert_eq!(b.vote, CouncilVote::Approve);
}

#[test]
fn the_journal_tells_the_verdict() {
    let cfg = KindConfig::default();
    let issues = vec![p0_issue("i1")];
    let ballots = vec![ballot_from_consistency(&failed(), &issues)];
    let v = aggregate_audit(&cfg, ballots, &issues, "demo", 1, 1, 1, None);
    let j = verdict_journal_data(&v);
    assert_eq!(j.get_str("action"), Some("escalate_human"));
    assert_eq!(j.get_u64("retry_count"), Some(1));
}

#[test]
fn different_types_start_a_new_streak() {
    let a = vec!["TIMELINE".to_string()];
    let b = vec!["META".to_string()];
    assert_eq!(next_same_type_streak(&a, &b, 5), 1);
}

#[test]
fn the_defaults_fetch_no_material() {
    let m = DecisionCouncilConfig::defaults().material;
    assert!(!m.enabled);
    assert_eq!((m.cooldown_chapters, m.max_cards_per_call, m.inject_chars), (0, 0, 0));
    assert!(m.inject_into.is_empty() && m.motif_from.is_empty());
}
