//! What the author is told, and what is put on record for others.

use vstd::prelude::*;

use crate::agent;
use crate::audit_offers;
use crate::cascade;
use crate::chain::{ChainPath, OfferKind};
use crate::confirm;
use crate::content;
use crate::decision_council;
use crate::decision_council::{
    BallotV, CouncilAction, CouncilSeverity, CouncilVote, KindV, VerdictV,
};
use crate::dotenv;
use crate::features;
use crate::issues::IssueV;
use crate::json::JsonV;
use crate::laws::reading;
use crate::ops_journal;
use crate::picks;
use crate::plot_write;
use crate::plot_write::ActionV;
use crate::preview;
use crate::prompts;
use crate::stage_picks;
use crate::steer;
use crate::steer::SteerFacts;
use crate::studio_prompt;
use crate::text;
use crate::thread_state::ThreadV;
use crate::tool_loop;
use crate::tool_loop::LoopV;
use crate::writing;

verus! {

// ---------------------------------------------------------------------------
// The council's record
// ---------------------------------------------------------------------------

/// The record of a verdict tells the action by its word, why, how many tries there
/// were, the tool, every ballot, and the plan.
pub proof fn verdicts_are_recorded(v: VerdictV)
    ensures
        ({
            let r = decision_council::verdict_record(v);
            &&& r.text("council_kind"@) == Some("decision_council"@)
            &&& r.text("action"@) == Some(
                match v.action {
                    CouncilAction::AutoRevise => "auto_revise"@,
                    CouncilAction::AutoContinue => "auto_continue"@,
                    CouncilAction::EscalateHuman => "escalate_human"@,
                    CouncilAction::FetchMaterial => "fetch_material"@,
                },
            )
            &&& r.text("rationale"@) == Some(v.rationale)
            &&& r.uint("retry_count"@) == Some(v.retry_count as u64)
            &&& r.text("tool"@) == Some(v.tool)
            &&& r.list("ballots"@) is Some && r.list("ballots"@)->0.len() == v.ballots.len()
            &&& v.args.get("revise_plan"@) is Some ==> r.get("revise_plan"@) == v.args.get(
                "revise_plan"@,
            )
            &&& v.args.get("revise_scope"@) is Some ==> r.get("revise_scope"@) == v.args.get(
                "revise_scope"@,
            )
        }),
{
    reading::put_reads_back();
    reveal_strlit("council_kind");
    reveal_strlit("action");
    reveal_strlit("rationale");
    reveal_strlit("retry_count");
    reveal_strlit("tool");
    reveal_strlit("ballots");
    reveal_strlit("revise_plan");
    reveal_strlit("revise_scope");
    assert("council_kind"@.len() == 12);
    assert("action"@.len() == 6);
    assert("rationale"@.len() == 9);
    assert("retry_count"@.len() == 11);
    assert("tool"@.len() == 4);
    assert("ballots"@.len() == 7);
    assert("revise_plan"@.len() == 11);
    assert("revise_scope"@.len() == 12);
    assert("council_kind"@[0] != "revise_scope"@[0]);
    assert("retry_count"@[2] != "revise_plan"@[2]);
}

/// The record of a ballot tells who voted, how, how gravely, with which score, for what
/// action and why.
pub proof fn ballots_are_recorded(bs: Seq<BallotV>, i: int)
    requires
        0 <= i < bs.len(),
    ensures
        ({
            let r = decision_council::ballot_records(bs)->List_0[i];
            let b = bs[i];
            &&& r.text("agent"@) == Some(b.agent)
            &&& r.text("vote"@) == Some(
                match b.vote {
                    CouncilVote::Revise => "revise"@,
                    CouncilVote::Approve => "approve"@,
                    CouncilVote::Escalate => "escalate"@,
                    CouncilVote::Abstain => "abstain"@,
                },
            )
            &&& r.text("severity"@) == Some(
                match b.severity {
                    CouncilSeverity::Block => "block"@,
                    CouncilSeverity::Warn => "warn"@,
                    CouncilSeverity::Info => "info"@,
                },
            )
            &&& r.uint("score"@) == Some(b.score as u64)
            &&& r.text("preferred_action"@) == Some(b.preferred_action)
            &&& r.list("issue_refs"@) == Some(
                Seq::new(b.issue_refs.len(), |j: int| JsonV::Text(b.issue_refs[j])),
            )
        }),
{
    reading::put_reads_back();
    reveal_strlit("agent");
    reveal_strlit("vote");
    reveal_strlit("severity");
    reveal_strlit("score");
    reveal_strlit("preferred_action");
    reveal_strlit("reasons");
    reveal_strlit("issue_refs");
    assert("agent"@.len() == 5);
    assert("vote"@.len() == 4);
    assert("severity"@.len() == 8);
    assert("score"@.len() == 5);
    assert("preferred_action"@.len() == 16);
    assert("reasons"@.len() == 7);
    assert("issue_refs"@.len() == 10);
    assert("agent"@[0] != "score"@[0]);
}

/// A kind of decision is configured by the first entry under its name.
pub proof fn kinds_are_looked_up(m: Seq<(Seq<char>, KindV)>, name: Seq<char>, k: int)
    ensures
        0 <= k < m.len() && m[k].0 == name && (forall|j: int|
            0 <= j < k ==> (#[trigger] m[j]).0 != name) ==> decision_council::kind_from(m, name, 0)
            == Some(m[k].1),
        (forall|j: int| 0 <= j < m.len() ==> (#[trigger] m[j]).0 != name)
            ==> decision_council::kind_from(m, name, 0) is None,
{
    kind_from_first(m, name, 0, k);
}

proof fn kind_from_first(m: Seq<(Seq<char>, KindV)>, name: Seq<char>, i: int, k: int)
    requires
        0 <= i,
    ensures
        i <= k < m.len() && m[k].0 == name && (forall|j: int|
            i <= j < k ==> (#[trigger] m[j]).0 != name) ==> decision_council::kind_from(m, name, i)
            == Some(m[k].1),
        (forall|j: int| i <= j < m.len() ==> (#[trigger] m[j]).0 != name)
            ==> decision_council::kind_from(m, name, i) is None,
    decreases m.len() - i,
{
    if i < m.len() {
        kind_from_first(m, name, i + 1, k);
        assert(i < k < m.len() && (forall|j: int| i <= j < k ==> (#[trigger] m[j]).0 != name) ==> m[i].0
            != name);
    }
}

/// A studio that configures nothing has a council on failed audits on which the
/// consistency auditor weighs most and alone has a veto; it revises by itself once,
/// gives up on the second issue of a kind, and never accepts what blocks.
pub proof fn stock_council_is_careful(i: int)
    requires
        0 <= i < decision_council::default_kind().members.len(),
    ensures
        ({
            let k = decision_council::default_kind();
            let m = k.members[i];
            &&& k.enabled && !k.allow_auto_accept_p0 && k.batch_per_chapter
            &&& k.max_auto_retries == 1 && k.same_type_streak_limit == 2
            &&& k.min_score == 70 && k.deadlock_epsilon == 8
            &&& m.veto <==> m.role == "consistency_auditor"@
            &&& m.role == "consistency_auditor"@ ==> m.weight == 2
            &&& m.role != "consistency_auditor"@ ==> m.weight == 1
            &&& k.members.len() == 3 && k.members[0].role == "consistency_auditor"@
                && k.members[1].role == "pacing_reviewer"@ && k.members[2].role
                == "plot_acceptor"@
        }),
        decision_council::kind_from(decision_council::default_kinds(), "audit_content"@, 0) == Some(
            decision_council::default_kind(),
        ),
        decision_council::kind_from(
            decision_council::default_kinds(),
            "chapter_next_clean"@,
            0,
        ) matches Some(k) && !k.enabled,
        decision_council::kind_from(
            decision_council::default_kinds(),
            "chapter_boundary_seal"@,
            0,
        ) matches Some(k) && k.enabled && k.batch_per_chapter,
{
    reveal_strlit("consistency_auditor");
    reveal_strlit("pacing_reviewer");
    reveal_strlit("plot_acceptor");
    assert("consistency_auditor"@.len() == 19);
    assert("pacing_reviewer"@.len() == 15);
    assert("plot_acceptor"@.len() == 13);
    reveal_strlit("audit_content");
    reveal_strlit("chapter_next_clean");
    reveal_strlit("chapter_boundary_seal");
    assert("audit_content"@.len() == 13);
    assert("chapter_next_clean"@.len() == 18);
    assert("chapter_boundary_seal"@.len() == 21);
    reveal_with_fuel(decision_council::kind_from, 4);
}

/// A kind of issue blocks where some issue marked `P0` is of it.
pub proof fn blocking_kinds_are_those_of_blocking_issues(s: Seq<IssueV>, kind: Seq<char>, i: int)
    ensures
        0 <= i < s.len() && s[i].priority == "P0"@ && s[i].kind == kind && kind.len() > 0
            ==> decision_council::blocking_kind(s, kind),
        decision_council::blocking_kind(s, kind) ==> exists|j: int|
            0 <= j < s.len() && (#[trigger] s[j]).priority == "P0"@ && s[j].kind == kind && kind.len()
                > 0,
{
    if 0 <= i < s.len() && s[i].priority == "P0"@ && s[i].kind == kind && kind.len() > 0 {
        assert(decision_council::is_kind(s[i], kind));
    }
    if decision_council::blocking_kind(s, kind) {
        let j = choose|j: int| 0 <= j < s.len() && decision_council::is_kind(#[trigger] s[j], kind);
        assert(s[j].priority == "P0"@);
    }
}

/// Two sides are close exactly where their scores differ by no more than the margin.
pub proof fn close_sides_are_within_the_margin(
    ms: Seq<decision_council::MemberV>,
    bs: Seq<BallotV>,
    a: decision_council::Side,
    b: decision_council::Side,
    eps: u32,
)
    requires
        ms.len() > 0,
    ensures
        ({
            let x = decision_council::weighted_sum(ms, bs, a) as int;
            let y = decision_council::weighted_sum(ms, bs, b) as int;
            let margin = eps * decision_council::total_weight(ms);
            decision_council::close(ms, bs, a, b, eps) <==> x - y <= margin && y - x <= margin
        }),
        decision_council::close(ms, bs, a, b, eps) <==> decision_council::close(
            ms,
            bs,
            b,
            a,
            eps,
        ),
{
}

// ---------------------------------------------------------------------------
// Steering
// ---------------------------------------------------------------------------

/// The card of a queue comes after a revision that did not pass, the choice after a
/// chapter after one that did; neither over another card.
pub proof fn cards_after_steering(f: SteerFacts)
    ensures
        steer::queue_card_due(f) <==> f.revise && !f.passed && !f.asked && !f.needs_confirm,
        steer::next_card_due(f) <==> f.passed && f.audit_ran && !f.asked && !f.asked_mutation
            && !f.accepted,
        f.asked_mutation ==> text::occurs(steer::steer_closing(f), "审批卡"@),
        !f.asked_mutation && f.asked ==> steer::steer_closing(f).len() == 0,
        !f.asked_mutation && !f.asked && f.accepted ==> text::begins(
            steer::steer_closing(f),
            "\n\n已接受问题"@,
        ),
        !f.asked_mutation && !f.asked && !f.accepted && f.audit_ran && f.passed ==> text::begins(
            steer::steer_closing(f),
            "\n\n复审通过"@,
        ),
        !f.asked_mutation && !f.asked && !f.accepted && !f.offered_after_pass && !(f.audit_ran
            && f.passed) && f.revise ==> steer::steer_closing(f) == "\n\n修订已完成。"@,
        !f.asked_mutation && !f.asked && !f.accepted && !f.offered_after_pass && !f.audit_ran
            && !f.revise ==> steer::steer_closing(f).len() == 0,
{
    let a = "\n\n局部修订补丁已生成，请在审批卡选择「应用修改」或「放弃」。应用后再复审。"@;
    reveal_strlit(
        "\n\n局部修订补丁已生成，请在审批卡选择「应用修改」或「放弃」。应用后再复审。",
    );
    reveal_strlit("审批卡");
    assert(a.subrange(14, 17) =~= "审批卡"@);
    assert(text::occurs_at(a, "审批卡"@, 14));
    let b = "\n\n已接受问题，审校门控已关闭。可说「继续」写下一章，或手动 audit_chapter 复审。"@;
    reveal_strlit(
        "\n\n已接受问题，审校门控已关闭。可说「继续」写下一章，或手动 audit_chapter 复审。",
    );
    reveal_strlit("\n\n已接受问题");
    assert(b.subrange(0, 7) =~= "\n\n已接受问题"@);
    reveal_strlit("\n\n复审通过，请选择下一步。");
    reveal_strlit("\n\n复审通过。可说「继续创作」写下一章。");
    reveal_strlit("\n\n复审通过");
    assert("\n\n复审通过，请选择下一步。"@.subrange(0, 6) =~= "\n\n复审通过"@);
    assert("\n\n复审通过。可说「继续创作」写下一章。"@.subrange(0, 6)
        =~= "\n\n复审通过"@);
}

/// After writing and revising a draft can be in the way; after these and after audits
/// the choice after a chapter can come; after other tools neither.
pub proof fn cards_after_calls(tool: Seq<char>)
    ensures
        tool_loop::draft_card_due(tool) <==> tool == "continue_writing"@ || tool
            == "revise_chapter"@,
        tool_loop::next_card_due(tool) <==> tool == "continue_writing"@ || tool
            == "revise_chapter"@ || tool == "audit_chapter"@ || tool == "audit_chapters"@,
        picks::confirmed_by_choice(tool) <==> tool == "continue_writing"@ || tool
            == "continue_writing_batch"@,
        picks::leaves_audit(tool) <==> tool == "continue_writing"@ || tool == "revise_chapter"@,
{
}

/// A round starts with nothing said, run, repeated, awaited or paused, and runs at most
/// eight times.
pub proof fn rounds_start_afresh(s: LoopV)
    ensures
        LoopV::fresh().sound(),
        LoopV::fresh().round == 0 && LoopV::fresh().words.len() == 0,
        LoopV::fresh().last_tools.len() == 0 && LoopV::fresh().repeats == 0,
        !LoopV::fresh().nudged && !LoopV::fresh().awaiting_offer && !LoopV::fresh().paused,
        s.sound() ==> s.round <= 8 && s.repeats <= 2,
{
}

/// A new chapter closes every card about the text and forgets what was under way; the
/// steps between volumes and of the setup stay.
pub proof fn new_chapter_leaves_steps_open(s: ThreadV)
    ensures
        ({
            let r = s.cleared_for_chapter();
            &&& r.project == s.project
            &&& r.pending_volume_sync == s.pending_volume_sync
            &&& r.pending_volume_handoff == s.pending_volume_handoff
            &&& r.pending_setup == s.pending_setup
            &&& r.skipped_expected_ids == s.skipped_expected_ids
            &&& r.pending_audit is None && r.pending_volume_audit is None && r.pending_chapter_next
                is None && r.pending_chapter_order is None && r.pending_mutation is None
                && r.pending_studio_next is None && r.pending_impact is None
            &&& !r.pending_plot_write && !r.pending_expected_event && !r.pending_setting_blocker
                && !r.pending_mutation_followup && !r.awaiting_studio_next
                && !r.outline_rewrite_active
        }),
        ({
            let i = ThreadV::idle(s.project);
            &&& !i.pending_plot_write && !i.pending_expected_event && !i.pending_setting_blocker
                && !i.pending_mutation_followup && !i.awaiting_studio_next
                && !i.outline_rewrite_active
            &&& i.skipped_expected_ids.len() == 0 && i.pending_volume_audit is None
        }),
{
}

/// An applied change to an outline is noted as a rewrite under way, unless it was
/// blocked or places that depend on it are asked about first.
pub proof fn outline_rewrites_are_noted(
    s: ThreadV,
    asked: Option<OfferKind>,
    tool: Seq<char>,
    data: JsonV,
)
    ensures
        ({
            let r = confirm::outline_noted(s, asked, tool, data);
            let outline = tool == "design_master_outline"@ || tool == "design_arc_outline"@;
            &&& outline && !data.flag("blocked"@) && asked != Some(OfferKind::Impact)
                ==> r.outline_rewrite_active
            &&& !outline || data.flag("blocked"@) || asked == Some(OfferKind::Impact) ==> r == s
            &&& r == (ThreadV { outline_rewrite_active: r.outline_rewrite_active, ..s })
        }),
{
}

// ---------------------------------------------------------------------------
// What was asked at the end of a step
// ---------------------------------------------------------------------------

/// What a step came to is told with what it put out; where a card was opened, what the
/// card asks is told too.
pub proof fn summaries_tell_output_and_card(
    path: ChainPath,
    summary: Seq<char>,
    asked: Option<OfferKind>,
    data: JsonV,
    hint: Seq<char>,
    published: bool,
)
    ensures
        ({
            let r = picks::summary_with_card(path, summary, asked, data, hint, published);
            &&& asked is None ==> r == summary
            &&& asked == Some(OfferKind::Mutation) && data.text("summary"@) is Some ==> r
                == data.text("summary"@)->0 + "\n\n请选择：应用修改 / 放弃。"@
            &&& asked == Some(OfferKind::Impact) || asked == Some(OfferKind::Followup) || asked
                == Some(OfferKind::Setup) || asked == Some(OfferKind::Volume) || asked == Some(
                OfferKind::Handoff,
            ) || asked == Some(OfferKind::VolumeAudit) || asked == Some(OfferKind::Audit) || asked
                == Some(OfferKind::Setting) || asked == Some(OfferKind::Next) ==> text::begins(
                r,
                summary,
            )
            &&& asked == Some(OfferKind::Setup) ==> text::ends(r, hint)
            &&& asked == Some(OfferKind::Next) && published ==> text::ends(
                r,
                "\n\n请选择：继续创作；或其他说明。"@,
            )
            &&& asked == Some(OfferKind::Next) && !published ==> text::ends(
                r,
                "\n\n请选择：修正本章；或其他说明。"@,
            )
            &&& asked == Some(OfferKind::Volume) ==> text::ends(
                r,
                "\n\n本卷已结束 — 请选择：同步设定库 / 跳过。"@,
            )
            &&& asked == Some(OfferKind::Order) && data.uint("next_chapter"@) is Some
                ==> text::begins(
                r,
                "不能跳章。请先写第"@ + text::dec(data.uint("next_chapter"@)->0 as nat),
            )
            &&& asked == Some(OfferKind::Draft) && data.uint("chapter"@) is Some ==> text::begins(
                r,
                "第"@ + text::dec(data.uint("chapter"@)->0 as nat),
            )
            &&& asked == Some(OfferKind::Handoff) && data.text("volume_phase"@) == Some(
                "awaiting_sync"@,
            ) ==> text::ends(r, "同步设定库 / 跳过。"@)
            &&& asked == Some(OfferKind::Handoff) && data.text("volume_phase"@) == Some(
                "awaiting_next_plot"@,
            ) ==> text::ends(r, "设计并激活剧情卡。"@)
            &&& asked == Some(OfferKind::Handoff) && data.text("volume_phase"@) == Some(
                "awaiting_next_arc"@,
            ) ==> text::ends(r, "设计下卷卷纲。"@)
            &&& asked == Some(OfferKind::Plot) && data.text("plot_title"@) is Some && data.text(
                "reason"@,
            ) == Some("planned_inactive"@) ==> text::occurs(r, data.text("plot_title"@)->0)
        }),
{
    reveal_strlit("awaiting_sync");
    reveal_strlit("awaiting_next_plot");
    reveal_strlit("awaiting_next_arc");
    assert("awaiting_sync"@.len() == 13);
    assert("awaiting_next_plot"@.len() == 18);
    assert("awaiting_next_arc"@.len() == 17);
    reveal_strlit("need_design_plot");
    reveal_strlit("planned_inactive");
    assert("need_design_plot"@.len() == 16);
    assert("planned_inactive"@.len() == 16);
    assert("need_design_plot"@[0] != "planned_inactive"@[0]);
    let r = picks::summary_with_card(path, summary, asked, data, hint, published);
    assert(summary.subrange(0, summary.len() as int) =~= summary);
    assert(asked != Some(OfferKind::Handoff) ==> (asked == Some(OfferKind::Impact) || asked == Some(
        OfferKind::Followup,
    ) || asked == Some(OfferKind::Setup) || asked == Some(OfferKind::Volume) || asked == Some(
        OfferKind::VolumeAudit,
    ) || asked == Some(OfferKind::Audit) || asked == Some(OfferKind::Setting) || asked == Some(
        OfferKind::Next,
    ) ==> text::begins(r, summary))) by {
        reading::begun_texts();
    }
    if asked == Some(OfferKind::Handoff) {
        questions_name_the_step(data, summary);
    }
    if asked == Some(OfferKind::Setup) || asked == Some(OfferKind::Next) || asked == Some(
        OfferKind::Volume,
    ) || asked == Some(OfferKind::Plot) {
        reading::joined_texts();
    }
    if asked == Some(OfferKind::Order) || asked == Some(OfferKind::Draft) {
        reading::begun_texts();
    }
}

proof fn questions_name_the_step(data: JsonV, summary: Seq<char>)
    ensures
        text::begins(summary + picks::handoff_question(data), summary),
        data.text("volume_phase"@) == Some("awaiting_sync"@) ==> text::ends(
            summary + picks::handoff_question(data),
            "同步设定库 / 跳过。"@,
        ),
        data.text("volume_phase"@) == Some("awaiting_next_plot"@) ==> text::ends(
            summary + picks::handoff_question(data),
            "设计并激活剧情卡。"@,
        ) && text::ends(stage_picks::handoff_closing(data), "设计并激活剧情卡。"@),
        data.text("volume_phase"@) == Some("awaiting_next_arc"@) ==> text::ends(
            summary + picks::handoff_question(data),
            "设计下卷卷纲。"@,
        ) && text::ends(stage_picks::handoff_closing(data), "设计下卷卷纲。"@),
{
    reveal_strlit("awaiting_sync");
    reveal_strlit("awaiting_next_plot");
    reveal_strlit("awaiting_next_arc");
    assert("awaiting_sync"@.len() == 13);
    assert("awaiting_next_plot"@.len() == 18);
    assert("awaiting_next_arc"@.len() == 17);
    reveal_strlit("同步设定库 / 跳过。");
    reveal_strlit("设计并激活剧情卡。");
    reveal_strlit("设计下卷卷纲。");
    reveal_strlit("\n\n请选择：同步设定库 / 跳过。");
    reveal_strlit("\n\n请选择：设计并激活剧情卡。");
    reveal_strlit("\n\n请选择：设计下卷卷纲。");
    let q = picks::handoff_question(data);
    let h = stage_picks::handoff_closing(data);
    let r = summary + q;
    assert(r.subrange(0, summary.len() as int) =~= summary);
    if data.text("volume_phase"@) == Some("awaiting_sync"@) {
        let e = "同步设定库 / 跳过。"@;
        assert(r.subrange(r.len() - e.len(), r.len() as int) =~= e);
    }
    if data.text("volume_phase"@) == Some("awaiting_next_plot"@) {
        let e = "设计并激活剧情卡。"@;
        assert(r.subrange(r.len() - e.len(), r.len() as int) =~= e);
        assert(h.subrange(h.len() - e.len(), h.len() as int) =~= e);
    }
    if data.text("volume_phase"@) == Some("awaiting_next_arc"@) {
        let e = "设计下卷卷纲。"@;
        assert(r.subrange(r.len() - e.len(), r.len() as int) =~= e);
        assert(h.subrange(h.len() - e.len(), h.len() as int) =~= e);
    }
}

/// A request that is known is announced with the project and the tool; a list of plots
/// is told as it is.
pub proof fn requests_are_announced(
    tool: Seq<char>,
    args: JsonV,
    project: Seq<char>,
    intro: Seq<char>,
    output: Seq<char>,
)
    ensures
        text::occurs(picks::request_intro(tool, args, Some(project)), project),
        tool != "audit_chapters"@ && tool != "list_plots"@ ==> text::occurs(
            picks::request_intro(tool, args, Some(project)),
            tool,
        ),
        args.text("action"@) == Some("continue"@) ==> text::begins(
            picks::request_intro("audit_chapters"@, args, Some(project)),
            "正在续跑《"@,
        ),
        args.text("action"@) == Some("start"@) ==> text::begins(
            picks::request_intro("audit_chapters"@, args, Some(project)),
            "已建立逐章审阅队列"@,
        ),
        picks::request_summary("list_plots"@, intro, output) == output,
        tool != "list_plots"@ ==> picks::request_summary(tool, intro, output) == intro + "\n\n"@
            + output,
        text::occurs(steer::steer_intro(tool, Some(project)), project),
        text::occurs(steer::steer_intro(tool, Some(project)), tool),
        args.uint("chapter"@) is Some ==> text::occurs(
            picks::order_intro(args),
            text::dec(args.uint("chapter"@)->0 as nat),
        ),
{
    reveal_strlit("continue");
    reveal_strlit("start");
    reveal_strlit("audit_chapters");
    reveal_strlit("list_plots");
    assert("continue"@.len() == 8);
    assert("start"@.len() == 5);
    assert("audit_chapters"@.len() == 14);
    assert("list_plots"@.len() == 10);
    assert(text::begins(
        picks::request_intro("audit_chapters"@, args, Some(project)),
        "正在续跑《"@,
    ) || args.text("action"@) != Some("continue"@)) by {
        reading::begun_texts();
    }
    if args.text("action"@) == Some("start"@) {
        let r = picks::request_intro("audit_chapters"@, args, Some(project));
        reveal_strlit("已建立逐章审阅队列");
        reveal_strlit("已建立逐章审阅队列，正在对《");
        assert(r.subrange(0, 9) =~= "已建立逐章审阅队列"@);
    }
    reading::joined_texts();
}

/// The words before a step between volumes, of the setup or at the end of a volume name
/// what is about to be done.
pub proof fn steps_are_announced(args: JsonV, project: Seq<char>, n: u32)
    requires
        args.text("project"@) == Some(project),
        args.uint("volume"@) == Some(n as u64),
    ensures
        stage_picks::handoff_intro("design_arc_outline"@) != stage_picks::handoff_intro(
            "design_plot"@,
        ),
        text::occurs(stage_picks::handoff_intro("design_arc_outline"@), "卷纲"@),
        text::occurs(stage_picks::handoff_intro("design_plot"@), "剧情卡"@),
        text::occurs(stage_picks::setup_intro("design_master_outline"@), "总纲"@),
        text::occurs(stage_picks::setup_intro("design_arc_outline"@), "卷纲"@),
        text::occurs(stage_picks::setup_intro("lock_brief"@), "brief"@),
        text::occurs(stage_picks::setup_intro("upsert_setting"@), "Bible"@),
        text::occurs(stage_picks::setup_intro("supplement_setting"@), "Bible"@),
        text::occurs(stage_picks::setup_intro("confirm_setup"@), "定稿"@),
        text::occurs(stage_picks::sync_intro("sync_volume"@, args), project),
        text::occurs(stage_picks::sync_intro("sync_volume"@, args), text::dec(n as nat)),
        text::occurs(stage_picks::sync_intro("confirm_volume_memory"@, args), project),
{
    reveal_strlit("design_arc_outline");
    reveal_strlit("design_plot");
    reveal_strlit("design_master_outline");
    reveal_strlit("upsert_setting");
    reveal_strlit("supplement_setting");
    reveal_strlit("lock_brief");
    reveal_strlit("confirm_setup");
    reveal_strlit("get_project_status");
    reveal_strlit("sync_volume");
    reveal_strlit("confirm_volume_memory");
    assert("design_arc_outline"@.len() == 18);
    assert("design_plot"@.len() == 11);
    assert("design_master_outline"@.len() == 21);
    assert("upsert_setting"@.len() == 14);
    assert("supplement_setting"@.len() == 18);
    assert("lock_brief"@.len() == 10);
    assert("confirm_setup"@.len() == 13);
    assert("get_project_status"@.len() == 18);
    assert("sync_volume"@.len() == 11);
    assert("confirm_volume_memory"@.len() == 21);
    assert("design_arc_outline"@[0] != "supplement_setting"@[0]);
    assert("design_arc_outline"@[0] != "get_project_status"@[0]);
    assert("design_plot"@[0] != "sync_volume"@[0]);
    assert("design_master_outline"@[0] != "confirm_volume_memory"@[0]);
    assert("supplement_setting"@[0] != "get_project_status"@[0]);
    words_stand("已收到选择，正在设计下卷卷纲…"@, "卷纲"@, 12);
    words_stand("已收到选择，正在设计并激活开局剧情卡…"@, "剧情卡"@, 15);
    words_stand("已收到选择，正在生成总纲…"@, "总纲"@, 10);
    words_stand("已收到选择，正在生成卷纲…"@, "卷纲"@, 10);
    words_stand("已收到灵感，正在锁定 brief…"@, "brief"@, 11);
    words_stand("已收到选择，正在生成世界观 Bible…"@, "Bible"@, 14);
    words_stand("已收到选择，正在处理定稿…"@, "定稿"@, 10);
    reveal_strlit("卷纲");
    reveal_strlit("剧情卡");
    reveal_strlit("总纲");
    reveal_strlit("brief");
    reveal_strlit("Bible");
    reveal_strlit("定稿");
    assert("卷纲"@.len() == 2);
    assert("剧情卡"@.len() == 3);
    assert("总纲"@.len() == 2);
    assert("brief"@.len() == 5);
    assert("Bible"@.len() == 5);
    assert("定稿"@.len() == 2);
    assert("卷纲"@[0] != "总纲"@[0]);
    assert("卷纲"@[0] != "定稿"@[0]);
    assert("总纲"@[0] != "定稿"@[0]);
    assert("brief"@[0] != "Bible"@[0]);
    reveal_strlit("已收到选择，正在设计下卷卷纲…");
    reveal_strlit("已收到选择，正在设计并激活开局剧情卡…");
    reveal_strlit("已收到选择，正在生成总纲…");
    reveal_strlit("已收到选择，正在生成卷纲…");
    reveal_strlit("已收到灵感，正在锁定 brief…");
    reveal_strlit("已收到选择，正在生成世界观 Bible…");
    reveal_strlit("已收到选择，正在处理定稿…");
    assert("已收到选择，正在设计下卷卷纲…"@.len() != "已收到选择，正在设计并激活开局剧情卡…"@.len());
    places_are_named(args, project, n);
}

proof fn words_stand(s: Seq<char>, p: Seq<char>, i: int)
    ensures
        0 <= i && i + p.len() <= s.len() && (forall|k: int|
            0 <= k < p.len() ==> s[i + k] == #[trigger] p[k]) ==> text::occurs(s, p),
{
    if 0 <= i && i + p.len() <= s.len() && (forall|k: int|
        0 <= k < p.len() ==> s[i + k] == #[trigger] p[k]) {
        assert(s.subrange(i, i + p.len()) =~= p);
        assert(text::occurs_at(s, p, i));
    }
}

proof fn places_are_named(args: JsonV, project: Seq<char>, n: u32)
    requires
        args.text("project"@) == Some(project),
        args.uint("volume"@) == Some(n as u64),
    ensures
        text::occurs(stage_picks::sync_intro("sync_volume"@, args), project),
        text::occurs(stage_picks::sync_intro("sync_volume"@, args), text::dec(n as nat)),
        text::occurs(stage_picks::sync_intro("confirm_volume_memory"@, args), project),
{
    reveal_strlit("sync_volume");
    reveal_strlit("confirm_volume_memory");
    assert("sync_volume"@.len() == 11);
    assert("confirm_volume_memory"@.len() == 21);
    let place = stage_picks::call_place(args);
    let d = text::dec(n as nat);
    assert(text::occurs(place, project) && text::occurs(place, d)) by {
        reading::joined_texts();
    }
    let a = "已收到选择，正在同步《"@;
    let b = "已收到选择，正在确认《"@;
    behind(a, place, project);
    behind(a, place, d);
    behind(b, place, project);
    reading::joined_texts();
}

proof fn behind(a: Seq<char>, b: Seq<char>, p: Seq<char>)
    requires
        text::occurs(b, p),
    ensures
        text::occurs(a + b, p),
{
    let i = choose|i: int| text::occurs_at(b, p, i);
    assert((a + b).subrange(a.len() + i, a.len() + i + p.len()) =~= b.subrange(i, i + p.len()));
    assert(text::occurs_at(a + b, p, a.len() + i));
}

/// What a step of the setup came to is told, with what comes next after an approval and
/// with the hint of the next step.
pub proof fn setup_steps_are_told(
    tool: Seq<char>,
    args: JsonV,
    output: Seq<char>,
    asked: Option<OfferKind>,
    hint: Seq<char>,
)
    ensures
        text::occurs(stage_picks::setup_summary(tool, args, output, asked, hint), output),
        asked == Some(OfferKind::Setup) ==> text::ends(
            stage_picks::setup_summary(tool, args, output, asked, hint),
            "\n\n"@ + hint,
        ),
        asked is None && (tool != "confirm_setup"@ || args.text_or_empty("action"@) != "approve"@)
            ==> stage_picks::setup_summary(tool, args, output, asked, hint)
            == stage_picks::setup_intro(tool) + "\n\n"@ + output,
        asked is None && tool == "confirm_setup"@ && args.text("action"@) == Some("approve"@)
            ==> text::ends(
            stage_picks::setup_summary(tool, args, output, asked, hint),
            "continue_writing。"@,
        ),
{
    let r = stage_picks::setup_summary(tool, args, output, asked, hint);
    assert(text::occurs(r, output)) by {
        reading::joined_texts();
    }
    if asked == Some(OfferKind::Setup) {
        let e = "\n\n"@ + hint;
        assert(r.subrange(r.len() - e.len(), r.len() as int) =~= e);
    }
    if asked is None && tool == "confirm_setup"@ && args.text("action"@) == Some("approve"@) {
        reveal_strlit("continue_writing。");
        reveal_strlit(
            "\n\n下一步：design_plot → update_plot(in_progress) → continue_writing。",
        );
        let e = "continue_writing。"@;
        assert(r.subrange(r.len() - e.len(), r.len() as int) =~= e);
    }
}

/// The words after a second audit tell how it went.
pub proof fn second_audits_are_told(asked: bool, passed: bool, offered: bool)
    ensures
        asked ==> confirm::reaudit_closing(asked, passed, offered)
            == "\n\n复审未通过，请按下方选项继续。"@,
        !asked && passed && offered ==> confirm::reaudit_closing(asked, passed, offered)
            == "\n\n复审通过，请选择下一步。"@,
        !asked && passed && !offered ==> confirm::reaudit_closing(asked, passed, offered)
            == "\n\n复审通过。可说「继续创作」写下一章。"@,
        !asked && !passed ==> confirm::reaudit_closing(asked, passed, offered).len() == 0,
{
}

/// A plot card that was activated, and the chapter after it, are told with what they put
/// out; a chapter that is blocked asks to go on below.
pub proof fn plots_are_told(a: ActionV, body: Seq<char>, output: Seq<char>, data: JsonV)
    ensures
        text::begins(plot_write::last_words(a, body, output, data), body + "\n\n"@ + output),
        a is ActivateAndWrite && data.flag("blocked"@) ==> text::ends(
            plot_write::last_words(a, body, output, data),
            "\n\n请按下方选项继续。"@,
        ),
        !(a is ActivateAndWrite) || !data.flag("blocked"@) ==> plot_write::last_words(
            a,
            body,
            output,
            data,
        ) == body + "\n\n"@ + output,
        a is Dismiss ==> plot_write::cards_after(a).len() == 0,
        a is Tool ==> plot_write::cards_after(a) == seq![OfferKind::Next],
        a is ActivateAndWrite ==> plot_write::cards_after(a)[0] == OfferKind::Mutation
            && plot_write::cards_after(a).last() == OfferKind::Next,
{
    let all = body + "\n\n"@ + output;
    assert(all.subrange(0, all.len() as int) =~= all);
    assert(text::begins(plot_write::last_words(a, body, output, data), all)) by {
        reading::begun_texts();
    }
    assert(text::ends(all + "\n\n请按下方选项继续。"@, "\n\n请按下方选项继续。"@)) by {
        reading::joined_texts();
    }
}

// ---------------------------------------------------------------------------
// What is shown of an audit
// ---------------------------------------------------------------------------

/// What an audit says is shown: its checklist where it found issues, else its message,
/// always under its chapter.
pub proof fn audits_are_briefed(data: JsonV, s: Seq<IssueV>, n: u32)
    ensures
        s.len() > 0 ==> prompts::audit_brief(data, s, n) == crate::audit_decisions::checklist(s, n),
        s.len() == 0 && 0 < text::trimmed(data.text_or_empty("message"@)).len() <= 280
            ==> text::ends(
            prompts::audit_brief(data, s, n),
            text::trimmed(data.text_or_empty("message"@)),
        ),
        s.len() == 0 ==> text::begins(
            prompts::audit_brief(data, s, n),
            "## 第"@ + text::dec(n as nat),
        ),
{
    if s.len() == 0 {
        assert(text::begins(
            prompts::audit_brief(data, s, n),
            "## 第"@ + text::dec(n as nat),
        )) by {
            reading::begun_texts();
        }
        let m = text::trimmed(data.text_or_empty("message"@));
        if 0 < m.len() <= 280 {
            assert(text::ends(prompts::audit_brief(data, s, n), m)) by {
                reading::joined_texts();
            }
        }
    }
}

/// The checklist on record is shown where the result holds none; a blank one is not.
pub proof fn recorded_checklists_are_shown(
    data: JsonV,
    s: Seq<IssueV>,
    n: u32,
    stored: Seq<char>,
)
    requires
        text::trimmed(stored).len() > 0,
    ensures
        ({
            let told = prompts::audit_brief(data, s, n);
            let r = audit_offers::brief_to_show(data, s, n, Some(stored));
            &&& text::occurs(told, "### 问题清单"@) && text::trimmed(told).len() > 0 ==> r == Some(
                told,
            )
            &&& !text::occurs(told, "### 问题清单"@) && data.text_or_empty("project"@).len() > 0
                ==> r == Some(stored)
            &&& text::trimmed(told).len() > 0 ==> audit_offers::brief_to_show(data, s, n, None)
                == Some(told)
        }),
{
}

/// The checklist that a turn shows already is found: the last message of the agent in
/// that turn that lists the chapter's issues.
pub proof fn shown_checklists_are_found(
    items: Seq<JsonV>,
    turn_id: Seq<char>,
    n: u32,
    k: int,
    id: Seq<char>,
)
    requires
        0 <= k < items.len(),
        items[k].text("type"@) == Some("agent_message"@),
        text::occurs(items[k].text_or_empty("text"@), "### 问题清单"@),
        items[k].text("id"@) == Some(id),
        forall|j: int|
            k < j < items.len() ==> (#[trigger] items[j]).text("type"@) != Some("agent_message"@),
    ensures
        audit_offers::checklist_item(
            JsonV::List(
                seq![
                    JsonV::empty_object().put("id"@, JsonV::Text(turn_id)).put(
                        "items"@,
                        JsonV::List(items),
                    ),
                ],
            ),
            turn_id,
            n,
        ) == Some(id),
{
    reading::put_reads_back();
    reveal_strlit("id");
    reveal_strlit("items");
    assert("id"@.len() == 2);
    assert("items"@.len() == 5);
    let t = JsonV::empty_object().put("id"@, JsonV::Text(turn_id)).put(
        "items"@,
        JsonV::List(items),
    );
    let v = seq![t];
    assert(v[0] == t);
    assert(audit_offers::turn_from(v, turn_id, 0) == Some(0int));
    last_shown(items, n, items.len() as int, k);
}

proof fn last_shown(items: Seq<JsonV>, n: u32, m: int, k: int)
    requires
        0 <= k < m <= items.len(),
        audit_offers::shows_checklist(items[k], n),
        items[k].text("id"@) is Some,
        forall|j: int|
            k < j < items.len() ==> (#[trigger] items[j]).text("type"@) != Some("agent_message"@),
    ensures
        audit_offers::checklist_before(items, n, m) == items[k].text("id"@),
    decreases m,
{
    if m - 1 > k {
        assert(items[m - 1].text("type"@) != Some("agent_message"@));
        last_shown(items, n, m - 1, k);
    }
}

/// The tasks shown are those that the result tells; else those on record, while the
/// result belongs to a queue of the project.
pub proof fn tasks_of_the_queue_are_shown(data: JsonV, stored: JsonV)
    ensures
        prompts::todos_in(data.get("todos"@)) is Some ==> audit_offers::todos_shown(
            data,
            Some(stored),
        ) == prompts::todos_in(data.get("todos"@))->0,
        prompts::todos_in(data.get("todos"@)) is None && data.get("audit_queue"@) is Some
            && data.get("audit_queue"@)->0.get("chapters"@) is Some && data.text("project"@) is Some
            && prompts::todos_in(Some(stored)) is Some ==> audit_offers::todos_shown(
            data,
            Some(stored),
        ) == prompts::todos_in(Some(stored))->0,
        prompts::todos_in(data.get("todos"@)) is None && data.get("audit_queue"@) is None
            ==> audit_offers::todos_shown(data, Some(stored)).len() == 0,
{
}

/// A line of a tool's progress is shown as a status where it bears one of the marks, and
/// never where it is text of the chapter.
pub proof fn status_lines_bear_marks(t: Seq<char>)
    ensures
        prompts::status_line(t) ==> t.len() > 0 && !text::begins(t, "## "@) && !text::occurs(
            t,
            "正文已写入"@,
        ) && !text::occurs(t, "正文生成中"@),
        prompts::status_line(t) ==> text::begins(t, "▶"@) || text::begins(t, "✓"@)
            || text::begins(t, "⏸"@) || text::begins(t, "⚙"@) || text::begins(t, "✕"@)
            || text::occurs(t, "调用模型"@) || text::occurs(t, "等待首包"@) || text::occurs(
            t,
            "模型返回空"@,
        ),
        t.len() > 0 && (text::begins(t, "▶"@) || text::begins(t, "✓"@) || text::begins(t, "⏸"@)
            || text::begins(t, "⚙"@) || text::begins(t, "✕"@) || text::occurs(t, "调用模型"@)
            || text::occurs(t, "等待首包"@) || text::occurs(t, "模型返回空"@)) && !text::begins(
            t,
            "——"@,
        ) && !text::begins(t, "## "@) && !text::occurs(t, "正文"@) && !text::occurs(
            t,
            "↻ draft"@,
        ) && !text::begins(t, "…"@) ==> prompts::status_line(t),
{
    if !text::occurs(t, "正文"@) {
        part_of_absent(t, "正文已写入"@);
        part_of_absent(t, "正文生成中"@);
    }
}

proof fn part_of_absent(t: Seq<char>, p: Seq<char>)
    requires
        p == "正文已写入"@ || p == "正文生成中"@,
        !text::occurs(t, "正文"@),
    ensures
        !text::occurs(t, p),
{
    reveal_strlit("正文");
    reveal_strlit("正文已写入");
    reveal_strlit("正文生成中");
    if text::occurs(t, p) {
        let i = choose|i: int| text::occurs_at(t, p, i);
        let w = t.subrange(i, i + p.len());
        assert(w[0] == p[0] && w[1] == p[1]);
        assert(t.subrange(i, i + 2) =~= "正文"@);
        assert(text::occurs_at(t, "正文"@, i));
    }
}

// ---------------------------------------------------------------------------
// Dependent places, folders, settings
// ---------------------------------------------------------------------------

/// A run with no line says that there was nothing to do; else it tells its lines, one to
/// a line.
pub proof fn runs_are_told(a: Seq<char>, b: Seq<char>)
    ensures
        cascade::run_summary(Seq::empty()) == "无自动同步目标（或仅剧情卡提示）。"@,
        cascade::run_summary(seq![a]) == a,
        cascade::run_summary(seq![a, b]) == a + "\n"@ + b,
{
    reveal_with_fuel(text::joined, 3);
    assert(seq![a, b].drop_last() =~= seq![a]);
}

/// The chapters audited again are the lowest of those revised, at most three, each once
/// and in order.
pub proof fn lowest_revised_are_audited(r: Seq<u32>, v: Seq<u32>, n: u32)
    requires
        cascade::is_first_three(r, v),
    ensures
        lowest(r, v, n),
{
    assert forall|all: Seq<u32>| #[trigger]
        cascade::ascend(all) && (forall|x: u32| #[trigger] all.contains(x) <==> v.contains(x)) && r
            == (if all.len() <= 3 {
            all
        } else {
            all.take(3)
        }) implies lowest(r, v, n) by {
        first_of_row(all, r, v, n);
    }
}

/// At most three, in order, all of the row, and lower than any other of it.
pub open spec fn lowest(r: Seq<u32>, v: Seq<u32>, n: u32) -> bool {
    &&& r.len() <= 3
    &&& forall|i: int, j: int| 0 <= i < j < r.len() ==> #[trigger] r[i] < #[trigger] r[j]
    &&& forall|i: int| 0 <= i < r.len() ==> v.contains(#[trigger] r[i])
    &&& v.contains(n) && !r.contains(n) ==> r.len() == 3 && r[2] < n
}

proof fn first_of_row(all: Seq<u32>, r: Seq<u32>, v: Seq<u32>, n: u32)
    requires
        cascade::ascend(all),
        forall|x: u32| #[trigger] all.contains(x) <==> v.contains(x),
        r == if all.len() <= 3 {
            all
        } else {
            all.take(3)
        },
    ensures
        lowest(r, v, n),
{
    assert forall|i: int| 0 <= i < r.len() implies v.contains(#[trigger] r[i]) by {
        assert(all[i] == r[i]);
        assert(all.contains(all[i]));
    }
    assert forall|i: int, j: int| 0 <= i < j < r.len() implies #[trigger] r[i] < #[trigger] r[j] by {
        assert(all[i] < all[j]);
    }
    if v.contains(n) && !r.contains(n) {
        assert(all.contains(n));
        let k = choose|k: int| 0 <= k < all.len() && all[k] == n;
        if k < r.len() {
            assert(r[k] == n);
        }
        assert(all[2] < all[k]);
    }
}

/// An entity goes by the name on its card; by its file's name where no card fits.
pub proof fn entities_go_by_their_cards(
    cards: Seq<cascade::EntityCardV>,
    slug: Seq<char>,
    k: int,
)
    ensures
        0 <= k < cards.len() && (cards[k].slug == slug || cards[k].alike) && (forall|j: int|
            0 <= j < k ==> (#[trigger] cards[j]).slug != slug && !cards[j].alike)
            ==> cascade::card_name(cards, slug, 0) == cards[k].name,
        (forall|j: int|
            0 <= j < cards.len() ==> (#[trigger] cards[j]).slug != slug && !cards[j].alike)
            ==> cascade::card_name(cards, slug, 0) == slug,
{
    name_from(cards, slug, 0, k);
}

proof fn name_from(cards: Seq<cascade::EntityCardV>, slug: Seq<char>, i: int, k: int)
    requires
        0 <= i,
    ensures
        i <= k < cards.len() && (cards[k].slug == slug || cards[k].alike) && (forall|j: int|
            i <= j < k ==> (#[trigger] cards[j]).slug != slug && !cards[j].alike)
            ==> cascade::card_name(cards, slug, i) == cards[k].name,
        (forall|j: int|
            i <= j < cards.len() ==> (#[trigger] cards[j]).slug != slug && !cards[j].alike)
            ==> cascade::card_name(cards, slug, i) == slug,
    decreases cards.len() - i,
{
    if i < cards.len() {
        name_from(cards, slug, i + 1, k);
    }
}

/// The entity of a path is of the kind and name that the path tells.
pub proof fn paths_tell_entities(path: Seq<char>, cards: Seq<cascade::EntityCardV>)
    ensures
        cascade::entity_named(path, cards).0 == cascade::entity_kind(path),
        cascade::entity_slug(path).len() > 0 ==> cascade::entity_named(path, cards).1
            == cascade::card_name(cards, cascade::entity_slug(path), 0),
        cascade::entity_slug(path).len() == 0 ==> cascade::entity_named(path, cards).1.len() == 0,
{
}

/// A folder named by a number is that chapter; one with another name is none.
pub proof fn folders_are_chapters(names: Seq<Seq<char>>, name: Seq<char>, n: u32)
    ensures
        text::written_number(name) == Some(n as nat) ==> preview::numbered(names.push(name))
            == preview::numbered(names).push(n),
        text::written_number(name) is None ==> preview::numbered(names.push(name))
            == preview::numbered(names),
        preview::numbered(Seq::empty()).len() == 0,
{
    assert(names.push(name).drop_last() =~= names);
}

/// The page of a project in the library tells its title, its progress and its overview.
pub proof fn library_pages_tell_the_project(
    id: Seq<char>,
    preview: JsonV,
    title: Seq<char>,
    state: JsonV,
)
    requires
        preview.get("state"@) == Some(state),
        state.text("name"@) == Some(title),
    ensures
        ({
            let p = preview::library_page(id, preview);
            &&& p.get("preview"@) == Some(preview)
            &&& p.get("novel"@) matches Some(n)
            &&& n.text("id"@) == Some(id)
            &&& n.text("display_title"@) == Some(title)
            &&& n.text("genre"@) == Some(state.text_or_empty("genre"@))
            &&& preview.get("published_count"@) is Some ==> n.get("published_count"@)
                == preview.get("published_count"@)
            &&& preview.get("next_chapter"@) is Some ==> n.get("next_chapter"@) == preview.get(
                "next_chapter"@,
            )
            &&& n.text("status"@) == Some("active"@)
        }),
{
    reading::put_reads_back();
    reveal_strlit("id");
    reveal_strlit("display_title");
    reveal_strlit("genre");
    reveal_strlit("published_count");
    reveal_strlit("next_chapter");
    reveal_strlit("status");
    reveal_strlit("novel");
    reveal_strlit("preview");
    assert("id"@.len() == 2);
    assert("display_title"@.len() == 13);
    assert("genre"@.len() == 5);
    assert("published_count"@.len() == 15);
    assert("next_chapter"@.len() == 12);
    assert("status"@.len() == 6);
    assert("novel"@.len() == 5);
    assert("preview"@.len() == 7);
    assert("genre"@[0] != "novel"@[0]);
}

/// An outline that is saved keeps the rest of what is stored, and has acts.
pub proof fn saved_outlines_keep_the_rest(v: JsonV, markdown: Seq<char>, key: Seq<char>)
    requires
        v is Object,
        key != "markdown"@,
        key != "acts"@,
    ensures
        content::outline_saved(Some(v), markdown).text("markdown"@) == Some(markdown),
        content::outline_saved(Some(v), markdown).get(key) == v.get(key),
        v.get("acts"@) is Some ==> content::outline_saved(Some(v), markdown).get("acts"@) == v.get(
            "acts"@,
        ),
        content::outline_saved(None, markdown).text("markdown"@) == Some(markdown),
        content::outline_saved(None, markdown).list("acts"@) == Some(Seq::<JsonV>::empty()),
{
    reading::put_reads_back();
    reveal_strlit("markdown");
    reveal_strlit("acts");
    assert("markdown"@.len() == 8);
    assert("acts"@.len() == 4);
}

/// Every line of the environment's file that sets a variable sets it, in order.
pub proof fn every_setting_line_counts(lines: Seq<Seq<char>>, line: Seq<char>)
    ensures
        dotenv::line_sets(line) is Some ==> dotenv::settings(lines.push(line)) == dotenv::settings(
            lines,
        ).push(dotenv::line_sets(line)->0),
        dotenv::line_sets(line) is None ==> dotenv::settings(lines.push(line)) == dotenv::settings(
            lines,
        ),
        dotenv::settings(Seq::empty()).len() == 0,
{
    assert(lines.push(line).drop_last() =~= lines);
}

/// A stock studio holds writers to order, asks before it changes anything, and journals;
/// it does not pause after a clean chapter.
pub proof fn stock_studio_is_careful()
    ensures
        ({
            let d = features::default_switches();
            &&& features::switch_or(d, "studio.require_mutation_confirm"@, false)
            &&& features::switch_or(d, "studio.enforce_setup_gate"@, false)
            &&& features::switch_or(d, "studio.enforce_volume_phase"@, false)
            &&& features::switch_or(d, "studio.enforce_chapter_order"@, false)
            &&& features::switch_or(d, "studio.ops_journal"@, false)
            &&& features::switch_or(d, "studio.impact_cascade"@, false)
            &&& features::switch_or(d, "studio.deterministic_intents"@, false)
            &&& features::switch_or(d, "studio.clear_history_on_new_chapter"@, false)
            &&& features::switch_or(d, "studio.auto_reaudit_after_steer"@, false)
            &&& features::switch_or(d, "studio.reject_weak_ui_turns"@, false)
            &&& features::switch_or(d, "studio.stream_reasoning"@, false)
            &&& !features::switch_or(d, "studio.pause_after_clean_write"@, true)
        }),
{
    reveal_with_fuel(features::switch_from, 19);
    reveal_strlit("studio.deterministic_intents");
    reveal_strlit("studio.pause_after_clean_write");
    reveal_strlit("studio.stream_reasoning");
    reveal_strlit("studio.clear_history_on_new_chapter");
    reveal_strlit("studio.auto_reaudit_after_steer");
    reveal_strlit("studio.reject_weak_ui_turns");
    reveal_strlit("studio.enforce_setup_gate");
    reveal_strlit("studio.enforce_volume_phase");
    reveal_strlit("studio.enforce_chapter_order");
    reveal_strlit("studio.require_mutation_confirm");
    reveal_strlit("studio.impact_cascade");
    reveal_strlit("studio.impact_scan_all_drafts");
    reveal_strlit("studio.impact_scan_all_on_setting");
    reveal_strlit("pipeline.longform_lean");
    reveal_strlit("studio.require_volume_audit_mid");
    reveal_strlit("studio.require_volume_audit_handoff");
    reveal_strlit("studio.cold_archive_drafts");
    reveal_strlit("studio.ops_journal");
    assert("studio.deterministic_intents"@.len() == 28);
    assert("studio.pause_after_clean_write"@.len() == 30);
    assert("studio.stream_reasoning"@.len() == 23);
    assert("studio.clear_history_on_new_chapter"@.len() == 35);
    assert("studio.auto_reaudit_after_steer"@.len() == 31);
    assert("studio.reject_weak_ui_turns"@.len() == 27);
    assert("studio.enforce_setup_gate"@.len() == 25);
    assert("studio.enforce_volume_phase"@.len() == 27);
    assert("studio.enforce_chapter_order"@.len() == 28);
    assert("studio.require_mutation_confirm"@.len() == 31);
    assert("studio.impact_cascade"@.len() == 21);
    assert("studio.impact_scan_all_drafts"@.len() == 29);
    assert("studio.impact_scan_all_on_setting"@.len() == 33);
    assert("pipeline.longform_lean"@.len() == 22);
    assert("studio.require_volume_audit_mid"@.len() == 31);
    assert("studio.require_volume_audit_handoff"@.len() == 35);
    assert("studio.cold_archive_drafts"@.len() == 26);
    assert("studio.ops_journal"@.len() == 18);
    assert("studio.deterministic_intents"@[7] != "studio.enforce_chapter_order"@[7]);
    assert("studio.clear_history_on_new_chapter"@[7] != "studio.require_volume_audit_handoff"@[7]);
    assert("studio.auto_reaudit_after_steer"@[7] != "studio.require_mutation_confirm"@[7]);
    assert("studio.auto_reaudit_after_steer"@[7] != "studio.require_volume_audit_mid"@[7]);
    assert("studio.reject_weak_ui_turns"@[7] != "studio.enforce_volume_phase"@[7]);
    assert("studio.require_mutation_confirm"@[15] != "studio.require_volume_audit_mid"@[15]);
}

/// The request that a new chapter starts with is the author's, trimmed, unless it is
/// blank; the notice names the chapter and the project.
pub proof fn new_chapters_start_with_the_request(t: Seq<char>, project: Seq<char>, n: u32)
    ensures
        text::trimmed(t).len() > 0 ==> writing::kept_request(t) == Some(text::trimmed(t)),
        text::trimmed(t).len() == 0 ==> writing::kept_request(t) is None,
        text::occurs(writing::new_chapter_notice(project, n), project),
        text::occurs(writing::new_chapter_notice(project, n), text::dec(n as nat)),
{
    reading::joined_texts();
}

/// The lines of a journal are those that are not blank, in order.
pub proof fn blank_lines_are_no_entries(v: Seq<Seq<char>>, l: Seq<char>)
    ensures
        text::trimmed(l).len() > 0 ==> ops_journal::filled_lines(v.push(l))
            == ops_journal::filled_lines(v).push(l),
        text::trimmed(l).len() == 0 ==> ops_journal::filled_lines(v.push(l))
            == ops_journal::filled_lines(v),
        ops_journal::filled_lines(Seq::empty()).len() == 0,
{
    assert(v.push(l).drop_last() =~= v);
}

/// The instructions to the model hold its project, the catalogue of tools and the skills,
/// in this order.
pub proof fn instructions_hold_their_parts(
    project: Option<Seq<char>>,
    hints: Option<Seq<char>>,
    catalog: Seq<char>,
    studio: Seq<char>,
    draft: Seq<char>,
    called: Seq<studio_prompt::SkillText>,
)
    ensures
        ({
            let r = studio_prompt::instructions(project, hints, catalog, studio, draft, called);
            &&& text::begins(
                r,
                "你是 NovelX，小说创作编排 Agent。\n"@ + studio_prompt::project_words(project, hints),
            )
            &&& text::occurs(r, catalog)
            &&& text::trimmed(studio).len() > 0 ==> text::occurs(
                r,
                studio_prompt::skill_block("studio"@, studio),
            )
            &&& text::trimmed(draft).len() > 0 ==> text::occurs(
                r,
                studio_prompt::skill_block("novel-draft"@, draft),
            )
            &&& text::ends(r, studio_prompt::called_skills(called))
        }),
{
    let r = studio_prompt::instructions(project, hints, catalog, studio, draft, called);
    assert(text::begins(
        r,
        "你是 NovelX，小说创作编排 Agent。\n"@ + studio_prompt::project_words(project, hints),
    )) by {
        reading::begun_texts();
    }
    reading::joined_texts();
}

/// A sub-agent is listed with what is known of it, where anything is.
pub proof fn known_agents_are_listed(
    ids: Seq<Seq<char>>,
    id: Seq<char>,
    known: Seq<agent::AgentFacts>,
    k: int,
)
    requires
        0 <= k < known.len(),
        known[k].thread_id@ == id,
        forall|j: int| 0 <= j < k ==> (#[trigger] known[j]).thread_id@ != id,
    ensures
        ({
            let all = agent::entries_of(ids.push(id), known);
            let e = all.last();
            &&& all == agent::entries_of(ids, known).push(e)
            &&& e.thread_id == id
            &&& known[k].role is Some ==> e.role == known[k].role->0@
            &&& known[k].role is None ==> e.role.len() == 0
            &&& e.agent_path == known[k].agent_path@
            &&& e.lifecycle == text::ascii_lowered(known[k].lifecycle@)
        }),
{
    assert(ids.push(id).drop_last() =~= ids);
    facts_are_first(known, id, 0, k);
}

proof fn facts_are_first(known: Seq<agent::AgentFacts>, id: Seq<char>, i: int, k: int)
    requires
        0 <= i <= k < known.len(),
        known[k].thread_id@ == id,
        forall|j: int| 0 <= j < k ==> (#[trigger] known[j]).thread_id@ != id,
    ensures
        agent::facts_from(known, id, i) == Some(agent::entry_of(known[k])),
    decreases k - i,
{
    if i < k {
        assert(known[i].thread_id@ != id);
        facts_are_first(known, id, i + 1, k);
    }
}

} // verus!
