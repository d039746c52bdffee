//! Which decisions a failed audit offers, and what each does.

use vstd::prelude::*;

use crate::audit_decisions;
use crate::audit_decisions::DecisionV;
use crate::audit_offers;
use crate::audit_offers::{AuditFixV, OfferApplyV};
use crate::gates;
use crate::gates::GateV;
use crate::issues;
use crate::issues::IssueV;
use crate::json::JsonV;
use crate::laws::findings;
use crate::laws::reading;
use crate::laws::volumes;
use crate::prompts;
use crate::text;
use crate::thread_state::{AuditGateKind, PendingAuditV, ThreadV};

verus! {

/// The call revises the chapter and takes up the ids, and no others.
pub open spec fn revises(
    d: DecisionV,
    project: Seq<char>,
    chapter: u32,
    ids: Seq<Seq<char>>,
) -> bool {
    &&& d.tool == "steer_run"@
    &&& d.args.text("project"@) == Some(project)
    &&& d.args.uint("chapter"@) == Some(chapter as u64)
    &&& d.args.text("choice"@) == Some("revise"@)
    &&& d.args.list("issue_ids"@) == Some(Seq::new(ids.len(), |i: int| JsonV::Text(ids[i])))
}

/// The call accepts the chapter as it is.
pub open spec fn accepts(d: DecisionV, project: Seq<char>, chapter: u32) -> bool {
    &&& d.tool == "steer_run"@
    &&& d.args.text("project"@) == Some(project)
    &&& d.args.uint("chapter"@) == Some(chapter as u64)
    &&& d.args.text("choice"@) == Some("accept"@)
}

/// The call does something to the queue of audits.
pub open spec fn moves_queue(d: DecisionV, project: Seq<char>, action: Seq<char>) -> bool {
    &&& d.tool == "audit_chapters"@
    &&& d.args.text("project"@) == Some(project)
    &&& d.args.text("action"@) == Some(action)
}

/// Each of the first six blocking issues gets a decision of its own, in order, that
/// revises the chapter for this issue; its label tells the issue.
pub proof fn blocking_issues_get_decisions(
    project: Seq<char>,
    chapter: u32,
    s: Seq<IssueV>,
    queue_active: bool,
    i: int,
)
    requires
        0 <= i < issues::p0_only(s).len(),
        i < 6,
        issues::p0_only(s)[i].id is Some,
    ensures
        ({
            let d = audit_decisions::fallback_decisions(project, chapter, s, queue_active)[i];
            let x = issues::p0_only(s)[i];
            &&& i < audit_decisions::fallback_decisions(project, chapter, s, queue_active).len()
            &&& revises(d, project, chapter, seq![x.id->0])
            &&& text::begins(d.label, "修："@)
            &&& x.message is Some && x.message->0.len() <= 28 ==> text::ends(d.label, x.message->0)
            &&& text::ends(d.id, x.id->0)
        }),
{
    reading::put_reads_back();
    reading::names_differ();
    let x = issues::p0_only(s)[i];
    let d = audit_decisions::fix_option(project, chapter, x);
    assert(audit_decisions::fallback_decisions(project, chapter, s, queue_active)[i] == d);
    assert(d.args.list("issue_ids"@)->0 =~= Seq::new(
        seq![x.id->0].len(),
        |j: int| JsonV::Text(seq![x.id->0][j]),
    ));
    label_tells(x);
    assert(text::ends(d.id, x.id->0)) by {
        reading::joined_texts();
    }
}

proof fn label_tells(x: IssueV)
    ensures
        ({
            let l = audit_decisions::fix_option(Seq::empty(), 0, x).label;
            &&& text::begins(l, "修："@)
            &&& x.message is Some && x.message->0.len() <= 28 ==> text::ends(l, x.message->0)
        }),
{
    let l = audit_decisions::fix_option(Seq::empty(), 0, x).label;
    assert(text::begins(l, "修："@)) by {
        reading::begun_texts();
    }
    if x.message is Some && x.message->0.len() <= 28 {
        assert(text::ends(l, x.message->0)) by {
            reading::joined_texts();
        }
    }
}

/// Several blocking issues can be revised together, and where nothing blocks all
/// issues can; the chapter can always be accepted, and with a queue running the
/// queue can go on or end.
pub proof fn decisions_for_the_whole(
    project: Seq<char>,
    chapter: u32,
    s: Seq<IssueV>,
    queue_active: bool,
)
    ensures
        ({
            let ds = audit_decisions::fallback_decisions(project, chapter, s, queue_active);
            let p0 = issues::p0_only(s);
            let own: int = if p0.len() <= 6 {
                p0.len() as int
            } else {
                6
            };
            let whole: int = if p0.len() > 1 || (p0.len() == 0 && s.len() > 0) {
                1
            } else {
                0
            };
            &&& ds.len() == own + whole + 1 + (if queue_active {
                2int
            } else {
                0
            })
            &&& p0.len() > 1 ==> revises(ds[own], project, chapter, issues::ids_of(p0)) && ds[own].id
                == "fix_all_p0"@
            &&& p0.len() == 0 && s.len() > 0 ==> revises(ds[0], project, chapter, issues::ids_of(s))
                && ds[0].id == "fix_all"@
            &&& accepts(ds[own + whole], project, chapter) && ds[own + whole].id == "accept"@
            &&& queue_active ==> moves_queue(ds[own + whole + 1], project, "next"@) && moves_queue(
                ds[own + whole + 2],
                project,
                "cancel"@,
            )
        }),
{
    reading::put_reads_back();
    reading::names_differ();
}

/// The buttons of the card stand for the decisions, in their order.
pub proof fn buttons_show_decisions(ds: Seq<DecisionV>, i: int)
    requires
        0 <= i < ds.len(),
    ensures
        audit_decisions::decision_buttons(ds).len() == ds.len(),
        audit_decisions::decision_buttons(ds)[i].id == ds[i].id,
        audit_decisions::decision_buttons(ds)[i].label == ds[i].label,
{
}

/// A decision offered by the studio does what its action says, on the audited
/// chapter, and carries its label; an action that is not known is refused.
pub proof fn offered_actions_are_done(
    project: Seq<char>,
    chapter: u32,
    known: Seq<Seq<char>>,
    opt: JsonV,
    i: int,
    queue_active: bool,
    a: Seq<char>,
)
    requires
        opt.text("action"@) == Some(a),
        text::trimmed(a) == a,
        text::ascii_lowered(a) == a,
    ensures
        match audit_decisions::offered_decision(project, chapter, known, opt, i, queue_active) {
            Ok(d) => {
                &&& opt.text("label"@) is Some && d.label == text::trimmed(opt.text("label"@)->0)
                &&& a == "accept"@ || a == "接受"@ ==> accepts(d, project, chapter)
                &&& a == "revise"@ || a == "fix"@ ==> {
                    &&& revises(d, project, chapter, audit_decisions::offered_issues(opt))
                    &&& opt.text_or_empty("instructions"@).len() > 0 ==> d.args.text(
                        "instructions"@,
                    ) == opt.text("instructions"@)
                }
                &&& a == "skip_queue"@ || a == "next"@ ==> queue_active && moves_queue(
                    d,
                    project,
                    "next"@,
                )
                &&& a == "cancel_queue"@ || a == "cancel"@ ==> queue_active && moves_queue(
                    d,
                    project,
                    "cancel"@,
                )
                &&& a == "accept"@ || a == "接受"@ || a == "revise"@ || a == "fix"@ || a
                    == "局部修订"@ || a == "按审校局部修订"@ || a == "skip_queue"@ || a == "next"@
                    || a == "cancel_queue"@ || a == "cancel"@
            },
            Err(_) => {
                ||| opt.text("label"@) is None
                ||| text::trimmed(opt.text("label"@)->0).len() == 0
                ||| exists|k: int|
                    0 <= k < audit_decisions::offered_issues(opt).len() && !known.contains(
                        #[trigger] audit_decisions::offered_issues(opt)[k],
                    )
                ||| a != "accept"@ && a != "接受"@ && a != "revise"@ && a != "fix"@ && a
                    != "局部修订"@ && a != "按审校局部修订"@ && !queue_active
                ||| a != "accept"@ && a != "接受"@ && a != "revise"@ && a != "fix"@ && a
                    != "局部修订"@ && a != "按审校局部修订"@ && a != "skip_queue"@ && a != "next"@
                    && a != "cancel_queue"@ && a != "cancel"@
            },
        },
{
    reading::put_reads_back();
    reading::names_differ();
    reveal_strlit("accept");
    reveal_strlit("revise");
    reveal_strlit("fix");
    reveal_strlit("next");
    reveal_strlit("cancel");
    reveal_strlit("skip_queue");
    reveal_strlit("cancel_queue");
    reveal_strlit("接受");
    reveal_strlit("局部修订");
    reveal_strlit("按审校局部修订");
    assert("accept"@.len() == 6);
    assert("revise"@.len() == 6);
    assert("fix"@.len() == 3);
    assert("next"@.len() == 4);
    assert("cancel"@.len() == 6);
    assert("skip_queue"@.len() == 10);
    assert("cancel_queue"@.len() == 12);
    assert("接受"@.len() == 2);
    assert("局部修订"@.len() == 4);
    assert("按审校局部修订"@.len() == 7);
    assert("accept"@[0] != "revise"@[0]);
    assert("accept"@[0] != "cancel"@[0]);
    assert("revise"@[0] != "cancel"@[0]);
    assert("next"@[0] != "局部修订"@[0]);
    reveal_strlit("issue_ids");
    reveal_strlit("instructions");
    assert("issue_ids"@.len() == 9);
    assert("instructions"@.len() == 12);
    let ids = audit_decisions::offered_issues(opt);
    unknown_is_first(ids, known, 0);
}

proof fn unknown_is_first(ids: Seq<Seq<char>>, known: Seq<Seq<char>>, i: int)
    requires
        0 <= i,
    ensures
        audit_decisions::unknown_from(ids, known, i) matches Some(k) ==> i <= k < ids.len()
            && !known.contains(ids[k]),
    decreases ids.len() - i,
{
    if i < ids.len() && known.contains(ids[i]) {
        unknown_is_first(ids, known, i + 1);
    }
}

/// An offer has one to twelve options; each becomes the decision at its place.
pub proof fn offers_are_taken_in_order(
    project: Seq<char>,
    chapter: u32,
    s: Seq<IssueV>,
    opts: Seq<JsonV>,
    queue_active: bool,
)
    ensures
        opts.len() == 0 || opts.len() > 12 ==> audit_decisions::offered(
            project,
            chapter,
            s,
            opts,
            queue_active,
        ) is Err,
        match audit_decisions::offered(project, chapter, s, opts, queue_active) {
            Ok(ds) => ds.len() == opts.len() && forall|k: int|
                0 <= k < ds.len() ==> audit_decisions::offered_decision(
                    project,
                    chapter,
                    issues::ids_of(s),
                    opts[k],
                    k,
                    queue_active,
                ) == Result::<DecisionV, Seq<char>>::Ok(#[trigger] ds[k]),
            Err(_) => true,
        },
{
    if 0 < opts.len() <= 12 {
        taken_from(project, chapter, issues::ids_of(s), opts, queue_active, 0);
    }
}

proof fn taken_from(
    project: Seq<char>,
    chapter: u32,
    known: Seq<Seq<char>>,
    opts: Seq<JsonV>,
    queue_active: bool,
    i: int,
)
    requires
        0 <= i <= opts.len(),
    ensures
        match audit_decisions::offered_from(project, chapter, known, opts, queue_active, i) {
            Ok(ds) => ds.len() == opts.len() - i && forall|k: int|
                0 <= k < ds.len() ==> audit_decisions::offered_decision(
                    project,
                    chapter,
                    known,
                    opts[i + k],
                    i + k,
                    queue_active,
                ) == Result::<DecisionV, Seq<char>>::Ok(#[trigger] ds[k]),
            Err(_) => true,
        },
    decreases opts.len() - i,
{
    if i < opts.len() {
        taken_from(project, chapter, known, opts, queue_active, i + 1);
        match audit_decisions::offered_from(project, chapter, known, opts, queue_active, i) {
            Ok(ds) => {
                let rest = audit_decisions::offered_from(
                    project,
                    chapter,
                    known,
                    opts,
                    queue_active,
                    i + 1,
                )->Ok_0;
                assert forall|k: int|
                    0 <= k < ds.len() implies audit_decisions::offered_decision(
                    project,
                    chapter,
                    known,
                    opts[i + k],
                    i + k,
                    queue_active,
                ) == Result::<DecisionV, Seq<char>>::Ok(#[trigger] ds[k]) by {
                    if k > 0 {
                        assert(ds[k] == rest[k - 1]);
                        assert(i + 1 + (k - 1) == i + k);
                    }
                }
            },
            Err(_) => {},
        }
    }
}

/// The checklist of a failed audit names the chapter, counts what blocks, and lists
/// every issue once, what blocks first.
pub proof fn checklist_lists_every_issue(s: Seq<IssueV>, chapter: u32)
    ensures
        ({
            let ordered = issues::p0_only(s) + issues::others_only(s);
            let lines = audit_decisions::checklist_lines(ordered);
            &&& text::begins(
                audit_decisions::checklist(s, chapter),
                "## 第"@ + text::dec(chapter as nat) + "章审校未通过"@,
            )
            &&& text::occurs(audit_decisions::checklist(s, chapter), "### 问题清单"@)
            &&& lines.len() == s.len()
            &&& forall|k: int|
                0 <= k < lines.len() ==> text::begins(
                    #[trigger] lines[k],
                    text::dec((k + 1) as nat) + ". `"@,
                ) && (ordered[k].id is Some ==> text::occurs(lines[k], ordered[k].id->0)) && (
                ordered[k].message is Some && ordered[k].message->0.len() <= 72 ==> text::occurs(
                    lines[k],
                    ordered[k].message->0,
                ))
            &&& s.len() > 0 ==> text::occurs(
                audit_decisions::checklist(s, chapter),
                lines[s.len() - 1],
            )
        }),
{
    findings::blocking_are_marked(s);
    let ordered = issues::p0_only(s) + issues::others_only(s);
    let lines = audit_decisions::checklist_lines(ordered);
    let head = audit_decisions::checklist_head(s, chapter);
    let mark = "## 第"@ + text::dec(chapter as nat) + "章审校未通过"@;
    head_begins(s, chapter);
    head_ends(s, chapter);
    assert forall|k: int| 0 <= k < lines.len() implies text::begins(
        #[trigger] lines[k],
        text::dec((k + 1) as nat) + ". `"@,
    ) && (ordered[k].id is Some ==> text::occurs(lines[k], ordered[k].id->0)) && (
    ordered[k].message is Some && ordered[k].message->0.len() <= 72 ==> text::occurs(
        lines[k],
        ordered[k].message->0,
    )) by {
        line_tells((k + 1) as nat, ordered[k]);
    }
    let parts = if ordered.len() == 0 {
        seq![head] + seq!["（无结构化问题条目；请展开审校工具卡查看原文）"@]
    } else {
        seq![head] + lines
    };
    assert(parts[0] == head);
    first_part_begins(parts, "\n"@, mark);
    first_part_occurs(parts, "\n"@, "### 问题清单"@);
    if s.len() > 0 {
        assert(parts.last() == lines[s.len() - 1]);
        last_part_occurs(parts, "\n"@);
    }
}

proof fn last_part_occurs(parts: Seq<Seq<char>>, sep: Seq<char>)
    requires
        parts.len() > 1,
    ensures
        text::occurs(text::joined(parts, sep), parts.last()),
{
    reading::joined_texts();
}

proof fn head_begins(s: Seq<IssueV>, chapter: u32)
    ensures
        text::begins(
            audit_decisions::checklist_head(s, chapter),
            "## 第"@ + text::dec(chapter as nat) + "章审校未通过"@,
        ),
{
    let a = "## 第"@ + text::dec(chapter as nat);
    let mark = a + "章审校未通过"@;
    reveal_strlit("章审校未通过");
    reveal_strlit("章审校未通过\n\n阻断 **");
    assert((a + "章审校未通过\n\n阻断 **"@).subrange(0, mark.len() as int) =~= mark);
    assert(text::begins(a + "章审校未通过\n\n阻断 **"@, mark));
    reading::begun_texts();
}

proof fn head_ends(s: Seq<IssueV>, chapter: u32)
    ensures
        text::occurs(audit_decisions::checklist_head(s, chapter), "### 问题清单"@),
{
    let head = audit_decisions::checklist_head(s, chapter);
    let t = " 条（全文见审校工具卡）\n\n### 问题清单"@;
    let mark = "### 问题清单"@;
    reveal_strlit("### 问题清单");
    reveal_strlit(" 条（全文见审校工具卡）\n\n### 问题清单");
    assert(head.subrange(head.len() - mark.len(), head.len() as int) =~= mark);
    assert(text::occurs_at(head, mark, head.len() - mark.len()));
}

proof fn line_tells(n: nat, x: IssueV)
    ensures
        ({
            let l = audit_decisions::checklist_line(n, x);
            &&& text::begins(l, text::dec(n) + ". `"@)
            &&& x.id is Some ==> text::occurs(l, x.id->0)
            &&& x.message is Some && x.message->0.len() <= 72 ==> text::occurs(l, x.message->0)
        }),
{
    assert(text::begins(audit_decisions::checklist_line(n, x), text::dec(n) + ". `"@)) by {
        reading::begun_texts();
    }
    reading::joined_texts();
}

proof fn first_part_begins(parts: Seq<Seq<char>>, sep: Seq<char>, p: Seq<char>)
    requires
        parts.len() > 0,
        text::begins(parts[0], p),
    ensures
        text::begins(text::joined(parts, sep), p),
    decreases parts.len(),
{
    if parts.len() > 1 {
        first_part_begins(parts.drop_last(), sep, p);
        reading::begun_texts();
    }
}

proof fn first_part_occurs(parts: Seq<Seq<char>>, sep: Seq<char>, p: Seq<char>)
    requires
        parts.len() > 0,
        text::occurs(parts[0], p),
    ensures
        text::occurs(text::joined(parts, sep), p),
    decreases parts.len(),
{
    if parts.len() > 1 {
        first_part_occurs(parts.drop_last(), sep, p);
        reading::joined_texts();
    }
}

/// The card of a failed audit is about the audited chapter: it stays open with the
/// issues found and offers the decisions of the studio, or else those that follow
/// from the issues.
pub proof fn failed_audit_opens_its_card(
    s: ThreadV,
    project: Seq<char>,
    chapter: u32,
    found: Seq<IssueV>,
    queue_active: bool,
    offered: Option<Seq<DecisionV>>,
)
    ensures
        ({
            let after = audit_offers::content_gate(
                s,
                project,
                chapter,
                found,
                queue_active,
                offered,
            );
            let own = audit_decisions::fallback_decisions(project, chapter, found, queue_active);
            &&& after.0.pending_audit matches Some(p)
            &&& p.project == project && p.chapter == chapter && p.kind == AuditGateKind::Content
            &&& p.issues == found && !p.awaiting_offer
            &&& offered is Some && offered->0.len() > 0 ==> p.decision_options == offered->0
            &&& offered is None || offered->0.len() == 0 ==> p.decision_options == own
            &&& after.1.options.len() == p.decision_options.len()
            &&& forall|i: int|
                0 <= i < p.decision_options.len() ==> (#[trigger] after.1.options[i]).id
                    == p.decision_options[i].id
            &&& text::begins(after.1.prompt, "第"@ + text::dec(chapter as nat) + "章未通过（"@)
            &&& after.0 == (ThreadV {
                pending_audit: after.0.pending_audit,
                pending_volume_audit: None,
                ..s
            })
        }),
{
    reading::begun_texts();
}

/// An audit that failed on the text asks the author about that chapter; one that
/// could not be carried out asks to try again and offers no revision; one that
/// passed closes the card.
pub proof fn audits_end_by_their_result(
    s: ThreadV,
    c: Seq<GateV>,
    tool: Seq<char>,
    args: JsonV,
    data: JsonV,
    found: Seq<IssueV>,
    queue_running: bool,
    project: Seq<char>,
    n: u32,
)
    requires
        tool == "audit_chapter"@ || tool == "audit_chapters"@ || tool == "continue_writing"@,
        volumes::names_project(data, args, project),
        data.uint("chapter"@) == Some(n as u64) || (data.uint("chapter"@) is None && args.uint(
            "chapter"@,
        ) == Some(n as u64)),
        data.uint("volume_ended"@) is None,
        !data.flag("queue_finished"@) && !data.flag("queue_cancelled"@),
    ensures
        ({
            let after = audit_offers::audit_fix(s, c, tool, args, data, found, queue_running);
            &&& data.flag("consistency_passed"@) ==> after.0.pending_audit is None && after.1
                is Dismissed
            &&& data.denied("consistency_passed"@) && !prompts::meta_only(data) ==> {
                &&& after.1 is Open
                &&& after.0.pending_audit matches Some(p)
                &&& p.project == project && p.chapter == n && p.kind == AuditGateKind::Content
                &&& p.issues == found
            }
            &&& !data.flag("consistency_passed"@) && prompts::meta_only(data) ==> {
                &&& after.0.pending_audit matches Some(p)
                &&& p.project == project && p.chapter == n && p.kind == AuditGateKind::Infra
                &&& p.decision_options.len() == 0
                &&& after.1 matches AuditFixV::Open { card, todos }
                &&& card.options == gates::shown(c, "audit_infra"@)
            }
            &&& data.bool("consistency_passed"@) is None && !prompts::meta_only(data)
                && !data.flag("needs_user_choice"@) && data.text("status"@) != Some(
                "awaiting_human"@,
            ) ==> after == (s, AuditFixV::Nothing)
            &&& data.bool("consistency_passed"@) is None && !prompts::meta_only(data) && (
            data.flag("needs_user_choice"@) || data.text("status"@) == Some("awaiting_human"@))
                ==> after.1 is Open
        }),
{
}

/// Other tools leave the card of an audit alone; the end of the queue closes it.
pub proof fn only_audits_move_the_card(
    s: ThreadV,
    c: Seq<GateV>,
    tool: Seq<char>,
    args: JsonV,
    data: JsonV,
    found: Seq<IssueV>,
    queue_running: bool,
)
    ensures
        ({
            let after = audit_offers::audit_fix(s, c, tool, args, data, found, queue_running);
            let audits = tool == "audit_chapter"@ || tool == "audit_chapters"@ || tool
                == "continue_writing"@;
            &&& !audits || data.uint("volume_ended"@) is Some ==> after == (s, AuditFixV::Nothing)
            &&& audits && data.uint("volume_ended"@) is None && (data.flag("queue_finished"@)
                || data.flag("queue_cancelled"@)) ==> after.0.pending_audit is None && after.1
                is Dismissed
        }),
{
}

/// What could not be carried out is told by its report, or by every issue being one
/// of the tool's own.
pub proof fn failed_tool_is_told_apart(data: JsonV, i: int)
    ensures
        data.list("issues"@) is Some && 0 <= i < data.list("issues"@)->0.len()
            && text::ascii_lowered(data.list("issues"@)->0[i].text_or_empty("type"@)) != "meta"@
            ==> !prompts::meta_only(data),
        data.list("issues"@) == Some(Seq::<JsonV>::empty()) ==> !prompts::meta_only(data),
        data.list("issues"@) is None && data.text("report"@) is Some && text::occurs(
            data.text("report"@)->0,
            "无法解析"@,
        ) ==> prompts::meta_only(data),
        data.list("issues"@) is None && data.text("report"@) is Some && text::occurs(
            data.text("report"@)->0,
            "模型返回为空"@,
        ) ==> prompts::meta_only(data),
{
}

/// Decisions that the studio offers are put on the card of the audit that waits,
/// about its chapter unless the call names another; a refused offer changes nothing.
pub proof fn offered_decisions_reach_the_card(
    s: ThreadV,
    args: JsonV,
    data: JsonV,
    found: Seq<IssueV>,
    queue_active: bool,
    p: PendingAuditV,
)
    requires
        s.pending_audit == Some(p),
        args.text("kind"@) == Some("audit"@) || (args.text("kind"@) is None && data.text("kind"@)
            is None),
    ensures
        ({
            let after = audit_offers::offer_applied(s, args, data, found, queue_active);
            &&& p.kind == AuditGateKind::Infra ==> after == (s, OfferApplyV::Ignored)
            &&& after.1 is Rejected ==> after.0 == s
            &&& after.1 is OpenedGate ==> {
                &&& after.0.pending_audit matches Some(q)
                &&& args.text("project"@) is None ==> q.project == p.project
                &&& args.text("project"@) is Some ==> Some(q.project) == args.text("project"@)
                &&& args.uint("chapter"@) is None ==> q.chapter == p.chapter
                &&& q.kind == AuditGateKind::Content && !q.awaiting_offer
                &&& data.get("issues"@) is None && p.issues.len() > 0 ==> q.issues == p.issues
            }
            &&& p.kind == AuditGateKind::Content && audit_decisions::offered(
                audit_decisions::or_text(args.text("project"@), p.project),
                match args.uint("chapter"@) {
                    Some(n) => n as u32,
                    None => p.chapter,
                },
                p.issues,
                audit_offers::raw_options(args, data),
                queue_active,
            ) is Ok ==> after.1 is OpenedGate
        }),
        audit_offers::offer_applied(
            ThreadV { pending_audit: None, ..s },
            args,
            data,
            found,
            queue_active,
        ).1 is Ignored,
{
    reveal_strlit("audit");
    reveal_strlit("studio_next");
    assert("audit"@.len() == 5);
    assert("studio_next"@.len() == 11);
}

/// A failed audit first waits for the studio's offer: the card is about the audited
/// chapter and holds no decision yet.
pub proof fn failed_audit_waits_for_the_studio(
    s: ThreadV,
    project: Seq<char>,
    chapter: u32,
    found: Seq<IssueV>,
)
    ensures
        audit_offers::awaiting_studio(s, project, chapter, found).pending_audit == Some(
            PendingAuditV {
                project,
                chapter,
                kind: AuditGateKind::Content,
                issues: found,
                decision_options: Seq::empty(),
                awaiting_offer: true,
            },
        ),
{
}

/// An issue is read as it was told; its message under either name.
pub proof fn issues_are_read(v: JsonV, priority: Seq<char>, kind: Seq<char>)
    ensures
        ({
            let i = issues::issue_read(v, priority, kind);
            &&& i.id == v.text("id"@)
            &&& i.priority == priority && i.kind == kind
            &&& v.text("message"@) is Some ==> i.message == v.text("message"@)
            &&& v.get("message"@) is None ==> i.message == v.text("description"@)
            &&& v.text("quote"@) is Some ==> Some(i.quote) == v.text("quote"@)
            &&& v.text("location"@) is Some ==> Some(i.location) == v.text("location"@)
        }),
{
}

/// The issues are those that the result tells, or else those on record.
pub proof fn told_issues_come_first(data: JsonV, stored: Option<JsonV>)
    ensures
        data.list("issues"@) is Some && data.list("issues"@)->0.len() > 0
            ==> audit_offers::told_issues(data, stored) == data.list("issues"@)->0,
        data.list("issues"@) is None && stored is Some && stored->0.list("issues"@) is Some
            ==> audit_offers::told_issues(data, stored) == stored->0.list("issues"@)->0,
{
}

} // verus!
