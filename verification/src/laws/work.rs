//! How the steps of a piece of work follow one another.

use vstd::prelude::*;

use crate::confirm;
use crate::confirm::{ApplyNextV, ConfirmPlanV};
use crate::gates;
use crate::gates::GateV;
use crate::issues::IssueV;
use crate::json::JsonV;
use crate::laws::reading;
use crate::laws::volumes;
use crate::offers::ContextV;
use crate::picks;
use crate::plot_write;
use crate::plot_write::ActionV;
use crate::prompts;
use crate::steer;
use crate::steer::SteerNextV;
use crate::text;
use crate::thread_state::{AuditGateKind, MutationV, PendingAuditV, ThreadV};
use crate::tool_loop;
use crate::tool_loop::{CallCards, CallStep, LoopV, ModelCallV};
use crate::writing::NextChapter;

verus! {

/// A revision is audited again: in the queue where one runs, or else the same chapter
/// of the same project, against the issues found before.
pub proof fn revision_is_audited_again(
    args: JsonV,
    data: JsonV,
    queue_running: bool,
    auto_reaudit: bool,
    project: Seq<char>,
    n: u32,
)
    requires
        args.text("choice"@) == Some("revise"@),
        args.text("project"@) == Some(project),
        args.uint("chapter"@) == Some(n as u64),
        !data.flag("accepted"@),
    ensures
        ({
            let r = steer::steered("steer_run"@, args, data, queue_running, auto_reaudit);
            &&& data.flag("needs_confirm"@) && data is Object ==> (r matches SteerNextV::Preview(d)
                && d.flag("reaudit_after"@) && forall|key: Seq<char>|
                key != "reaudit_after"@ ==> #[trigger] d.get(key) == data.get(key))
            &&& !data.flag("needs_confirm"@) && queue_running ==> (
            r matches SteerNextV::ContinueQueue(a) && a.text("project"@) == Some(project) && a.text(
                "action"@,
            ) == Some("continue"@))
            &&& !data.flag("needs_confirm"@) && !queue_running && auto_reaudit ==> (
            r matches SteerNextV::Reaudit(a, c) && c == n && a.text("project"@) == Some(project)
                && a.uint("chapter"@) == Some(n as u64) && a.flag("verify_previous"@))
            &&& !data.flag("needs_confirm"@) && !queue_running && !auto_reaudit ==> r is Nothing
        }),
{
    reading::put_reads_back();
    reading::names_differ();
    revise_is_no_acceptance();
    reveal_strlit("verify_previous");
}

proof fn revise_is_no_acceptance()
    ensures
        text::ascii_lowered(text::trimmed("revise"@)) == "revise"@,
        "revise"@ != "accept"@,
        !text::occurs("revise"@, "接受"@),
{
    reveal_strlit("revise");
    reveal_strlit("accept");
    assert("revise"@.len() == 6);
    assert("accept"@.len() == 6);
    assert("revise"@[0] != "accept"@[0]);
    reveal_strlit("接受");
    assert(!text::is_space('r') && !text::is_space('e'));
    assert(text::trim_front("revise"@) == "revise"@);
    assert(text::trim_back("revise"@) == "revise"@);
    assert(text::ascii_lowered("revise"@) =~= "revise"@);
    if text::occurs("revise"@, "接受"@) {
        let i = choose|i: int| text::occurs_at("revise"@, "接受"@, i);
        let r = "revise"@.subrange(i, i + 2);
        assert(r[0] == '接');
        assert("revise"@[i] == '接');
        assert(i == 0 || i == 1 || i == 2 || i == 3 || i == 4);
    }
}

/// Accepting is final: it is not audited again; other tools are no steering at all.
pub proof fn acceptance_is_final(
    args: JsonV,
    data: JsonV,
    queue_running: bool,
    auto_reaudit: bool,
    tool: Seq<char>,
)
    ensures
        data.flag("accepted"@) ==> steer::steered(
            "steer_run"@,
            args,
            data,
            queue_running,
            auto_reaudit,
        ) is Nothing,
        tool != "steer_run"@ ==> steer::steered(tool, args, data, queue_running, auto_reaudit)
            is Nothing && !steer::accepts(tool, args, data) && !steer::revises(tool, args, data),
        text::ascii_lowered(text::trimmed(args.text_or_empty("choice"@))) == "accept"@
            ==> steer::accepts("steer_run"@, args, data),
{
}

/// A polishing revision is of the chapter asked for, by the instructions given.
pub proof fn polishing_names_its_chapter(project: Seq<char>, n: u32, how: Seq<char>)
    ensures
        steer::polish_args(project, n, how).text("project"@) == Some(project),
        steer::polish_args(project, n, how).uint("chapter"@) == Some(n as u64),
        steer::polish_args(project, n, how).text("instructions"@) == Some(how),
{
    reading::put_reads_back();
    reading::names_differ();
}

/// Confirming applies the very change that was shown; a wrong id applies nothing and
/// shows it again; discarding applies nothing and forgets it.
pub proof fn shown_change_is_applied(
    s: ThreadV,
    c: Seq<GateV>,
    args: JsonV,
    m: MutationV,
)
    requires
        s.pending_mutation == Some(m),
    ensures
        ({
            let yes = confirm::confirmed(s, c, "__apply_mutation"@, args);
            let no = confirm::confirmed(s, c, "__discard_mutation"@, args);
            let right = args.text_or_empty("mutation_id"@) == m.mutation_id;
            &&& right ==> {
                &&& yes.1 matches ConfirmPlanV::Apply { tool, args: a, intro, reaudit_after }
                &&& tool == m.apply_tool && a == m.apply_args && reaudit_after == m.reaudit_after
                &&& yes.0 == (ThreadV { pending_mutation: None, ..s })
            }
            &&& !right ==> {
                &&& yes.0 == s
                &&& yes.1 matches ConfirmPlanV::Mismatch { summary, card }
                &&& text::occurs(summary, m.mutation_id)
                &&& card.options == gates::shown(c, "confirm_mutation"@)
                &&& card.prompt == "待确认："@ + m.summary
                &&& card.preview is Some && (card.preview->0).0 == m.preview
            }
            &&& no.0 == (ThreadV { pending_mutation: None, ..s })
            &&& no.1 is Discard
            &&& m.apply_tool == "design_master_outline"@ || m.apply_tool == "design_arc_outline"@
                || m.apply_tool == "upsert_setting"@ || m.apply_tool == "supplement_setting"@ ==> (
            no.1 matches ConfirmPlanV::Discard { summary, setup_project } && setup_project
                == m.apply_args.text("project"@))
        }),
        confirm::confirmed(
            ThreadV { pending_mutation: None, ..s },
            c,
            "__apply_mutation"@,
            args,
        ).1 is NoChange,
{
    reveal_strlit("__apply_mutation");
    reveal_strlit("__discard_mutation");
    assert("__apply_mutation"@.len() == 16);
    assert("__discard_mutation"@.len() == 18);
    if args.text_or_empty("mutation_id"@) != m.mutation_id {
        assert(text::occurs(
            "确认失败：mutation_id 不匹配（期望 "@ + m.mutation_id
                + "）。请重新点「应用修改」。"@,
            m.mutation_id,
        )) by {
            reading::joined_texts();
        }
    }
}

/// An applied revision is audited again, where that was asked for and is allowed;
/// one that shows another change waits; any other goes on.
pub proof fn applied_revision_is_audited(
    tool: Seq<char>,
    args: JsonV,
    data: JsonV,
    project: Seq<char>,
    n: u32,
)
    requires
        args.text("project"@) == Some(project),
        project.len() > 0,
        args.uint("chapter"@) == Some(n as u64),
        n > 0,
        !data.flag("needs_confirm"@),
    ensures
        tool == "revise_chapter"@ || tool == "steer_run"@ ==> confirm::applied_next(
            tool,
            args,
            true,
            true,
            data,
        ) == ApplyNextV::Reaudit(Some((project, n))),
        tool != "revise_chapter"@ && tool != "steer_run"@ ==> confirm::applied_next(
            tool,
            args,
            true,
            true,
            data,
        ) == ApplyNextV::Advance,
        confirm::applied_next(tool, args, false, true, data) == ApplyNextV::Advance,
        confirm::applied_next(tool, args, true, false, data) == ApplyNextV::Advance,
        confirm::reaudit_args(project, n).text("project"@) == Some(project),
        confirm::reaudit_args(project, n).uint("chapter"@) == Some(n as u64),
        confirm::reaudit_args(project, n).flag("verify_previous"@),
{
    reading::put_reads_back();
    reading::names_differ();
    reveal_strlit("verify_previous");
    assert("verify_previous"@.len() == 15);
}

/// A change shown inside a change waits for its own confirmation.
pub proof fn nested_change_waits(tool: Seq<char>, args: JsonV, a: bool, b: bool, data: JsonV)
    requires
        data.flag("needs_confirm"@),
    ensures
        confirm::applied_next(tool, args, a, b, data) == ApplyNextV::Nested,
{
}

/// A plot card that was chosen is activated, under its title, and then the chapter is
/// written; where activating fails nothing is written.
pub proof fn chosen_plot_is_activated_and_written(
    project: Seq<char>,
    title: Seq<char>,
    body: Seq<char>,
    output: Seq<char>,
    data: JsonV,
)
    ensures
        ({
            let a = ActionV::ActivateAndWrite { project, title };
            let one = plot_write::first_step(a);
            let two = plot_write::second_step(a, body, output, data);
            &&& one matches plot_write::StepV::Run { call, body: b }
            &&& call.name == "update_plot"@ && call.confirmed
            &&& call.args.text("project"@) == Some(project)
            &&& call.args.text("title"@) == Some(title)
            &&& call.args.text("status"@) == Some("in_progress"@)
            &&& call.args.flag("set_active_main"@)
            &&& data.flag("blocked"@) || data.get("error"@) is Some ==> two is Say
            &&& !data.flag("blocked"@) && data.get("error"@) is None ==> writes(two, project)
        }),
        plot_write::first_step(ActionV::Dismiss) is Say,
        plot_write::second_step(ActionV::Dismiss, body, output, data) is Say,
{
    reading::put_reads_back();
    reading::names_differ();
    reveal_strlit("title");
    reveal_strlit("status");
    reveal_strlit("set_active_main");
    reveal_strlit("project");
    assert("title"@.len() == 5);
    assert("status"@.len() == 6);
    assert("set_active_main"@.len() == 15);
    assert("project"@.len() == 7);
}

/// The step writes the next chapter of the project.
pub open spec fn writes(s: plot_write::StepV, project: Seq<char>) -> bool {
    s matches plot_write::StepV::Run { call, body } && call.name == "continue_writing"@
        && call.confirmed && call.args.text("project"@) == Some(project)
}

/// A tool that was chosen runs as chosen; a plot card that it designs is written on,
/// any other tool ends the matter.
pub proof fn chosen_tool_is_run(
    name: Seq<char>,
    args: JsonV,
    body: Seq<char>,
    output: Seq<char>,
    data: JsonV,
    project: Seq<char>,
)
    requires
        args.text("project"@) == Some(project),
        project.len() > 0,
    ensures
        ({
            let a = ActionV::Tool { name, args };
            let one = plot_write::first_step(a);
            let two = plot_write::second_step(a, body, output, data);
            &&& one matches plot_write::StepV::Run { call, body: b }
            &&& call.name == name && call.args == args
            &&& call.confirmed <==> name == "design_plot"@ || name == "continue_writing"@
            &&& name == "design_plot"@ && !data.flag("blocked"@) && data.get("error"@) is None
                ==> writes(two, project)
            &&& name != "design_plot"@ ==> two is Say
        }),
{
    reading::put_reads_back();
}

/// A draft in the way of a choice to write is asked about, with its chapter and the
/// next; a choice that names a chapter is not.
pub proof fn draft_stops_a_bare_choice(
    args: JsonV,
    bound: Option<Seq<char>>,
    n: NextChapter,
    k: u32,
    project: Seq<char>,
)
    requires
        n.next_chapter == Some(k),
        0 < k < u32::MAX,
        n.draft_chars >= n.draft_min_chars,
        project.len() > 0,
        args.text("project"@) == Some(project) || (args.text("project"@) is None && bound == Some(
            project,
        )),
    ensures
        args.uint("chapter"@) is None ==> (picks::draft_in_the_way(
            "continue_writing"@,
            args,
            bound,
            n,
        ) matches Some(r) && r.1.project == project && r.1.context == (ContextV::DraftExists {
            chapter: k,
            suggest_chapter: (k + 1) as u32,
        })),
        args.uint("chapter"@) is Some ==> picks::draft_in_the_way(
            "continue_writing"@,
            args,
            bound,
            n,
        ) is None,
        picks::draft_in_the_way("revise_chapter"@, args, bound, n) is None,
        picks::draft_in_the_way(
            "continue_writing"@,
            args,
            bound,
            NextChapter { draft_chars: 0, draft_min_chars: 1, ..n },
        ) is None,
{
    reveal_strlit("continue_writing");
    reveal_strlit("revise_chapter");
    assert("continue_writing"@.len() == 16);
    assert("revise_chapter"@.len() == 14);
}

/// A chapter that was repaired at once is audited instead of revised; any other call
/// stays as it is.
pub proof fn repaired_chapter_is_audited(
    tool: Seq<char>,
    args: JsonV,
    bound: Option<Seq<char>>,
    n: u32,
)
    requires
        args.uint("chapter"@) == Some(n as u64),
    ensures
        ({
            let r = picks::call_after_repair("revise_chapter"@, args, bound, true);
            &&& r.0 == "audit_chapter"@
            &&& r.1.uint("chapter"@) == Some(n as u64)
            &&& args.text("project"@) is Some ==> r.1.text("project"@) == args.text("project"@)
            &&& args.text("project"@) is None && bound is Some ==> r.1.text("project"@) == bound
        }),
        picks::call_after_repair(tool, args, bound, false) == (tool, args),
        tool != "revise_chapter"@ ==> picks::call_after_repair(tool, args, bound, true) == (
            tool,
            args,
        ),
{
    reading::put_reads_back();
    reading::names_differ();
}

/// A reply without calls ends the round, but for one reminder where chapter work is
/// owed and projects were only listed.
pub proof fn reply_without_calls_ends(
    s: LoopV,
    content: Seq<char>,
    owes: bool,
    bound: Option<Seq<char>>,
)
    ensures
        ({
            let none = Seq::<ModelCallV>::empty();
            let r = tool_loop::replied(s, content, none, owes, bound);
            let listed = s.last_tools.len() > 0 && forall|i: int|
                0 <= i < s.last_tools.len() ==> #[trigger] s.last_tools[i] == "list_projects"@;
            &&& owes && listed && !s.nudged ==> r.1 is Nudge && (bound is Some ==> text::occurs(
                r.1->Nudge_0,
                bound->0,
            ))
            &&& !(owes && listed && !s.nudged) ==> r.1 is Finish
            &&& content.len() > 0 ==> r.0.words == s.words + content
            &&& content.len() == 0 ==> r.0.words == s.words
        }),
{
    if bound is Some {
        assert(text::occurs(tool_loop::reminder(bound), bound->0)) by {
            reading::joined_texts();
        }
    }
}

/// A reply with calls runs them; only a tool that reads and was called three times in
/// a row is skipped, and its count starts anew.
pub proof fn reply_with_calls_runs(
    s: LoopV,
    content: Seq<char>,
    calls: Seq<ModelCallV>,
    owes: bool,
    bound: Option<Seq<char>>,
)
    requires
        calls.len() > 0,
        s.repeats < 3,
    ensures
        ({
            let r = tool_loop::replied(s, content, calls, owes, bound);
            let t = calls[0].name;
            let reads = t == "query_lore"@ || t == "query_memory"@ || t == "list_projects"@ || t
                == "list_entities"@;
            &&& r.0.last_tools.len() == calls.len()
            &&& forall|i: int|
                0 <= i < calls.len() ==> #[trigger] r.0.last_tools[i] == calls[i].name
            &&& !reads ==> r.1 is Run && r.0.repeats == 0
            &&& reads && s.repeated != t ==> r.1 is Run && r.0.repeats == 1 && r.0.repeated == t
            &&& reads && s.repeated == t && s.repeats < 2 ==> r.1 is Run && r.0.repeats == s.repeats
                + 1
            &&& reads && s.repeated == t && s.repeats == 2 ==> r.1 is Skip && r.0.repeats == 0
            &&& content.len() <= 8 ==> r.0.words == s.words
            &&& content.len() > 8 ==> r.0.words == s.words + content
        }),
{
}

/// The chapter of a call to write is the author's: where the author named none, none
/// is kept; where one is named and the call has none, it is filled in.
pub proof fn authors_chapter_is_trusted(name: Seq<char>, args: JsonV, request: &str)
    requires
        args is Object,
    ensures
        name != "continue_writing"@ ==> tool_loop::trusted_args(name, args, request) == args,
        crate::intent::named_number(request@, "章"@, "chapter "@) is None ==> tool_loop::trusted_args(
            "continue_writing"@,
            args,
            request,
        ).get("chapter"@) is None,
        crate::intent::named_number(request@, "章"@, "chapter "@) is Some && text::trimmed(
            request@,
        ).len() > 0 && args.uint("chapter"@) is None ==> tool_loop::trusted_args(
            "continue_writing"@,
            args,
            request,
        ).uint("chapter"@) == Some(
            crate::intent::named_number(request@, "章"@, "chapter "@)->0 as u64,
        ),
        crate::intent::named_number(request@, "章"@, "chapter "@) is Some && args.uint("chapter"@)
            is Some && args.uint("chapter"@)->0 > 0 ==> tool_loop::trusted_args(
            "continue_writing"@,
            args,
            request,
        ) == args,
{
    reading::put_reads_back();
    crate::json::nothing_after_drop(args, "chapter"@);
    let h = seq![request];
    assert(h[0] == request);
    reveal_with_fuel(prompts::hinted_from, 2);
}

/// A failed audit is told with its project and chapter; a passed one, one that could
/// not be carried out, and the end of a volume are not.
pub proof fn failed_audits_are_told(
    tool: Seq<char>,
    args: JsonV,
    data: JsonV,
    project: Seq<char>,
    n: u32,
)
    requires
        volumes::names_project(data, args, project),
        data.uint("chapter"@) == Some(n as u64),
    ensures
        ({
            let failed = (tool == "audit_chapter"@ || tool == "audit_chapters"@ || tool
                == "continue_writing"@) && data.denied("consistency_passed"@)
                && !prompts::meta_only(data) && data.uint("volume_ended"@) is None;
            &&& failed ==> tool_loop::failed_place(tool, args, data) == Some((project, n))
            &&& !failed ==> tool_loop::failed_place(tool, args, data) is None
        }),
{
}

/// Any open card stops the round; so does a chapter that was written or revised,
/// unless its failed audit still waits for decisions; other calls go on.
pub proof fn cards_stop_the_round(tool: Seq<char>, failed: bool, awaiting: bool, c: CallCards)
    ensures
        ({
            let r = tool_loop::call_step(tool, failed, awaiting, c);
            let writes = tool == "continue_writing"@ || tool == "revise_chapter"@;
            let audits = tool == "audit_chapter"@ || tool == "audit_chapters"@;
            &&& c.chain || c.audit ==> r == CallStep::Pause
            &&& writes && c.draft ==> r == CallStep::Pause
            &&& writes && !c.chain && !c.audit && !c.draft && failed && awaiting ==> r
                == CallStep::EndBatch
            &&& writes && !(failed && awaiting) ==> r == CallStep::Pause
            &&& audits && c.next ==> r == CallStep::Pause
            &&& !c.chain && !c.audit && !writes && !(audits && c.next) ==> r == CallStep::NextCall
        }),
{
    reveal_strlit("continue_writing");
    reveal_strlit("revise_chapter");
    reveal_strlit("audit_chapter");
    reveal_strlit("audit_chapters");
    assert("continue_writing"@.len() == 16);
    assert("revise_chapter"@.len() == 14);
    assert("audit_chapter"@.len() == 13);
    assert("audit_chapters"@.len() == 14);
    assert("revise_chapter"@[0] != "audit_chapters"@[0]);
}

/// Where the studio offered no decisions, the audit's own card opens at the end, about
/// the same chapter, with the issues found or else those on record.
pub proof fn own_card_opens_in_the_end(
    s: ThreadV,
    p: PendingAuditV,
    stored: Seq<IssueV>,
    queue_active: bool,
)
    requires
        s.pending_audit == Some(p),
    ensures
        ({
            let after = tool_loop::fallback_card(s, true, stored, queue_active);
            let due = p.awaiting_offer && p.kind == AuditGateKind::Content;
            &&& due ==> {
                &&& after.1 is Some
                &&& after.0.pending_audit matches Some(q)
                &&& q.project == p.project && q.chapter == p.chapter && !q.awaiting_offer
                &&& q.issues == if p.issues.len() > 0 {
                    p.issues
                } else {
                    stored
                }
            }
            &&& !due ==> after == (s, None::<crate::offers::CardV>)
        }),
        tool_loop::fallback_card(s, false, stored, queue_active).1 is None,
{
}

/// The words that close a turn are what was said last; a checklist that was shown
/// already is not said again.
pub proof fn closing_words_are_the_last(
    said: Seq<char>,
    messages: Seq<tool_loop::SaidV>,
    turns: JsonV,
    turn_id: Seq<char>,
    item: Seq<char>,
)
    ensures
        ({
            let w = tool_loop::closing_words(said, messages, turns, turn_id, item);
            let shown = tool_loop::has_own_checklist(turns, turn_id, item);
            &&& text::trimmed(said).len() > 0 && (!prompts::checklist_text(said) || !shown) ==> w
                == said
            &&& text::trimmed(said).len() > 0 && prompts::checklist_text(said) && shown ==> w.len()
                == 0
            &&& text::trimmed(said).len() == 0 && messages.len() > 0 && messages.last().role
                == "assistant"@ && text::trimmed(messages.last().content).len() > 0
                && !prompts::checklist_text(messages.last().content) ==> w
                == messages.last().content
        }),
{
}

} // verus!
