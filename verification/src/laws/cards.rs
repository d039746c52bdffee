//! Which card opens after a tool ran.

use vstd::prelude::*;

use crate::chapter_offers;
use crate::chapter_offers::ChapterFactsV;
use crate::gates;
use crate::gates::GateV;
use crate::json::JsonV;
use crate::laws::reading;
use crate::laws::volumes;
use crate::offers;
use crate::offers::{ContextV, OfferV, ScanV};
use crate::prompts;
use crate::text;
use crate::thread_state::{ChapterOrderV, SettingBlockerV, ThreadV};
use crate::volume::FactsV;

verus! {

/// A change that waits for confirmation is kept as the tool described it, and its
/// card asks about it with what would change; until then nothing else is asked.
pub proof fn described_change_waits(s: ThreadV, c: Seq<GateV>, data: JsonV)
    requires
        data.flag("needs_confirm"@),
        data.text_or_empty("mutation_id"@).len() > 0,
        data.text_or_empty("apply_tool"@).len() > 0,
        s.pending_volume_sync is None,
    ensures
        ({
            let after = offers::mutation_offer(s, c, data);
            &&& after.0.pending_mutation matches Some(m)
            &&& Some(m.mutation_id) == data.text("mutation_id"@)
            &&& Some(m.apply_tool) == data.text("apply_tool"@)
            &&& data.get("apply_args"@) is Some ==> Some(m.apply_args) == data.get("apply_args"@)
            &&& data.get("apply_args"@) is None ==> m.apply_args == JsonV::empty_object()
            &&& data.text("summary"@) is Some ==> Some(m.summary) == data.text("summary"@)
            &&& data.get("preview"@) is Some ==> Some(m.preview) == data.get("preview"@)
            &&& m.reaudit_after == data.flag("reaudit_after"@)
            &&& m.mutation_kind == data.text_or_empty("mutation_kind"@)
            &&& after.1 matches OfferV::Open(card)
            &&& card.prompt == "待确认："@ + m.summary
            &&& card.options == gates::shown(c, "confirm_mutation"@)
            &&& data.get("preview"@) is Some && data.get("preview"@)->0.get("diffs"@) is Some
                ==> card.preview == Some(
                (data.get("preview"@)->0, data.get("preview"@)->0.get("diffs"@)->0),
            )
            &&& after.0.pending_setup is None && after.0.pending_chapter_next is None
                && after.0.pending_chapter_order is None && after.0.pending_studio_next is None
            &&& data.text("apply_tool"@) == Some("design_master_outline"@) || data.text(
                "apply_tool"@,
            ) == Some("design_arc_outline"@) ==> after.0.outline_rewrite_active
        }),
{
}

/// Without a change to confirm no such card opens.
pub proof fn no_change_no_card(s: ThreadV, c: Seq<GateV>, data: JsonV)
    requires
        !data.flag("needs_confirm"@) || data.text_or_empty("mutation_id"@).len() == 0
            || data.text_or_empty("apply_tool"@).len() == 0 || s.pending_volume_sync is Some,
    ensures
        offers::mutation_offer(s, c, data) == (s, OfferV::Nothing),
{
}

/// An applied change that other places depend on asks whether to carry it there;
/// the card keeps the places found and what to go on with.
pub proof fn dependent_places_are_asked_about(
    s: ThreadV,
    c: Seq<GateV>,
    tool: Seq<char>,
    args: JsonV,
    data: JsonV,
    scan: ScanV,
    project: Seq<char>,
)
    requires
        !data.flag("blocked"@),
        !data.flag("needs_confirm"@),
        volumes::names_project(args, data, project),
        s.pending_mutation is None,
        s.pending_volume_sync is None,
        scan.source is Some,
    ensures
        scan.hits.len() == 0 ==> offers::impact_offer(s, true, c, tool, args, data, scan) == (
            s,
            OfferV::Nothing,
        ),
        offers::impact_offer(s, false, c, tool, args, data, scan) == (s, OfferV::Nothing),
        scan.hits.len() > 0 ==> {
            let after = offers::impact_offer(s, true, c, tool, args, data, scan);
            &&& after.0.pending_impact matches Some(p)
            &&& p.project == project
            &&& p.source == scan.source->0
            &&& p.hits == scan.hits
            &&& p.resume_tool == tool && p.resume_args == args && p.resume_data == data
            &&& after.1 matches OfferV::Open(card)
            &&& card.options == gates::shown(c, "confirm_impact"@)
            &&& text::occurs(card.prompt, tool)
            &&& text::ends(card.prompt, scan.summary_markdown)
            &&& text::occurs(card.prompt, text::dec(scan.hits.len()))
        },
{
    if scan.hits.len() > 0 {
        let a = "「"@ + tool + "」已落盘。发现 "@ + text::dec(scan.hits.len())
            + " 处可能受影响的依赖位点。是否自动同步修正？\n\n"@;
        assert(text::occurs(a + scan.summary_markdown, tool) && text::occurs(
            a + scan.summary_markdown,
            text::dec(scan.hits.len()),
        ) && text::ends(a + scan.summary_markdown, scan.summary_markdown)) by {
            reading::joined_texts();
        }
    }
}

/// No card is open that outranks the order of chapters.
pub open spec fn free_for_order(s: ThreadV) -> bool {
    s.pending_mutation is None && s.pending_impact is None && s.pending_volume_sync is None
        && s.pending_volume_handoff is None && s.pending_setup is None && s.pending_audit is None
}

/// Chapters are written in order: writing that would skip one asks for the next,
/// which the card names on its prompt and keeps.
pub proof fn chapters_are_written_in_order(
    s: ThreadV,
    c: Seq<GateV>,
    args: JsonV,
    data: JsonV,
    project: Seq<char>,
    n: u32,
)
    requires
        data.flag("blocked"@),
        data.text("reason"@) == Some("chapter_skip"@) || data.text("reason"@) == Some(
            "chapter_gap"@,
        ),
        volumes::names_project(data, args, project),
        data.uint("next_chapter"@) == Some(n as u64),
        n > 0,
        free_for_order(s),
    ensures
        ({
            let after = offers::order_offer(s, c, "continue_writing"@, args, data);
            &&& after.0.pending_chapter_order == Some(ChapterOrderV { project, next_chapter: n })
            &&& after.0.pending_chapter_next is None
            &&& after.1 matches OfferV::Open(card)
            &&& text::occurs(card.prompt, "第"@ + text::dec(n as nat) + "章"@)
            &&& card.options.len() == gates::shown(c, "chapter_order"@).len()
            &&& forall|i: int|
                0 <= i < card.options.len() ==> (#[trigger] card.options[i]).id == gates::shown(
                    c,
                    "chapter_order"@,
                )[i].id && card.options[i].label == text::replaced(
                    gates::shown(c, "chapter_order"@)[i].label,
                    "{{next_chapter}}"@,
                    text::dec(n as nat),
                )
        }),
{
    let p = offers::order_prompt(n);
    let mark = "第"@ + text::dec(n as nat) + "章"@;
    reveal_strlit("第");
    reveal_strlit("章");
    reveal_strlit("不能跳章。当前应写第");
    reveal_strlit("章，请选择：");
    let i = "不能跳章。当前应写第"@.len() - 1;
    assert(p.subrange(i, i + mark.len()) =~= mark);
    assert(text::occurs_at(p, mark, i));
}

/// No order is asked about where none was broken, or where another card stands.
pub proof fn order_is_not_asked_about_otherwise(
    s: ThreadV,
    c: Seq<GateV>,
    tool: Seq<char>,
    args: JsonV,
    data: JsonV,
)
    requires
        tool != "continue_writing"@ || !data.flag("blocked"@) || (data.text("reason"@) != Some(
            "chapter_skip"@,
        ) && data.text("reason"@) != Some("chapter_gap"@)) || !free_for_order(s),
    ensures
        offers::order_offer(s, c, tool, args, data) == (s, OfferV::Nothing),
{
}

/// Writing without a plot card asks the studio for one; the request tells whether
/// there is none or it is not active, for which volume and title.
pub proof fn missing_plot_is_asked_for(
    args: JsonV,
    data: JsonV,
    target: u32,
    title: Seq<char>,
    project: Seq<char>,
)
    requires
        data.flag("blocked"@),
        data.text("reason"@) == Some("need_design_plot"@) || data.text("reason"@) == Some(
            "planned_inactive"@,
        ),
        volumes::names_project(data, args, project),
    ensures
        offers::plot_write_offer("continue_writing"@, args, data, target, title) matches OfferV::Ask(
            r,
        ) && {
            &&& r.project == project
            &&& !r.outline_rewrite
            &&& r.context matches ContextV::PlotWrite { kind, title: t, volume }
            &&& Some(kind) == data.text("reason"@)
            &&& data.text("plot_title"@) is Some && data.text("plot_title"@)->0.len() > 0 ==> Some(
                t,
            ) == data.text("plot_title"@)
            &&& data.text("plot_title"@) is None ==> t == title
            &&& data.uint("volume"@) is None ==> volume == target
            &&& data.uint("volume"@) is Some && data.uint("volume"@)->0 <= u32::MAX ==> volume
                == data.uint("volume"@)->0
        },
{
    reveal_strlit("need_design_plot");
    reveal_strlit("planned_inactive");
    assert("need_design_plot"@.len() == 16);
    assert("planned_inactive"@.len() == 16);
    assert("need_design_plot"@[0] != "planned_inactive"@[0]);
}

/// Only writing that is blocked for that reason asks for a plot card or about a
/// draft.
pub proof fn only_blocked_writing_asks(
    tool: Seq<char>,
    args: JsonV,
    data: JsonV,
    target: u32,
    title: Seq<char>,
)
    requires
        tool != "continue_writing"@ || !data.flag("blocked"@),
    ensures
        offers::plot_write_offer(tool, args, data, target, title) is Nothing,
        offers::draft_offer(tool, args, data) is Nothing,
{
}

/// A draft in the way asks what to do with it: the request names its chapter and
/// the chapter that would be written instead.
pub proof fn draft_is_asked_about(args: JsonV, data: JsonV, project: Seq<char>, n: u32)
    requires
        data.flag("blocked"@),
        data.text("reason"@) == Some("draft_exists_without_chapter"@),
        volumes::names_project(data, args, project),
        data.uint("chapter"@) == Some(n as u64),
        0 < n < u32::MAX,
    ensures
        offers::draft_offer("continue_writing"@, args, data) matches OfferV::Ask(r) && {
            &&& r.project == project
            &&& r.context matches ContextV::DraftExists { chapter, suggest_chapter }
            &&& chapter == n
            &&& data.uint("suggest_chapter"@) is None ==> suggest_chapter == n + 1
            &&& data.uint("suggest_chapter"@) is Some && data.uint("suggest_chapter"@)->0
                <= u32::MAX ==> suggest_chapter == data.uint("suggest_chapter"@)->0
            &&& text::begins(r.reason, "第"@ + text::dec(n as nat))
        },
{
    reading::begun_texts();
}

/// An expected event that is due is asked about before a chapter is written; the
/// request tells the event and the chapter.
pub proof fn expected_events_are_asked_about(
    s: ThreadV,
    args: JsonV,
    data: JsonV,
    project: Seq<char>,
    n: u32,
)
    requires
        volumes::names_project(data, args, project),
        data.uint("chapter"@) == Some(n as u64),
        data.flag("blocked"@),
        data.text("reason"@) == Some("need_expected_review"@) || (data.text("reason"@) == Some(
            "expected_event_pending"@,
        ) && data.text_or_empty("event_id"@).len() > 0),
    ensures
        ({
            let after = offers::expected_offer(s, "continue_writing"@, args, data);
            &&& after.0 == s
            &&& after.1 matches OfferV::Ask(r)
            &&& r.project == project
            &&& r.context matches ContextV::ExpectedEvent { kind, chapter, event_id, event_text }
            &&& chapter == n
            &&& data.text("reason"@) == Some("need_expected_review"@) ==> kind == "need_review"@
            &&& data.text("reason"@) == Some("expected_event_pending"@) ==> kind == "decide"@
                && Some(event_id) == data.text("event_id"@) && event_text == data.text_or_empty(
                "event_text"@,
            )
        }),
{
    reveal_strlit("continue_writing");
    reveal_strlit("resolve_expected_event");
    reveal_strlit("review_expected_events");
    assert("continue_writing"@.len() == 16);
    assert("resolve_expected_event"@.len() == 22);
    assert("review_expected_events"@.len() == 22);
    assert("resolve_expected_event"@[2] != "review_expected_events"@[2]);
    reveal_strlit("need_expected_review");
    reveal_strlit("expected_event_pending");
    assert("need_expected_review"@.len() == 20);
    assert("expected_event_pending"@.len() == 22);
}

/// An event that is skipped once is remembered, once, and one that was decided is
/// no longer open.
pub proof fn decided_events_are_remembered(s: ThreadV, tool: Seq<char>, data: JsonV)
    requires
        tool == "resolve_expected_event"@ || tool == "review_expected_events"@,
    ensures
        ({
            let after = offers::event_noted(s, tool, data);
            &&& data.text("event_id"@) is Some && data.flag("skip_once"@)
                ==> after.skipped_expected_ids.contains(data.text("event_id"@)->0)
            &&& !data.flag("skip_once"@) ==> after.skipped_expected_ids == s.skipped_expected_ids
            &&& data.flag("dismiss_expected_gate"@) || data.flag("approved"@)
                ==> !after.pending_expected_event
            &&& !data.flag("dismiss_expected_gate"@) && !data.flag("approved"@)
                ==> after.pending_expected_event == s.pending_expected_event
            &&& after == (ThreadV {
                skipped_expected_ids: after.skipped_expected_ids,
                pending_expected_event: after.pending_expected_event,
                ..s
            })
        }),
        offers::event_noted(s, "continue_writing"@, data) == s,
{
    reveal_strlit("continue_writing");
    reveal_strlit("resolve_expected_event");
    reveal_strlit("review_expected_events");
    assert("continue_writing"@.len() == 16);
    assert("resolve_expected_event"@.len() == 22);
    assert("review_expected_events"@.len() == 22);
    assert("resolve_expected_event"@[2] != "review_expected_events"@[2]);
    if data.text("event_id"@) is Some {
        let id = data.text("event_id"@)->0;
        let v = s.skipped_expected_ids;
        assert(v.push(id)[v.len() as int] == id);
        assert(v.push(id).contains(id));
    }
}

/// A change to the structure that was applied asks the studio for what comes next.
pub proof fn applied_structure_leads_on(tool: Seq<char>, args: JsonV, data: JsonV, project: Seq<char>)
    requires
        volumes::names_project(args, data, project),
    ensures
        ({
            let o = offers::followup_offer(tool, args, data);
            let structure = tool == "upsert_setting"@ || tool == "supplement_setting"@ || tool
                == "design_entity"@ || tool == "delete_entity"@ || tool == "design_master_outline"@
                || tool == "design_arc_outline"@;
            &&& o is Ask <==> structure && !data.flag("needs_confirm"@) && !data.flag("blocked"@)
            &&& o is Nothing <==> !(o is Ask)
            &&& o matches OfferV::Ask(r) ==> r.project == project && r.context
                == (ContextV::Mutation { apply_tool: tool }) && (r.outline_rewrite <==> tool
                == "design_master_outline"@ || tool == "design_arc_outline"@ || tool
                == "upsert_setting"@)
        }),
{
    reveal_strlit("design_master_outline");
    reveal_strlit("design_arc_outline");
    reveal_strlit("upsert_setting");
    reveal_strlit("supplement_setting");
    reveal_strlit("design_entity");
    reveal_strlit("delete_entity");
    assert("design_master_outline"@.len() == 21);
    assert("design_arc_outline"@.len() == 18);
    assert("upsert_setting"@.len() == 14);
    assert("supplement_setting"@.len() == 18);
    assert("design_entity"@.len() == 13);
    assert("delete_entity"@.len() == 13);
    assert("design_arc_outline"@[0] != "supplement_setting"@[0]);
    assert("design_entity"@[2] != "delete_entity"@[2]);
}

/// A chapter is done with where it was published, or stopped by a rule or by its
/// length.
pub open spec fn chapter_is_done(data: JsonV) -> bool {
    data.flag("published"@) || data.flag("content_rule_blocked"@) || data.text("length_status"@)
        == Some("hard_short"@) || data.text("length_status"@) == Some("soft_short_escalated"@)
}

/// After a chapter the author chooses how to go on: the card is about that chapter,
/// knows whether it was published, and has the matching buttons.
pub proof fn chapter_leads_to_a_choice(
    s: ThreadV,
    c: Seq<GateV>,
    tool: Seq<char>,
    args: JsonV,
    data: JsonV,
    facts: ChapterFactsV,
    project: Seq<char>,
    n: u32,
)
    requires
        tool == "continue_writing"@ || tool == "revise_chapter"@ || tool == "audit_chapter"@ || tool
            == "audit_chapters"@,
        !data.flag("blocked"@),
        !s.outranks_chapter_next(),
        volumes::names_project(data, args, project),
        data.uint("chapter"@) == Some(n as u64) || (data.uint("chapter"@) is None && args.uint(
            "chapter"@,
        ) == Some(n as u64)),
        n > 0,
        chapter_is_done(data),
        gates::chapter_next_buttons(
            c,
            data.flag("published"@),
            data.flag("published"@) && data.denied("plot_accept_passed"@),
        ).len() > 0,
    ensures
        ({
            let after = chapter_offers::chapter_next_offer(s, c, tool, args, data, facts);
            let open = data.flag("published"@) && data.denied("plot_accept_passed"@);
            &&& after.0.pending_chapter_next matches Some(p)
            &&& p.project == project && p.chapter == n
            &&& p.published == data.flag("published"@)
            &&& p.plot_accept_open == open
            &&& p.suggest_next is None
            &&& after.0 == (ThreadV { pending_chapter_next: after.0.pending_chapter_next, ..s })
            &&& after.1 matches OfferV::Open(card)
            &&& card.options == gates::chapter_next_buttons(c, data.flag("published"@), open)
            &&& text::begins(card.prompt, "第"@ + text::dec(n as nat))
            &&& data.flag("published"@) && !open && data.text("length_status"@) is None
                && !data.flag("content_rule_blocked"@) ==> p.revise_instructions is None
            &&& !data.flag("published"@) ==> p.revise_instructions is Some
        }),
{
    reading::begun_texts();
}

/// No choice is offered about a chapter that is not done with, where another card
/// outranks it, or after other tools.
pub proof fn no_choice_too_early(
    s: ThreadV,
    c: Seq<GateV>,
    tool: Seq<char>,
    args: JsonV,
    data: JsonV,
    facts: ChapterFactsV,
)
    requires
        !chapter_is_done(data) || data.flag("blocked"@) || s.outranks_chapter_next() || (tool
            != "continue_writing"@ && tool != "revise_chapter"@ && tool != "audit_chapter"@ && tool
            != "audit_chapters"@),
    ensures
        chapter_offers::chapter_next_offer(s, c, tool, args, data, facts) == (s, OfferV::Nothing),
{
}

/// The prepared instructions fit why the chapter was stopped: too short, they ask
/// to lengthen it to the range; against a rule, to change only what breaks it; with
/// an open plot, to write what closes it.
pub proof fn instructions_fit_the_stop(data: JsonV, n: u32, facts: ChapterFactsV)
    ensures
        ({
            let r = chapter_offers::revise_text(data, n, facts);
            let short = data.text("length_status"@) == Some("hard_short"@) || data.text(
                "length_status"@,
            ) == Some("soft_short_escalated"@);
            &&& short ==> r is Some && text::begins(r->0, "扩写到"@ + facts.range_label)
            &&& !short && data.flag("content_rule_blocked"@) ==> r is Some && text::begins(
                r->0,
                "硬规则阻断第"@ + text::dec(n as nat),
            )
            &&& !short && !data.flag("content_rule_blocked"@) && data.flag("published"@)
                && data.denied("plot_accept_passed"@) ==> r is Some && text::begins(
                r->0,
                "对照剧情卡收束条件补写本章缺口"@,
            ) && text::occurs(r->0, text::trimmed(data.text_or_empty("plot_accept_rationale"@)))
            &&& !short && !data.flag("content_rule_blocked"@) && !(data.flag("published"@)
                && data.denied("plot_accept_passed"@)) ==> r is None
        }),
{
    let w = data.text_or_empty("plot_accept_rationale"@);
    closing_tells(w);
    reading::begun_texts();
}

proof fn closing_tells(w: Seq<char>)
    ensures
        text::begins(prompts::closing_text(w), "对照剧情卡收束条件补写本章缺口"@),
        text::occurs(prompts::closing_text(w), text::trimmed(w)),
{
    let t = text::trimmed(w);
    let all = prompts::closing_text(w);
    let mark = "对照剧情卡收束条件补写本章缺口"@;
    reveal_strlit("对照剧情卡收束条件补写本章缺口");
    if t.len() == 0 {
        assert(t =~= Seq::empty());
        reading::empty_occurs(all);
        reveal_strlit("对照剧情卡收束条件补写本章缺口；只改收束相关段落，勿整章重写。");
        assert(all.subrange(0, mark.len() as int) =~= mark);
    } else {
        reveal_strlit("对照剧情卡收束条件补写本章缺口：");
        assert(all.subrange(0, mark.len() as int) =~= mark);
        assert(text::occurs(all, t)) by {
            reading::joined_texts();
        }
    }
}

/// A gap in the settings that a chapter shows is asked about at once, unless the
/// volume ended with it; the request keeps how to go on with the chapter.
pub proof fn setting_gap_is_asked_about(
    args: JsonV,
    data: JsonV,
    facts: ChapterFactsV,
    tool: Seq<char>,
    project: Seq<char>,
    n: u32,
)
    requires
        tool == "continue_writing"@ || tool == "revise_chapter"@ || tool == "audit_chapter"@,
        data.flag("plot_setting_blocker"@),
        volumes::names_project(data, args, project),
        data.uint("chapter"@) == Some(n as u64),
        n > 0,
    ensures
        ({
            let o = chapter_offers::setting_blocker_offer(tool, args, data, facts);
            &&& data.uint("volume_ended"@) is Some ==> o is Nothing
            &&& data.uint("volume_ended"@) is None ==> {
                &&& o matches OfferV::Ask(r)
                &&& r.project == project
                &&& r.context matches ContextV::SettingBlocker { blocker: b }
                &&& b.project == project && b.chapter == n
                &&& b.published == data.flag("published"@)
                &&& b.resume_chapter_next == chapter_is_done(data)
                &&& b.content_blocked == data.flag("content_rule_blocked"@)
                &&& !b.offer_volume_handoff_after
                &&& data.text_or_empty("setting_blocker_detail"@).len() <= 240 ==> b.detail
                    == data.text_or_empty("setting_blocker_detail"@)
                &&& b.revise_instructions == chapter_offers::revise_text(data, n, facts)
            }
        }),
{
}

/// What a gap put off is taken up again: the choice after the chapter, or the
/// outline of the next volume.
pub proof fn put_off_work_is_taken_up(
    s: ThreadV,
    c: Seq<GateV>,
    b: SettingBlockerV,
    facts: FactsV,
)
    requires
        b.project.len() > 0,
    ensures
        ({
            let after = chapter_offers::blocker_followup(s, true, c, b, facts);
            &&& b.resume_chapter_next && b.chapter > 0 && (b.published || b.content_blocked)
                && !s.outranks_chapter_next() && gates::chapter_next_buttons(
                c,
                b.published,
                b.plot_accept_open,
            ).len() > 0 ==> {
                &&& after.1 is Open
                &&& after.0.pending_chapter_next matches Some(p)
                &&& p.project == b.project && p.chapter == b.chapter && p.published == b.published
                &&& p.revise_instructions == b.revise_instructions
            }
            &&& !b.resume_chapter_next && b.offer_volume_handoff_after && gates::shown(
                c,
                "volume_handoff_arc"@,
            ).len() > 0 ==> {
                &&& !(after.1 is Nothing)
                &&& after.0.pending_volume_handoff matches Some(h)
                &&& h.project == b.project && h.phase == "awaiting_next_arc"@
            }
            &&& !b.resume_chapter_next && !b.offer_volume_handoff_after ==> after == (
                s,
                OfferV::Nothing,
            )
        }),
{
}

/// The prompts after a chapter name it and say why it stopped.
pub proof fn prompts_name_the_chapter(n: u32, open: bool, message: Seq<char>)
    ensures
        text::begins(
            prompts::published_prompt(n, open),
            "第"@ + text::dec(n as nat) + "章已发布"@,
        ),
        text::begins(
            prompts::length_prompt(n, message),
            "第"@ + text::dec(n as nat) + "章因字数未发布"@,
        ),
        text::begins(
            prompts::hard_rule_prompt(n, message),
            "第"@ + text::dec(n as nat) + "章因硬规则未发布"@,
        ),
        text::begins(
            chapter_offers::rule_stop_prompt(n),
            "第"@ + text::dec(n as nat) + "章因硬规则未发布"@,
        ),
{
    let a = "第"@ + text::dec(n as nat);
    reveal_strlit("章已发布");
    reveal_strlit(
        "章已发布，但剧情收束条件尚未兑现。可继续推进本卡，或修正本章补写收束；也可点「其他」说明要求。",
    );
    reveal_strlit("章已发布。请选择：继续创作；也可点「其他」说明要求。");
    reveal_strlit("章因字数未发布");
    reveal_strlit("章因字数未发布（");
    reveal_strlit("章因硬规则未发布");
    reveal_strlit(
        "章因硬规则未发布（如正文出现「第N章」元叙述或禁名）。请选择：修正本章；也可点「其他」说明要求。",
    );
    reveal_strlit("章因硬规则未发布：\n");
    reveal_strlit("章因硬规则未发布。请选择：修正本章；也可点「其他」说明要求。");
    starts(prompts::published_prompt(n, open), a + "章已发布"@);
    starts(prompts::length_prompt(n, message), a + "章因字数未发布"@);
    starts(prompts::hard_rule_prompt(n, message), a + "章因硬规则未发布"@);
    starts(chapter_offers::rule_stop_prompt(n), a + "章因硬规则未发布"@);
}

proof fn starts(s: Seq<char>, p: Seq<char>)
    requires
        s.len() >= p.len(),
        forall|i: int| 0 <= i < p.len() ==> #[trigger] s[i] == p[i],
    ensures
        text::begins(s, p),
{
    assert(s.subrange(0, p.len() as int) =~= p);
}

} // verus!
