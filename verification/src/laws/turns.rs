//! Where a message of the author goes.

use vstd::prelude::*;

use crate::chain;
use crate::chain::{ChainPath, ChainStepV, EnvV, OfferKind};
use crate::gates;
use crate::gates::GateV;
use crate::intent::{ClearHistory, IntentMatchV};
use crate::json::JsonV;
use crate::laws::reading;
use crate::offers;
use crate::parse_ops;
use crate::text;
use crate::thread_state;
use crate::thread_state::ThreadV;
use crate::turn;
use crate::turn::{RouteV, TurnFactsV};
use crate::writing;
use crate::writing::NextChapter;

verus! {

/// An answer at an open card goes to that card, the most urgent first: a change to
/// confirm, the studio's own card, dependent places, the order of chapters, the
/// choice after a chapter.
pub proof fn urgent_cards_are_answered_first(
    s: ThreadV,
    c: Seq<GateV>,
    request: Seq<char>,
    f: TurnFactsV,
    known: Option<IntentMatchV>,
)
    ensures
        ({
            let r = turn::routed(s, c, request, f, known);
            let change = parse_ops::mutation_op(s, c, request);
            let impact = parse_ops::impact_op(s, c, request);
            let order = parse_ops::order_op(s, c, request);
            let chapter = parse_ops::chapter_next_op(s, c, request);
            &&& change is Some ==> r == (s, RouteV::Mutation((change->0).0, (change->0).1))
            &&& change is None && f.studio_pick ==> r == (s, RouteV::StudioPick)
            &&& change is None && !f.studio_pick && impact is Some ==> r == (
                s,
                RouteV::Impact(impact->0),
            )
            &&& change is None && !f.studio_pick && impact is None && order is Some ==> r == (
                s,
                RouteV::ChapterOrder((order->0).0, (order->0).1),
            )
            &&& change is None && !f.studio_pick && impact is None && order is None && chapter
                is Some ==> r == (s, RouteV::ChapterChoice((chapter->0).0, (chapter->0).1))
        }),
{
}

/// No answer at an urgent card.
pub open spec fn nothing_urgent(
    s: ThreadV,
    c: Seq<GateV>,
    request: Seq<char>,
    f: TurnFactsV,
) -> bool {
    parse_ops::mutation_op(s, c, request) is None && !f.studio_pick && parse_ops::impact_op(
        s,
        c,
        request,
    ) is None && parse_ops::order_op(s, c, request) is None && s.pending_chapter_next is None
}

/// Then come the steps between volumes, the setup, the end of a volume, and the
/// audit; each answer goes to its own card.
pub proof fn stages_are_answered_next(
    s: ThreadV,
    c: Seq<GateV>,
    request: Seq<char>,
    f: TurnFactsV,
    known: Option<IntentMatchV>,
)
    requires
        nothing_urgent(s, c, request, f),
    ensures
        ({
            let r = turn::routed(s, c, request, f, known);
            let handoff = parse_ops::handoff_op(s, c, request);
            let setup = parse_ops::setup_op(s, c, request, f.setup_step);
            let sync = parse_ops::volume_sync_op(s, c, request, s.project, f.manual_sync);
            let audit = parse_ops::audit_op(s, c, request, f.audit_queue_active);
            &&& r.0 == s
            &&& handoff is Some ==> r.1 == RouteV::Handoff((handoff->0).0, (handoff->0).1)
            &&& handoff is None && setup is Some ==> r.1 == RouteV::Setup((setup->0).0, (setup->0).1)
            &&& handoff is None && setup is None && sync is Some ==> r.1 == RouteV::VolumeSync(
                (sync->0).0,
                (sync->0).1,
            )
            &&& handoff is None && setup is None && sync is None && s.pending_audit is Some && audit
                is Some ==> r.1 == RouteV::AuditSteer((audit->0).0, (audit->0).1)
        }),
{
    assert((ThreadV { pending_chapter_next: None, ..s }) == s);
}

/// Nobody's card takes the message.
pub open spec fn no_card_takes(
    s: ThreadV,
    c: Seq<GateV>,
    request: Seq<char>,
    f: TurnFactsV,
) -> bool {
    nothing_urgent(s, c, request, f) && turn::stage_route(s, c, request, f) is None
        && turn::audit_route(s, c, request, f) is None
}

/// A message that no card takes is, in turn, held back by an unfinished outline,
/// asked back about, taken for a request that is known, for one to go on, or talked
/// over.
pub proof fn free_messages_are_weighed(
    s: ThreadV,
    c: Seq<GateV>,
    request: Seq<char>,
    f: TurnFactsV,
    known: Option<IntentMatchV>,
    project: Seq<char>,
)
    requires
        no_card_takes(s, c, request, f),
        s.project == Some(project),
    ensures
        ({
            let r = turn::routed(s, c, request, f, known).1;
            let held = f.asks_to_continue && thread_state::outline_blocks(s, f.messages);
            let draft = f.asks_to_continue && f.next.draft_chars >= f.next.draft_min_chars;
            &&& held ==> r == RouteV::OutlineFirst(project)
            &&& !held && draft ==> (r matches RouteV::Clarify(p, _) && p == project)
            &&& !held && !draft && f.deterministic_intents && known is Some ==> r
                == RouteV::Request(known->0)
            &&& !held && !draft && known is None && f.deterministic_intents && f.asks_to_continue
                && project.len() > 0 && project != "_"@ && f.next.next_chapter is Some ==> (
            r matches RouteV::Request(m) && m.tool == "continue_writing"@ && m.args.text(
                "project"@,
            ) == Some(project) && m.clear_history == ClearHistory::OnStart)
            &&& !f.asks_to_continue && (known is None || !f.deterministic_intents) ==> r
                == RouteV::Converse
            &&& !f.deterministic_intents && !held && !draft ==> r == RouteV::Converse
        }),
{
    assert((ThreadV { pending_chapter_next: None, ..s }) == s);
    reading::put_reads_back();
}

/// With no card open, the word for revising polishes the chapter that was audited
/// last, and the word for accepting keeps the text.
pub proof fn steering_words_without_a_card(
    s: ThreadV,
    c: Seq<GateV>,
    request: Seq<char>,
    f: TurnFactsV,
)
    requires
        s.unblocked(),
    ensures
        ({
            let r = turn::audit_route(s, c, request, f);
            let revise = gates::steer_word(c, request, "revise"@);
            let accept = gates::steer_word(c, request, "accept"@);
            &&& revise && s.project is Some && f.soft_target is Some ==> r == Some(
                RouteV::SoftRevise(s.project->0, f.soft_target->0),
            )
            &&& accept && !revise ==> r == Some(RouteV::KeepText)
            &&& !accept && !revise && gates::stale_word(c, request) && !f.queue_active ==> r
                == Some(RouteV::QueueGone)
            &&& !accept && !revise && !gates::stale_word(c, request) ==> r is None
        }),
{
}

/// A bare number at the choice after a chapter gets a hint, which names the button.
pub proof fn bare_number_gets_a_hint(
    s: ThreadV,
    c: Seq<GateV>,
    request: Seq<char>,
    f: TurnFactsV,
    known: Option<IntentMatchV>,
)
    requires
        s.pending_chapter_next is Some,
        parse_ops::mutation_op(s, c, request) is None,
        !f.studio_pick,
        parse_ops::impact_op(s, c, request) is None,
        parse_ops::order_op(s, c, request) is None,
        parse_ops::chapter_next_op(s, c, request) is None,
    ensures
        1 <= text::trimmed(request).len() <= 2 && text::all_digits(text::trimmed(request)) ==> (
        turn::routed(s, c, request, f, known).1 matches RouteV::ButtonHint(h) && (
        s.pending_chapter_next->0.suggest_next is None && s.pending_chapter_next->0.published
            ==> text::occurs(h, "「继续创作」"@)) && (s.pending_chapter_next->0.suggest_next is None
            && !s.pending_chapter_next->0.published ==> text::occurs(h, "「修正本章」"@))),
        !(1 <= text::trimmed(request).len() <= 2 && text::all_digits(text::trimmed(request)))
            ==> turn::routed(s, c, request, f, known).0.pending_chapter_next is None,
{
    hints_name_buttons();
}

proof fn hints_name_buttons()
    ensures
        text::occurs(
            "请点击「继续创作」，或输入该按钮原文；序号请与上方选项一致。"@,
            "「继续创作」"@,
        ),
        text::occurs(
            "请点击「修正本章」，或输入该按钮原文；序号请与上方选项一致。"@,
            "「修正本章」"@,
        ),
{
    let a = "请点击「继续创作」，或输入该按钮原文；序号请与上方选项一致。"@;
    let b = "请点击「修正本章」，或输入该按钮原文；序号请与上方选项一致。"@;
    reveal_strlit("请点击「继续创作」，或输入该按钮原文；序号请与上方选项一致。");
    reveal_strlit("请点击「修正本章」，或输入该按钮原文；序号请与上方选项一致。");
    reveal_strlit("「继续创作」");
    reveal_strlit("「修正本章」");
    assert(a.subrange(3, 9) =~= "「继续创作」"@);
    assert(text::occurs_at(a, "「继续创作」"@, 3));
    assert(b.subrange(3, 9) =~= "「修正本章」"@);
    assert(text::occurs_at(b, "「修正本章」"@, 3));
}

/// The next chapter is the one that the call names, or else the project's next.
pub proof fn call_names_the_chapter(project: Seq<char>, args: JsonV, next: Option<u32>)
    requires
        project.len() > 0,
    ensures
        args.uint("chapter"@) is Some && 0 < args.uint("chapter"@)->0 <= u32::MAX
            ==> writing::continue_chapter(project, args, next) == args.uint("chapter"@)->0,
        args.uint("chapter"@) is None && next is Some && next->0 > 0 ==> writing::continue_chapter(
            project,
            args,
            next,
        ) == next->0,
        args.uint("chapter"@) is None && next is None ==> writing::continue_chapter(
            project,
            args,
            next,
        ) == 1,
{
}

/// A new chapter starts a new conversation only where it is really written: with a
/// project, allowed, confirmed if that is required, meant as a new chapter, and not
/// over a draft that is there already.
pub proof fn only_a_new_chapter_clears(
    project: Seq<char>,
    args: JsonV,
    f: writing::ClearFacts,
    n: NextChapter,
)
    ensures
        ({
            let r = writing::clears_history(project, args, f, n);
            &&& project.len() == 0 || !f.may_write ==> !r
            &&& f.require_confirm && !f.confirm_skipped && !args.flag("apply"@) ==> !r
            &&& !f.intends_new_chapter && !f.bare_continue ==> !r
            &&& !f.intends_new_chapter && n.next_chapter is Some && n.draft_chars
                >= n.draft_min_chars ==> !r
            &&& args.uint("chapter"@) is None && f.chapter_draft_chars >= n.draft_min_chars ==> !r
            &&& project.len() > 0 && f.may_write && (!f.require_confirm || f.confirm_skipped
                || args.flag("apply"@)) && (f.intends_new_chapter || (f.bare_continue
                && n.draft_chars < n.draft_min_chars)) && (args.uint("chapter"@) is Some
                || f.chapter_draft_chars < n.draft_min_chars) && (args.uint("chapter"@) is None || (
            0 < args.uint("chapter"@)->0 <= u32::MAX)) ==> r
        }),
{
}

/// A bare request to go on writes the next chapter of the project, where no draft of
/// it is there; over a draft it is asked back, naming the chapter and the one after.
pub proof fn going_on_writes_or_asks(project: Seq<char>, n: NextChapter, k: u32)
    requires
        project.len() > 0,
        project != "_"@,
        n.next_chapter == Some(k),
        0 < k < u32::MAX,
    ensures
        n.draft_chars < n.draft_min_chars ==> (writing::bare_intent(Some(project), true, n) matches Some(
            m,
        ) && m.tool == "continue_writing"@ && m.args.text("project"@) == Some(project)
            && writing::clarify_text(true, n) is None),
        n.draft_chars >= n.draft_min_chars ==> writing::bare_intent(Some(project), true, n) is None
            && (writing::clarify_text(true, n) matches Some(t) && text::begins(
            t,
            "第"@ + text::dec(k as nat),
        ) && text::ends(t, text::dec((k + 1) as nat) + "章。"@)),
        writing::bare_intent(Some(project), false, n) is None,
        writing::clarify_text(false, n) is None,
{
    reading::put_reads_back();
    if n.draft_chars >= n.draft_min_chars {
        let t = writing::clarify_text(true, n)->0;
        assert(text::begins(t, "第"@ + text::dec(k as nat))) by {
            reading::begun_texts();
        }
        let tail = text::dec((k + 1) as nat) + "章。"@;
        assert(t.subrange(t.len() - tail.len(), t.len() as int) =~= tail);
    }
}

/// The chapter to polish is the latest that was audited, of those that exist; or
/// else the last published, or else the draft of the next.
pub proof fn latest_chapter_is_polished(
    project: Seq<char>,
    counts: writing::ProjectCounts,
    audited: Seq<u32>,
    draft: bool,
    k: u32,
)
    requires
        project.len() > 0,
    ensures
        ({
            let r = writing::polish_target(project, Some(counts), audited, draft);
            let there = |x: u32|
                1 <= x && (x <= counts.published_count || x <= counts.next_chapter || x == 1);
            &&& audited.contains(k) && there(k) ==> r is Some && r->0 >= k && audited.contains(
                r->0,
            ) && there(r->0)
            &&& (forall|x: u32| #[trigger] audited.contains(x) ==> !there(x)) ==> {
                &&& counts.published_count > 0 ==> r == Some(counts.published_count)
                &&& counts.published_count == 0 && draft && counts.next_chapter > 0 ==> r == Some(
                    counts.next_chapter,
                )
                &&& counts.published_count == 0 && !draft ==> r is None
            }
        }),
        writing::polish_target(project, None, audited, draft) is None,
{
    let most = writing::larger(writing::larger(counts.published_count, counts.next_chapter), 1);
    writing::newest_is_newest(audited, most);
}

/// The order in which cards are tried after each kind of step puts the change to
/// confirm before all others, and what follows up before nothing.
pub proof fn followup_comes_last(p: ChainPath, i: int, j: int)
    requires
        0 <= i < chain::order_of(p).len(),
        0 <= j < chain::order_of(p).len(),
    ensures
        chain::order_of(p)[i] == OfferKind::Mutation ==> i == 0,
        chain::order_of(p)[i] == OfferKind::Followup ==> i == chain::order_of(p).len() - 1,
        chain::order_of(p)[i] == OfferKind::Next && chain::order_of(p)[j] == OfferKind::Volume
            ==> j < i,
        chain::order_of(p)[i] == OfferKind::Next && chain::order_of(p)[j] == OfferKind::Handoff
            ==> j < i,
        chain::order_of(p)[i] == OfferKind::Handoff && chain::order_of(p)[j] == OfferKind::Volume
            ==> j < i,
        chain::order_of(p)[i] == OfferKind::Next && chain::order_of(p)[j] == OfferKind::Audit ==> j
            < i,
        chain::order_of(p)[i] == chain::order_of(p)[j] ==> i == j,
{
}

/// Each kind of card is decided by its own rule, on the call and its result.
pub proof fn kinds_have_their_rules(s: ThreadV, e: EnvV)
    ensures
        chain::one_offer(s, OfferKind::Mutation, e) == offers::mutation_offer(s, e.catalog, e.data),
        chain::one_offer(s, OfferKind::Order, e) == offers::order_offer(
            s,
            e.catalog,
            e.tool,
            e.args,
            e.data,
        ),
        chain::one_offer(s, OfferKind::Impact, e) == offers::impact_offer(
            s,
            e.impact_cascade,
            e.catalog,
            e.tool,
            e.args,
            e.data,
            e.scan,
        ),
        chain::one_offer(s, OfferKind::Setup, e) == crate::volume::setup_offer(
            s,
            e.enforce_setup,
            e.catalog,
            e.tool,
            e.args,
            e.data,
            e.setup_step,
        ),
        chain::one_offer(s, OfferKind::Volume, e) == crate::volume::volume_sync_offer(
            s,
            e.catalog,
            e.tool,
            e.args,
            e.data,
            e.memory,
        ),
        chain::one_offer(s, OfferKind::Handoff, e) == crate::volume::handoff_offer(
            s,
            e.enforce_volume,
            e.catalog,
            e.tool,
            e.args,
            e.data,
            e.volumes,
        ),
        chain::one_offer(s, OfferKind::Next, e) == crate::chapter_offers::chapter_next_offer(
            s,
            e.catalog,
            e.tool,
            e.args,
            e.data,
            e.chapter,
        ),
        chain::one_offer(s, OfferKind::Expected, e) == offers::expected_offer(
            s,
            e.tool,
            e.args,
            e.data,
        ),
        chain::one_offer(s, OfferKind::Plot, e) == (
            s,
            offers::plot_write_offer(e.tool, e.args, e.data, e.plot_volume, e.plot_title),
        ),
        chain::one_offer(s, OfferKind::Draft, e) == (
            s,
            offers::draft_offer(e.tool, e.args, e.data),
        ),
        chain::one_offer(s, OfferKind::Setting, e) == (
            s,
            crate::chapter_offers::setting_blocker_offer(e.tool, e.args, e.data, e.chapter),
        ),
        chain::one_offer(s, OfferKind::Followup, e) == (
            s,
            offers::followup_offer(e.tool, e.args, e.data),
        ),
        chain::one_offer(s, OfferKind::VolumeAudit, e) == crate::volume::volume_audit_offer(
            s,
            e.tool,
            e.args,
            e.data,
        ),
{
}

/// Only the last of the offers along the way can be one that came to something:
/// the cards before it all stayed shut.
pub proof fn chain_stops_at_its_card(s: ThreadV, order: Seq<OfferKind>, i: int, e: EnvV)
    requires
        0 <= i <= order.len(),
    ensures
        match chain::chained(s, order, i, e).1.step {
            ChainStepV::Ended => true,
            ChainStepV::Stood(k) => order.contains(k),
            ChainStepV::Opened(k, _) => order.contains(k),
            ChainStepV::Asking(k, _, n) => i < n <= order.len() && order[n - 1] == k,
        },
    decreases order.len() - i,
{
    if i < order.len() {
        let o = chain::one_offer(s, order[i], e);
        assert(order.contains(order[i]));
        if o.1 is Nothing {
            chain_stops_at_its_card(o.0, order, i + 1, e);
        }
    }
}

/// Work on the outline holds writing back until it is done: while it is rewritten,
/// while the studio's next step is awaited, and while a change to the structure
/// waits for confirmation.
pub proof fn outline_work_holds_writing(s: ThreadV, messages: Seq<Seq<char>>)
    ensures
        s.outline_rewrite_active || s.pending_studio_next is Some || s.awaiting_studio_next
            || s.pending_mutation_followup ==> thread_state::outline_blocks(s, messages),
        s.pending_mutation is Some && (s.pending_mutation->0.apply_tool == "design_master_outline"@
            || s.pending_mutation->0.apply_tool == "design_arc_outline"@
            || s.pending_mutation->0.apply_tool == "upsert_setting"@
            || s.pending_mutation->0.apply_tool == "supplement_setting"@
            || s.pending_mutation->0.apply_tool == "design_entity"@
            || s.pending_mutation->0.apply_tool == "delete_entity"@)
            ==> thread_state::outline_blocks(s, messages),
        !s.outline_rewrite_active && s.pending_studio_next is None && !s.awaiting_studio_next
            && !s.pending_mutation_followup && s.pending_mutation is None && (forall|i: int|
            0 <= i < messages.len() ==> !text::occurs(#[trigger] messages[i], "总纲"@)
                && !text::occurs(messages[i], "卷纲"@) && !text::occurs(
                messages[i],
                "master_outline"@,
            )) ==> !thread_state::outline_blocks(s, messages),
{
    if thread_state::recent_outline_trouble(messages) {
        let i = choose|i: int|
            0 <= i < messages.len() && messages.len() - 10 <= i && thread_state::outline_trouble(
                #[trigger] messages[i],
            );
        assert(thread_state::outline_trouble(messages[i]));
    }
}

/// A thread waits for the author exactly while one of its cards is open.
pub proof fn open_cards_wait(s: ThreadV)
    ensures
        s.awaiting_human() <==> s.pending_audit is Some || s.pending_volume_sync is Some
            || s.pending_setup is Some || s.pending_volume_handoff is Some
            || s.pending_chapter_next is Some || s.pending_chapter_order is Some
            || s.pending_mutation is Some || s.pending_studio_next is Some || s.pending_impact
            is Some,
        !ThreadV::idle(s.project).awaiting_human(),
        ThreadV::idle(s.project).unblocked(),
        ThreadV::idle(s.project).project == s.project,
        !ThreadV::idle(s.project).outranks_chapter_next(),
        s.pending_mutation is Some || s.pending_impact is Some || s.pending_audit is Some
            || s.pending_volume_sync is Some || s.pending_volume_audit is Some || s.pending_setup
            is Some || s.pending_volume_handoff is Some || s.pending_chapter_order is Some
            ==> s.outranks_chapter_next(),
{
}

} // verus!
