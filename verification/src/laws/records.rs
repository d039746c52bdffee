//! What is shown, saved, restored and written down.

use vstd::prelude::*;

use crate::audit_decisions;
use crate::audit_offers::AuditFixV;
use crate::content;
use crate::content::{ArtifactShape, TargetV};
use crate::gates;
use crate::gates::GateV;
use crate::issues::IssueV;
use crate::json::JsonV;
use crate::laws::reading;
use crate::offers;
use crate::open_gate;
use crate::open_gate::{GateDetailV, TimelineRule};
use crate::ops_journal;
use crate::ops_journal::{EntryV, OpsJournalKind, QueryV};
use crate::order;
use crate::preview;
use crate::preview::{ChapterText, PreviewParts, ProjectState};
use crate::prompts;
use crate::reconcile;
use crate::reconcile::QueueV;
use crate::text;
use crate::thread_state::{AuditGateKind, SetupV, ThreadV};
use crate::volume;
use crate::volume::{FactsV, SetupStepV, VolumePhase};

verus! {

// ---------------------------------------------------------------------------
// The card that is shown
// ---------------------------------------------------------------------------

/// The open card is shown under its own name with its own buttons; where several are
/// open, the one that is answered first.
pub proof fn open_card_is_shown(s: ThreadV, c: Seq<GateV>, step: SetupStepV, queue: bool)
    ensures
        ({
            let g = open_gate::open_gate_of(s, c, step, queue);
            let t = open_gate::timeline_card(s, c, step, queue);
            &&& s.pending_mutation matches Some(m) ==> {
                &&& g is Some && g->0.kind == "confirm_mutation"@ && g->0.options == gates::shown(
                    c,
                    "confirm_mutation"@,
                )
                &&& text::ends(g->0.prompt, m.summary)
                &&& g->0.detail == (GateDetailV::Mutation {
                    preview: m.preview,
                    mutation_kind: m.mutation_kind,
                })
                &&& t is Some && t->0.options == gates::shown(c, "confirm_mutation"@)
            }
            &&& s.pending_mutation is None && s.pending_impact is Some ==> {
                let i = s.pending_impact->0;
                &&& g is Some && g->0.kind == "confirm_impact"@ && g->0.options == gates::shown(
                    c,
                    "confirm_impact"@,
                )
                &&& g->0.detail == (GateDetailV::Impact {
                    summary_markdown: i.summary_markdown,
                    hits: i.hits,
                    entity_gaps_count: i.entity_gaps_count,
                })
                &&& t is Some && t->0.options == gates::shown(c, "confirm_impact"@)
            }
            &&& s.pending_mutation is None && s.pending_impact is None && s.pending_studio_next
                is Some ==> g is Some && g->0.kind == "studio_next"@ && g->0.prompt
                == s.pending_studio_next->0.prompt && g->0.options
                == s.pending_studio_next->0.options
            &&& s.pending_mutation is None && s.pending_impact is None && s.pending_studio_next
                is None && s.pending_chapter_order is Some ==> g is Some && g->0.kind
                == "chapter_order"@ && g->0.options == offers::order_buttons(
                c,
                s.pending_chapter_order->0.next_chapter,
            ) && g->0.prompt == offers::order_prompt(s.pending_chapter_order->0.next_chapter)
        }),
{
    reading::joined_texts();
}

/// Only the card of an audit, of a volume or of the setup, or the choice after a
/// chapter, is open.
pub open spec fn nothing_before_audit(s: ThreadV) -> bool {
    s.pending_mutation is None && s.pending_impact is None && s.pending_studio_next is None
        && s.pending_chapter_order is None
}

/// The card of an audit shows the decisions that were offered; that of a volume, of a
/// step between volumes, of the setup and after a chapter show their own buttons.
pub proof fn later_cards_are_shown(s: ThreadV, c: Seq<GateV>, step: SetupStepV, queue: bool)
    requires
        nothing_before_audit(s),
    ensures
        ({
            let g = open_gate::open_gate_of(s, c, step, queue);
            &&& s.pending_audit matches Some(a) ==> {
                &&& a.awaiting_offer <==> g is None
                &&& !a.awaiting_offer && a.kind == AuditGateKind::Infra ==> g->0.kind
                    == "audit_infra"@ && g->0.options == gates::shown(c, "audit_infra"@)
                &&& !a.awaiting_offer && a.kind == AuditGateKind::Content ==> g->0.kind
                    == "audit"@ && (a.decision_options.len() > 0 ==> g->0.options
                    == audit_decisions::decision_buttons(a.decision_options))
            }
            &&& s.pending_audit is None && s.pending_volume_sync is Some ==> g is Some && g->0.kind
                == "volume_sync"@ && g->0.options == gates::shown(c, "volume_sync"@)
                && text::begins(
                g->0.prompt,
                "第"@ + text::dec(s.pending_volume_sync->0.volume as nat),
            )
            &&& s.pending_audit is None && s.pending_volume_sync is None
                && s.pending_volume_handoff is Some ==> {
                &&& g is Some
                &&& s.pending_volume_handoff->0.phase == "awaiting_next_plot"@ ==> g->0.kind
                    == "volume_handoff_plot"@ && g->0.options == gates::shown(
                    c,
                    "volume_handoff_plot"@,
                )
                &&& s.pending_volume_handoff->0.phase == "awaiting_next_arc"@ ==> g->0.kind
                    == "volume_handoff_arc"@ && g->0.options == gates::shown(
                    c,
                    "volume_handoff_arc"@,
                )
            }
            &&& s.pending_audit is None && s.pending_volume_sync is None
                && s.pending_volume_handoff is None && s.pending_setup is Some ==> g is Some
                && g->0.kind == step.gate && g->0.prompt == step.prompt && g->0.options
                == gates::shown(c, step.gate)
            &&& s.pending_audit is None && s.pending_volume_sync is None
                && s.pending_volume_handoff is None && s.pending_setup is None
                && s.pending_chapter_next is Some && s.pending_chapter_next->0.suggest_next is None
                ==> g is Some && g->0.kind == "chapter_next"@ && g->0.options
                == gates::chapter_next_buttons(
                c,
                s.pending_chapter_next->0.published,
                s.pending_chapter_next->0.plot_accept_open,
            )
            &&& s.pending_audit is None && s.pending_volume_sync is None
                && s.pending_volume_handoff is None && s.pending_setup is None
                && s.pending_chapter_next is None ==> g is None
        }),
{
    reveal_strlit("awaiting_next_plot");
    reveal_strlit("awaiting_next_arc");
    assert("awaiting_next_plot"@.len() == 18);
    assert("awaiting_next_arc"@.len() == 17);
    reading::begun_texts();
}

/// The buttons in a stored conversation are kept while a card is open or the queue
/// runs, and taken off otherwise; an open audit ends the earlier ones.
pub proof fn old_buttons_are_taken_off(s: ThreadV, queue: bool)
    ensures
        s.pending_audit is Some ==> open_gate::timeline_rule(s, queue) == TimelineRule::EndAudits,
        s.pending_audit is None && queue ==> open_gate::timeline_rule(s, queue)
            == TimelineRule::Keep,
        s.pending_audit is None && (s.pending_volume_sync is Some || s.pending_setup is Some
            || s.pending_volume_handoff is Some || s.pending_chapter_next is Some
            || s.pending_chapter_order is Some || s.pending_mutation is Some || s.pending_impact
            is Some) ==> open_gate::timeline_rule(s, queue) == TimelineRule::Keep,
        !queue && s == ThreadV::idle(s.project) ==> open_gate::timeline_rule(s, queue)
            == TimelineRule::StripButtons,
{
}

// ---------------------------------------------------------------------------
// What is restored
// ---------------------------------------------------------------------------

/// A queue that stopped at a failed chapter is taken up there: the card is about that
/// chapter of the bound project, with decisions for the queue.
pub proof fn stopped_queue_is_taken_up(
    s: ThreadV,
    c: Seq<GateV>,
    q: QueueV,
    found: Seq<IssueV>,
    project: Seq<char>,
    n: u32,
)
    requires
        s.project == Some(project),
        project.len() > 0,
        s.pending_audit is None,
        !q.finished,
        q.current_failed,
        q.current_chapter == Some(n),
    ensures
        ({
            let r = reconcile::queue_restored(s, Some(q), found);
            let o = reconcile::queue_reoffer(s, c, Some(q), found);
            &&& r.pending_audit matches Some(p)
            &&& p.project == project && p.chapter == n && p.kind == AuditGateKind::Content
                && !p.awaiting_offer && p.issues == found
            &&& p.decision_options == audit_decisions::fallback_decisions(project, n, found, true)
            &&& r == (ThreadV { pending_audit: r.pending_audit, ..s })
            &&& o.1 is Open
            &&& o.0.pending_audit matches Some(p2)
            &&& p2.project == project && p2.chapter == n && p2.kind == AuditGateKind::Content
        }),
{
    reading::put_reads_back();
    reveal_strlit("needs_user_choice");
    reveal_strlit("consistency_passed");
    reveal_strlit("project");
    reveal_strlit("chapter");
    reveal_strlit("queue_active");
    reveal_strlit("audit_queue");
    reveal_strlit("todos");
    reveal_strlit("issues");
    reveal_strlit("report");
    reveal_strlit("message");
    reveal_strlit("volume_ended");
    reveal_strlit("queue_finished");
    reveal_strlit("queue_cancelled");
    assert("needs_user_choice"@.len() == 17);
    assert("consistency_passed"@.len() == 18);
    assert("project"@.len() == 7);
    assert("chapter"@.len() == 7);
    assert("queue_active"@.len() == 12);
    assert("audit_queue"@.len() == 11);
    assert("todos"@.len() == 5);
    assert("issues"@.len() == 6);
    assert("report"@.len() == 6);
    assert("message"@.len() == 7);
    assert("volume_ended"@.len() == 12);
    assert("queue_finished"@.len() == 14);
    assert("queue_cancelled"@.len() == 15);
    assert("project"@[0] != "chapter"@[0]);
    assert("project"@[0] != "message"@[0]);
    assert("chapter"@[0] != "message"@[0]);
    assert("queue_active"@[0] != "volume_ended"@[0]);
    assert("issues"@[0] != "report"@[0]);
    queue_result_is_plain(project, n, q);
}

proof fn queue_result_is_plain(project: Seq<char>, n: u32, q: QueueV)
    ensures
        !prompts::meta_only(reconcile::queue_data(project, n, q)),
{
    reading::put_reads_back();
    reveal_strlit("needs_user_choice");
    reveal_strlit("consistency_passed");
    reveal_strlit("project");
    reveal_strlit("chapter");
    reveal_strlit("queue_active");
    reveal_strlit("audit_queue");
    reveal_strlit("todos");
    reveal_strlit("issues");
    reveal_strlit("report");
    reveal_strlit("message");
    assert("needs_user_choice"@.len() == 17);
    assert("consistency_passed"@.len() == 18);
    assert("project"@.len() == 7);
    assert("chapter"@.len() == 7);
    assert("queue_active"@.len() == 12);
    assert("audit_queue"@.len() == 11);
    assert("todos"@.len() == 5);
    assert("issues"@.len() == 6);
    assert("report"@.len() == 6);
    assert("message"@.len() == 7);
    assert("project"@[0] != "chapter"@[0]);
    assert("project"@[0] != "message"@[0]);
    assert("chapter"@[0] != "message"@[0]);
    assert("issues"@[0] != "report"@[0]);
    let d = reconcile::queue_data(project, n, q);
    let e = Seq::<char>::empty();
    assert(d.get("issues"@) is None);
    assert(d.get("report"@) is None);
    assert(d.get("message"@) is None);
    reveal_strlit("模型返回为空");
    reveal_strlit("无法解析");
    reveal_strlit("一致性审计失败：无输出");
}

/// A queue that is finished, runs, or has no chapter restores nothing, and an open card
/// is left alone.
pub proof fn running_queue_restores_nothing(
    s: ThreadV,
    c: Seq<GateV>,
    q: Option<QueueV>,
    found: Seq<IssueV>,
)
    requires
        q is None || q->0.finished || !q->0.current_failed || q->0.current_chapter is None
            || s.pending_audit is Some || s.project is None,
    ensures
        reconcile::queue_restored(s, q, found) == s,
        reconcile::queue_reoffer(s, c, q, found) == (s, AuditFixV::Nothing),
{
}

/// A project that waits between volumes or in its setup gets the card of where it
/// stands back; one that does not, or where it is not enforced, none.
pub proof fn waiting_project_gets_its_card_back(
    s: ThreadV,
    project: Seq<char>,
    next: Option<SetupStepV>,
    confirm: bool,
    facts: FactsV,
    phase: VolumePhase,
    published: Option<u32>,
)
    requires
        s == ThreadV::idle(Some(project)),
        project.len() > 0,
    ensures
        ({
            let r = reconcile::phases_restored(
                s,
                true,
                true,
                next,
                confirm,
                facts,
                phase,
                published,
            );
            &&& next is Some && confirm && (next->0.name == "confirm"@ || next->0.name
                == "need_bible"@) ==> r.pending_setup == Some(
                SetupV { project, next: next->0.name },
            )
            &&& next is None || !confirm ==> r.pending_setup is None
            &&& facts.phase == VolumePhase::AwaitingSync && !facts.false_end ==> (
            r.pending_volume_sync matches Some(v) && v.project == project && v.volume
                == volume::ended_volume(facts.bounds).0)
            &&& facts.phase != VolumePhase::AwaitingSync ==> r.pending_volume_sync is None
            &&& facts.phase != VolumePhase::AwaitingSync && next is None && (phase
                == VolumePhase::AwaitingNextArc || phase == VolumePhase::AwaitingNextPlot) ==> {
                &&& r.pending_volume_handoff matches Some(h)
                &&& h.project == project && h.volume == volume::target_volume(facts.bounds)
                &&& phase == VolumePhase::AwaitingNextArc ==> h.phase == "awaiting_next_arc"@
                &&& phase == VolumePhase::AwaitingNextPlot ==> h.phase == "awaiting_next_plot"@
            }
            &&& phase == VolumePhase::DraftingVolume ==> r.pending_volume_handoff is None
        }),
        reconcile::phases_restored(s, false, false, next, confirm, facts, phase, published) == s,
{
}

/// The choice after a chapter is put right with what is published: published exactly
/// where as many chapters are.
pub proof fn choice_is_put_right(s: ThreadV, n: u32)
    requires
        s.pending_chapter_next is Some,
    ensures
        reconcile::published_aligned(s, Some(n)).pending_chapter_next matches Some(c) && c.published
            == (s.pending_chapter_next->0.chapter <= n) && c.chapter
            == s.pending_chapter_next->0.chapter && c.project == s.pending_chapter_next->0.project,
        reconcile::published_aligned(s, None) == s,
{
}

// ---------------------------------------------------------------------------
// What is saved
// ---------------------------------------------------------------------------

/// A text is saved where its tab says: the chapter's text, its outline, the outline of
/// the whole, a plot card, an entity's card, an artifact.
pub proof fn tabs_name_their_files(n: u32, key: Seq<char>, group: Seq<char>, known: bool)
    requires
        text::trimmed(key) == key,
        key.len() > 0,
        group.len() > 0,
        !text::is_space(group.last()),
    ensures
        n > 0 ==> content::target_of("draft"@, n, key, known) == Result::<TargetV, Seq<char>>::Ok(
            TargetV::Draft { chapter: n },
        ),
        n > 0 ==> content::target_of("outline"@, n, key, known) == Result::<TargetV, Seq<char>>::Ok(
            TargetV::Outline { chapter: n },
        ),
        n == 0 ==> content::target_of("draft"@, n, key, known) is Err && content::target_of(
            "outline"@,
            n,
            key,
            known,
        ) is Err,
        content::target_of("master"@, n, key, known) == Result::<TargetV, Seq<char>>::Ok(
            TargetV::Master,
        ),
        content::target_of("plots"@, n, key, known) == Result::<TargetV, Seq<char>>::Ok(
            TargetV::Plot { key },
        ),
        content::target_of("plots"@, n, Seq::empty(), known) is Err,
        known ==> content::target_of("ent:"@ + group, n, key, known) == Result::<
            TargetV,
            Seq<char>,
        >::Ok(TargetV::Entity { group, key }),
        !known ==> content::target_of("ent:"@ + group, n, key, known) is Err,
{
    reveal_strlit("draft");
    reveal_strlit("outline");
    reveal_strlit("master");
    reveal_strlit("plots");
    reveal_strlit("ent:");
    reveal_strlit("art:");
    assert("draft"@.len() == 5);
    assert("outline"@.len() == 7);
    assert("master"@.len() == 6);
    assert("plots"@.len() == 5);
    assert("ent:"@.len() == 4);
    assert("art:"@.len() == 4);
    assert("draft"@[0] != "plots"@[0]);
    assert("ent:"@[0] != "art:"@[0]);
    bare_word("draft"@);
    bare_word("outline"@);
    bare_word("master"@);
    bare_word("plots"@);
    let t = "ent:"@ + group;
    assert(t[0] == 'e');
    assert(t.last() == group.last());
    bare_word(t);
    assert(t.subrange(0, 4) =~= "ent:"@);
    assert(t.skip(4) =~= group);
    assert(t != "draft"@ && t != "outline"@ && t != "master"@ && t != "plots"@) by {
        assert(t[3] == ':');
        assert("draft"@[3] == 'f' && "outline"@[3] == 'l' && "master"@[3] == 't' && "plots"@[3]
            == 't');
    }
    assert(text::trim_front(Seq::<char>::empty()) == Seq::<char>::empty());
}

proof fn bare_word(s: Seq<char>)
    requires
        s.len() > 0,
        !text::is_space(s[0]),
        !text::is_space(s.last()),
    ensures
        text::trimmed(s) == s,
{
    assert(text::trim_front(s) == s);
    assert(text::trim_back(s) == s);
}

/// No artifact is saved outside its folder, and each is saved in the form that its
/// name asks for.
pub proof fn artifacts_stay_in_their_folder(stem: Seq<char>)
    ensures
        text::occurs(stem, "/"@) || text::occurs(stem, ".."@) || stem.len() == 0
            ==> !content::plain_name(stem),
        stem == "master_outline"@ || stem == "master_planner"@ ==> content::shape_of(stem)
            == ArtifactShape::MasterOutline,
        stem == "arc_outline"@ || stem == "arc_planner"@ ==> content::shape_of(stem)
            == ArtifactShape::ArcOutline,
        stem == "bible"@ ==> content::shape_of(stem) == ArtifactShape::Bible,
        stem != "master_outline"@ && stem != "master_planner"@ && stem != "arc_outline"@ && stem
            != "arc_planner"@ && stem != "bible"@ ==> content::shape_of(stem)
            == ArtifactShape::Plain,
        content::artifact_name(stem, true, true) == stem + ".md"@,
        content::artifact_name(stem, true, false) == stem + ".md"@,
        content::artifact_name(stem, false, true) == stem + ".txt"@,
        content::artifact_name(stem, false, false) == stem + ".md"@,
{
    reveal_strlit("master_outline");
    reveal_strlit("master_planner");
    reveal_strlit("arc_outline");
    reveal_strlit("arc_planner");
    reveal_strlit("bible");
    assert("master_outline"@.len() == 14);
    assert("master_planner"@.len() == 14);
    assert("arc_outline"@.len() == 11);
    assert("arc_planner"@.len() == 11);
    assert("bible"@.len() == 5);
    assert("master_outline"@[7] != "master_planner"@[7]);
    assert("arc_outline"@[4] != "arc_planner"@[4]);
}

/// A card is found under its file's name, its id, its name or its title, where its
/// file exists; a file of that very name comes first.
pub proof fn cards_are_found(cards: Seq<content::CardFile>, key: Seq<char>, k: int)
    requires
        key.len() > 0,
    ensures
        content::card_file(true, true, cards, key) == Some(key),
        content::card_file(false, true, cards, key) is None,
        0 <= k < cards.len() && cards[k]@.on_disk && (cards[k]@.slug == key || cards[k]@.id == key
            || cards[k]@.name == key || cards[k]@.title == key) && (forall|j: int|
            0 <= j < k ==> !content::answers_to((#[trigger] cards[j])@, key)) ==> content::card_file(
            true,
            false,
            cards,
            key,
        ) == Some(cards[k].slug@),
        (forall|j: int| 0 <= j < cards.len() ==> !(#[trigger] cards[j])@.on_disk)
            ==> content::card_file(true, false, cards, key) is None,
{
    if 0 <= k < cards.len() && content::answers_to(cards[k]@, key) && (forall|j: int|
        0 <= j < k ==> !content::answers_to((#[trigger] cards[j])@, key)) {
        card_is_first(cards, key, 0, k);
    }
    if forall|j: int| 0 <= j < cards.len() ==> !(#[trigger] cards[j])@.on_disk {
        no_card(cards, key, 0);
    }
}

proof fn card_is_first(cards: Seq<content::CardFile>, key: Seq<char>, i: int, k: int)
    requires
        0 <= i <= k < cards.len(),
        content::answers_to(cards[k]@, key),
        forall|j: int| 0 <= j < k ==> !content::answers_to((#[trigger] cards[j])@, key),
    ensures
        content::card_from(cards, key, i) == Some(cards[k].slug@),
    decreases k - i,
{
    if i < k {
        assert(!content::answers_to(cards[i]@, key));
        card_is_first(cards, key, i + 1, k);
    }
}

proof fn no_card(cards: Seq<content::CardFile>, key: Seq<char>, i: int)
    requires
        0 <= i,
        forall|j: int| 0 <= j < cards.len() ==> !(#[trigger] cards[j])@.on_disk,
    ensures
        content::card_from(cards, key, i) is None,
    decreases cards.len() - i,
{
    if i < cards.len() {
        assert(!cards[i]@.on_disk);
        no_card(cards, key, i + 1);
    }
}

/// Saving a text under front matter keeps the front matter and ends with the new text;
/// without front matter the text is all.
pub proof fn new_text_is_saved(existing: Seq<char>, body: Seq<char>)
    ensures
        content::front_matter(existing) is None ==> content::rebodied(existing, body) == body,
        content::front_matter(existing) is Some && (body.len() == 0 || body[0] != '\n')
            ==> text::ends(content::rebodied(existing, body), body),
        content::front_matter(existing) is Some ==> text::begins(
            content::rebodied(existing, body),
            "---\n"@ + content::front_matter(existing)->0,
        ),
{
    assert(body.len() == 0 || body[0] != '\n' ==> text::front_off(body, '\n') == body);
    if content::front_matter(existing) is Some {
        let yaml = content::front_matter(existing)->0;
        let rest = text::front_off(body, '\n');
        assert(text::begins("---\n"@ + yaml + "\n---\n\n"@ + rest, "---\n"@ + yaml)) by {
            reading::begun_texts();
        }
        assert(text::ends("---\n"@ + yaml + "\n---\n\n"@ + rest, rest)) by {
            reading::joined_texts();
        }
    }
}

// ---------------------------------------------------------------------------
// The journal
// ---------------------------------------------------------------------------

/// An entry holds what it was told; only a text that is too long is cut.
pub proof fn entries_hold_what_they_were_told(
    ts: Seq<char>,
    project: Seq<char>,
    thread: Option<Seq<char>>,
    turn: Option<Seq<char>>,
    chapter: Option<u32>,
    tie: Option<Seq<char>>,
    kind: OpsJournalKind,
    summary: Seq<char>,
    data: JsonV,
)
    ensures
        ({
            let e = ops_journal::entry_at(
                ts,
                project,
                thread,
                turn,
                chapter,
                tie,
                kind,
                summary,
                data,
            );
            &&& e.ts == ts && e.project == project && e.thread_id == thread && e.turn_id == turn
                && e.chapter == chapter && e.correlation_id == tie && e.kind == kind
            &&& summary.len() <= 2000 ==> e.summary == summary
            &&& summary.len() > 2000 ==> e.summary.len() == 2000 && e.summary.drop_last()
                == summary.take(1999) && e.summary.last() == '…'
            &&& data matches JsonV::Bool(_) ==> e.data == data
            &&& data matches JsonV::Uint(_) ==> e.data == data
            &&& data matches JsonV::Text(t) ==> t.len() <= 2000 ==> e.data == data
        }),
{
    if summary.len() > 2000 {
        assert(ops_journal::truncated(summary, 2000).drop_last() =~= summary.take(1999));
    }
}

/// The line of an entry tells when, what, which project, chapter and change, and what
/// happened.
pub proof fn lines_tell_the_entry(e: EntryV)
    ensures
        text::begins(ops_journal::entry_line(e), e.ts + " "@ + ops_journal::kind_word(e.kind)),
        text::ends(ops_journal::entry_line(e), e.summary),
        text::occurs(ops_journal::entry_line(e), e.project),
        e.chapter is Some ==> text::occurs(
            ops_journal::entry_line(e),
            " ch"@ + text::dec(e.chapter->0 as nat),
        ),
        e.correlation_id is Some ==> text::occurs(
            ops_journal::entry_line(e),
            e.correlation_id->0,
        ),
{
    let line = ops_journal::entry_line(e);
    assert(text::begins(line, e.ts + " "@ + ops_journal::kind_word(e.kind))) by {
        reading::begun_texts();
    }
    assert(text::ends(line, e.summary)) by {
        reading::joined_texts();
    }
    assert(text::occurs(line, e.project)) by {
        reading::joined_texts();
    }
    if e.correlation_id is Some {
        assert(text::occurs(line, e.correlation_id->0)) by {
            reading::joined_texts();
        }
    }
    if e.chapter is Some {
        let n = text::dec(e.chapter->0 as nat);
        let head = e.ts + " "@ + ops_journal::kind_word(e.kind) + " "@ + e.project;
        let mark = " ch"@ + n;
        let placed = head + " ch"@ + n;
        assert(placed.subrange(head.len() as int, placed.len() as int) =~= mark);
        assert(text::occurs_at(placed, mark, head.len() as int));
        assert(text::occurs(placed, mark));
        assert(text::occurs(line, mark)) by {
            reading::joined_texts();
            if e.correlation_id is Some {
                let tied = placed + " ["@ + e.correlation_id->0 + "]"@;
                assert(text::occurs(placed + " ["@, mark));
                assert(text::occurs(placed + " ["@ + e.correlation_id->0, mark));
                assert(text::occurs(tied, mark));
                assert(text::occurs(tied + " — "@, mark));
                assert(line == tied + " — "@ + e.summary);
            } else {
                assert(text::occurs(placed + " — "@, mark));
                assert(line == placed + " — "@ + e.summary);
            }
        }
    }
}

/// The words for the kinds of entry differ.
pub proof fn kinds_are_told_apart(a: OpsJournalKind, b: OpsJournalKind)
    requires
        ops_journal::kind_word(a) == ops_journal::kind_word(b),
    ensures
        a == b,
        a == OpsJournalKind::UserInput ==> ops_journal::kind_word(a) == "user_input"@,
        a == OpsJournalKind::GateResponded ==> ops_journal::kind_word(a) == "gate_responded"@,
        a == OpsJournalKind::MutationPreview ==> ops_journal::kind_word(a) == "mutation_preview"@,
        a == OpsJournalKind::MutationApplied ==> ops_journal::kind_word(a) == "mutation_applied"@,
        a == OpsJournalKind::HistoryReset ==> ops_journal::kind_word(a) == "history_reset"@,
{
    reveal_strlit("user_input");
    reveal_strlit("gate_responded");
    reveal_strlit("mutation_preview");
    reveal_strlit("mutation_applied");
    reveal_strlit("history_reset");
    assert("user_input"@.len() == 10);
    assert("gate_responded"@.len() == 14);
    assert("mutation_preview"@.len() == 16);
    assert("mutation_applied"@.len() == 16);
    assert("history_reset"@.len() == 13);
    assert("mutation_preview"@[9] != "mutation_applied"@[9]);
}

/// A query finds every entry that it asks for, the newest as many as it may: by kind,
/// by chapter, and not before a time.
pub proof fn queries_find_what_they_ask_for(s: Seq<EntryV>, q: QueryV, e: EntryV)
    requires
        s.contains(e),
    ensures
        ({
            let asked = (q.kind is Some ==> e.kind == q.kind->0) && (q.chapter is Some ==> e.chapter
                == q.chapter) && (q.after is Some ==> e.ts == q.after->0 || order::lex_less(
                q.after->0,
                e.ts,
            ));
            &&& asked && s.len() <= q.limit <= 2000 ==> ops_journal::selected(s, q).contains(e)
            &&& !asked ==> !ops_journal::selected(s, q).contains(e)
        }),
        1 <= q.limit <= 2000 ==> ops_journal::selected(s, q).len() <= q.limit,
        s.len() > 0 && ops_journal::wanted(s.last(), q) ==> ops_journal::selected(s, q).len() > 0
            && ops_journal::selected(s, q).last() == s.last(),
{
    wanted_are_kept(s, q, e);
    ops_journal::selected_are_wanted(s, q);
    if q.after is Some {
        order::lex_total(e.ts, q.after->0);
    }
    let w = ops_journal::all_wanted(s, q);
    let sel = ops_journal::selected(s, q);
    if sel.contains(e) {
        let i = choose|i: int| 0 <= i < sel.len() && sel[i] == e;
        assert(ops_journal::wanted(sel[i], q));
    }
    if s.len() > 0 && ops_journal::wanted(s.last(), q) {
        assert(w.last() == s.last());
    }
}

proof fn wanted_are_kept(s: Seq<EntryV>, q: QueryV, e: EntryV)
    ensures
        ops_journal::all_wanted(s, q).len() <= s.len(),
        s.contains(e) && ops_journal::wanted(e, q) ==> ops_journal::all_wanted(s, q).contains(e),
    decreases s.len(),
{
    if s.len() > 0 {
        let r = s.drop_last();
        wanted_are_kept(r, q, e);
        if s.contains(e) && ops_journal::wanted(e, q) {
            let k = choose|k: int| 0 <= k < s.len() && s[k] == e;
            let before = ops_journal::all_wanted(r, q);
            if k < r.len() {
                assert(r[k] == e);
                let j = choose|j: int| 0 <= j < before.len() && before[j] == e;
                assert(ops_journal::all_wanted(s, q)[j] == e);
            } else {
                assert(ops_journal::all_wanted(s, q)[before.len() as int] == e);
            }
        }
    }
}

/// A change took effect unless the tool was stopped, waits, or says that it failed.
pub proof fn effect_is_read_from_the_result(data: JsonV)
    ensures
        data.flag("blocked"@) || data.flag("content_rule_blocked"@) || data.flag("needs_confirm"@)
            || data.denied("ok"@) ==> !ops_journal::apply_succeeded(data),
        data == JsonV::empty_object() ==> ops_journal::apply_succeeded(data),
        data.uint("chapter"@) is Some && 0 < data.uint("chapter"@)->0 <= u32::MAX
            ==> ops_journal::chapter_in(data) == Some(data.uint("chapter"@)->0 as u32),
        data.uint("chapter"@) is None || data.uint("chapter"@) == Some(0u64)
            ==> ops_journal::chapter_in(data) is None,
{
}

/// The journal of a project lies in the project's own folder.
pub proof fn journal_lies_with_its_project(root: Seq<char>, project: Seq<char>)
    requires
        root.len() > 0,
        root.last() != '/',
        project.len() > 0,
        project[0] != '/',
        project.last() != '/',
    ensures
        ops_journal::journal_place(root, project) == root + "/"@ + project
            + "/.novelx/ops_journal.jsonl"@,
{
    reveal_strlit("/");
    reveal_strlit(".novelx");
    reveal_strlit("ops_journal.jsonl");
    reveal_strlit("/.novelx/ops_journal.jsonl");
    let a = root + "/"@ + project;
    assert(a.last() == project.last());
    let b = a + "/"@ + ".novelx"@;
    assert(b.last() == 'x');
    assert(b + "/"@ + "ops_journal.jsonl"@ =~= a + "/.novelx/ops_journal.jsonl"@);
}

// ---------------------------------------------------------------------------
// The overview
// ---------------------------------------------------------------------------

/// The entry of a chapter tells its number, its title by number, and its texts.
pub proof fn chapters_are_shown(c: ChapterText)
    ensures
        ({
            let e = preview::chapter_entry(c);
            &&& e.uint("number"@) == Some(c.number as u64)
            &&& e.text("title"@) == Some("第"@ + text::dec(c.number as nat) + "章"@)
            &&& text::trimmed(c.draft@).len() > 0 ==> e.text("draft"@) == Some(c.draft_shown@)
            &&& text::trimmed(c.draft@).len() == 0 ==> e.text("draft"@) == Some(
                Seq::<char>::empty(),
            )
            &&& e.text("outline"@) == Some(c.outline_shown@)
        }),
{
    reading::put_reads_back();
    reveal_strlit("number");
    reveal_strlit("title");
    reveal_strlit("draft");
    reveal_strlit("outline");
    assert("number"@.len() == 6);
    assert("title"@.len() == 5);
    assert("draft"@.len() == 5);
    assert("outline"@.len() == 7);
    assert("title"@[0] != "draft"@[0]);
}

/// The overview of a project tells its name, how many chapters are published, which is
/// next, its phases and all its chapters.
pub proof fn overview_tells_the_project(p: PreviewParts)
    ensures
        ({
            let o = preview::overview(p);
            &&& o.text("project"@) == Some(p.name@)
            &&& o.text("name"@) == Some(p.name@)
            &&& p.state is Some ==> o.uint("published_count"@) == Some(
                p.state->0.published_count as u64,
            ) && o.uint("next_chapter"@) == Some(p.state->0.next_chapter as u64)
            &&& p.state is None ==> o.uint("published_count"@) == Some(0u64) && o.uint(
                "next_chapter"@,
            ) == Some(1u64)
            &&& o.text("setup_phase"@) == Some(p.setup_phase@)
            &&& o.text("volume_phase"@) == Some(p.volume_phase@)
            &&& o.list("chapters"@) == Some(preview::chapter_entries(p.chapters@))
            &&& o.list("plots"@) == Some(crate::json::items(p.plots@))
            &&& p.story_outline is Some ==> o.get("story_outline"@) == Some(p.story_outline->0@)
            &&& o.get("entity_gaps"@) == Some(p.entity_gaps@)
        }),
{
    reading::put_reads_back();
    reveal_strlit("project");
    reveal_strlit("name");
    reveal_strlit("chapters");
    reveal_strlit("story_outline");
    reveal_strlit("plots");
    reveal_strlit("entities");
    reveal_strlit("artifacts");
    reveal_strlit("entity_gaps");
    reveal_strlit("entity_gaps_display");
    reveal_strlit("published_count");
    reveal_strlit("next_chapter");
    reveal_strlit("state");
    reveal_strlit("setup_phase");
    reveal_strlit("volume_phase");
    reveal_strlit("has_master_outline");
    reveal_strlit("has_arc_outline");
    assert("project"@.len() == 7);
    assert("name"@.len() == 4);
    assert("chapters"@.len() == 8);
    assert("story_outline"@.len() == 13);
    assert("plots"@.len() == 5);
    assert("entities"@.len() == 8);
    assert("artifacts"@.len() == 9);
    assert("entity_gaps"@.len() == 11);
    assert("entity_gaps_display"@.len() == 19);
    assert("published_count"@.len() == 15);
    assert("next_chapter"@.len() == 12);
    assert("state"@.len() == 5);
    assert("setup_phase"@.len() == 11);
    assert("volume_phase"@.len() == 12);
    assert("has_master_outline"@.len() == 18);
    assert("has_arc_outline"@.len() == 15);
    assert("chapters"@[0] != "entities"@[0]);
    assert("plots"@[0] != "state"@[0]);
    assert("entity_gaps"@[0] != "setup_phase"@[0]);
    assert("published_count"@[0] != "has_arc_outline"@[0]);
    assert("next_chapter"@[0] != "volume_phase"@[0]);
}

/// The entry of a project in the library tells the same of it.
pub proof fn library_tells_the_project(id: Seq<char>, s: Option<ProjectState>)
    ensures
        ({
            let e = preview::library_entry(id, s);
            &&& e.text("id"@) == Some(id)
            &&& e.text("name"@) == Some(id)
            &&& s is Some ==> e.text("title"@) == Some(s->0.name@) && e.text("display_title"@)
                == Some(s->0.name@) && e.text("genre"@) == Some(s->0.genre@) && e.uint(
                "next_chapter"@,
            ) == Some(s->0.next_chapter as u64) && e.uint("published_count"@) == Some(
                s->0.published_count as u64,
            )
            &&& s is None ==> e.text("title"@) == Some(id) && e.uint("next_chapter"@) == Some(1u64)
                && e.uint("published_count"@) == Some(0u64)
            &&& e.text("status"@) == Some("active"@)
        }),
{
    reading::put_reads_back();
    reveal_strlit("id");
    reveal_strlit("name");
    reveal_strlit("display_title");
    reveal_strlit("title");
    reveal_strlit("genre");
    reveal_strlit("next_chapter");
    reveal_strlit("published_count");
    reveal_strlit("status");
    assert("id"@.len() == 2);
    assert("name"@.len() == 4);
    assert("display_title"@.len() == 13);
    assert("title"@.len() == 5);
    assert("genre"@.len() == 5);
    assert("next_chapter"@.len() == 12);
    assert("published_count"@.len() == 15);
    assert("status"@.len() == 6);
    assert("title"@[0] != "genre"@[0]);
}

} // verus!
