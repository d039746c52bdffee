//! What happens at the end of a volume and before the next.

use vstd::prelude::*;

use crate::gates;
use crate::gates::GateV;
use crate::json::JsonV;
use crate::laws::reading;
use crate::offers::{CardV, ContextV, OfferV};
use crate::stage_picks;
use crate::stage_picks::{HandoffEndV, SkipEffect, SyncEndV};
use crate::text;
use crate::thread_state::{SetupV, ThreadV, VolumeHandoffV, VolumeSyncV};
use crate::volume;
use crate::volume::{BoundV, FactsV, SetupStepV, VolumePhase};

verus! {

/// The result or, where it names none, the call names the project.
pub open spec fn names_project(first: JsonV, second: JsonV, project: Seq<char>) -> bool {
    project.len() > 0 && (first.text("project"@) == Some(project) || (first.text("project"@) is None
        && second.text("project"@) == Some(project)))
}

/// The result or, where it says nothing, the project's state tells the phase.
pub open spec fn tells_phase(data: JsonV, facts: FactsV, word: Seq<char>, phase: VolumePhase) -> bool {
    data.text("volume_phase"@) == Some(word) || (data.text("volume_phase"@) is None && facts.phase
        == phase)
}

/// No card is open that a step between volumes has to wait for.
pub open spec fn free_for_handoff(s: ThreadV) -> bool {
    s.pending_audit is None && s.pending_volume_audit is None && s.pending_setup is None
}

/// After the call, the step of the phase waits for the author: its card opens with
/// its buttons, or stands open already.
pub open spec fn waits_at(
    after: (ThreadV, OfferV),
    s: ThreadV,
    c: Seq<GateV>,
    project: Seq<char>,
    word: Seq<char>,
    gate: Seq<char>,
    volume: u32,
) -> bool {
    &&& after.0.pending_volume_handoff matches Some(h)
    &&& h.project == project && h.phase == word && h.volume == volume
    &&& match after.1 {
        OfferV::Open(card) => card.options == gates::shown(c, gate)
            && after.0.pending_volume_sync is None && after.0.pending_chapter_next is None
            && text::occurs(card.prompt, "第"@ + text::dec(volume as nat) + "卷"@),
        OfferV::Standing => after.0 == s,
        _ => false,
    }
}

proof fn words_differ()
    ensures
        "continue_writing"@ != "sync_volume"@,
        "revise_chapter"@ != "sync_volume"@,
        "design_plot"@ != "sync_volume"@,
        "continue_writing"@ != "design_arc_outline"@,
        "revise_chapter"@ != "design_arc_outline"@,
        "design_plot"@ != "design_arc_outline"@,
        "sync_volume"@ != "design_arc_outline"@,
        "drafting_volume"@ != "awaiting_next_arc"@,
        "drafting_volume"@ != "awaiting_next_plot"@,
        "drafting_volume"@ != "awaiting_sync"@,
        "awaiting_sync"@ != "awaiting_next_arc"@,
        "awaiting_sync"@ != "awaiting_next_plot"@,
        "awaiting_next_arc"@ != "awaiting_next_plot"@,
{
    reveal_strlit("continue_writing");
    reveal_strlit("sync_volume");
    reveal_strlit("revise_chapter");
    reveal_strlit("design_plot");
    reveal_strlit("design_arc_outline");
    assert("continue_writing"@.len() == 16);
    assert("sync_volume"@.len() == 11);
    assert("revise_chapter"@.len() == 14);
    assert("design_plot"@.len() == 11);
    assert("design_arc_outline"@.len() == 18);
    assert("sync_volume"@[0] != "design_plot"@[0]);
    reveal_strlit("drafting_volume");
    reveal_strlit("awaiting_sync");
    reveal_strlit("awaiting_next_arc");
    reveal_strlit("awaiting_next_plot");
    assert("drafting_volume"@.len() == 15);
    assert("awaiting_sync"@.len() == 13);
    assert("awaiting_next_arc"@.len() == 17);
    assert("awaiting_next_plot"@.len() == 18);
}

proof fn prompt_names_volume(phase: VolumePhase, volume: u32)
    ensures
        text::occurs(
            volume::handoff_prompt(phase, volume, None),
            "第"@ + text::dec(volume as nat) + "卷"@,
        ),
{
    let n = text::dec(volume as nat);
    let mark = "第"@ + n + "卷"@;
    let p = volume::handoff_prompt(phase, volume, None);
    reveal_strlit("第");
    reveal_strlit("卷");
    reveal_strlit("卷间交接：请先设计第");
    reveal_strlit("卷卷纲，再开剧情卡写章。");
    reveal_strlit("卷间交接：第");
    reveal_strlit("卷卷纲已就绪，请设计并激活开局剧情卡。");
    assert("第"@.len() == 1);
    assert("卷"@.len() == 1);
    assert("卷间交接：请先设计第"@.len() == 10);
    assert("卷卷纲，再开剧情卡写章。"@.len() == 12);
    assert("卷间交接：第"@.len() == 6);
    assert("卷卷纲已就绪，请设计并激活开局剧情卡。"@.len() == 19);
    assert("第"@[0] != "卷"@[0]);
    let head: int = if phase == VolumePhase::AwaitingNextArc {
        "卷间交接：请先设计第"@.len() - 1
    } else {
        "卷间交接：第"@.len() - 1
    };
    assert(p.subrange(head, head + mark.len()) =~= mark);
    assert(text::occurs_at(p, mark, head));
}

/// A volume that was synchronised leads to the outline of the next: once the
/// project waits for it, `sync_volume` leaves the card of that step open.
pub proof fn synchronised_volume_leads_on(
    s: ThreadV,
    c: Seq<GateV>,
    args: JsonV,
    data: JsonV,
    facts: FactsV,
    project: Seq<char>,
)
    requires
        names_project(data, args, project),
        tells_phase(data, facts, "awaiting_next_arc"@, VolumePhase::AwaitingNextArc),
        !data.flag("blocked"@),
        !data.denied("ok"@),
        free_for_handoff(s),
        gates::shown(c, "volume_handoff_arc"@).len() > 0,
    ensures
        waits_at(
            volume::handoff_offer(s, true, c, "sync_volume"@, args, data, facts),
            s,
            c,
            project,
            "awaiting_next_arc"@,
            "volume_handoff_arc"@,
            volume::target_volume(facts.bounds),
        ),
{
    words_differ();
    prompt_names_volume(VolumePhase::AwaitingNextArc, volume::target_volume(facts.bounds));
}

/// The outline of a volume leads to its first plot card.
pub proof fn outlined_volume_leads_on(
    s: ThreadV,
    c: Seq<GateV>,
    args: JsonV,
    data: JsonV,
    facts: FactsV,
    project: Seq<char>,
)
    requires
        names_project(data, args, project),
        tells_phase(data, facts, "awaiting_next_plot"@, VolumePhase::AwaitingNextPlot),
        !data.flag("blocked"@),
        free_for_handoff(s),
        gates::shown(c, "volume_handoff_plot"@).len() > 0,
    ensures
        waits_at(
            volume::handoff_offer(s, true, c, "design_arc_outline"@, args, data, facts),
            s,
            c,
            project,
            "awaiting_next_plot"@,
            "volume_handoff_plot"@,
            volume::target_volume(facts.bounds),
        ),
{
    words_differ();
    prompt_names_volume(VolumePhase::AwaitingNextPlot, volume::target_volume(facts.bounds));
}

/// Writing that is blocked between volumes opens the card of the step that the
/// project stands at: the synchronisation of the volume that ended, the outline
/// of the next, or its first plot card.
pub proof fn blocked_writing_shows_the_step(
    s: ThreadV,
    c: Seq<GateV>,
    tool: Seq<char>,
    args: JsonV,
    data: JsonV,
    facts: FactsV,
    project: Seq<char>,
)
    requires
        tool == "continue_writing"@ || tool == "revise_chapter"@ || tool == "design_plot"@,
        names_project(data, args, project),
        data.flag("blocked"@),
        free_for_handoff(s),
    ensures
        ({
            let after = volume::handoff_offer(s, true, c, tool, args, data, facts);
            let next = volume::target_volume(facts.bounds);
            &&& tells_phase(data, facts, "awaiting_sync"@, VolumePhase::AwaitingSync)
                && !facts.false_end ==> {
                &&& after.0.pending_volume_sync matches Some(p)
                &&& p.project == project
                &&& p.volume == volume::ended_volume(facts.bounds).0
                &&& p.name == volume::ended_volume(facts.bounds).1
                &&& after.0.pending_volume_handoff is None
                &&& after.1 matches OfferV::Open(card)
                &&& card.options == gates::shown(c, "volume_sync"@)
            }
            &&& tells_phase(data, facts, "awaiting_sync"@, VolumePhase::AwaitingSync)
                && facts.false_end ==> after.1 is Nothing && after.0.pending_volume_sync is None
                && after.0.pending_volume_handoff is None
            &&& tells_phase(data, facts, "awaiting_next_arc"@, VolumePhase::AwaitingNextArc)
                && gates::shown(c, "volume_handoff_arc"@).len() > 0 ==> waits_at(
                after,
                s,
                c,
                project,
                "awaiting_next_arc"@,
                "volume_handoff_arc"@,
                next,
            )
            &&& tells_phase(data, facts, "awaiting_next_plot"@, VolumePhase::AwaitingNextPlot)
                && gates::shown(c, "volume_handoff_plot"@).len() > 0 ==> waits_at(
                after,
                s,
                c,
                project,
                "awaiting_next_plot"@,
                "volume_handoff_plot"@,
                next,
            )
        }),
{
    words_differ();
    prompt_names_volume(VolumePhase::AwaitingNextArc, volume::target_volume(facts.bounds));
    prompt_names_volume(VolumePhase::AwaitingNextPlot, volume::target_volume(facts.bounds));
}

/// While a volume is being written there is no step between volumes, and none is
/// shown where it is not asked for, over another card, or without a project.
pub proof fn no_step_out_of_place(
    s: ThreadV,
    enforce: bool,
    c: Seq<GateV>,
    tool: Seq<char>,
    args: JsonV,
    data: JsonV,
    facts: FactsV,
)
    requires
        !enforce || !free_for_handoff(s) || tells_phase(
            data,
            facts,
            "drafting_volume"@,
            VolumePhase::DraftingVolume,
        ) || (data.text_or_empty("project"@).len() == 0 && args.text_or_empty("project"@).len()
            == 0) || (!data.flag("offer_volume_handoff"@) && tool != "sync_volume"@ && tool
            != "design_arc_outline"@ && !data.flag("blocked"@)),
    ensures
        volume::handoff_offer(s, enforce, c, tool, args, data, facts) == (s, OfferV::Nothing),
{
    words_differ();
}

/// A result that asks for the step between volumes gets it, whatever tool it came
/// from, but for those that write.
pub proof fn asked_for_step_is_shown(
    s: ThreadV,
    c: Seq<GateV>,
    tool: Seq<char>,
    args: JsonV,
    data: JsonV,
    facts: FactsV,
    project: Seq<char>,
)
    requires
        tool != "continue_writing"@ && tool != "revise_chapter"@ && tool != "design_plot"@ && tool
            != "sync_volume"@,
        data.flag("offer_volume_handoff"@),
        names_project(data, args, project),
        tells_phase(data, facts, "awaiting_next_arc"@, VolumePhase::AwaitingNextArc),
        free_for_handoff(s),
        gates::shown(c, "volume_handoff_arc"@).len() > 0,
    ensures
        waits_at(
            volume::handoff_offer(s, true, c, tool, args, data, facts),
            s,
            c,
            project,
            "awaiting_next_arc"@,
            "volume_handoff_arc"@,
            volume::target_volume(facts.bounds),
        ),
{
    words_differ();
    prompt_names_volume(VolumePhase::AwaitingNextArc, volume::target_volume(facts.bounds));
}

/// A failed attempt opens the step's card again and tells what went wrong.
pub proof fn failure_is_told(
    s: ThreadV,
    c: Seq<GateV>,
    project: Seq<char>,
    phase: VolumePhase,
    facts: FactsV,
    hint: Seq<char>,
)
    requires
        project.len() > 0,
        hint.len() > 0,
        phase == VolumePhase::AwaitingNextArc ==> gates::shown(c, "volume_handoff_arc"@).len() > 0,
        phase == VolumePhase::AwaitingNextPlot ==> gates::shown(c, "volume_handoff_plot"@).len()
            > 0,
        phase == VolumePhase::AwaitingNextArc || phase == VolumePhase::AwaitingNextPlot,
    ensures
        ({
            let after = volume::handoff_opened(s, true, c, project, phase, facts, Some(hint));
            &&& after.0.pending_volume_handoff matches Some(h)
            &&& h.last_error == hint && h.project == project
            &&& after.1 matches OfferV::Open(card)
            &&& text::begins(card.prompt, "上次未成功："@ + hint)
        }),
{
    reading::begun_texts();
}

/// The words for the phases are read back as the phases.
pub proof fn phases_read_back(data: JsonV, facts: FactsV, p: VolumePhase)
    requires
        data.text("volume_phase"@) == Some(volume::phase_word(p)),
    ensures
        volume::told_phase(data, facts) == p,
        stage_picks::waiting_phase(volume::phase_word(p)) == p,
        p == VolumePhase::AwaitingNextArc ==> gates::handoff_gate(volume::phase_word(p)) == Some(
            "volume_handoff_arc"@,
        ),
        p == VolumePhase::AwaitingNextPlot ==> gates::handoff_gate(volume::phase_word(p)) == Some(
            "volume_handoff_plot"@,
        ),
{
    words_differ();
}

proof fn unfinished_is_first(b: Seq<BoundV>, i: int)
    requires
        0 <= i,
    ensures
        match volume::unfinished_from(b, i) {
            Some(k) => i <= k < b.len() && !b[k].completed && forall|j: int|
                i <= j < k ==> (#[trigger] b[j]).completed,
            None => forall|j: int| i <= j < b.len() ==> (#[trigger] b[j]).completed,
        },
    decreases b.len() - i,
{
    if i < b.len() && b[i].completed {
        unfinished_is_first(b, i + 1);
    }
}

proof fn last_is_largest(b: Seq<BoundV>)
    ensures
        forall|j: int|
            0 <= j < b.len() ==> (#[trigger] b[j]).volume_index <= volume::last_index(b),
        b.len() > 0 ==> exists|j: int|
            0 <= j < b.len() && (#[trigger] b[j]).volume_index == volume::last_index(b),
    decreases b.len(),
{
    if b.len() > 0 {
        let r = b.drop_last();
        last_is_largest(r);
        assert forall|j: int| 0 <= j < b.len() implies (#[trigger] b[j]).volume_index
            <= volume::last_index(b) by {
            if j < r.len() {
                assert(r[j] == b[j]);
            }
        }
        if b.last().volume_index > volume::last_index(r) || r.len() == 0 {
            assert(b[b.len() - 1].volume_index == volume::last_index(b));
        } else {
            let j = choose|j: int|
                0 <= j < r.len() && (#[trigger] r[j]).volume_index == volume::last_index(r);
            assert(b[j].volume_index == volume::last_index(b));
        }
    }
}

/// The next volume is the first that is not finished; where all are, it is the one
/// after the last.
pub proof fn next_volume_is_the_unfinished(b: Seq<BoundV>, k: int)
    requires
        forall|j: int| 0 <= j < b.len() ==> 1 <= (#[trigger] b[j]).volume_index < u32::MAX,
    ensures
        0 <= k < b.len() && !b[k].completed && (forall|j: int|
            0 <= j < k ==> (#[trigger] b[j]).completed) ==> volume::target_volume(b)
            == b[k].volume_index,
        (forall|j: int| 0 <= j < b.len() ==> (#[trigger] b[j]).completed) ==> forall|j: int|
            0 <= j < b.len() ==> (#[trigger] b[j]).volume_index < volume::target_volume(b),
        (forall|j: int| 0 <= j < b.len() ==> (#[trigger] b[j]).completed) && b.len() > 0
            ==> exists|j: int|
            0 <= j < b.len() && (#[trigger] b[j]).volume_index + 1 == volume::target_volume(b),
{
    unfinished_is_first(b, 0);
    last_is_largest(b);
    if forall|j: int| 0 <= j < b.len() ==> (#[trigger] b[j]).completed {
        if b.len() > 0 {
            let j = choose|j: int|
                0 <= j < b.len() && (#[trigger] b[j]).volume_index == volume::last_index(b);
            assert(b[j].volume_index + 1 == volume::target_volume(b));
        }
    }
}

proof fn ended_is_last(b: Seq<BoundV>, n: int)
    requires
        0 <= n <= b.len(),
    ensures
        match volume::ended_before(b, n) {
            Some(k) => 0 <= k < n && b[k].completed && forall|j: int|
                k < j < n ==> !(#[trigger] b[j]).completed,
            None => forall|j: int| 0 <= j < n ==> !(#[trigger] b[j]).completed,
        },
    decreases n,
{
    if n > 0 && !b[n - 1].completed {
        ended_is_last(b, n - 1);
    }
}

/// The volume that ended is the last one that is finished.
pub proof fn ended_volume_is_the_last_finished(b: Seq<BoundV>, k: int)
    requires
        0 <= k < b.len(),
        b[k].completed,
        forall|j: int| k < j < b.len() ==> !(#[trigger] b[j]).completed,
    ensures
        volume::ended_volume(b) == (b[k].volume_index, b[k].name),
{
    ended_is_last(b, b.len() as int);
}

proof fn named_is_first(b: Seq<BoundV>, volume: u32, i: int)
    requires
        0 <= i,
    ensures
        match volume::volume_from(b, volume, i) {
            Some(k) => i <= k < b.len() && b[k].volume_index == volume,
            None => forall|j: int| i <= j < b.len() ==> (#[trigger] b[j]).volume_index != volume,
        },
    decreases b.len() - i,
{
    if i < b.len() && b[i].volume_index != volume {
        named_is_first(b, volume, i + 1);
    }
}

/// The title of a volume's first plot card names the volume, by its number and by
/// its name where it has one.
pub proof fn first_card_names_its_volume(b: Seq<BoundV>, volume: u32, k: int)
    requires
        0 <= k < b.len(),
        b[k].volume_index == volume,
        forall|i: int, j: int|
            0 <= i < j < b.len() ==> (#[trigger] b[i]).volume_index != (
            #[trigger] b[j]).volume_index,
    ensures
        text::begins(volume::plot_title(b, volume), "第"@ + text::dec(volume as nat)),
        text::occurs(volume::plot_title(b, volume), text::trimmed(b[k].name)),
        text::ends(volume::plot_title(b, volume), "开局"@),
{
    named_is_first(b, volume, 0);
    let name = text::trimmed(b[k].name);
    let t = volume::plot_title(b, volume);
    assert(text::begins(t, "第"@ + text::dec(volume as nat))) by {
        reading::begun_texts();
    }
    if name.len() == 0 {
        reading::empty_occurs(t);
        assert(name =~= Seq::empty());
    } else {
        assert(text::occurs(t, name)) by {
            reading::joined_texts();
        }
    }
    assert(text::ends(t, "开局"@)) by {
        reveal_strlit("开局");
        reveal_strlit("卷开局");
        reveal_strlit("·开局");
        assert("开局"@.len() == 2);
        assert("卷开局"@.len() == 3);
        assert("·开局"@.len() == 3);
        assert("卷开局"@[0] != "·开局"@[0]);
        assert(t.subrange(t.len() - 2, t.len() as int) =~= "开局"@);
    }
}

/// The end of a volume asks whether to synchronise it: the card holds that volume
/// of that project, and nothing else stays open that it would cover.
pub proof fn volume_end_asks_to_synchronise(
    s: ThreadV,
    c: Seq<GateV>,
    tool: Seq<char>,
    args: JsonV,
    data: JsonV,
    memory: Seq<char>,
    project: Seq<char>,
    n: u32,
)
    requires
        tool == "continue_writing"@ || tool == "revise_chapter"@ || tool == "audit_chapter"@,
        names_project(args, data, project),
        data.uint("volume_ended"@) == Some(n as u64),
        s.pending_volume_sync is None,
    ensures
        ({
            let after = volume::volume_sync_offer(s, c, tool, args, data, memory);
            &&& after.0.pending_volume_sync matches Some(p)
            &&& p.project == project && p.volume == n
            &&& p.name == data.text_or_empty("volume_ended_name"@)
            &&& after.0.pending_audit is None
            &&& p.deferred_setting_blocker is Some <==> data.flag("plot_setting_blocker"@)
            &&& after.1 matches OfferV::Open(card)
            &&& card.options == gates::shown(c, "volume_sync"@)
            &&& text::begins(card.prompt, "第"@ + text::dec(n as nat) + "卷"@)
            &&& after.0 == (ThreadV {
                pending_volume_sync: after.0.pending_volume_sync,
                pending_audit: None,
                ..s
            })
        }),
        ({
            let after = volume::volume_sync_offer(s, c, tool, args, data, memory);
            volume::volume_sync_offer(after.0, c, tool, args, data, memory).1 is Standing
                || data.text("project"@) is Some && data.text("project"@) != Some(project)
        }),
{
    reading::begun_texts();
    let after = volume::volume_sync_offer(s, c, tool, args, data, memory);
    let name = data.text_or_empty("volume_ended_name"@);
    let mark = "第"@ + text::dec(n as nat) + "卷"@;
    reveal_strlit("第");
    reveal_strlit("卷");
    reveal_strlit("卷「");
    assert("第"@.len() == 1);
    assert("卷"@.len() == 1);
    assert("卷「"@.len() == 2);
    assert("第"@[0] != "卷"@[0]);
    assert(volume::volume_label(n as u64, name).subrange(0, mark.len() as int) =~= mark);
    assert(text::begins(volume::volume_label(n as u64, name), mark));
}

/// Only a chapter's end ends a volume.
pub proof fn other_tools_end_no_volume(
    s: ThreadV,
    c: Seq<GateV>,
    tool: Seq<char>,
    args: JsonV,
    data: JsonV,
    memory: Seq<char>,
)
    requires
        data.uint("volume_ended"@) is None || (tool != "continue_writing"@ && tool
            != "revise_chapter"@ && tool != "audit_chapter"@),
    ensures
        volume::volume_sync_offer(s, c, tool, args, data, memory) == (s, OfferV::Nothing),
{
}

/// A step of the setup leads to the next: after a tool that moves the setup on,
/// the card of the next step opens with that step's buttons.
pub proof fn setup_leads_on(
    s: ThreadV,
    c: Seq<GateV>,
    tool: Seq<char>,
    args: JsonV,
    data: JsonV,
    next: SetupStepV,
    project: Seq<char>,
)
    requires
        tool == "design_master_outline"@ || tool == "design_arc_outline"@ || tool == "lock_brief"@
            || tool == "upsert_setting"@ || tool == "supplement_setting"@ || tool
            == "confirm_setup"@ || data.flag("offer_setup_confirm"@),
        !data.flag("needs_confirm"@),
        !data.flag("blocked"@),
        names_project(args, data, project),
        s.pending_setup is None,
        s.pending_mutation is None,
        s.pending_impact is None,
        s.pending_audit is None,
        s.pending_volume_sync is None,
        s.pending_volume_handoff is None,
        gates::shown(c, next.gate).len() > 0,
    ensures
        ({
            let after = volume::setup_offer(s, true, c, tool, args, data, Some(next));
            &&& after.0.pending_setup == Some(SetupV { project, next: next.name })
            &&& after.0.pending_chapter_next is None
            &&& after.1 == OfferV::Open(
                CardV {
                    prompt: next.prompt,
                    options: gates::shown(c, next.gate),
                    preview: None,
                },
            )
            &&& volume::setup_offer(after.0, true, c, tool, args, data, Some(next)).1 is Standing
        }),
{
}

/// Writing that the setup blocks opens the card of the next step too; a change that
/// waits for confirmation, an open card, or a finished setup opens none.
pub proof fn setup_blocks_writing(
    s: ThreadV,
    enforce: bool,
    c: Seq<GateV>,
    tool: Seq<char>,
    args: JsonV,
    data: JsonV,
    next: Option<SetupStepV>,
    project: Seq<char>,
)
    requires
        names_project(args, data, project),
        s.pending_setup is None,
    ensures
        ({
            let after = volume::setup_offer(s, enforce, c, tool, args, data, next);
            &&& next is None || !enforce || data.flag("needs_confirm"@) || s.pending_mutation
                is Some || s.pending_impact is Some || s.pending_audit is Some
                || s.pending_volume_sync is Some || s.pending_volume_handoff is Some ==> after == (
                s,
                OfferV::Nothing,
            )
            &&& next is Some && enforce && !data.flag("needs_confirm"@) && tool
                == "continue_writing"@ && data.flag("blocked"@) && data.text("reason"@) == Some(
                "setup"@,
            ) && s.pending_mutation is None && s.pending_impact is None && s.pending_audit is None
                && s.pending_volume_sync is None && s.pending_volume_handoff is None
                && gates::shown(c, next->0.gate).len() > 0 ==> after.1 is Open
                && after.0.pending_setup == Some(SetupV { project, next: next->0.name })
        }),
{
}

/// A look back at a volume that suggests chapters asks about exactly those.
pub proof fn suggested_chapters_are_asked_about(
    s: ThreadV,
    args: JsonV,
    data: JsonV,
    chapters: Seq<u32>,
    project: Seq<char>,
    n: u32,
)
    requires
        names_project(args, data, project),
        data.flag("needs_user_choice"@),
        data.uint("volume_index"@) == Some(n as u64),
        chapters.len() > 0,
        forall|i: int| 0 <= i < chapters.len() ==> #[trigger] chapters[i] >= 1,
        data.list("suggested_chapters"@) == Some(
            Seq::new(chapters.len(), |i: int| JsonV::Uint(chapters[i] as u64)),
        ),
    ensures
        ({
            let after = volume::volume_audit_offer(s, "audit_volume"@, args, data);
            &&& after.1 matches OfferV::Ask(r)
            &&& r.project == project
            &&& r.context == ContextV::VolumeAudit { volume: n, chapters }
            &&& text::begins(r.reason, "第"@ + text::dec(n as nat) + "卷复盘完成。建议深审："@)
            &&& after.0 == (ThreadV { pending_audit: None, ..s })
        }),
        !(volume::volume_audit_offer(s, "audit_chapter"@, args, data).1 is Ask),
{
    reveal_strlit("audit_volume");
    reveal_strlit("audit_chapter");
    assert("audit_volume"@.len() == 12);
    assert("audit_chapter"@.len() == 13);
    reading::begun_texts();
    chapters_are_read(chapters);
}

proof fn chapters_are_read(chapters: Seq<u32>)
    requires
        forall|i: int| 0 <= i < chapters.len() ==> #[trigger] chapters[i] >= 1,
    ensures
        volume::chapters_in(Seq::new(chapters.len(), |i: int| JsonV::Uint(chapters[i] as u64)))
            == chapters,
    decreases chapters.len(),
{
    let v = Seq::new(chapters.len(), |i: int| JsonV::Uint(chapters[i] as u64));
    if chapters.len() > 0 {
        let r = chapters.drop_last();
        assert(v.drop_last() =~= Seq::new(r.len(), |i: int| JsonV::Uint(r[i] as u64)));
        chapters_are_read(r);
        assert(v.last() == JsonV::Uint(chapters.last() as u64));
        assert(chapters.last() == chapters[chapters.len() - 1]);
        assert(r.push(chapters.last()) =~= chapters);
    }
}

/// A step between volumes that went well is done with; one that failed waits again
/// with what went wrong; one that only showed a change waits as it was.
pub proof fn steps_end_by_their_result(
    s: ThreadV,
    p: VolumeHandoffV,
    tool: Seq<char>,
    output: Seq<char>,
    data: JsonV,
)
    requires
        tool == "design_arc_outline"@ || tool == "design_plot"@,
    ensures
        ({
            let after = stage_picks::handoff_ended(s, Some(p), tool, output, data);
            let well = !data.flag("blocked"@) && (tool == "design_arc_outline"@ || data.flag(
                "activated"@,
            ) || data.get("path"@) is Some);
            &&& data.flag("needs_confirm"@) ==> after.1 is Preview
                && after.0.pending_volume_handoff == Some(p)
            &&& !data.flag("needs_confirm"@) && well ==> after.1 is Done && after.0 == s
            &&& !data.flag("needs_confirm"@) && !well ==> {
                &&& after.1 matches HandoffEndV::Failed { summary, project, phase, error }
                &&& project == p.project
                &&& p.phase == "awaiting_next_arc"@ ==> phase == VolumePhase::AwaitingNextArc
                &&& p.phase == "awaiting_next_plot"@ ==> phase == VolumePhase::AwaitingNextPlot
                &&& text::occurs(summary, error)
                &&& after.0.pending_volume_handoff == Some(
                    VolumeHandoffV { last_error: error, ..p },
                )
                &&& data.text("audit_summary"@) is Some && data.text("audit_summary"@)->0.len() <= 200
                    ==> error == data.text("audit_summary"@)->0
                &&& data.text("audit_summary"@) is None && data.text("schema_error"@) is None
                    && output.len() <= 200 ==> error == output
            }
        }),
{
    words_differ();
    reading::joined_texts();
}

/// A second try at the first plot card is told what went wrong before; nothing
/// else of the call changes.
pub proof fn second_try_is_told(tool: Seq<char>, args: JsonV, error: Seq<char>)
    requires
        args is Object,
    ensures
        ({
            let a = stage_picks::handoff_args(tool, args, error);
            let why = text::trimmed(error);
            &&& tool != "design_plot"@ || why.len() == 0 ==> a == args
            &&& tool == "design_plot"@ && 0 < why.len() <= 400 ==> {
                &&& a.text("brief"@) matches Some(b)
                &&& text::ends(b, why)
                &&& text::begins(b, text::trimmed(args.text_or_empty("brief"@)))
            }
            &&& forall|key: Seq<char>| key != "brief"@ ==> #[trigger] a.get(key) == args.get(key)
        }),
{
    reading::put_reads_back();
    reading::joined_texts();
    reading::begun_texts();
    let why = text::trimmed(error);
    let told = text::trimmed(args.text_or_empty("brief"@));
    let hint = stage_picks::retry_hint(error);
    if told.len() == 0 {
        assert(told =~= Seq::empty());
        assert(hint.subrange(0, 0) =~= told);
    }
    if why.len() <= 400 {
        let whole = told + "\n"@ + hint;
        assert(whole.subrange(whole.len() - why.len(), whole.len() as int) =~= why);
    }
}

/// A volume is taken as synchronised only where the tool neither denied success nor
/// told an error; else its card waits again. Confirming the memory leaves it too.
pub proof fn synchronising_ends_by_its_result(
    s: ThreadV,
    c: Seq<GateV>,
    p: VolumeSyncV,
    tool: Seq<char>,
    args: JsonV,
    output: Seq<char>,
    data: JsonV,
)
    requires
        tool == "sync_volume"@ || tool == "confirm_volume_memory"@,
    ensures
        ({
            let after = stage_picks::sync_ended(s, c, Some(p), tool, args, output, data);
            &&& data.denied("ok"@) || data.get("error"@) is Some || tool
                == "confirm_volume_memory"@ ==> after.0.pending_volume_sync == Some(p) && (
            after.1 matches SyncEndV::Again { summary, card } && card.options == gates::shown(
                c,
                "volume_sync"@,
            ))
            &&& tool == "sync_volume"@ && !data.denied("ok"@) && data.get("error"@) is None && (
            data.text("volume_phase"@) == Some("awaiting_next_arc"@) || data.text("volume_phase"@)
                == Some("awaiting_next_plot"@) || data.get("volume_index"@) is Some) ==> after.1
                is Done && after.0 == s
            &&& tool == "sync_volume"@ && data.text("error"@) is Some ==> (
            after.1 matches SyncEndV::Again { summary, card } && text::occurs(
                summary,
                data.text("error"@)->0,
            ))
        }),
{
    reveal_strlit("sync_volume");
    reveal_strlit("confirm_volume_memory");
    assert("sync_volume"@.len() == 11);
    assert("confirm_volume_memory"@.len() == 21);
    next_words_are_read();
    if tool == "sync_volume"@ && data.text("error"@) is Some {
        assert(text::occurs(
            stage_picks::sync_intro(tool, args) + "\n\n同步失败："@ + data.text("error"@)->0
                + "\n\n卷末同步未完成，请重试「同步设定库」或选「跳过」。"@,
            data.text("error"@)->0,
        )) by {
            reading::joined_texts();
        }
    }
}

proof fn next_words_are_read()
    ensures
        text::occurs("awaiting_next_arc"@, "awaiting_next"@),
        text::occurs("awaiting_next_plot"@, "awaiting_next"@),
{
    reveal_strlit("awaiting_next_arc");
    reveal_strlit("awaiting_next");
    reveal_strlit("awaiting_next_plot");
    assert("awaiting_next_arc"@.len() == 17);
    assert("awaiting_next"@.len() == 13);
    assert("awaiting_next_plot"@.len() == 18);
    assert("awaiting_next_arc"@.subrange(0, 13) =~= "awaiting_next"@);
    assert(text::occurs_at("awaiting_next_arc"@, "awaiting_next"@, 0));
    assert("awaiting_next_plot"@.subrange(0, 13) =~= "awaiting_next"@);
    assert(text::occurs_at("awaiting_next_plot"@, "awaiting_next"@, 0));
}

/// Skipping the synchronisation goes back to a volume whose plot is still open,
/// and on to the next otherwise.
pub proof fn skipping_heeds_open_plots(volume: u32, open_plots: bool)
    ensures
        volume > 0 && open_plots ==> stage_picks::skip_effect(true, volume, open_plots)
            == SkipEffect::Reopen(volume),
        !open_plots ==> stage_picks::skip_effect(true, volume, open_plots) == SkipEffect::MoveOn,
        stage_picks::skip_effect(false, volume, open_plots) == SkipEffect::NoProject,
{
}

/// A setup step whose change waits for confirmation is not lost: where no card
/// could be opened for the change, the step's card stays.
pub proof fn setup_step_is_not_lost(
    s: ThreadV,
    p: SetupV,
    tool: Seq<char>,
    output: Seq<char>,
    card_open: bool,
)
    ensures
        ({
            let after = stage_picks::setup_previewed(s, Some(p), tool, output, card_open);
            &&& card_open ==> after.0 == s
            &&& !card_open ==> after.0 == (ThreadV { pending_setup: Some(p), ..s })
            &&& text::occurs(after.1, output)
        }),
{
    reading::joined_texts();
}

} // verus!
