//! What an answer at an open card does.

use vstd::prelude::*;

use crate::audit_decisions;
use crate::gates;
use crate::gates::{GateOptionV, GateResolveV, GateV, VarsV};
use crate::json;
use crate::json::JsonV;
use crate::laws::reading;
use crate::parse_ops;
use crate::parse_ops::ImpactOp;
use crate::prompts;
use crate::text;
use crate::thread_state::{
    AuditGateKind, ChapterNextV, ChapterOrderV, MutationV, PendingAuditV, SetupV, ThreadV,
    VolumeHandoffV, VolumeSyncV,
};
use crate::volume::SetupStepV;

verus! {

/// Free words at the card of a failed audit revise the audited chapter by these
/// words; they never accept it.
pub proof fn free_words_revise(
    s: ThreadV,
    c: Seq<GateV>,
    answer: Seq<char>,
    queue_active: bool,
    p: PendingAuditV,
)
    requires
        s.pending_audit == Some(p),
        p.kind == AuditGateKind::Content,
        audit_decisions::decision_picked(text::trimmed(answer), p.decision_options) is None,
        gates::resolved_audit(
            c,
            text::trimmed(answer),
            p.project,
            p.chapter,
            queue_active,
            false,
        ) matches Some(GateResolveV::SteerInstructions { .. }),
    ensures
        parse_ops::audit_op(s, c, answer, queue_active) matches Some(call) && {
            &&& call.0 == "steer_run"@
            &&& call.1.text("project"@) == Some(p.project)
            &&& call.1.uint("chapter"@) == Some(p.chapter as u64)
            &&& call.1.text("choice"@) == Some("revise"@)
            &&& call.1.text("instructions"@) == Some(text::trimmed(answer))
        },
{
    reading::put_reads_back();
    reading::names_differ();
    text::trimmed_is_trimmed(answer);
}

/// Words are free where they stand on no button, are long enough, and ask for no
/// other work on a chapter.
pub proof fn which_words_are_free(
    c: Seq<GateV>,
    answer: Seq<char>,
    project: Seq<char>,
    chapter: u32,
    queue_active: bool,
)
    requires
        text::trimmed(answer).len() >= 4,
        forall|g: int, o: int|
            0 <= g < c.len() && 0 <= o < c[g].options.len() ==> !gates::named(
                #[trigger] c[g].options[o],
                text::trimmed(answer),
            ),
        !text::occurs(text::trimmed(answer), "章"@),
    ensures
        gates::resolved_audit(c, answer, project, chapter, queue_active, false) == Some(
            GateResolveV::SteerInstructions { instructions: text::trimmed(answer) },
        ),
{
    let t = text::trimmed(answer);
    let name = gates::audit_gate_name(queue_active, false);
    let o = gates::options_of(c, name);
    gates::gate_from_is_first(c, name, 0);
    gates::pick_from_is_first(o, t, 0);
    match gates::pick_from(o, t, 0) {
        Some(k) => {
            let g = gates::gate_from(c, name, 0)->0;
            assert(c[g].options[k] == o[k]);
            assert(gates::named(c[g].options[k], t));
        },
        None => {},
    }
    assert(!gates::known(c, t));
}

/// A decision that the author picks is carried out as it was offered.
pub proof fn picked_decision_is_carried_out(
    s: ThreadV,
    c: Seq<GateV>,
    answer: Seq<char>,
    queue_active: bool,
    p: PendingAuditV,
    n: nat,
)
    requires
        s.pending_audit == Some(p),
        p.kind == AuditGateKind::Content,
        text::written_number(text::trimmed(answer)) == Some(n),
        1 <= n <= p.decision_options.len(),
    ensures
        parse_ops::audit_op(s, c, answer, queue_active) == Some(
            (p.decision_options[n - 1].tool, p.decision_options[n - 1].args),
        ),
{
    text::trimmed_is_trimmed(answer);
}

/// The id or the label of a decision picks it, where no other stands for the same
/// words and they are no number.
pub proof fn label_picks_decision(
    s: ThreadV,
    c: Seq<GateV>,
    answer: Seq<char>,
    queue_active: bool,
    p: PendingAuditV,
    k: int,
)
    requires
        s.pending_audit == Some(p),
        p.kind == AuditGateKind::Content,
        text::written_number(text::trimmed(answer)) is None,
        text::trimmed(answer).len() > 0,
        0 <= k < p.decision_options.len(),
        p.decision_options[k].id == text::trimmed(answer) || p.decision_options[k].label
            == text::trimmed(answer),
        forall|j: int|
            0 <= j < k ==> !audit_decisions::picks(
                #[trigger] p.decision_options[j],
                text::trimmed(answer),
            ),
    ensures
        parse_ops::audit_op(s, c, answer, queue_active) == Some(
            (p.decision_options[k].tool, p.decision_options[k].args),
        ),
{
    text::trimmed_is_trimmed(answer);
    picked_is_first(p.decision_options, text::trimmed(answer), 0, k);
}

proof fn picked_is_first(ds: Seq<audit_decisions::DecisionV>, t: Seq<char>, i: int, k: int)
    requires
        0 <= i <= k < ds.len(),
        audit_decisions::picks(ds[k], t),
        forall|j: int| 0 <= j < k ==> !audit_decisions::picks(#[trigger] ds[j], t),
    ensures
        audit_decisions::picked_from(ds, t, i) == Some(k),
    decreases k - i,
{
    if i < k {
        assert(!audit_decisions::picks(ds[i], t));
        picked_is_first(ds, t, i + 1, k);
    }
}

/// The words for accepting pick the decision to accept, those for revising one
/// that revises; a decision is picked by a part of its label only where at least
/// four bytes are given.
pub proof fn words_pick_their_decision(ds: Seq<audit_decisions::DecisionV>, t: Seq<char>)
    requires
        text::trimmed(t) == t,
        t.len() > 0,
        text::written_number(t) is None,
        forall|j: int| 0 <= j < ds.len() ==> !audit_decisions::picks(#[trigger] ds[j], t),
    ensures
        match audit_decisions::decision_picked(t, ds) {
            Some(k) => {
                &&& 0 <= k < ds.len()
                &&& t == "接受"@ || t == "接受问题"@ || t == "接受并结束本轮"@ ==> ds[k].id
                    == "accept"@
                &&& t == "局部修订"@ || t == "按审校局部修订"@ ==> ds[k].id == "fix_all_p0"@
                    || ds[k].id == "fix_all"@ || ds[k].args.text("choice"@) == Some("revise"@)
                &&& t == "接受"@ || t == "接受问题"@ || t == "接受并结束本轮"@ || t
                    == "局部修订"@ || t == "按审校局部修订"@
            },
            None => {
                &&& t == "接受"@ || t == "接受问题"@ || t == "接受并结束本轮"@ ==> forall|j: int|
                    0 <= j < ds.len() ==> (#[trigger] ds[j]).id != "accept"@
                &&& t == "局部修订"@ || t == "按审校局部修订"@ ==> forall|j: int|
                    0 <= j < ds.len() ==> (#[trigger] ds[j]).args.text("choice"@) != Some(
                        "revise"@,
                    )
            },
        },
{
    reveal_strlit("接受");
    reveal_strlit("接受问题");
    reveal_strlit("接受并结束本轮");
    reveal_strlit("局部修订");
    reveal_strlit("按审校局部修订");
    assert("接受"@.len() == 2);
    assert("接受问题"@.len() == 4);
    assert("接受并结束本轮"@.len() == 7);
    assert("局部修订"@.len() == 4);
    assert("按审校局部修订"@.len() == 7);
    assert("接受问题"@[0] != "局部修订"@[0]);
    assert("接受并结束本轮"@[0] != "按审校局部修订"@[0]);
    none_is_picked(ds, t, 0);
    with_id_is_first(ds, "accept"@, 0);
    revision_is_first(ds, 0);
}

proof fn none_is_picked(ds: Seq<audit_decisions::DecisionV>, t: Seq<char>, i: int)
    requires
        0 <= i,
        forall|j: int| 0 <= j < ds.len() ==> !audit_decisions::picks(#[trigger] ds[j], t),
    ensures
        audit_decisions::picked_from(ds, t, i) is None,
    decreases ds.len() - i,
{
    if i < ds.len() {
        none_is_picked(ds, t, i + 1);
    }
}

proof fn with_id_is_first(ds: Seq<audit_decisions::DecisionV>, id: Seq<char>, i: int)
    requires
        0 <= i,
    ensures
        match audit_decisions::with_id_from(ds, id, i) {
            Some(k) => i <= k < ds.len() && ds[k].id == id,
            None => forall|j: int| i <= j < ds.len() ==> (#[trigger] ds[j]).id != id,
        },
    decreases ds.len() - i,
{
    if i < ds.len() && ds[i].id != id {
        with_id_is_first(ds, id, i + 1);
    }
}

proof fn revision_is_first(ds: Seq<audit_decisions::DecisionV>, i: int)
    requires
        0 <= i,
    ensures
        match audit_decisions::revision_from(ds, i) {
            Some(k) => i <= k < ds.len() && (ds[k].id == "fix_all_p0"@ || ds[k].id == "fix_all"@
                || ds[k].args.text("choice"@) == Some("revise"@)),
            None => forall|j: int|
                i <= j < ds.len() ==> (#[trigger] ds[j]).args.text("choice"@) != Some("revise"@),
        },
    decreases ds.len() - i,
{
    if i < ds.len() && !audit_decisions::is_revision(ds[i]) {
        revision_is_first(ds, i + 1);
    }
}

/// What a button says under a key is filled in under that key: each placeholder by
/// what it stands for, any other number or flag unchanged.
pub proof fn placeholders_are_filled(a: JsonV, vars: VarsV, key: Seq<char>)
    requires
        a is Object,
    ensures
        gates::rendered(a, vars) is Object,
        a.text(key) == Some("{{project}}"@) ==> gates::rendered(a, vars).text(key) == Some(
            vars.project,
        ),
        a.text(key) == Some("{{chapter}}"@) && vars.chapter is Some ==> gates::rendered(
            a,
            vars,
        ).uint(key) == Some(vars.chapter->0 as u64),
        a.text(key) == Some("{{next_chapter}}"@) && vars.next_chapter is Some ==> gates::rendered(
            a,
            vars,
        ).uint(key) == Some(vars.next_chapter->0 as u64),
        a.text(key) == Some("{{suggest_chapter}}"@) && vars.suggest_chapter is Some
            ==> gates::rendered(a, vars).uint(key) == Some(vars.suggest_chapter->0 as u64),
        a.text(key) == Some("{{volume}}"@) && vars.volume is Some ==> gates::rendered(
            a,
            vars,
        ).uint(key) == Some(vars.volume->0 as u64),
        a.text(key) == Some("{{title}}"@) && vars.title is Some ==> gates::rendered(a, vars).text(
            key,
        ) == vars.title,
        a.text(key) == Some("{{instructions}}"@) && vars.instructions is Some ==> gates::rendered(
            a,
            vars,
        ).text(key) == vars.instructions,
        a.bool(key) is Some ==> gates::rendered(a, vars).bool(key) == a.bool(key),
        a.uint(key) is Some ==> gates::rendered(a, vars).uint(key) == a.uint(key),
        a.get(key) is None ==> gates::rendered(a, vars).get(key) is None,
{
    reveal_strlit("{{project}}");
    reveal_strlit("{{chapter}}");
    reveal_strlit("{{suggest_chapter}}");
    reveal_strlit("{{next_chapter}}");
    reveal_strlit("{{volume}}");
    reveal_strlit("{{chapters}}");
    reveal_strlit("{{instructions}}");
    reveal_strlit("{{title}}");
    assert("{{project}}"@.len() == 11);
    assert("{{chapter}}"@.len() == 11);
    assert("{{suggest_chapter}}"@.len() == 19);
    assert("{{next_chapter}}"@.len() == 16);
    assert("{{volume}}"@.len() == 10);
    assert("{{chapters}}"@.len() == 12);
    assert("{{instructions}}"@.len() == 16);
    assert("{{title}}"@.len() == 9);
    assert("{{project}}"@[2] != "{{chapter}}"@[2]);
    assert("{{next_chapter}}"@[2] != "{{instructions}}"@[2]);
    let m = a->Object_0;
    let r = gates::rendered(a, vars)->Object_0;
    assert(r.len() == m.len());
    assert forall|i: int| 0 <= i < m.len() implies #[trigger] r[i] == (
        m[i].0,
        gates::rendered(m[i].1, vars),
    ) by {}
    keys_stay(m, r, key, 0);
}

proof fn keys_stay(
    m: Seq<(Seq<char>, JsonV)>,
    r: Seq<(Seq<char>, JsonV)>,
    key: Seq<char>,
    i: int,
)
    requires
        0 <= i,
        m.len() == r.len(),
        forall|j: int| 0 <= j < m.len() ==> (#[trigger] r[j]).0 == m[j].0,
    ensures
        json::key_from(m, key, i) == json::key_from(r, key, i),
        json::key_from(m, key, i) matches Some(k) ==> i <= k < m.len(),
    decreases m.len() - i,
{
    if i < m.len() {
        assert(r[i].0 == m[i].0);
        keys_stay(m, r, key, i + 1);
    }
}

/// The button that the words stand for.
pub open spec fn button(c: Seq<GateV>, gate: Seq<char>, answer: Seq<char>, o: GateOptionV) -> bool {
    gates::found(c, gate, text::trimmed(answer)) == Some(o)
}

/// A button of the audit's card acts on the audited project and chapter.
pub proof fn audit_button_acts_on_the_chapter(
    s: ThreadV,
    c: Seq<GateV>,
    answer: Seq<char>,
    queue_active: bool,
    p: PendingAuditV,
    o: GateOptionV,
    tool: Seq<char>,
    a: JsonV,
)
    requires
        s.pending_audit == Some(p),
        p.kind == AuditGateKind::Infra || audit_decisions::decision_picked(
            text::trimmed(answer),
            p.decision_options,
        ) is None,
        button(
            c,
            if p.kind == AuditGateKind::Infra {
                "audit_infra"@
            } else if queue_active {
                "audit_queue"@
            } else {
                "audit"@
            },
            answer,
            o,
        ),
        o.resolve is None && o.tool == Some(tool) && o.args == Some(a),
    ensures
        parse_ops::audit_op(s, c, answer, queue_active) == Some(
            (
                tool,
                gates::rendered(
                    a,
                    VarsV {
                        project: p.project,
                        chapter: Some(p.chapter),
                        suggest_chapter: None,
                        next_chapter: None,
                        volume: None,
                        chapters: None,
                        instructions: None,
                        title: None,
                    },
                ),
            ),
        ),
{
}

/// A button of the order card writes the chapter that is next.
pub proof fn order_button_writes_the_next(
    s: ThreadV,
    c: Seq<GateV>,
    answer: Seq<char>,
    p: ChapterOrderV,
    o: GateOptionV,
    tool: Seq<char>,
    a: JsonV,
)
    requires
        s.pending_chapter_order == Some(p),
        button(c, "chapter_order"@, answer, o),
        o.resolve is None && o.tool == Some(tool) && o.args == Some(a),
        a is Object,
    ensures
        parse_ops::order_op(s, c, answer) matches Some(call) && {
            &&& call.0 == tool
            &&& a.text("project"@) == Some("{{project}}"@) ==> call.1.text("project"@) == Some(
                p.project,
            )
            &&& a.text("chapter"@) == Some("{{next_chapter}}"@) || a.text("chapter"@) == Some(
                "{{chapter}}"@,
            ) ==> call.1.uint("chapter"@) == Some(p.next_chapter as u64)
        },
{
    let vars = VarsV {
        next_chapter: Some(p.next_chapter),
        chapter: Some(p.next_chapter),
        ..VarsV::of_project(p.project)
    };
    placeholders_are_filled(a, vars, "project"@);
    placeholders_are_filled(a, vars, "chapter"@);
}

/// A button after a chapter acts on that chapter; one that revises carries the
/// prepared instructions.
pub proof fn chapter_button_acts_on_the_chapter(
    s: ThreadV,
    c: Seq<GateV>,
    answer: Seq<char>,
    p: ChapterNextV,
    o: GateOptionV,
    tool: Seq<char>,
    a: JsonV,
)
    requires
        s.pending_chapter_next == Some(p),
        p.suggest_next is None,
        button(c, "chapter_next"@, answer, o),
        o.resolve is None && o.tool == Some(tool) && o.args == Some(a),
        a is Object,
    ensures
        parse_ops::chapter_next_op(s, c, answer) matches Some(call) && {
            &&& call.0 == tool
            &&& a.text("project"@) == Some("{{project}}"@) ==> call.1.text("project"@) == Some(
                p.project,
            )
            &&& a.text("chapter"@) == Some("{{chapter}}"@) ==> call.1.uint("chapter"@) == Some(
                p.chapter as u64,
            )
            &&& tool == "revise_chapter"@ && p.revise_instructions is Some ==> call.1.text(
                "instructions"@,
            ) == p.revise_instructions
            &&& tool != "revise_chapter"@ || p.revise_instructions is None ==> call.1
                == gates::rendered(
                a,
                VarsV { chapter: Some(p.chapter), ..VarsV::of_project(p.project) },
            )
        },
{
    let vars = VarsV { chapter: Some(p.chapter), ..VarsV::of_project(p.project) };
    placeholders_are_filled(a, vars, "project"@);
    placeholders_are_filled(a, vars, "chapter"@);
    reading::put_reads_back();
    reading::names_differ();
}

/// A button between volumes acts on the volume that is prepared, under the title of
/// its first plot card.
pub proof fn handoff_button_acts_on_the_volume(
    s: ThreadV,
    c: Seq<GateV>,
    answer: Seq<char>,
    p: VolumeHandoffV,
    o: GateOptionV,
    tool: Seq<char>,
    a: JsonV,
)
    requires
        s.pending_volume_handoff == Some(p),
        p.phase == "awaiting_next_arc"@ || p.phase == "awaiting_next_plot"@,
        button(
            c,
            if p.phase == "awaiting_next_arc"@ {
                "volume_handoff_arc"@
            } else {
                "volume_handoff_plot"@
            },
            answer,
            o,
        ),
        o.resolve is None && o.tool == Some(tool) && o.args == Some(a),
        a is Object,
    ensures
        parse_ops::handoff_op(s, c, answer) matches Some(call) && {
            &&& call.0 == tool
            &&& a.text("project"@) == Some("{{project}}"@) ==> call.1.text("project"@) == Some(
                p.project,
            )
            &&& forall|key: Seq<char>|
                a.text(key) == Some("{{volume}}"@) ==> #[trigger] call.1.uint(key) == Some(
                    p.volume as u64,
                )
            &&& forall|key: Seq<char>|
                a.text(key) == Some("{{title}}"@) ==> #[trigger] call.1.text(key) == Some(p.title)
        },
{
    let vars = VarsV {
        volume: Some(p.volume),
        title: Some(p.title),
        ..VarsV::of_project(p.project)
    };
    let r = gates::rendered(a, vars);
    placeholders_are_filled(a, vars, "project"@);
    assert forall|key: Seq<char>| a.text(key) == Some("{{volume}}"@) implies #[trigger] r.uint(key)
        == Some(p.volume as u64) by {
        placeholders_are_filled(a, vars, key);
    }
    assert forall|key: Seq<char>| a.text(key) == Some("{{title}}"@) implies #[trigger] r.text(key)
        == Some(p.title) by {
        placeholders_are_filled(a, vars, key);
    }
}

/// A button at the end of a volume acts on that volume, or skips it.
pub proof fn volume_button_acts_on_the_volume(
    s: ThreadV,
    c: Seq<GateV>,
    answer: Seq<char>,
    bound: Option<Seq<char>>,
    manual: bool,
    p: VolumeSyncV,
    o: GateOptionV,
)
    requires
        s.pending_volume_sync == Some(p),
        button(c, "volume_sync"@, answer, o),
    ensures
        ({
            let op = parse_ops::volume_sync_op(s, c, answer, bound, manual);
            &&& o.resolve == Some("skip_volume"@) ==> op is Some && (op->0).0 == "__skip_volume_sync"@
            &&& o.resolve is None && o.tool is Some && o.args is Some && o.args->0 is Object ==> {
                &&& op matches Some(call)
                &&& call.0 == o.tool->0
                &&& o.args->0.text("project"@) == Some("{{project}}"@) ==> call.1.text("project"@)
                    == Some(p.project)
                &&& o.args->0.text("volume"@) == Some("{{volume}}"@) ==> call.1.uint("volume"@)
                    == Some(p.volume as u64)
            }
        }),
{
    let vars = VarsV { volume: Some(p.volume), ..VarsV::of_project(p.project) };
    if o.args is Some && o.args->0 is Object {
        placeholders_are_filled(o.args->0, vars, "project"@);
        placeholders_are_filled(o.args->0, vars, "volume"@);
    }
}

/// A request of one's own to synchronise is for the bound project and the volume
/// that is named, or the first; without it nothing is synchronised.
pub proof fn own_request_synchronises(
    s: ThreadV,
    c: Seq<GateV>,
    answer: Seq<char>,
    bound: Option<Seq<char>>,
    manual: bool,
)
    requires
        s.pending_volume_sync is None,
    ensures
        ({
            let op = parse_ops::volume_sync_op(s, c, answer, bound, manual);
            &&& op is Some <==> bound is Some && manual
            &&& op matches Some(call) ==> {
                &&& call.0 == "sync_volume"@
                &&& call.1.text("project"@) == bound
                &&& call.1.uint("volume"@) == Some(
                    match prompts::volume_from(text::trimmed(answer), 0) {
                        Some(v) => v as u64,
                        None => 1,
                    },
                )
            }
        }),
{
    reading::put_reads_back();
    reading::names_differ();
}

/// At the first step of the setup free words become the brief; a button runs its
/// tool on the project or closes the card.
pub proof fn setup_answers(
    s: ThreadV,
    c: Seq<GateV>,
    answer: Seq<char>,
    step: SetupStepV,
    p: SetupV,
)
    requires
        s.pending_setup == Some(p),
    ensures
        ({
            let t = text::trimmed(answer);
            let op = parse_ops::setup_op(s, c, answer, step);
            &&& gates::resolved_visible(
                c,
                step.gate,
                gates::shown(c, step.gate),
                t,
                VarsV::of_project(p.project),
            ) is None ==> {
                &&& step.name == "need_brief"@ && t.len() >= 8 && !gates::known(c, t) ==> {
                    &&& op matches Some(call)
                    &&& call.0 == "lock_brief"@
                    &&& call.1.text("project"@) == Some(p.project)
                    &&& call.1.text("brief"@) == Some(t)
                }
                &&& step.name != "need_brief"@ || t.len() < 8 || gates::known(c, t) ==> op is None
            }
            &&& forall|o: GateOptionV| #[trigger]
                button(c, step.gate, answer, o) ==> {
                    &&& o.resolve == Some("dismiss_gate"@) ==> op is Some && (op->0).0 == "__dismiss_setup"@
                    &&& o.resolve is None && o.tool is Some && o.args is Some && o.args->0 is Object
                        && o.args->0.text("project"@) == Some("{{project}}"@) ==> op is Some && (op->0).0 == o.tool->0
                        && (op->0).1.text("project"@) == Some(p.project)
                }
        }),
{
    reading::put_reads_back();
    reading::names_differ();
    resolve_words_differ();
    assert forall|o: GateOptionV| #[trigger] button(c, step.gate, answer, o) implies {
        let op = parse_ops::setup_op(s, c, answer, step);
        &&& o.resolve == Some("dismiss_gate"@) ==> op is Some && (op->0).0 == "__dismiss_setup"@
        &&& o.resolve is None && o.tool is Some && o.args is Some && o.args->0 is Object
            && o.args->0.text("project"@) == Some("{{project}}"@) ==> op is Some && (op->0).0 == o.tool->0
                        && (op->0).1.text("project"@) == Some(p.project)
    } by {
        if o.args is Some && o.args->0 is Object {
            placeholders_are_filled(o.args->0, VarsV::of_project(p.project), "project"@);
        }
    }
}

proof fn resolve_words_differ()
    ensures
        "skip_volume"@ != "apply_mutation"@,
        "skip_volume"@ != "discard_mutation"@,
        "skip_volume"@ != "sync_impact"@,
        "skip_volume"@ != "skip_impact"@,
        "skip_volume"@ != "dismiss_gate"@,
        "skip_volume"@ != "activate_plot_write"@,
        "apply_mutation"@ != "discard_mutation"@,
        "apply_mutation"@ != "sync_impact"@,
        "apply_mutation"@ != "skip_impact"@,
        "apply_mutation"@ != "dismiss_gate"@,
        "apply_mutation"@ != "activate_plot_write"@,
        "discard_mutation"@ != "sync_impact"@,
        "discard_mutation"@ != "skip_impact"@,
        "discard_mutation"@ != "dismiss_gate"@,
        "discard_mutation"@ != "activate_plot_write"@,
        "sync_impact"@ != "skip_impact"@,
        "sync_impact"@ != "dismiss_gate"@,
        "sync_impact"@ != "activate_plot_write"@,
        "skip_impact"@ != "dismiss_gate"@,
        "skip_impact"@ != "activate_plot_write"@,
        "dismiss_gate"@ != "activate_plot_write"@,
{
    reveal_strlit("skip_volume");
    reveal_strlit("apply_mutation");
    reveal_strlit("discard_mutation");
    reveal_strlit("sync_impact");
    reveal_strlit("skip_impact");
    reveal_strlit("activate_plot_write");
    reveal_strlit("dismiss_gate");
    assert("skip_volume"@.len() == 11);
    assert("apply_mutation"@.len() == 14);
    assert("discard_mutation"@.len() == 16);
    assert("sync_impact"@.len() == 11);
    assert("skip_impact"@.len() == 11);
    assert("activate_plot_write"@.len() == 19);
    assert("dismiss_gate"@.len() == 12);
    assert("skip_volume"@[1] != "sync_impact"@[1]);
    assert("skip_volume"@[5] != "skip_impact"@[5]);
    assert("sync_impact"@[1] != "skip_impact"@[1]);
}

/// What a button resolves to is the word that it carries; a button without such a
/// word runs its tool.
pub proof fn buttons_resolve_as_they_say(o: GateOptionV, vars: VarsV)
    ensures
        o.resolve == Some("skip_volume"@) ==> gates::materialized(o, vars) == Some(
            GateResolveV::SkipVolume,
        ),
        o.resolve == Some("apply_mutation"@) ==> gates::materialized(o, vars) == Some(
            GateResolveV::ApplyMutation,
        ),
        o.resolve == Some("discard_mutation"@) ==> gates::materialized(o, vars) == Some(
            GateResolveV::DiscardMutation,
        ),
        o.resolve == Some("sync_impact"@) ==> gates::materialized(o, vars) == Some(
            GateResolveV::SyncImpact,
        ),
        o.resolve == Some("skip_impact"@) ==> gates::materialized(o, vars) == Some(
            GateResolveV::SkipImpact,
        ),
        o.resolve == Some("activate_plot_write"@) ==> gates::materialized(o, vars) == Some(
            GateResolveV::ActivatePlotWrite,
        ),
        o.resolve == Some("dismiss_gate"@) ==> gates::materialized(o, vars) == Some(
            GateResolveV::DismissGate,
        ),
        o.resolve is None && o.tool is Some ==> (gates::materialized(o, vars) matches Some(
            GateResolveV::Tool { name, args },
        ) && name == o.tool->0),
        o.resolve is None && o.tool is None ==> gates::materialized(o, vars) is None,
{
    resolve_words_differ();
}

/// Confirming applies the change that waits, under its id, and discarding discards
/// it; any other answer does neither.
pub proof fn confirming_applies_what_waits(
    s: ThreadV,
    c: Seq<GateV>,
    answer: Seq<char>,
    p: MutationV,
)
    requires
        s.pending_mutation == Some(p),
    ensures
        ({
            let op = parse_ops::mutation_op(s, c, answer);
            &&& forall|o: GateOptionV| #[trigger]
                button(c, "confirm_mutation"@, answer, o) ==> {
                    &&& o.resolve == Some("apply_mutation"@) ==> {
                        &&& op matches Some(call)
                        &&& call.0 == "__apply_mutation"@
                        &&& call.1.text("mutation_id"@) == Some(p.mutation_id)
                        &&& call.1.text("apply_tool"@) == Some(p.apply_tool)
                        &&& call.1.get("apply_args"@) == Some(p.apply_args)
                    }
                    &&& o.resolve == Some("discard_mutation"@) ==> {
                        &&& op matches Some(call)
                        &&& call.0 == "__discard_mutation"@
                        &&& call.1.text("mutation_id"@) == Some(p.mutation_id)
                    }
                }
            &&& gates::found(c, "confirm_mutation"@, text::trimmed(answer)) is None ==> op is None
        }),
{
    reading::put_reads_back();
    reading::names_differ();
    resolve_words_differ();
}

/// The answer at the card of dependent places is carried out as the button says.
pub proof fn dependent_places_are_answered_for(s: ThreadV, c: Seq<GateV>, answer: Seq<char>)
    requires
        s.pending_impact is Some,
    ensures
        ({
            let op = parse_ops::impact_op(s, c, answer);
            &&& forall|o: GateOptionV| #[trigger]
                button(c, "confirm_impact"@, answer, o) ==> {
                    &&& o.resolve == Some("sync_impact"@) ==> op == Some(ImpactOp::Sync)
                    &&& o.resolve == Some("skip_impact"@) ==> op == Some(ImpactOp::Skip)
                }
            &&& gates::found(c, "confirm_impact"@, text::trimmed(answer)) is None ==> op is None
        }),
{
    resolve_words_differ();
}

/// The words on a button find it: its id, its label, or one of its other names;
/// the first such button of the card.
pub proof fn words_find_their_button(c: Seq<GateV>, gate: Seq<char>, t: Seq<char>, g: int, k: int)
    requires
        0 <= g < c.len(),
        c[g].name == gate,
        forall|j: int| 0 <= j < g ==> (#[trigger] c[j]).name != gate,
        0 <= k < c[g].options.len(),
        text::trimmed(t) == t,
        c[g].options[k].id == t || c[g].options[k].label == t || c[g].options[k].aliases.contains(t),
        forall|j: int|
            0 <= j < k ==> (#[trigger] c[g].options[j]).id != t && c[g].options[j].label != t
                && !c[g].options[j].aliases.contains(t),
    ensures
        gates::found(c, gate, t) == Some(c[g].options[k]),
        gates::shown(c, gate).len() == c[g].options.len(),
        gates::shown(c, gate)[k].id == c[g].options[k].id,
        gates::shown(c, gate)[k].label == c[g].options[k].label,
{
    gate_is_first(c, gate, 0, g);
    option_is_first(c[g].options, t, 0, k);
}

proof fn gate_is_first(c: Seq<GateV>, gate: Seq<char>, i: int, g: int)
    requires
        0 <= i <= g < c.len(),
        c[g].name == gate,
        forall|j: int| 0 <= j < g ==> (#[trigger] c[j]).name != gate,
    ensures
        gates::gate_from(c, gate, i) == Some(g),
    decreases g - i,
{
    if i < g {
        gate_is_first(c, gate, i + 1, g);
    }
}

proof fn option_is_first(opts: Seq<GateOptionV>, t: Seq<char>, i: int, k: int)
    requires
        0 <= i <= k < opts.len(),
        gates::named(opts[k], t),
        forall|j: int| 0 <= j < k ==> !gates::named(#[trigger] opts[j], t),
    ensures
        gates::pick_from(opts, t, i) == Some(k),
    decreases k - i,
{
    if i < k {
        assert(!gates::named(opts[i], t));
        option_is_first(opts, t, i + 1, k);
    }
}

/// After a published chapter the card offers to go on, and to revise only where the
/// plot is still open; after one that was not published, only to revise.
pub proof fn chapter_card_fits_the_chapter(
    c: Seq<GateV>,
    published: bool,
    plot_open: bool,
    b: gates::UserInputOptionV,
)
    ensures
        gates::chapter_next_buttons(c, published, plot_open).contains(b) <==> gates::shown(
            c,
            "chapter_next"@,
        ).contains(b) && ((b.id == "cn_continue"@ && published) || (b.id == "cn_revise"@ && (
        !published || plot_open))),
{
    reveal_strlit("cn_continue");
    reveal_strlit("cn_revise");
    assert("cn_continue"@.len() == 11);
    assert("cn_revise"@.len() == 9);
    let all = gates::shown(c, "chapter_next"@);
    only_these(all, "cn_continue"@, "cn_revise"@, b);
    only_these(all, "cn_continue"@, "cn_continue"@, b);
    only_these(all, "cn_revise"@, "cn_revise"@, b);
}

proof fn only_these(
    v: Seq<gates::UserInputOptionV>,
    x: Seq<char>,
    y: Seq<char>,
    b: gates::UserInputOptionV,
)
    ensures
        gates::only_ids(v, x, y).contains(b) <==> v.contains(b) && (b.id == x || b.id == y),
    decreases v.len(),
{
    if v.len() > 0 {
        let r = v.drop_last();
        let last = v.last();
        only_these(r, x, y, b);
        let k = gates::only_ids(r, x, y);
        if v.contains(b) {
            let i = choose|i: int| 0 <= i < v.len() && v[i] == b;
            if i < r.len() {
                assert(r[i] == b);
            }
        }
        if r.contains(b) {
            let i = choose|i: int| 0 <= i < r.len() && r[i] == b;
            assert(v[i] == b);
        }
        if k.contains(b) {
            let i = choose|i: int| 0 <= i < k.len() && k[i] == b;
            assert(k.push(last)[i] == b);
        }
        if b == last {
            assert(v[v.len() - 1] == b);
            assert(k.push(last)[k.len() as int] == b);
        }
        if k.push(last).contains(b) {
            let i = choose|i: int| 0 <= i < k.push(last).len() && k.push(last)[i] == b;
            if i < k.len() {
                assert(k[i] == b);
            }
        }
    }
}

} // verus!
