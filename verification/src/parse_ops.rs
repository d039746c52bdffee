//! What an answer means while a card is open.

use vstd::prelude::*;

use crate::audit_decisions;
use crate::gates;
use crate::gates::{GateCatalog, GateResolve, GateResolveV, GateV, VarsV};
use crate::json::{Json, JsonV};
use crate::prompts;
use crate::text;
use crate::thread_state::{AuditGateKind, ThreadState, ThreadV};
use crate::volume::{SetupStep, SetupStepV};

verus! {

/// A tool call by contents.
pub open spec fn opt_call(o: Option<(String, Json)>) -> Option<(Seq<char>, JsonV)> {
    match o {
        Some(p) => Some((p.0@, p.1@)),
        None => None,
    }
}

/// The tool call that an answer asks for.
pub open spec fn call_of(r: Option<GateResolveV>) -> Option<(Seq<char>, JsonV)> {
    match r {
        Some(GateResolveV::Tool { name, args }) => Some((name, args)),
        _ => None,
    }
}

fn tool_call(r: Option<GateResolve>) -> (c: Option<(String, Json)>)
    ensures
        opt_call(c) == call_of(gates::opt_resolve(r)),
{
    match r {
        Some(GateResolve::Tool { name, args }) => Some((name, args)),
        _ => None,
    }
}

/// What an answer means at the card of a step of the setup. While the brief is
/// missing, eight characters or more that are no known word are the brief.
pub open spec fn setup_op(s: ThreadV, c: Seq<GateV>, answer: Seq<char>, step: SetupStepV) -> Option<
    (Seq<char>, JsonV),
> {
    let t = text::trimmed(answer);
    match s.pending_setup {
        None => None,
        Some(p) => match gates::resolved_visible(
            c,
            step.gate,
            gates::shown(c, step.gate),
            t,
            VarsV::of_project(p.project),
        ) {
            Some(GateResolveV::Tool { name, args }) => Some((name, args)),
            Some(GateResolveV::DismissGate) => Some(
                ("__dismiss_setup"@, JsonV::empty_object()),
            ),
            Some(_) => None,
            None => if step.name == "need_brief"@ && t.len() >= 8 && !gates::known(c, t) {
                Some(("lock_brief"@, brief_args(p.project, t)))
            } else {
                None
            },
        },
    }
}

/// The arguments that lock a brief.
pub open spec fn brief_args(project: Seq<char>, brief: Seq<char>) -> JsonV {
    JsonV::empty_object().put("project"@, JsonV::Text(project)).put("brief"@, JsonV::Text(brief))
}

/// What an answer means at the card of a step between volumes.
pub open spec fn handoff_op(s: ThreadV, c: Seq<GateV>, answer: Seq<char>) -> Option<
    (Seq<char>, JsonV),
> {
    match s.pending_volume_handoff {
        None => None,
        Some(p) => match gates::handoff_gate(p.phase) {
            None => None,
            Some(g) => call_of(
                gates::resolved_visible(
                    c,
                    g,
                    gates::shown(c, g),
                    text::trimmed(answer),
                    (VarsV {
                        volume: Some(p.volume),
                        title: Some(p.title),
                        ..VarsV::of_project(p.project)
                    }),
                ),
            ),
        },
    }
}

/// The arguments that synchronise a volume.
pub open spec fn sync_args(project: Seq<char>, volume: u32) -> JsonV {
    JsonV::empty_object().put("project"@, JsonV::Text(project)).put(
        "volume"@,
        JsonV::Uint(volume as u64),
    )
}

/// What an answer means at the end of a volume. Without an open card, words that
/// ask to synchronise by hand (`manual`) do so for the bound project.
pub open spec fn volume_sync_op(
    s: ThreadV,
    c: Seq<GateV>,
    answer: Seq<char>,
    bound: Option<Seq<char>>,
    manual: bool,
) -> Option<(Seq<char>, JsonV)> {
    let t = text::trimmed(answer);
    match s.pending_volume_sync {
        Some(p) => match gates::resolved_visible(
            c,
            "volume_sync"@,
            gates::shown(c, "volume_sync"@),
            t,
            (VarsV { volume: Some(p.volume), ..VarsV::of_project(p.project) }),
        ) {
            Some(GateResolveV::Tool { name, args }) => Some((name, args)),
            Some(GateResolveV::SkipVolume) => Some(
                ("__skip_volume_sync"@, JsonV::empty_object()),
            ),
            _ => None,
        },
        None => match bound {
            Some(project) => if manual {
                Some(
                    (
                        "sync_volume"@,
                        sync_args(
                            project,
                            match prompts::volume_from(t, 0) {
                                Some(v) => v,
                                None => 1,
                            },
                        ),
                    ),
                )
            } else {
                None
            },
            None => None,
        },
    }
}

/// The arguments of a revision by free instructions.
pub open spec fn free_steer(project: Seq<char>, chapter: u32, instructions: Seq<char>) -> JsonV {
    audit_decisions::steer_args(project, chapter, "revise"@).put(
        "instructions"@,
        JsonV::Text(instructions),
    )
}

/// What an answer means at the card after an audit: a decision of the card, an
/// option of its gate, or instructions to revise by. Without a card it means
/// nothing here.
pub open spec fn audit_op(s: ThreadV, c: Seq<GateV>, answer: Seq<char>, queue_active: bool) -> Option<
    (Seq<char>, JsonV),
> {
    let t = text::trimmed(answer);
    match s.pending_audit {
        None => None,
        Some(p) => {
            let infra = p.kind == AuditGateKind::Infra;
            let ds = p.decision_options;
            let pick = if infra {
                None
            } else {
                audit_decisions::decision_picked(t, ds)
            };
            match pick {
                Some(k) => Some((ds[k].tool, ds[k].args)),
                None => match gates::resolved_audit(
                    c,
                    t,
                    p.project,
                    p.chapter,
                    queue_active,
                    infra,
                ) {
                    Some(GateResolveV::Tool { name, args }) => Some((name, args)),
                    Some(GateResolveV::SteerInstructions { instructions }) => Some(
                        ("steer_run"@, free_steer(p.project, p.chapter, instructions)),
                    ),
                    _ => None,
                },
            }
        },
    }
}

/// The call with the prepared instructions, where it revises the chapter.
pub open spec fn with_prepared(
    call: (Seq<char>, JsonV),
    prepared: Option<Seq<char>>,
) -> (Seq<char>, JsonV) {
    match prepared {
        Some(i) => if call.0 == "revise_chapter"@ && call.1 is Object {
            (call.0, call.1.put("instructions"@, JsonV::Text(i)))
        } else {
            call
        },
        None => call,
    }
}

/// What an answer means at the choice after a chapter.
pub open spec fn chapter_next_op(s: ThreadV, c: Seq<GateV>, answer: Seq<char>) -> Option<
    (Seq<char>, JsonV),
> {
    match s.pending_chapter_next {
        None => None,
        Some(p) => if p.suggest_next is Some {
            None
        } else {
            match call_of(
                gates::resolved_visible(
                    c,
                    "chapter_next"@,
                    gates::chapter_next_buttons(c, p.published, p.plot_accept_open),
                    text::trimmed(answer),
                    (VarsV { chapter: Some(p.chapter), ..VarsV::of_project(p.project) }),
                ),
            ) {
                Some(call) => Some(with_prepared(call, p.revise_instructions)),
                None => None,
            }
        },
    }
}

/// What an answer means at the card of a skipped chapter.
pub open spec fn order_op(s: ThreadV, c: Seq<GateV>, answer: Seq<char>) -> Option<
    (Seq<char>, JsonV),
> {
    match s.pending_chapter_order {
        None => None,
        Some(p) => call_of(
            gates::resolved(
                c,
                "chapter_order"@,
                text::trimmed(answer),
                (VarsV {
                    next_chapter: Some(p.next_chapter),
                    chapter: Some(p.next_chapter),
                    ..VarsV::of_project(p.project)
                }),
            ),
        ),
    }
}

/// The arguments that apply a change.
pub open spec fn apply_args(id: Seq<char>, tool: Seq<char>, args: JsonV) -> JsonV {
    JsonV::empty_object().put("mutation_id"@, JsonV::Text(id)).put(
        "apply_tool"@,
        JsonV::Text(tool),
    ).put("apply_args"@, args)
}

/// What an answer means at the card of a change that awaits confirmation.
pub open spec fn mutation_op(s: ThreadV, c: Seq<GateV>, answer: Seq<char>) -> Option<
    (Seq<char>, JsonV),
> {
    match s.pending_mutation {
        None => None,
        Some(p) => match gates::resolved(
            c,
            "confirm_mutation"@,
            text::trimmed(answer),
            VarsV::of_project(Seq::empty()),
        ) {
            Some(GateResolveV::ApplyMutation) => Some(
                ("__apply_mutation"@, apply_args(p.mutation_id, p.apply_tool, p.apply_args)),
            ),
            Some(GateResolveV::DiscardMutation) => Some(
                (
                    "__discard_mutation"@,
                    JsonV::empty_object().put("mutation_id"@, JsonV::Text(p.mutation_id)),
                ),
            ),
            _ => None,
        },
    }
}

/// What to do about what depends on an applied change.
#[derive(Clone, Copy, Debug, PartialEq, Eq, Structural)]
pub enum ImpactOp {
    Sync,
    Skip,
}

/// What an answer means at the card of what depends on an applied change.
pub open spec fn impact_op(s: ThreadV, c: Seq<GateV>, answer: Seq<char>) -> Option<ImpactOp> {
    if s.pending_impact is None {
        None
    } else {
        match gates::resolved(
            c,
            "confirm_impact"@,
            text::trimmed(answer),
            VarsV::of_project(Seq::empty()),
        ) {
            Some(GateResolveV::SyncImpact) => Some(ImpactOp::Sync),
            Some(GateResolveV::SkipImpact) => Some(ImpactOp::Skip),
            _ => None,
        }
    }
}

impl ThreadState {
    /// What an answer means at the card of a step of the setup.
    pub fn parse_setup_op(&self, catalog: &GateCatalog, answer: &str, step: &SetupStep) -> (r:
        Option<(String, Json)>)
        ensures
            opt_call(r) == setup_op(self@, catalog@, answer@, step@),
    {
        let t = text::trim(answer);
        let p = match &self.pending_setup {
            Some(p) => p,
            None => {
                return None;
            },
        };
        match catalog.resolve_setup_progress_visible(t, p.project.as_str(), step.gate.as_str()) {
            Some(GateResolve::Tool { name, args }) => Some((name, args)),
            Some(GateResolve::DismissGate) => Some(("__dismiss_setup".to_owned(), Json::object())),
            Some(_) => None,
            None => {
                proof {
                    text::trimmed_is_trimmed(answer@);
                }
                if text::same(step.name.as_str(), "need_brief") && t.unicode_len() >= 8
                    && !catalog.is_known_token(t) {
                    Some(
                        (
                            "lock_brief".to_owned(),
                            Json::object().with_str("project", p.project.as_str()).with_str(
                                "brief",
                                t,
                            ),
                        ),
                    )
                } else {
                    None
                }
            },
        }
    }

    /// What an answer means at the card of a step between volumes.
    pub fn parse_volume_handoff_op(&self, catalog: &GateCatalog, answer: &str) -> (r: Option<
        (String, Json),
    >)
        ensures
            opt_call(r) == handoff_op(self@, catalog@, answer@),
    {
        match &self.pending_volume_handoff {
            Some(p) => tool_call(
                catalog.resolve_volume_handoff_visible(
                    text::trim(answer),
                    p.project.as_str(),
                    p.phase.as_str(),
                    p.volume,
                    p.title.as_str(),
                ),
            ),
            None => None,
        }
    }

    /// What an answer means at the end of a volume.
    pub fn parse_volume_sync_op(
        &self,
        catalog: &GateCatalog,
        answer: &str,
        bound_project: Option<&str>,
        manual: bool,
    ) -> (r: Option<(String, Json)>)
        ensures
            opt_call(r) == volume_sync_op(
                self@,
                catalog@,
                answer@,
                text::opt_str(bound_project),
                manual,
            ),
    {
        let t = text::trim(answer);
        match &self.pending_volume_sync {
            Some(p) => match catalog.resolve_volume_visible(t, p.project.as_str(), p.volume) {
                Some(GateResolve::Tool { name, args }) => Some((name, args)),
                Some(GateResolve::SkipVolume) => Some(
                    ("__skip_volume_sync".to_owned(), Json::object()),
                ),
                _ => None,
            },
            None => {
                if !manual {
                    return None;
                }
                match bound_project {
                    Some(project) => {
                        let volume: u32 = match prompts::extract_volume_number(t) {
                            Some(v) => v,
                            None => 1,
                        };
                        Some(
                            (
                                "sync_volume".to_owned(),
                                Json::object().with_str("project", project).with_u32(
                                    "volume",
                                    volume,
                                ),
                            ),
                        )
                    },
                    None => None,
                }
            },
        }
    }

    /// What an answer means at the card after an audit.
    pub fn parse_audit_steer_op(
        &self,
        catalog: &GateCatalog,
        answer: &str,
        queue_active: bool,
    ) -> (r: Option<(String, Json)>)
        ensures
            opt_call(r) == audit_op(self@, catalog@, answer@, queue_active),
    {
        let t = text::trim(answer);
        let p = match &self.pending_audit {
            Some(p) => p,
            None => {
                return None;
            },
        };
        let infra = p.kind == AuditGateKind::Infra;
        if !infra {
            match audit_decisions::resolve_decision_pick(t, &p.decision_options) {
                Some(pair) => {
                    return Some(pair);
                },
                None => {},
            }
        }
        match catalog.resolve_audit(t, p.project.as_str(), p.chapter, queue_active, infra) {
            Some(GateResolve::Tool { name, args }) => Some((name, args)),
            Some(GateResolve::SteerInstructions { instructions }) => Some(
                (
                    "steer_run".to_owned(),
                    Json::object().with_str("project", p.project.as_str()).with_u32(
                        "chapter",
                        p.chapter,
                    ).with_str("choice", "revise").with_str(
                        "instructions",
                        instructions.as_str(),
                    ),
                ),
            ),
            _ => None,
        }
    }

    /// What an answer means at the choice after a chapter.
    pub fn parse_chapter_next_op(&self, catalog: &GateCatalog, answer: &str) -> (r: Option<
        (String, Json),
    >)
        ensures
            opt_call(r) == chapter_next_op(self@, catalog@, answer@),
    {
        let p = match &self.pending_chapter_next {
            Some(p) => p,
            None => {
                return None;
            },
        };
        if p.suggest_next.is_some() {
            return None;
        }
        let call = tool_call(
            catalog.resolve_chapter_next_visible(
                text::trim(answer),
                p.project.as_str(),
                p.chapter,
                p.published,
                p.plot_accept_open,
            ),
        );
        match call {
            Some((name, args)) => {
                match &p.revise_instructions {
                    Some(i) => {
                        let object = match &args {
                            Json::Object(_) => true,
                            _ => false,
                        };
                        if text::same(name.as_str(), "revise_chapter") && object {
                            return Some((name, args.with_str("instructions", i.as_str())));
                        }
                    },
                    None => {},
                }
                Some((name, args))
            },
            None => None,
        }
    }

    /// What an answer means at the card of a skipped chapter.
    pub fn parse_chapter_order_op(&self, catalog: &GateCatalog, answer: &str) -> (r: Option<
        (String, Json),
    >)
        ensures
            opt_call(r) == order_op(self@, catalog@, answer@),
    {
        match &self.pending_chapter_order {
            Some(p) => tool_call(
                catalog.resolve_chapter_order(
                    text::trim(answer),
                    p.project.as_str(),
                    p.next_chapter,
                ),
            ),
            None => None,
        }
    }

    /// What an answer means at the card of a change that awaits confirmation.
    pub fn parse_mutation_confirm_op(&self, catalog: &GateCatalog, answer: &str) -> (r: Option<
        (String, Json),
    >)
        ensures
            opt_call(r) == mutation_op(self@, catalog@, answer@),
    {
        let p = match &self.pending_mutation {
            Some(p) => p,
            None => {
                return None;
            },
        };
        match catalog.resolve_mutation_confirm(text::trim(answer)) {
            Some(GateResolve::ApplyMutation) => Some(
                (
                    "__apply_mutation".to_owned(),
                    Json::object().with_str("mutation_id", p.mutation_id.as_str()).with_str(
                        "apply_tool",
                        p.apply_tool.as_str(),
                    ).with("apply_args", p.apply_args.copy()),
                ),
            ),
            Some(GateResolve::DiscardMutation) => Some(
                (
                    "__discard_mutation".to_owned(),
                    Json::object().with_str("mutation_id", p.mutation_id.as_str()),
                ),
            ),
            _ => None,
        }
    }

    /// What an answer means at the card of what depends on an applied change.
    pub fn parse_impact_confirm_op(&self, catalog: &GateCatalog, answer: &str) -> (r: Option<
        ImpactOp,
    >)
        ensures
            r == impact_op(self@, catalog@, answer@),
    {
        if self.pending_impact.is_none() {
            return None;
        }
        match catalog.resolve_impact_confirm(text::trim(answer)) {
            Some(GateResolve::SyncImpact) => Some(ImpactOp::Sync),
            Some(GateResolve::SkipImpact) => Some(ImpactOp::Skip),
            _ => None,
        }
    }
}

/// An audit that failed in itself is never answered by a revision of the text
/// that no option names.
pub proof fn infra_card_revises_nothing(
    s: ThreadV,
    c: Seq<GateV>,
    answer: Seq<char>,
    queue_active: bool,
)
    requires
        s.pending_audit matches Some(p) && p.kind == AuditGateKind::Infra,
        gates::found(c, "audit_infra"@, text::trimmed(answer)) is None,
    ensures
        audit_op(s, c, answer, queue_active) is None,
{
}

/// No answer is claimed by a card that is not open.
pub proof fn closed_cards_claim_nothing(s: ThreadV, c: Seq<GateV>, answer: Seq<char>)
    ensures
        s.pending_mutation is None ==> mutation_op(s, c, answer) is None,
        s.pending_impact is None ==> impact_op(s, c, answer) is None,
        s.pending_chapter_order is None ==> order_op(s, c, answer) is None,
        s.pending_chapter_next is None ==> chapter_next_op(s, c, answer) is None,
        s.pending_volume_handoff is None ==> handoff_op(s, c, answer) is None,
        s.pending_audit is None ==> audit_op(s, c, answer, true) is None && audit_op(
            s,
            c,
            answer,
            false,
        ) is None,
{
}

} // verus!
