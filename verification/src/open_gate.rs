//! The card that a client is shown when it comes back to a thread.

use vstd::prelude::*;

use crate::audit_decisions;
use crate::audit_offers;
use crate::chapter_offers;
use crate::gates;
use crate::gates::{GateCatalog, GateV, UserInputOption, UserInputOptionV};
use crate::json;
use crate::json::{Json, JsonV};
use crate::offers;
use crate::offers::{Card, CardV};
use crate::prompts;
use crate::text;
use crate::thread_state::{
    AuditGateKind, ChapterNextV, PendingAuditV, ThreadState, ThreadV, VolumeHandoffV,
};
use crate::volume;
use crate::volume::{SetupStep, SetupStepV, VolumePhase};

verus! {

/// What a card shows besides its prompt and its buttons.
pub enum GateDetail {
    Plain,
    Mutation { preview: Json, mutation_kind: String },
    Impact { summary_markdown: String, hits: Vec<Json>, entity_gaps_count: usize },
}

/// What a card shows besides, by contents.
pub enum GateDetailV {
    Plain,
    Mutation { preview: JsonV, mutation_kind: Seq<char> },
    Impact { summary_markdown: Seq<char>, hits: Seq<JsonV>, entity_gaps_count: usize },
}

impl View for GateDetail {
    type V = GateDetailV;

    open spec fn view(&self) -> GateDetailV {
        match self {
            GateDetail::Plain => GateDetailV::Plain,
            GateDetail::Mutation { preview, mutation_kind } => GateDetailV::Mutation {
                preview: preview@,
                mutation_kind: mutation_kind@,
            },
            GateDetail::Impact { summary_markdown, hits, entity_gaps_count } => {
                GateDetailV::Impact {
                    summary_markdown: summary_markdown@,
                    hits: json::items(hits@),
                    entity_gaps_count: *entity_gaps_count,
                }
            },
        }
    }
}

/// A card as a client is shown it.
pub struct OpenGate {
    pub kind: String,
    pub prompt: String,
    pub options: Vec<UserInputOption>,
    pub detail: GateDetail,
}

/// A card as a client is shown it, by contents.
pub struct OpenGateV {
    pub kind: Seq<char>,
    pub prompt: Seq<char>,
    pub options: Seq<UserInputOptionV>,
    pub detail: GateDetailV,
}

impl View for OpenGate {
    type V = OpenGateV;

    open spec fn view(&self) -> OpenGateV {
        OpenGateV {
            kind: self.kind@,
            prompt: self.prompt@,
            options: gates::buttons(self.options@),
            detail: self.detail@,
        }
    }
}

/// An optional card by contents.
pub open spec fn opt_gate(o: Option<OpenGate>) -> Option<OpenGateV> {
    match o {
        Some(g) => Some(g@),
        None => None,
    }
}

/// A card with nothing besides.
pub open spec fn plain_gate(
    kind: Seq<char>,
    prompt: Seq<char>,
    options: Seq<UserInputOptionV>,
) -> OpenGateV {
    OpenGateV { kind, prompt, options, detail: GateDetailV::Plain }
}

/// The card and the phase of a handoff.
pub open spec fn handoff_kind(h: VolumeHandoffV) -> (Seq<char>, VolumePhase) {
    if h.phase == "awaiting_next_plot"@ {
        ("volume_handoff_plot"@, VolumePhase::AwaitingNextPlot)
    } else {
        ("volume_handoff_arc"@, VolumePhase::AwaitingNextArc)
    }
}

/// The card after an audit.
pub open spec fn audit_gate(a: PendingAuditV, c: Seq<GateV>, queue_active: bool) -> OpenGateV {
    if a.kind == AuditGateKind::Infra {
        plain_gate(
            "audit_infra"@,
            audit_offers::infra_prompt(a.chapter),
            gates::shown(c, "audit_infra"@),
        )
    } else {
        plain_gate(
            "audit"@,
            audit_decisions::fail_prompt(a.chapter, a.issues, queue_active),
            audit_decisions::decision_buttons(
                if a.decision_options.len() == 0 {
                    audit_decisions::fallback_decisions(
                        a.project,
                        a.chapter,
                        a.issues,
                        queue_active,
                    )
                } else {
                    a.decision_options
                },
            ),
        )
    }
}

/// The prompt of the choice after a chapter, as it is shown again.
pub open spec fn chapter_prompt(n: ChapterNextV) -> Seq<char> {
    if n.published {
        prompts::published_prompt(n.chapter, n.plot_accept_open)
    } else {
        chapter_offers::rule_stop_prompt(n.chapter)
    }
}

/// The count of places that depend on a change, in words.
pub open spec fn impact_prompt(n: nat) -> Seq<char> {
    "设定/结构已更新，发现 "@ + text::dec(n)
        + " 处可能受影响的依赖位点。是否自动同步修正？"@
}

/// The one card that a client is shown: a change that awaits confirmation comes
/// first, then what depends on a change, the studio's own card, a skipped
/// chapter, an audit, the end of a volume, the step between volumes, the setup
/// and the choice after a chapter. An audit that waits for the studio shows none.
pub open spec fn open_gate_of(
    s: ThreadV,
    c: Seq<GateV>,
    step: SetupStepV,
    queue_active: bool,
) -> Option<OpenGateV> {
    if s.pending_mutation is Some {
        let m = s.pending_mutation->0;
        Some(
            OpenGateV {
                kind: "confirm_mutation"@,
                prompt: "待确认："@ + m.summary,
                options: gates::shown(c, "confirm_mutation"@),
                detail: GateDetailV::Mutation {
                    preview: m.preview,
                    mutation_kind: m.mutation_kind,
                },
            },
        )
    } else if s.pending_impact is Some {
        let i = s.pending_impact->0;
        Some(
            OpenGateV {
                kind: "confirm_impact"@,
                prompt: impact_prompt(i.hits.len()),
                options: gates::shown(c, "confirm_impact"@),
                detail: GateDetailV::Impact {
                    summary_markdown: i.summary_markdown,
                    hits: i.hits,
                    entity_gaps_count: i.entity_gaps_count,
                },
            },
        )
    } else if s.pending_studio_next is Some {
        let n = s.pending_studio_next->0;
        Some(plain_gate("studio_next"@, n.prompt, n.options))
    } else if s.pending_chapter_order is Some {
        let o = s.pending_chapter_order->0;
        Some(
            plain_gate(
                "chapter_order"@,
                offers::order_prompt(o.next_chapter),
                offers::order_buttons(c, o.next_chapter),
            ),
        )
    } else if s.pending_audit is Some {
        let a = s.pending_audit->0;
        if a.awaiting_offer {
            None
        } else {
            Some(audit_gate(a, c, queue_active))
        }
    } else if s.pending_volume_sync is Some {
        let v = s.pending_volume_sync->0;
        let label = if text::trimmed(v.name).len() == 0 {
            volume::volume_label(v.volume as u64, Seq::empty())
        } else {
            volume::volume_label(v.volume as u64, v.name)
        };
        let prompt = label + "已结束。请同步设定库，并确认卷记忆。"@;
        Some(
            plain_gate(
                "volume_sync"@,
                if v.deferred_setting_blocker is Some {
                    prompt + "（完成后将处理设定 BLOCKER）"@
                } else {
                    prompt
                },
                gates::shown(c, "volume_sync"@),
            ),
        )
    } else if s.pending_volume_handoff is Some {
        let h = s.pending_volume_handoff->0;
        let kind = handoff_kind(h);
        Some(
            plain_gate(
                kind.0,
                volume::handoff_prompt(kind.1, h.volume, None),
                gates::shown(c, kind.0),
            ),
        )
    } else if s.pending_setup is Some {
        Some(plain_gate(step.gate, step.prompt, gates::shown(c, step.gate)))
    } else if s.pending_chapter_next is Some {
        let n = s.pending_chapter_next->0;
        if n.suggest_next is Some {
            None
        } else {
            Some(
                plain_gate(
                    "chapter_next"@,
                    chapter_prompt(n),
                    gates::chapter_next_buttons(c, n.published, n.plot_accept_open),
                ),
            )
        }
    } else {
        None
    }
}

/// A copy of buttons.
pub fn copy_buttons(v: &Vec<UserInputOption>) -> (r: Vec<UserInputOption>)
    ensures
        gates::buttons(r@) == gates::buttons(v@),
{
    let mut out: Vec<UserInputOption> = Vec::new();
    let mut i: usize = 0;
    while i < v.len()
        invariant
            i <= v.len(),
            out.len() == i,
            forall|j: int| 0 <= j < i ==> (#[trigger] out@[j])@ == v@[j]@,
        decreases v.len() - i,
    {
        out.push(v[i].copy());
        i = i + 1;
    }
    assert(gates::buttons(out@) =~= gates::buttons(v@));
    out
}

fn plain(kind: &str, prompt: String, options: Vec<UserInputOption>) -> (r: OpenGate)
    ensures
        r@ == plain_gate(kind@, prompt@, gates::buttons(options@)),
{
    OpenGate { kind: kind.to_owned(), prompt, options, detail: GateDetail::Plain }
}

fn prompt_after_chapter(chapter: u32, published: bool, plot_accept_open: bool) -> (r: String)
    ensures
        r@ == if published {
            prompts::published_prompt(chapter, plot_accept_open)
        } else {
            chapter_offers::rule_stop_prompt(chapter)
        },
{
    if published {
        prompts::chapter_next_published_prompt(chapter, plot_accept_open)
    } else {
        chapter_offers::rule_stop(chapter)
    }
}

/// The card that is put on a client's timeline when it comes back, in the order
/// of the timeline: unlike the card on its own, a skipped chapter comes before
/// the studio, and the setup and the volumes before an audit.
pub open spec fn timeline_card(
    s: ThreadV,
    c: Seq<GateV>,
    step: SetupStepV,
    queue_active: bool,
) -> Option<CardV> {
    if s.pending_mutation is Some {
        let m = s.pending_mutation->0;
        Some(
            CardV {
                prompt: "待确认："@ + m.summary,
                options: gates::shown(c, "confirm_mutation"@),
                preview: Some(
                    (
                        m.preview,
                        match m.preview.get("diffs"@) {
                            Some(d) => d,
                            None => JsonV::List(Seq::empty()),
                        },
                    ),
                ),
            },
        )
    } else if s.pending_impact is Some {
        let i = s.pending_impact->0;
        Some(
            offers::plain_card(
                impact_prompt(i.hits.len()) + "\n\n"@ + i.summary_markdown,
                gates::shown(c, "confirm_impact"@),
            ),
        )
    } else if s.pending_chapter_order is Some {
        let o = s.pending_chapter_order->0;
        Some(
            offers::plain_card(
                offers::order_prompt(o.next_chapter),
                offers::order_buttons(c, o.next_chapter),
            ),
        )
    } else if s.pending_studio_next is Some {
        let n = s.pending_studio_next->0;
        Some(offers::plain_card(n.prompt, n.options))
    } else if s.pending_setup is Some {
        Some(offers::plain_card(step.prompt, gates::shown(c, step.gate)))
    } else if s.pending_volume_sync is Some {
        let v = s.pending_volume_sync->0;
        Some(
            offers::plain_card(
                volume::volume_label(v.volume as u64, v.name)
                    + "已结束。请同步设定库，并确认卷记忆。"@,
                gates::shown(c, "volume_sync"@),
            ),
        )
    } else if s.pending_volume_handoff is Some {
        let h = s.pending_volume_handoff->0;
        let kind = handoff_kind(h);
        Some(
            offers::plain_card(
                volume::handoff_prompt(kind.1, h.volume, None),
                gates::shown(c, kind.0),
            ),
        )
    } else if s.pending_audit is Some {
        let a = s.pending_audit->0;
        Some(
            if queue_active {
                offers::plain_card(
                    "第"@ + text::dec(a.chapter as nat)
                        + "章审校未通过（审阅队列 · 仅处理当前章），请选择："@,
                    gates::shown(c, "audit_queue"@),
                )
            } else {
                offers::plain_card(
                    "第"@ + text::dec(a.chapter as nat)
                        + "章审校未通过，请选择如何处理："@,
                    gates::shown(c, "audit"@),
                )
            },
        )
    } else if s.pending_chapter_next is Some {
        let n = s.pending_chapter_next->0;
        if n.suggest_next is Some {
            None
        } else {
            Some(
                offers::plain_card(
                    chapter_prompt(n),
                    gates::chapter_next_buttons(c, n.published, n.plot_accept_open),
                ),
            )
        }
    } else {
        None
    }
}

/// What is done to a timeline that a client saves.
#[derive(Clone, Copy, Debug, PartialEq, Eq, Structural)]
pub enum TimelineRule {
    /// Audits that still run on it are ended.
    EndAudits,
    /// It is kept as it is.
    Keep,
    /// Its buttons are taken off.
    StripButtons,
}

/// What is done to a timeline that a client saves: with no card open its buttons
/// go; while an audit waits, no audit on it may still run.
pub open spec fn timeline_rule(s: ThreadV, queue_active: bool) -> TimelineRule {
    if s.pending_audit is Some {
        TimelineRule::EndAudits
    } else if s.keeps_approvals() || queue_active {
        TimelineRule::Keep
    } else {
        TimelineRule::StripButtons
    }
}

impl ThreadState {
    fn mutation_gate(&self, catalog: &GateCatalog) -> (r: Option<OpenGate>)
        ensures
            self@.pending_mutation is None ==> r is None,
            self@.pending_mutation matches Some(m) ==> opt_gate(r) == Some(
                (OpenGateV {
                    kind: "confirm_mutation"@,
                    prompt: "待确认："@ + m.summary,
                    options: gates::shown(catalog@, "confirm_mutation"@),
                    detail: GateDetailV::Mutation {
                        preview: m.preview,
                        mutation_kind: m.mutation_kind,
                    },
                }),
            ),
    {
        match &self.pending_mutation {
            Some(m) => {
                let mut prompt = "待确认：".to_owned();
                prompt.push_str(m.summary.as_str());
                Some(
                    OpenGate {
                        kind: "confirm_mutation".to_owned(),
                        prompt,
                        options: catalog.mutation_confirm_options(),
                        detail: GateDetail::Mutation {
                            preview: m.preview.copy(),
                            mutation_kind: m.mutation_kind.clone(),
                        },
                    },
                )
            },
            None => None,
        }
    }

    fn impact_gate(&self, catalog: &GateCatalog) -> (r: Option<OpenGate>)
        ensures
            self@.pending_impact is None ==> r is None,
            self@.pending_impact matches Some(i) ==> opt_gate(r) == Some(
                (OpenGateV {
                    kind: "confirm_impact"@,
                    prompt: impact_prompt(i.hits.len()),
                    options: gates::shown(catalog@, "confirm_impact"@),
                    detail: GateDetailV::Impact {
                        summary_markdown: i.summary_markdown,
                        hits: i.hits,
                        entity_gaps_count: i.entity_gaps_count,
                    },
                }),
            ),
    {
        match &self.pending_impact {
            Some(i) => {
                let mut prompt = "设定/结构已更新，发现 ".to_owned();
                prompt.push_str(text::number(i.hits.len() as u64).as_str());
                prompt.push_str(" 处可能受影响的依赖位点。是否自动同步修正？");
                Some(
                    OpenGate {
                        kind: "confirm_impact".to_owned(),
                        prompt,
                        options: catalog.impact_confirm_options(),
                        detail: GateDetail::Impact {
                            summary_markdown: i.summary_markdown.clone(),
                            hits: json::copy_list(&i.hits),
                            entity_gaps_count: i.entity_gaps_count,
                        },
                    },
                )
            },
            None => None,
        }
    }

    /// The one card that a client is shown.
    pub fn build_open_gate_dto(
        &self,
        catalog: &GateCatalog,
        step: &SetupStep,
        queue_active: bool,
    ) -> (r: Option<OpenGate>)
        ensures
            opt_gate(r) == open_gate_of(self@, catalog@, step@, queue_active),
    {
        if self.pending_mutation.is_some() {
            return self.mutation_gate(catalog);
        }
        if self.pending_impact.is_some() {
            return self.impact_gate(catalog);
        }
        match &self.pending_studio_next {
            Some(n) => {
                return Some(plain("studio_next", n.prompt.clone(), copy_buttons(&n.options)));
            },
            None => {},
        }
        match &self.pending_chapter_order {
            Some(o) => {
                return Some(
                    plain(
                        "chapter_order",
                        offers::chapter_order_prompt(o.next_chapter),
                        catalog.chapter_order_options(o.next_chapter),
                    ),
                );
            },
            None => {},
        }
        match &self.pending_audit {
            Some(a) => {
                if a.awaiting_offer {
                    return None;
                }
                if a.kind == AuditGateKind::Infra {
                    return Some(
                        plain(
                            "audit_infra",
                            audit_offers::audit_infra_prompt(a.chapter),
                            catalog.options("audit_infra"),
                        ),
                    );
                }
                assert(audit_decisions::decision_list(a.decision_options@).len()
                    == a.decision_options.len());
                let options = if a.decision_options.len() == 0 {
                    audit_decisions::decisions_to_ui_options(
                        &audit_decisions::build_fallback_audit_decisions(
                            a.project.as_str(),
                            a.chapter,
                            &a.issues,
                            queue_active,
                        ),
                    )
                } else {
                    audit_decisions::decisions_to_ui_options(&a.decision_options)
                };
                return Some(
                    plain(
                        "audit",
                        audit_decisions::audit_fail_prompt(a.chapter, &a.issues, queue_active),
                        options,
                    ),
                );
            },
            None => {},
        }
        match &self.pending_volume_sync {
            Some(v) => {
                let mut prompt = if text::trim(v.name.as_str()).is_empty() {
                    let none = String::new();
                    volume::label_of(v.volume as u64, none.as_str())
                } else {
                    volume::label_of(v.volume as u64, v.name.as_str())
                };
                prompt.push_str("已结束。请同步设定库，并确认卷记忆。");
                if v.deferred_setting_blocker.is_some() {
                    prompt.push_str("（完成后将处理设定 BLOCKER）");
                }
                return Some(plain("volume_sync", prompt, catalog.options("volume_sync")));
            },
            None => {},
        }
        match &self.pending_volume_handoff {
            Some(h) => {
                return Some(
                    if text::same(h.phase.as_str(), "awaiting_next_plot") {
                        plain(
                            "volume_handoff_plot",
                            volume::prompt_of_handoff(
                                VolumePhase::AwaitingNextPlot,
                                h.volume,
                                None,
                            ),
                            catalog.options("volume_handoff_plot"),
                        )
                    } else {
                        plain(
                            "volume_handoff_arc",
                            volume::prompt_of_handoff(
                                VolumePhase::AwaitingNextArc,
                                h.volume,
                                None,
                            ),
                            catalog.options("volume_handoff_arc"),
                        )
                    },
                );
            },
            None => {},
        }
        if self.pending_setup.is_some() {
            return Some(
                plain(
                    step.gate.as_str(),
                    step.prompt.clone(),
                    catalog.options(step.gate.as_str()),
                ),
            );
        }
        match &self.pending_chapter_next {
            Some(n) => {
                if n.suggest_next.is_some() {
                    return None;
                }
                Some(
                    plain(
                        "chapter_next",
                        prompt_after_chapter(n.chapter, n.published, n.plot_accept_open),
                        catalog.chapter_next_options(n.published, n.plot_accept_open),
                    ),
                )
            },
            None => None,
        }
    }

    /// The card that a snapshot of the thread shows: none while a turn runs.
    pub fn snapshot_gate(
        &self,
        turn_active: bool,
        catalog: &GateCatalog,
        step: &SetupStep,
        queue_active: bool,
    ) -> (r: Option<OpenGate>)
        ensures
            opt_gate(r) == if turn_active {
                None
            } else {
                open_gate_of(self@, catalog@, step@, queue_active)
            },
    {
        if turn_active {
            None
        } else {
            self.build_open_gate_dto(catalog, step, queue_active)
        }
    }

    /// The card that is put on a client's timeline when it comes back.
    pub fn pending_gate_card(
        &self,
        catalog: &GateCatalog,
        step: &SetupStep,
        queue_active: bool,
    ) -> (r: Option<Card>)
        ensures
            (match r {
                Some(c) => Some(c@),
                None => None,
            }) == timeline_card(self@, catalog@, step@, queue_active),
    {
        match &self.pending_mutation {
            Some(m) => {
                let mut prompt = "待确认：".to_owned();
                prompt.push_str(m.summary.as_str());
                let diffs = match m.preview.get("diffs") {
                    Some(d) => d.copy(),
                    None => {
                        let none: Vec<Json> = Vec::new();
                        proof {
                            json::list_view(none);
                            assert(json::items(none@) =~= Seq::<JsonV>::empty());
                        }
                        Json::List(none)
                    },
                };
                return Some(
                    Card {
                        prompt,
                        options: catalog.mutation_confirm_options(),
                        preview: Some((m.preview.copy(), diffs)),
                    },
                );
            },
            None => {},
        }
        match &self.pending_impact {
            Some(i) => {
                let mut prompt = "设定/结构已更新，发现 ".to_owned();
                prompt.push_str(text::number(i.hits.len() as u64).as_str());
                prompt.push_str(" 处可能受影响的依赖位点。是否自动同步修正？");
                prompt.push_str("\n\n");
                prompt.push_str(i.summary_markdown.as_str());
                return Some(
                    Card { prompt, options: catalog.impact_confirm_options(), preview: None },
                );
            },
            None => {},
        }
        match &self.pending_chapter_order {
            Some(o) => {
                return Some(
                    Card {
                        prompt: offers::chapter_order_prompt(o.next_chapter),
                        options: catalog.chapter_order_options(o.next_chapter),
                        preview: None,
                    },
                );
            },
            None => {},
        }
        match &self.pending_studio_next {
            Some(n) => {
                return Some(
                    Card {
                        prompt: n.prompt.clone(),
                        options: copy_buttons(&n.options),
                        preview: None,
                    },
                );
            },
            None => {},
        }
        if self.pending_setup.is_some() {
            return Some(
                Card {
                    prompt: step.prompt.clone(),
                    options: catalog.options(step.gate.as_str()),
                    preview: None,
                },
            );
        }
        match &self.pending_volume_sync {
            Some(v) => {
                let mut prompt = volume::label_of(v.volume as u64, v.name.as_str());
                prompt.push_str("已结束。请同步设定库，并确认卷记忆。");
                return Some(
                    Card { prompt, options: catalog.options("volume_sync"), preview: None },
                );
            },
            None => {},
        }
        match &self.pending_volume_handoff {
            Some(h) => {
                return Some(
                    if text::same(h.phase.as_str(), "awaiting_next_plot") {
                        Card {
                            prompt: volume::prompt_of_handoff(
                                VolumePhase::AwaitingNextPlot,
                                h.volume,
                                None,
                            ),
                            options: catalog.options("volume_handoff_plot"),
                            preview: None,
                        }
                    } else {
                        Card {
                            prompt: volume::prompt_of_handoff(
                                VolumePhase::AwaitingNextArc,
                                h.volume,
                                None,
                            ),
                            options: catalog.options("volume_handoff_arc"),
                            preview: None,
                        }
                    },
                );
            },
            None => {},
        }
        match &self.pending_audit {
            Some(a) => {
                let mut prompt = "第".to_owned();
                prompt.push_str(text::number(a.chapter as u64).as_str());
                if queue_active {
                    prompt.push_str("章审校未通过（审阅队列 · 仅处理当前章），请选择：");
                    return Some(
                        Card { prompt, options: catalog.options("audit_queue"), preview: None },
                    );
                }
                prompt.push_str("章审校未通过，请选择如何处理：");
                return Some(Card { prompt, options: catalog.options("audit"), preview: None });
            },
            None => {},
        }
        match &self.pending_chapter_next {
            Some(n) => {
                if n.suggest_next.is_some() {
                    return None;
                }
                Some(
                    Card {
                        prompt: prompt_after_chapter(n.chapter, n.published, n.plot_accept_open),
                        options: catalog.chapter_next_options(n.published, n.plot_accept_open),
                        preview: None,
                    },
                )
            },
            None => None,
        }
    }

    /// What is done to a timeline that a client saves.
    pub fn timeline_treatment(&self, queue_active: bool) -> (r: TimelineRule)
        ensures
            r == timeline_rule(self@, queue_active),
    {
        if self.pending_audit.is_some() {
            TimelineRule::EndAudits
        } else if self.keeps_ui_approvals(queue_active) {
            TimelineRule::Keep
        } else {
            TimelineRule::StripButtons
        }
    }
}

/// Whether a timeline that a client saves takes the place of the stored one: a
/// weaker one is refused where the switch says so.
pub fn accepts_timeline(reject_weak: bool, weaker: bool) -> (r: bool)
    ensures
        r == !(reject_weak && weaker),
{
    !(reject_weak && weaker)
}

/// A card is shown exactly while the thread waits for someone, but for an audit
/// that the studio has yet to offer decisions on and for a draft that was there
/// already.
pub proof fn card_is_shown_while_waiting(
    s: ThreadV,
    c: Seq<GateV>,
    step: SetupStepV,
    queue_active: bool,
)
    ensures
        open_gate_of(s, c, step, queue_active) is Some ==> s.awaiting_human(),
        s.awaiting_human() && !(s.pending_audit matches Some(a) && a.awaiting_offer) && !(
        s.pending_chapter_next matches Some(n) && n.suggest_next is Some) ==> open_gate_of(
            s,
            c,
            step,
            queue_active,
        ) is Some,
{
}

/// A change that awaits confirmation is the card that is shown, whatever else is
/// open.
pub proof fn mutation_is_shown_first(
    s: ThreadV,
    c: Seq<GateV>,
    data: JsonV,
    step: SetupStepV,
    queue_active: bool,
)
    ensures
        ({
            let after = offers::mutation_offer(s, c, data);
            after.1 is Open ==> (open_gate_of(after.0, c, step, queue_active) matches Some(g)
                && g.kind == "confirm_mutation"@ && g.prompt == after.1->Open_0.prompt && g.options
                == after.1->Open_0.options)
        }),
{
}

} // verus!
