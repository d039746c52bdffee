//! Which card a tool's result opens.
//!
//! Each offer looks at the tool that ran, what it took and gave, and what the
//! thread already waits for. It opens a card, finds the card open already, asks
//! the studio for a card of its own, or offers nothing.

use vstd::prelude::*;

use crate::audit_decisions;
use crate::gates;
use crate::gates::{GateCatalog, GateV, UserInputOption, UserInputOptionV};
use crate::json;
use crate::json::{Json, JsonV};
use crate::text;
use crate::thread_state;
use crate::thread_state::{
    ChapterOrderV, ImpactV, MutationV, PendingChapterOrder, PendingImpact, PendingMutation,
    PendingSettingBlocker, SettingBlockerV, ThreadState, ThreadV,
};

verus! {

/// A card to show.
pub struct Card {
    pub prompt: String,
    pub options: Vec<UserInputOption>,
    /// A preview to show with the card, and its differences.
    pub preview: Option<(Json, Json)>,
}

/// A card by contents.
pub struct CardV {
    pub prompt: Seq<char>,
    pub options: Seq<UserInputOptionV>,
    pub preview: Option<(JsonV, JsonV)>,
}

impl View for Card {
    type V = CardV;

    open spec fn view(&self) -> CardV {
        CardV {
            prompt: self.prompt@,
            options: gates::buttons(self.options@),
            preview: match self.preview {
                Some(p) => Some((p.0@, p.1@)),
                None => None,
            },
        }
    }
}

/// What the studio's own card would be about.
#[allow(inconsistent_fields)]
pub enum StudioNextContext {
    DraftExists { chapter: u32, suggest_chapter: u32 },
    VolumeAudit { volume: u32, chapters: Vec<u32> },
    Mutation { apply_tool: String },
    ExpectedEvent { kind: String, chapter: u32, event_id: String, event_text: String },
    PlotWrite { kind: String, title: String, volume: u32 },
    SettingBlocker { blocker: PendingSettingBlocker },
}

/// What the studio's own card would be about, by contents.
#[allow(inconsistent_fields)]
pub enum ContextV {
    DraftExists { chapter: u32, suggest_chapter: u32 },
    VolumeAudit { volume: u32, chapters: Seq<u32> },
    Mutation { apply_tool: Seq<char> },
    ExpectedEvent {
        kind: Seq<char>,
        chapter: u32,
        event_id: Seq<char>,
        event_text: Seq<char>,
    },
    PlotWrite { kind: Seq<char>, title: Seq<char>, volume: u32 },
    SettingBlocker { blocker: SettingBlockerV },
}

impl View for StudioNextContext {
    type V = ContextV;

    open spec fn view(&self) -> ContextV {
        match self {
            StudioNextContext::DraftExists { chapter, suggest_chapter } => ContextV::DraftExists {
                chapter: *chapter,
                suggest_chapter: *suggest_chapter,
            },
            StudioNextContext::VolumeAudit { volume, chapters } => ContextV::VolumeAudit {
                volume: *volume,
                chapters: chapters@,
            },
            StudioNextContext::Mutation { apply_tool } => ContextV::Mutation {
                apply_tool: apply_tool@,
            },
            StudioNextContext::ExpectedEvent {
                kind,
                chapter,
                event_id,
                event_text,
            } => ContextV::ExpectedEvent {
                kind: kind@,
                chapter: *chapter,
                event_id: event_id@,
                event_text: event_text@,
            },
            StudioNextContext::PlotWrite { kind, title, volume } => ContextV::PlotWrite {
                kind: kind@,
                title: title@,
                volume: *volume,
            },
            StudioNextContext::SettingBlocker { blocker } => ContextV::SettingBlocker {
                blocker: blocker@,
            },
        }
    }
}

/// A request to the studio for a card of next steps.
pub struct StudioRequest {
    pub project: String,
    pub reason: String,
    pub context: StudioNextContext,
    /// The request belongs to the rewriting of an outline.
    pub outline_rewrite: bool,
}

/// A request to the studio, by contents.
pub struct StudioRequestV {
    pub project: Seq<char>,
    pub reason: Seq<char>,
    pub context: ContextV,
    pub outline_rewrite: bool,
}

impl View for StudioRequest {
    type V = StudioRequestV;

    open spec fn view(&self) -> StudioRequestV {
        StudioRequestV {
            project: self.project@,
            reason: self.reason@,
            context: self.context@,
            outline_rewrite: self.outline_rewrite,
        }
    }
}

/// What an offer comes to.
pub enum Offer {
    /// Nothing is offered.
    Nothing,
    /// The card is open already.
    Standing,
    /// The card opens.
    Open(Card),
    /// The studio is asked for its own card.
    Ask(StudioRequest),
}

/// What an offer comes to, by contents.
pub enum OfferV {
    Nothing,
    Standing,
    Open(CardV),
    Ask(StudioRequestV),
}

impl View for Offer {
    type V = OfferV;

    open spec fn view(&self) -> OfferV {
        match self {
            Offer::Nothing => OfferV::Nothing,
            Offer::Standing => OfferV::Standing,
            Offer::Open(c) => OfferV::Open(c@),
            Offer::Ask(r) => OfferV::Ask(r@),
        }
    }
}

/// A card without a preview.
pub open spec fn plain_card(prompt: Seq<char>, options: Seq<UserInputOptionV>) -> CardV {
    CardV { prompt, options, preview: None }
}

// ---------------------------------------------------------------------------
// Changes that await confirmation
// ---------------------------------------------------------------------------

/// The tool rewrites an outline.
pub open spec fn outline_tool(t: Seq<char>) -> bool {
    t == "design_master_outline"@ || t == "design_arc_outline"@
}

/// Whether the tool rewrites an outline.
pub fn is_outline_tool(t: &str) -> (r: bool)
    ensures
        r == outline_tool(t@),
{
    text::same(t, "design_master_outline") || text::same(t, "design_arc_outline")
}

/// The change that a tool's data describes.
pub open spec fn described_change(data: JsonV) -> MutationV {
    MutationV {
        mutation_id: data.text_or_empty("mutation_id"@),
        mutation_kind: data.text_or_empty("mutation_kind"@),
        summary: audit_decisions::or_text(data.text("summary"@), "确认应用此次修改？"@),
        apply_tool: data.text_or_empty("apply_tool"@),
        apply_args: json::or_object(data.get("apply_args"@)),
        preview: json::or_object(data.get("preview"@)),
        reaudit_after: data.flag("reaudit_after"@),
    }
}

/// What is shown of a preview: its differences, or itself alone where it has
/// text or fields to show.
pub open spec fn shown_preview(preview: JsonV) -> Option<(JsonV, JsonV)> {
    match preview.get("diffs"@) {
        Some(d) => Some((preview, d)),
        None => if preview.get("markdown"@) is Some || preview.get("fields"@) is Some {
            Some((preview, JsonV::List(Seq::empty())))
        } else {
            None
        },
    }
}

/// A change that awaits confirmation opens its card, which is then the only one
/// of its kind; only a volume that is being closed comes first.
pub open spec fn mutation_offer(s: ThreadV, c: Seq<GateV>, data: JsonV) -> (ThreadV, OfferV) {
    let m = described_change(data);
    if !data.flag("needs_confirm"@) || m.mutation_id.len() == 0 || m.apply_tool.len() == 0
        || s.pending_volume_sync is Some {
        (s, OfferV::Nothing)
    } else {
        (
            ThreadV {
                outline_rewrite_active: s.outline_rewrite_active || outline_tool(m.apply_tool),
                pending_mutation: Some(m),
                pending_setup: None,
                pending_chapter_next: None,
                pending_chapter_order: None,
                pending_mutation_followup: false,
                pending_studio_next: None,
                awaiting_studio_next: false,
                ..s
            },
            OfferV::Open(
                CardV {
                    prompt: "待确认："@ + m.summary,
                    options: gates::shown(c, "confirm_mutation"@),
                    preview: shown_preview(m.preview),
                },
            ),
        )
    }
}

fn read_change(data: &Json) -> (r: PendingMutation)
    ensures
        r@ == described_change(data@),
{
    let summary = match data.get_str("summary") {
        Some(s) => s.to_owned(),
        None => "确认应用此次修改？".to_owned(),
    };
    PendingMutation {
        mutation_id: data.str_or_empty("mutation_id"),
        mutation_kind: data.str_or_empty("mutation_kind"),
        summary,
        apply_tool: data.str_or_empty("apply_tool"),
        apply_args: json::copy_or_object(data.get("apply_args")),
        preview: json::copy_or_object(data.get("preview")),
        reaudit_after: data.is_true("reaudit_after"),
    }
}

/// What is shown of a preview.
pub fn preview_to_show(preview: &Json) -> (r: Option<(Json, Json)>)
    ensures
        (match r {
            Some(p) => Some((p.0@, p.1@)),
            None => None,
        }) == shown_preview(preview@),
{
    match preview.get("diffs") {
        Some(d) => Some((preview.copy(), d.copy())),
        None => if preview.get("markdown").is_some() || preview.get("fields").is_some() {
            let none: Vec<Json> = Vec::new();
            proof {
                json::list_view(none);
                assert(json::items(none@) =~= Seq::<JsonV>::empty());
            }
            Some((preview.copy(), Json::List(none)))
        } else {
            None
        },
    }
}

// ---------------------------------------------------------------------------
// What an applied change affects
// ---------------------------------------------------------------------------

/// What a scan found that depends on a change.
pub struct ImpactScan {
    /// The change, where the data names one.
    pub source: Option<Json>,
    pub hits: Vec<Json>,
    pub summary_markdown: String,
    pub entity_gaps_count: usize,
}

/// What a scan found, by contents.
pub struct ScanV {
    pub source: Option<JsonV>,
    pub hits: Seq<JsonV>,
    pub summary_markdown: Seq<char>,
    pub entity_gaps_count: usize,
}

impl View for ImpactScan {
    type V = ScanV;

    open spec fn view(&self) -> ScanV {
        ScanV {
            source: thread_state::opt_view(self.source),
            hits: json::items(self.hits@),
            summary_markdown: self.summary_markdown@,
            entity_gaps_count: self.entity_gaps_count,
        }
    }
}

/// The scan is worth making: a change took effect, and no card comes first.
pub open spec fn scan_wanted(s: ThreadV, enabled: bool, args: JsonV, data: JsonV) -> bool {
    enabled && !data.flag("blocked"@) && !data.flag("needs_confirm"@) && json::project_in(
        args,
        data,
    ).len() > 0 && s.pending_mutation is None && s.pending_volume_sync is None
}

/// What depends on an applied change opens its card, which takes the place of
/// the cards that come back after it.
pub open spec fn impact_offer(
    s: ThreadV,
    enabled: bool,
    c: Seq<GateV>,
    tool: Seq<char>,
    args: JsonV,
    data: JsonV,
    scan: ScanV,
) -> (ThreadV, OfferV) {
    if !scan_wanted(s, enabled, args, data) || scan.source is None || scan.hits.len() == 0 {
        (s, OfferV::Nothing)
    } else {
        (
            ThreadV {
                pending_impact: Some(
                    ImpactV {
                        project: json::project_in(args, data),
                        source: scan.source->0,
                        hits: scan.hits,
                        summary_markdown: scan.summary_markdown,
                        entity_gaps_count: scan.entity_gaps_count,
                        resume_tool: tool,
                        resume_args: args,
                        resume_data: data,
                    },
                ),
                pending_setup: None,
                pending_chapter_next: None,
                pending_chapter_order: None,
                pending_volume_handoff: None,
                pending_mutation_followup: false,
                pending_studio_next: None,
                awaiting_studio_next: false,
                ..s
            },
            OfferV::Open(
                plain_card(
                    "「"@ + tool + "」已落盘。发现 "@ + text::dec(scan.hits.len())
                        + " 处可能受影响的依赖位点。是否自动同步修正？\n\n"@
                        + scan.summary_markdown,
                    gates::shown(c, "confirm_impact"@),
                ),
            ),
        )
    }
}

// ---------------------------------------------------------------------------
// Order, plot cards, expected events
// ---------------------------------------------------------------------------

/// Writing was blocked for the reason.
pub open spec fn write_blocked(tool: Seq<char>, data: JsonV, reason: Seq<char>) -> bool {
    tool == "continue_writing"@ && data.flag("blocked"@) && data.text("reason"@) == Some(reason)
}

/// Whether writing was blocked for the reason.
pub fn is_write_blocked(tool: &str, data: &Json, reason: &str) -> (r: bool)
    ensures
        r == write_blocked(tool@, data@, reason@),
{
    text::same(tool, "continue_writing") && data.is_true("blocked") && match data.get_str(
        "reason",
    ) {
        Some(w) => text::same(w, reason),
        None => false,
    }
}

/// The prompt of a skipped chapter.
pub open spec fn order_prompt(next_chapter: u32) -> Seq<char> {
    "不能跳章。当前应写第"@ + text::dec(next_chapter as nat) + "章，请选择："@
}

/// The prompt of a skipped chapter.
pub fn chapter_order_prompt(next_chapter: u32) -> (r: String)
    ensures
        r@ == order_prompt(next_chapter),
{
    let mut s = "不能跳章。当前应写第".to_owned();
    s.push_str(text::number(next_chapter as u64).as_str());
    s.push_str("章，请选择：");
    s
}

/// The buttons of a skipped chapter.
pub open spec fn order_buttons(c: Seq<GateV>, next_chapter: u32) -> Seq<UserInputOptionV> {
    gates::relabelled(
        gates::shown(c, "chapter_order"@),
        "{{next_chapter}}"@,
        text::dec(next_chapter as nat),
    )
}

/// A write that skips a chapter offers the chapter that is next in order.
pub open spec fn order_offer(
    s: ThreadV,
    c: Seq<GateV>,
    tool: Seq<char>,
    args: JsonV,
    data: JsonV,
) -> (ThreadV, OfferV) {
    let project = json::project_in(data, args);
    let next = json::uint_or(data, "next_chapter"@, 0) as u32;
    if !(write_blocked(tool, data, "chapter_skip"@) || write_blocked(tool, data, "chapter_gap"@))
        || project.len() == 0 || next == 0 || s.pending_mutation is Some || s.pending_impact is Some
        || s.pending_volume_sync is Some || s.pending_volume_handoff is Some || s.pending_setup
        is Some || s.pending_audit is Some {
        (s, OfferV::Nothing)
    } else {
        (
            ThreadV {
                pending_chapter_order: Some(ChapterOrderV { project, next_chapter: next }),
                pending_chapter_next: None,
                ..s
            },
            OfferV::Open(plain_card(order_prompt(next), order_buttons(c, next))),
        )
    }
}

/// A write that lacks an active plot card asks the studio to provide one.
/// `target` and `default_title` are the volume and the title that it would get.
pub open spec fn plot_write_offer(
    tool: Seq<char>,
    args: JsonV,
    data: JsonV,
    target: u32,
    default_title: Seq<char>,
) -> OfferV {
    let project = json::project_in(data, args);
    let told = data.text_or_empty("plot_title"@);
    let title = if told.len() == 0 {
        default_title
    } else {
        told
    };
    let volume = match data.uint("volume"@) {
        Some(n) => n as u32,
        None => target,
    };
    let need = write_blocked(tool, data, "need_design_plot"@);
    if !(need || write_blocked(tool, data, "planned_inactive"@)) || project.len() == 0 {
        OfferV::Nothing
    } else {
        OfferV::Ask(
            StudioRequestV {
                project,
                reason: if need {
                    "写章被拦：需要进行中的剧情卡"@
                } else {
                    "写章被拦：剧情卡「"@ + title + "」尚未激活"@
                },
                context: ContextV::PlotWrite {
                    kind: data.text_or_empty("reason"@),
                    title,
                    volume,
                },
                outline_rewrite: false,
            },
        )
    }
}

/// The tool decides on expected events.
pub open spec fn event_tool(t: Seq<char>) -> bool {
    t == "resolve_expected_event"@ || t == "review_expected_events"@
}

/// What a decision on an expected event leaves behind: an event that was passed
/// over is remembered once, and a decision closes the question.
pub open spec fn event_noted(s: ThreadV, tool: Seq<char>, data: JsonV) -> ThreadV {
    if !event_tool(tool) {
        s
    } else {
        ThreadV {
            skipped_expected_ids: match data.text("event_id"@) {
                Some(id) => if data.flag("skip_once"@) && !s.skipped_expected_ids.contains(id) {
                    s.skipped_expected_ids.push(id)
                } else {
                    s.skipped_expected_ids
                },
                None => s.skipped_expected_ids,
            },
            pending_expected_event: s.pending_expected_event && !data.flag(
                "dismiss_expected_gate"@,
            ) && !data.flag("approved"@),
            ..s
        }
    }
}

/// What the studio is asked about an expected event, if anything: its reason and
/// its subject.
pub open spec fn event_question(tool: Seq<char>, data: JsonV) -> Option<(Seq<char>, ContextV)> {
    let chapter = match data.uint("chapter"@) {
        Some(n) => n as u32,
        None => 0,
    };
    let id = data.text_or_empty("event_id"@);
    let told = data.text_or_empty("event_text"@);
    let review = ContextV::ExpectedEvent {
        kind: "need_review"@,
        chapter,
        event_id: Seq::empty(),
        event_text: Seq::empty(),
    };
    if write_blocked(tool, data, "need_expected_review"@) {
        Some(
            (
                "第"@ + text::dec(chapter as nat)
                    + "章写前：有预处理预期硬条件已满足，需检阅或跳过"@,
                review,
            ),
        )
    } else if write_blocked(tool, data, "expected_event_pending"@) || (tool
        == "review_expected_events"@ && data.flag("needs_user_choice"@)) {
        if id.len() == 0 {
            None
        } else {
            Some(
                (
                    "预处理预期「"@ + text::first_chars(told, 40) + "」(id="@ + id
                        + ") 可纳入本次创作"@,
                    ContextV::ExpectedEvent {
                        kind: "decide"@,
                        chapter,
                        event_id: id,
                        event_text: told,
                    },
                ),
            )
        }
    } else if tool == "design_arc_outline"@ && data.flag("offer_expected_review"@) {
        Some(("卷纲已更新，且有预处理预期硬条件已满足"@, review))
    } else {
        None
    }
}

/// A question about an expected event goes to the studio.
pub open spec fn expected_offer(s: ThreadV, tool: Seq<char>, args: JsonV, data: JsonV) -> (
    ThreadV,
    OfferV,
) {
    let project = json::project_in(data, args);
    (
        event_noted(s, tool, data),
        match event_question(tool, data) {
            Some(q) => if project.len() == 0 {
                OfferV::Nothing
            } else {
                OfferV::Ask(
                    StudioRequestV {
                        project,
                        reason: q.0,
                        context: q.1,
                        outline_rewrite: false,
                    },
                )
            },
            None => OfferV::Nothing,
        },
    )
}

/// A chapter that has a draft already goes to the studio.
pub open spec fn draft_offer(tool: Seq<char>, args: JsonV, data: JsonV) -> OfferV {
    let project = json::project_in(data, args);
    let chapter = json::uint_or(data, "chapter"@, 0) as u32;
    let suggest = match data.uint("suggest_chapter"@) {
        Some(n) => n as u32,
        None => saturating_next(chapter),
    };
    if !write_blocked(tool, data, "draft_exists_without_chapter"@) || project.len() == 0 || chapter
        == 0 {
        OfferV::Nothing
    } else {
        OfferV::Ask(draft_request(project, chapter, suggest))
    }
}

/// The next number, or the largest.
pub open spec fn saturating_next(n: u32) -> u32 {
    if n == u32::MAX {
        n
    } else {
        (n + 1) as u32
    }
}

/// The request about a chapter that has a draft already.
pub open spec fn draft_request(project: Seq<char>, chapter: u32, suggest: u32) -> StudioRequestV {
    StudioRequestV {
        project,
        reason: "第"@ + text::dec(chapter as nat)
            + "章已有未发布正文；可审校/修订本章，或写第"@ + text::dec(suggest as nat) + "章"@,
        context: ContextV::DraftExists { chapter, suggest_chapter: suggest },
        outline_rewrite: false,
    }
}

/// The request about a chapter that has a draft already.
pub fn draft_exists_request(project: &str, chapter: u32, suggest_chapter: u32) -> (r: StudioRequest)
    ensures
        r@ == draft_request(project@, chapter, suggest_chapter),
{
    let mut reason = "第".to_owned();
    reason.push_str(text::number(chapter as u64).as_str());
    reason.push_str("章已有未发布正文；可审校/修订本章，或写第");
    reason.push_str(text::number(suggest_chapter as u64).as_str());
    reason.push_str("章");
    StudioRequest {
        project: project.to_owned(),
        reason,
        context: StudioNextContext::DraftExists { chapter, suggest_chapter },
        outline_rewrite: false,
    }
}

/// A setting or outline that took effect asks the studio for the next step of
/// its plan.
pub open spec fn followup_offer(tool: Seq<char>, args: JsonV, data: JsonV) -> OfferV {
    let project = json::project_in(args, data);
    if !thread_state::structure_tool(tool) || data.flag("needs_confirm"@) || data.flag("blocked"@)
        || project.len() == 0 {
        OfferV::Nothing
    } else {
        OfferV::Ask(
            StudioRequestV {
                project,
                reason: "「"@ + tool + "」已落盘，请给出未完成计划的下一步"@,
                context: ContextV::Mutation { apply_tool: tool },
                outline_rewrite: outline_tool(tool) || tool == "upsert_setting"@,
            },
        )
    }
}

impl ThreadState {
    /// Opens the card of a change that awaits confirmation.
    pub fn maybe_offer_mutation_confirm(&mut self, catalog: &GateCatalog, data: &Json) -> (r: Offer)
        ensures
            (final(self)@, r@) == mutation_offer(old(self)@, catalog@, data@),
    {
        if !data.is_true("needs_confirm") {
            return Offer::Nothing;
        }
        let m = read_change(data);
        if m.mutation_id.as_str().is_empty() || m.apply_tool.as_str().is_empty() {
            return Offer::Nothing;
        }
        if self.pending_volume_sync.is_some() {
            return Offer::Nothing;
        }
        let mut prompt = "待确认：".to_owned();
        prompt.push_str(m.summary.as_str());
        let preview = preview_to_show(&m.preview);
        if is_outline_tool(m.apply_tool.as_str()) {
            self.outline_rewrite_active = true;
        }
        self.pending_mutation = Some(m);
        self.pending_setup = None;
        self.pending_chapter_next = None;
        self.pending_chapter_order = None;
        self.pending_mutation_followup = false;
        self.pending_studio_next = None;
        self.awaiting_studio_next = false;
        Offer::Open(Card { prompt, options: catalog.mutation_confirm_options(), preview })
    }

    /// Whether to look for what depends on an applied change.
    pub fn wants_impact_scan(&self, enabled: bool, args: &Json, data: &Json) -> (r: bool)
        ensures
            r == scan_wanted(self@, enabled, args@, data@),
    {
        enabled && !data.is_true("blocked") && !data.is_true("needs_confirm")
            && !json::project_from(args, data).as_str().is_empty()
            && self.pending_mutation.is_none() && self.pending_volume_sync.is_none()
    }

    /// Opens the card of what depends on an applied change.
    pub fn maybe_offer_impact_cascade(
        &mut self,
        enabled: bool,
        catalog: &GateCatalog,
        tool: &str,
        args: &Json,
        data: &Json,
        scan: &ImpactScan,
    ) -> (r: Offer)
        ensures
            (final(self)@, r@) == impact_offer(
                old(self)@,
                enabled,
                catalog@,
                tool@,
                args@,
                data@,
                scan@,
            ),
    {
        if !self.wants_impact_scan(enabled, args, data) || scan.hits.len() == 0 {
            return Offer::Nothing;
        }
        let source = match &scan.source {
            Some(j) => j.copy(),
            None => {
                return Offer::Nothing;
            },
        };
        let mut prompt = "「".to_owned();
        prompt.push_str(tool);
        prompt.push_str("」已落盘。发现 ");
        prompt.push_str(text::number(scan.hits.len() as u64).as_str());
        prompt.push_str(" 处可能受影响的依赖位点。是否自动同步修正？\n\n");
        prompt.push_str(scan.summary_markdown.as_str());
        self.pending_impact = Some(
            PendingImpact {
                project: json::project_from(args, data),
                source,
                hits: json::copy_list(&scan.hits),
                summary_markdown: scan.summary_markdown.clone(),
                entity_gaps_count: scan.entity_gaps_count,
                resume_tool: tool.to_owned(),
                resume_args: args.copy(),
                resume_data: data.copy(),
            },
        );
        self.pending_setup = None;
        self.pending_chapter_next = None;
        self.pending_chapter_order = None;
        self.pending_volume_handoff = None;
        self.pending_mutation_followup = false;
        self.pending_studio_next = None;
        self.awaiting_studio_next = false;
        Offer::Open(Card { prompt, options: catalog.impact_confirm_options(), preview: None })
    }

    /// Offers the chapter that is next in order.
    pub fn maybe_offer_chapter_order(
        &mut self,
        catalog: &GateCatalog,
        tool: &str,
        args: &Json,
        data: &Json,
    ) -> (r: Offer)
        ensures
            (final(self)@, r@) == order_offer(old(self)@, catalog@, tool@, args@, data@),
    {
        if !(is_write_blocked(tool, data, "chapter_skip") || is_write_blocked(
            tool,
            data,
            "chapter_gap",
        )) {
            return Offer::Nothing;
        }
        let project = json::project_from(data, args);
        let next: u32 = json::get_u64_or(data, "next_chapter", 0) as u32;
        if project.as_str().is_empty() || next == 0 {
            return Offer::Nothing;
        }
        if self.pending_mutation.is_some() || self.pending_impact.is_some()
            || self.pending_volume_sync.is_some() || self.pending_volume_handoff.is_some()
            || self.pending_setup.is_some() || self.pending_audit.is_some() {
            return Offer::Nothing;
        }
        self.pending_chapter_order = Some(PendingChapterOrder { project, next_chapter: next });
        self.pending_chapter_next = None;
        Offer::Open(
            Card {
                prompt: chapter_order_prompt(next),
                options: catalog.chapter_order_options(next),
                preview: None,
            },
        )
    }

    /// Notes what a decision on an expected event leaves behind.
    pub fn apply_expected_event_tool_side_effects(&mut self, tool: &str, data: &Json)
        ensures
            final(self)@ == event_noted(old(self)@, tool@, data@),
    {
        if !text::same(tool, "resolve_expected_event") && !text::same(
            tool,
            "review_expected_events",
        ) {
            return;
        }
        if data.is_true("skip_once") {
            match data.get_str("event_id") {
                Some(id) => {
                    if !audit_decisions::holds_text(&self.skipped_expected_ids, id) {
                        let ghost before = text::texts(self.skipped_expected_ids@);
                        self.skipped_expected_ids.push(id.to_owned());
                        assert(text::texts(self.skipped_expected_ids@) =~= before.push(id@));
                    }
                },
                None => {},
            }
        }
        if data.is_true("dismiss_expected_gate") || data.is_true("approved") {
            self.pending_expected_event = false;
        }
    }

    /// Takes a question about an expected event to the studio.
    pub fn maybe_offer_expected_event(&mut self, tool: &str, args: &Json, data: &Json) -> (r: Offer)
        ensures
            (final(self)@, r@) == expected_offer(old(self)@, tool@, args@, data@),
    {
        self.apply_expected_event_tool_side_effects(tool, data);
        let project = json::project_from(data, args);
        let chapter: u32 = match data.get_u64("chapter") {
            Some(n) => n as u32,
            None => 0,
        };
        let mut kind = "need_review".to_owned();
        let mut event_id = String::new();
        let mut event_text = String::new();
        let mut reason: String;
        if is_write_blocked(tool, data, "need_expected_review") {
            reason = "第".to_owned();
            reason.push_str(text::number(chapter as u64).as_str());
            reason.push_str("章写前：有预处理预期硬条件已满足，需检阅或跳过");
        } else if is_write_blocked(tool, data, "expected_event_pending") || (text::same(
            tool,
            "review_expected_events",
        ) && data.is_true("needs_user_choice")) {
            event_id = data.str_or_empty("event_id");
            event_text = data.str_or_empty("event_text");
            if event_id.as_str().is_empty() {
                return Offer::Nothing;
            }
            kind = "decide".to_owned();
            let short = text::take_chars(event_text.as_str(), 40);
            reason = "预处理预期「".to_owned();
            reason.push_str(short.as_str());
            reason.push_str("」(id=");
            reason.push_str(event_id.as_str());
            reason.push_str(") 可纳入本次创作");
        } else if text::same(tool, "design_arc_outline") && data.is_true("offer_expected_review") {
            reason = "卷纲已更新，且有预处理预期硬条件已满足".to_owned();
        } else {
            return Offer::Nothing;
        }
        if project.as_str().is_empty() {
            return Offer::Nothing;
        }
        Offer::Ask(
            StudioRequest {
                project,
                reason,
                context: StudioNextContext::ExpectedEvent { kind, chapter, event_id, event_text },
                outline_rewrite: false,
            },
        )
    }
}

/// Asks the studio for a plot card that a write lacks.
pub fn maybe_offer_plot_write(
    tool: &str,
    args: &Json,
    data: &Json,
    target: u32,
    default_title: &str,
) -> (r: Offer)
    ensures
        r@ == plot_write_offer(tool@, args@, data@, target, default_title@),
{
    let need = is_write_blocked(tool, data, "need_design_plot");
    if !need && !is_write_blocked(tool, data, "planned_inactive") {
        return Offer::Nothing;
    }
    let project = json::project_from(data, args);
    if project.as_str().is_empty() {
        return Offer::Nothing;
    }
    let told = data.str_or_empty("plot_title");
    let title = if told.as_str().is_empty() {
        default_title.to_owned()
    } else {
        told
    };
    let volume: u32 = match data.get_u64("volume") {
        Some(n) => n as u32,
        None => target,
    };
    let mut reason: String;
    if need {
        reason = "写章被拦：需要进行中的剧情卡".to_owned();
    } else {
        reason = "写章被拦：剧情卡「".to_owned();
        reason.push_str(title.as_str());
        reason.push_str("」尚未激活");
    }
    Offer::Ask(
        StudioRequest {
            project,
            reason,
            context: StudioNextContext::PlotWrite {
                kind: data.str_or_empty("reason"),
                title,
                volume,
            },
            outline_rewrite: false,
        },
    )
}

/// Asks the studio about a chapter that has a draft already.
pub fn maybe_offer_draft_exists(tool: &str, args: &Json, data: &Json) -> (r: Offer)
    ensures
        r@ == draft_offer(tool@, args@, data@),
{
    if !is_write_blocked(tool, data, "draft_exists_without_chapter") {
        return Offer::Nothing;
    }
    let project = json::project_from(data, args);
    let chapter: u32 = json::get_u64_or(data, "chapter", 0) as u32;
    let suggest: u32 = match data.get_u64("suggest_chapter") {
        Some(n) => n as u32,
        None => chapter.saturating_add(1),
    };
    if project.as_str().is_empty() || chapter == 0 {
        return Offer::Nothing;
    }
    Offer::Ask(draft_exists_request(project.as_str(), chapter, suggest))
}

/// Asks the studio for the next step after a setting or outline took effect.
pub fn maybe_offer_mutation_followup(tool: &str, args: &Json, data: &Json) -> (r: Offer)
    ensures
        r@ == followup_offer(tool@, args@, data@),
{
    if !thread_state::is_structure_mutation_tool(tool) || data.is_true("needs_confirm")
        || data.is_true("blocked") {
        return Offer::Nothing;
    }
    let project = json::project_from(args, data);
    if project.as_str().is_empty() {
        return Offer::Nothing;
    }
    let mut reason = "「".to_owned();
    reason.push_str(tool);
    reason.push_str("」已落盘，请给出未完成计划的下一步");
    Offer::Ask(
        StudioRequest {
            project,
            reason,
            context: StudioNextContext::Mutation { apply_tool: tool.to_owned() },
            outline_rewrite: is_outline_tool(tool) || text::same(tool, "upsert_setting"),
        },
    )
}

} // verus!
