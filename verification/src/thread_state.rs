//! What a thread waits for: the cards that are open and the plans behind them.

use vstd::prelude::*;

use crate::audit_decisions;
use crate::audit_decisions::{AuditDecisionOption, DecisionV};
use crate::gates;
use crate::gates::{UserInputOption, UserInputOptionV};
use crate::issues;
use crate::issues::{AuditIssue, IssueV};
use crate::json;
use crate::json::{Json, JsonV};
use crate::text;

verus! {

/// An optional value by contents.
pub open spec fn opt_view<T: View>(o: Option<T>) -> Option<T::V> {
    match o {
        Some(x) => Some(x@),
        None => None,
    }
}

/// What an audit gate is about.
#[derive(Clone, Copy, Debug, PartialEq, Eq, Structural)]
pub enum AuditGateKind {
    /// Issues of the chapter: revise or accept.
    Content,
    /// The audit itself failed: only retry.
    Infra,
}

impl Default for AuditGateKind {
    fn default() -> (r: AuditGateKind)
        ensures
            r == AuditGateKind::Content,
    {
        AuditGateKind::Content
    }
}

/// A failed audit that waits for a decision.
pub struct PendingAudit {
    pub project: String,
    pub chapter: u32,
    pub kind: AuditGateKind,
    pub issues: Vec<AuditIssue>,
    pub decision_options: Vec<AuditDecisionOption>,
    /// The studio may still offer its own card.
    pub awaiting_offer: bool,
}

/// A failed audit that waits, by contents.
pub struct PendingAuditV {
    pub project: Seq<char>,
    pub chapter: u32,
    pub kind: AuditGateKind,
    pub issues: Seq<IssueV>,
    pub decision_options: Seq<DecisionV>,
    pub awaiting_offer: bool,
}

impl View for PendingAudit {
    type V = PendingAuditV;

    open spec fn view(&self) -> PendingAuditV {
        PendingAuditV {
            project: self.project@,
            chapter: self.chapter,
            kind: self.kind,
            issues: issues::issue_list(self.issues@),
            decision_options: audit_decisions::decision_list(self.decision_options@),
            awaiting_offer: self.awaiting_offer,
        }
    }
}

/// A gap in the settings that the author must deal with.
pub struct PendingSettingBlocker {
    pub project: String,
    pub chapter: u32,
    pub detail: String,
    /// Afterwards the card of the chapter opens again.
    pub resume_chapter_next: bool,
    pub published: bool,
    pub plot_accept_open: bool,
    pub content_blocked: bool,
    pub revise_instructions: Option<String>,
    /// Afterwards the handoff to the next volume is offered.
    pub offer_volume_handoff_after: bool,
}

/// A gap in the settings, by contents.
pub struct SettingBlockerV {
    pub project: Seq<char>,
    pub chapter: u32,
    pub detail: Seq<char>,
    pub resume_chapter_next: bool,
    pub published: bool,
    pub plot_accept_open: bool,
    pub content_blocked: bool,
    pub revise_instructions: Option<Seq<char>>,
    pub offer_volume_handoff_after: bool,
}

impl View for PendingSettingBlocker {
    type V = SettingBlockerV;

    open spec fn view(&self) -> SettingBlockerV {
        SettingBlockerV {
            project: self.project@,
            chapter: self.chapter,
            detail: self.detail@,
            resume_chapter_next: self.resume_chapter_next,
            published: self.published,
            plot_accept_open: self.plot_accept_open,
            content_blocked: self.content_blocked,
            revise_instructions: text::opt_text(self.revise_instructions),
            offer_volume_handoff_after: self.offer_volume_handoff_after,
        }
    }
}

/// A volume that ended and waits to be synchronised.
pub struct PendingVolumeSync {
    pub project: String,
    pub volume: u32,
    pub name: String,
    /// A gap in the settings that is dealt with afterwards.
    pub deferred_setting_blocker: Option<PendingSettingBlocker>,
}

/// A volume that waits to be synchronised, by contents.
pub struct VolumeSyncV {
    pub project: Seq<char>,
    pub volume: u32,
    pub name: Seq<char>,
    pub deferred_setting_blocker: Option<SettingBlockerV>,
}

impl View for PendingVolumeSync {
    type V = VolumeSyncV;

    open spec fn view(&self) -> VolumeSyncV {
        VolumeSyncV {
            project: self.project@,
            volume: self.volume,
            name: self.name@,
            deferred_setting_blocker: opt_view(self.deferred_setting_blocker),
        }
    }
}

/// A volume audit that waits for a choice.
pub struct PendingVolumeAudit {
    pub project: String,
    pub volume: u32,
    pub chapters: Vec<u32>,
}

/// A volume audit that waits, by contents.
pub struct VolumeAuditV {
    pub project: Seq<char>,
    pub volume: u32,
    pub chapters: Seq<u32>,
}

impl View for PendingVolumeAudit {
    type V = VolumeAuditV;

    open spec fn view(&self) -> VolumeAuditV {
        VolumeAuditV { project: self.project@, volume: self.volume, chapters: self.chapters@ }
    }
}

/// A step of the setup that waits.
pub struct PendingSetup {
    pub project: String,
    /// `need_brief`, `need_master`, `need_arc`, `need_bible` or `confirm`.
    pub next: String,
}

/// A step of the setup that waits, by contents.
pub struct SetupV {
    pub project: Seq<char>,
    pub next: Seq<char>,
}

impl View for PendingSetup {
    type V = SetupV;

    open spec fn view(&self) -> SetupV {
        SetupV { project: self.project@, next: self.next@ }
    }
}

/// The step of the setup where none is written down.
pub fn default_setup_next() -> (r: String)
    ensures
        r@ == "confirm"@,
{
    "confirm".to_owned()
}

/// The step between two volumes that waits.
pub struct PendingVolumeHandoff {
    pub project: String,
    /// `awaiting_next_arc` or `awaiting_next_plot`.
    pub phase: String,
    pub volume: u32,
    pub title: String,
    /// Why the last attempt failed.
    pub last_error: String,
}

/// The step between two volumes that waits, by contents.
pub struct VolumeHandoffV {
    pub project: Seq<char>,
    pub phase: Seq<char>,
    pub volume: u32,
    pub title: Seq<char>,
    pub last_error: Seq<char>,
}

impl View for PendingVolumeHandoff {
    type V = VolumeHandoffV;

    open spec fn view(&self) -> VolumeHandoffV {
        VolumeHandoffV {
            project: self.project@,
            phase: self.phase@,
            volume: self.volume,
            title: self.title@,
            last_error: self.last_error@,
        }
    }
}

/// The choice after a chapter.
pub struct PendingChapterNext {
    pub project: String,
    pub chapter: u32,
    pub published: bool,
    pub plot_accept_open: bool,
    /// The chapter to write instead, where the draft was there already.
    pub suggest_next: Option<u32>,
    pub revise_instructions: Option<String>,
}

/// The choice after a chapter, by contents.
pub struct ChapterNextV {
    pub project: Seq<char>,
    pub chapter: u32,
    pub published: bool,
    pub plot_accept_open: bool,
    pub suggest_next: Option<u32>,
    pub revise_instructions: Option<Seq<char>>,
}

impl View for PendingChapterNext {
    type V = ChapterNextV;

    open spec fn view(&self) -> ChapterNextV {
        ChapterNextV {
            project: self.project@,
            chapter: self.chapter,
            published: self.published,
            plot_accept_open: self.plot_accept_open,
            suggest_next: self.suggest_next,
            revise_instructions: text::opt_text(self.revise_instructions),
        }
    }
}

/// A chapter was skipped; the next one in order is offered.
pub struct PendingChapterOrder {
    pub project: String,
    pub next_chapter: u32,
}

/// The chapter that is next in order, by contents.
pub struct ChapterOrderV {
    pub project: Seq<char>,
    pub next_chapter: u32,
}

impl View for PendingChapterOrder {
    type V = ChapterOrderV;

    open spec fn view(&self) -> ChapterOrderV {
        ChapterOrderV { project: self.project@, next_chapter: self.next_chapter }
    }
}

/// A change that waits for confirmation.
pub struct PendingMutation {
    pub mutation_id: String,
    pub mutation_kind: String,
    pub summary: String,
    pub apply_tool: String,
    pub apply_args: Json,
    pub preview: Json,
    /// Audit the chapter once the change took effect.
    pub reaudit_after: bool,
}

/// A change that waits, by contents.
pub struct MutationV {
    pub mutation_id: Seq<char>,
    pub mutation_kind: Seq<char>,
    pub summary: Seq<char>,
    pub apply_tool: Seq<char>,
    pub apply_args: JsonV,
    pub preview: JsonV,
    pub reaudit_after: bool,
}

impl View for PendingMutation {
    type V = MutationV;

    open spec fn view(&self) -> MutationV {
        MutationV {
            mutation_id: self.mutation_id@,
            mutation_kind: self.mutation_kind@,
            summary: self.summary@,
            apply_tool: self.apply_tool@,
            apply_args: self.apply_args@,
            preview: self.preview@,
            reaudit_after: self.reaudit_after,
        }
    }
}

/// What an applied change affects, waiting for a choice.
pub struct PendingImpact {
    pub project: String,
    pub source: Json,
    pub hits: Vec<Json>,
    pub summary_markdown: String,
    pub entity_gaps_count: usize,
    /// The tool whose change was applied, and what it took and gave.
    pub resume_tool: String,
    pub resume_args: Json,
    pub resume_data: Json,
}

/// What an applied change affects, by contents.
pub struct ImpactV {
    pub project: Seq<char>,
    pub source: JsonV,
    pub hits: Seq<JsonV>,
    pub summary_markdown: Seq<char>,
    pub entity_gaps_count: usize,
    pub resume_tool: Seq<char>,
    pub resume_args: JsonV,
    pub resume_data: JsonV,
}

impl View for PendingImpact {
    type V = ImpactV;

    open spec fn view(&self) -> ImpactV {
        ImpactV {
            project: self.project@,
            source: self.source@,
            hits: json::items(self.hits@),
            summary_markdown: self.summary_markdown@,
            entity_gaps_count: self.entity_gaps_count,
            resume_tool: self.resume_tool@,
            resume_args: self.resume_args@,
            resume_data: self.resume_data@,
        }
    }
}

/// A card of next steps that the studio offered.
pub struct PendingStudioNext {
    pub prompt: String,
    pub options: Vec<UserInputOption>,
}

/// A card of next steps, by contents.
pub struct StudioNextV {
    pub prompt: Seq<char>,
    pub options: Seq<UserInputOptionV>,
}

impl View for PendingStudioNext {
    type V = StudioNextV;

    open spec fn view(&self) -> StudioNextV {
        StudioNextV { prompt: self.prompt@, options: gates::buttons(self.options@) }
    }
}

/// Everything that a thread waits for.
pub struct ThreadState {
    pub project: Option<String>,
    pub pending_audit: Option<PendingAudit>,
    pub pending_volume_sync: Option<PendingVolumeSync>,
    pub pending_volume_audit: Option<PendingVolumeAudit>,
    pub pending_setup: Option<PendingSetup>,
    pub pending_volume_handoff: Option<PendingVolumeHandoff>,
    pub pending_chapter_next: Option<PendingChapterNext>,
    pub pending_chapter_order: Option<PendingChapterOrder>,
    /// A plot card must be activated or designed first.
    pub pending_plot_write: bool,
    /// An expected event must be reviewed or decided first.
    pub pending_expected_event: bool,
    pub pending_setting_blocker: bool,
    /// Expected events that the author passed over in this session.
    pub skipped_expected_ids: Vec<String>,
    pub pending_mutation: Option<PendingMutation>,
    /// A step after a change is owed.
    pub pending_mutation_followup: bool,
    pub pending_studio_next: Option<PendingStudioNext>,
    /// The studio was asked for a card of next steps.
    pub awaiting_studio_next: bool,
    /// An outline is being rewritten.
    pub outline_rewrite_active: bool,
    pub pending_impact: Option<PendingImpact>,
}

/// Everything that a thread waits for, by contents.
pub struct ThreadV {
    pub project: Option<Seq<char>>,
    pub pending_audit: Option<PendingAuditV>,
    pub pending_volume_sync: Option<VolumeSyncV>,
    pub pending_volume_audit: Option<VolumeAuditV>,
    pub pending_setup: Option<SetupV>,
    pub pending_volume_handoff: Option<VolumeHandoffV>,
    pub pending_chapter_next: Option<ChapterNextV>,
    pub pending_chapter_order: Option<ChapterOrderV>,
    pub pending_plot_write: bool,
    pub pending_expected_event: bool,
    pub pending_setting_blocker: bool,
    pub skipped_expected_ids: Seq<Seq<char>>,
    pub pending_mutation: Option<MutationV>,
    pub pending_mutation_followup: bool,
    pub pending_studio_next: Option<StudioNextV>,
    pub awaiting_studio_next: bool,
    pub outline_rewrite_active: bool,
    pub pending_impact: Option<ImpactV>,
}

impl View for ThreadState {
    type V = ThreadV;

    open spec fn view(&self) -> ThreadV {
        ThreadV {
            project: text::opt_text(self.project),
            pending_audit: opt_view(self.pending_audit),
            pending_volume_sync: opt_view(self.pending_volume_sync),
            pending_volume_audit: opt_view(self.pending_volume_audit),
            pending_setup: opt_view(self.pending_setup),
            pending_volume_handoff: opt_view(self.pending_volume_handoff),
            pending_chapter_next: opt_view(self.pending_chapter_next),
            pending_chapter_order: opt_view(self.pending_chapter_order),
            pending_plot_write: self.pending_plot_write,
            pending_expected_event: self.pending_expected_event,
            pending_setting_blocker: self.pending_setting_blocker,
            skipped_expected_ids: text::texts(self.skipped_expected_ids@),
            pending_mutation: opt_view(self.pending_mutation),
            pending_mutation_followup: self.pending_mutation_followup,
            pending_studio_next: opt_view(self.pending_studio_next),
            awaiting_studio_next: self.awaiting_studio_next,
            outline_rewrite_active: self.outline_rewrite_active,
            pending_impact: opt_view(self.pending_impact),
        }
    }
}

impl ThreadV {
    /// A card is open that stops the thread until someone answers.
    pub open spec fn awaiting_human(self) -> bool {
        self.pending_audit is Some || self.pending_volume_sync is Some || self.pending_setup is Some
            || self.pending_volume_handoff is Some || self.pending_chapter_next is Some
            || self.pending_chapter_order is Some || self.pending_mutation is Some
            || self.pending_studio_next is Some || self.pending_impact is Some
    }

    /// No card is open that would claim a typed answer.
    pub open spec fn unblocked(self) -> bool {
        self.pending_audit is None && self.pending_volume_audit is None
            && self.pending_chapter_next is None && self.pending_setup is None
            && self.pending_volume_handoff is None && self.pending_mutation is None
            && self.pending_chapter_order is None
    }

    /// A card is open whose buttons a client's timeline may keep.
    pub open spec fn keeps_approvals(self) -> bool {
        self.pending_audit is Some || self.pending_volume_sync is Some
            || self.pending_volume_audit is Some || self.pending_setup is Some
            || self.pending_volume_handoff is Some || self.pending_chapter_next is Some
            || self.pending_chapter_order is Some || self.pending_mutation is Some
            || self.pending_impact is Some
    }

    /// A card is open that the card after a chapter must not cover.
    pub open spec fn outranks_chapter_next(self) -> bool {
        self.pending_audit is Some || self.pending_volume_sync is Some
            || self.pending_volume_audit is Some || self.pending_setup is Some
            || self.pending_volume_handoff is Some || self.pending_mutation is Some
            || self.pending_impact is Some || self.pending_chapter_order is Some
            || self.pending_setting_blocker
    }

    /// The thread with nothing open.
    pub open spec fn idle(project: Option<Seq<char>>) -> ThreadV {
        ThreadV {
            project,
            pending_audit: None,
            pending_volume_sync: None,
            pending_volume_audit: None,
            pending_setup: None,
            pending_volume_handoff: None,
            pending_chapter_next: None,
            pending_chapter_order: None,
            pending_plot_write: false,
            pending_expected_event: false,
            pending_setting_blocker: false,
            skipped_expected_ids: Seq::empty(),
            pending_mutation: None,
            pending_mutation_followup: false,
            pending_studio_next: None,
            awaiting_studio_next: false,
            outline_rewrite_active: false,
            pending_impact: None,
        }
    }

    /// The thread at the start of a new chapter: the cards of the work before
    /// are gone; setup and the steps between volumes stay.
    pub open spec fn cleared_for_chapter(self) -> ThreadV {
        ThreadV {
            pending_audit: None,
            pending_volume_audit: None,
            pending_chapter_next: None,
            pending_chapter_order: None,
            pending_plot_write: false,
            pending_expected_event: false,
            pending_setting_blocker: false,
            pending_mutation: None,
            pending_mutation_followup: false,
            pending_studio_next: None,
            awaiting_studio_next: false,
            outline_rewrite_active: false,
            pending_impact: None,
            ..self
        }
    }
}

/// The tool changes the settings or an outline.
pub open spec fn structure_tool(t: Seq<char>) -> bool {
    t == "upsert_setting"@ || t == "supplement_setting"@ || t == "design_entity"@ || t
        == "delete_entity"@ || t == "design_master_outline"@ || t == "design_arc_outline"@
}

/// Whether the tool changes the settings or an outline.
pub fn is_structure_mutation_tool(tool_name: &str) -> (r: bool)
    ensures
        r == structure_tool(tool_name@),
{
    text::same(tool_name, "upsert_setting") || text::same(tool_name, "supplement_setting")
        || text::same(tool_name, "design_entity") || text::same(tool_name, "delete_entity")
        || text::same(tool_name, "design_master_outline") || text::same(
        tool_name,
        "design_arc_outline",
    )
}

/// The message tells of an outline that was not applied.
pub open spec fn outline_trouble(c: Seq<char>) -> bool {
    (text::occurs(c, "总纲"@) || text::occurs(c, "卷纲"@) || text::occurs(c, "master_outline"@))
        && (text::occurs(c, "未进入可应用"@) || text::occurs(c, "请选择：继续未完成步骤"@)
        || text::occurs(c, "结构/设定审计仍有 BLOCKER"@) || (text::occurs(c, "BLOCKER"@)
        && text::occurs(c, "结构审计"@)))
}

/// One of the last ten messages tells of an outline that was not applied.
pub open spec fn recent_outline_trouble(messages: Seq<Seq<char>>) -> bool {
    exists|i: int|
        0 <= i < messages.len() && messages.len() - 10 <= i && outline_trouble(
            #[trigger] messages[i],
        )
}

/// A plain "continue" would jump past work on an outline.
pub open spec fn outline_blocks(s: ThreadV, messages: Seq<Seq<char>>) -> bool {
    s.outline_rewrite_active || s.pending_studio_next is Some || s.awaiting_studio_next
        || s.pending_mutation_followup || (s.pending_mutation matches Some(m) && structure_tool(
        m.apply_tool,
    )) || recent_outline_trouble(messages)
}

fn is_outline_trouble(c: &str) -> (r: bool)
    ensures
        r == outline_trouble(c@),
{
    (text::contains(c, "总纲") || text::contains(c, "卷纲") || text::contains(
        c,
        "master_outline",
    )) && (text::contains(c, "未进入可应用") || text::contains(
        c,
        "请选择：继续未完成步骤",
    ) || text::contains(c, "结构/设定审计仍有 BLOCKER") || (text::contains(c, "BLOCKER")
        && text::contains(c, "结构审计")))
}

impl ThreadState {
    /// A thread with nothing open.
    pub fn new(project: Option<String>) -> (r: ThreadState)
        ensures
            r@ == ThreadV::idle(text::opt_text(project)),
    {
        let r = ThreadState {
            project,
            pending_audit: None,
            pending_volume_sync: None,
            pending_volume_audit: None,
            pending_setup: None,
            pending_volume_handoff: None,
            pending_chapter_next: None,
            pending_chapter_order: None,
            pending_plot_write: false,
            pending_expected_event: false,
            pending_setting_blocker: false,
            skipped_expected_ids: Vec::new(),
            pending_mutation: None,
            pending_mutation_followup: false,
            pending_studio_next: None,
            awaiting_studio_next: false,
            outline_rewrite_active: false,
            pending_impact: None,
        };
        assert(r@.skipped_expected_ids =~= Seq::<Seq<char>>::empty());
        r
    }

    /// Whether a card is open that stops the thread until someone answers.
    pub fn thread_awaiting_human(&self) -> (r: bool)
        ensures
            r == self@.awaiting_human(),
    {
        self.pending_audit.is_some() || self.pending_volume_sync.is_some()
            || self.pending_setup.is_some() || self.pending_volume_handoff.is_some()
            || self.pending_chapter_next.is_some() || self.pending_chapter_order.is_some()
            || self.pending_mutation.is_some() || self.pending_studio_next.is_some()
            || self.pending_impact.is_some()
    }

    /// Whether no card is open that would claim a typed answer.
    pub fn no_blocking_gate(&self) -> (r: bool)
        ensures
            r == self@.unblocked(),
    {
        self.pending_audit.is_none() && self.pending_volume_audit.is_none()
            && self.pending_chapter_next.is_none() && self.pending_setup.is_none()
            && self.pending_volume_handoff.is_none() && self.pending_mutation.is_none()
            && self.pending_chapter_order.is_none()
    }

    /// Whether a client's timeline keeps its buttons: a card is open, or an
    /// audit queue is running.
    pub fn keeps_ui_approvals(&self, queue_active: bool) -> (r: bool)
        ensures
            r == (self@.keeps_approvals() || queue_active),
    {
        self.pending_audit.is_some() || self.pending_volume_sync.is_some()
            || self.pending_volume_audit.is_some() || self.pending_setup.is_some()
            || self.pending_volume_handoff.is_some() || self.pending_chapter_next.is_some()
            || self.pending_chapter_order.is_some() || self.pending_mutation.is_some()
            || self.pending_impact.is_some() || queue_active
    }

    /// Whether a card is open that the card after a chapter must not cover.
    pub fn is_outranking_chapter_next(&self) -> (r: bool)
        ensures
            r == self@.outranks_chapter_next(),
    {
        self.pending_audit.is_some() || self.pending_volume_sync.is_some()
            || self.pending_volume_audit.is_some() || self.pending_setup.is_some()
            || self.pending_volume_handoff.is_some() || self.pending_mutation.is_some()
            || self.pending_impact.is_some() || self.pending_chapter_order.is_some()
            || self.pending_setting_blocker
    }

    /// Drops the cards of the work before, at the start of a new chapter.
    pub fn begin_new_chapter(&mut self)
        ensures
            final(self)@ == old(self)@.cleared_for_chapter(),
    {
        self.pending_audit = None;
        self.pending_volume_audit = None;
        self.pending_chapter_next = None;
        self.pending_chapter_order = None;
        self.pending_plot_write = false;
        self.pending_expected_event = false;
        self.pending_setting_blocker = false;
        self.pending_mutation = None;
        self.pending_mutation_followup = false;
        self.pending_studio_next = None;
        self.awaiting_studio_next = false;
        self.outline_rewrite_active = false;
        self.pending_impact = None;
    }

    /// Whether a plain "continue" would jump past work on an outline.
    pub fn outline_rewrite_blocks_bare_continue(&self, messages: &Vec<String>) -> (r: bool)
        ensures
            r == outline_blocks(self@, text::texts(messages@)),
    {
        if self.outline_rewrite_active || self.pending_studio_next.is_some()
            || self.awaiting_studio_next || self.pending_mutation_followup {
            return true;
        }
        match &self.pending_mutation {
            Some(m) => {
                if is_structure_mutation_tool(m.apply_tool.as_str()) {
                    return true;
                }
            },
            None => {},
        }
        let ghost mv = text::texts(messages@);
        let from: usize = if messages.len() > 10 {
            messages.len() - 10
        } else {
            0
        };
        let mut i: usize = from;
        while i < messages.len()
            invariant
                from <= i <= messages.len(),
                from == if messages.len() > 10 {
                    messages.len() - 10
                } else {
                    0
                },
                mv == text::texts(messages@),
                forall|j: int| from <= j < i ==> !outline_trouble(#[trigger] mv[j]),
            decreases messages.len() - i,
        {
            assert(mv[i as int] == messages@[i as int]@);
            if is_outline_trouble(messages[i].as_str()) {
                assert(outline_trouble(mv[i as int]));
                return true;
            }
            i = i + 1;
        }
        false
    }
}

/// A thread at the start of a new chapter waits only for the setup or for a step
/// between volumes.
pub proof fn new_chapter_clears_cards(s: ThreadV)
    ensures
        s.cleared_for_chapter().awaiting_human() == (s.pending_volume_sync is Some
            || s.pending_setup is Some || s.pending_volume_handoff is Some),
        s.cleared_for_chapter().skipped_expected_ids == s.skipped_expected_ids,
        s.cleared_for_chapter().project == s.project,
        !outline_blocks(s.cleared_for_chapter(), Seq::empty()),
{
}

} // verus!
