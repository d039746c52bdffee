//! The choice after a chapter, and gaps in the settings that come before it.

use vstd::prelude::*;

use crate::gates;
use crate::gates::{GateCatalog, GateV};
use crate::intent;
use crate::json;
use crate::json::{Json, JsonV};
use crate::offers;
use crate::offers::{
    Card, ContextV, Offer, OfferV, StudioNextContext, StudioRequest, StudioRequestV,
};
use crate::prompts;
use crate::text;
use crate::thread_state::{
    ChapterNextV, PendingChapterNext, PendingSettingBlocker, SettingBlockerV, ThreadState, ThreadV,
};
use crate::volume;
use crate::volume::{FactsV, VolumeFacts, VolumePhase};

verus! {

/// What is known of a chapter's text.
pub struct ChapterFacts {
    /// The range of lengths that a chapter must keep to, in words.
    pub range_label: String,
    pub draft: String,
    /// The rules that each line of the draft breaks.
    pub line_rules: Vec<Vec<String>>,
}

/// What is known of a chapter's text, by contents.
pub struct ChapterFactsV {
    pub range_label: Seq<char>,
    pub draft: Seq<char>,
    pub line_rules: Seq<Seq<Seq<char>>>,
}

impl View for ChapterFacts {
    type V = ChapterFactsV;

    open spec fn view(&self) -> ChapterFactsV {
        ChapterFactsV {
            range_label: self.range_label@,
            draft: self.draft@,
            line_rules: intent::group_texts(self.line_rules@),
        }
    }
}

/// The chapter was published with its plot card left open.
pub open spec fn plot_open(data: JsonV) -> bool {
    data.flag("published"@) && data.denied("plot_accept_passed"@)
}

/// What to revise, given why the chapter stands as it does.
pub open spec fn revise_text(data: JsonV, chapter: u32, facts: ChapterFactsV) -> Option<Seq<char>> {
    let message = data.text_or_empty("message"@);
    if prompts::length_blocked(data) {
        Some(prompts::length_text(facts.range_label, message))
    } else if data.flag("content_rule_blocked"@) {
        Some(
            prompts::hard_rule_text(
                chapter,
                message,
                data.text_or_empty("report"@),
                text::lines_of(facts.draft),
                facts.line_rules,
            ),
        )
    } else if plot_open(data) {
        Some(prompts::closing_text(data.text_or_empty("plot_accept_rationale"@)))
    } else {
        None
    }
}

/// The chapter came to an end that the author can go on from.
pub open spec fn chapter_settled(data: JsonV) -> bool {
    data.flag("published"@) || data.flag("content_rule_blocked"@) || prompts::length_blocked(data)
}

/// The prompt after a chapter.
pub open spec fn after_chapter_prompt(data: JsonV, chapter: u32) -> Seq<char> {
    let message = data.text_or_empty("message"@);
    if data.flag("published"@) {
        prompts::published_prompt(chapter, plot_open(data))
    } else if prompts::length_blocked(data) {
        prompts::length_prompt(chapter, message)
    } else {
        prompts::hard_rule_prompt(chapter, message)
    }
}

/// The tool leaves a chapter written or audited.
pub open spec fn chapter_tool(t: Seq<char>) -> bool {
    t == "continue_writing"@ || t == "revise_chapter"@ || t == "audit_chapter"@ || t
        == "audit_chapters"@
}

/// The choice after a chapter: write on after a published one, revise one that
/// its length or a hard rule stopped. No other card is covered by it.
pub open spec fn chapter_next_offer(
    s: ThreadV,
    c: Seq<GateV>,
    tool: Seq<char>,
    args: JsonV,
    data: JsonV,
    facts: ChapterFactsV,
) -> (ThreadV, OfferV) {
    let project = json::project_in(data, args);
    let chapter = json::uint_in(data, args, "chapter"@, 0) as u32;
    let published = data.flag("published"@);
    let options = gates::chapter_next_buttons(c, published, plot_open(data));
    if !chapter_tool(tool) || data.flag("blocked"@) || s.outranks_chapter_next() || project.len()
        == 0 || chapter == 0 || !chapter_settled(data) || options.len() == 0 {
        (s, OfferV::Nothing)
    } else {
        (
            ThreadV {
                pending_chapter_next: Some(
                    ChapterNextV {
                        project,
                        chapter,
                        published,
                        plot_accept_open: plot_open(data),
                        suggest_next: None,
                        revise_instructions: revise_text(data, chapter, facts),
                    },
                ),
                ..s
            },
            OfferV::Open(offers::plain_card(after_chapter_prompt(data, chapter), options)),
        )
    }
}

/// The request about a gap in the settings.
pub open spec fn blocker_request(b: SettingBlockerV) -> StudioRequestV {
    StudioRequestV {
        project: b.project,
        reason: if b.chapter > 0 {
            "第"@ + text::dec(b.chapter as nat) + "章剧情后设定审计出现 BLOCKER："@ + b.detail
        } else {
            "设定审计出现 BLOCKER："@ + b.detail
        },
        context: ContextV::SettingBlocker { blocker: b },
        outline_rewrite: false,
    }
}

/// A gap in the settings after a chapter goes to the studio, unless the chapter
/// ended a volume.
pub open spec fn setting_blocker_offer(
    tool: Seq<char>,
    args: JsonV,
    data: JsonV,
    facts: ChapterFactsV,
) -> OfferV {
    let project = json::project_in(data, args);
    let chapter = json::uint_in(data, args, "chapter"@, 0) as u32;
    if !volume::ending_tool(tool) || !data.flag("plot_setting_blocker"@) || data.uint(
        "volume_ended"@,
    ) is Some || project.len() == 0 {
        OfferV::Nothing
    } else {
        OfferV::Ask(
            blocker_request(
                SettingBlockerV {
                    project,
                    chapter,
                    detail: text::first_chars(data.text_or_empty("setting_blocker_detail"@), 240),
                    resume_chapter_next: chapter > 0 && chapter_settled(data),
                    published: data.flag("published"@),
                    plot_accept_open: plot_open(data),
                    content_blocked: data.flag("content_rule_blocked"@),
                    revise_instructions: revise_text(data, chapter, facts),
                    offer_volume_handoff_after: false,
                },
            ),
        )
    }
}

/// The instructions ask for a longer chapter.
pub open spec fn lengthens(instructions: Option<Seq<char>>) -> bool {
    instructions matches Some(s) && (text::occurs(s, "扩写到"@) || text::occurs(s, "完整一章"@))
}

/// The prompt after a hard rule stopped a chapter, without its points.
pub open spec fn rule_stop_prompt(chapter: u32) -> Seq<char> {
    "第"@ + text::dec(chapter as nat)
        + "章因硬规则未发布。请选择：修正本章；也可点「其他」说明要求。"@
}

/// The choice after a chapter, opened again.
pub open spec fn chapter_next_opened(
    s: ThreadV,
    c: Seq<GateV>,
    b: SettingBlockerV,
) -> (ThreadV, OfferV) {
    let options = gates::chapter_next_buttons(c, b.published, b.plot_accept_open);
    if b.project.len() == 0 || b.chapter == 0 || (!b.published && !b.content_blocked
        && b.revise_instructions is None) || s.outranks_chapter_next() || options.len() == 0 {
        (s, OfferV::Nothing)
    } else {
        (
            ThreadV {
                pending_chapter_next: Some(
                    ChapterNextV {
                        project: b.project,
                        chapter: b.chapter,
                        published: b.published,
                        plot_accept_open: b.plot_accept_open,
                        suggest_next: None,
                        revise_instructions: b.revise_instructions,
                    },
                ),
                ..s
            },
            OfferV::Open(
                offers::plain_card(
                    if b.published {
                        prompts::published_prompt(b.chapter, b.plot_accept_open)
                    } else if lengthens(b.revise_instructions) {
                        prompts::length_prompt(b.chapter, "正文字数未达发布门槛"@)
                    } else {
                        rule_stop_prompt(b.chapter)
                    },
                    options,
                ),
            ),
        )
    }
}

/// What follows once a gap in the settings is dealt with: the choice after the
/// chapter, or else the handoff to the next volume.
pub open spec fn blocker_followup(
    s: ThreadV,
    enforce: bool,
    c: Seq<GateV>,
    b: SettingBlockerV,
    facts: FactsV,
) -> (ThreadV, OfferV) {
    let again = chapter_next_opened(s, c, b);
    if b.resume_chapter_next && b.chapter > 0 && !(again.1 is Nothing) {
        again
    } else if b.offer_volume_handoff_after && b.project.len() > 0 {
        volume::handoff_opened(s, enforce, c, b.project, VolumePhase::AwaitingNextArc, facts, None)
    } else {
        (s, OfferV::Nothing)
    }
}

/// The choice after a chapter opens only where no other card is open.
pub proof fn chapter_next_covers_nothing(
    s: ThreadV,
    c: Seq<GateV>,
    tool: Seq<char>,
    args: JsonV,
    data: JsonV,
    facts: ChapterFactsV,
)
    ensures
        ({
            let after = chapter_next_offer(s, c, tool, args, data, facts);
            &&& after.1 is Open ==> s.pending_audit is None && s.pending_volume_sync is None
                && s.pending_volume_handoff is None && s.pending_setup is None
                && s.pending_mutation is None && s.pending_impact is None
                && s.pending_chapter_order is None
            &&& after.1 is Nothing ==> after.0 == s
            &&& after.0 == (ThreadV { pending_chapter_next: after.0.pending_chapter_next, ..s })
            &&& after.1 is Open ==> after.0.pending_chapter_next is Some
        }),
{
}

/// A gap in the settings found as a volume ends is asked about once: the end of
/// the volume keeps it for later, and nothing is asked of the studio now.
pub proof fn volume_end_defers_blocker(
    s: ThreadV,
    c: Seq<GateV>,
    tool: Seq<char>,
    args: JsonV,
    data: JsonV,
    facts: ChapterFactsV,
    memory: Seq<char>,
)
    requires
        data.uint("volume_ended"@) is Some,
        data.flag("plot_setting_blocker"@),
    ensures
        setting_blocker_offer(tool, args, data, facts) is Nothing,
        ({
            let after = volume::volume_sync_offer(s, c, tool, args, data, memory);
            after.1 is Open ==> (after.0.pending_volume_sync matches Some(p)
                && p.deferred_setting_blocker matches Some(b) && b.offer_volume_handoff_after
                && b.project == p.project)
        }),
{
}

fn is_plot_open(data: &Json) -> (r: bool)
    ensures
        r == plot_open(data@),
{
    data.is_true("published") && data.is_false("plot_accept_passed")
}

fn revise_instructions_for(data: &Json, chapter: u32, facts: &ChapterFacts) -> (r: Option<String>)
    ensures
        text::opt_text(r) == revise_text(data@, chapter, facts@),
{
    let message = data.str_or_empty("message");
    if prompts::is_length_publish_blocked(data) {
        Some(prompts::length_revise_instructions(facts.range_label.as_str(), message.as_str()))
    } else if data.is_true("content_rule_blocked") {
        let report = data.str_or_empty("report");
        Some(
            prompts::hard_rule_revise_instructions(
                chapter,
                message.as_str(),
                report.as_str(),
                facts.draft.as_str(),
                &facts.line_rules,
            ),
        )
    } else if is_plot_open(data) {
        let rationale = data.str_or_empty("plot_accept_rationale");
        Some(prompts::closing_instructions(rationale.as_str()))
    } else {
        None
    }
}

fn is_settled(data: &Json) -> (r: bool)
    ensures
        r == chapter_settled(data@),
{
    data.is_true("published") || data.is_true("content_rule_blocked")
        || prompts::is_length_publish_blocked(data)
}

/// The prompt after a hard rule stopped a chapter, without its points.
pub fn rule_stop(chapter: u32) -> (r: String)
    ensures
        r@ == rule_stop_prompt(chapter),
{
    let mut s = "第".to_owned();
    s.push_str(text::number(chapter as u64).as_str());
    s.push_str("章因硬规则未发布。请选择：修正本章；也可点「其他」说明要求。");
    s
}

impl PendingSettingBlocker {
    /// A copy of the gap.
    pub fn copy(&self) -> (r: PendingSettingBlocker)
        ensures
            r@ == self@,
    {
        PendingSettingBlocker {
            project: self.project.clone(),
            chapter: self.chapter,
            detail: self.detail.clone(),
            resume_chapter_next: self.resume_chapter_next,
            published: self.published,
            plot_accept_open: self.plot_accept_open,
            content_blocked: self.content_blocked,
            revise_instructions: text::clone_opt(&self.revise_instructions),
            offer_volume_handoff_after: self.offer_volume_handoff_after,
        }
    }
}

/// Asks the studio about a gap in the settings.
pub fn offer_setting_blocker_gate(pending: PendingSettingBlocker) -> (r: StudioRequest)
    ensures
        r@ == blocker_request(pending@),
{
    let mut reason: String;
    if pending.chapter > 0 {
        reason = "第".to_owned();
        reason.push_str(text::number(pending.chapter as u64).as_str());
        reason.push_str("章剧情后设定审计出现 BLOCKER：");
    } else {
        reason = "设定审计出现 BLOCKER：".to_owned();
    }
    reason.push_str(pending.detail.as_str());
    StudioRequest {
        project: pending.project.clone(),
        reason,
        context: StudioNextContext::SettingBlocker { blocker: pending },
        outline_rewrite: false,
    }
}

/// Takes a gap in the settings after a chapter to the studio.
pub fn maybe_offer_setting_blocker(
    tool: &str,
    args: &Json,
    data: &Json,
    facts: &ChapterFacts,
) -> (r: Offer)
    ensures
        r@ == setting_blocker_offer(tool@, args@, data@, facts@),
{
    if !text::same(tool, "continue_writing") && !text::same(tool, "revise_chapter") && !text::same(
        tool,
        "audit_chapter",
    ) {
        return Offer::Nothing;
    }
    if !data.is_true("plot_setting_blocker") || data.get_u64("volume_ended").is_some() {
        return Offer::Nothing;
    }
    let project = json::project_from(data, args);
    if project.as_str().is_empty() {
        return Offer::Nothing;
    }
    let chapter: u32 = json::uint_from(data, args, "chapter", 0) as u32;
    let detail = data.str_or_empty("setting_blocker_detail");
    Offer::Ask(
        offer_setting_blocker_gate(
            PendingSettingBlocker {
                project,
                chapter,
                detail: text::take_chars(detail.as_str(), 240),
                resume_chapter_next: chapter > 0 && is_settled(data),
                published: data.is_true("published"),
                plot_accept_open: is_plot_open(data),
                content_blocked: data.is_true("content_rule_blocked"),
                revise_instructions: revise_instructions_for(data, chapter, facts),
                offer_volume_handoff_after: false,
            },
        ),
    )
}

impl ThreadState {
    /// Opens the choice after a chapter.
    pub fn maybe_offer_chapter_next(
        &mut self,
        catalog: &GateCatalog,
        tool: &str,
        args: &Json,
        data: &Json,
        facts: &ChapterFacts,
    ) -> (r: Offer)
        ensures
            (final(self)@, r@) == chapter_next_offer(
                old(self)@,
                catalog@,
                tool@,
                args@,
                data@,
                facts@,
            ),
    {
        if !text::same(tool, "continue_writing") && !text::same(tool, "revise_chapter")
            && !text::same(tool, "audit_chapter") && !text::same(tool, "audit_chapters") {
            return Offer::Nothing;
        }
        if data.is_true("blocked") || self.is_outranking_chapter_next() {
            return Offer::Nothing;
        }
        let project = json::project_from(data, args);
        let chapter: u32 = json::uint_from(data, args, "chapter", 0) as u32;
        if project.as_str().is_empty() || chapter == 0 || !is_settled(data) {
            return Offer::Nothing;
        }
        let published = data.is_true("published");
        let plot_accept_open = is_plot_open(data);
        let options = catalog.chapter_next_options(published, plot_accept_open);
        if options.len() == 0 {
            return Offer::Nothing;
        }
        let message = data.str_or_empty("message");
        let prompt = if published {
            prompts::chapter_next_published_prompt(chapter, plot_accept_open)
        } else if prompts::is_length_publish_blocked(data) {
            prompts::chapter_next_length_prompt(chapter, message.as_str())
        } else {
            prompts::chapter_next_hard_rule_prompt(chapter, message.as_str())
        };
        self.pending_chapter_next = Some(
            PendingChapterNext {
                project,
                chapter,
                published,
                plot_accept_open,
                suggest_next: None,
                revise_instructions: revise_instructions_for(data, chapter, facts),
            },
        );
        Offer::Open(Card { prompt, options, preview: None })
    }

    /// Opens the choice after a chapter again.
    pub fn offer_chapter_next_gate(
        &mut self,
        catalog: &GateCatalog,
        pending: &PendingSettingBlocker,
    ) -> (r: Offer)
        ensures
            (final(self)@, r@) == chapter_next_opened(old(self)@, catalog@, pending@),
    {
        if pending.project.as_str().is_empty() || pending.chapter == 0 {
            return Offer::Nothing;
        }
        if !pending.published && !pending.content_blocked && pending.revise_instructions.is_none() {
            return Offer::Nothing;
        }
        if self.is_outranking_chapter_next() {
            return Offer::Nothing;
        }
        let options = catalog.chapter_next_options(pending.published, pending.plot_accept_open);
        if options.len() == 0 {
            return Offer::Nothing;
        }
        let longer = match &pending.revise_instructions {
            Some(s) => text::contains(s.as_str(), "扩写到") || text::contains(
                s.as_str(),
                "完整一章",
            ),
            None => false,
        };
        let prompt = if pending.published {
            prompts::chapter_next_published_prompt(pending.chapter, pending.plot_accept_open)
        } else if longer {
            prompts::chapter_next_length_prompt(
                pending.chapter,
                "正文字数未达发布门槛",
            )
        } else {
            rule_stop(pending.chapter)
        };
        self.pending_chapter_next = Some(
            PendingChapterNext {
                project: pending.project.clone(),
                chapter: pending.chapter,
                published: pending.published,
                plot_accept_open: pending.plot_accept_open,
                suggest_next: None,
                revise_instructions: text::clone_opt(&pending.revise_instructions),
            },
        );
        Offer::Open(Card { prompt, options, preview: None })
    }

    /// Goes on once a gap in the settings is dealt with.
    pub fn finish_setting_blocker_followups(
        &mut self,
        enforce: bool,
        catalog: &GateCatalog,
        pending: &PendingSettingBlocker,
        facts: &VolumeFacts,
    ) -> (r: Offer)
        ensures
            (final(self)@, r@) == blocker_followup(
                old(self)@,
                enforce,
                catalog@,
                pending@,
                facts@,
            ),
    {
        if pending.resume_chapter_next && pending.chapter > 0 {
            match self.offer_chapter_next_gate(catalog, pending) {
                Offer::Nothing => {},
                opened => {
                    return opened;
                },
            }
        }
        if pending.offer_volume_handoff_after && !pending.project.as_str().is_empty() {
            return self.offer_volume_handoff_gate(
                enforce,
                catalog,
                pending.project.as_str(),
                VolumePhase::AwaitingNextArc,
                facts,
                None,
            );
        }
        Offer::Nothing
    }
}

} // verus!
