//! The card after a failed audit.

use vstd::prelude::*;

use crate::audit_decisions;
use crate::audit_decisions::{AuditDecisionOption, DecisionV};
use crate::gates;
use crate::gates::{GateCatalog, GateV};
use crate::issues;
use crate::issues::{AuditIssue, IssueV};
use crate::json;
use crate::json::{Json, JsonV};
use crate::offers;
use crate::offers::{Card, CardV};
use crate::prompts;
use crate::prompts::{TodoItem, TodoV};
use crate::text;
use crate::thread_state::{AuditGateKind, PendingAudit, PendingAuditV, ThreadState, ThreadV};

verus! {

// ---------------------------------------------------------------------------
// What an audit found
// ---------------------------------------------------------------------------

/// The list under a key; empty where there is none.
pub open spec fn list_or_empty(v: JsonV, key: Seq<char>) -> Seq<JsonV> {
    match v.list(key) {
        Some(l) => l,
        None => Seq::empty(),
    }
}

/// The issues that a tool's data tell of, or else those of the stored audit.
pub open spec fn told_issues(data: JsonV, stored: Option<JsonV>) -> Seq<JsonV> {
    let told = list_or_empty(data, "issues"@);
    if told.len() > 0 {
        told
    } else {
        match stored {
            Some(v) => list_or_empty(v, "issues"@),
            None => Seq::empty(),
        }
    }
}

fn copy_list_under(v: &Json, key: &str) -> (r: Vec<Json>)
    ensures
        json::items(r@) == list_or_empty(v@, key@),
{
    match v.get_list(key) {
        Some(l) => json::copy_list(l),
        None => {
            let none: Vec<Json> = Vec::new();
            assert(json::items(none@) =~= Seq::<JsonV>::empty());
            none
        },
    }
}

/// The issues that a tool's data tell of, or else those of the stored audit.
pub fn extract_audit_issues(data: &Json, stored: Option<&Json>) -> (r: Vec<Json>)
    ensures
        json::items(r@) == told_issues(data@, json::opt_json(stored)),
{
    let told = copy_list_under(data, "issues");
    assert(json::items(told@).len() == told.len());
    if told.len() > 0 {
        return told;
    }
    match stored {
        Some(v) => copy_list_under(v, "issues"),
        None => {
            assert(json::items(told@) =~= Seq::<JsonV>::empty());
            told
        },
    }
}

/// The brief to show before the card: that of the data, or the stored one where
/// the data give no checklist.
pub open spec fn brief_to_show(
    data: JsonV,
    s: Seq<IssueV>,
    chapter: u32,
    stored: Option<Seq<char>>,
) -> Option<Seq<char>> {
    let told = prompts::audit_brief(data, s, chapter);
    let brief = if !text::occurs(told, "### 问题清单"@) && data.text_or_empty("project"@).len()
        > 0 && stored is Some {
        stored->0
    } else {
        told
    };
    if text::trimmed(brief).len() == 0 {
        None
    } else {
        Some(brief)
    }
}

/// The brief to show before the card.
pub fn audit_report_before_gate(
    data: &Json,
    list: &Vec<AuditIssue>,
    chapter: u32,
    stored: Option<&str>,
) -> (r: Option<String>)
    ensures
        text::opt_text(r) == brief_to_show(
            data@,
            issues::issue_list(list@),
            chapter,
            text::opt_str(stored),
        ),
{
    let mut brief = prompts::format_audit_choice_brief(data, list, chapter);
    if !text::contains(brief.as_str(), "### 问题清单") {
        let project = data.str_or_empty("project");
        match stored {
            Some(b) => {
                if !project.as_str().is_empty() {
                    brief = b.to_owned();
                }
            },
            None => {},
        }
    }
    if text::trim(brief.as_str()).is_empty() {
        None
    } else {
        Some(brief)
    }
}

/// The item shows the checklist of the chapter.
pub open spec fn shows_checklist(item: JsonV, chapter: u32) -> bool {
    let told = item.text_or_empty("text"@);
    item.text("type"@) == Some("agent_message"@) && (text::occurs(told, "### 问题清单"@)
        || text::occurs(told, "第"@ + text::dec(chapter as nat) + "章审校未通过"@))
}

/// The id of the last of the first `n` items that shows the chapter's checklist.
pub open spec fn checklist_before(items: Seq<JsonV>, chapter: u32, n: int) -> Option<Seq<char>>
    decreases n,
{
    if n <= 0 || n > items.len() {
        None
    } else if shows_checklist(items[n - 1], chapter) && items[n - 1].text("id"@) is Some {
        items[n - 1].text("id"@)
    } else {
        checklist_before(items, chapter, n - 1)
    }
}

/// The first turn at or after a place with the id.
pub open spec fn turn_from(turns: Seq<JsonV>, id: Seq<char>, i: int) -> Option<int>
    decreases turns.len() - i,
{
    if i < 0 || i >= turns.len() {
        None
    } else if turns[i].text("id"@) == Some(id) {
        Some(i)
    } else {
        turn_from(turns, id, i + 1)
    }
}

/// The item of a turn that already shows the chapter's checklist.
pub open spec fn checklist_item(turns: JsonV, turn_id: Seq<char>, chapter: u32) -> Option<
    Seq<char>,
> {
    match turns {
        JsonV::List(v) => match turn_from(v, turn_id, 0) {
            Some(k) => match v[k].list("items"@) {
                Some(items) => checklist_before(items, chapter, items.len() as int),
                None => None,
            },
            None => None,
        },
        _ => None,
    }
}

fn last_checklist(items: &Vec<Json>, chapter: u32) -> (r: Option<String>)
    ensures
        text::opt_text(r) == checklist_before(
            json::items(items@),
            chapter,
            items@.len() as int,
        ),
{
    let ghost v = json::items(items@);
    let mut failed = "第".to_owned();
    failed.push_str(text::number(chapter as u64).as_str());
    failed.push_str("章审校未通过");
    let mut n: usize = items.len();
    while n > 0
        invariant
            n <= items.len(),
            v == json::items(items@),
            failed@ == "第"@ + text::dec(chapter as nat) + "章审校未通过"@,
            checklist_before(v, chapter, items@.len() as int) == checklist_before(
                v,
                chapter,
                n as int,
            ),
        decreases n,
    {
        assert(v[n - 1] == items@[n - 1]@);
        let item = &items[n - 1];
        let message = match item.get_str("type") {
            Some(w) => text::same(w, "agent_message"),
            None => false,
        };
        let told = item.str_or_empty("text");
        if message && (text::contains(told.as_str(), "### 问题清单") || text::contains(
            told.as_str(),
            failed.as_str(),
        )) {
            match item.get_str("id") {
                Some(id) => {
                    return Some(id.to_owned());
                },
                None => {},
            }
        }
        n = n - 1;
    }
    None
}

/// The item of a turn that already shows the chapter's checklist.
pub fn existing_checklist(turns: &Json, turn_id: &str, chapter: u32) -> (r: Option<String>)
    ensures
        text::opt_text(r) == checklist_item(turns@, turn_id@, chapter),
{
    match turns {
        Json::List(list) => {
            proof {
                json::list_view(*list);
            }
            let ghost v = json::items(list@);
            let mut i: usize = 0;
            while i < list.len()
                invariant
                    i <= list.len(),
                    v == json::items(list@),
                    turns@ == JsonV::List(v),
                    turn_from(v, turn_id@, 0) == turn_from(v, turn_id@, i as int),
                decreases list.len() - i,
            {
                assert(v[i as int] == list@[i as int]@);
                let here = match list[i].get_str("id") {
                    Some(id) => text::same(id, turn_id),
                    None => false,
                };
                if here {
                    return match list[i].get_list("items") {
                        Some(items) => last_checklist(items, chapter),
                        None => None,
                    };
                }
                i = i + 1;
            }
            None
        },
        _ => None,
    }
}

// ---------------------------------------------------------------------------
// The card
// ---------------------------------------------------------------------------

/// The card of a failed audit: the decisions that the studio offered, or else
/// the general ones.
pub open spec fn content_gate(
    s: ThreadV,
    project: Seq<char>,
    chapter: u32,
    found: Seq<IssueV>,
    queue_active: bool,
    offered: Option<Seq<DecisionV>>,
) -> (ThreadV, CardV) {
    let decisions = match offered {
        Some(d) => if d.len() > 0 {
            d
        } else {
            audit_decisions::fallback_decisions(project, chapter, found, queue_active)
        },
        None => audit_decisions::fallback_decisions(project, chapter, found, queue_active),
    };
    (
        ThreadV {
            pending_audit: Some(
                PendingAuditV {
                    project,
                    chapter,
                    kind: AuditGateKind::Content,
                    issues: found,
                    decision_options: decisions,
                    awaiting_offer: false,
                },
            ),
            pending_volume_audit: None,
            ..s
        },
        offers::plain_card(
            audit_decisions::fail_prompt(chapter, found, queue_active),
            audit_decisions::decision_buttons(decisions),
        ),
    )
}

/// The thread once the studio was asked to offer decisions on a failed audit.
pub open spec fn awaiting_studio(
    s: ThreadV,
    project: Seq<char>,
    chapter: u32,
    found: Seq<IssueV>,
) -> ThreadV {
    ThreadV {
        pending_audit: Some(
            PendingAuditV {
                project,
                chapter,
                kind: AuditGateKind::Content,
                issues: found,
                decision_options: Seq::empty(),
                awaiting_offer: true,
            },
        ),
        pending_volume_audit: None,
        ..s
    }
}

/// The prompt after the audit itself failed.
pub open spec fn infra_prompt(chapter: u32) -> Seq<char> {
    "第"@ + text::dec(chapter as nat)
        + "章一致性审计基础设施失败（空响应或无法解析）。请重试，勿按正文问题局部修订："@
}

/// The prompt after the audit itself failed.
pub fn audit_infra_prompt(chapter: u32) -> (r: String)
    ensures
        r@ == infra_prompt(chapter),
{
    let mut s = "第".to_owned();
    s.push_str(text::number(chapter as u64).as_str());
    s.push_str(
        "章一致性审计基础设施失败（空响应或无法解析）。请重试，勿按正文问题局部修订：",
    );
    s
}

/// What becomes of the card after an audit.
pub enum AuditFix {
    Nothing,
    /// The card closes with these words.
    Dismissed { prompt: String, todos: bool },
    /// The card opens; the brief is shown before it.
    Open { card: Card, todos: bool },
}

/// What becomes of the card after an audit, by contents.
pub enum AuditFixV {
    Nothing,
    Dismissed { prompt: Seq<char>, todos: bool },
    Open { card: CardV, todos: bool },
}

impl View for AuditFix {
    type V = AuditFixV;

    open spec fn view(&self) -> AuditFixV {
        match self {
            AuditFix::Nothing => AuditFixV::Nothing,
            AuditFix::Dismissed { prompt, todos } => AuditFixV::Dismissed {
                prompt: prompt@,
                todos: *todos,
            },
            AuditFix::Open { card, todos } => AuditFixV::Open { card: card@, todos: *todos },
        }
    }
}

/// The tool audits.
pub open spec fn auditing_tool(t: Seq<char>) -> bool {
    t == "audit_chapter"@ || t == "audit_chapters"@ || t == "continue_writing"@
}

/// The data ask for a decision on the audit.
pub open spec fn decision_due(data: JsonV) -> bool {
    data.flag("needs_user_choice"@) || data.text("status"@) == Some("awaiting_human"@)
        || data.denied("consistency_passed"@)
}

/// The card after an audit: it closes when the queue ended or the audit passed,
/// offers only a retry when the audit itself failed, and otherwise opens where a
/// decision is due. The end of a volume comes first.
pub open spec fn audit_fix(
    s: ThreadV,
    c: Seq<GateV>,
    tool: Seq<char>,
    args: JsonV,
    data: JsonV,
    found: Seq<IssueV>,
    queue_running: bool,
) -> (ThreadV, AuditFixV) {
    let closed = ThreadV { pending_audit: None, ..s };
    let project = json::project_in(data, args);
    let chapter = json::uint_in(data, args, "chapter"@, 1) as u32;
    let queue_active = data.flag("queue_active"@) || queue_running;
    if !auditing_tool(tool) || data.uint("volume_ended"@) is Some {
        (s, AuditFixV::Nothing)
    } else if data.flag("queue_finished"@) || data.flag("queue_cancelled"@) {
        (
            closed,
            AuditFixV::Dismissed { prompt: "审阅队列已结束。"@, todos: true },
        )
    } else if data.flag("consistency_passed"@) {
        (
            closed,
            AuditFixV::Dismissed {
                prompt: "复审通过，本轮已正常结束。"@,
                todos: false,
            },
        )
    } else if project.len() == 0 {
        (s, AuditFixV::Nothing)
    } else if prompts::meta_only(data) {
        (
            ThreadV {
                pending_audit: Some(
                    PendingAuditV {
                        project,
                        chapter,
                        kind: AuditGateKind::Infra,
                        issues: Seq::empty(),
                        decision_options: Seq::empty(),
                        awaiting_offer: false,
                    },
                ),
                pending_volume_audit: None,
                ..s
            },
            AuditFixV::Open {
                card: offers::plain_card(infra_prompt(chapter), gates::shown(c, "audit_infra"@)),
                todos: false,
            },
        )
    } else if !decision_due(data) {
        (s, AuditFixV::Nothing)
    } else {
        let opened = content_gate(s, project, chapter, found, queue_active, None);
        (opened.0, AuditFixV::Open { card: opened.1, todos: queue_active })
    }
}

/// A passed audit leaves no card open, whatever else its data say.
pub proof fn passed_audit_leaves_no_card(
    s: ThreadV,
    c: Seq<GateV>,
    tool: Seq<char>,
    args: JsonV,
    data: JsonV,
    found: Seq<IssueV>,
    queue_running: bool,
)
    requires
        auditing_tool(tool),
        data.flag("consistency_passed"@),
        data.uint("volume_ended"@) is None,
    ensures
        audit_fix(s, c, tool, args, data, found, queue_running).0.pending_audit is None,
        !(audit_fix(s, c, tool, args, data, found, queue_running).1 is Open),
{
}

/// The card after a failed audit can always be answered: it has a button.
pub proof fn content_card_has_a_button(
    s: ThreadV,
    project: Seq<char>,
    chapter: u32,
    found: Seq<IssueV>,
    queue_active: bool,
    offered: Option<Seq<DecisionV>>,
)
    ensures
        content_gate(s, project, chapter, found, queue_active, offered).1.options.len() > 0,
        ({
            let after = content_gate(s, project, chapter, found, queue_active, offered);
            after.0.pending_audit matches Some(p) && after.1.options
                == audit_decisions::decision_buttons(p.decision_options)
        }),
{
}

/// What comes of decisions that the studio offers.
pub enum OfferApplyResult {
    /// The offer is a card of next steps, not an audit.
    NextSteps,
    /// No audit waits for decisions.
    Ignored,
    /// The card opens.
    OpenedGate(Card),
    /// The offer is refused, for the reason told.
    Rejected(String),
}

/// What comes of decisions that the studio offers, by contents.
pub enum OfferApplyV {
    NextSteps,
    Ignored,
    OpenedGate(CardV),
    Rejected(Seq<char>),
}

impl View for OfferApplyResult {
    type V = OfferApplyV;

    open spec fn view(&self) -> OfferApplyV {
        match self {
            OfferApplyResult::NextSteps => OfferApplyV::NextSteps,
            OfferApplyResult::Ignored => OfferApplyV::Ignored,
            OfferApplyResult::OpenedGate(c) => OfferApplyV::OpenedGate(c@),
            OfferApplyResult::Rejected(e) => OfferApplyV::Rejected(e@),
        }
    }
}

/// The text under a key of one value, or else of another.
pub open spec fn text_in(a: JsonV, b: JsonV, key: Seq<char>, other: Seq<char>) -> Seq<char> {
    match a.text(key) {
        Some(s) => s,
        None => audit_decisions::or_text(b.text(key), other),
    }
}

/// The options that the studio offers.
pub open spec fn raw_options(args: JsonV, data: JsonV) -> Seq<JsonV> {
    if data.get("options"@) is Some {
        list_or_empty(data, "options"@)
    } else {
        list_or_empty(args, "options"@)
    }
}

/// Decisions that the studio offers open the card of the audit that waits for
/// them, or are refused and leave the thread as it was. `found` are the issues
/// that the data tell of, with the stored ones where they tell of none.
pub open spec fn offer_applied(
    s: ThreadV,
    args: JsonV,
    data: JsonV,
    found: Seq<IssueV>,
    queue_active: bool,
) -> (ThreadV, OfferApplyV) {
    if text_in(args, data, "kind"@, "audit"@) == "studio_next"@ {
        (s, OfferApplyV::NextSteps)
    } else {
        match s.pending_audit {
            None => (s, OfferApplyV::Ignored),
            Some(p) => if p.kind != AuditGateKind::Content {
                (s, OfferApplyV::Ignored)
            } else {
                let project = audit_decisions::or_text(args.text("project"@), p.project);
                let chapter = match args.uint("chapter"@) {
                    Some(n) => n as u32,
                    None => p.chapter,
                };
                let shown = if data.get("issues"@) is None && p.issues.len() > 0 {
                    p.issues
                } else {
                    found
                };
                match audit_decisions::offered(
                    project,
                    chapter,
                    p.issues,
                    raw_options(args, data),
                    queue_active,
                ) {
                    Err(e) => (s, OfferApplyV::Rejected(e)),
                    Ok(d) => {
                        let opened = content_gate(
                            s,
                            project,
                            chapter,
                            shown,
                            queue_active,
                            Some(d),
                        );
                        (opened.0, OfferApplyV::OpenedGate(opened.1))
                    },
                }
            },
        }
    }
}

/// Whether the text under a key of one value, or else of another, is the word.
fn kind_is(args: &Json, data: &Json, word: &str) -> (r: bool)
    ensures
        r == (text_in(args@, data@, "kind"@, "audit"@) == word@),
{
    match args.get_str("kind") {
        Some(w) => text::same(w, word),
        None => match data.get_str("kind") {
            Some(w) => text::same(w, word),
            None => text::same("audit", word),
        },
    }
}

impl ThreadState {
    /// Opens the card of a failed audit.
    pub fn open_content_audit_gate(
        &mut self,
        project: &str,
        chapter: u32,
        found: Vec<AuditIssue>,
        queue_active: bool,
        offered: Option<Vec<AuditDecisionOption>>,
    ) -> (r: Card)
        ensures
            (final(self)@, r@) == content_gate(
                old(self)@,
                project@,
                chapter,
                issues::issue_list(found@),
                queue_active,
                match offered {
                    Some(d) => Some(audit_decisions::decision_list(d@)),
                    None => None,
                },
            ),
    {
        let decisions = match offered {
            Some(d) => if d.len() > 0 {
                d
            } else {
                audit_decisions::build_fallback_audit_decisions(
                    project,
                    chapter,
                    &found,
                    queue_active,
                )
            },
            None => audit_decisions::build_fallback_audit_decisions(
                project,
                chapter,
                &found,
                queue_active,
            ),
        };
        let options = audit_decisions::decisions_to_ui_options(&decisions);
        let prompt = audit_decisions::audit_fail_prompt(chapter, &found, queue_active);
        self.pending_audit = Some(
            PendingAudit {
                project: project.to_owned(),
                chapter,
                kind: AuditGateKind::Content,
                issues: found,
                decision_options: decisions,
                awaiting_offer: false,
            },
        );
        self.pending_volume_audit = None;
        Card { prompt, options, preview: None }
    }

    /// Waits for the studio to offer decisions on a failed audit.
    pub fn prepare_audit_fail_for_studio(
        &mut self,
        project: &str,
        chapter: u32,
        found: Vec<AuditIssue>,
    )
        ensures
            final(self)@ == awaiting_studio(
                old(self)@,
                project@,
                chapter,
                issues::issue_list(found@),
            ),
    {
        let none: Vec<AuditDecisionOption> = Vec::new();
        assert(audit_decisions::decision_list(none@) =~= Seq::<DecisionV>::empty());
        self.pending_audit = Some(
            PendingAudit {
                project: project.to_owned(),
                chapter,
                kind: AuditGateKind::Content,
                issues: found,
                decision_options: none,
                awaiting_offer: true,
            },
        );
        self.pending_volume_audit = None;
    }

    /// Opens or closes the card after an audit.
    pub fn maybe_offer_audit_fix(
        &mut self,
        catalog: &GateCatalog,
        tool: &str,
        args: &Json,
        data: &Json,
        found: Vec<AuditIssue>,
        queue_running: bool,
    ) -> (r: AuditFix)
        ensures
            (final(self)@, r@) == audit_fix(
                old(self)@,
                catalog@,
                tool@,
                args@,
                data@,
                issues::issue_list(found@),
                queue_running,
            ),
    {
        if !text::same(tool, "audit_chapter") && !text::same(tool, "audit_chapters")
            && !text::same(tool, "continue_writing") {
            return AuditFix::Nothing;
        }
        if data.get_u64("volume_ended").is_some() {
            return AuditFix::Nothing;
        }
        if data.is_true("queue_finished") || data.is_true("queue_cancelled") {
            self.pending_audit = None;
            return AuditFix::Dismissed {
                prompt: "审阅队列已结束。".to_owned(),
                todos: true,
            };
        }
        if data.is_true("consistency_passed") {
            self.pending_audit = None;
            return AuditFix::Dismissed {
                prompt: "复审通过，本轮已正常结束。".to_owned(),
                todos: false,
            };
        }
        let project = json::project_from(data, args);
        let chapter: u32 = json::uint_from(data, args, "chapter", 1) as u32;
        if project.as_str().is_empty() {
            return AuditFix::Nothing;
        }
        if prompts::audit_failure_is_meta_only(data) {
            let no_issues: Vec<AuditIssue> = Vec::new();
            let no_decisions: Vec<AuditDecisionOption> = Vec::new();
            proof {
                assert(issues::issue_list(no_issues@) =~= Seq::<IssueV>::empty());
                assert(audit_decisions::decision_list(no_decisions@) =~= Seq::<DecisionV>::empty());
            }
            self.pending_audit = Some(
                PendingAudit {
                    project,
                    chapter,
                    kind: AuditGateKind::Infra,
                    issues: no_issues,
                    decision_options: no_decisions,
                    awaiting_offer: false,
                },
            );
            self.pending_volume_audit = None;
            return AuditFix::Open {
                card: Card {
                    prompt: audit_infra_prompt(chapter),
                    options: catalog.options("audit_infra"),
                    preview: None,
                },
                todos: false,
            };
        }
        let waiting = match data.get_str("status") {
            Some(w) => text::same(w, "awaiting_human"),
            None => false,
        };
        if !data.is_true("needs_user_choice") && !waiting && !data.is_false("consistency_passed") {
            return AuditFix::Nothing;
        }
        let queue_active = data.is_true("queue_active") || queue_running;
        let card = self.open_content_audit_gate(
            project.as_str(),
            chapter,
            found,
            queue_active,
            None,
        );
        AuditFix::Open { card, todos: queue_active }
    }

    /// Applies decisions that the studio offers.
    pub fn apply_offer_decisions(
        &mut self,
        args: &Json,
        data: &Json,
        found: Vec<AuditIssue>,
        queue_active: bool,
    ) -> (r: OfferApplyResult)
        ensures
            (final(self)@, r@) == offer_applied(
                old(self)@,
                args@,
                data@,
                issues::issue_list(found@),
                queue_active,
            ),
    {
        if kind_is(args, data, "studio_next") {
            return OfferApplyResult::NextSteps;
        }
        let project: String;
        let chapter: u32;
        let decisions: Vec<AuditDecisionOption>;
        let shown: Vec<AuditIssue>;
        match &self.pending_audit {
            None => {
                return OfferApplyResult::Ignored;
            },
            Some(p) => {
                if p.kind != AuditGateKind::Content {
                    return OfferApplyResult::Ignored;
                }
                project = match args.get_str("project") {
                    Some(w) => w.to_owned(),
                    None => p.project.clone(),
                };
                chapter = match args.get_u64("chapter") {
                    Some(n) => n as u32,
                    None => p.chapter,
                };
                let raw = if data.get("options").is_some() {
                    copy_list_under(data, "options")
                } else {
                    copy_list_under(args, "options")
                };
                match audit_decisions::validate_offered_decisions(
                    project.as_str(),
                    chapter,
                    &p.issues,
                    &raw,
                    queue_active,
                ) {
                    Ok(d) => {
                        decisions = d;
                    },
                    Err(e) => {
                        return OfferApplyResult::Rejected(e);
                    },
                }
                assert(issues::issue_list(p.issues@).len() == p.issues.len());
                shown = if data.get("issues").is_none() && p.issues.len() > 0 {
                    issues::copy_issues(&p.issues)
                } else {
                    found
                };
            },
        }
        let card = self.open_content_audit_gate(
            project.as_str(),
            chapter,
            shown,
            queue_active,
            Some(decisions),
        );
        OfferApplyResult::OpenedGate(card)
    }
}

// ---------------------------------------------------------------------------
// The list of an audit queue
// ---------------------------------------------------------------------------

/// The items to show: those of the data, or else those of the stored queue where
/// the data speak of a queue.
pub open spec fn todos_shown(data: JsonV, stored: Option<JsonV>) -> Seq<TodoV> {
    match prompts::todos_in(data.get("todos"@)) {
        Some(t) => t,
        None => {
            let queued = data.get("audit_queue"@) matches Some(q) && q.get("chapters"@) is Some;
            if queued && data.text("project"@) is Some && stored is Some {
                match prompts::todos_in(stored) {
                    Some(t) => t,
                    None => Seq::empty(),
                }
            } else {
                Seq::empty()
            }
        },
    }
}

/// The items to show of an audit queue. `stored` is the list of the stored
/// queue.
pub fn todos_from_data(data: &Json, stored: Option<&Json>) -> (r: Vec<TodoItem>)
    ensures
        prompts::todo_list(r@) == todos_shown(data@, json::opt_json(stored)),
{
    match prompts::parse_todo_items(data.get("todos")) {
        Some(t) => {
            return t;
        },
        None => {},
    }
    let queued = match data.get("audit_queue") {
        Some(q) => q.get("chapters").is_some(),
        None => false,
    };
    if queued && data.get_str("project").is_some() && stored.is_some() {
        match prompts::parse_todo_items(stored) {
            Some(t) => {
                return t;
            },
            None => {},
        }
    }
    let none: Vec<TodoItem> = Vec::new();
    assert(prompts::todo_list(none@) =~= Seq::<TodoV>::empty());
    none
}

} // verus!
