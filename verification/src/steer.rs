//! A decision on a failed audit: what runs after it, and what is said.

use vstd::prelude::*;

use crate::audit_decisions;
use crate::confirm;
use crate::json;
use crate::json::{Json, JsonV};
use crate::picks;
use crate::text;
use crate::thread_state::{ThreadState, ThreadV};

verus! {

/// The words at the start of a decision.
pub open spec fn steer_intro(tool: Seq<char>, bound: Option<Seq<char>>) -> Seq<char> {
    "已收到选择，正在对《"@ + picks::shown_project(bound) + "》执行 "@ + tool + "…"@
}

/// The words at the start of a decision.
pub fn audit_steer_intro(tool: &str, bound: Option<&str>) -> (r: String)
    ensures
        r@ == steer_intro(tool@, text::opt_str(bound)),
{
    let mut s = "已收到选择，正在对《".to_owned();
    match bound {
        Some(b) => {
            s.push_str(b);
        },
        None => {
            s.push_str("?");
        },
    }
    s.push_str("》执行 ");
    s.push_str(tool);
    s.push_str("…");
    s
}

/// The decision accepts the issues.
pub open spec fn accepts(tool: Seq<char>, args: JsonV, data: JsonV) -> bool {
    let choice = text::ascii_lowered(text::trimmed(args.text_or_empty("choice"@)));
    tool == "steer_run"@ && (choice == "accept"@ || text::occurs(choice, "接受"@) || data.flag(
        "accepted"@,
    ))
}

/// The decision revises the chapter.
pub open spec fn revises(tool: Seq<char>, args: JsonV, data: JsonV) -> bool {
    tool == "steer_run"@ && !accepts(tool, args, data)
}

fn is_accepting(tool: &str, args: &Json, data: &Json) -> (r: bool)
    ensures
        r == accepts(tool@, args@, data@),
{
    let raw = args.str_or_empty("choice");
    let choice = text::to_ascii_lower(text::trim(raw.as_str()));
    text::same(tool, "steer_run") && (text::same(choice.as_str(), "accept") || text::contains(
        choice.as_str(),
        "接受",
    ) || data.is_true("accepted"))
}

/// What runs after the decision's tool.
pub enum SteerNext {
    /// A preview awaits confirmation; its chapter is audited once it is applied.
    Preview(Json),
    /// The audit queue goes on.
    ContinueQueue(Json),
    /// The chapter is audited again.
    Reaudit(Json, u32),
    /// Nothing.
    Nothing,
}

/// What runs after the decision's tool, by contents.
pub enum SteerNextV {
    Preview(JsonV),
    ContinueQueue(JsonV),
    Reaudit(JsonV, u32),
    Nothing,
}

impl View for SteerNext {
    type V = SteerNextV;

    open spec fn view(&self) -> SteerNextV {
        match self {
            SteerNext::Preview(d) => SteerNextV::Preview(d@),
            SteerNext::ContinueQueue(a) => SteerNextV::ContinueQueue(a@),
            SteerNext::Reaudit(a, c) => SteerNextV::Reaudit(a@, *c),
            SteerNext::Nothing => SteerNextV::Nothing,
        }
    }
}

/// What runs after the decision's tool: only a revision is audited again, through
/// the queue where one runs. Accepting ends the matter.
pub open spec fn steered(
    tool: Seq<char>,
    args: JsonV,
    data: JsonV,
    queue_running: bool,
    auto_reaudit: bool,
) -> SteerNextV {
    if !revises(tool, args, data) {
        SteerNextV::Nothing
    } else if data.flag("needs_confirm"@) {
        SteerNextV::Preview(data.put("reaudit_after"@, JsonV::Bool(true)))
    } else {
        match args.text("project"@) {
            Some(p) => if queue_running {
                SteerNextV::ContinueQueue(audit_decisions::queue_args(p, "continue"@))
            } else if auto_reaudit {
                let chapter = json::uint_or(args, "chapter"@, 1) as u32;
                SteerNextV::Reaudit(confirm::reaudit_args(p, chapter), chapter)
            } else {
                SteerNextV::Nothing
            },
            None => SteerNextV::Nothing,
        }
    }
}

/// What runs after the decision's tool.
pub fn after_steer(
    tool: &str,
    args: &Json,
    data: &Json,
    queue_running: bool,
    auto_reaudit: bool,
) -> (r: SteerNext)
    ensures
        r@ == steered(tool@, args@, data@, queue_running, auto_reaudit),
{
    if !text::same(tool, "steer_run") || is_accepting(tool, args, data) {
        return SteerNext::Nothing;
    }
    if data.is_true("needs_confirm") {
        return SteerNext::Preview(data.copy().with_bool("reaudit_after", true));
    }
    match args.get_str("project") {
        Some(p) => if queue_running {
            SteerNext::ContinueQueue(
                Json::object().with_str("project", p).with_str("action", "continue"),
            )
        } else if auto_reaudit {
            let chapter: u32 = json::get_u64_or(args, "chapter", 1) as u32;
            SteerNext::Reaudit(confirm::reaudit_call(p, chapter), chapter)
        } else {
            SteerNext::Nothing
        },
        None => SteerNext::Nothing,
    }
}

/// Accepting is never followed by another audit.
pub proof fn accepting_ends_the_matter(
    tool: Seq<char>,
    args: JsonV,
    data: JsonV,
    queue_running: bool,
    auto_reaudit: bool,
)
    requires
        accepts(tool, args, data),
    ensures
        steered(tool, args, data, queue_running, auto_reaudit) is Nothing,
{
}

/// What is said while the step after a choice runs.
pub open spec fn step_words(n: SteerNextV) -> Seq<char> {
    match n {
        SteerNextV::ContinueQueue(_) => "\n\n正在接续审阅队列…"@,
        SteerNextV::Reaudit(_, chapter) => "\n\n正在复审第"@ + text::dec(chapter as nat)
            + "章…"@,
        _ => Seq::empty(),
    }
}

/// What is said while the step after a choice runs.
pub fn say_step(n: &SteerNext) -> (r: String)
    ensures
        r@ == step_words(n@),
{
    match n {
        SteerNext::ContinueQueue(_) => "\n\n正在接续审阅队列…".to_owned(),
        SteerNext::Reaudit(_, chapter) => {
            let mut s = "\n\n正在复审第".to_owned();
            s.push_str(text::number(*chapter as u64).as_str());
            s.push_str("章…");
            s
        },
        _ => String::new(),
    }
}

/// What decides the end of a decision's turn.
pub struct SteerFacts {
    /// The card of a preview was opened.
    pub asked_mutation: bool,
    /// A card was opened, that of a preview or that of an audit.
    pub asked: bool,
    pub accepted: bool,
    pub revise: bool,
    /// The first tool gave a preview.
    pub needs_confirm: bool,
    /// The last tool that ran audits.
    pub audit_ran: bool,
    /// The last audit passed.
    pub passed: bool,
    /// A card was opened after a passed audit.
    pub offered_after_pass: bool,
}

/// A queue that still needs a decision gets its card back: nothing was asked,
/// the chapter was revised, and no audit passed.
pub open spec fn queue_card_due(f: SteerFacts) -> bool {
    !f.asked && f.revise && !f.needs_confirm && !f.passed
}

/// The next card is looked for after a passed audit.
pub open spec fn next_card_due(f: SteerFacts) -> bool {
    !f.asked && !f.asked_mutation && !f.accepted && f.passed && f.audit_ran
}

/// What is added to the words of a decision at its end.
pub open spec fn steer_closing(f: SteerFacts) -> Seq<char> {
    if f.asked_mutation {
        "\n\n局部修订补丁已生成，请在审批卡选择「应用修改」或「放弃」。应用后再复审。"@
    } else if f.asked {
        Seq::empty()
    } else if f.accepted {
        "\n\n已接受问题，审校门控已关闭。可说「继续」写下一章，或手动 audit_chapter 复审。"@
    } else if f.offered_after_pass {
        "\n\n复审通过，请选择下一步。"@
    } else if f.audit_ran && f.passed {
        "\n\n复审通过。可说「继续创作」写下一章。"@
    } else if f.revise {
        "\n\n修订已完成。"@
    } else {
        Seq::empty()
    }
}

impl SteerFacts {
    /// Takes down the decision and its tool's result.
    pub fn of(tool: &str, args: &Json, data: &Json) -> (r: SteerFacts)
        ensures
            r == (SteerFacts {
                asked_mutation: false,
                asked: false,
                accepted: accepts(tool@, args@, data@),
                revise: revises(tool@, args@, data@),
                needs_confirm: data@.flag("needs_confirm"@),
                audit_ran: tool@ == "audit_chapter"@ || tool@ == "audit_chapters"@,
                passed: data@.flag("consistency_passed"@),
                offered_after_pass: false,
            }),
    {
        let accepted = is_accepting(tool, args, data);
        SteerFacts {
            asked_mutation: false,
            asked: false,
            accepted,
            revise: text::same(tool, "steer_run") && !accepted,
            needs_confirm: data.is_true("needs_confirm"),
            audit_ran: text::same(tool, "audit_chapter") || text::same(tool, "audit_chapters"),
            passed: data.is_true("consistency_passed"),
            offered_after_pass: false,
        }
    }

    /// Whether a queue that still needs a decision gets its card back.
    pub fn wants_queue_card(&self) -> (r: bool)
        ensures
            r == queue_card_due(*self),
    {
        !self.asked && self.revise && !self.needs_confirm && !self.passed
    }

    /// Whether the next card is looked for after a passed audit.
    pub fn wants_next_card(&self) -> (r: bool)
        ensures
            r == next_card_due(*self),
    {
        !self.asked && !self.asked_mutation && !self.accepted && self.passed && self.audit_ran
    }

    /// What is added to the words of a decision at its end.
    pub fn closing(&self) -> (r: String)
        ensures
            r@ == steer_closing(*self),
    {
        if self.asked_mutation {
            "\n\n局部修订补丁已生成，请在审批卡选择「应用修改」或「放弃」。应用后再复审。".to_owned()
        } else if self.asked {
            String::new()
        } else if self.accepted {
            "\n\n已接受问题，审校门控已关闭。可说「继续」写下一章，或手动 audit_chapter 复审。".to_owned()
        } else if self.offered_after_pass {
            "\n\n复审通过，请选择下一步。".to_owned()
        } else if self.audit_ran && self.passed {
            "\n\n复审通过。可说「继续创作」写下一章。".to_owned()
        } else if self.revise {
            "\n\n修订已完成。".to_owned()
        } else {
            String::new()
        }
    }
}

impl ThreadState {
    /// Closes the card of an audit before the decision is carried out, so that a
    /// second click finds nothing.
    pub fn close_audit(&mut self)
        ensures
            final(self)@ == (ThreadV { pending_audit: None, ..old(self)@ }),
    {
        self.pending_audit = None;
    }

    /// Whether a card of a change, of what depends on one or of an audit is open.
    pub fn awaits_revision_answer(&self) -> (r: bool)
        ensures
            r == (self@.pending_mutation is Some || self@.pending_impact is Some
                || self@.pending_audit is Some),
    {
        self.pending_mutation.is_some() || self.pending_impact.is_some()
            || self.pending_audit.is_some()
    }
}

// ---------------------------------------------------------------------------
// Polishing after a passed audit
// ---------------------------------------------------------------------------

/// The arguments of a revision by instructions.
pub open spec fn polish_args(project: Seq<char>, chapter: u32, instructions: Seq<char>) -> JsonV {
    JsonV::empty_object().put("project"@, JsonV::Text(project)).put(
        "chapter"@,
        JsonV::Uint(chapter as u64),
    ).put("instructions"@, JsonV::Text(instructions))
}

/// The words at the start of polishing a chapter.
pub open spec fn polish_intro(project: Seq<char>, chapter: u32) -> Seq<char> {
    "按上一轮审校改进项，准备局部修订第"@ + text::dec(chapter as nat) + "章（《"@ + project
        + "》）…"@
}

/// The call that polishes a chapter, and the words at its start.
pub fn polish_call(project: &str, chapter: u32, instructions: &str) -> (r: (Json, String))
    ensures
        r.0@ == polish_args(project@, chapter, instructions@),
        r.1@ == polish_intro(project@, chapter),
{
    let args = Json::object().with_str("project", project).with_u32("chapter", chapter).with_str(
        "instructions",
        instructions,
    );
    let mut s = "按上一轮审校改进项，准备局部修订第".to_owned();
    s.push_str(text::number(chapter as u64).as_str());
    s.push_str("章（《");
    s.push_str(project);
    s.push_str("》）…");
    (args, s)
}

} // verus!
