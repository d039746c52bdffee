//! The rounds between the model and its tools.
//!
//! The model answers with words, tool calls or both. The loop decides which
//! calls run, when the model is reminded of what it was asked, and when the turn
//! stops for the author.

use vstd::prelude::*;

use crate::audit_offers;
use crate::intent;
use crate::issues;
use crate::issues::{AuditIssue, IssueV};
use crate::json;
use crate::json::{Json, JsonV};
use crate::offers::{Card, CardV};
use crate::prompts;
use crate::text;
use crate::thread_state;
use crate::thread_state::{AuditGateKind, ThreadState, ThreadV};

verus! {

/// So many rounds the model gets.
pub const MAX_TOOL_ROUNDS: usize = 8;

/// A tool that only reads, called so many times in a row, is not run again.
pub const MAX_REPEATS: usize = 3;

/// A tool call of the model.
pub struct ModelCall {
    pub id: String,
    pub name: String,
    pub args: Json,
}

/// A tool call of the model, by contents.
pub struct ModelCallV {
    pub id: Seq<char>,
    pub name: Seq<char>,
    pub args: JsonV,
}

impl View for ModelCall {
    type V = ModelCallV;

    open spec fn view(&self) -> ModelCallV {
        ModelCallV { id: self.id@, name: self.name@, args: self.args@ }
    }
}

/// The calls by contents.
pub open spec fn call_list(v: Seq<ModelCall>) -> Seq<ModelCallV> {
    Seq::new(v.len(), |i: int| v[i]@)
}

/// The names of the calls.
pub open spec fn call_names(v: Seq<ModelCallV>) -> Seq<Seq<char>> {
    Seq::new(v.len(), |i: int| v[i].name)
}

// ---------------------------------------------------------------------------
// The state between rounds
// ---------------------------------------------------------------------------

/// What the loop remembers from round to round.
pub struct ToolLoop {
    round: usize,
    words: String,
    last_tools: Vec<String>,
    bubble_open: bool,
    nudged: bool,
    repeated: String,
    repeats: usize,
    awaiting_offer: bool,
    paused: bool,
}

/// What the loop remembers, by contents.
pub struct LoopV {
    /// How many rounds began.
    pub round: nat,
    /// What the model said.
    pub words: Seq<char>,
    /// The tools of the last round that had any.
    pub last_tools: Seq<Seq<char>>,
    /// The words after the tools have a bubble of their own.
    pub bubble_open: bool,
    /// The model was reminded of the request.
    pub nudged: bool,
    /// The reading tool that was called last, and how often in a row.
    pub repeated: Seq<char>,
    pub repeats: nat,
    /// The studio is to offer decisions on a failed audit.
    pub awaiting_offer: bool,
    /// The turn stops for the author.
    pub paused: bool,
}

impl View for ToolLoop {
    type V = LoopV;

    closed spec fn view(&self) -> LoopV {
        LoopV {
            round: self.round as nat,
            words: self.words@,
            last_tools: text::texts(self.last_tools@),
            bubble_open: self.bubble_open,
            nudged: self.nudged,
            repeated: self.repeated@,
            repeats: self.repeats as nat,
            awaiting_offer: self.awaiting_offer,
            paused: self.paused,
        }
    }
}

impl LoopV {
    /// The loop before its first round.
    pub open spec fn fresh() -> LoopV {
        LoopV {
            round: 0,
            words: Seq::empty(),
            last_tools: Seq::empty(),
            bubble_open: false,
            nudged: false,
            repeated: Seq::empty(),
            repeats: 0,
            awaiting_offer: false,
            paused: false,
        }
    }

    /// What the loop keeps true.
    pub open spec fn sound(self) -> bool {
        self.round <= MAX_TOOL_ROUNDS && self.repeats < MAX_REPEATS
    }
}

/// The tool only reads, so that calling it over and over leads nowhere.
pub open spec fn reading_tool(t: Seq<char>) -> bool {
    t == "query_lore"@ || t == "query_memory"@ || t == "list_projects"@ || t == "list_entities"@
}

fn is_reading_tool(t: &str) -> (r: bool)
    ensures
        r == reading_tool(t@),
{
    text::same(t, "query_lore") || text::same(t, "query_memory") || text::same(t, "list_projects")
        || text::same(t, "list_entities")
}

/// What a reply of the model leads to.
pub enum ReplyStep {
    /// The model is done.
    Finish,
    /// The model is reminded of the request.
    Nudge(String),
    /// The calls are not run: each is answered with the note, and the model is
    /// told what to do instead.
    Skip { note: String, nudge: String },
    /// The calls run.
    Run,
}

/// What a reply of the model leads to, by contents.
pub enum ReplyStepV {
    Finish,
    Nudge(Seq<char>),
    Skip { note: Seq<char>, nudge: Seq<char> },
    Run,
}

impl View for ReplyStep {
    type V = ReplyStepV;

    open spec fn view(&self) -> ReplyStepV {
        match self {
            ReplyStep::Finish => ReplyStepV::Finish,
            ReplyStep::Nudge(s) => ReplyStepV::Nudge(s@),
            ReplyStep::Skip { note, nudge } => ReplyStepV::Skip { note: note@, nudge: nudge@ },
            ReplyStep::Run => ReplyStepV::Run,
        }
    }
}

/// The reply's words are shown: those beside tool calls only if there is more to
/// them than a few characters.
pub open spec fn words_shown(content: Seq<char>, calls: Seq<ModelCallV>) -> bool {
    content.len() > 0 && (calls.len() == 0 || content.len() > 8)
}

/// The last round did nothing but list the projects.
pub open spec fn only_listed(tools: Seq<Seq<char>>) -> bool {
    tools.len() > 0 && forall|i: int|
        0 <= i < tools.len() ==> #[trigger] tools[i] == "list_projects"@
}

/// The reminder of the request.
pub open spec fn reminder(bound: Option<Seq<char>>) -> Seq<char> {
    "不要结束。用户原请求尚未执行。请立即对项目「"@ + match bound {
        Some(p) => p,
        None => "（会话项目）"@,
    }
        + "」调用 revise_chapter （或 continue_writing），chapter 与 instructions 从用户原话提取；禁止再次 list_projects。"@
}

/// What the model is told to do instead of calling a reading tool again.
pub open spec fn instead_of(tool: Seq<char>) -> Seq<char> {
    if tool == "query_lore"@ {
        "停止重复 query_lore。它只返回设定上下文，不含正文。若要核对时间线/伤势/能力位置，请立即调用 read_chapter；若要修订请调用 revise_chapter / steer_run。不要再 query_lore。"@
    } else {
        "停止重复调用 "@ + tool
            + "。请改用能推进任务的工具（read_chapter / revise_chapter / continue_writing / get_project_status），或直接用中文回复用户。"@
    }
}

/// The note in place of a call that is not run.
pub open spec fn skip_note(times: nat, tool: Seq<char>) -> Seq<char> {
    "（已跳过：连续 "@ + text::dec(times) + " 次重复 "@ + tool + "，避免空转）"@
}

fn remind(bound: Option<&str>) -> (r: String)
    ensures
        r@ == reminder(text::opt_str(bound)),
{
    let mut s = "不要结束。用户原请求尚未执行。请立即对项目「".to_owned();
    match bound {
        Some(p) => {
            s.push_str(p);
        },
        None => {
            s.push_str("（会话项目）");
        },
    }
    s.push_str(
        "」调用 revise_chapter （或 continue_writing），chapter 与 instructions 从用户原话提取；禁止再次 list_projects。",
    );
    s
}

fn suggest_instead(tool: &str) -> (r: String)
    ensures
        r@ == instead_of(tool@),
{
    if text::same(tool, "query_lore") {
        return "停止重复 query_lore。它只返回设定上下文，不含正文。若要核对时间线/伤势/能力位置，请立即调用 read_chapter；若要修订请调用 revise_chapter / steer_run。不要再 query_lore。".to_owned();
    }
    let mut s = "停止重复调用 ".to_owned();
    s.push_str(tool);
    s.push_str(
        "。请改用能推进任务的工具（read_chapter / revise_chapter / continue_writing / get_project_status），或直接用中文回复用户。",
    );
    s
}

fn note_skip(times: usize, tool: &str) -> (r: String)
    ensures
        r@ == skip_note(times as nat, tool@),
{
    let mut s = "（已跳过：连续 ".to_owned();
    s.push_str(text::number(times as u64).as_str());
    s.push_str(" 次重复 ");
    s.push_str(tool);
    s.push_str("，避免空转）");
    s
}

fn names_of(calls: &Vec<ModelCall>) -> (r: Vec<String>)
    ensures
        text::texts(r@) == call_names(call_list(calls@)),
{
    let mut names: Vec<String> = Vec::new();
    let mut i: usize = 0;
    while i < calls.len()
        invariant
            i <= calls.len(),
            names.len() == i,
            forall|j: int| 0 <= j < i ==> (#[trigger] names@[j])@ == calls@[j].name@,
        decreases calls.len() - i,
    {
        names.push(calls[i].name.clone());
        i = i + 1;
    }
    assert(text::texts(names@) =~= call_names(call_list(calls@)));
    names
}

/// How often in a row the reading tool was called, with this call.
pub open spec fn repeats_with(s: LoopV, tool: Seq<char>) -> nat {
    if !reading_tool(tool) {
        0
    } else if s.repeated == tool {
        s.repeats + 1
    } else {
        1
    }
}

/// The loop after a reply, and what the reply leads to.
pub open spec fn replied(
    s: LoopV,
    content: Seq<char>,
    calls: Seq<ModelCallV>,
    owes_chapter_work: bool,
    bound: Option<Seq<char>>,
) -> (LoopV, ReplyStepV) {
    let heard = LoopV {
        words: if words_shown(content, calls) {
            s.words + content
        } else {
            s.words
        },
        ..s
    };
    if calls.len() == 0 {
        if owes_chapter_work && only_listed(s.last_tools) && !s.nudged {
            (LoopV { nudged: true, ..heard }, ReplyStepV::Nudge(reminder(bound)))
        } else {
            (heard, ReplyStepV::Finish)
        }
    } else {
        let first = calls[0].name;
        let times = repeats_with(s, first);
        let called = LoopV { last_tools: call_names(calls), ..heard };
        if times >= MAX_REPEATS {
            (
                LoopV { repeated: Seq::empty(), repeats: 0, ..called },
                ReplyStepV::Skip { note: skip_note(times, first), nudge: instead_of(first) },
            )
        } else {
            (
                LoopV {
                    repeated: if reading_tool(first) {
                        first
                    } else {
                        Seq::empty()
                    },
                    repeats: times,
                    ..called
                },
                ReplyStepV::Run,
            )
        }
    }
}

// ---------------------------------------------------------------------------
// The chapter that is written
// ---------------------------------------------------------------------------

/// The arguments of a write: the chapter is only ever the one that the author
/// named, never one that the model made up.
pub open spec fn trusted_args(name: Seq<char>, args: JsonV, request: &str) -> JsonV {
    if name != "continue_writing"@ {
        args
    } else if intent::named_number(request@, "章"@, "chapter "@) is None {
        args.dropped("chapter"@)
    } else {
        prompts::chapter_filled(args, seq![request])
    }
}

/// The arguments of a call, with the chapter that the author named.
pub fn trust_author_only(name: &str, args: Json, request: &str) -> (r: Json)
    requires
        args@ is Object || args@ is Null || intent::named_number(
            request@,
            "章"@,
            "chapter "@,
        ) is None || name@ != "continue_writing"@,
    ensures
        r@ == trusted_args(name@, args@, request),
{
    if !text::same(name, "continue_writing") {
        return args;
    }
    if intent::parse_chapter_number(request).is_none() {
        return args.without("chapter");
    }
    let mut args = args;
    let hints = [request];
    assert(hints@ =~= seq![request]);
    prompts::fill_continue_chapter_arg(&mut args, &hints);
    args
}

/// Where the author named no chapter, none is written by number.
pub proof fn no_chapter_is_made_up(args: JsonV, request: &str)
    requires
        intent::named_number(request@, "章"@, "chapter "@) is None,
    ensures
        trusted_args("continue_writing"@, args, request).uint("chapter"@) is None,
{
    json::nothing_after_drop(args, "chapter"@);
}

// ---------------------------------------------------------------------------
// After a call
// ---------------------------------------------------------------------------

/// The tool found issues of the text that the studio should offer decisions on.
pub open spec fn content_failed(tool: Seq<char>, data: JsonV) -> bool {
    audit_offers::auditing_tool(tool) && data.denied("consistency_passed"@) && !prompts::meta_only(
        data,
    ) && data.uint("volume_ended"@) is None
}

/// Whether the tool found issues of the text.
pub fn is_content_failure(tool: &str, data: &Json) -> (r: bool)
    ensures
        r == content_failed(tool@, data@),
{
    (text::same(tool, "audit_chapter") || text::same(tool, "audit_chapters") || text::same(
        tool,
        "continue_writing",
    )) && data.is_false("consistency_passed") && !prompts::audit_failure_is_meta_only(data)
        && data.get_u64("volume_ended").is_none()
}

/// The project and the chapter whose failed audit waits for the studio.
pub open spec fn failed_place(tool: Seq<char>, args: JsonV, data: JsonV) -> Option<
    (Seq<char>, u32),
> {
    let project = json::project_in(data, args);
    if content_failed(tool, data) && project.len() > 0 {
        Some((project, json::uint_in(data, args, "chapter"@, 1) as u32))
    } else {
        None
    }
}

/// The project and the chapter whose failed audit waits for the studio.
pub fn failed_audit_place(tool: &str, args: &Json, data: &Json) -> (r: Option<(String, u32)>)
    ensures
        (match r {
            Some(p) => Some((p.0@, p.1)),
            None => None,
        }) == failed_place(tool@, args@, data@),
{
    let project = json::project_from(data, args);
    if is_content_failure(tool, data) && !project.as_str().is_empty() {
        Some((project, json::uint_from(data, args, "chapter", 1) as u32))
    } else {
        None
    }
}

/// What the model is told beside a failed audit.
pub open spec fn offer_demand() -> Seq<char> {
    "\n\n【决策】请立即调用 offer_decisions：按问题给出可执行选项（修某条 issue_id / 修全部阻断 / 接受）。禁止在正文里伪造编号审批卡。"@
}

/// What the model is told beside a failed audit.
pub fn demand_offer() -> (r: String)
    ensures
        r@ == offer_demand(),
{
    "\n\n【决策】请立即调用 offer_decisions：按问题给出可执行选项（修某条 issue_id / 修全部阻断 / 接受）。禁止在正文里伪造编号审批卡。".to_owned()
}

/// What the model is told of decisions that were refused.
pub open spec fn refusal(reason: Seq<char>) -> Seq<char> {
    "offer_decisions 被拒绝："@ + reason
        + "。请修正 options 后重试（勿在正文伪造编号卡）。"@
}

/// What the model is told of decisions that were refused.
pub fn refuse_offer(reason: &str) -> (r: String)
    ensures
        r@ == refusal(reason@),
{
    let mut s = "offer_decisions 被拒绝：".to_owned();
    s.push_str(reason);
    s.push_str("。请修正 options 后重试（勿在正文伪造编号卡）。");
    s
}

/// How the loop goes on after a call.
#[derive(Clone, Copy, Debug, PartialEq, Eq, Structural)]
pub enum CallStep {
    /// The next call runs.
    NextCall,
    /// The turn stops for the author.
    Pause,
    /// The rest of the calls is not run, and the studio gets another round to
    /// offer decisions.
    EndBatch,
}

/// What came of the cards after a call.
pub struct CallCards {
    /// The card of an audit was opened.
    pub audit: bool,
    /// A card of the chain was opened, or the studio took a request.
    pub chain: bool,
    /// The studio took the request about a draft that was there already.
    pub draft: bool,
    /// The choice after a chapter was opened.
    pub next: bool,
}

/// After writing and revising, a draft that was there already is asked about.
pub open spec fn draft_card_due(tool: Seq<char>) -> bool {
    tool == "continue_writing"@ || tool == "revise_chapter"@
}

/// After writing, revising and auditing, the choice after a chapter is looked
/// for.
pub open spec fn next_card_due(tool: Seq<char>) -> bool {
    draft_card_due(tool) || tool == "audit_chapter"@ || tool == "audit_chapters"@
}

/// Which cards are still looked for after a call that opened none: that of a
/// draft, and the choice after a chapter. Neither is where a card is open.
pub fn cards_to_try(tool: &str, card_open: bool) -> (r: (bool, bool))
    ensures
        r.0 == (!card_open && draft_card_due(tool@)),
        r.1 == (!card_open && next_card_due(tool@)),
{
    let writes = text::same(tool, "continue_writing") || text::same(tool, "revise_chapter");
    let audits = text::same(tool, "audit_chapter") || text::same(tool, "audit_chapters");
    (!card_open && writes, !card_open && (writes || audits))
}

/// How the loop goes on after a call: any card stops it. Writing and revising
/// always end the calls of a round; where the audit failed the studio may first
/// offer decisions.
pub open spec fn call_step(
    tool: Seq<char>,
    failed: bool,
    awaiting_offer: bool,
    c: CallCards,
) -> CallStep {
    if c.chain || c.audit {
        CallStep::Pause
    } else if tool == "continue_writing"@ || tool == "revise_chapter"@ {
        if c.draft {
            CallStep::Pause
        } else if failed && awaiting_offer {
            CallStep::EndBatch
        } else {
            CallStep::Pause
        }
    } else if (tool == "audit_chapter"@ || tool == "audit_chapters"@) && c.next {
        CallStep::Pause
    } else {
        CallStep::NextCall
    }
}

/// The answer in place of a call that did not run because the round ended.
pub open spec fn unrun_note(paused: bool, tool: Seq<char>) -> Seq<char> {
    if paused {
        "（未执行：上一工具需用户确认后结束本轮，跳过 "@ + tool + "）"@
    } else {
        "（未执行：上一工具触发审校决策，等待 offer_decisions，跳过 "@ + tool + "）"@
    }
}

/// The answer in place of a call that did not run because the round ended.
pub fn note_unrun(paused: bool, tool: &str) -> (r: String)
    ensures
        r@ == unrun_note(paused, tool@),
{
    let mut s = if paused {
        "（未执行：上一工具需用户确认后结束本轮，跳过 ".to_owned()
    } else {
        "（未执行：上一工具触发审校决策，等待 offer_decisions，跳过 ".to_owned()
    };
    s.push_str(tool);
    s.push_str("）");
    s
}

impl ToolLoop {
    /// The loop before its first round.
    pub fn new() -> (r: ToolLoop)
        ensures
            r@ == LoopV::fresh(),
            r@.sound(),
    {
        let r = ToolLoop {
            round: 0,
            words: String::new(),
            last_tools: Vec::new(),
            bubble_open: false,
            nudged: false,
            repeated: String::new(),
            repeats: 0,
            awaiting_offer: false,
            paused: false,
        };
        assert(r@.last_tools =~= Seq::<Seq<char>>::empty());
        r
    }

    /// Begins a round, unless the turn stopped or the rounds are used up.
    pub fn begin_round(&mut self) -> (r: bool)
        requires
            old(self)@.sound(),
        ensures
            r == (!old(self)@.paused && old(self)@.round < MAX_TOOL_ROUNDS),
            final(self)@ == if r {
                (LoopV { round: old(self)@.round + 1, ..old(self)@ })
            } else {
                old(self)@
            },
            final(self)@.sound(),
    {
        if self.paused || self.round >= MAX_TOOL_ROUNDS {
            return false;
        }
        self.round = self.round + 1;
        true
    }

    /// Whether the words to come need a bubble below the tools.
    pub fn opens_bubble(&mut self) -> (r: bool)
        ensures
            r == (old(self)@.last_tools.len() > 0 && !old(self)@.bubble_open),
            final(self)@ == (LoopV { bubble_open: old(self)@.bubble_open || r, ..old(self)@ }),
    {
        if self.last_tools.len() > 0 && !self.bubble_open {
            self.bubble_open = true;
            true
        } else {
            false
        }
    }

    fn listed_only(&self) -> (r: bool)
        ensures
            r == only_listed(self@.last_tools),
    {
        let ghost t = text::texts(self.last_tools@);
        if self.last_tools.len() == 0 {
            return false;
        }
        let mut i: usize = 0;
        while i < self.last_tools.len()
            invariant
                i <= self.last_tools.len(),
                t == text::texts(self.last_tools@),
                t == self@.last_tools,
                forall|j: int| 0 <= j < i ==> #[trigger] t[j] == "list_projects"@,
            decreases self.last_tools.len() - i,
        {
            assert(t[i as int] == self.last_tools@[i as int]@);
            if !text::same(self.last_tools[i].as_str(), "list_projects") {
                return false;
            }
            i = i + 1;
        }
        true
    }

    /// Takes in a reply of the model.
    pub fn on_reply(
        &mut self,
        content: &str,
        calls: &Vec<ModelCall>,
        owes_chapter_work: bool,
        bound: Option<&str>,
    ) -> (r: ReplyStep)
        requires
            old(self)@.sound(),
        ensures
            (final(self)@, r@) == replied(
                old(self)@,
                content@,
                call_list(calls@),
                owes_chapter_work,
                text::opt_str(bound),
            ),
            final(self)@.sound(),
    {
        let ghost cv = call_list(calls@);
        if !content.is_empty() && (calls.len() == 0 || content.unicode_len() > 8) {
            self.words.push_str(content);
        }
        if calls.len() == 0 {
            if owes_chapter_work && !self.nudged && self.listed_only() {
                self.nudged = true;
                return ReplyStep::Nudge(remind(bound));
            }
            return ReplyStep::Finish;
        }
        self.last_tools = names_of(calls);
        let first = calls[0].name.as_str();
        assert(cv[0].name == first@);
        if !is_reading_tool(first) {
            self.repeated = String::new();
            self.repeats = 0;
            return ReplyStep::Run;
        }
        let times: usize = if text::same(self.repeated.as_str(), first) {
            self.repeats + 1
        } else {
            1
        };
        if times >= MAX_REPEATS {
            let note = note_skip(times, first);
            let nudge = suggest_instead(first);
            self.repeated = String::new();
            self.repeats = 0;
            return ReplyStep::Skip { note, nudge };
        }
        self.repeated = first.to_owned();
        self.repeats = times;
        ReplyStep::Run
    }

    /// Takes down that decisions of the studio opened their card: the turn stops.
    pub fn offer_opened(&mut self)
        ensures
            final(self)@ == (LoopV { awaiting_offer: false, paused: true, ..old(self)@ }),
    {
        self.awaiting_offer = false;
        self.paused = true;
    }

    /// Takes down that the studio is to offer decisions on a failed audit.
    pub fn await_offer(&mut self)
        ensures
            final(self)@ == (LoopV { awaiting_offer: true, ..old(self)@ }),
    {
        self.awaiting_offer = true;
    }

    /// How the loop goes on after a call.
    pub fn after_call(&mut self, tool: &str, failed: bool, cards: &CallCards) -> (r: CallStep)
        ensures
            r == call_step(tool@, failed, old(self)@.awaiting_offer, *cards),
            final(self)@ == (LoopV {
                paused: old(self)@.paused || r == CallStep::Pause,
                ..old(self)@
            }),
    {
        if cards.chain || cards.audit {
            self.paused = true;
            return CallStep::Pause;
        }
        if text::same(tool, "continue_writing") || text::same(tool, "revise_chapter") {
            if !cards.draft && prompts::defer_pause_for_studio_audit_offer(
                failed,
                self.awaiting_offer,
            ) {
                return CallStep::EndBatch;
            }
            self.paused = true;
            return CallStep::Pause;
        }
        if (text::same(tool, "audit_chapter") || text::same(tool, "audit_chapters"))
            && cards.next {
            self.paused = true;
            return CallStep::Pause;
        }
        CallStep::NextCall
    }

    /// Whether the studio is to offer decisions on a failed audit.
    pub fn is_awaiting_offer(&self) -> (r: bool)
        ensures
            r == self@.awaiting_offer,
    {
        self.awaiting_offer
    }

    /// Whether the turn stopped for the author.
    pub fn is_paused(&self) -> (r: bool)
        ensures
            r == self@.paused,
    {
        self.paused
    }

    /// What the model said.
    pub fn said(&self) -> (r: &str)
        ensures
            r@ == self@.words,
    {
        self.words.as_str()
    }
}

/// Writing or revising never chains into another call: after it the round ends.
pub proof fn one_chapter_a_round(tool: Seq<char>, failed: bool, awaiting: bool, c: CallCards)
    requires
        tool == "continue_writing"@ || tool == "revise_chapter"@,
    ensures
        call_step(tool, failed, awaiting, c) != CallStep::NextCall,
{
}

/// A reading tool is run at most twice in a row: the third call in a row is
/// answered without running it.
pub proof fn reading_does_not_spin(
    s: LoopV,
    content: Seq<char>,
    calls: Seq<ModelCallV>,
    owes: bool,
    bound: Option<Seq<char>>,
)
    requires
        s.sound(),
        calls.len() > 0,
        reading_tool(calls[0].name),
        s.repeated == calls[0].name,
        s.repeats == 2,
    ensures
        replied(s, content, calls, owes, bound).1 is Skip,
        replied(s, content, calls, owes, bound).0.repeats == 0,
{
}

/// The model is reminded at most once in a turn.
pub proof fn one_reminder(
    s: LoopV,
    content: Seq<char>,
    calls: Seq<ModelCallV>,
    owes: bool,
    bound: Option<Seq<char>>,
)
    ensures
        replied(s, content, calls, owes, bound).1 is Nudge ==> !s.nudged && replied(
            s,
            content,
            calls,
            owes,
            bound,
        ).0.nudged,
        s.nudged ==> replied(s, content, calls, owes, bound).0.nudged,
{
}

// ---------------------------------------------------------------------------
// The end of the turn
// ---------------------------------------------------------------------------

/// The fixed card of a failed audit that the studio offered no decisions on.
pub open spec fn fallback_card(
    s: ThreadV,
    awaiting_offer: bool,
    stored: Seq<IssueV>,
    queue_active: bool,
) -> (ThreadV, Option<CardV>) {
    match s.pending_audit {
        Some(p) => if awaiting_offer && p.awaiting_offer && p.kind == AuditGateKind::Content {
            let opened = audit_offers::content_gate(
                s,
                p.project,
                p.chapter,
                if p.issues.len() > 0 {
                    p.issues
                } else {
                    stored
                },
                queue_active,
                None,
            );
            (opened.0, Some(opened.1))
        } else {
            (s, None)
        },
        None => (s, None),
    }
}

impl ThreadState {
    /// Opens the fixed card of a failed audit that the studio offered no
    /// decisions on. `stored` are the issues of the stored audit.
    pub fn open_audit_offer_fallback(
        &mut self,
        awaiting_offer: bool,
        stored: Vec<AuditIssue>,
        queue_active: bool,
    ) -> (r: Option<Card>)
        ensures
            (final(self)@, thread_state::opt_view(r)) == fallback_card(
                old(self)@,
                awaiting_offer,
                issues::issue_list(stored@),
                queue_active,
            ),
    {
        let project: String;
        let chapter: u32;
        let found: Vec<AuditIssue>;
        match &self.pending_audit {
            Some(p) => {
                let pending = p.awaiting_offer && p.kind == AuditGateKind::Content;
                if !prompts::should_open_audit_offer_fallback(awaiting_offer, pending) {
                    return None;
                }
                project = p.project.clone();
                chapter = p.chapter;
                assert(issues::issue_list(p.issues@).len() == p.issues.len());
                found = if p.issues.len() > 0 {
                    issues::copy_issues(&p.issues)
                } else {
                    stored
                };
            },
            None => {
                return None;
            },
        }
        Some(self.open_content_audit_gate(project.as_str(), chapter, found, queue_active, None))
    }
}

/// A failed audit never leaves the thread waiting without a card: one that waits
/// for the studio opens the fixed card at the end of the turn.
pub proof fn failed_audit_gets_a_card(
    s: ThreadV,
    project: Seq<char>,
    chapter: u32,
    found: Seq<IssueV>,
    stored: Seq<IssueV>,
    queue_active: bool,
)
    ensures
        ({
            let waiting = audit_offers::awaiting_studio(s, project, chapter, found);
            let after = fallback_card(waiting, true, stored, queue_active);
            &&& after.1 is Some
            &&& after.0.pending_audit matches Some(p)
            &&& !p.awaiting_offer
        }),
{
}

/// A message of the thread.
pub struct SaidMessage {
    pub role: String,
    pub content: String,
}

/// A message of the thread, by contents.
pub struct SaidV {
    pub role: Seq<char>,
    pub content: Seq<char>,
}

impl View for SaidMessage {
    type V = SaidV;

    open spec fn view(&self) -> SaidV {
        SaidV { role: self.role@, content: self.content@ }
    }
}

/// The messages by contents.
pub open spec fn said_list(v: Seq<SaidMessage>) -> Seq<SaidV> {
    Seq::new(v.len(), |i: int| v[i]@)
}

/// The message can close a turn: words of the model that are no checklist.
pub open spec fn can_close(m: SaidV) -> bool {
    m.role == "assistant"@ && text::trimmed(m.content).len() > 0 && !prompts::checklist_text(
        m.content,
    )
}

/// The last of the first `n` messages that can close a turn.
pub open spec fn last_closing(v: Seq<SaidV>, n: int) -> Option<Seq<char>>
    decreases n,
{
    if n <= 0 || n > v.len() {
        None
    } else if can_close(v[n - 1]) {
        Some(v[n - 1].content)
    } else {
        last_closing(v, n - 1)
    }
}

/// The item is a checklist in a bubble of its own.
pub open spec fn own_checklist(item: JsonV, agent_item: Seq<char>) -> bool {
    item.text("type"@) == Some("agent_message"@) && item.text("id"@) != Some(agent_item)
        && prompts::checklist_text(item.text_or_empty("text"@))
}

/// One of the items is a checklist in a bubble of its own.
pub open spec fn some_own_checklist(items: Seq<JsonV>, agent_item: Seq<char>) -> bool {
    exists|i: int| 0 <= i < items.len() && own_checklist(#[trigger] items[i], agent_item)
}

/// The turn shows a checklist in a bubble of its own.
pub open spec fn shows_own_checklist(turn: JsonV, turn_id: Seq<char>, agent_item: Seq<char>) -> bool {
    turn.text("id"@) == Some(turn_id) && match turn.list("items"@) {
        Some(items) => some_own_checklist(items, agent_item),
        None => false,
    }
}

/// One of the turns shows a checklist in a bubble of its own.
pub open spec fn some_turn_shows(
    turns: Seq<JsonV>,
    turn_id: Seq<char>,
    agent_item: Seq<char>,
) -> bool {
    exists|i: int|
        0 <= i < turns.len() && shows_own_checklist(#[trigger] turns[i], turn_id, agent_item)
}

/// Some turn with the id shows a checklist in a bubble of its own.
pub open spec fn has_own_checklist(turns: JsonV, turn_id: Seq<char>, agent_item: Seq<char>) -> bool {
    match turns {
        JsonV::List(v) => some_turn_shows(v, turn_id, agent_item),
        _ => false,
    }
}

/// The words that close a turn: what the model said, or else its last words in
/// the thread. A checklist that is shown already is not told again.
pub open spec fn closing_words(
    said: Seq<char>,
    messages: Seq<SaidV>,
    turns: JsonV,
    turn_id: Seq<char>,
    agent_item: Seq<char>,
) -> Seq<char> {
    let words = if text::trimmed(said).len() == 0 {
        match last_closing(messages, messages.len() as int) {
            Some(w) => w,
            None => said,
        }
    } else {
        said
    };
    if prompts::checklist_text(words) && has_own_checklist(turns, turn_id, agent_item) {
        Seq::empty()
    } else {
        words
    }
}

fn find_closing(messages: &Vec<SaidMessage>) -> (r: Option<String>)
    ensures
        text::opt_text(r) == last_closing(said_list(messages@), messages@.len() as int),
{
    let ghost v = said_list(messages@);
    let mut n: usize = messages.len();
    while n > 0
        invariant
            n <= messages.len(),
            v == said_list(messages@),
            last_closing(v, v.len() as int) == last_closing(v, n as int),
        decreases n,
    {
        assert(v[n - 1] == messages@[n - 1]@);
        let m = &messages[n - 1];
        if text::same(m.role.as_str(), "assistant") && !text::trim(m.content.as_str()).is_empty()
            && !prompts::is_audit_checklist_text(m.content.as_str()) {
            return Some(m.content.clone());
        }
        n = n - 1;
    }
    None
}

fn item_is_own_checklist(item: &Json, agent_item: &str) -> (r: bool)
    ensures
        r == own_checklist(item@, agent_item@),
{
    let message = match item.get_str("type") {
        Some(w) => text::same(w, "agent_message"),
        None => false,
    };
    let same_item = match item.get_str("id") {
        Some(w) => text::same(w, agent_item),
        None => false,
    };
    message && !same_item && prompts::is_audit_checklist_text(item.str_or_empty("text").as_str())
}

fn turn_shows_checklist(turn: &Json, turn_id: &str, agent_item: &str) -> (r: bool)
    ensures
        r == shows_own_checklist(turn@, turn_id@, agent_item@),
{
    let here = match turn.get_str("id") {
        Some(w) => text::same(w, turn_id),
        None => false,
    };
    if !here {
        return false;
    }
    match turn.get_list("items") {
        Some(items) => {
            let ghost v = json::items(items@);
            let mut i: usize = 0;
            while i < items.len()
                invariant
                    i <= items.len(),
                    v == json::items(items@),
                    turn@.text("id"@) == Some(turn_id@),
                    turn@.list("items"@) == Some(v),
                    forall|j: int| 0 <= j < i ==> !own_checklist(#[trigger] v[j], agent_item@),
                decreases items.len() - i,
            {
                assert(v[i as int] == items@[i as int]@);
                if item_is_own_checklist(&items[i], agent_item) {
                    assert(some_own_checklist(v, agent_item@));
                    return true;
                }
                i = i + 1;
            }
            false
        },
        None => false,
    }
}

fn checklist_has_bubble(turns: &Json, turn_id: &str, agent_item: &str) -> (r: bool)
    ensures
        r == has_own_checklist(turns@, turn_id@, agent_item@),
{
    match turns {
        Json::List(list) => {
            proof {
                json::list_view(*list);
            }
            let ghost v = json::items(list@);
            let mut i: usize = 0;
            while i < list.len()
                invariant
                    i <= list.len(),
                    v == json::items(list@),
                    turns@ == JsonV::List(v),
                    forall|j: int|
                        0 <= j < i ==> !shows_own_checklist(
                            #[trigger] v[j],
                            turn_id@,
                            agent_item@,
                        ),
                decreases list.len() - i,
            {
                assert(v[i as int] == list@[i as int]@);
                if turn_shows_checklist(&list[i], turn_id, agent_item) {
                    assert(some_turn_shows(v, turn_id@, agent_item@));
                    return true;
                }
                i = i + 1;
            }
            false
        },
        _ => false,
    }
}

/// The words that close a turn.
pub fn choose_closing(
    said: &str,
    messages: &Vec<SaidMessage>,
    turns: &Json,
    turn_id: &str,
    agent_item: &str,
) -> (r: String)
    ensures
        r@ == closing_words(said@, said_list(messages@), turns@, turn_id@, agent_item@),
{
    let words = if text::trim(said).is_empty() {
        match find_closing(messages) {
            Some(w) => w,
            None => said.to_owned(),
        }
    } else {
        said.to_owned()
    };
    if prompts::is_audit_checklist_text(words.as_str()) && checklist_has_bubble(
        turns,
        turn_id,
        agent_item,
    ) {
        String::new()
    } else {
        words
    }
}

} // verus!
