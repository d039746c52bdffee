//! What follows a decision on a change, and on what depends on it.

use vstd::prelude::*;

use crate::chain::OfferKind;
use crate::gates;
use crate::gates::{GateCatalog, GateV};
use crate::json;
use crate::json::{Json, JsonV};
use crate::offers;
use crate::offers::{Card, CardV};
use crate::parse_ops::ImpactOp;
use crate::prompts;
use crate::text;
use crate::thread_state;
use crate::thread_state::{ImpactV, MutationV, PendingImpact, ThreadState, ThreadV};

verus! {

// ---------------------------------------------------------------------------
// A decision on a change
// ---------------------------------------------------------------------------

/// What a decision on a change leads to.
pub enum ConfirmPlan {
    /// No change waits.
    NoChange(String),
    /// The change is dropped. Where it was a step of the setup, that step is
    /// offered again for the project.
    Discard { summary: String, setup_project: Option<String> },
    /// The decision was about another change: the card is shown again.
    Mismatch { summary: String, card: Card },
    /// The change is applied by the tool.
    Apply { tool: String, args: Json, intro: String, reaudit_after: bool },
}

/// What a decision on a change leads to, by contents.
#[allow(inconsistent_fields)]
pub enum ConfirmPlanV {
    NoChange(Seq<char>),
    Discard { summary: Seq<char>, setup_project: Option<Seq<char>> },
    Mismatch { summary: Seq<char>, card: CardV },
    Apply { tool: Seq<char>, args: JsonV, intro: Seq<char>, reaudit_after: bool },
}

impl View for ConfirmPlan {
    type V = ConfirmPlanV;

    open spec fn view(&self) -> ConfirmPlanV {
        match self {
            ConfirmPlan::NoChange(s) => ConfirmPlanV::NoChange(s@),
            ConfirmPlan::Discard { summary, setup_project } => ConfirmPlanV::Discard {
                summary: summary@,
                setup_project: text::opt_text(*setup_project),
            },
            ConfirmPlan::Mismatch { summary, card } => ConfirmPlanV::Mismatch {
                summary: summary@,
                card: card@,
            },
            ConfirmPlan::Apply { tool, args, intro, reaudit_after } => ConfirmPlanV::Apply {
                tool: tool@,
                args: args@,
                intro: intro@,
                reaudit_after: *reaudit_after,
            },
        }
    }
}

/// The tool's change is a step of the setup.
pub open spec fn setup_change(t: Seq<char>) -> bool {
    t == "design_master_outline"@ || t == "design_arc_outline"@ || t == "upsert_setting"@ || t
        == "supplement_setting"@
}

fn is_setup_change(t: &str) -> (r: bool)
    ensures
        r == setup_change(t@),
{
    text::same(t, "design_master_outline") || text::same(t, "design_arc_outline") || text::same(
        t,
        "upsert_setting",
    ) || text::same(t, "supplement_setting")
}

/// The card of a change, shown again with its preview.
pub open spec fn change_card(m: MutationV, c: Seq<GateV>) -> CardV {
    CardV {
        prompt: "待确认："@ + m.summary,
        options: gates::shown(c, "confirm_mutation"@),
        preview: Some(
            (
                m.preview,
                match m.preview.get("diffs"@) {
                    Some(d) => d,
                    None => JsonV::List(Seq::empty()),
                },
            ),
        ),
    }
}

/// What a decision leads to. A change that is applied or dropped waits no more;
/// one that the decision was not about stays.
pub open spec fn confirmed(s: ThreadV, c: Seq<GateV>, name: Seq<char>, args: JsonV) -> (
    ThreadV,
    ConfirmPlanV,
) {
    let cleared = ThreadV { pending_mutation: None, ..s };
    if name == "__discard_mutation"@ {
        (
            cleared,
            ConfirmPlanV::Discard {
                summary: "已放弃此次修改，磁盘未变更。"@,
                setup_project: match s.pending_mutation {
                    Some(m) => if setup_change(m.apply_tool) {
                        m.apply_args.text("project"@)
                    } else {
                        None
                    },
                    None => None,
                },
            },
        )
    } else {
        match s.pending_mutation {
            Some(m) => if args.text_or_empty("mutation_id"@) != m.mutation_id {
                (
                    s,
                    ConfirmPlanV::Mismatch {
                        summary: "确认失败：mutation_id 不匹配（期望 "@ + m.mutation_id
                            + "）。请重新点「应用修改」。"@,
                        card: change_card(m, c),
                    },
                )
            } else {
                (
                    cleared,
                    ConfirmPlanV::Apply {
                        tool: m.apply_tool,
                        args: m.apply_args,
                        intro: "已确认，正在应用："@ + m.summary,
                        reaudit_after: m.reaudit_after,
                    },
                )
            },
            None => (s, ConfirmPlanV::NoChange("没有待确认的修改。"@)),
        }
    }
}

/// What happens once a change was applied.
pub enum ApplyNext {
    /// The tool asks for another confirmation.
    Nested,
    /// The chapter is audited again, where it is known.
    Reaudit(Option<(String, u32)>),
    /// The next card is looked for.
    Advance,
}

/// What happens once a change was applied, by contents.
pub enum ApplyNextV {
    Nested,
    Reaudit(Option<(Seq<char>, u32)>),
    Advance,
}

impl View for ApplyNext {
    type V = ApplyNextV;

    open spec fn view(&self) -> ApplyNextV {
        match self {
            ApplyNext::Nested => ApplyNextV::Nested,
            ApplyNext::Reaudit(t) => ApplyNextV::Reaudit(
                match t {
                    Some(p) => Some((p.0@, p.1)),
                    None => None,
                },
            ),
            ApplyNext::Advance => ApplyNextV::Advance,
        }
    }
}

/// What happens once a change was applied: a revision that was asked for by an
/// audit is audited again.
pub open spec fn applied_next(
    tool: Seq<char>,
    args: JsonV,
    reaudit_after: bool,
    auto_reaudit: bool,
    data: JsonV,
) -> ApplyNextV {
    let project = args.text_or_empty("project"@);
    let chapter = json::uint_or(args, "chapter"@, 0) as u32;
    if data.flag("needs_confirm"@) {
        ApplyNextV::Nested
    } else if reaudit_after && auto_reaudit && (tool == "revise_chapter"@ || tool == "steer_run"@) {
        ApplyNextV::Reaudit(
            if project.len() > 0 && chapter > 0 {
                Some((project, chapter))
            } else {
                None
            },
        )
    } else {
        ApplyNextV::Advance
    }
}

/// What happens once a change was applied.
pub fn after_apply(
    tool: &str,
    args: &Json,
    reaudit_after: bool,
    auto_reaudit: bool,
    data: &Json,
) -> (r: ApplyNext)
    ensures
        r@ == applied_next(tool@, args@, reaudit_after, auto_reaudit, data@),
{
    if data.is_true("needs_confirm") {
        return ApplyNext::Nested;
    }
    if reaudit_after && auto_reaudit && (text::same(tool, "revise_chapter") || text::same(
        tool,
        "steer_run",
    )) {
        let project = args.str_or_empty("project");
        let chapter: u32 = json::get_u64_or(args, "chapter", 0) as u32;
        if !project.as_str().is_empty() && chapter > 0 {
            return ApplyNext::Reaudit(Some((project, chapter)));
        }
        return ApplyNext::Reaudit(None);
    }
    ApplyNext::Advance
}

/// The arguments of an audit that checks whether the last issues are gone.
pub open spec fn reaudit_args(project: Seq<char>, chapter: u32) -> JsonV {
    JsonV::empty_object().put("project"@, JsonV::Text(project)).put(
        "chapter"@,
        JsonV::Uint(chapter as u64),
    ).put("verify_previous"@, JsonV::Bool(true))
}

/// The arguments of an audit that checks whether the last issues are gone.
pub fn reaudit_call(project: &str, chapter: u32) -> (r: Json)
    ensures
        r@ == reaudit_args(project@, chapter),
{
    Json::object().with_str("project", project).with_u32("chapter", chapter).with_bool(
        "verify_previous",
        true,
    )
}

/// What is added to the summary after the audit of an applied revision.
pub open spec fn reaudit_closing(asked: bool, passed: bool, offered: bool) -> Seq<char> {
    if asked {
        "\n\n复审未通过，请按下方选项继续。"@
    } else if passed && offered {
        "\n\n复审通过，请选择下一步。"@
    } else if passed {
        "\n\n复审通过。可说「继续创作」写下一章。"@
    } else {
        Seq::empty()
    }
}

/// What is added to the summary after the audit of an applied revision.
pub fn close_reaudit(asked: bool, passed: bool, offered: bool) -> (r: String)
    ensures
        r@ == reaudit_closing(asked, passed, offered),
{
    if asked {
        "\n\n复审未通过，请按下方选项继续。".to_owned()
    } else if passed && offered {
        "\n\n复审通过，请选择下一步。".to_owned()
    } else if passed {
        "\n\n复审通过。可说「继续创作」写下一章。".to_owned()
    } else {
        String::new()
    }
}

/// What is said while the chapter of an applied change is audited again.
pub open spec fn reaudit_words(chapter: u32) -> Seq<char> {
    "\n\n修订已落盘，正在复审第"@ + text::dec(chapter as nat) + "章…"@
}

/// What is said while the chapter of an applied change is audited again.
pub fn say_reaudit(chapter: u32) -> (r: String)
    ensures
        r@ == reaudit_words(chapter),
{
    let mut s = "\n\n修订已落盘，正在复审第".to_owned();
    s.push_str(text::number(chapter as u64).as_str());
    s.push_str("章…");
    s
}

/// What is added to the summary once a change was applied and the next card was
/// looked for.
pub open spec fn advance_closing(asked: Option<OfferKind>) -> Seq<char> {
    match asked {
        Some(OfferKind::Impact) => {
            "\n\n已扫描依赖面，请选择是否自动同步修正受影响内容。"@
        },
        Some(OfferKind::Followup) => "\n\n正在请 Studio 给出下一步审批卡…"@,
        _ => Seq::empty(),
    }
}

/// What is added to the summary once a change was applied.
pub fn close_advance(asked: Option<OfferKind>) -> (r: String)
    ensures
        r@ == advance_closing(asked),
{
    match asked {
        Some(OfferKind::Impact) => {
            "\n\n已扫描依赖面，请选择是否自动同步修正受影响内容。".to_owned()
        },
        Some(OfferKind::Followup) => "\n\n正在请 Studio 给出下一步审批卡…".to_owned(),
        _ => String::new(),
    }
}

/// An outline that was applied is being rewritten, unless what depends on it is
/// asked about first.
pub open spec fn outline_noted(
    s: ThreadV,
    asked: Option<OfferKind>,
    tool: Seq<char>,
    data: JsonV,
) -> ThreadV {
    if asked != Some(OfferKind::Impact) && offers::outline_tool(tool) && !data.flag("blocked"@) {
        ThreadV { outline_rewrite_active: true, ..s }
    } else {
        s
    }
}

/// The card of a chapter that is shown again after a summary.
pub open spec fn chapter_card_again(s: ThreadV, c: Seq<GateV>, summary: Seq<char>) -> Option<CardV> {
    match s.pending_chapter_next {
        Some(n) => Some(
            offers::plain_card(
                if n.published {
                    prompts::published_prompt(n.chapter, n.plot_accept_open)
                } else {
                    prompts::hard_rule_prompt(n.chapter, summary)
                },
                gates::chapter_next_buttons(c, n.published, n.plot_accept_open),
            ),
        ),
        None => None,
    }
}

// ---------------------------------------------------------------------------
// A decision on what depends on a change
// ---------------------------------------------------------------------------

/// The words that a decision on what depends on a change is answered with.
pub open spec fn impact_words(op: ImpactOp, pending: Option<ImpactV>) -> Seq<char> {
    match pending {
        Some(p) => match op {
            ImpactOp::Sync => "已确认，正在同步修正 "@ + text::dec(p.hits.len())
                + " 处依赖位点…"@,
            ImpactOp::Skip => {
                "已跳过依赖同步。源对象已落盘；可稍后手动修订受影响正文/章纲。"@
            },
        },
        None => "没有待处理的影响同步。"@,
    }
}

impl ThreadState {
    /// What a decision on a change leads to.
    pub fn decide_mutation(&mut self, catalog: &GateCatalog, name: &str, args: &Json) -> (r:
        ConfirmPlan)
        ensures
            (final(self)@, r@) == confirmed(old(self)@, catalog@, name@, args@),
    {
        if text::same(name, "__discard_mutation") {
            let setup_project = match &self.pending_mutation {
                Some(m) => if is_setup_change(m.apply_tool.as_str()) {
                    match m.apply_args.get_str("project") {
                        Some(p) => Some(p.to_owned()),
                        None => None,
                    }
                } else {
                    None
                },
                None => None,
            };
            self.pending_mutation = None;
            return ConfirmPlan::Discard {
                summary: "已放弃此次修改，磁盘未变更。".to_owned(),
                setup_project,
            };
        }
        let plan = match &self.pending_mutation {
            Some(m) => {
                let id = args.str_or_empty("mutation_id");
                if !text::same(id.as_str(), m.mutation_id.as_str()) {
                    let mut summary = "确认失败：mutation_id 不匹配（期望 ".to_owned();
                    summary.push_str(m.mutation_id.as_str());
                    summary.push_str("）。请重新点「应用修改」。");
                    let mut prompt = "待确认：".to_owned();
                    prompt.push_str(m.summary.as_str());
                    let diffs = match m.preview.get("diffs") {
                        Some(d) => d.copy(),
                        None => {
                            let none: Vec<Json> = Vec::new();
                            proof {
                                json::list_view(none);
                                assert(json::items(none@) =~= Seq::<JsonV>::empty());
                            }
                            Json::List(none)
                        },
                    };
                    return ConfirmPlan::Mismatch {
                        summary,
                        card: Card {
                            prompt,
                            options: catalog.mutation_confirm_options(),
                            preview: Some((m.preview.copy(), diffs)),
                        },
                    };
                }
                let mut intro = "已确认，正在应用：".to_owned();
                intro.push_str(m.summary.as_str());
                ConfirmPlan::Apply {
                    tool: m.apply_tool.clone(),
                    args: m.apply_args.copy(),
                    intro,
                    reaudit_after: m.reaudit_after,
                }
            },
            None => {
                return ConfirmPlan::NoChange("没有待确认的修改。".to_owned());
            },
        };
        self.pending_mutation = None;
        plan
    }

    /// Notes that an outline which was applied is being rewritten.
    pub fn note_outline_applied(&mut self, asked: Option<OfferKind>, tool: &str, data: &Json)
        ensures
            final(self)@ == outline_noted(old(self)@, asked, tool@, data@),
    {
        let impact = match asked {
            Some(OfferKind::Impact) => true,
            _ => false,
        };
        if !impact && offers::is_outline_tool(tool) && !data.is_true("blocked") {
            self.outline_rewrite_active = true;
        }
    }

    /// The card of a chapter that is shown again after a summary.
    pub fn chapter_card_after(&self, catalog: &GateCatalog, summary: &str) -> (r: Option<Card>)
        ensures
            thread_state::opt_view(r) == chapter_card_again(self@, catalog@, summary@),
    {
        match &self.pending_chapter_next {
            Some(n) => Some(
                Card {
                    prompt: if n.published {
                        prompts::chapter_next_published_prompt(n.chapter, n.plot_accept_open)
                    } else {
                        prompts::chapter_next_hard_rule_prompt(n.chapter, summary)
                    },
                    options: catalog.chapter_next_options(n.published, n.plot_accept_open),
                    preview: None,
                },
            ),
            None => None,
        }
    }

    /// Takes what depends on a change off the thread, with the words for the
    /// decision on it.
    pub fn decide_impact(&mut self, op: ImpactOp) -> (r: (Option<PendingImpact>, String))
        ensures
            final(self)@ == (ThreadV { pending_impact: None, ..old(self)@ }),
            thread_state::opt_view(r.0) == old(self)@.pending_impact,
            r.1@ == impact_words(op, old(self)@.pending_impact),
    {
        let pending = self.pending_impact.take();
        let words = match &pending {
            Some(p) => match op {
                ImpactOp::Sync => {
                    let mut s = "已确认，正在同步修正 ".to_owned();
                    s.push_str(text::number(p.hits.len() as u64).as_str());
                    s.push_str(" 处依赖位点…");
                    s
                },
                ImpactOp::Skip => {
                    "已跳过依赖同步。源对象已落盘；可稍后手动修订受影响正文/章纲。".to_owned()
                },
            },
            None => "没有待处理的影响同步。".to_owned(),
        };
        (pending, words)
    }
}

/// A decision that names another change leaves the thread as it was, and a
/// change is applied at most once.
pub proof fn change_is_applied_once(s: ThreadV, c: Seq<GateV>, name: Seq<char>, args: JsonV)
    ensures
        ({
            let after = confirmed(s, c, name, args);
            &&& after.1 is Mismatch ==> after.0 == s
            &&& after.1 is Apply ==> confirmed(after.0, c, name, args).1 is NoChange
            &&& after.1 is Apply ==> (s.pending_mutation matches Some(m) && m.mutation_id
                == args.text_or_empty("mutation_id"@))
        }),
{
}

} // verus!
