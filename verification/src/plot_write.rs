//! The answer to "no plot card is active": a card is activated or designed,
//! and the chapter is written after it.

use vstd::prelude::*;

use crate::chain::OfferKind;
use crate::json::{Json, JsonV};
use crate::picks;
use crate::text;
use crate::thread_state::{ThreadState, ThreadV};

verus! {

/// What was chosen.
pub enum PlotWriteGateAction {
    ActivateAndWrite { project: String, title: String },
    Dismiss,
    Tool { name: String, args: Json },
}

/// What was chosen, by contents.
pub enum ActionV {
    ActivateAndWrite { project: Seq<char>, title: Seq<char> },
    Dismiss,
    Tool { name: Seq<char>, args: JsonV },
}

impl View for PlotWriteGateAction {
    type V = ActionV;

    open spec fn view(&self) -> ActionV {
        match self {
            PlotWriteGateAction::ActivateAndWrite { project, title } => ActionV::ActivateAndWrite {
                project: project@,
                title: title@,
            },
            PlotWriteGateAction::Dismiss => ActionV::Dismiss,
            PlotWriteGateAction::Tool { name, args } => ActionV::Tool { name: name@, args: args@ },
        }
    }
}

/// A tool to run; `confirmed` marks a call that needs no further approval.
pub struct PlotCall {
    pub name: String,
    pub args: Json,
    pub confirmed: bool,
}

/// A tool to run, by contents.
pub struct CallV {
    pub name: Seq<char>,
    pub args: JsonV,
    pub confirmed: bool,
}

impl View for PlotCall {
    type V = CallV;

    open spec fn view(&self) -> CallV {
        CallV { name: self.name@, args: self.args@, confirmed: self.confirmed }
    }
}

/// What comes next: something is said and the matter ends, or a tool runs
/// after `body` was said.
pub enum PlotStep {
    Say(String),
    Run { call: PlotCall, body: String },
}

/// What comes next, by contents.
pub enum StepV {
    Say(Seq<char>),
    Run { call: CallV, body: Seq<char> },
}

impl View for PlotStep {
    type V = StepV;

    open spec fn view(&self) -> StepV {
        match self {
            PlotStep::Say(s) => StepV::Say(s@),
            PlotStep::Run { call, body } => StepV::Run { call: call@, body: body@ },
        }
    }
}

/// The call that writes the next chapter.
pub open spec fn write_call(project: Seq<char>) -> CallV {
    CallV {
        name: "continue_writing"@,
        args: JsonV::empty_object().put("project"@, JsonV::Text(project)),
        confirmed: true,
    }
}

fn write_next(project: &str) -> (r: PlotCall)
    ensures
        r@ == write_call(project@),
{
    PlotCall {
        name: "continue_writing".to_owned(),
        args: Json::object().with_str("project", project),
        confirmed: true,
    }
}

/// The first step: a card is activated, the chosen tool runs, or nothing does.
pub open spec fn first_step(a: ActionV) -> StepV {
    match a {
        ActionV::Dismiss => StepV::Say("已取消写章。需要时再说「继续」或「写下一章」。"@),
        ActionV::ActivateAndWrite { project, title } => StepV::Run {
            call: CallV {
                name: "update_plot"@,
                args: JsonV::empty_object().put("project"@, JsonV::Text(project)).put(
                    "title"@,
                    JsonV::Text(title),
                ).put("status"@, JsonV::Text("in_progress"@)).put(
                    "set_active_main"@,
                    JsonV::Bool(true),
                ),
                confirmed: true,
            },
            body: "正在激活剧情卡「"@ + title + "」并继续写章…"@,
        },
        ActionV::Tool { name, args } => StepV::Run {
            call: CallV {
                name,
                args,
                confirmed: name == "design_plot"@ || name == "continue_writing"@,
            },
            body: "已选择："@ + name + "…"@,
        },
    }
}

/// The tool did not get through: it was blocked or failed.
pub open spec fn call_failed(data: JsonV) -> bool {
    data.flag("blocked"@) || data.get("error"@) is Some
}

fn is_call_failed(data: &Json) -> (r: bool)
    ensures
        r == call_failed(data@),
{
    data.is_true("blocked") || data.get("error").is_some()
}

/// The step after the first tool's result. The chapter is written once a card
/// was activated, or designed for a known project.
pub open spec fn second_step(a: ActionV, body: Seq<char>, output: Seq<char>, data: JsonV) -> StepV {
    match a {
        ActionV::Dismiss => StepV::Say(body),
        ActionV::ActivateAndWrite { project, title } => if call_failed(data) {
            StepV::Say(body + "\n\n激活失败："@ + output)
        } else {
            StepV::Run { call: write_call(project), body: picks::with_output(body, output) }
        },
        ActionV::Tool { name, args } => {
            let project = args.text_or_empty("project"@);
            if name == "design_plot"@ && !call_failed(data) && project.len() > 0 {
                StepV::Run { call: write_call(project), body: picks::with_output(body, output) }
            } else {
                StepV::Say(picks::with_output(body, output))
            }
        },
    }
}

/// The closing words after the chapter was written; where writing was blocked,
/// a card that was activated points to the buttons.
pub open spec fn last_words(a: ActionV, body: Seq<char>, output: Seq<char>, data: JsonV) -> Seq<char> {
    let all = picks::with_output(body, output);
    if a is ActivateAndWrite && data.flag("blocked"@) {
        all + "\n\n请按下方选项继续。"@
    } else {
        all
    }
}

/// The cards that the written chapter is held against. Each is offered on its
/// own, whether or not one before it opened.
pub open spec fn cards_after(a: ActionV) -> Seq<OfferKind> {
    match a {
        ActionV::ActivateAndWrite { project, title } => seq![
            OfferKind::Mutation,
            OfferKind::Order,
            OfferKind::Plot,
            OfferKind::Expected,
            OfferKind::Setting,
            OfferKind::Next,
        ],
        ActionV::Tool { name, args } => seq![OfferKind::Next],
        ActionV::Dismiss => Seq::empty(),
    }
}

impl PlotWriteGateAction {
    /// The first step.
    pub fn first(&self) -> (r: PlotStep)
        ensures
            r@ == first_step(self@),
    {
        match self {
            PlotWriteGateAction::Dismiss => PlotStep::Say(
                "已取消写章。需要时再说「继续」或「写下一章」。".to_owned(),
            ),
            PlotWriteGateAction::ActivateAndWrite { project, title } => {
                let mut body = "正在激活剧情卡「".to_owned();
                body.push_str(title.as_str());
                body.push_str("」并继续写章…");
                let args = Json::object().with_str("project", project.as_str()).with_str(
                    "title",
                    title.as_str(),
                ).with_str("status", "in_progress").with_bool("set_active_main", true);
                PlotStep::Run {
                    call: PlotCall { name: "update_plot".to_owned(), args, confirmed: true },
                    body,
                }
            },
            PlotWriteGateAction::Tool { name, args } => {
                let mut body = "已选择：".to_owned();
                body.push_str(name.as_str());
                body.push_str("…");
                let confirmed = text::same(name.as_str(), "design_plot") || text::same(
                    name.as_str(),
                    "continue_writing",
                );
                PlotStep::Run {
                    call: PlotCall { name: name.clone(), args: args.copy(), confirmed },
                    body,
                }
            },
        }
    }

    /// The step after the first tool's result.
    pub fn second(&self, body: &str, output: &str, data: &Json) -> (r: PlotStep)
        ensures
            r@ == second_step(self@, body@, output@, data@),
    {
        match self {
            PlotWriteGateAction::Dismiss => PlotStep::Say(body.to_owned()),
            PlotWriteGateAction::ActivateAndWrite { project, title: _ } => {
                if is_call_failed(data) {
                    let mut s = body.to_owned();
                    s.push_str("\n\n激活失败：");
                    s.push_str(output);
                    return PlotStep::Say(s);
                }
                PlotStep::Run {
                    call: write_next(project.as_str()),
                    body: picks::intro_and_output(body, output),
                }
            },
            PlotWriteGateAction::Tool { name, args } => {
                let project = args.str_or_empty("project");
                let n: usize = project.as_str().unicode_len();
                if text::same(name.as_str(), "design_plot") && !is_call_failed(data) && n > 0 {
                    PlotStep::Run {
                        call: write_next(project.as_str()),
                        body: picks::intro_and_output(body, output),
                    }
                } else {
                    PlotStep::Say(picks::intro_and_output(body, output))
                }
            },
        }
    }

    /// The closing words after the chapter was written.
    pub fn close(&self, body: &str, output: &str, data: &Json) -> (r: String)
        ensures
            r@ == last_words(self@, body@, output@, data@),
    {
        let mut all = picks::intro_and_output(body, output);
        if matches!(self, PlotWriteGateAction::ActivateAndWrite { .. }) && data.is_true("blocked") {
            all.push_str("\n\n请按下方选项继续。");
        }
        all
    }

    /// The cards that the written chapter is held against.
    pub fn cards(&self) -> (r: Vec<OfferKind>)
        ensures
            r@ == cards_after(self@),
    {
        let v = match self {
            PlotWriteGateAction::ActivateAndWrite { .. } => vec![
                OfferKind::Mutation,
                OfferKind::Order,
                OfferKind::Plot,
                OfferKind::Expected,
                OfferKind::Setting,
                OfferKind::Next,
            ],
            PlotWriteGateAction::Tool { .. } => vec![OfferKind::Next],
            PlotWriteGateAction::Dismiss => Vec::new(),
        };
        assert(v@ =~= cards_after(self@));
        v
    }
}

impl ThreadState {
    /// Closes the card that asks for a plot card.
    pub fn take_plot_write(&mut self)
        ensures
            final(self)@ == (ThreadV { pending_plot_write: false, ..old(self)@ }),
    {
        self.pending_plot_write = false;
    }
}

/// No chapter is written after a card that could not be activated or designed.
pub proof fn failed_card_writes_nothing(a: ActionV, body: Seq<char>, output: Seq<char>, data: JsonV)
    requires
        call_failed(data),
    ensures
        second_step(a, body, output, data) is Say,
{
}

} // verus!
