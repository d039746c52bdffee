//! Writing and revising by a choice or by a known request: what runs, and what is
//! said about it.

use vstd::prelude::*;

use crate::audit_decisions;
use crate::chain::{ChainPath, OfferKind};
use crate::gates;
use crate::json;
use crate::json::{Json, JsonV};
use crate::offers;
use crate::offers::{StudioRequest, StudioRequestV};
use crate::text;
use crate::thread_state::{ThreadState, ThreadV};
use crate::writing;
use crate::writing::NextChapter;

verus! {

/// The choice confirmed the tool already.
pub open spec fn confirmed_by_choice(t: Seq<char>) -> bool {
    t == "continue_writing"@ || t == "continue_writing_batch"@
}

/// Whether the choice confirmed the tool already, so that it asks no second time.
pub fn is_confirmed_by_choice(tool: &str) -> (r: bool)
    ensures
        r == confirmed_by_choice(tool@),
{
    text::same(tool, "continue_writing") || text::same(tool, "continue_writing_batch")
}

/// The project that the arguments name, or else the bound one; empty where there
/// is neither.
pub open spec fn named_project(args: JsonV, bound: Option<Seq<char>>) -> Seq<char> {
    match args.text("project"@) {
        Some(p) => p,
        None => gates::or_empty(bound),
    }
}

/// The project that the arguments name, or else the bound one.
pub fn project_named(args: &Json, bound: Option<&str>) -> (r: String)
    ensures
        r@ == named_project(args@, text::opt_str(bound)),
{
    match args.get_str("project") {
        Some(p) => p.to_owned(),
        None => match bound {
            Some(b) => b.to_owned(),
            None => String::new(),
        },
    }
}

/// The bound project, or a question mark.
pub open spec fn shown_project(bound: Option<Seq<char>>) -> Seq<char> {
    match bound {
        Some(b) => b,
        None => "?"@,
    }
}

fn push_project(s: &mut String, bound: Option<&str>)
    ensures
        final(s)@ == old(s)@ + shown_project(text::opt_str(bound)),
{
    match bound {
        Some(b) => {
            s.push_str(b);
        },
        None => {
            s.push_str("?");
        },
    }
}

// ---------------------------------------------------------------------------
// The next chapter in order
// ---------------------------------------------------------------------------

/// The words at the start of the next chapter in order.
pub open spec fn order_intro(args: JsonV) -> Seq<char> {
    "按顺序创作第"@ + text::dec(json::uint_or(args, "chapter"@, 0) as nat) + "章…"@
}

/// The words at the start of the next chapter in order.
pub fn chapter_order_intro(args: &Json) -> (r: String)
    ensures
        r@ == order_intro(args@),
{
    let mut s = "按顺序创作第".to_owned();
    s.push_str(text::number(json::get_u64_or(args, "chapter", 0)).as_str());
    s.push_str("章…");
    s
}

/// What is said after a tool ran.
pub open spec fn with_output(intro: Seq<char>, output: Seq<char>) -> Seq<char> {
    intro + "\n\n"@ + output
}

/// What is said after a tool ran.
pub fn intro_and_output(intro: &str, output: &str) -> (r: String)
    ensures
        r@ == with_output(intro@, output@),
{
    let mut s = intro.to_owned();
    s.push_str("\n\n");
    s.push_str(output);
    s
}

/// The summary after the next chapter in order.
pub open spec fn order_summary(summary: Seq<char>, asked: Option<OfferKind>) -> Seq<char> {
    match asked {
        Some(OfferKind::Mutation) => summary + "\n\n请选择：应用修改 / 放弃。"@,
        Some(OfferKind::Impact) => {
            summary + "\n\n已扫描依赖面，请选择是否自动同步修正。"@
        },
        _ => summary,
    }
}

/// The summary after the next chapter in order.
pub fn close_chapter_order(summary: String, asked: Option<OfferKind>) -> (r: String)
    ensures
        r@ == order_summary(summary@, asked),
{
    let mut s = summary;
    match asked {
        Some(OfferKind::Mutation) => {
            s.push_str("\n\n请选择：应用修改 / 放弃。");
        },
        Some(OfferKind::Impact) => {
            s.push_str("\n\n已扫描依赖面，请选择是否自动同步修正。");
        },
        _ => {},
    }
    s
}

// ---------------------------------------------------------------------------
// The choice after a chapter
// ---------------------------------------------------------------------------

/// The words where a draft of the next chapter is in the way.
pub open spec fn draft_words(n: NextChapter) -> Seq<char> {
    let m = writing::draft_meta(n);
    "第"@ + text::dec(m.0 as nat) + "章已有正文（约 "@ + text::dec(m.1 as nat)
        + " 字），但尚未发布（next_chapter="@ + text::dec(m.0 as nat)
        + "）。\n「继续创作」有歧义，请选择下一步。"@
}

/// Going on without a chapter, while the next one has a draft: what is said, and
/// what the studio is asked.
pub open spec fn draft_in_the_way(
    tool: Seq<char>,
    args: JsonV,
    bound: Option<Seq<char>>,
    n: NextChapter,
) -> Option<(Seq<char>, StudioRequestV)> {
    let project = named_project(args, bound);
    if tool == "continue_writing"@ && args.uint("chapter"@) is None && project.len() > 0
        && writing::next_draft(n) >= n.draft_min_chars {
        let m = writing::draft_meta(n);
        Some((draft_words(n), offers::draft_request(project, m.0, m.2)))
    } else {
        None
    }
}

/// Going on without a chapter, while the next one has a draft.
pub fn draft_blocks_choice(tool: &str, args: &Json, bound: Option<&str>, next: &NextChapter) -> (r:
    Option<(String, StudioRequest)>)
    ensures
        (match r {
            Some(p) => Some((p.0@, p.1@)),
            None => None,
        }) == draft_in_the_way(tool@, args@, text::opt_str(bound), *next),
{
    if !text::same(tool, "continue_writing") || args.get_u64("chapter").is_some() {
        return None;
    }
    let project = project_named(args, bound);
    if project.as_str().is_empty() || writing::next_chapter_draft_chars(next)
        < next.draft_min_chars {
        return None;
    }
    let (chapter, chars, suggest) = writing::draft_exists_meta(next);
    let number = text::number(chapter as u64);
    let mut s = "第".to_owned();
    s.push_str(number.as_str());
    s.push_str("章已有正文（约 ");
    s.push_str(text::number(chars as u64).as_str());
    s.push_str(" 字），但尚未发布（next_chapter=");
    s.push_str(number.as_str());
    s.push_str("）。\n「继续创作」有歧义，请选择下一步。");
    Some((s, offers::draft_exists_request(project.as_str(), chapter, suggest)))
}

/// The call that is made: a chapter whose only fault was repaired is audited
/// instead of revised.
pub open spec fn call_after_repair(
    tool: Seq<char>,
    args: JsonV,
    bound: Option<Seq<char>>,
    repaired: bool,
) -> (Seq<char>, JsonV) {
    if tool == "revise_chapter"@ && repaired {
        (
            "audit_chapter"@,
            JsonV::empty_object().put(
                "project"@,
                JsonV::Text(named_project(args, bound)),
            ).put(
                "chapter"@,
                JsonV::Uint((json::uint_or(args, "chapter"@, 0) as u32) as u64),
            ),
        )
    } else {
        (tool, args)
    }
}

/// The call that is made after a repair was tried.
pub fn choice_call(tool: &str, args: &Json, bound: Option<&str>, repaired: bool) -> (r: (
    String,
    Json,
))
    ensures
        (r.0@, r.1@) == call_after_repair(tool@, args@, text::opt_str(bound), repaired),
{
    if text::same(tool, "revise_chapter") && repaired {
        let project = project_named(args, bound);
        let chapter: u32 = json::get_u64_or(args, "chapter", 0) as u32;
        return (
            "audit_chapter".to_owned(),
            Json::object().with_str("project", project.as_str()).with_u32("chapter", chapter),
        );
    }
    (tool.to_owned(), args.copy())
}

/// The words at the start of a tool.
pub open spec fn running_words(tool: Seq<char>, bound: Option<Seq<char>>) -> Seq<char> {
    "已识别指令，正在对《"@ + shown_project(bound) + "》执行 "@ + tool + "…"@
}

/// The words at the start of a chosen tool, with the note of a repair.
pub open spec fn choice_intro(
    note: Option<Seq<char>>,
    tool: Seq<char>,
    bound: Option<Seq<char>>,
) -> Seq<char> {
    match note {
        Some(n) => n + "\n\n"@ + running_words(tool, bound),
        None => running_words(tool, bound),
    }
}

fn say_running(tool: &str, bound: Option<&str>) -> (r: String)
    ensures
        r@ == running_words(tool@, text::opt_str(bound)),
{
    let mut s = "已识别指令，正在对《".to_owned();
    push_project(&mut s, bound);
    s.push_str("》执行 ");
    s.push_str(tool);
    s.push_str("…");
    s
}

/// The words at the start of a chosen tool.
pub fn chapter_choice_intro(note: Option<&str>, tool: &str, bound: Option<&str>) -> (r: String)
    ensures
        r@ == choice_intro(text::opt_str(note), tool@, text::opt_str(bound)),
{
    let running = say_running(tool, bound);
    match note {
        Some(n) => {
            let mut s = n.to_owned();
            s.push_str("\n\n");
            s.push_str(running.as_str());
            s
        },
        None => running,
    }
}

// ---------------------------------------------------------------------------
// A known request
// ---------------------------------------------------------------------------

/// The words at the start of a known request.
pub open spec fn request_intro(tool: Seq<char>, args: JsonV, bound: Option<Seq<char>>) -> Seq<char> {
    if tool == "audit_chapters"@ {
        if args.text("action"@) == Some("continue"@) {
            "正在续跑《"@ + shown_project(bound) + "》的审阅队列…"@
        } else {
            "已建立逐章审阅队列，正在对《"@ + shown_project(bound) + "》执行…"@
        }
    } else if tool == "list_plots"@ {
        "正在核对《"@ + shown_project(bound) + "》的剧情进度…"@
    } else {
        running_words(tool, bound)
    }
}

/// The words at the start of a known request.
pub fn known_request_intro(tool: &str, args: &Json, bound: Option<&str>) -> (r: String)
    ensures
        r@ == request_intro(tool@, args@, text::opt_str(bound)),
{
    if text::same(tool, "audit_chapters") {
        let going_on = match args.get_str("action") {
            Some(w) => text::same(w, "continue"),
            None => false,
        };
        if going_on {
            let mut s = "正在续跑《".to_owned();
            push_project(&mut s, bound);
            s.push_str("》的审阅队列…");
            return s;
        }
        let mut s = "已建立逐章审阅队列，正在对《".to_owned();
        push_project(&mut s, bound);
        s.push_str("》执行…");
        return s;
    }
    if text::same(tool, "list_plots") {
        let mut s = "正在核对《".to_owned();
        push_project(&mut s, bound);
        s.push_str("》的剧情进度…");
        return s;
    }
    say_running(tool, bound)
}

/// The summary of a known request: a report of the plots stands on its own.
pub open spec fn request_summary(tool: Seq<char>, intro: Seq<char>, output: Seq<char>) -> Seq<char> {
    if tool == "list_plots"@ {
        output
    } else {
        with_output(intro, output)
    }
}

/// The summary of a known request.
pub fn known_request_summary(tool: &str, intro: &str, output: &str) -> (r: String)
    ensures
        r@ == request_summary(tool@, intro@, output@),
{
    if text::same(tool, "list_plots") {
        output.to_owned()
    } else {
        intro_and_output(intro, output)
    }
}

/// The tool leads away from an audit that waits.
pub open spec fn leaves_audit(t: Seq<char>) -> bool {
    t == "continue_writing"@ || t == "revise_chapter"@
}

impl ThreadState {
    /// Drops an audit that waits where the tool leads away from it.
    pub fn drop_stale_audit(&mut self, tool: &str)
        ensures
            final(self)@ == if leaves_audit(tool@) {
                (ThreadV { pending_audit: None, ..old(self)@ })
            } else {
                old(self)@
            },
    {
        if text::same(tool, "continue_writing") || text::same(tool, "revise_chapter") {
            self.pending_audit = None;
        }
    }
}

// ---------------------------------------------------------------------------
// The summary once a card was opened
// ---------------------------------------------------------------------------

/// What a step between volumes asks for, by the phase that the data name.
pub open spec fn handoff_question(data: JsonV) -> Seq<char> {
    let phase = data.text_or_empty("volume_phase"@);
    if phase == "awaiting_sync"@ {
        "\n\n请选择：同步设定库 / 跳过。"@
    } else if phase == "awaiting_next_plot"@ {
        "\n\n请选择：设计并激活剧情卡。"@
    } else {
        "\n\n请选择：设计下卷卷纲。"@
    }
}

/// What is said of a write that the plot blocked.
pub open spec fn plot_blocked_words(data: JsonV) -> Seq<char> {
    if data.text("reason"@) == Some("need_design_plot"@) {
        "⛔ 写章已拦截：需要先设计并激活剧情卡。请在下方选择下一步。"@
    } else {
        "⛔ 写章已拦截：剧情卡「"@ + match data.text("plot_title"@) {
            Some(t) => t,
            None => "剧情卡"@,
        } + "」尚未激活。请在下方选择下一步。"@
    }
}

/// The summary once the card of a kind was opened. `hint` belongs to the step of
/// the setup that waits; `published` to the choice after a chapter that waits.
/// Only the path after a choice speaks of expected events, only the path after a
/// request of the audit of a volume.
pub open spec fn summary_with_card(
    path: ChainPath,
    summary: Seq<char>,
    asked: Option<OfferKind>,
    data: JsonV,
    hint: Seq<char>,
    published: bool,
) -> Seq<char> {
    match asked {
        None => summary,
        Some(OfferKind::Mutation) => audit_decisions::or_text(
            data.text("summary"@),
            "待确认修改"@,
        ) + "\n\n请选择：应用修改 / 放弃。"@,
        Some(OfferKind::Impact) => {
            summary + "\n\n已扫描依赖面，请选择是否自动同步修正。"@
        },
        Some(OfferKind::Followup) => summary + "\n\n正在请 Studio 给出下一步审批卡…"@,
        Some(OfferKind::Order) => "不能跳章。请先写第"@ + text::dec(
            json::uint_or(data, "next_chapter"@, 0) as nat,
        ) + "章。"@,
        Some(OfferKind::Expected) => if path == ChainPath::ChapterChoice {
            match data.text("output"@) {
                Some(t) => t,
                None => "预处理预期待决策：请在审批卡选择纳入 / 跳过 / 稍后。"@,
            }
        } else {
            summary
        },
        Some(OfferKind::Plot) => plot_blocked_words(data),
        Some(OfferKind::Setup) => summary + "\n\n"@ + hint,
        Some(OfferKind::Draft) => "第"@ + text::dec(json::uint_or(data, "chapter"@, 0) as nat)
            + "章已有未发布正文，请选择：审校本章 / 修订本章 / 写下一章。"@,
        Some(OfferKind::Volume) => {
            summary + "\n\n本卷已结束 — 请选择：同步设定库 / 跳过。"@
        },
        Some(OfferKind::Handoff) => summary + handoff_question(data),
        Some(OfferKind::VolumeAudit) => if path == ChainPath::Request {
            summary + "\n\n请选择：按建议深审 / 结束复盘。"@
        } else {
            summary
        },
        Some(OfferKind::Audit) => summary,
        Some(OfferKind::Setting) => {
            summary
                + "\n\n设定审计 BLOCKER — 请选择：补全/修订设定卡 / 再跑设定审计 / 接受并继续。"@
        },
        Some(OfferKind::Next) => if published {
            summary + "\n\n请选择：继续创作；或其他说明。"@
        } else {
            summary + "\n\n请选择：修正本章；或其他说明。"@
        },
    }
}

fn followed_by(summary: &str, tail: &str) -> (r: String)
    ensures
        r@ == summary@ + tail@,
{
    let mut s = summary.to_owned();
    s.push_str(tail);
    s
}

fn text_or(data: &Json, key: &str, other: &str) -> (r: String)
    ensures
        r@ == (match data@.text(key@) {
            Some(t) => t,
            None => other@,
        }),
{
    match data.get_str(key) {
        Some(t) => t.to_owned(),
        None => other.to_owned(),
    }
}

/// The summary once the card of a kind was opened.
pub fn summarize_with_card(
    path: ChainPath,
    summary: &str,
    asked: Option<OfferKind>,
    data: &Json,
    hint: &str,
    published: bool,
) -> (r: String)
    ensures
        r@ == summary_with_card(path, summary@, asked, data@, hint@, published),
{
    let kind = match asked {
        Some(k) => k,
        None => {
            return summary.to_owned();
        },
    };
    match kind {
        OfferKind::Mutation => {
            let t = text_or(data, "summary", "待确认修改");
            followed_by(t.as_str(), "\n\n请选择：应用修改 / 放弃。")
        },
        OfferKind::Impact => followed_by(
            summary,
            "\n\n已扫描依赖面，请选择是否自动同步修正。",
        ),
        OfferKind::Followup => followed_by(
            summary,
            "\n\n正在请 Studio 给出下一步审批卡…",
        ),
        OfferKind::Order => {
            let mut s = "不能跳章。请先写第".to_owned();
            s.push_str(text::number(json::get_u64_or(data, "next_chapter", 0)).as_str());
            s.push_str("章。");
            s
        },
        OfferKind::Expected => if path == ChainPath::ChapterChoice {
            text_or(
                data,
                "output",
                "预处理预期待决策：请在审批卡选择纳入 / 跳过 / 稍后。",
            )
        } else {
            summary.to_owned()
        },
        OfferKind::Plot => {
            let need = match data.get_str("reason") {
                Some(w) => text::same(w, "need_design_plot"),
                None => false,
            };
            if need {
                "⛔ 写章已拦截：需要先设计并激活剧情卡。请在下方选择下一步。".to_owned()
            } else {
                let mut s = "⛔ 写章已拦截：剧情卡「".to_owned();
                s.push_str(text_or(data, "plot_title", "剧情卡").as_str());
                s.push_str("」尚未激活。请在下方选择下一步。");
                s
            }
        },
        OfferKind::Setup => intro_and_output(summary, hint),
        OfferKind::Draft => {
            let mut s = "第".to_owned();
            s.push_str(text::number(json::get_u64_or(data, "chapter", 0)).as_str());
            s.push_str("章已有未发布正文，请选择：审校本章 / 修订本章 / 写下一章。");
            s
        },
        OfferKind::Volume => followed_by(
            summary,
            "\n\n本卷已结束 — 请选择：同步设定库 / 跳过。",
        ),
        OfferKind::Handoff => {
            let phase = data.str_or_empty("volume_phase");
            if text::same(phase.as_str(), "awaiting_sync") {
                followed_by(summary, "\n\n请选择：同步设定库 / 跳过。")
            } else if text::same(phase.as_str(), "awaiting_next_plot") {
                followed_by(summary, "\n\n请选择：设计并激活剧情卡。")
            } else {
                followed_by(summary, "\n\n请选择：设计下卷卷纲。")
            }
        },
        OfferKind::VolumeAudit => if path == ChainPath::Request {
            followed_by(summary, "\n\n请选择：按建议深审 / 结束复盘。")
        } else {
            summary.to_owned()
        },
        OfferKind::Audit => summary.to_owned(),
        OfferKind::Setting => followed_by(
            summary,
            "\n\n设定审计 BLOCKER — 请选择：补全/修订设定卡 / 再跑设定审计 / 接受并继续。",
        ),
        OfferKind::Next => if published {
            followed_by(summary, "\n\n请选择：继续创作；或其他说明。")
        } else {
            followed_by(summary, "\n\n请选择：修正本章；或其他说明。")
        },
    }
}

} // verus!
