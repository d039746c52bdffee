//! A choice at the cards of the volumes, of the setup and of an audit: what
//! runs, what is kept, and what is said about it.

use vstd::prelude::*;

use crate::audit_decisions;
use crate::chain::OfferKind;
use crate::gates;
use crate::gates::{GateCatalog, GateV};
use crate::json;
use crate::json::{Json, JsonV};
use crate::offers;
use crate::offers::{Card, CardV};
use crate::picks;
use crate::text;
use crate::thread_state;
use crate::thread_state::{
    PendingSetup, PendingVolumeHandoff, PendingVolumeSync, SetupV, ThreadState, ThreadV,
    VolumeHandoffV, VolumeSyncV,
};
use crate::volume;
use crate::volume::VolumePhase;

verus! {

// ---------------------------------------------------------------------------
// A step between volumes
// ---------------------------------------------------------------------------

/// How to steer clear of what stopped the last attempt.
pub open spec fn retry_hint(last_error: Seq<char>) -> Seq<char> {
    "上次设定审计未通过，请避开冲突后重写开局卡。摘要："@ + text::first_chars(
        text::trimmed(last_error),
        400,
    )
}

/// The arguments of a step between volumes: a plot card that failed before is
/// told why.
pub open spec fn handoff_args(tool: Seq<char>, args: JsonV, last_error: Seq<char>) -> JsonV {
    if tool == "design_plot"@ && text::trimmed(last_error).len() > 0 && args is Object {
        let told = text::trimmed(args.text_or_empty("brief"@));
        args.put(
            "brief"@,
            JsonV::Text(
                if told.len() == 0 {
                    retry_hint(last_error)
                } else {
                    told + "\n"@ + retry_hint(last_error)
                },
            ),
        )
    } else {
        args
    }
}

/// The arguments of a step between volumes.
pub fn handoff_call_args(tool: &str, args: Json, last_error: &str) -> (r: Json)
    ensures
        r@ == handoff_args(tool@, args@, last_error@),
{
    let error = text::trim(last_error);
    let object = match &args {
        Json::Object(_) => true,
        _ => false,
    };
    if !text::same(tool, "design_plot") || error.is_empty() || !object {
        return args;
    }
    let mut hint = "上次设定审计未通过，请避开冲突后重写开局卡。摘要：".to_owned();
    hint.push_str(text::take_chars(error, 400).as_str());
    let raw = args.str_or_empty("brief");
    let told = text::trim(raw.as_str());
    if told.is_empty() {
        args.with_str("brief", hint.as_str())
    } else {
        let mut b = told.to_owned();
        b.push_str("\n");
        b.push_str(hint.as_str());
        args.with_str("brief", b.as_str())
    }
}

/// The words at the start of a step between volumes.
pub open spec fn handoff_intro(tool: Seq<char>) -> Seq<char> {
    if tool == "design_arc_outline"@ {
        "已收到选择，正在设计下卷卷纲…"@
    } else {
        "已收到选择，正在设计并激活开局剧情卡…"@
    }
}

/// The words at the start of a step between volumes.
pub fn volume_handoff_intro(tool: &str) -> (r: String)
    ensures
        r@ == handoff_intro(tool@),
{
    if text::same(tool, "design_arc_outline") {
        "已收到选择，正在设计下卷卷纲…".to_owned()
    } else {
        "已收到选择，正在设计并激活开局剧情卡…".to_owned()
    }
}

/// The step between volumes succeeded.
pub open spec fn handoff_succeeded(tool: Seq<char>, data: JsonV) -> bool {
    !data.flag("blocked"@) && (tool != "design_plot"@ || data.flag("activated"@) || data.get(
        "path"@,
    ) is Some)
}

/// Why a step between volumes failed, in short.
pub open spec fn handoff_error(data: JsonV, output: Seq<char>) -> Seq<char> {
    text::first_chars(
        match data.text("audit_summary"@) {
            Some(s) => s,
            None => match data.text("schema_error"@) {
                Some(s) => s,
                None => output,
            },
        },
        200,
    )
}

/// The phase that a waiting step belongs to.
pub open spec fn waiting_phase(phase: Seq<char>) -> VolumePhase {
    if phase == "drafting_volume"@ {
        VolumePhase::DraftingVolume
    } else if phase == "awaiting_sync"@ {
        VolumePhase::AwaitingSync
    } else if phase == "awaiting_next_arc"@ {
        VolumePhase::AwaitingNextArc
    } else {
        VolumePhase::AwaitingNextPlot
    }
}

fn phase_of(phase: &str) -> (r: VolumePhase)
    ensures
        r == waiting_phase(phase@),
{
    if text::same(phase, "drafting_volume") {
        VolumePhase::DraftingVolume
    } else if text::same(phase, "awaiting_sync") {
        VolumePhase::AwaitingSync
    } else if text::same(phase, "awaiting_next_arc") {
        VolumePhase::AwaitingNextArc
    } else {
        VolumePhase::AwaitingNextPlot
    }
}

/// How a step between volumes ended.
pub enum HandoffEnd {
    /// A preview awaits confirmation; the step still waits.
    Preview(String),
    /// It failed; its card opens again, with the reason.
    Failed { summary: String, project: String, phase: VolumePhase, error: String },
    /// It is done; the next step is looked for.
    Done(String),
}

/// How a step between volumes ended, by contents.
pub enum HandoffEndV {
    Preview(Seq<char>),
    Failed { summary: Seq<char>, project: Seq<char>, phase: VolumePhase, error: Seq<char> },
    Done(Seq<char>),
}

impl View for HandoffEnd {
    type V = HandoffEndV;

    open spec fn view(&self) -> HandoffEndV {
        match self {
            HandoffEnd::Preview(s) => HandoffEndV::Preview(s@),
            HandoffEnd::Failed { summary, project, phase, error } => HandoffEndV::Failed {
                summary: summary@,
                project: project@,
                phase: *phase,
                error: error@,
            },
            HandoffEnd::Done(s) => HandoffEndV::Done(s@),
        }
    }
}

/// The summary of a step between volumes that failed.
pub open spec fn handoff_failed_words(intro: Seq<char>, error: Seq<char>) -> Seq<char> {
    intro + "\n\n未成功："@ + error + "\n\n卷间交接未完成，请按下方选项重试。"@
}

/// The summary of a step between volumes that is done.
pub open spec fn handoff_done_words(
    intro: Seq<char>,
    output: Seq<char>,
    tool: Seq<char>,
    data: JsonV,
) -> Seq<char> {
    if tool == "design_plot"@ && data.flag("activated"@) {
        picks::with_output(intro, output) + "\n\n剧情卡已激活，可 continue_writing 续写。"@
    } else {
        picks::with_output(intro, output)
    }
}

/// How a step between volumes ended. A step that did not succeed is never lost:
/// it waits again, with the reason.
pub open spec fn handoff_ended(
    s: ThreadV,
    taken: Option<VolumeHandoffV>,
    tool: Seq<char>,
    output: Seq<char>,
    data: JsonV,
) -> (ThreadV, HandoffEndV) {
    let intro = handoff_intro(tool);
    let error = handoff_error(data, output);
    if data.flag("needs_confirm"@) {
        (
            match taken {
                Some(p) => ThreadV { pending_volume_handoff: Some(p), ..s },
                None => s,
            },
            HandoffEndV::Preview(
                picks::with_output(intro, output) + "\n\n请选择：应用修改 / 放弃。"@,
            ),
        )
    } else if handoff_succeeded(tool, data) {
        (s, HandoffEndV::Done(handoff_done_words(intro, output, tool, data)))
    } else {
        match taken {
            Some(p) => (
                ThreadV {
                    pending_volume_handoff: Some(VolumeHandoffV { last_error: error, ..p }),
                    ..s
                },
                HandoffEndV::Failed {
                    summary: handoff_failed_words(intro, error),
                    project: p.project,
                    phase: waiting_phase(p.phase),
                    error,
                },
            ),
            None => (s, HandoffEndV::Done(handoff_failed_words(intro, error))),
        }
    }
}

/// What is added once the next step between volumes was offered.
pub open spec fn handoff_closing(data: JsonV) -> Seq<char> {
    let phase = data.text_or_empty("volume_phase"@);
    if phase == "awaiting_next_plot"@ {
        "\n\n请选择：设计并激活剧情卡。"@
    } else if phase == "awaiting_next_arc"@ {
        "\n\n请选择：设计下卷卷纲。"@
    } else {
        "\n\n请选择下一步。"@
    }
}

/// What is added once the next step between volumes was offered.
pub fn close_handoff(data: &Json) -> (r: String)
    ensures
        r@ == handoff_closing(data@),
{
    let phase = data.str_or_empty("volume_phase");
    if text::same(phase.as_str(), "awaiting_next_plot") {
        "\n\n请选择：设计并激活剧情卡。".to_owned()
    } else if text::same(phase.as_str(), "awaiting_next_arc") {
        "\n\n请选择：设计下卷卷纲。".to_owned()
    } else {
        "\n\n请选择下一步。".to_owned()
    }
}

// ---------------------------------------------------------------------------
// A step of the setup
// ---------------------------------------------------------------------------

/// The answer to a step of the setup that was put off.
pub fn setup_put_off() -> (r: String)
    ensures
        r@ == "已取消定稿推进。需要时再说「继续创作」或点对应步骤。"@,
{
    "已取消定稿推进。需要时再说「继续创作」或点对应步骤。".to_owned()
}

/// The words at the start of a step of the setup.
pub open spec fn setup_intro(tool: Seq<char>) -> Seq<char> {
    if tool == "design_master_outline"@ {
        "已收到选择，正在生成总纲…"@
    } else if tool == "design_arc_outline"@ {
        "已收到选择，正在生成卷纲…"@
    } else if tool == "upsert_setting"@ || tool == "supplement_setting"@ {
        "已收到选择，正在生成世界观 Bible…"@
    } else if tool == "lock_brief"@ {
        "已收到灵感，正在锁定 brief…"@
    } else if tool == "confirm_setup"@ {
        "已收到选择，正在处理定稿…"@
    } else if tool == "get_project_status"@ {
        "正在查看项目状态…"@
    } else {
        "已收到选择，正在推进定稿…"@
    }
}

/// The words at the start of a step of the setup.
pub fn setup_step_intro(tool: &str) -> (r: String)
    ensures
        r@ == setup_intro(tool@),
{
    if text::same(tool, "design_master_outline") {
        "已收到选择，正在生成总纲…".to_owned()
    } else if text::same(tool, "design_arc_outline") {
        "已收到选择，正在生成卷纲…".to_owned()
    } else if text::same(tool, "upsert_setting") || text::same(tool, "supplement_setting") {
        "已收到选择，正在生成世界观 Bible…".to_owned()
    } else if text::same(tool, "lock_brief") {
        "已收到灵感，正在锁定 brief…".to_owned()
    } else if text::same(tool, "confirm_setup") {
        "已收到选择，正在处理定稿…".to_owned()
    } else if text::same(tool, "get_project_status") {
        "正在查看项目状态…".to_owned()
    } else {
        "已收到选择，正在推进定稿…".to_owned()
    }
}

/// A preview of a step of the setup: with its card open the step is done with;
/// without it the step waits again.
pub open spec fn setup_previewed(
    s: ThreadV,
    taken: Option<SetupV>,
    tool: Seq<char>,
    output: Seq<char>,
    card_open: bool,
) -> (ThreadV, Seq<char>) {
    let told = picks::with_output(setup_intro(tool), output);
    if card_open {
        (s, told + "\n\n请选择：应用修改 / 放弃。"@)
    } else {
        (
            match taken {
                Some(p) => ThreadV { pending_setup: Some(p), ..s },
                None => s,
            },
            told + "\n\n预览未挂上确认卡；请再说一次「生成总纲」或「继续」。"@,
        )
    }
}

/// The summary of a step of the setup, once the next card was looked for.
pub open spec fn setup_summary(
    tool: Seq<char>,
    args: JsonV,
    output: Seq<char>,
    asked: Option<OfferKind>,
    hint: Seq<char>,
) -> Seq<char> {
    let told = picks::with_output(setup_intro(tool), output);
    let base = if tool == "confirm_setup"@ && args.text_or_empty("action"@) == "approve"@ {
        told + "\n\n下一步：design_plot → update_plot(in_progress) → continue_writing。"@
    } else {
        told
    };
    match asked {
        Some(OfferKind::Impact) => {
            base + "\n\n已扫描依赖面，请选择是否自动同步修正。"@
        },
        Some(OfferKind::Setup) => base + "\n\n"@ + hint,
        Some(OfferKind::Followup) => base + "\n\n正在请 Studio 给出下一步审批卡…"@,
        _ => base,
    }
}

/// The summary of a step of the setup, once the next card was looked for.
pub fn summarize_setup(
    tool: &str,
    args: &Json,
    output: &str,
    asked: Option<OfferKind>,
    hint: &str,
) -> (r: String)
    ensures
        r@ == setup_summary(tool@, args@, output@, asked, hint@),
{
    let mut s = picks::intro_and_output(setup_step_intro(tool).as_str(), output);
    let action = args.str_or_empty("action");
    if text::same(tool, "confirm_setup") && text::same(action.as_str(), "approve") {
        s.push_str(
            "\n\n下一步：design_plot → update_plot(in_progress) → continue_writing。",
        );
    }
    match asked {
        Some(OfferKind::Impact) => {
            s.push_str("\n\n已扫描依赖面，请选择是否自动同步修正。");
        },
        Some(OfferKind::Setup) => {
            s.push_str("\n\n");
            s.push_str(hint);
        },
        Some(OfferKind::Followup) => {
            s.push_str("\n\n正在请 Studio 给出下一步审批卡…");
        },
        _ => {},
    }
    s
}

// ---------------------------------------------------------------------------
// The end of a volume
// ---------------------------------------------------------------------------

/// The project and the volume of a call, in words.
pub open spec fn call_place(args: JsonV) -> Seq<char> {
    audit_decisions::or_text(args.text("project"@), "?"@) + "》第"@ + text::dec(json::uint_or(args, "volume"@, 0) as nat)
}

/// The words at the start of an answer to the end of a volume.
pub open spec fn sync_intro(tool: Seq<char>, args: JsonV) -> Seq<char> {
    if tool == "sync_volume"@ {
        "已收到选择，正在同步《"@ + call_place(args) + "卷设定库并确认卷记忆…"@
    } else if tool == "confirm_volume_memory"@ {
        "已收到选择，正在确认《"@ + call_place(args) + "卷卷记忆…"@
    } else {
        "已跳过卷末设定同步。"@
    }
}

fn push_call_place(s: &mut String, args: &Json)
    ensures
        final(s)@ == old(s)@ + call_place(args@),
{
    let mut p = match args.get_str("project") {
        Some(p) => p.to_owned(),
        None => "?".to_owned(),
    };
    p.push_str("》第");
    p.push_str(text::number(json::get_u64_or(args, "volume", 0)).as_str());
    s.push_str(p.as_str());
}

/// The words at the start of an answer to the end of a volume.
pub fn volume_sync_intro(tool: &str, args: &Json) -> (r: String)
    ensures
        r@ == sync_intro(tool@, args@),
{
    if text::same(tool, "sync_volume") {
        let mut s = "已收到选择，正在同步《".to_owned();
        push_call_place(&mut s, args);
        s.push_str("卷设定库并确认卷记忆…");
        s
    } else if text::same(tool, "confirm_volume_memory") {
        let mut s = "已收到选择，正在确认《".to_owned();
        push_call_place(&mut s, args);
        s.push_str("卷卷记忆…");
        s
    } else {
        "已跳过卷末设定同步。".to_owned()
    }
}

/// What to do between two volumes.
pub open spec fn between_volumes() -> Seq<char> {
    "\n\n---\n**卷间交接（请按序完成后再续写）**\n1. **必须** `design_arc_outline` — 细化下卷：开卷状态、节点阶梯、≥2 条可核验终止条件；承接上卷章末钩子与总纲「卷末修订」\n2. `design_plot` — 创建下卷第一段主线剧情卡（scope=local，对应卷纲阶梯前段；禁止一张卡复述整卷；无卷纲会失败）\n3. `update_plot(..., status=in_progress, set_active_main=true)` — 激活该卡\n4. 再 `continue_writing`\n说明：`sync_volume` 不写剧情卡；实体直接同步 status/holdings 终态（写入「当前状态」）。新建缺卡可再 `design_entity` 或 Web「设定缺口」补全。无进行中剧情卡时续写会被拦截。"@
}

fn push_between_volumes(s: &mut String)
    ensures
        final(s)@ == old(s)@ + between_volumes(),
{
    s.push_str(
        "\n\n---\n**卷间交接（请按序完成后再续写）**\n1. **必须** `design_arc_outline` — 细化下卷：开卷状态、节点阶梯、≥2 条可核验终止条件；承接上卷章末钩子与总纲「卷末修订」\n2. `design_plot` — 创建下卷第一段主线剧情卡（scope=local，对应卷纲阶梯前段；禁止一张卡复述整卷；无卷纲会失败）\n3. `update_plot(..., status=in_progress, set_active_main=true)` — 激活该卡\n4. 再 `continue_writing`\n说明：`sync_volume` 不写剧情卡；实体直接同步 status/holdings 终态（写入「当前状态」）。新建缺卡可再 `design_entity` 或 Web「设定缺口」补全。无进行中剧情卡时续写会被拦截。",
    );
}

/// What a skipped synchronisation does to the project.
#[derive(Clone, Copy, Debug, PartialEq, Eq, Structural)]
pub enum SkipEffect {
    /// Nothing: no project is known.
    NoProject,
    /// The volume had not ended: it is opened again and written on.
    Reopen(u32),
    /// The next volume is prepared without the synchronisation.
    MoveOn,
}

/// What a skipped synchronisation does: a volume with open plots is opened again.
pub open spec fn skip_effect(project: bool, volume: u32, open_plots: bool) -> SkipEffect {
    if !project {
        SkipEffect::NoProject
    } else if volume > 0 && open_plots {
        SkipEffect::Reopen(volume)
    } else {
        SkipEffect::MoveOn
    }
}

/// The summary of a skipped synchronisation.
pub open spec fn skip_summary(effect: SkipEffect) -> Seq<char> {
    match effect {
        SkipEffect::Reopen(_) => {
            "已跳过卷末设定同步。"@
                + "\n\n检测到本卷剧情卡尚未走完（仍有进行中卡或未设计的 next_plot）。已取消错误卷末交接，恢复本卷写作。请 `design_plot` 开下一张本卷剧情卡后继续续写。"@
        },
        _ => "已跳过卷末设定同步。"@ + between_volumes(),
    }
}

/// What a skipped synchronisation does, and what is said about it. `project` and
/// `volume` are those of the card, or else the bound project.
pub fn skip_volume_sync(
    taken: Option<&PendingVolumeSync>,
    bound: Option<&str>,
    open_plots: bool,
) -> (r: (SkipEffect, String))
    ensures
        r.0 == skip_effect(
            taken is Some || bound is Some,
            match taken {
                Some(p) => p.volume,
                None => 0,
            },
            open_plots,
        ),
        r.1@ == skip_summary(r.0),
{
    let volume: u32 = match taken {
        Some(p) => p.volume,
        None => 0,
    };
    let mut s = "已跳过卷末设定同步。".to_owned();
    if taken.is_none() && bound.is_none() {
        push_between_volumes(&mut s);
        return (SkipEffect::NoProject, s);
    }
    if volume > 0 && open_plots {
        s.push_str(
            "\n\n检测到本卷剧情卡尚未走完（仍有进行中卡或未设计的 next_plot）。已取消错误卷末交接，恢复本卷写作。请 `design_plot` 开下一张本卷剧情卡后继续续写。",
        );
        return (SkipEffect::Reopen(volume), s);
    }
    push_between_volumes(&mut s);
    (SkipEffect::MoveOn, s)
}

/// A volume with its name, unless that is blank.
pub open spec fn plain_label(v: VolumeSyncV) -> Seq<char> {
    if text::trimmed(v.name).len() == 0 {
        volume::volume_label(v.volume as u64, Seq::empty())
    } else {
        volume::volume_label(v.volume as u64, v.name)
    }
}

fn label_plainly(v: &PendingVolumeSync) -> (r: String)
    ensures
        r@ == plain_label(v@),
{
    if text::trim(v.name.as_str()).is_empty() {
        let none = String::new();
        volume::label_of(v.volume as u64, none.as_str())
    } else {
        volume::label_of(v.volume as u64, v.name.as_str())
    }
}

/// How an answer to the end of a volume ended.
pub enum SyncEnd {
    /// The card is shown again.
    Again { summary: String, card: Card },
    /// It is done; a gap in the settings or the next volume follows.
    Done(String),
}

/// How an answer to the end of a volume ended, by contents.
pub enum SyncEndV {
    Again { summary: Seq<char>, card: CardV },
    Done(Seq<char>),
}

impl View for SyncEnd {
    type V = SyncEndV;

    open spec fn view(&self) -> SyncEndV {
        match self {
            SyncEnd::Again { summary, card } => SyncEndV::Again {
                summary: summary@,
                card: card@,
            },
            SyncEnd::Done(s) => SyncEndV::Done(s@),
        }
    }
}

/// What is said once the memory of a volume was confirmed, or could not be.
pub open spec fn memory_words(intro: Seq<char>, output: Seq<char>, data: JsonV) -> Seq<char> {
    if !data.denied("ok"@) && data.get("error"@) is None {
        picks::with_output(intro, output)
            + "\n\n卷记忆已写入。若设定库尚未同步，请继续选择「同步设定并确认卷记忆」或「跳过」。"@
    } else {
        intro + "\n\n确认失败："@ + output
    }
}

/// The volume was synchronised.
pub open spec fn synchronised(data: JsonV) -> bool {
    !data.denied("ok"@) && data.get("error"@) is None && ((data.text("volume_phase"@) matches Some(
        w,
    ) && text::occurs(w, "awaiting_next"@)) || data.get("volume_index"@) is Some)
}

/// Why a volume could not be synchronised.
pub open spec fn sync_error(data: JsonV, output: Seq<char>) -> Seq<char> {
    match data.text("error"@) {
        Some(e) => e,
        None => output,
    }
}

/// How an answer to the end of a volume ended. A failed attempt, and a memory
/// that was confirmed on its own, leave the card open.
pub open spec fn sync_ended(
    s: ThreadV,
    c: Seq<GateV>,
    taken: Option<VolumeSyncV>,
    tool: Seq<char>,
    args: JsonV,
    output: Seq<char>,
    data: JsonV,
) -> (ThreadV, SyncEndV) {
    let intro = sync_intro(tool, args);
    let error = sync_error(data, output);
    let options = gates::shown(c, "volume_sync"@);
    if tool == "confirm_volume_memory"@ {
        let told = memory_words(intro, output, data);
        match taken {
            Some(p) => (
                ThreadV { pending_volume_sync: Some(p), ..s },
                SyncEndV::Again {
                    summary: told,
                    card: offers::plain_card(
                        plain_label(p) + "卷记忆已处理，是否仍同步设定库？"@,
                        options,
                    ),
                },
            ),
            None => (s, SyncEndV::Done(told)),
        }
    } else if synchronised(data) {
        (s, SyncEndV::Done(picks::with_output(intro, output) + between_volumes()))
    } else {
        match taken {
            Some(p) => (
                ThreadV { pending_volume_sync: Some(p), ..s },
                SyncEndV::Again {
                    summary: intro + "\n\n同步失败："@ + error
                        + "\n\n卷末同步未完成，请重试「同步设定库」或选「跳过」。"@,
                    card: offers::plain_card(
                        plain_label(p) + "同步失败，是否重试同步设定库？"@,
                        options,
                    ),
                },
            ),
            None => (s, SyncEndV::Done(intro + "\n\n同步失败："@ + error)),
        }
    }
}

impl ThreadState {
    /// Takes the step between volumes off the thread, so that a second click
    /// finds nothing.
    pub fn take_handoff(&mut self) -> (r: Option<PendingVolumeHandoff>)
        ensures
            final(self)@ == (ThreadV { pending_volume_handoff: None, ..old(self)@ }),
            thread_state::opt_view(r) == old(self)@.pending_volume_handoff,
    {
        self.pending_volume_handoff.take()
    }

    /// Takes the step of the setup off the thread.
    pub fn take_setup(&mut self) -> (r: Option<PendingSetup>)
        ensures
            final(self)@ == (ThreadV { pending_setup: None, ..old(self)@ }),
            thread_state::opt_view(r) == old(self)@.pending_setup,
    {
        self.pending_setup.take()
    }

    /// Takes the end of a volume off the thread.
    pub fn take_volume_sync(&mut self) -> (r: Option<PendingVolumeSync>)
        ensures
            final(self)@ == (ThreadV { pending_volume_sync: None, ..old(self)@ }),
            thread_state::opt_view(r) == old(self)@.pending_volume_sync,
    {
        self.pending_volume_sync.take()
    }

    /// Ends a step between volumes.
    pub fn end_handoff(
        &mut self,
        taken: Option<PendingVolumeHandoff>,
        tool: &str,
        output: &str,
        data: &Json,
    ) -> (r: HandoffEnd)
        ensures
            (final(self)@, r@) == handoff_ended(
                old(self)@,
                thread_state::opt_view(taken),
                tool@,
                output@,
                data@,
            ),
    {
        let intro = volume_handoff_intro(tool);
        if data.is_true("needs_confirm") {
            if taken.is_some() {
                self.pending_volume_handoff = taken;
            }
            let mut s = picks::intro_and_output(intro.as_str(), output);
            s.push_str("\n\n请选择：应用修改 / 放弃。");
            return HandoffEnd::Preview(s);
        }
        let activated = data.is_true("activated");
        if !data.is_true("blocked") && (!text::same(tool, "design_plot") || activated || data.get(
            "path",
        ).is_some()) {
            let mut s = picks::intro_and_output(intro.as_str(), output);
            if text::same(tool, "design_plot") && activated {
                s.push_str("\n\n剧情卡已激活，可 continue_writing 续写。");
            }
            return HandoffEnd::Done(s);
        }
        let error = match data.get_str("audit_summary") {
            Some(e) => text::take_chars(e, 200),
            None => match data.get_str("schema_error") {
                Some(e) => text::take_chars(e, 200),
                None => text::take_chars(output, 200),
            },
        };
        let mut summary = intro;
        summary.push_str("\n\n未成功：");
        summary.push_str(error.as_str());
        summary.push_str("\n\n卷间交接未完成，请按下方选项重试。");
        match taken {
            Some(p) => {
                let mut p = p;
                let project = p.project.clone();
                let phase = phase_of(p.phase.as_str());
                p.last_error = error.clone();
                self.pending_volume_handoff = Some(p);
                HandoffEnd::Failed { summary, project, phase, error }
            },
            None => HandoffEnd::Done(summary),
        }
    }

    /// Ends a preview of a step of the setup.
    pub fn end_setup_preview(
        &mut self,
        taken: Option<PendingSetup>,
        tool: &str,
        output: &str,
        card_open: bool,
    ) -> (r: String)
        ensures
            (final(self)@, r@) == setup_previewed(
                old(self)@,
                thread_state::opt_view(taken),
                tool@,
                output@,
                card_open,
            ),
    {
        let mut s = picks::intro_and_output(setup_step_intro(tool).as_str(), output);
        if card_open {
            s.push_str("\n\n请选择：应用修改 / 放弃。");
        } else {
            if taken.is_some() {
                self.pending_setup = taken;
            }
            s.push_str("\n\n预览未挂上确认卡；请再说一次「生成总纲」或「继续」。");
        }
        s
    }

    /// Ends an answer to the end of a volume.
    pub fn end_volume_sync(
        &mut self,
        catalog: &GateCatalog,
        taken: Option<PendingVolumeSync>,
        tool: &str,
        args: &Json,
        output: &str,
        data: &Json,
    ) -> (r: SyncEnd)
        ensures
            (final(self)@, r@) == sync_ended(
                old(self)@,
                catalog@,
                thread_state::opt_view(taken),
                tool@,
                args@,
                output@,
                data@,
            ),
    {
        let intro = volume_sync_intro(tool, args);
        let fine = !data.is_false("ok") && data.get("error").is_none();
        if text::same(tool, "confirm_volume_memory") {
            let mut told: String;
            if fine {
                told = picks::intro_and_output(intro.as_str(), output);
                told.push_str(
                    "\n\n卷记忆已写入。若设定库尚未同步，请继续选择「同步设定并确认卷记忆」或「跳过」。",
                );
            } else {
                told = intro;
                told.push_str("\n\n确认失败：");
                told.push_str(output);
            }
            return match taken {
                Some(p) => {
                    let mut prompt = label_plainly(&p);
                    prompt.push_str("卷记忆已处理，是否仍同步设定库？");
                    self.pending_volume_sync = Some(p);
                    SyncEnd::Again {
                        summary: told,
                        card: Card {
                            prompt,
                            options: catalog.options("volume_sync"),
                            preview: None,
                        },
                    }
                },
                None => SyncEnd::Done(told),
            };
        }
        let moved = match data.get_str("volume_phase") {
            Some(w) => text::contains(w, "awaiting_next"),
            None => false,
        };
        if fine && (moved || data.get("volume_index").is_some()) {
            let mut s = picks::intro_and_output(intro.as_str(), output);
            push_between_volumes(&mut s);
            return SyncEnd::Done(s);
        }
        let mut summary = intro;
        summary.push_str("\n\n同步失败：");
        match data.get_str("error") {
            Some(e) => {
                summary.push_str(e);
            },
            None => {
                summary.push_str(output);
            },
        }
        match taken {
            Some(p) => {
                summary.push_str("\n\n卷末同步未完成，请重试「同步设定库」或选「跳过」。");
                let mut prompt = label_plainly(&p);
                prompt.push_str("同步失败，是否重试同步设定库？");
                self.pending_volume_sync = Some(p);
                SyncEnd::Again {
                    summary,
                    card: Card { prompt, options: catalog.options("volume_sync"), preview: None },
                }
            },
            None => SyncEnd::Done(summary),
        }
    }
}

/// A step between volumes that fails waits again, so that it can be tried again;
/// one that succeeds does not.
pub proof fn failed_step_waits_again(
    s: ThreadV,
    p: VolumeHandoffV,
    tool: Seq<char>,
    output: Seq<char>,
    data: JsonV,
)
    requires
        s.pending_volume_handoff is None,
    ensures
        ({
            let after = handoff_ended(s, Some(p), tool, output, data);
            &&& after.1 is Done <==> after.0.pending_volume_handoff is None
            &&& after.1 matches HandoffEndV::Failed { error, .. } ==> (
            after.0.pending_volume_handoff matches Some(q) && q.last_error == error && q.project
                == p.project && q.volume == p.volume && q.title == p.title)
        }),
{
}

/// The end of a volume stays open until it was synchronised.
pub proof fn failed_sync_waits_again(
    s: ThreadV,
    c: Seq<GateV>,
    p: VolumeSyncV,
    args: JsonV,
    output: Seq<char>,
    data: JsonV,
)
    requires
        s.pending_volume_sync is None,
    ensures
        ({
            let after = sync_ended(s, c, Some(p), "sync_volume"@, args, output, data);
            after.1 is Done <==> synchronised(data)
        }),
        ({
            let after = sync_ended(s, c, Some(p), "sync_volume"@, args, output, data);
            !synchronised(data) ==> after.0.pending_volume_sync == Some(p)
        }),
{
    reveal_strlit("sync_volume");
    reveal_strlit("confirm_volume_memory");
    assert("sync_volume"@.len() != "confirm_volume_memory"@.len());
}

} // verus!
