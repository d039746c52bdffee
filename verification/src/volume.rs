//! The steps of the setup and the steps between volumes.

use vstd::prelude::*;

use crate::gates;
use crate::gates::{GateCatalog, GateV};
use crate::json;
use crate::json::{Json, JsonV};
use crate::offers;
use crate::offers::{
    Card, ContextV, Offer, OfferV, StudioNextContext, StudioRequest, StudioRequestV,
};
use crate::text;
use crate::thread_state::{
    PendingSettingBlocker, PendingSetup, PendingVolumeHandoff, PendingVolumeSync, SettingBlockerV,
    SetupV, ThreadState, ThreadV, VolumeHandoffV, VolumeSyncV,
};

verus! {

// ---------------------------------------------------------------------------
// Phases and bounds
// ---------------------------------------------------------------------------

/// Where a project stands between two volumes.
#[derive(Clone, Copy, Debug, PartialEq, Eq, Structural)]
pub enum VolumePhase {
    DraftingVolume,
    AwaitingSync,
    AwaitingNextArc,
    AwaitingNextPlot,
}

/// The word for a phase.
pub open spec fn phase_word(p: VolumePhase) -> Seq<char> {
    match p {
        VolumePhase::DraftingVolume => "drafting_volume"@,
        VolumePhase::AwaitingSync => "awaiting_sync"@,
        VolumePhase::AwaitingNextArc => "awaiting_next_arc"@,
        VolumePhase::AwaitingNextPlot => "awaiting_next_plot"@,
    }
}

impl VolumePhase {
    /// The word for the phase.
    pub fn as_str(&self) -> (r: &'static str)
        ensures
            r@ == phase_word(*self),
    {
        match self {
            VolumePhase::DraftingVolume => "drafting_volume",
            VolumePhase::AwaitingSync => "awaiting_sync",
            VolumePhase::AwaitingNextArc => "awaiting_next_arc",
            VolumePhase::AwaitingNextPlot => "awaiting_next_plot",
        }
    }
}

/// One volume of a project.
pub struct VolumeBound {
    pub volume_index: u32,
    pub name: String,
    pub completed: bool,
}

/// One volume of a project, by contents.
pub struct BoundV {
    pub volume_index: u32,
    pub name: Seq<char>,
    pub completed: bool,
}

impl View for VolumeBound {
    type V = BoundV;

    open spec fn view(&self) -> BoundV {
        BoundV { volume_index: self.volume_index, name: self.name@, completed: self.completed }
    }
}

/// The volumes by contents.
pub open spec fn bound_list(v: Seq<VolumeBound>) -> Seq<BoundV> {
    Seq::new(v.len(), |i: int| v[i]@)
}

/// The first volume at or after a place that is not finished.
pub open spec fn unfinished_from(b: Seq<BoundV>, i: int) -> Option<int>
    decreases b.len() - i,
{
    if i < 0 || i >= b.len() {
        None
    } else if !b[i].completed {
        Some(i)
    } else {
        unfinished_from(b, i + 1)
    }
}

/// The largest index of a volume, or zero.
pub open spec fn last_index(b: Seq<BoundV>) -> u32
    decreases b.len(),
{
    if b.len() == 0 {
        0
    } else {
        let rest = last_index(b.drop_last());
        if b.last().volume_index > rest {
            b.last().volume_index
        } else {
            rest
        }
    }
}

/// The volume that a handoff leads to: the first that is not finished, or else
/// the one after the last.
pub open spec fn target_volume(b: Seq<BoundV>) -> u32 {
    match unfinished_from(b, 0) {
        Some(i) => if b[i].volume_index == 0 {
            1
        } else {
            b[i].volume_index
        },
        None => offers::saturating_next(last_index(b)),
    }
}

/// The first volume at or after a place with the index.
pub open spec fn volume_from(b: Seq<BoundV>, volume: u32, i: int) -> Option<int>
    decreases b.len() - i,
{
    if i < 0 || i >= b.len() {
        None
    } else if b[i].volume_index == volume {
        Some(i)
    } else {
        volume_from(b, volume, i + 1)
    }
}

/// The name of a volume, trimmed.
pub open spec fn volume_name(b: Seq<BoundV>, volume: u32) -> Seq<char> {
    match volume_from(b, volume, 0) {
        Some(i) => text::trimmed(b[i].name),
        None => text::trimmed(Seq::empty()),
    }
}

/// The title of the first plot card of a volume.
pub open spec fn plot_title(b: Seq<BoundV>, volume: u32) -> Seq<char> {
    let name = volume_name(b, volume);
    if name.len() == 0 {
        "第"@ + text::dec(volume as nat) + "卷开局"@
    } else {
        "第"@ + text::dec(volume as nat) + "卷·"@ + name + "·开局"@
    }
}

/// The last finished volume before a place.
pub open spec fn ended_before(b: Seq<BoundV>, n: int) -> Option<int>
    decreases n,
{
    if n <= 0 || n > b.len() {
        None
    } else if b[n - 1].completed {
        Some(n - 1)
    } else {
        ended_before(b, n - 1)
    }
}

/// A volume with its name.
pub open spec fn volume_label(volume: u64, name: Seq<char>) -> Seq<char> {
    if name.len() == 0 {
        "第"@ + text::dec(volume as nat) + "卷"@
    } else {
        "第"@ + text::dec(volume as nat) + "卷「"@ + name + "」"@
    }
}

/// The volume that a handoff leads to.
pub fn handoff_target_volume(bounds: &Vec<VolumeBound>) -> (r: u32)
    ensures
        r == target_volume(bound_list(bounds@)),
        r >= 1,
{
    let ghost b = bound_list(bounds@);
    let mut i: usize = 0;
    let mut last: u32 = 0;
    while i < bounds.len()
        invariant
            i <= bounds.len(),
            b == bound_list(bounds@),
            unfinished_from(b, 0) == unfinished_from(b, i as int),
            last == last_index(b.take(i as int)),
        decreases bounds.len() - i,
    {
        assert(b[i as int] == bounds@[i as int]@);
        if !bounds[i].completed {
            return if bounds[i].volume_index == 0 {
                1
            } else {
                bounds[i].volume_index
            };
        }
        assert(b.take(i + 1).drop_last() =~= b.take(i as int));
        if bounds[i].volume_index > last {
            last = bounds[i].volume_index;
        }
        i = i + 1;
    }
    assert(b.take(i as int) =~= b);
    last.saturating_add(1)
}

/// The title of the first plot card of a volume.
pub fn handoff_plot_title(bounds: &Vec<VolumeBound>, volume: u32) -> (r: String)
    ensures
        r@ == plot_title(bound_list(bounds@), volume),
{
    let ghost b = bound_list(bounds@);
    let mut i: usize = 0;
    let mut name = "";
    assert(name@ =~= Seq::<char>::empty()) by {
        reveal_strlit("");
    }
    let mut found = false;
    while i < bounds.len() && !found
        invariant
            i <= bounds.len(),
            b == bound_list(bounds@),
            !found ==> volume_from(b, volume, 0) == volume_from(b, volume, i as int) && name@
                == Seq::<char>::empty(),
            found ==> (volume_from(b, volume, 0) matches Some(k) && b[k].name == name@),
        decreases bounds.len() - i + (if found { 0int } else { 1int }),
    {
        assert(b[i as int] == bounds@[i as int]@);
        if bounds[i].volume_index == volume {
            name = bounds[i].name.as_str();
            found = true;
        } else {
            i = i + 1;
        }
    }
    let name = text::trim(name);
    let mut s = "第".to_owned();
    s.push_str(text::number(volume as u64).as_str());
    if name.is_empty() {
        s.push_str("卷开局");
    } else {
        s.push_str("卷·");
        s.push_str(name);
        s.push_str("·开局");
    }
    s
}

/// A volume with its name.
pub fn label_of(volume: u64, name: &str) -> (r: String)
    ensures
        r@ == volume_label(volume, name@),
{
    let mut s = "第".to_owned();
    s.push_str(text::number(volume).as_str());
    if name.is_empty() {
        s.push_str("卷");
    } else {
        s.push_str("卷「");
        s.push_str(name);
        s.push_str("」");
    }
    s
}

/// The volume that ended last with its name, or the first without one.
pub open spec fn ended_volume(b: Seq<BoundV>) -> (u32, Seq<char>) {
    match ended_before(b, b.len() as int) {
        Some(i) => (b[i].volume_index, b[i].name),
        None => (1, Seq::empty()),
    }
}

/// The volume that ended last with its name, or the first without one.
pub fn last_ended(bounds: &Vec<VolumeBound>) -> (r: (u32, String))
    ensures
        (r.0, r.1@) == ended_volume(bound_list(bounds@)),
{
    let ghost b = bound_list(bounds@);
    let mut n: usize = bounds.len();
    while n > 0
        invariant
            n <= bounds.len(),
            b == bound_list(bounds@),
            ended_before(b, b.len() as int) == ended_before(b, n as int),
        decreases n,
    {
        assert(b[n - 1] == bounds@[n - 1]@);
        if bounds[n - 1].completed {
            return (bounds[n - 1].volume_index, bounds[n - 1].name.clone());
        }
        n = n - 1;
    }
    (1, String::new())
}

// ---------------------------------------------------------------------------
// Setup
// ---------------------------------------------------------------------------

/// The next step of a project's setup.
pub struct SetupStep {
    pub name: String,
    pub gate: String,
    pub prompt: String,
}

/// The next step of a project's setup, by contents.
pub struct SetupStepV {
    pub name: Seq<char>,
    pub gate: Seq<char>,
    pub prompt: Seq<char>,
}

impl View for SetupStep {
    type V = SetupStepV;

    open spec fn view(&self) -> SetupStepV {
        SetupStepV { name: self.name@, gate: self.gate@, prompt: self.prompt@ }
    }
}

/// The tool moves the setup on.
pub open spec fn setup_tool(t: Seq<char>) -> bool {
    t == "design_master_outline"@ || t == "design_arc_outline"@ || t == "lock_brief"@ || t
        == "upsert_setting"@ || t == "supplement_setting"@ || t == "confirm_setup"@
}

fn is_setup_tool(t: &str) -> (r: bool)
    ensures
        r == setup_tool(t@),
{
    text::same(t, "design_master_outline") || text::same(t, "design_arc_outline") || text::same(
        t,
        "lock_brief",
    ) || text::same(t, "upsert_setting") || text::same(t, "supplement_setting") || text::same(
        t,
        "confirm_setup",
    )
}

/// The tool's result asks for the next step of the setup.
pub open spec fn setup_due(tool: Seq<char>, data: JsonV) -> bool {
    !data.flag("needs_confirm"@) && (offers::write_blocked(tool, data, "setup"@) || (setup_tool(
        tool,
    ) && !data.flag("blocked"@)) || data.flag("offer_setup_confirm"@) || data.text("setup_phase"@)
        == Some("awaiting_confirm"@))
}

/// The card of a step of the setup opens, where it has buttons.
pub open spec fn setup_opened(
    s: ThreadV,
    c: Seq<GateV>,
    project: Seq<char>,
    next: SetupStepV,
) -> (ThreadV, OfferV) {
    let options = gates::shown(c, next.gate);
    if options.len() == 0 {
        (s, OfferV::Nothing)
    } else {
        (
            ThreadV {
                pending_setup: Some(SetupV { project, next: next.name }),
                pending_audit: None,
                pending_chapter_next: None,
                ..s
            },
            OfferV::Open(offers::plain_card(next.prompt, options)),
        )
    }
}

/// The next step of the setup, where the result asks for it and no other card is
/// open.
pub open spec fn setup_offer(
    s: ThreadV,
    enforce: bool,
    c: Seq<GateV>,
    tool: Seq<char>,
    args: JsonV,
    data: JsonV,
    next: Option<SetupStepV>,
) -> (ThreadV, OfferV) {
    let project = json::project_in(args, data);
    if !enforce || !setup_due(tool, data) || project.len() == 0 || next is None {
        (s, OfferV::Nothing)
    } else if s.pending_setup == Some(SetupV { project, next: next->0.name }) {
        (s, OfferV::Standing)
    } else if s.pending_mutation is Some || s.pending_impact is Some || s.pending_audit is Some
        || s.pending_volume_sync is Some || s.pending_volume_handoff is Some {
        (s, OfferV::Nothing)
    } else {
        setup_opened(s, c, project, next->0)
    }
}

// ---------------------------------------------------------------------------
// The end of a volume
// ---------------------------------------------------------------------------

/// What the end of a volume leaves to be dealt with after it was synchronised.
pub open spec fn deferred_blocker(project: Seq<char>, data: JsonV) -> Option<SettingBlockerV> {
    if !data.flag("plot_setting_blocker"@) {
        None
    } else {
        Some(
            SettingBlockerV {
                project,
                chapter: match data.uint("chapter"@) {
                    Some(n) => if n as u32 > 0 {
                        n as u32
                    } else {
                        json::uint_or(data, "volume_ended_end"@, 0) as u32
                    },
                    None => json::uint_or(data, "volume_ended_end"@, 0) as u32,
                },
                detail: text::first_chars(data.text_or_empty("setting_blocker_detail"@), 240),
                resume_chapter_next: false,
                published: false,
                plot_accept_open: false,
                content_blocked: false,
                revise_instructions: None,
                offer_volume_handoff_after: true,
            },
        )
    }
}

/// The prompt at the end of a volume.
pub open spec fn volume_end_prompt(data: JsonV, volume: u64, memory: Seq<char>) -> Seq<char> {
    let start = json::uint_or(data, "volume_ended_start"@, 0);
    let end = json::uint_or(data, "volume_ended_end"@, 0);
    let ranged = start > 0 && end > 0;
    let head = volume_label(volume, data.text_or_empty("volume_ended_name"@));
    let range = if ranged {
        head + "（第"@ + text::dec(start as nat) + "–"@ + text::dec(end as nat) + "章）"@
    } else {
        head
    };
    let told = range + "已结束。请同步设定库，并确认卷记忆（防长程漂移）。"@;
    let with_memory = if ranged && memory.len() > 0 {
        told + "\n\n"@ + memory
    } else {
        told
    };
    if data.flag("plot_setting_blocker"@) {
        with_memory
            + "\n\n⚠ 本卷剧情后设定审计出现 BLOCKER；完成卷末选择后将请你处理设定缺口。"@
    } else {
        with_memory
    }
}

/// The tool can end a volume.
pub open spec fn ending_tool(t: Seq<char>) -> bool {
    t == "continue_writing"@ || t == "revise_chapter"@ || t == "audit_chapter"@
}

/// The end of a volume asks whether to synchronise. `memory` is the preview of
/// what is kept of the volume.
pub open spec fn volume_sync_offer(
    s: ThreadV,
    c: Seq<GateV>,
    tool: Seq<char>,
    args: JsonV,
    data: JsonV,
    memory: Seq<char>,
) -> (ThreadV, OfferV) {
    let hint = json::project_in(data, args);
    let project = json::project_in(args, data);
    match data.uint("volume_ended"@) {
        None => (s, OfferV::Nothing),
        Some(volume) => if !ending_tool(tool) {
            (s, OfferV::Nothing)
        } else if s.pending_volume_sync matches Some(p) && (hint.len() == 0 || p.project == hint)
            && p.volume as u64 == volume {
            (s, OfferV::Standing)
        } else if project.len() == 0 {
            (s, OfferV::Nothing)
        } else {
            (
                ThreadV {
                    pending_volume_sync: Some(
                        VolumeSyncV {
                            project,
                            volume: volume as u32,
                            name: data.text_or_empty("volume_ended_name"@),
                            deferred_setting_blocker: deferred_blocker(project, data),
                        },
                    ),
                    pending_audit: None,
                    ..s
                },
                OfferV::Open(
                    offers::plain_card(
                        volume_end_prompt(data, volume, memory),
                        gates::shown(c, "volume_sync"@),
                    ),
                ),
            )
        },
    }
}

fn read_deferred(project: &str, data: &Json) -> (r: Option<PendingSettingBlocker>)
    ensures
        crate::thread_state::opt_view(r) == deferred_blocker(project@, data@),
{
    if !data.is_true("plot_setting_blocker") {
        return None;
    }
    let end: u32 = json::get_u64_or(data, "volume_ended_end", 0) as u32;
    let chapter: u32 = match data.get_u64("chapter") {
        Some(n) => {
            let c: u32 = n as u32;
            if c > 0 {
                c
            } else {
                end
            }
        },
        None => end,
    };
    let detail = data.str_or_empty("setting_blocker_detail");
    Some(
        PendingSettingBlocker {
            project: project.to_owned(),
            chapter,
            detail: text::take_chars(detail.as_str(), 240),
            resume_chapter_next: false,
            published: false,
            plot_accept_open: false,
            content_blocked: false,
            revise_instructions: None,
            offer_volume_handoff_after: true,
        },
    )
}

fn prompt_at_end(data: &Json, volume: u64, memory: &str) -> (r: String)
    ensures
        r@ == volume_end_prompt(data@, volume, memory@),
{
    let start: u64 = json::get_u64_or(data, "volume_ended_start", 0);
    let end: u64 = json::get_u64_or(data, "volume_ended_end", 0);
    let name = data.str_or_empty("volume_ended_name");
    let mut s = label_of(volume, name.as_str());
    if start > 0 && end > 0 {
        s.push_str("（第");
        s.push_str(text::number(start).as_str());
        s.push_str("–");
        s.push_str(text::number(end).as_str());
        s.push_str("章）");
    }
    s.push_str("已结束。请同步设定库，并确认卷记忆（防长程漂移）。");
    if start > 0 && end > 0 && !memory.is_empty() {
        s.push_str("\n\n");
        s.push_str(memory);
    }
    if data.is_true("plot_setting_blocker") {
        s.push_str(
            "\n\n⚠ 本卷剧情后设定审计出现 BLOCKER；完成卷末选择后将请你处理设定缺口。",
        );
    }
    s
}

// ---------------------------------------------------------------------------
// The handoff between volumes
// ---------------------------------------------------------------------------

/// What is known of a project's volumes.
pub struct VolumeFacts {
    /// The phase that the project is in.
    pub phase: VolumePhase,
    pub bounds: Vec<VolumeBound>,
    /// The project looked as if a volume had ended, which was undone.
    pub false_end: bool,
}

/// What is known of a project's volumes, by contents.
pub struct FactsV {
    pub phase: VolumePhase,
    pub bounds: Seq<BoundV>,
    pub false_end: bool,
}

impl View for VolumeFacts {
    type V = FactsV;

    open spec fn view(&self) -> FactsV {
        FactsV { phase: self.phase, bounds: bound_list(self.bounds@), false_end: self.false_end }
    }
}

/// The prompt of a handoff.
pub open spec fn handoff_prompt(
    phase: VolumePhase,
    volume: u32,
    failure: Option<Seq<char>>,
) -> Seq<char> {
    let base = if phase == VolumePhase::AwaitingNextArc {
        "卷间交接：请先设计第"@ + text::dec(volume as nat) + "卷卷纲，再开剧情卡写章。"@
    } else {
        "卷间交接：第"@ + text::dec(volume as nat)
            + "卷卷纲已就绪，请设计并激活开局剧情卡。"@
    };
    match failure {
        Some(hint) => if hint.len() > 0 {
            "上次未成功："@ + hint + "\n\n"@ + base
        } else {
            base
        },
        None => base,
    }
}

/// The card of the step between volumes that a project stands at. A failed
/// attempt opens it again; without one it opens once.
pub open spec fn handoff_opened(
    s: ThreadV,
    enforce: bool,
    c: Seq<GateV>,
    project: Seq<char>,
    phase: VolumePhase,
    facts: FactsV,
    failure: Option<Seq<char>>,
) -> (ThreadV, OfferV) {
    if !enforce || project.len() == 0 || phase == VolumePhase::DraftingVolume {
        (s, OfferV::Nothing)
    } else if phase == VolumePhase::AwaitingSync {
        if facts.false_end {
            (
                ThreadV { pending_volume_sync: None, pending_volume_handoff: None, ..s },
                OfferV::Nothing,
            )
        } else {
            let ended = ended_volume(facts.bounds);
            (
                ThreadV {
                    pending_volume_sync: Some(
                        VolumeSyncV {
                            project,
                            volume: ended.0,
                            name: ended.1,
                            deferred_setting_blocker: None,
                        },
                    ),
                    pending_volume_handoff: None,
                    pending_chapter_next: None,
                    ..s
                },
                OfferV::Open(
                    offers::plain_card(
                        volume_label(ended.0 as u64, ended.1)
                            + "已结束，是否同步设定库？"@,
                        gates::shown(c, "volume_sync"@),
                    ),
                ),
            )
        }
    } else {
        let volume = target_volume(facts.bounds);
        let options = gates::shown(
            c,
            if phase == VolumePhase::AwaitingNextArc {
                "volume_handoff_arc"@
            } else {
                "volume_handoff_plot"@
            },
        );
        if options.len() == 0 {
            (s, OfferV::Nothing)
        } else if failure is None && (s.pending_volume_handoff matches Some(p) && p.project
            == project && p.phase == phase_word(phase) && p.volume == volume) {
            (s, OfferV::Standing)
        } else {
            (
                ThreadV {
                    pending_volume_handoff: Some(
                        VolumeHandoffV {
                            project,
                            phase: phase_word(phase),
                            volume,
                            title: plot_title(facts.bounds, volume),
                            last_error: gates::or_empty(failure),
                        },
                    ),
                    pending_volume_sync: None,
                    pending_chapter_next: None,
                    ..s
                },
                OfferV::Open(offers::plain_card(handoff_prompt(phase, volume, failure), options)),
            )
        }
    }
}

/// The phase that a tool's data names, or else the project's.
pub open spec fn told_phase(data: JsonV, facts: FactsV) -> VolumePhase {
    match data.text("volume_phase"@) {
        Some(w) => if w == "drafting_volume"@ {
            VolumePhase::DraftingVolume
        } else if w == "awaiting_sync"@ {
            VolumePhase::AwaitingSync
        } else if w == "awaiting_next_arc"@ {
            VolumePhase::AwaitingNextArc
        } else if w == "awaiting_next_plot"@ {
            VolumePhase::AwaitingNextPlot
        } else {
            facts.phase
        },
        None => facts.phase,
    }
}

/// The tool's result calls for the step between volumes.
pub open spec fn handoff_due(tool: Seq<char>, data: JsonV, phase: VolumePhase) -> bool {
    let blocked = data.flag("blocked"@);
    let flag = data.flag("offer_volume_handoff"@);
    if tool == "continue_writing"@ || tool == "revise_chapter"@ || tool == "design_plot"@ {
        blocked && phase != VolumePhase::DraftingVolume
    } else if tool == "sync_volume"@ {
        !blocked && !data.denied("ok"@) && phase == VolumePhase::AwaitingNextArc
    } else if tool == "design_arc_outline"@ {
        (!blocked && phase == VolumePhase::AwaitingNextPlot) || flag
    } else {
        flag
    }
}

/// The step between volumes, where the result calls for it and no audit or setup
/// card is open.
pub open spec fn handoff_offer(
    s: ThreadV,
    enforce: bool,
    c: Seq<GateV>,
    tool: Seq<char>,
    args: JsonV,
    data: JsonV,
    facts: FactsV,
) -> (ThreadV, OfferV) {
    let project = json::project_in(data, args);
    let phase = told_phase(data, facts);
    if !enforce || project.len() == 0 || !handoff_due(tool, data, phase) || s.pending_audit is Some
        || s.pending_volume_audit is Some || s.pending_setup is Some {
        (s, OfferV::Nothing)
    } else {
        handoff_opened(s, enforce, c, project, phase, facts, None)
    }
}

fn phase_told(data: &Json, facts: &VolumeFacts) -> (r: VolumePhase)
    ensures
        r == told_phase(data@, facts@),
{
    match data.get_str("volume_phase") {
        Some(w) => if text::same(w, "drafting_volume") {
            VolumePhase::DraftingVolume
        } else if text::same(w, "awaiting_sync") {
            VolumePhase::AwaitingSync
        } else if text::same(w, "awaiting_next_arc") {
            VolumePhase::AwaitingNextArc
        } else if text::same(w, "awaiting_next_plot") {
            VolumePhase::AwaitingNextPlot
        } else {
            facts.phase
        },
        None => facts.phase,
    }
}

fn is_handoff_due(tool: &str, data: &Json, phase: VolumePhase) -> (r: bool)
    ensures
        r == handoff_due(tool@, data@, phase),
{
    let blocked = data.is_true("blocked");
    let flag = data.is_true("offer_volume_handoff");
    if text::same(tool, "continue_writing") || text::same(tool, "revise_chapter") || text::same(
        tool,
        "design_plot",
    ) {
        blocked && phase != VolumePhase::DraftingVolume
    } else if text::same(tool, "sync_volume") {
        !blocked && !data.is_false("ok") && phase == VolumePhase::AwaitingNextArc
    } else if text::same(tool, "design_arc_outline") {
        (!blocked && phase == VolumePhase::AwaitingNextPlot) || flag
    } else {
        flag
    }
}

/// The prompt of a handoff.
pub fn prompt_of_handoff(phase: VolumePhase, volume: u32, failure: Option<&str>) -> (r: String)
    ensures
        r@ == handoff_prompt(phase, volume, text::opt_str(failure)),
{
    let number = text::number(volume as u64);
    let mut base: String;
    if phase == VolumePhase::AwaitingNextArc {
        base = "卷间交接：请先设计第".to_owned();
        base.push_str(number.as_str());
        base.push_str("卷卷纲，再开剧情卡写章。");
    } else {
        base = "卷间交接：第".to_owned();
        base.push_str(number.as_str());
        base.push_str("卷卷纲已就绪，请设计并激活开局剧情卡。");
    }
    match failure {
        Some(hint) => if hint.is_empty() {
            base
        } else {
            let mut s = "上次未成功：".to_owned();
            s.push_str(hint);
            s.push_str("\n\n");
            s.push_str(base.as_str());
            s
        },
        None => base,
    }
}

// ---------------------------------------------------------------------------
// The audit of a volume
// ---------------------------------------------------------------------------

/// The chapters that a list of values names.
pub open spec fn chapters_in(v: Seq<JsonV>) -> Seq<u32>
    decreases v.len(),
{
    if v.len() == 0 {
        Seq::empty()
    } else {
        let rest = chapters_in(v.drop_last());
        match v.last() {
            JsonV::Uint(n) => if n as u32 >= 1 {
                rest.push(n as u32)
            } else {
                rest
            },
            _ => rest,
        }
    }
}

/// The chapters that an audit of a volume suggests.
pub open spec fn suggested(data: JsonV) -> Seq<u32> {
    match data.list("suggested_chapters"@) {
        Some(v) => chapters_in(v),
        None => Seq::empty(),
    }
}

/// The chapters in words.
pub open spec fn chapter_words(v: Seq<u32>) -> Seq<Seq<char>> {
    Seq::new(v.len(), |i: int| "第"@ + text::dec(v[i] as nat) + "章"@)
}

/// The audit of a volume that suggests chapters goes to the studio.
pub open spec fn volume_audit_offer(s: ThreadV, tool: Seq<char>, args: JsonV, data: JsonV) -> (
    ThreadV,
    OfferV,
) {
    let chapters = suggested(data);
    let project = json::project_in(args, data);
    let volume = json::uint_or(data, "volume_index"@, 0) as u32;
    if tool != "audit_volume"@ || !data.flag("needs_user_choice"@) || chapters.len() == 0
        || project.len() == 0 {
        (s, OfferV::Nothing)
    } else {
        (
            ThreadV { pending_audit: None, ..s },
            OfferV::Ask(
                StudioRequestV {
                    project,
                    reason: "第"@ + text::dec(volume as nat) + "卷复盘完成。建议深审："@
                        + text::joined(chapter_words(chapters), "、"@),
                    context: ContextV::VolumeAudit { volume, chapters },
                    outline_rewrite: false,
                },
            ),
        )
    }
}

/// The chapters that a list of values names.
pub fn read_chapters(v: &Vec<Json>) -> (r: Vec<u32>)
    ensures
        r@ == chapters_in(json::items(v@)),
{
    let ghost vv = json::items(v@);
    let mut out: Vec<u32> = Vec::new();
    let mut i: usize = 0;
    while i < v.len()
        invariant
            i <= v.len(),
            vv == json::items(v@),
            out@ == chapters_in(vv.take(i as int)),
        decreases v.len() - i,
    {
        assert(vv.take(i + 1).drop_last() =~= vv.take(i as int));
        assert(vv.take(i + 1).last() == v@[i as int]@);
        match &v[i] {
            Json::Uint(n) => {
                let c: u32 = *n as u32;
                if c >= 1 {
                    out.push(c);
                }
            },
            _ => {},
        }
        i = i + 1;
    }
    assert(vv.take(i as int) =~= vv);
    out
}

/// The chapters in words, in a row.
pub fn name_chapters(v: &Vec<u32>) -> (r: String)
    ensures
        r@ == text::joined(chapter_words(v@), "、"@),
{
    let mut words: Vec<String> = Vec::new();
    let mut i: usize = 0;
    while i < v.len()
        invariant
            i <= v.len(),
            words.len() == i,
            forall|j: int| 0 <= j < i ==> (#[trigger] words@[j])@ == chapter_words(v@)[j],
        decreases v.len() - i,
    {
        let mut w = "第".to_owned();
        w.push_str(text::number(v[i] as u64).as_str());
        w.push_str("章");
        words.push(w);
        i = i + 1;
    }
    assert(text::texts(words@) =~= chapter_words(v@));
    text::join(&words, "、")
}

impl ThreadState {
    /// Opens the card of a step of the setup.
    pub fn offer_setup_gate(&mut self, catalog: &GateCatalog, project: &str, next: &SetupStep) -> (r:
        Offer)
        ensures
            (final(self)@, r@) == setup_opened(old(self)@, catalog@, project@, next@),
    {
        let options = catalog.options(next.gate.as_str());
        if options.len() == 0 {
            return Offer::Nothing;
        }
        self.pending_setup = Some(
            PendingSetup { project: project.to_owned(), next: next.name.clone() },
        );
        self.pending_audit = None;
        self.pending_chapter_next = None;
        Offer::Open(Card { prompt: next.prompt.clone(), options, preview: None })
    }

    /// Opens the card of the next step of the setup, where the result asks for it.
    pub fn maybe_offer_setup_confirm(
        &mut self,
        enforce: bool,
        catalog: &GateCatalog,
        tool: &str,
        args: &Json,
        data: &Json,
        next: Option<&SetupStep>,
    ) -> (r: Offer)
        ensures
            (final(self)@, r@) == setup_offer(
                old(self)@,
                enforce,
                catalog@,
                tool@,
                args@,
                data@,
                match next {
                    Some(n) => Some(n@),
                    None => None,
                },
            ),
    {
        if !enforce || data.is_true("needs_confirm") {
            return Offer::Nothing;
        }
        let waiting = match data.get_str("setup_phase") {
            Some(w) => text::same(w, "awaiting_confirm"),
            None => false,
        };
        if !offers::is_write_blocked(tool, data, "setup") && !(is_setup_tool(tool) && !data.is_true(
            "blocked",
        )) && !data.is_true("offer_setup_confirm") && !waiting {
            return Offer::Nothing;
        }
        let project = json::project_from(args, data);
        if project.as_str().is_empty() {
            return Offer::Nothing;
        }
        let next = match next {
            Some(n) => n,
            None => {
                return Offer::Nothing;
            },
        };
        match &self.pending_setup {
            Some(p) => {
                if text::same(p.project.as_str(), project.as_str()) && text::same(
                    p.next.as_str(),
                    next.name.as_str(),
                ) {
                    return Offer::Standing;
                }
            },
            None => {},
        }
        if self.pending_mutation.is_some() || self.pending_impact.is_some()
            || self.pending_audit.is_some() || self.pending_volume_sync.is_some()
            || self.pending_volume_handoff.is_some() {
            return Offer::Nothing;
        }
        self.offer_setup_gate(catalog, project.as_str(), next)
    }

    /// Asks at the end of a volume whether to synchronise.
    pub fn maybe_offer_volume_sync(
        &mut self,
        catalog: &GateCatalog,
        tool: &str,
        args: &Json,
        data: &Json,
        memory: &str,
    ) -> (r: Offer)
        ensures
            (final(self)@, r@) == volume_sync_offer(
                old(self)@,
                catalog@,
                tool@,
                args@,
                data@,
                memory@,
            ),
    {
        if !text::same(tool, "continue_writing") && !text::same(tool, "revise_chapter")
            && !text::same(tool, "audit_chapter") {
            return Offer::Nothing;
        }
        let volume: u64 = match data.get_u64("volume_ended") {
            Some(n) => n,
            None => {
                return Offer::Nothing;
            },
        };
        let hint = json::project_from(data, args);
        match &self.pending_volume_sync {
            Some(p) => {
                if (hint.as_str().is_empty() || text::same(p.project.as_str(), hint.as_str()))
                    && p.volume as u64 == volume {
                    return Offer::Standing;
                }
            },
            None => {},
        }
        let project = json::project_from(args, data);
        if project.as_str().is_empty() {
            return Offer::Nothing;
        }
        let deferred = read_deferred(project.as_str(), data);
        let prompt = prompt_at_end(data, volume, memory);
        self.pending_volume_sync = Some(
            PendingVolumeSync {
                project,
                volume: volume as u32,
                name: data.str_or_empty("volume_ended_name"),
                deferred_setting_blocker: deferred,
            },
        );
        self.pending_audit = None;
        Offer::Open(Card { prompt, options: catalog.options("volume_sync"), preview: None })
    }

    /// Opens the card of the step between volumes that the project stands at.
    pub fn offer_volume_handoff_gate(
        &mut self,
        enforce: bool,
        catalog: &GateCatalog,
        project: &str,
        phase: VolumePhase,
        facts: &VolumeFacts,
        failure: Option<&str>,
    ) -> (r: Offer)
        ensures
            (final(self)@, r@) == handoff_opened(
                old(self)@,
                enforce,
                catalog@,
                project@,
                phase,
                facts@,
                text::opt_str(failure),
            ),
    {
        if !enforce || project.is_empty() || phase == VolumePhase::DraftingVolume {
            return Offer::Nothing;
        }
        if phase == VolumePhase::AwaitingSync {
            if facts.false_end {
                self.pending_volume_sync = None;
                self.pending_volume_handoff = None;
                return Offer::Nothing;
            }
            let (volume, name) = last_ended(&facts.bounds);
            let mut prompt = label_of(volume as u64, name.as_str());
            prompt.push_str("已结束，是否同步设定库？");
            self.pending_volume_sync = Some(
                PendingVolumeSync {
                    project: project.to_owned(),
                    volume,
                    name,
                    deferred_setting_blocker: None,
                },
            );
            self.pending_volume_handoff = None;
            self.pending_chapter_next = None;
            return Offer::Open(
                Card { prompt, options: catalog.options("volume_sync"), preview: None },
            );
        }
        let volume: u32 = handoff_target_volume(&facts.bounds);
        let options = if phase == VolumePhase::AwaitingNextArc {
            catalog.options("volume_handoff_arc")
        } else {
            catalog.options("volume_handoff_plot")
        };
        if options.len() == 0 {
            return Offer::Nothing;
        }
        if failure.is_none() {
            match &self.pending_volume_handoff {
                Some(p) => {
                    if text::same(p.project.as_str(), project) && text::same(
                        p.phase.as_str(),
                        phase.as_str(),
                    ) && p.volume == volume {
                        return Offer::Standing;
                    }
                },
                None => {},
            }
        }
        let last_error = match failure {
            Some(hint) => hint.to_owned(),
            None => String::new(),
        };
        self.pending_volume_handoff = Some(
            PendingVolumeHandoff {
                project: project.to_owned(),
                phase: phase.as_str().to_owned(),
                volume,
                title: handoff_plot_title(&facts.bounds, volume),
                last_error,
            },
        );
        self.pending_volume_sync = None;
        self.pending_chapter_next = None;
        Offer::Open(
            Card { prompt: prompt_of_handoff(phase, volume, failure), options, preview: None },
        )
    }

    /// Opens the step between volumes, where the result calls for it.
    pub fn maybe_offer_volume_handoff(
        &mut self,
        enforce: bool,
        catalog: &GateCatalog,
        tool: &str,
        args: &Json,
        data: &Json,
        facts: &VolumeFacts,
    ) -> (r: Offer)
        ensures
            (final(self)@, r@) == handoff_offer(
                old(self)@,
                enforce,
                catalog@,
                tool@,
                args@,
                data@,
                facts@,
            ),
    {
        if !enforce {
            return Offer::Nothing;
        }
        let project = json::project_from(data, args);
        if project.as_str().is_empty() {
            return Offer::Nothing;
        }
        let phase = phase_told(data, facts);
        if !is_handoff_due(tool, data, phase) || self.pending_audit.is_some()
            || self.pending_volume_audit.is_some() || self.pending_setup.is_some() {
            return Offer::Nothing;
        }
        self.offer_volume_handoff_gate(enforce, catalog, project.as_str(), phase, facts, None)
    }

    /// Takes the audit of a volume that suggests chapters to the studio.
    pub fn maybe_offer_volume_audit(&mut self, tool: &str, args: &Json, data: &Json) -> (r: Offer)
        ensures
            (final(self)@, r@) == volume_audit_offer(old(self)@, tool@, args@, data@),
    {
        if !text::same(tool, "audit_volume") || !data.is_true("needs_user_choice") {
            return Offer::Nothing;
        }
        let chapters = match data.get_list("suggested_chapters") {
            Some(v) => read_chapters(v),
            None => Vec::new(),
        };
        let project = json::project_from(args, data);
        if chapters.len() == 0 || project.as_str().is_empty() {
            return Offer::Nothing;
        }
        let volume: u32 = json::get_u64_or(data, "volume_index", 0) as u32;
        let mut reason = "第".to_owned();
        reason.push_str(text::number(volume as u64).as_str());
        reason.push_str("卷复盘完成。建议深审：");
        reason.push_str(name_chapters(&chapters).as_str());
        self.pending_audit = None;
        Offer::Ask(
            StudioRequest {
                project,
                reason,
                context: StudioNextContext::VolumeAudit { volume, chapters },
                outline_rewrite: false,
            },
        )
    }
}

} // verus!
