//! The order in which a tool's result is held against the cards.
//!
//! After a tool ran, one card at most follows. Each path through a turn has its
//! own order of cards; the first that applies is opened, and the rest is not
//! looked at. Where the studio has to be asked, its reply decides whether the
//! chain ends there.

use vstd::prelude::*;

use crate::audit_offers;
use crate::audit_offers::{AuditFix, AuditFixV};
use crate::chapter_offers;
use crate::chapter_offers::{ChapterFacts, ChapterFactsV};
use crate::gates::{GateCatalog, GateV};
use crate::issues;
use crate::issues::{AuditIssue, IssueV};
use crate::json::{Json, JsonV};
use crate::offers;
use crate::offers::{
    Card, CardV, ImpactScan, Offer, OfferV, ScanV, StudioRequest, StudioRequestV,
};
use crate::text;
use crate::thread_state::{ThreadState, ThreadV};
use crate::volume;
use crate::volume::{FactsV, SetupStep, SetupStepV, VolumeFacts};

verus! {

/// The cards that may follow a tool's result.
#[derive(Clone, Copy, Debug, PartialEq, Eq, Structural)]
pub enum OfferKind {
    Mutation,
    Impact,
    Order,
    Plot,
    Expected,
    Setup,
    Draft,
    Audit,
    Volume,
    Handoff,
    VolumeAudit,
    Setting,
    Next,
    Followup,
}

/// Everything that the cards are decided by.
pub struct OfferEnv<'a> {
    pub catalog: &'a GateCatalog,
    pub impact_cascade: bool,
    pub enforce_setup: bool,
    pub enforce_volume: bool,
    pub tool: &'a str,
    pub args: &'a Json,
    pub data: &'a Json,
    pub scan: &'a ImpactScan,
    /// The volume and the title that a plot card would get.
    pub plot_volume: u32,
    pub plot_title: &'a str,
    pub setup_step: Option<&'a SetupStep>,
    /// The preview of what is kept of an ended volume.
    pub memory: &'a str,
    pub volumes: &'a VolumeFacts,
    pub chapter: &'a ChapterFacts,
    /// The issues of the audit, from the data or as stored.
    pub found: &'a Vec<AuditIssue>,
    pub queue_running: bool,
}

/// Everything that the cards are decided by, by contents.
pub struct EnvV {
    pub catalog: Seq<GateV>,
    pub impact_cascade: bool,
    pub enforce_setup: bool,
    pub enforce_volume: bool,
    pub tool: Seq<char>,
    pub args: JsonV,
    pub data: JsonV,
    pub scan: ScanV,
    pub plot_volume: u32,
    pub plot_title: Seq<char>,
    pub setup_step: Option<SetupStepV>,
    pub memory: Seq<char>,
    pub volumes: FactsV,
    pub chapter: ChapterFactsV,
    pub found: Seq<IssueV>,
    pub queue_running: bool,
}

impl<'a> View for OfferEnv<'a> {
    type V = EnvV;

    open spec fn view(&self) -> EnvV {
        EnvV {
            catalog: self.catalog@,
            impact_cascade: self.impact_cascade,
            enforce_setup: self.enforce_setup,
            enforce_volume: self.enforce_volume,
            tool: self.tool@,
            args: self.args@,
            data: self.data@,
            scan: self.scan@,
            plot_volume: self.plot_volume,
            plot_title: self.plot_title@,
            setup_step: match self.setup_step {
                Some(n) => Some(n@),
                None => None,
            },
            memory: self.memory@,
            volumes: self.volumes@,
            chapter: self.chapter@,
            found: issues::issue_list(self.found@),
            queue_running: self.queue_running,
        }
    }
}

/// The audit card as an offer; a card that closes offers nothing.
pub open spec fn audit_as_offer(f: AuditFixV) -> OfferV {
    match f {
        AuditFixV::Open { card, todos } => OfferV::Open(card),
        _ => OfferV::Nothing,
    }
}

/// What one kind of card comes to.
pub open spec fn one_offer(s: ThreadV, k: OfferKind, e: EnvV) -> (ThreadV, OfferV) {
    match k {
        OfferKind::Mutation => offers::mutation_offer(s, e.catalog, e.data),
        OfferKind::Impact => offers::impact_offer(
            s,
            e.impact_cascade,
            e.catalog,
            e.tool,
            e.args,
            e.data,
            e.scan,
        ),
        OfferKind::Order => offers::order_offer(s, e.catalog, e.tool, e.args, e.data),
        OfferKind::Plot => (
            s,
            offers::plot_write_offer(e.tool, e.args, e.data, e.plot_volume, e.plot_title),
        ),
        OfferKind::Expected => offers::expected_offer(s, e.tool, e.args, e.data),
        OfferKind::Setup => volume::setup_offer(
            s,
            e.enforce_setup,
            e.catalog,
            e.tool,
            e.args,
            e.data,
            e.setup_step,
        ),
        OfferKind::Draft => (s, offers::draft_offer(e.tool, e.args, e.data)),
        OfferKind::Audit => {
            let f = audit_offers::audit_fix(
                s,
                e.catalog,
                e.tool,
                e.args,
                e.data,
                e.found,
                e.queue_running,
            );
            (f.0, audit_as_offer(f.1))
        },
        OfferKind::Volume => volume::volume_sync_offer(
            s,
            e.catalog,
            e.tool,
            e.args,
            e.data,
            e.memory,
        ),
        OfferKind::Handoff => volume::handoff_offer(
            s,
            e.enforce_volume,
            e.catalog,
            e.tool,
            e.args,
            e.data,
            e.volumes,
        ),
        OfferKind::VolumeAudit => volume::volume_audit_offer(s, e.tool, e.args, e.data),
        OfferKind::Setting => (
            s,
            chapter_offers::setting_blocker_offer(e.tool, e.args, e.data, e.chapter),
        ),
        OfferKind::Next => chapter_offers::chapter_next_offer(
            s,
            e.catalog,
            e.tool,
            e.args,
            e.data,
            e.chapter,
        ),
        OfferKind::Followup => (s, offers::followup_offer(e.tool, e.args, e.data)),
    }
}

/// What the audit card asks to be shown besides: the words it closes with, and
/// whether the queue's list is shown anew.
pub open spec fn audit_notice(s: ThreadV, k: OfferKind, e: EnvV) -> (Option<Seq<char>>, bool) {
    if k == OfferKind::Audit {
        match audit_offers::audit_fix(
            s,
            e.catalog,
            e.tool,
            e.args,
            e.data,
            e.found,
            e.queue_running,
        ).1 {
            AuditFixV::Nothing => (None, false),
            AuditFixV::Dismissed { prompt, todos } => (Some(prompt), todos),
            AuditFixV::Open { card, todos } => (None, todos),
        }
    } else {
        (None, false)
    }
}

/// Where a chain stands.
pub enum ChainStep {
    /// No card followed.
    Ended,
    /// The card was open already.
    Stood(OfferKind),
    /// The card opened.
    Opened(OfferKind, Card),
    /// The studio is asked; unless it takes the request, the chain goes on at
    /// the place given.
    Asking(OfferKind, StudioRequest, usize),
}

/// Where a chain stands, by contents.
pub enum ChainStepV {
    Ended,
    Stood(OfferKind),
    Opened(OfferKind, CardV),
    Asking(OfferKind, StudioRequestV, int),
}

impl View for ChainStep {
    type V = ChainStepV;

    open spec fn view(&self) -> ChainStepV {
        match self {
            ChainStep::Ended => ChainStepV::Ended,
            ChainStep::Stood(k) => ChainStepV::Stood(*k),
            ChainStep::Opened(k, c) => ChainStepV::Opened(*k, c@),
            ChainStep::Asking(k, r, n) => ChainStepV::Asking(*k, r@, *n as int),
        }
    }
}

/// Where a chain stands, with what the audit card asks to be shown besides.
pub struct ChainResult {
    pub step: ChainStep,
    pub closed: Option<String>,
    pub todos: bool,
}

/// A chain's result by contents.
pub struct ChainResultV {
    pub step: ChainStepV,
    pub closed: Option<Seq<char>>,
    pub todos: bool,
}

impl View for ChainResult {
    type V = ChainResultV;

    open spec fn view(&self) -> ChainResultV {
        ChainResultV {
            step: self.step@,
            closed: text::opt_text(self.closed),
            todos: self.todos,
        }
    }
}

/// The chain from a place on: the first kind of card that applies.
pub open spec fn chained(s: ThreadV, order: Seq<OfferKind>, i: int, e: EnvV) -> (
    ThreadV,
    ChainResultV,
)
    decreases order.len() - i,
{
    if i < 0 || i >= order.len() {
        (s, ChainResultV { step: ChainStepV::Ended, closed: None, todos: false })
    } else {
        let k = order[i];
        let o = one_offer(s, k, e);
        let n = audit_notice(s, k, e);
        match o.1 {
            OfferV::Open(c) => (
                o.0,
                ChainResultV { step: ChainStepV::Opened(k, c), closed: n.0, todos: n.1 },
            ),
            OfferV::Standing => (
                o.0,
                ChainResultV { step: ChainStepV::Stood(k), closed: n.0, todos: n.1 },
            ),
            OfferV::Ask(r) => (
                o.0,
                ChainResultV { step: ChainStepV::Asking(k, r, i + 1), closed: n.0, todos: n.1 },
            ),
            OfferV::Nothing => {
                let rest = chained(o.0, order, i + 1, e);
                (
                    rest.0,
                    ChainResultV {
                        step: rest.1.step,
                        closed: match rest.1.closed {
                            Some(w) => Some(w),
                            None => n.0,
                        },
                        todos: rest.1.todos || n.1,
                    },
                )
            },
        }
    }
}

impl ThreadState {
    /// Holds the result against one kind of card.
    fn offer_one(&mut self, kind: OfferKind, e: &OfferEnv) -> (r: (Offer, Option<String>, bool))
        ensures
            (final(self)@, r.0@) == one_offer(old(self)@, kind, e@),
            (text::opt_text(r.1), r.2) == audit_notice(old(self)@, kind, e@),
    {
        let o = match kind {
            OfferKind::Mutation => self.maybe_offer_mutation_confirm(e.catalog, e.data),
            OfferKind::Impact => self.maybe_offer_impact_cascade(
                e.impact_cascade,
                e.catalog,
                e.tool,
                e.args,
                e.data,
                e.scan,
            ),
            OfferKind::Order => self.maybe_offer_chapter_order(e.catalog, e.tool, e.args, e.data),
            OfferKind::Plot => offers::maybe_offer_plot_write(
                e.tool,
                e.args,
                e.data,
                e.plot_volume,
                e.plot_title,
            ),
            OfferKind::Expected => self.maybe_offer_expected_event(e.tool, e.args, e.data),
            OfferKind::Setup => self.maybe_offer_setup_confirm(
                e.enforce_setup,
                e.catalog,
                e.tool,
                e.args,
                e.data,
                e.setup_step,
            ),
            OfferKind::Draft => offers::maybe_offer_draft_exists(e.tool, e.args, e.data),
            OfferKind::Audit => {
                return match self.maybe_offer_audit_fix(
                    e.catalog,
                    e.tool,
                    e.args,
                    e.data,
                    issues::copy_issues(e.found),
                    e.queue_running,
                ) {
                    AuditFix::Nothing => (Offer::Nothing, None, false),
                    AuditFix::Dismissed { prompt, todos } => (Offer::Nothing, Some(prompt), todos),
                    AuditFix::Open { card, todos } => (Offer::Open(card), None, todos),
                };
            },
            OfferKind::Volume => self.maybe_offer_volume_sync(
                e.catalog,
                e.tool,
                e.args,
                e.data,
                e.memory,
            ),
            OfferKind::Handoff => self.maybe_offer_volume_handoff(
                e.enforce_volume,
                e.catalog,
                e.tool,
                e.args,
                e.data,
                e.volumes,
            ),
            OfferKind::VolumeAudit => self.maybe_offer_volume_audit(e.tool, e.args, e.data),
            OfferKind::Setting => chapter_offers::maybe_offer_setting_blocker(
                e.tool,
                e.args,
                e.data,
                e.chapter,
            ),
            OfferKind::Next => self.maybe_offer_chapter_next(
                e.catalog,
                e.tool,
                e.args,
                e.data,
                e.chapter,
            ),
            OfferKind::Followup => offers::maybe_offer_mutation_followup(e.tool, e.args, e.data),
        };
        (o, None, false)
    }

    /// Holds the result against the cards in order, from a place on.
    pub fn run_chain(&mut self, order: &Vec<OfferKind>, from: usize, e: &OfferEnv) -> (r:
        ChainResult)
        ensures
            (final(self)@, r@) == chained(old(self)@, order@, from as int, e@),
        decreases order.len() - from,
    {
        if from >= order.len() {
            return ChainResult { step: ChainStep::Ended, closed: None, todos: false };
        }
        let kind = order[from];
        let (o, closed, todos) = self.offer_one(kind, e);
        match o {
            Offer::Open(c) => ChainResult { step: ChainStep::Opened(kind, c), closed, todos },
            Offer::Standing => ChainResult { step: ChainStep::Stood(kind), closed, todos },
            Offer::Ask(q) => ChainResult {
                step: ChainStep::Asking(kind, q, from + 1),
                closed,
                todos,
            },
            Offer::Nothing => {
                let rest = self.run_chain(order, from + 1, e);
                let closed = match rest.closed {
                    Some(w) => Some(w),
                    None => closed,
                };
                ChainResult { step: rest.step, closed, todos: rest.todos || todos }
            },
        }
    }
}

// ---------------------------------------------------------------------------
// The orders
// ---------------------------------------------------------------------------

/// After a choice at the card of a chapter.
pub open spec fn after_choice_order() -> Seq<OfferKind> {
    seq![
        OfferKind::Mutation,
        OfferKind::Impact,
        OfferKind::Order,
        OfferKind::Plot,
        OfferKind::Expected,
        OfferKind::Setup,
        OfferKind::Draft,
        OfferKind::Audit,
        OfferKind::Volume,
        OfferKind::Handoff,
        OfferKind::Setting,
        OfferKind::Next,
        OfferKind::Followup,
    ]
}

/// After a recognised request.
pub open spec fn after_request_order() -> Seq<OfferKind> {
    seq![
        OfferKind::Mutation,
        OfferKind::Impact,
        OfferKind::Order,
        OfferKind::Plot,
        OfferKind::Expected,
        OfferKind::Setup,
        OfferKind::Draft,
        OfferKind::Volume,
        OfferKind::Handoff,
        OfferKind::VolumeAudit,
        OfferKind::Audit,
        OfferKind::Setting,
        OfferKind::Next,
        OfferKind::Followup,
    ]
}

/// After a tool that the model called, behind the audit.
pub open spec fn after_call_order() -> Seq<OfferKind> {
    seq![
        OfferKind::Mutation,
        OfferKind::Impact,
        OfferKind::Order,
        OfferKind::Plot,
        OfferKind::Expected,
        OfferKind::Setup,
        OfferKind::Volume,
        OfferKind::Handoff,
        OfferKind::VolumeAudit,
        OfferKind::Setting,
        OfferKind::Followup,
    ]
}

/// After a passed audit.
pub open spec fn after_pass_order() -> Seq<OfferKind> {
    seq![
        OfferKind::Volume,
        OfferKind::Handoff,
        OfferKind::VolumeAudit,
        OfferKind::Setting,
        OfferKind::Next,
    ]
}

/// After a change took effect.
pub open spec fn after_apply_order() -> Seq<OfferKind> {
    seq![
        OfferKind::Impact,
        OfferKind::Handoff,
        OfferKind::Setup,
        OfferKind::Next,
        OfferKind::Followup,
    ]
}

/// Once what depends on a change is dealt with.
pub open spec fn after_impact_order() -> Seq<OfferKind> {
    seq![OfferKind::Handoff, OfferKind::Setup, OfferKind::Next, OfferKind::Followup]
}

/// After a step of the setup.
pub open spec fn after_setup_order() -> Seq<OfferKind> {
    seq![OfferKind::Impact, OfferKind::Setup, OfferKind::Followup]
}

/// After the next chapter in order was written.
pub open spec fn after_order_order() -> Seq<OfferKind> {
    seq![OfferKind::Mutation, OfferKind::Impact, OfferKind::Order]
}

/// The paths through a turn that end in a chain of cards.
#[derive(Clone, Copy, Debug, PartialEq, Eq, Structural)]
pub enum ChainPath {
    ChapterChoice,
    Request,
    ModelCall,
    PassedAudit,
    AppliedChange,
    ImpactSettled,
    SetupStep,
    ChapterOrder,
}

/// The order of cards on a path.
pub open spec fn order_of(p: ChainPath) -> Seq<OfferKind> {
    match p {
        ChainPath::ChapterChoice => after_choice_order(),
        ChainPath::Request => after_request_order(),
        ChainPath::ModelCall => after_call_order(),
        ChainPath::PassedAudit => after_pass_order(),
        ChainPath::AppliedChange => after_apply_order(),
        ChainPath::ImpactSettled => after_impact_order(),
        ChainPath::SetupStep => after_setup_order(),
        ChainPath::ChapterOrder => after_order_order(),
    }
}

impl ChainPath {
    /// The order of cards on the path.
    pub fn order(&self) -> (r: Vec<OfferKind>)
        ensures
            r@ == order_of(*self),
    {
        let v = match self {
            ChainPath::ChapterChoice => vec![
                OfferKind::Mutation,
                OfferKind::Impact,
                OfferKind::Order,
                OfferKind::Plot,
                OfferKind::Expected,
                OfferKind::Setup,
                OfferKind::Draft,
                OfferKind::Audit,
                OfferKind::Volume,
                OfferKind::Handoff,
                OfferKind::Setting,
                OfferKind::Next,
                OfferKind::Followup,
            ],
            ChainPath::Request => vec![
                OfferKind::Mutation,
                OfferKind::Impact,
                OfferKind::Order,
                OfferKind::Plot,
                OfferKind::Expected,
                OfferKind::Setup,
                OfferKind::Draft,
                OfferKind::Volume,
                OfferKind::Handoff,
                OfferKind::VolumeAudit,
                OfferKind::Audit,
                OfferKind::Setting,
                OfferKind::Next,
                OfferKind::Followup,
            ],
            ChainPath::ModelCall => vec![
                OfferKind::Mutation,
                OfferKind::Impact,
                OfferKind::Order,
                OfferKind::Plot,
                OfferKind::Expected,
                OfferKind::Setup,
                OfferKind::Volume,
                OfferKind::Handoff,
                OfferKind::VolumeAudit,
                OfferKind::Setting,
                OfferKind::Followup,
            ],
            ChainPath::PassedAudit => vec![
                OfferKind::Volume,
                OfferKind::Handoff,
                OfferKind::VolumeAudit,
                OfferKind::Setting,
                OfferKind::Next,
            ],
            ChainPath::AppliedChange => vec![
                OfferKind::Impact,
                OfferKind::Handoff,
                OfferKind::Setup,
                OfferKind::Next,
                OfferKind::Followup,
            ],
            ChainPath::ImpactSettled => vec![
                OfferKind::Handoff,
                OfferKind::Setup,
                OfferKind::Next,
                OfferKind::Followup,
            ],
            ChainPath::SetupStep => vec![
                OfferKind::Impact,
                OfferKind::Setup,
                OfferKind::Followup,
            ],
            ChainPath::ChapterOrder => vec![
                OfferKind::Mutation,
                OfferKind::Impact,
                OfferKind::Order,
            ],
        };
        assert(v@ =~= order_of(*self));
        v
    }
}

/// A change that awaits confirmation comes before every other card on the paths
/// that look for one.
pub proof fn change_comes_first(s: ThreadV, p: ChainPath, e: EnvV)
    requires
        p == ChainPath::ChapterChoice || p == ChainPath::Request || p == ChainPath::ModelCall || p
            == ChainPath::ChapterOrder,
        e.data.flag("needs_confirm"@),
        e.data.text_or_empty("mutation_id"@).len() > 0,
        e.data.text_or_empty("apply_tool"@).len() > 0,
        s.pending_volume_sync is None,
    ensures
        ({
            let after = chained(s, order_of(p), 0, e);
            &&& after.1.step matches ChainStepV::Opened(OfferKind::Mutation, _)
            &&& after.0.pending_mutation is Some
            &&& after.0.pending_chapter_next is None
        }),
{
    assert(order_of(p)[0] == OfferKind::Mutation);
}

/// The card that a chain opened is the one its kind gives for the thread as the
/// kinds before it left it, and none of those applied.
pub proof fn first_card_wins(s: ThreadV, order: Seq<OfferKind>, i: int, e: EnvV)
    requires
        0 <= i < order.len(),
    ensures
        one_offer(s, order[i], e).1 is Nothing ==> chained(s, order, i, e).1.step == chained(
            one_offer(s, order[i], e).0,
            order,
            i + 1,
            e,
        ).1.step,
        one_offer(s, order[i], e).1 matches OfferV::Open(c) ==> chained(s, order, i, e).1.step
            == ChainStepV::Opened(order[i], c) && chained(s, order, i, e).0 == one_offer(
            s,
            order[i],
            e,
        ).0,
{
}

} // verus!
