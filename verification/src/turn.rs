//! What a request means: an answer to an open card, a known request, or talk for
//! the model.

use vstd::prelude::*;

use crate::gates;
use crate::gates::{GateCatalog, GateV};
use crate::intent;
use crate::intent::{IntentMatch, IntentMatchV, IntentRouter};
use crate::json::{Json, JsonV};
use crate::parse_ops;
use crate::parse_ops::ImpactOp;
use crate::text;
use crate::thread_state;
use crate::thread_state::{ChapterNextV, ThreadState, ThreadV};
use crate::volume::{SetupStep, SetupStepV};
use crate::writing;
use crate::writing::NextChapter;

verus! {

/// What is known besides the thread when a request comes in.
pub struct TurnFacts<'a> {
    /// The request picks from the studio's own card.
    pub studio_pick: bool,
    /// The step of the setup that waits.
    pub setup_step: &'a SetupStep,
    /// The request asks to synchronise a volume by hand.
    pub manual_sync: bool,
    /// The chapter to polish after a passed audit.
    pub soft_target: Option<u32>,
    /// An audit queue runs for the bound project.
    pub queue_active: bool,
    /// An audit queue runs for the project whose audit waits.
    pub audit_queue_active: bool,
    /// The request asks to go on writing.
    pub asks_to_continue: bool,
    /// What was said in the thread.
    pub messages: &'a Vec<String>,
    pub next: &'a NextChapter,
    /// Known requests are carried out without the model.
    pub deterministic_intents: bool,
}

/// What is known besides the thread, by contents.
pub struct TurnFactsV {
    pub studio_pick: bool,
    pub setup_step: SetupStepV,
    pub manual_sync: bool,
    pub soft_target: Option<u32>,
    pub queue_active: bool,
    pub audit_queue_active: bool,
    pub asks_to_continue: bool,
    pub messages: Seq<Seq<char>>,
    pub next: NextChapter,
    pub deterministic_intents: bool,
}

impl<'a> View for TurnFacts<'a> {
    type V = TurnFactsV;

    open spec fn view(&self) -> TurnFactsV {
        TurnFactsV {
            studio_pick: self.studio_pick,
            setup_step: self.setup_step@,
            manual_sync: self.manual_sync,
            soft_target: self.soft_target,
            queue_active: self.queue_active,
            audit_queue_active: self.audit_queue_active,
            asks_to_continue: self.asks_to_continue,
            messages: text::texts(self.messages@),
            next: *self.next,
            deterministic_intents: self.deterministic_intents,
        }
    }
}

/// What a request means.
pub enum Route {
    /// A change is applied or dropped.
    Mutation(String, Json),
    /// The studio's own card is answered.
    StudioPick,
    /// What depends on a change is revised or left alone.
    Impact(ImpactOp),
    /// The chapter that is next in order is written.
    ChapterOrder(String, Json),
    /// The choice after a chapter is made.
    ChapterChoice(String, Json),
    /// A number that no button has: the card stays, with this hint.
    ButtonHint(String),
    /// A step between volumes is taken.
    Handoff(String, Json),
    /// A step of the setup is taken.
    Setup(String, Json),
    /// The end of a volume is answered.
    VolumeSync(String, Json),
    /// A chapter is polished after a passed audit.
    SoftRevise(String, u32),
    /// The text is kept as it is.
    KeepText,
    /// The queue that the answer belongs to is gone.
    QueueGone,
    /// An audit is answered.
    AuditSteer(String, Json),
    /// An outline is being rewritten, so nothing is written on.
    OutlineFirst(String),
    /// Going on could mean two things.
    Clarify(String, String),
    /// A known request.
    Request(IntentMatch),
    /// Talk for the model.
    Converse,
}

/// What a request means, by contents.
pub enum RouteV {
    Mutation(Seq<char>, JsonV),
    StudioPick,
    Impact(ImpactOp),
    ChapterOrder(Seq<char>, JsonV),
    ChapterChoice(Seq<char>, JsonV),
    ButtonHint(Seq<char>),
    Handoff(Seq<char>, JsonV),
    Setup(Seq<char>, JsonV),
    VolumeSync(Seq<char>, JsonV),
    SoftRevise(Seq<char>, u32),
    KeepText,
    QueueGone,
    AuditSteer(Seq<char>, JsonV),
    OutlineFirst(Seq<char>),
    Clarify(Seq<char>, Seq<char>),
    Request(IntentMatchV),
    Converse,
}

impl View for Route {
    type V = RouteV;

    open spec fn view(&self) -> RouteV {
        match self {
            Route::Mutation(n, a) => RouteV::Mutation(n@, a@),
            Route::StudioPick => RouteV::StudioPick,
            Route::Impact(o) => RouteV::Impact(*o),
            Route::ChapterOrder(n, a) => RouteV::ChapterOrder(n@, a@),
            Route::ChapterChoice(n, a) => RouteV::ChapterChoice(n@, a@),
            Route::ButtonHint(h) => RouteV::ButtonHint(h@),
            Route::Handoff(n, a) => RouteV::Handoff(n@, a@),
            Route::Setup(n, a) => RouteV::Setup(n@, a@),
            Route::VolumeSync(n, a) => RouteV::VolumeSync(n@, a@),
            Route::SoftRevise(p, c) => RouteV::SoftRevise(p@, *c),
            Route::KeepText => RouteV::KeepText,
            Route::QueueGone => RouteV::QueueGone,
            Route::AuditSteer(n, a) => RouteV::AuditSteer(n@, a@),
            Route::OutlineFirst(p) => RouteV::OutlineFirst(p@),
            Route::Clarify(p, t) => RouteV::Clarify(p@, t@),
            Route::Request(m) => RouteV::Request(m@),
            Route::Converse => RouteV::Converse,
        }
    }
}

/// The request is a number of one or two digits.
pub open spec fn bare_index(request: Seq<char>) -> bool {
    let t = text::trimmed(request);
    1 <= t.len() <= 2 && text::all_digits(t)
}

/// The hint to a number that no button has.
pub open spec fn button_hint(n: ChapterNextV) -> Seq<char> {
    if n.suggest_next is Some {
        "请点击「审校本章 / 修订本章 / 写下一章」，或输入该按钮原文；序号请与上方选项一致。"@
    } else if n.published {
        "请点击「继续创作」，或输入该按钮原文；序号请与上方选项一致。"@
    } else {
        "请点击「修正本章」，或输入该按钮原文；序号请与上方选项一致。"@
    }
}

/// The request, once the cards that come before a chapter's are not meant: what
/// the choice after a chapter makes of it.
pub open spec fn chapter_route(s: ThreadV, c: Seq<GateV>, request: Seq<char>) -> Option<RouteV> {
    match parse_ops::chapter_next_op(s, c, request) {
        Some(p) => Some(RouteV::ChapterChoice(p.0, p.1)),
        None => match s.pending_chapter_next {
            Some(n) => if bare_index(request) {
                Some(RouteV::ButtonHint(button_hint(n)))
            } else {
                None
            },
            None => None,
        },
    }
}

/// The request as an answer to the cards in order of urgency, up to the choice
/// after a chapter.
pub open spec fn urgent_route(
    s: ThreadV,
    c: Seq<GateV>,
    request: Seq<char>,
    f: TurnFactsV,
) -> Option<RouteV> {
    match parse_ops::mutation_op(s, c, request) {
        Some(p) => Some(RouteV::Mutation(p.0, p.1)),
        None => if f.studio_pick {
            Some(RouteV::StudioPick)
        } else {
            match parse_ops::impact_op(s, c, request) {
                Some(o) => Some(RouteV::Impact(o)),
                None => match parse_ops::order_op(s, c, request) {
                    Some(p) => Some(RouteV::ChapterOrder(p.0, p.1)),
                    None => chapter_route(s, c, request),
                },
            }
        },
    }
}

/// The request as an answer to the cards of the volumes and of the setup.
pub open spec fn stage_route(
    s: ThreadV,
    c: Seq<GateV>,
    request: Seq<char>,
    f: TurnFactsV,
) -> Option<RouteV> {
    match parse_ops::handoff_op(s, c, request) {
        Some(p) => Some(RouteV::Handoff(p.0, p.1)),
        None => match parse_ops::setup_op(s, c, request, f.setup_step) {
            Some(p) => Some(RouteV::Setup(p.0, p.1)),
            None => match parse_ops::volume_sync_op(s, c, request, s.project, f.manual_sync) {
                Some(p) => Some(RouteV::VolumeSync(p.0, p.1)),
                None => None,
            },
        },
    }
}

/// The request as words about an audit, with or without its card.
pub open spec fn audit_route(
    s: ThreadV,
    c: Seq<GateV>,
    request: Seq<char>,
    f: TurnFactsV,
) -> Option<RouteV> {
    if s.unblocked() && gates::steer_word(c, request, "revise"@) && s.project is Some
        && f.soft_target is Some {
        Some(RouteV::SoftRevise(s.project->0, f.soft_target->0))
    } else if s.unblocked() && gates::steer_word(c, request, "accept"@) {
        Some(RouteV::KeepText)
    } else if gates::stale_word(c, request) && s.unblocked() && (gates::or_empty(s.project).len()
        == 0 || !f.queue_active) {
        Some(RouteV::QueueGone)
    } else {
        match parse_ops::audit_op(s, c, request, f.audit_queue_active) {
            Some(p) => Some(RouteV::AuditSteer(p.0, p.1)),
            None => None,
        }
    }
}

/// The request without any card: a plain wish to go on, a known request, or talk.
pub open spec fn free_route(s: ThreadV, f: TurnFactsV, known: Option<IntentMatchV>) -> RouteV {
    let outline = thread_state::outline_blocks(s, f.messages);
    let clarify = writing::clarify_text(f.asks_to_continue, f.next);
    let bare = if outline {
        None
    } else {
        writing::bare_intent(s.project, f.asks_to_continue, f.next)
    };
    if s.project is Some && f.asks_to_continue && outline {
        RouteV::OutlineFirst(s.project->0)
    } else if s.project is Some && clarify is Some {
        RouteV::Clarify(s.project->0, clarify->0)
    } else if f.deterministic_intents && known is Some {
        RouteV::Request(known->0)
    } else if f.deterministic_intents && bare is Some {
        RouteV::Request(bare->0)
    } else {
        RouteV::Converse
    }
}

/// What a request means, and the thread after it was read: words that do not
/// answer the choice after a chapter close that card. `known` is the known
/// request that the words make.
pub open spec fn routed(
    s: ThreadV,
    c: Seq<GateV>,
    request: Seq<char>,
    f: TurnFactsV,
    known: Option<IntentMatchV>,
) -> (ThreadV, RouteV) {
    match urgent_route(s, c, request, f) {
        Some(r) => (s, r),
        None => {
            let t = ThreadV { pending_chapter_next: None, ..s };
            (
                t,
                match stage_route(t, c, request, f) {
                    Some(r) => r,
                    None => match audit_route(t, c, request, f) {
                        Some(r) => r,
                        None => free_route(t, f, known),
                    },
                },
            )
        },
    }
}

fn is_bare_index(request: &str) -> (r: bool)
    ensures
        r == bare_index(request@),
{
    let t = text::trim(request);
    let n: usize = t.unicode_len();
    1 <= n && n <= 2 && text::only_digits(t)
}

impl ThreadState {
    fn project_str(&self) -> (r: Option<&str>)
        ensures
            text::opt_str(r) == self@.project,
    {
        match &self.project {
            Some(p) => Some(p.as_str()),
            None => None,
        }
    }

    fn route_urgent(&self, catalog: &GateCatalog, request: &str, facts: &TurnFacts) -> (r: Option<
        Route,
    >)
        ensures
            thread_state::opt_view(r) == urgent_route(self@, catalog@, request@, facts@),
    {
        match self.parse_mutation_confirm_op(catalog, request) {
            Some((n, a)) => {
                return Some(Route::Mutation(n, a));
            },
            None => {},
        }
        if facts.studio_pick {
            return Some(Route::StudioPick);
        }
        match self.parse_impact_confirm_op(catalog, request) {
            Some(o) => {
                return Some(Route::Impact(o));
            },
            None => {},
        }
        match self.parse_chapter_order_op(catalog, request) {
            Some((n, a)) => {
                return Some(Route::ChapterOrder(n, a));
            },
            None => {},
        }
        match self.parse_chapter_next_op(catalog, request) {
            Some((n, a)) => {
                return Some(Route::ChapterChoice(n, a));
            },
            None => {},
        }
        match &self.pending_chapter_next {
            Some(p) => if is_bare_index(request) {
                Some(
                    Route::ButtonHint(
                        if p.suggest_next.is_some() {
                            "请点击「审校本章 / 修订本章 / 写下一章」，或输入该按钮原文；序号请与上方选项一致。".to_owned()
                        } else if p.published {
                            "请点击「继续创作」，或输入该按钮原文；序号请与上方选项一致。".to_owned()
                        } else {
                            "请点击「修正本章」，或输入该按钮原文；序号请与上方选项一致。".to_owned()
                        },
                    ),
                )
            } else {
                None
            },
            None => None,
        }
    }

    fn route_stage(&self, catalog: &GateCatalog, request: &str, facts: &TurnFacts) -> (r: Option<
        Route,
    >)
        ensures
            thread_state::opt_view(r) == stage_route(self@, catalog@, request@, facts@),
    {
        match self.parse_volume_handoff_op(catalog, request) {
            Some((n, a)) => {
                return Some(Route::Handoff(n, a));
            },
            None => {},
        }
        match self.parse_setup_op(catalog, request, facts.setup_step) {
            Some((n, a)) => {
                return Some(Route::Setup(n, a));
            },
            None => {},
        }
        match self.parse_volume_sync_op(catalog, request, self.project_str(), facts.manual_sync) {
            Some((n, a)) => Some(Route::VolumeSync(n, a)),
            None => None,
        }
    }

    fn route_audit(&self, catalog: &GateCatalog, request: &str, facts: &TurnFacts) -> (r: Option<
        Route,
    >)
        ensures
            thread_state::opt_view(r) == audit_route(self@, catalog@, request@, facts@),
    {
        let free = self.no_blocking_gate();
        if free && catalog.is_audit_revise_choice(request) {
            match (&self.project, facts.soft_target) {
                (Some(p), Some(chapter)) => {
                    return Some(Route::SoftRevise(p.clone(), chapter));
                },
                _ => {},
            }
        }
        if free && catalog.is_audit_accept_choice(request) {
            return Some(Route::KeepText);
        }
        let bound = match &self.project {
            Some(p) => !p.as_str().is_empty(),
            None => false,
        };
        if free && catalog.is_stale_audit_choice_token(request) && (!bound || !facts.queue_active) {
            return Some(Route::QueueGone);
        }
        match self.parse_audit_steer_op(catalog, request, facts.audit_queue_active) {
            Some((n, a)) => Some(Route::AuditSteer(n, a)),
            None => None,
        }
    }

    fn route_free(&self, facts: &TurnFacts, known: Option<IntentMatch>) -> (r: Route)
        ensures
            r@ == free_route(self@, facts@, intent::opt_match(known)),
    {
        let outline = self.outline_rewrite_blocks_bare_continue(facts.messages);
        match &self.project {
            Some(p) => {
                if facts.asks_to_continue && outline {
                    return Route::OutlineFirst(p.clone());
                }
                match writing::clarify_bare_continue(facts.asks_to_continue, facts.next) {
                    Some(t) => {
                        return Route::Clarify(p.clone(), t);
                    },
                    None => {},
                }
            },
            None => {},
        }
        if !facts.deterministic_intents {
            return Route::Converse;
        }
        match known {
            Some(m) => {
                return Route::Request(m);
            },
            None => {},
        }
        if !outline {
            match writing::bare_continue_write_intent(
                self.project_str(),
                facts.asks_to_continue,
                facts.next,
            ) {
                Some(m) => {
                    return Route::Request(m);
                },
                None => {},
            }
        }
        Route::Converse
    }

    /// Reads a request, given the known request that its words make.
    pub fn route(
        &mut self,
        catalog: &GateCatalog,
        request: &str,
        facts: &TurnFacts,
        known: Option<IntentMatch>,
    ) -> (r: Route)
        ensures
            (final(self)@, r@) == routed(
                old(self)@,
                catalog@,
                request@,
                facts@,
                intent::opt_match(known),
            ),
    {
        match self.route_urgent(catalog, request, facts) {
            Some(r) => {
                return r;
            },
            None => {},
        }
        self.pending_chapter_next = None;
        match self.route_stage(catalog, request, facts) {
            Some(r) => {
                return r;
            },
            None => {},
        }
        match self.route_audit(catalog, request, facts) {
            Some(r) => {
                return r;
            },
            None => {},
        }
        self.route_free(facts, known)
    }

    /// Reads a request.
    pub fn route_request(
        &mut self,
        catalog: &GateCatalog,
        router: &IntentRouter,
        request: &str,
        facts: &TurnFacts,
    ) -> (r: Route)
        ensures
            (final(self)@, r@) == routed(
                old(self)@,
                catalog@,
                request@,
                facts@,
                if text::trimmed(request@).len() == 0 {
                    None
                } else {
                    intent::first_match(
                        router@,
                        text::trimmed(request@),
                        intent::lowercase_of(text::trimmed(request@)),
                        old(self)@.project,
                        0,
                    )
                },
            ),
    {
        let known = router.match_text(request, self.project_str());
        self.route(catalog, request, facts, known)
    }
}

/// A number that no button has never closes the choice after a chapter, and
/// never reaches the model.
pub proof fn stray_number_keeps_card(
    s: ThreadV,
    c: Seq<GateV>,
    request: Seq<char>,
    f: TurnFactsV,
    known: Option<IntentMatchV>,
)
    requires
        s.pending_chapter_next is Some,
        bare_index(request),
    ensures
        routed(s, c, request, f, known).0 == s,
        !(routed(s, c, request, f, known).1 is Converse),
{
}

/// While an outline is being rewritten, a plain wish to go on never starts the
/// next chapter.
pub proof fn outline_is_not_jumped(
    s: ThreadV,
    f: TurnFactsV,
    known: Option<IntentMatchV>,
)
    requires
        s.project is Some,
        f.asks_to_continue,
        thread_state::outline_blocks(s, f.messages),
    ensures
        free_route(s, f, known) == RouteV::OutlineFirst(s.project->0),
{
}

/// A change that awaits confirmation is answered before anything else is read.
pub proof fn confirmation_is_read_first(
    s: ThreadV,
    c: Seq<GateV>,
    request: Seq<char>,
    f: TurnFactsV,
    known: Option<IntentMatchV>,
)
    requires
        parse_ops::mutation_op(s, c, request) is Some,
    ensures
        routed(s, c, request, f, known).1 is Mutation,
        routed(s, c, request, f, known).0 == s,
{
}

} // verus!
