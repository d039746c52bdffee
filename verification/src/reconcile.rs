//! Cards that a thread lost and that a project's stored state brings back.

use vstd::prelude::*;

use crate::audit_decisions;
use crate::audit_offers;
use crate::audit_offers::{AuditFix, AuditFixV};
use crate::gates;
use crate::gates::{GateCatalog, GateV};
use crate::issues;
use crate::issues::{AuditIssue, IssueV};
use crate::json::{Json, JsonV};
use crate::text;
use crate::thread_state::{
    AuditGateKind, ChapterNextV, PendingAudit, PendingAuditV, PendingSetup, PendingVolumeHandoff,
    PendingVolumeSync, SetupV, ThreadState, ThreadV, VolumeHandoffV, VolumeSyncV,
};
use crate::volume;
use crate::volume::{FactsV, SetupStep, SetupStepV, VolumeFacts, VolumePhase};

verus! {

/// An audit queue as it is stored.
pub struct AuditQueueFacts {
    pub finished: bool,
    pub current_chapter: Option<u32>,
    /// The audit of the current chapter failed.
    pub current_failed: bool,
    pub value: Json,
    pub todos: Json,
}

/// An audit queue as it is stored, by contents.
pub struct QueueV {
    pub finished: bool,
    pub current_chapter: Option<u32>,
    pub current_failed: bool,
    pub value: JsonV,
    pub todos: JsonV,
}

impl View for AuditQueueFacts {
    type V = QueueV;

    open spec fn view(&self) -> QueueV {
        QueueV {
            finished: self.finished,
            current_chapter: self.current_chapter,
            current_failed: self.current_failed,
            value: self.value@,
            todos: self.todos@,
        }
    }
}

/// The chapter that a queue is stuck on: its audit failed and nobody decided.
pub open spec fn stuck_chapter(q: Option<QueueV>) -> Option<u32> {
    match q {
        Some(q) => if q.finished || !q.current_failed {
            None
        } else {
            q.current_chapter
        },
        None => None,
    }
}

/// An optional queue by contents.
pub open spec fn opt_queue(q: Option<&AuditQueueFacts>) -> Option<QueueV> {
    match q {
        Some(q) => Some(q@),
        None => None,
    }
}

fn stuck_on(q: Option<&AuditQueueFacts>) -> (r: Option<u32>)
    ensures
        r == stuck_chapter(opt_queue(q)),
{
    match q {
        Some(q) => if q.finished || !q.current_failed {
            None
        } else {
            q.current_chapter
        },
        None => None,
    }
}

/// The data that bring back the card of a stuck queue.
pub open spec fn queue_data(project: Seq<char>, chapter: u32, q: QueueV) -> JsonV {
    JsonV::empty_object().put("needs_user_choice"@, JsonV::Bool(true)).put(
        "consistency_passed"@,
        JsonV::Bool(false),
    ).put("project"@, JsonV::Text(project)).put("chapter"@, JsonV::Uint(chapter as u64)).put(
        "queue_active"@,
        JsonV::Bool(true),
    ).put("audit_queue"@, q.value).put("todos"@, q.todos)
}

/// A queue that is stuck opens its card again, where no audit waits already.
pub open spec fn queue_reoffer(
    s: ThreadV,
    c: Seq<GateV>,
    q: Option<QueueV>,
    found: Seq<IssueV>,
) -> (ThreadV, AuditFixV) {
    let project = gates::or_empty(s.project);
    match stuck_chapter(q) {
        Some(chapter) => if s.pending_audit is Some || project.len() == 0 {
            (s, AuditFixV::Nothing)
        } else {
            audit_offers::audit_fix(
                s,
                c,
                "audit_chapters"@,
                audit_decisions::queue_args(project, "continue"@),
                queue_data(project, chapter, q->0),
                found,
                true,
            )
        },
        None => (s, AuditFixV::Nothing),
    }
}

/// The thread with the card of a stuck queue, where no audit waits already.
pub open spec fn queue_restored(s: ThreadV, q: Option<QueueV>, found: Seq<IssueV>) -> ThreadV {
    match stuck_chapter(q) {
        Some(chapter) => if s.pending_audit is Some || s.project is None {
            s
        } else {
            ThreadV {
                pending_audit: Some(
                    PendingAuditV {
                        project: s.project->0,
                        chapter,
                        kind: AuditGateKind::Content,
                        issues: found,
                        decision_options: audit_decisions::fallback_decisions(
                            s.project->0,
                            chapter,
                            found,
                            true,
                        ),
                        awaiting_offer: false,
                    },
                ),
                ..s
            }
        },
        None => s,
    }
}

/// The step of the setup that is brought back: only one that awaits the author.
pub open spec fn setup_restored(
    s: ThreadV,
    enforce: bool,
    project: Seq<char>,
    next: Option<SetupStepV>,
    awaiting_confirm: bool,
) -> ThreadV {
    match next {
        Some(n) => if enforce && s.pending_setup is None && awaiting_confirm && (n.name
            == "confirm"@ || n.name == "need_bible"@) {
            ThreadV { pending_setup: Some(SetupV { project, next: n.name }), ..s }
        } else {
            s
        },
        None => s,
    }
}

/// The end of a volume that is brought back.
pub open spec fn volume_end_restored(
    s: ThreadV,
    enforce: bool,
    project: Seq<char>,
    facts: FactsV,
) -> ThreadV {
    if !enforce || s.pending_volume_sync is Some || facts.phase != VolumePhase::AwaitingSync {
        s
    } else if facts.false_end {
        ThreadV { pending_volume_sync: None, pending_volume_handoff: None, ..s }
    } else {
        let ended = volume::ended_volume(facts.bounds);
        ThreadV {
            pending_volume_sync: Some(
                VolumeSyncV {
                    project,
                    volume: ended.0,
                    name: ended.1,
                    deferred_setting_blocker: None,
                },
            ),
            ..s
        }
    }
}

/// The step between volumes that is brought back, where no card of the setup,
/// of the volumes or of an audit is open.
pub open spec fn handoff_restored(
    s: ThreadV,
    enforce: bool,
    project: Seq<char>,
    phase: VolumePhase,
    facts: FactsV,
) -> ThreadV {
    if enforce && s.pending_volume_handoff is None && s.pending_volume_sync is None
        && s.pending_setup is None && s.pending_audit is None && (phase
        == VolumePhase::AwaitingNextArc || phase == VolumePhase::AwaitingNextPlot) {
        let volume = volume::target_volume(facts.bounds);
        ThreadV {
            pending_volume_handoff: Some(
                VolumeHandoffV {
                    project,
                    phase: volume::phase_word(phase),
                    volume,
                    title: volume::plot_title(facts.bounds, volume),
                    last_error: Seq::empty(),
                },
            ),
            ..s
        }
    } else {
        s
    }
}

/// The choice after a chapter, with the chapter published exactly where the
/// stored count says so.
pub open spec fn published_aligned(s: ThreadV, published_count: Option<u32>) -> ThreadV {
    match published_count {
        Some(n) => match s.pending_chapter_next {
            Some(c) => ThreadV {
                pending_chapter_next: Some(ChapterNextV { published: n >= c.chapter, ..c }),
                ..s
            },
            None => s,
        },
        None => s,
    }
}

/// The thread after its cards were brought in line with the project. `phase` is
/// the project's phase once a volume that had not ended was reopened.
pub open spec fn phases_restored(
    s: ThreadV,
    enforce_setup: bool,
    enforce_volume: bool,
    next: Option<SetupStepV>,
    awaiting_confirm: bool,
    facts: FactsV,
    phase: VolumePhase,
    published_count: Option<u32>,
) -> ThreadV {
    match s.project {
        Some(project) => if project.len() == 0 {
            s
        } else {
            published_aligned(
                handoff_restored(
                    volume_end_restored(
                        setup_restored(s, enforce_setup, project, next, awaiting_confirm),
                        enforce_volume,
                        project,
                        facts,
                    ),
                    enforce_volume,
                    project,
                    phase,
                    facts,
                ),
                published_count,
            )
        },
        None => s,
    }
}

impl ThreadState {
    fn bound_project(&self) -> (r: String)
        ensures
            r@ == gates::or_empty(self@.project),
    {
        match &self.project {
            Some(p) => p.clone(),
            None => String::new(),
        }
    }

    /// Opens the card of a stuck queue again.
    pub fn maybe_reoffer_queue_gate(
        &mut self,
        catalog: &GateCatalog,
        queue: Option<&AuditQueueFacts>,
        found: Vec<AuditIssue>,
    ) -> (r: AuditFix)
        ensures
            (final(self)@, r@) == queue_reoffer(
                old(self)@,
                catalog@,
                opt_queue(queue),
                issues::issue_list(found@),
            ),
    {
        let project = self.bound_project();
        if self.pending_audit.is_some() || project.as_str().is_empty() {
            return AuditFix::Nothing;
        }
        match (stuck_on(queue), queue) {
            (Some(chapter), Some(q)) => {
                let args = Json::object().with_str("project", project.as_str()).with_str(
                    "action",
                    "continue",
                );
                let data = Json::object().with_bool("needs_user_choice", true).with_bool(
                    "consistency_passed",
                    false,
                ).with_str("project", project.as_str()).with_u32("chapter", chapter).with_bool(
                    "queue_active",
                    true,
                ).with("audit_queue", q.value.copy()).with("todos", q.todos.copy());
                self.maybe_offer_audit_fix(catalog, "audit_chapters", &args, &data, found, true)
            },
            _ => AuditFix::Nothing,
        }
    }

    /// Brings back the card of a stuck queue.
    pub fn reconcile_orphan_audit_queue(
        &mut self,
        queue: Option<&AuditQueueFacts>,
        found: Vec<AuditIssue>,
    )
        ensures
            final(self)@ == queue_restored(
                old(self)@,
                opt_queue(queue),
                issues::issue_list(found@),
            ),
    {
        if self.pending_audit.is_some() {
            return;
        }
        let project = match &self.project {
            Some(p) => p.clone(),
            None => {
                return;
            },
        };
        match stuck_on(queue) {
            Some(chapter) => {
                let decisions = audit_decisions::build_fallback_audit_decisions(
                    project.as_str(),
                    chapter,
                    &found,
                    true,
                );
                self.pending_audit = Some(
                    PendingAudit {
                        project,
                        chapter,
                        kind: AuditGateKind::Content,
                        issues: found,
                        decision_options: decisions,
                        awaiting_offer: false,
                    },
                );
            },
            None => {},
        }
    }

    fn restore_setup(&mut self, project: &str, next: Option<&SetupStep>, awaiting_confirm: bool)
        ensures
            final(self)@ == setup_restored(
                old(self)@,
                true,
                project@,
                match next {
                    Some(n) => Some(n@),
                    None => None,
                },
                awaiting_confirm,
            ),
    {
        match next {
            Some(n) => {
                if self.pending_setup.is_none() && awaiting_confirm && (text::same(
                    n.name.as_str(),
                    "confirm",
                ) || text::same(n.name.as_str(), "need_bible")) {
                    self.pending_setup = Some(
                        PendingSetup { project: project.to_owned(), next: n.name.clone() },
                    );
                }
            },
            None => {},
        }
    }

    fn restore_volume_end(&mut self, project: &str, facts: &VolumeFacts)
        ensures
            final(self)@ == volume_end_restored(old(self)@, true, project@, facts@),
    {
        if self.pending_volume_sync.is_some() || facts.phase != VolumePhase::AwaitingSync {
            return;
        }
        if facts.false_end {
            self.pending_volume_sync = None;
            self.pending_volume_handoff = None;
        } else {
            let (volume, name) = volume::last_ended(&facts.bounds);
            self.pending_volume_sync = Some(
                PendingVolumeSync {
                    project: project.to_owned(),
                    volume,
                    name,
                    deferred_setting_blocker: None,
                },
            );
        }
    }

    fn restore_handoff(&mut self, project: &str, phase: VolumePhase, facts: &VolumeFacts)
        ensures
            final(self)@ == handoff_restored(old(self)@, true, project@, phase, facts@),
    {
        if self.pending_volume_handoff.is_none() && self.pending_volume_sync.is_none()
            && self.pending_setup.is_none() && self.pending_audit.is_none() && (phase
            == VolumePhase::AwaitingNextArc || phase == VolumePhase::AwaitingNextPlot) {
            let volume: u32 = volume::handoff_target_volume(&facts.bounds);
            self.pending_volume_handoff = Some(
                PendingVolumeHandoff {
                    project: project.to_owned(),
                    phase: phase.as_str().to_owned(),
                    volume,
                    title: volume::handoff_plot_title(&facts.bounds, volume),
                    last_error: String::new(),
                },
            );
        }
    }

    fn align_published(&mut self, published_count: Option<u32>)
        ensures
            final(self)@ == published_aligned(old(self)@, published_count),
    {
        match published_count {
            Some(n) => {
                match self.pending_chapter_next.take() {
                    Some(mut c) => {
                        c.published = n >= c.chapter;
                        self.pending_chapter_next = Some(c);
                    },
                    None => {},
                }
            },
            None => {},
        }
    }

    /// Brings the cards of the setup, of the volumes and of the last chapter in
    /// line with the project.
    pub fn reconcile_phase_gates(
        &mut self,
        enforce_setup: bool,
        enforce_volume: bool,
        next: Option<&SetupStep>,
        awaiting_confirm: bool,
        facts: &VolumeFacts,
        phase: VolumePhase,
        published_count: Option<u32>,
    )
        ensures
            final(self)@ == phases_restored(
                old(self)@,
                enforce_setup,
                enforce_volume,
                match next {
                    Some(n) => Some(n@),
                    None => None,
                },
                awaiting_confirm,
                facts@,
                phase,
                published_count,
            ),
    {
        let project = self.bound_project();
        if project.as_str().is_empty() {
            return;
        }
        if enforce_setup {
            self.restore_setup(project.as_str(), next, awaiting_confirm);
        }
        if enforce_volume {
            self.restore_volume_end(project.as_str(), facts);
            self.restore_handoff(project.as_str(), phase, facts);
        }
        proof {
            let n = match next {
                Some(n) => Some(n@),
                None => None,
            };
            let s = old(self)@;
            let one = setup_restored(s, enforce_setup, project@, n, awaiting_confirm);
            let two = volume_end_restored(one, enforce_volume, project@, facts@);
            assert(self@ == handoff_restored(two, enforce_volume, project@, phase, facts@));
        }
        self.align_published(published_count);
    }
}

/// Bringing the cards in line again changes nothing.
pub proof fn restoring_settles(
    s: ThreadV,
    enforce_setup: bool,
    enforce_volume: bool,
    next: Option<SetupStepV>,
    awaiting_confirm: bool,
    facts: FactsV,
    phase: VolumePhase,
    published_count: Option<u32>,
)
    requires
        facts.phase == VolumePhase::AwaitingSync && !facts.false_end ==> phase == facts.phase,
        facts.phase == VolumePhase::AwaitingSync && facts.false_end ==> phase
            == VolumePhase::DraftingVolume,
        facts.phase != VolumePhase::AwaitingSync ==> phase == facts.phase,
    ensures
        ({
            let once = phases_restored(
                s,
                enforce_setup,
                enforce_volume,
                next,
                awaiting_confirm,
                facts,
                phase,
                published_count,
            );
            once == phases_restored(
                once,
                enforce_setup,
                enforce_volume,
                next,
                awaiting_confirm,
                facts,
                phase,
                published_count,
            )
        }),
{
}

/// Bringing cards back never closes an audit, a change that awaits confirmation,
/// or what depends on one.
pub proof fn restoring_keeps_cards(
    s: ThreadV,
    enforce_setup: bool,
    enforce_volume: bool,
    next: Option<SetupStepV>,
    awaiting_confirm: bool,
    facts: FactsV,
    phase: VolumePhase,
    published_count: Option<u32>,
)
    ensures
        ({
            let after = phases_restored(
                s,
                enforce_setup,
                enforce_volume,
                next,
                awaiting_confirm,
                facts,
                phase,
                published_count,
            );
            &&& after.pending_audit == s.pending_audit
            &&& after.pending_mutation == s.pending_mutation
            &&& after.pending_impact == s.pending_impact
            &&& after.pending_studio_next == s.pending_studio_next
            &&& s.pending_setup is Some ==> after.pending_setup == s.pending_setup
            &&& s.pending_chapter_next is Some <==> after.pending_chapter_next is Some
        }),
{
}

} // verus!
