//! What a thread does with the requests that reach it, and how a sub-agent's
//! step is run and reported.

use vstd::prelude::*;

use crate::agent;
use crate::agent::{AgentHub, PipelineRun, ResponseV, SubagentJob};
use crate::json::{Json, JsonV};
use crate::protocol::{InterAgentCommunication, InterAgentKind, MailV};
use crate::session::handlers::{Op, OpV};
use crate::text;

verus! {

// ---------------------------------------------------------------------------
// Additions to a running turn
// ---------------------------------------------------------------------------

/// What the additions say together, a line each, blank ones left out; nothing
/// where all are blank.
pub open spec fn steer_message(said: Seq<Seq<char>>) -> Option<Seq<char>> {
    let kept = text::filtered(said, |t: Seq<char>| text::trimmed(t).len() > 0);
    if kept.len() == 0 {
        None
    } else {
        Some(text::joined(kept, "\n"@))
    }
}

/// What additions to a running turn come to as one message of the dialogue, if
/// anything. `said` is the text of each, in their order.
pub fn join_steer(said: &Vec<String>) -> (r: Option<String>)
    ensures
        text::opt_text(r) == steer_message(text::texts(said@)),
{
    let ghost all = text::texts(said@);
    let ghost p = |t: Seq<char>| text::trimmed(t).len() > 0;
    let mut kept: Vec<String> = Vec::new();
    let mut i: usize = 0;
    assert(all.take(0) =~= Seq::empty());
    assert(text::texts(kept@) =~= text::filtered(all.take(0), p));
    while i < said.len()
        invariant
            i <= said.len(),
            all == text::texts(said@),
            p == (|t: Seq<char>| text::trimmed(t).len() > 0),
            text::texts(kept@) == text::filtered(all.take(i as int), p),
        decreases said.len() - i,
    {
        assert(all.take(i + 1).drop_last() =~= all.take(i as int));
        assert(all.take(i + 1).last() == said@[i as int]@);
        let n: usize = text::trim(said[i].as_str()).unicode_len();
        if n > 0 {
            let ghost before = kept@;
            kept.push(said[i].clone());
            assert(text::texts(kept@) =~= text::texts(before).push(said@[i as int]@));
        }
        i = i + 1;
    }
    assert(all.take(i as int) =~= all);
    assert(text::texts(kept@).len() == kept@.len());
    if kept.len() == 0 {
        None
    } else {
        Some(text::join(&kept, "\n"))
    }
}

// ---------------------------------------------------------------------------
// Requests
// ---------------------------------------------------------------------------

/// One who sends this request waits until the turn has ended; the others go on
/// once it is handed over.
pub open spec fn awaits_turn(op: OpV) -> bool {
    op is UserInput || op is SteerTurn || op is RespondUserInput
}

/// Whether one who sends this request waits until the turn has ended.
pub fn waits_for_turn(op: &Op) -> (r: bool)
    ensures
        r == awaits_turn(op@),
{
    match op {
        Op::UserInput { .. } => true,
        Op::SteerTurn { .. } => true,
        Op::RespondUserInput { .. } => true,
        _ => false,
    }
}

/// How often one who waits for a turn looks whether it still runs.
pub const MAX_LOOKS: u32 = 600;

/// Whether to look again after `looks` looks: never for ever.
pub fn looks_again(busy: bool, looks: u32) -> (r: bool)
    ensures
        r == (busy && looks < MAX_LOOKS),
{
    busy && looks < MAX_LOOKS
}

// ---------------------------------------------------------------------------
// Sub-agents
// ---------------------------------------------------------------------------

/// How the chapter pipeline runs.
#[derive(Clone, Copy, Debug, PartialEq, Eq, Structural)]
pub enum RunMode {
    Continue,
    Revise,
    AuditOnly,
}

/// The mode that a job names; writing on where it names none that is known.
pub open spec fn mode_of(mode: Option<Seq<char>>) -> RunMode {
    if mode == Some("revise"@) {
        RunMode::Revise
    } else if mode == Some("audit_only"@) {
        RunMode::AuditOnly
    } else {
        RunMode::Continue
    }
}

/// One step of the pipeline to run.
pub struct StepPlan {
    pub project: String,
    pub chapter: u32,
    pub mode: RunMode,
    /// How to revise; the pipeline's own way where there is none.
    pub revision: Option<Json>,
}

/// The project of a step: the job's, or else the thread's.
pub open spec fn step_project(job: SubagentJob, bound: Option<Seq<char>>) -> Seq<char> {
    match job.project {
        Some(p) => p@,
        None => match bound {
            Some(p) => p,
            None => Seq::empty(),
        },
    }
}

/// The chapter of a step: the job's, or else the first.
pub open spec fn step_chapter(job: SubagentJob) -> u32 {
    match job.chapter {
        Some(n) => n,
        None => 1,
    }
}

/// The step that a job stands for, in a thread bound to `bound`.
pub fn plan_step(job: &SubagentJob, bound: Option<&str>) -> (r: StepPlan)
    ensures
        r.project@ == step_project(*job, text::opt_str(bound)),
        r.chapter == step_chapter(*job),
        r.mode == mode_of(text::opt_text(job.mode)),
        agent::owned_json(r.revision) == agent::owned_json(job.revision),
{
    let project = match &job.project {
        Some(p) => p.clone(),
        None => match bound {
            Some(p) => p.to_owned(),
            None => {
                let s = String::new();
                assert(s@ =~= Seq::empty());
                s
            },
        },
    };
    let chapter: u32 = match job.chapter {
        Some(n) => n,
        None => 1,
    };
    let mode = match &job.mode {
        Some(m) => if text::same(m.as_str(), "revise") {
            RunMode::Revise
        } else if text::same(m.as_str(), "audit_only") {
            RunMode::AuditOnly
        } else {
            RunMode::Continue
        },
        None => RunMode::Continue,
    };
    StepPlan { project, chapter, mode, revision: agent::copy_json(&job.revision) }
}

/// How a step ended: what the first part of the run said, if any, and the run;
/// or the error.
pub enum StepOutcome {
    Ran { said: Option<String>, run: PipelineRun },
    Failed { error: String },
}

/// What a step is reported as.
pub open spec fn step_summary(role: Seq<char>, o: StepOutcome) -> Seq<char> {
    match o {
        StepOutcome::Ran { said, run } => match said {
            Some(s) => if s@.len() > 0 {
                s@
            } else {
                role + " completed"@
            },
            None => role + " completed"@,
        },
        StepOutcome::Failed { error } => role + " failed: "@ + error@,
    }
}

/// The data that a step leaves.
pub open spec fn outcome_data(role: Seq<char>, o: StepOutcome) -> JsonV {
    match o {
        StepOutcome::Ran { said, run } => agent::step_data(step_summary(role, o), run),
        StepOutcome::Failed { error } => JsonV::empty_object().put(
            "step_ran"@,
            JsonV::Bool(false),
        ).put("summary"@, JsonV::Text(error@)).put("error"@, JsonV::Text(error@)),
    }
}

fn completed(role: &str) -> (r: String)
    ensures
        r@ == role@ + " completed"@,
{
    let mut s = role.to_owned();
    s.push_str(" completed");
    s
}

fn summarize_step(role: &str, o: &StepOutcome) -> (r: String)
    ensures
        r@ == step_summary(role@, *o),
{
    match o {
        StepOutcome::Ran { said, run: _ } => match said {
            Some(s) => {
                let n: usize = s.as_str().unicode_len();
                if n > 0 {
                    s.clone()
                } else {
                    completed(role)
                }
            },
            None => completed(role),
        },
        StepOutcome::Failed { error } => {
            let mut s = role.to_owned();
            s.push_str(" failed: ");
            s.push_str(error.as_str());
            s
        },
    }
}

fn data_of_step(role: &str, summary: &str, o: &StepOutcome) -> (r: Json)
    requires
        summary@ == step_summary(role@, *o),
    ensures
        r@ == outcome_data(role@, *o),
{
    match o {
        StepOutcome::Ran { said: _, run } => agent::json_step_result(summary, run),
        StepOutcome::Failed { error } => Json::object().with_bool("step_ran", false).with_str(
            "summary",
            error.as_str(),
        ).with_str("error", error.as_str()),
    }
}

/// What is left to do once a step's result is published.
pub struct StepReport {
    /// What the sub-agent says, and what the step is remembered by.
    pub summary: String,
    /// Whether the step ran; the sub-agent has failed where it did not.
    pub completed: bool,
    /// The letter to the thread that started the sub-agent.
    pub mail: Option<InterAgentCommunication>,
}

/// The letter by contents.
pub open spec fn mail_view(m: Option<InterAgentCommunication>) -> Option<MailV> {
    match m {
        Some(x) => Some(x@),
        None => None,
    }
}

/// Publishes what a step came to, whether it ran or failed, so that one who
/// waits for the sub-agent always gets an answer; then says what is left to do.
pub fn finish_step(
    hub: &mut AgentHub,
    thread_id: &str,
    parent: Option<&str>,
    role: &str,
    o: &StepOutcome,
) -> (r: StepReport)
    ensures
        r.summary@ == step_summary(role@, *o),
        r.completed == (o is Ran),
        mail_view(r.mail) == match text::opt_str(parent) {
            Some(p) => Some(
                MailV {
                    author_thread_id: thread_id@,
                    recipient_thread_id: p,
                    content: step_summary(role@, *o),
                    trigger_turn: false,
                    kind: InterAgentKind::Result,
                },
            ),
            None => None,
        },
        final(hub).returned(thread_id@) == Some(
            ResponseV {
                thread_id: thread_id@,
                summary: step_summary(role@, *o),
                data: outcome_data(role@, *o),
            },
        ),
        forall|t: Seq<char>|
            t != thread_id@ ==> #[trigger] final(hub).returned(t) == old(hub).returned(t),
        forall|p: Seq<char>| #[trigger] final(hub).started_by(p) == old(hub).started_by(p),
{
    let summary = summarize_step(role, o);
    let data = data_of_step(role, summary.as_str(), o);
    let _told = hub.publish_result(thread_id, summary.clone(), data);
    let mail = match parent {
        Some(p) => Some(agent::result_mail(thread_id, p, summary.as_str())),
        None => None,
    };
    let completed = match o {
        StepOutcome::Ran { .. } => true,
        StepOutcome::Failed { .. } => false,
    };
    StepReport { summary, completed, mail }
}

// ---------------------------------------------------------------------------
// Runs from the command line
// ---------------------------------------------------------------------------

/// A run of a chapter without a dialogue.
pub struct HeadlessPlan {
    pub mode: RunMode,
    pub prefer_local_patch: bool,
    pub revision_mode: bool,
    pub instructions: Option<String>,
}

/// A run of a chapter without a dialogue: it revises where that was asked for,
/// and takes instructions as a revision either way.
pub fn plan_headless(revise: bool, instructions: Option<String>) -> (r: HeadlessPlan)
    ensures
        r.mode == if revise {
            RunMode::Revise
        } else {
            RunMode::Continue
        },
        r.prefer_local_patch,
        r.revision_mode == (revise || instructions is Some),
        r.instructions == instructions,
{
    let mode = if revise {
        RunMode::Revise
    } else {
        RunMode::Continue
    };
    let revision_mode = revise || instructions.is_some();
    HeadlessPlan { mode, prefer_local_patch: true, revision_mode, instructions }
}

} // verus!
