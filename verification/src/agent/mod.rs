//! Sub-agents: who started whom, what they returned, and when one may start.

use vstd::prelude::*;

use crate::json::{Json, JsonV};
use crate::protocol;
use crate::protocol::{InterAgentCommunication, InterAgentKind, MailV, UserInput, UserInputV};
use crate::text;

pub mod registry;

verus! {

/// What a sub-agent returned.
pub struct WaitAgentResponse {
    pub thread_id: String,
    pub summary: String,
    pub data: Json,
}

/// What a sub-agent returned, by contents.
pub struct ResponseV {
    pub thread_id: Seq<char>,
    pub summary: Seq<char>,
    pub data: JsonV,
}

impl View for WaitAgentResponse {
    type V = ResponseV;

    open spec fn view(&self) -> ResponseV {
        ResponseV { thread_id: self.thread_id@, summary: self.summary@, data: self.data@ }
    }
}

impl WaitAgentResponse {
    /// A copy of what was returned.
    pub fn copy(&self) -> (r: WaitAgentResponse)
        ensures
            r@ == self@,
    {
        WaitAgentResponse {
            thread_id: self.thread_id.clone(),
            summary: self.summary.clone(),
            data: self.data.copy(),
        }
    }
}

/// The family of sub-agents and their results.
pub struct AgentHub {
    children: Vec<(String, Vec<String>)>,
    results: Vec<(String, WaitAgentResponse)>,
}

/// The first family of the parent, at or after position `i`.
pub open spec fn family_from(m: Seq<(Seq<char>, Seq<Seq<char>>)>, parent: Seq<char>, i: int) -> Option<
    int,
>
    decreases m.len() - i,
{
    if i < 0 || i >= m.len() {
        None
    } else if m[i].0 == parent {
        Some(i)
    } else {
        family_from(m, parent, i + 1)
    }
}

/// The family that a position holds is the parent's, and no earlier one is.
pub proof fn family_from_is_first(
    m: Seq<(Seq<char>, Seq<Seq<char>>)>,
    parent: Seq<char>,
    i: int,
)
    requires
        0 <= i,
    ensures
        match family_from(m, parent, i) {
            Some(k) => i <= k < m.len() && m[k].0 == parent && forall|j: int|
                i <= j < k ==> (#[trigger] m[j]).0 != parent,
            None => forall|j: int| i <= j < m.len() ==> (#[trigger] m[j]).0 != parent,
        },
    decreases m.len() - i,
{
    if i < m.len() && m[i].0 != parent {
        family_from_is_first(m, parent, i + 1);
    }
}

/// The first result of the thread, at or after position `i`.
pub open spec fn result_from(m: Seq<(Seq<char>, ResponseV)>, id: Seq<char>, i: int) -> Option<int>
    decreases m.len() - i,
{
    if i < 0 || i >= m.len() {
        None
    } else if m[i].0 == id {
        Some(i)
    } else {
        result_from(m, id, i + 1)
    }
}

proof fn result_from_is_first(m: Seq<(Seq<char>, ResponseV)>, id: Seq<char>, i: int)
    requires
        0 <= i,
    ensures
        match result_from(m, id, i) {
            Some(k) => i <= k < m.len() && m[k].0 == id && forall|j: int|
                i <= j < k ==> (#[trigger] m[j]).0 != id,
            None => forall|j: int| i <= j < m.len() ==> (#[trigger] m[j]).0 != id,
        },
    decreases m.len() - i,
{
    if i < m.len() && m[i].0 != id {
        result_from_is_first(m, id, i + 1);
    }
}

impl AgentHub {
    /// The families as they are kept.
    pub closed spec fn families(&self) -> Seq<(Seq<char>, Seq<Seq<char>>)> {
        Seq::new(
            self.children@.len(),
            |i: int| (self.children@[i].0@, text::texts(self.children@[i].1@)),
        )
    }

    /// The results as they are kept.
    pub closed spec fn kept(&self) -> Seq<(Seq<char>, ResponseV)> {
        Seq::new(self.results@.len(), |i: int| (self.results@[i].0@, self.results@[i].1@))
    }

    /// The sub-agents that the parent started, oldest first.
    pub open spec fn started_by(&self, parent: Seq<char>) -> Seq<Seq<char>> {
        match family_from(self.families(), parent, 0) {
            Some(k) => self.families()[k].1,
            None => Seq::empty(),
        }
    }

    /// What the thread returned, if it has.
    pub open spec fn returned(&self, id: Seq<char>) -> Option<ResponseV> {
        match result_from(self.kept(), id, 0) {
            Some(k) => Some(self.kept()[k].1),
            None => None,
        }
    }

    /// No sub-agents.
    pub fn new() -> (r: AgentHub)
        ensures
            forall|p: Seq<char>| #[trigger] r.started_by(p) == Seq::<Seq<char>>::empty(),
            forall|t: Seq<char>| #[trigger] r.returned(t) is None,
    {
        AgentHub { children: Vec::new(), results: Vec::new() }
    }

    fn family_position(&self, parent: &str) -> (r: Option<usize>)
        ensures
            match r {
                Some(k) => family_from(self.families(), parent@, 0) == Some(k as int) && k
                    < self.children@.len(),
                None => family_from(self.families(), parent@, 0) is None,
            },
    {
        let mut i: usize = 0;
        while i < self.children.len()
            invariant
                i <= self.children.len(),
                family_from(self.families(), parent@, 0) == family_from(
                    self.families(),
                    parent@,
                    i as int,
                ),
            decreases self.children.len() - i,
        {
            if text::same(self.children[i].0.as_str(), parent) {
                return Some(i);
            }
            i = i + 1;
        }
        None
    }

    /// Notes that the parent started the child.
    pub fn register_child(&mut self, parent: &str, child: &str)
        ensures
            final(self).started_by(parent@) == old(self).started_by(parent@).push(child@),
            forall|p: Seq<char>|
                p != parent@ ==> #[trigger] final(self).started_by(p) == old(self).started_by(p),
            forall|t: Seq<char>| #[trigger] final(self).returned(t) == old(self).returned(t),
    {
        let ghost before = self.families();
        let ghost kept = self.kept();
        proof {
            family_from_is_first(before, parent@, 0);
        }
        match self.family_position(parent) {
            Some(k) => {
                let mut kids = text::clone_all(&self.children[k].1);
                let ghost had = text::texts(kids@);
                kids.push(child.to_owned());
                assert(text::texts(kids@) =~= had.push(child@));
                self.children.set(k, (parent.to_owned(), kids));
                proof {
                    let after = self.families();
                    let entry = (parent@, had.push(child@));
                    assert(after =~= before.update(k as int, entry));
                    family_from_is_first(after, parent@, 0);
                    assert(after[k as int].0 == parent@);
                    let k2 = family_from(after, parent@, 0)->0;
                    if k2 < k {
                        assert(before[k2].0 == after[k2].0);
                    }
                    assert forall|p: Seq<char>| p != parent@ implies #[trigger] self.started_by(p)
                        == (match family_from(before, p, 0) {
                        Some(j) => before[j].1,
                        None => Seq::empty(),
                    }) by {
                        same_family(before, after, p, 0);
                    }
                }
            },
            None => {
                let mut kids: Vec<String> = Vec::new();
                kids.push(child.to_owned());
                assert(text::texts(kids@) =~= Seq::<Seq<char>>::empty().push(child@));
                self.children.push((parent.to_owned(), kids));
                proof {
                    let after = self.families();
                    let entry = (parent@, Seq::<Seq<char>>::empty().push(child@));
                    assert(after =~= before.push(entry));
                    family_from_is_first(after, parent@, 0);
                    assert(after[before.len() as int].0 == parent@);
                    let k2 = family_from(after, parent@, 0)->0;
                    if k2 < before.len() {
                        assert(before[k2].0 == after[k2].0);
                    }
                    assert forall|p: Seq<char>| p != parent@ implies #[trigger] self.started_by(p)
                        == (match family_from(before, p, 0) {
                        Some(j) => before[j].1,
                        None => Seq::empty(),
                    }) by {
                        same_family(before, after, p, 0);
                    }
                }
            },
        }
        assert(self.kept() =~= kept);
    }

    /// The sub-agents that the parent started, oldest first.
    pub fn children_of(&self, parent: &str) -> (r: Vec<String>)
        ensures
            text::texts(r@) == self.started_by(parent@),
    {
        match self.family_position(parent) {
            Some(k) => text::clone_all(&self.children[k].1),
            None => {
                let none: Vec<String> = Vec::new();
                assert(text::texts(none@) =~= Seq::<Seq<char>>::empty());
                none
            },
        }
    }

    fn result_position(&self, id: &str) -> (r: Option<usize>)
        ensures
            match r {
                Some(k) => result_from(self.kept(), id@, 0) == Some(k as int) && k
                    < self.results@.len(),
                None => result_from(self.kept(), id@, 0) is None,
            },
    {
        let mut i: usize = 0;
        while i < self.results.len()
            invariant
                i <= self.results.len(),
                result_from(self.kept(), id@, 0) == result_from(self.kept(), id@, i as int),
            decreases self.results.len() - i,
        {
            if text::same(self.results[i].0.as_str(), id) {
                return Some(i);
            }
            i = i + 1;
        }
        None
    }

    /// Keeps what the thread returned, in place of an earlier result, and hands
    /// it back for those who wait.
    pub fn publish_result(&mut self, thread_id: &str, summary: String, data: Json) -> (r:
        WaitAgentResponse)
        ensures
            r@ == (ResponseV { thread_id: thread_id@, summary: summary@, data: data@ }),
            final(self).returned(thread_id@) == Some(r@),
            forall|t: Seq<char>|
                t != thread_id@ ==> #[trigger] final(self).returned(t) == old(self).returned(t),
            forall|p: Seq<char>| #[trigger] final(self).started_by(p) == old(self).started_by(p),
    {
        let ghost before = self.kept();
        let ghost fams = self.families();
        proof {
            result_from_is_first(before, thread_id@, 0);
        }
        let resp = WaitAgentResponse { thread_id: thread_id.to_owned(), summary, data };
        let own = resp.copy();
        let ghost entry = (thread_id@, own@);
        match self.result_position(thread_id) {
            Some(k) => {
                self.results.set(k, (thread_id.to_owned(), own));
                proof {
                    let after = self.kept();
                    assert(after =~= before.update(k as int, entry));
                    result_from_is_first(after, thread_id@, 0);
                    assert(after[k as int].0 == thread_id@);
                    let k2 = result_from(after, thread_id@, 0)->0;
                    if k2 < k {
                        assert(before[k2].0 == after[k2].0);
                    }
                    assert forall|t: Seq<char>| t != thread_id@ implies #[trigger] self.returned(t)
                        == (match result_from(before, t, 0) {
                        Some(j) => Some(before[j].1),
                        None => None,
                    }) by {
                        same_result(before, after, t, 0);
                    }
                }
            },
            None => {
                self.results.push((thread_id.to_owned(), own));
                proof {
                    let after = self.kept();
                    assert(after =~= before.push(entry));
                    result_from_is_first(after, thread_id@, 0);
                    assert(after[before.len() as int].0 == thread_id@);
                    let k2 = result_from(after, thread_id@, 0)->0;
                    if k2 < before.len() {
                        assert(before[k2].0 == after[k2].0);
                    }
                    assert forall|t: Seq<char>| t != thread_id@ implies #[trigger] self.returned(t)
                        == (match result_from(before, t, 0) {
                        Some(j) => Some(before[j].1),
                        None => None,
                    }) by {
                        same_result(before, after, t, 0);
                    }
                }
            },
        }
        assert(self.families() =~= fams);
        resp
    }

    /// What the thread returned, if it has.
    pub fn result_of(&self, thread_id: &str) -> (r: Option<WaitAgentResponse>)
        ensures
            match r {
                Some(x) => self.returned(thread_id@) == Some(x@),
                None => self.returned(thread_id@) is None,
            },
    {
        match self.result_position(thread_id) {
            Some(k) => Some(self.results[k].1.copy()),
            None => None,
        }
    }
}

/// A change to one parent's family, or a new family at the end, leaves another
/// parent's family where it was.
proof fn same_family(
    a: Seq<(Seq<char>, Seq<Seq<char>>)>,
    b: Seq<(Seq<char>, Seq<Seq<char>>)>,
    p: Seq<char>,
    i: int,
)
    requires
        0 <= i,
        a.len() <= b.len() <= a.len() + 1,
        forall|j: int|
            0 <= j < a.len() ==> (#[trigger] a[j]).0 == b[j].0 && (a[j].0 == p ==> a[j].1
                == b[j].1),
        a.len() < b.len() ==> b[a.len() as int].0 != p,
    ensures
        match family_from(a, p, i) {
            Some(k) => family_from(b, p, i) == Some(k) && b[k].1 == a[k].1,
            None => family_from(b, p, i) is None,
        },
    decreases b.len() - i,
{
    if i < b.len() {
        if i < a.len() {
            assert(a[i].0 == b[i].0);
        }
        same_family(a, b, p, i + 1);
    }
}

/// A change to one thread's result, or a new result at the end, leaves another
/// thread's result where it was.
proof fn same_result(
    a: Seq<(Seq<char>, ResponseV)>,
    b: Seq<(Seq<char>, ResponseV)>,
    t: Seq<char>,
    i: int,
)
    requires
        0 <= i,
        a.len() <= b.len() <= a.len() + 1,
        forall|j: int|
            0 <= j < a.len() ==> (#[trigger] a[j]).0 == b[j].0 && (a[j].0 == t ==> a[j].1
                == b[j].1),
        a.len() < b.len() ==> b[a.len() as int].0 != t,
    ensures
        match result_from(a, t, i) {
            Some(k) => result_from(b, t, i) == Some(k) && b[k].1 == a[k].1,
            None => result_from(b, t, i) is None,
        },
    decreases b.len() - i,
{
    if i < b.len() {
        if i < a.len() {
            assert(a[i].0 == b[i].0);
        }
        same_result(a, b, t, i + 1);
    }
}

// ---------------------------------------------------------------------------
// Starting a sub-agent
// ---------------------------------------------------------------------------

/// An optional value by contents.
pub open spec fn owned_json(o: Option<Json>) -> Option<JsonV> {
    match o {
        Some(v) => Some(v@),
        None => None,
    }
}

/// A copy of an optional value.
pub fn copy_json(o: &Option<Json>) -> (r: Option<Json>)
    ensures
        owned_json(r) == owned_json(*o),
{
    match o {
        Some(v) => Some(v.copy()),
        None => None,
    }
}

/// A request to start a sub-agent.
pub struct SpawnAgentRequest {
    pub parent_thread_id: String,
    pub role: String,
    pub task: String,
    pub project: Option<String>,
    pub chapter: Option<u32>,
    pub mode: Option<String>,
    /// How to revise, as the pipeline takes it.
    pub revision: Option<Json>,
}

/// A request by contents.
pub struct SpawnV {
    pub parent_thread_id: Seq<char>,
    pub role: Seq<char>,
    pub task: Seq<char>,
    pub project: Option<Seq<char>>,
    pub chapter: Option<u32>,
    pub mode: Option<Seq<char>>,
    pub revision: Option<JsonV>,
}

impl View for SpawnAgentRequest {
    type V = SpawnV;

    open spec fn view(&self) -> SpawnV {
        SpawnV {
            parent_thread_id: self.parent_thread_id@,
            role: self.role@,
            task: self.task@,
            project: text::opt_text(self.project),
            chapter: self.chapter,
            mode: text::opt_text(self.mode),
            revision: owned_json(self.revision),
        }
    }
}

/// What is known when a sub-agent is asked for.
pub struct SpawnFacts {
    /// The catalog lets the role run as a sub-agent.
    pub spawnable: bool,
    /// The role is a step of the chapter pipeline.
    pub pipeline_role: bool,
    /// How deep the parent is nested, where the parent is known.
    pub parent_depth: Option<u32>,
    /// How many sub-agents the parent has started.
    pub children: usize,
    /// The project that the parent is bound to.
    pub parent_project: Option<String>,
}

/// The job of a sub-agent.
pub struct SubagentJob {
    pub role: String,
    pub task: String,
    pub project: Option<String>,
    pub chapter: Option<u32>,
    pub mode: Option<String>,
    /// How to revise; the pipeline's own way where there is none.
    pub revision: Option<Json>,
}

/// A sub-agent to start.
pub struct SpawnPlan {
    pub depth: u32,
    pub job: SubagentJob,
    pub items: Vec<UserInput>,
    pub skills: Vec<String>,
}

/// A sub-agent to start, by contents.
pub struct PlanV {
    pub depth: u32,
    pub role: Seq<char>,
    pub task: Seq<char>,
    pub project: Option<Seq<char>>,
    pub chapter: Option<u32>,
    pub mode: Option<Seq<char>>,
    pub revision: Option<JsonV>,
    pub items: Seq<UserInputV>,
    pub skills: Seq<Seq<char>>,
}

impl View for SpawnPlan {
    type V = PlanV;

    open spec fn view(&self) -> PlanV {
        PlanV {
            depth: self.depth,
            role: self.job.role@,
            task: self.job.task@,
            project: text::opt_text(self.job.project),
            chapter: self.job.chapter,
            mode: text::opt_text(self.job.mode),
            revision: owned_json(self.job.revision),
            items: protocol::input_list(self.items@),
            skills: text::texts(self.skills@),
        }
    }
}

/// Whether the sub-agent may start, and how, or why not: the role is not
/// spawnable, it takes a whole chapter without being a pipeline step, its parent
/// is not known, or it would nest too deep or be one too many.
pub open spec fn spawn_decision(
    req: SpawnV,
    spawnable: bool,
    pipeline_role: bool,
    parent_depth: Option<u32>,
    children: nat,
    parent_project: Option<Seq<char>>,
) -> Result<PlanV, Seq<char>> {
    if !spawnable {
        Err("role '"@ + req.role + "' is not spawnable"@)
    } else if req.chapter is Some && registry::is_chapter_mode(req.mode) && !pipeline_role {
        Err("role '"@ + req.role + "' is not a chapter-pipeline agent"@)
    } else {
        match parent_depth {
            None => Err("unknown parent thread"@),
            Some(d) => if d >= 4 {
                Err("max spawn depth exceeded"@)
            } else if children >= 32 {
                Err("max children exceeded"@)
            } else {
                Ok(
                    PlanV {
                        depth: (d + 1) as u32,
                        role: req.role,
                        task: req.task,
                        project: match req.project {
                            Some(p) => Some(p),
                            None => parent_project,
                        },
                        chapter: req.chapter,
                        mode: req.mode,
                        revision: req.revision,
                        items: seq![
                            UserInputV::Text { text: req.task },
                            UserInputV::Skill { name: registry::skill_of(req.role), path: None },
                        ],
                        skills: seq![registry::skill_of(req.role)],
                    },
                )
            },
        }
    }
}

fn as_slice(o: &Option<String>) -> (r: Option<&str>)
    ensures
        text::opt_str(r) == text::opt_text(*o),
{
    match o {
        Some(s) => Some(s.as_str()),
        None => None,
    }
}

/// Whether the sub-agent may start, and how, or why not.
pub fn plan_spawn(req: &SpawnAgentRequest, facts: &SpawnFacts) -> (r: Result<SpawnPlan, String>)
    ensures
        match r {
            Ok(p) => spawn_decision(
                req@,
                facts.spawnable,
                facts.pipeline_role,
                facts.parent_depth,
                facts.children as nat,
                text::opt_text(facts.parent_project),
            ) == Ok::<PlanV, Seq<char>>(p@),
            Err(e) => spawn_decision(
                req@,
                facts.spawnable,
                facts.pipeline_role,
                facts.parent_depth,
                facts.children as nat,
                text::opt_text(facts.parent_project),
            ) == Err::<PlanV, Seq<char>>(e@),
        },
{
    if !facts.spawnable {
        let mut e = "role '".to_owned();
        e.push_str(req.role.as_str());
        e.push_str("' is not spawnable");
        return Err(e);
    }
    if registry::runs_chapter(req.chapter, as_slice(&req.mode)) && !facts.pipeline_role {
        let mut e = "role '".to_owned();
        e.push_str(req.role.as_str());
        e.push_str("' is not a chapter-pipeline agent");
        return Err(e);
    }
    let depth: u32 = match facts.parent_depth {
        Some(d) => d,
        None => {
            return Err("unknown parent thread".to_owned());
        },
    };
    if depth >= registry::max_spawn_depth() {
        return Err("max spawn depth exceeded".to_owned());
    }
    if facts.children >= registry::max_children() {
        return Err("max children exceeded".to_owned());
    }
    let project = match &req.project {
        Some(p) => Some(p.clone()),
        None => text::clone_opt(&facts.parent_project),
    };
    let skill = registry::skill_name_for_role(req.role.as_str());
    let mut items: Vec<UserInput> = Vec::new();
    items.push(UserInput::text(req.task.as_str()));
    items.push(UserInput::Skill { name: skill.clone(), path: None });
    let mut skills: Vec<String> = Vec::new();
    skills.push(skill);
    let plan = SpawnPlan {
        depth: depth + 1,
        job: SubagentJob {
            role: req.role.clone(),
            task: req.task.clone(),
            project,
            chapter: req.chapter,
            mode: text::clone_opt(&req.mode),
            revision: copy_json(&req.revision),
        },
        items,
        skills,
    };
    proof {
        assert(plan@.items =~= seq![
            UserInputV::Text { text: req@.task },
            UserInputV::Skill { name: registry::skill_of(req@.role), path: None },
        ]);
        assert(plan@.skills =~= seq![registry::skill_of(req@.role)]);
    }
    Ok(plan)
}

// ---------------------------------------------------------------------------
// Letters and waiting
// ---------------------------------------------------------------------------

/// The letter from one agent to another; one that asks for a turn is a follow-up.
pub fn message_mail(author: &str, recipient: &str, content: &str, trigger_turn: bool) -> (r:
    InterAgentCommunication)
    ensures
        r@ == (MailV {
            author_thread_id: author@,
            recipient_thread_id: recipient@,
            content: content@,
            trigger_turn,
            kind: if trigger_turn {
                InterAgentKind::Followup
            } else {
                InterAgentKind::Message
            },
        }),
{
    InterAgentCommunication {
        author_thread_id: author.to_owned(),
        recipient_thread_id: recipient.to_owned(),
        content: content.to_owned(),
        trigger_turn,
        kind: if trigger_turn {
            InterAgentKind::Followup
        } else {
            InterAgentKind::Message
        },
    }
}

/// The letter by which a sub-agent reports its result; it starts no turn.
pub fn result_mail(author: &str, parent: &str, summary: &str) -> (r: InterAgentCommunication)
    ensures
        r@ == (MailV {
            author_thread_id: author@,
            recipient_thread_id: parent@,
            content: summary@,
            trigger_turn: false,
            kind: InterAgentKind::Result,
        }),
{
    InterAgentCommunication {
        author_thread_id: author.to_owned(),
        recipient_thread_id: parent.to_owned(),
        content: summary.to_owned(),
        trigger_turn: false,
        kind: InterAgentKind::Result,
    }
}

/// What one who waits does next.
#[derive(Clone, Copy, Debug, PartialEq, Eq, Structural)]
pub enum WaitStep {
    /// The result is there.
    Done,
    /// The time is up.
    TimedOut,
    /// Look again after so many milliseconds.
    Sleep(u64),
}

/// What one who waits does next: a result ends the wait even at the last
/// moment; otherwise the slot is looked at again after at most a tenth of a
/// second.
pub fn wait_step(has_result: bool, elapsed_ms: u64, timeout_ms: u64) -> (r: WaitStep)
    ensures
        has_result ==> r == WaitStep::Done,
        !has_result && elapsed_ms >= timeout_ms ==> r == WaitStep::TimedOut,
        !has_result && elapsed_ms < timeout_ms ==> r == WaitStep::Sleep(
            if timeout_ms - elapsed_ms < 100 {
                (timeout_ms - elapsed_ms) as u64
            } else {
                100
            },
        ),
{
    if has_result {
        WaitStep::Done
    } else if elapsed_ms >= timeout_ms {
        WaitStep::TimedOut
    } else {
        let left: u64 = timeout_ms - elapsed_ms;
        WaitStep::Sleep(
            if left < 100 {
                left
            } else {
                100
            },
        )
    }
}

// ---------------------------------------------------------------------------
// Step results
// ---------------------------------------------------------------------------

/// What a run of the chapter pipeline reports.
pub struct PipelineRun {
    pub project: String,
    pub chapter: u32,
    pub consistency_passed: Json,
    pub needs_user_choice: bool,
    pub revision_applied_via_patch: Json,
    pub report: Json,
    pub status: Json,
    pub volume_ended: Json,
    pub volume_ended_name: Json,
    pub volume_ended_start: Json,
    pub volume_ended_end: Json,
    pub plots_completed: Json,
    pub plot_setting_blocker: bool,
}

/// The data of a step that ran.
pub open spec fn step_data(summary: Seq<char>, run: PipelineRun) -> JsonV {
    JsonV::empty_object().put("step_ran"@, JsonV::Bool(true)).put(
        "summary"@,
        JsonV::Text(summary),
    ).put("project"@, JsonV::Text(run.project@)).put(
        "chapter"@,
        JsonV::Uint(run.chapter as u64),
    ).put("consistency_passed"@, run.consistency_passed@).put(
        "needs_user_choice"@,
        JsonV::Bool(run.needs_user_choice),
    ).put("revision_applied_via_patch"@, run.revision_applied_via_patch@).put(
        "report"@,
        run.report@,
    ).put("status"@, run.status@).put("volume_ended"@, run.volume_ended@).put(
        "volume_ended_name"@,
        run.volume_ended_name@,
    ).put("volume_ended_start"@, run.volume_ended_start@).put(
        "volume_ended_end"@,
        run.volume_ended_end@,
    ).put("plots_completed"@, run.plots_completed@).put(
        "plot_setting_blocker"@,
        JsonV::Bool(run.plot_setting_blocker),
    )
}

/// The data of a step that ran.
pub fn json_step_result(summary: &str, run: &PipelineRun) -> (r: Json)
    ensures
        r@ == step_data(summary@, *run),
{
    Json::object().with_bool("step_ran", true).with_str("summary", summary).with_str(
        "project",
        run.project.as_str(),
    ).with_u32("chapter", run.chapter).with(
        "consistency_passed",
        run.consistency_passed.copy(),
    ).with_bool("needs_user_choice", run.needs_user_choice).with(
        "revision_applied_via_patch",
        run.revision_applied_via_patch.copy(),
    ).with("report", run.report.copy()).with("status", run.status.copy()).with(
        "volume_ended",
        run.volume_ended.copy(),
    ).with("volume_ended_name", run.volume_ended_name.copy()).with(
        "volume_ended_start",
        run.volume_ended_start.copy(),
    ).with("volume_ended_end", run.volume_ended_end.copy()).with(
        "plots_completed",
        run.plots_completed.copy(),
    ).with_bool("plot_setting_blocker", run.plot_setting_blocker)
}

/// A sub-agent never nests deeper than four, and no parent starts more than 32.
pub proof fn spawn_stays_in_bounds(
    req: SpawnV,
    spawnable: bool,
    pipeline_role: bool,
    parent_depth: Option<u32>,
    children: nat,
    parent_project: Option<Seq<char>>,
)
    ensures
        match spawn_decision(
            req,
            spawnable,
            pipeline_role,
            parent_depth,
            children,
            parent_project,
        ) {
            Ok(p) => spawnable && 1 <= p.depth <= 4 && children < 32,
            Err(_) => true,
        },
{
}

// ---------------------------------------------------------------------------
// Lists of sub-agents
// ---------------------------------------------------------------------------

/// What is known of a thread: its role, its place in the family, and how far
/// it has come.
pub struct AgentFacts {
    pub thread_id: String,
    pub role: Option<String>,
    pub agent_path: String,
    pub lifecycle: String,
}

/// A sub-agent in a list.
pub struct AgentListEntry {
    pub thread_id: String,
    pub role: String,
    pub agent_path: String,
    pub lifecycle: String,
}

/// A sub-agent in a list, by contents.
pub struct EntryV {
    pub thread_id: Seq<char>,
    pub role: Seq<char>,
    pub agent_path: Seq<char>,
    pub lifecycle: Seq<char>,
}

impl View for AgentListEntry {
    type V = EntryV;

    open spec fn view(&self) -> EntryV {
        EntryV {
            thread_id: self.thread_id@,
            role: self.role@,
            agent_path: self.agent_path@,
            lifecycle: self.lifecycle@,
        }
    }
}

/// The contents of a list.
pub open spec fn entry_list(v: Seq<AgentListEntry>) -> Seq<EntryV> {
    v.map_values(|e: AgentListEntry| e@)
}

/// The entry for what is known of a thread; a thread without a role has an
/// empty one, and how far it has come is said in small letters.
pub open spec fn entry_of(f: AgentFacts) -> EntryV {
    EntryV {
        thread_id: f.thread_id@,
        role: match f.role {
            Some(r) => r@,
            None => Seq::empty(),
        },
        agent_path: f.agent_path@,
        lifecycle: text::ascii_lowered(f.lifecycle@),
    }
}

/// The first facts about a thread, at or after position `i`.
pub open spec fn facts_from(known: Seq<AgentFacts>, id: Seq<char>, i: int) -> Option<EntryV>
    decreases known.len() - i,
{
    if i < 0 || i >= known.len() {
        None
    } else if known[i].thread_id@ == id {
        Some(entry_of(known[i]))
    } else {
        facts_from(known, id, i + 1)
    }
}

/// The entries of the threads of which something is known, in their order.
pub open spec fn entries_of(ids: Seq<Seq<char>>, known: Seq<AgentFacts>) -> Seq<EntryV>
    decreases ids.len(),
{
    if ids.len() == 0 {
        Seq::empty()
    } else {
        let before = entries_of(ids.drop_last(), known);
        match facts_from(known, ids.last(), 0) {
            Some(e) => before.push(e),
            None => before,
        }
    }
}

fn find_facts(known: &Vec<AgentFacts>, id: &str) -> (r: Option<AgentListEntry>)
    ensures
        match r {
            Some(e) => facts_from(known@, id@, 0) == Some(e@),
            None => facts_from(known@, id@, 0) is None,
        },
{
    let mut i: usize = 0;
    while i < known.len()
        invariant
            i <= known.len(),
            facts_from(known@, id@, 0) == facts_from(known@, id@, i as int),
        decreases known.len() - i,
    {
        let f = &known[i];
        if text::same(f.thread_id.as_str(), id) {
            let role = match &f.role {
                Some(r) => r.clone(),
                None => {
                    let s = String::new();
                    assert(s@ =~= Seq::empty());
                    s
                },
            };
            return Some(
                AgentListEntry {
                    thread_id: f.thread_id.clone(),
                    role,
                    agent_path: f.agent_path.clone(),
                    lifecycle: text::to_ascii_lower(f.lifecycle.as_str()),
                },
            );
        }
        i = i + 1;
    }
    None
}

impl AgentHub {
    /// The sub-agents that the parent started, oldest first, as far as they are
    /// known.
    pub fn list_agents(&self, parent: &str, known: &Vec<AgentFacts>) -> (r: Vec<AgentListEntry>)
        ensures
            entry_list(r@) == entries_of(self.started_by(parent@), known@),
    {
        let ids = self.children_of(parent);
        let ghost all = text::texts(ids@);
        let mut out: Vec<AgentListEntry> = Vec::new();
        let mut i: usize = 0;
        assert(all.take(0) =~= Seq::empty());
        assert(entry_list(out@) =~= entries_of(all.take(0), known@));
        while i < ids.len()
            invariant
                i <= ids.len(),
                all == text::texts(ids@),
                entry_list(out@) == entries_of(all.take(i as int), known@),
            decreases ids.len() - i,
        {
            assert(all.take(i + 1).drop_last() =~= all.take(i as int));
            assert(all.take(i + 1).last() == ids@[i as int]@);
            match find_facts(known, ids[i].as_str()) {
                Some(e) => {
                    let ghost before = out@;
                    out.push(e);
                    assert(entry_list(out@) =~= entry_list(before).push(e@));
                },
                None => {},
            }
            i = i + 1;
        }
        assert(all.take(i as int) =~= all);
        out
    }
}

} // verus!
