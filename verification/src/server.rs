//! What the web service is asked, and which events a listener hears.

use vstd::prelude::*;

use crate::text;

verus! {

/// Opens the thread of a project; `fresh` drops the dialogue it had.
pub struct StartThreadReq {
    pub project: Option<String>,
    pub fresh: bool,
}

/// Says something in a thread.
pub struct StartTurnReq {
    pub thread_id: String,
    pub text: String,
    pub skills: Vec<String>,
}

/// Adds to a turn that runs.
pub struct SteerReq {
    pub thread_id: String,
    pub turn_id: String,
    pub text: String,
}

/// The skills there are.
pub struct SkillsListResp {
    pub skills: Vec<SkillDto>,
}

/// A skill, as listed.
pub struct SkillDto {
    pub name: String,
    pub description: String,
    pub path: String,
    pub scope: String,
}

/// Whom an event concerns.
#[allow(inconsistent_fields)]
pub enum EventScope {
    /// One thread.
    Thread(String),
    /// An agent's thread, and the thread that started it.
    Agent { thread_id: String, parent: Option<String> },
    /// Everyone: errors and warnings, of a thread or of none.
    Everyone { thread_id: Option<String> },
}

/// What an `EventScope` means.
#[allow(inconsistent_fields)]
pub enum ScopeV {
    Thread(Seq<char>),
    Agent { thread_id: Seq<char>, parent: Option<Seq<char>> },
    Everyone { thread_id: Option<Seq<char>> },
}

impl View for EventScope {
    type V = ScopeV;

    open spec fn view(&self) -> ScopeV {
        match self {
            EventScope::Thread(id) => ScopeV::Thread(id@),
            EventScope::Agent { thread_id, parent } => ScopeV::Agent {
                thread_id: thread_id@,
                parent: text::opt_text(*parent),
            },
            EventScope::Everyone { thread_id } => ScopeV::Everyone {
                thread_id: text::opt_text(*thread_id),
            },
        }
    }
}

/// Whether one who listens to thread `id` hears the event.
pub open spec fn heard_by(e: ScopeV, id: Seq<char>) -> bool {
    match e {
        ScopeV::Thread(t) => t == id,
        ScopeV::Agent { thread_id, parent } => thread_id == id || parent == Some(id),
        ScopeV::Everyone { thread_id } => true,
    }
}

/// Whether one who listens to thread `id` hears the event.
pub fn event_matches_thread(e: &EventScope, id: &str) -> (r: bool)
    ensures
        r == heard_by(e@, id@),
{
    match e {
        EventScope::Thread(t) => text::same(t.as_str(), id),
        EventScope::Agent { thread_id, parent } => text::same(thread_id.as_str(), id) || match parent {
            Some(p) => text::same(p.as_str(), id),
            None => false,
        },
        EventScope::Everyone { thread_id: _ } => true,
    }
}

/// The thread whose own listeners an event is handed to, if it has one.
pub open spec fn addressee(e: ScopeV) -> Option<Seq<char>> {
    match e {
        ScopeV::Thread(t) => Some(t),
        ScopeV::Agent { thread_id, parent } => Some(thread_id),
        ScopeV::Everyone { thread_id } => thread_id,
    }
}

/// The thread whose own listeners an event is handed to, if it has one.
pub fn event_thread_id(e: &EventScope) -> (r: Option<&str>)
    ensures
        text::opt_str(r) == addressee(e@),
{
    match e {
        EventScope::Thread(t) => Some(t.as_str()),
        EventScope::Agent { thread_id, parent: _ } => Some(thread_id.as_str()),
        EventScope::Everyone { thread_id } => match thread_id {
            Some(t) => Some(t.as_str()),
            None => None,
        },
    }
}

/// What is said of a project that is not there.
pub open spec fn no_project(name: Seq<char>) -> Seq<char> {
    "项目「"@ + name + "」不存在"@
}

/// What is said of a project that is not there.
pub fn missing_project(name: &str) -> (r: String)
    ensures
        r@ == no_project(name@),
{
    let mut s = "项目「".to_owned();
    s.push_str(name);
    s.push_str("」不存在");
    s
}

/// An event of an agent reaches those who listen to the thread that started
/// it, and an event of a thread none but its own listeners.
pub proof fn events_reach_their_listeners(
    thread_id: Seq<char>,
    parent: Option<Seq<char>>,
    id: Seq<char>,
)
    ensures
        heard_by(ScopeV::Thread(thread_id), id) ==> id == thread_id,
        heard_by(ScopeV::Agent { thread_id, parent }, thread_id),
        parent matches Some(p) ==> heard_by(ScopeV::Agent { thread_id, parent }, p),
        forall|t: Option<Seq<char>>| #[trigger] heard_by(ScopeV::Everyone { thread_id: t }, id),
{
}

} // verus!
