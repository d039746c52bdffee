//! Which threads a project keeps.

use vstd::prelude::*;

use crate::text;

verus! {

/// A thread as the others see it.
pub struct ThreadEntry {
    pub id: String,
    pub project: Option<String>,
    /// The thread was not spawned by another.
    pub root: bool,
}

/// A thread as the others see it, by contents.
pub struct ThreadEntryV {
    pub id: Seq<char>,
    pub project: Option<Seq<char>>,
    pub root: bool,
}

impl View for ThreadEntry {
    type V = ThreadEntryV;

    open spec fn view(&self) -> ThreadEntryV {
        ThreadEntryV { id: self.id@, project: text::opt_text(self.project), root: self.root }
    }
}

/// The threads by contents.
pub open spec fn entry_list(v: Seq<ThreadEntry>) -> Seq<ThreadEntryV> {
    Seq::new(v.len(), |i: int| v[i]@)
}

/// The other thread has taken the place of this one as its project's root.
pub open spec fn takes_over(other: ThreadEntryV, id: Seq<char>, project: Seq<char>) -> bool {
    other.id != id && other.project == Some(project) && other.root
}

/// Another thread has taken the place of this one as its project's root.
pub open spec fn superseded(
    threads: Seq<ThreadEntryV>,
    id: Seq<char>,
    project: Option<Seq<char>>,
) -> bool {
    project matches Some(p) && exists|i: int|
        0 <= i < threads.len() && takes_over(#[trigger] threads[i], id, p)
}

fn same_project(p: &Option<String>, project: &str) -> (r: bool)
    ensures
        r == (text::opt_text(*p) == Some(project@)),
{
    match p {
        Some(w) => text::same(w.as_str(), project),
        None => false,
    }
}

/// Whether a late write of this thread would overwrite the one that took its
/// place.
pub fn is_superseded(threads: &Vec<ThreadEntry>, id: &str, project: Option<&str>) -> (r: bool)
    ensures
        r == superseded(entry_list(threads@), id@, text::opt_str(project)),
{
    let ghost tv = entry_list(threads@);
    let p = match project {
        Some(p) => p,
        None => {
            return false;
        },
    };
    let mut i: usize = 0;
    while i < threads.len()
        invariant
            i <= threads.len(),
            tv == entry_list(threads@),
            project == Some(p),
            forall|j: int| 0 <= j < i ==> !takes_over(#[trigger] tv[j], id@, p@),
        decreases threads.len() - i,
    {
        assert(tv[i as int] == threads@[i as int]@);
        if !text::same(threads[i].id.as_str(), id) && same_project(&threads[i].project, p)
            && threads[i].root {
            assert(takes_over(tv[i as int], id@, p@));
            return true;
        }
        i = i + 1;
    }
    false
}

/// How a project's thread comes about.
#[derive(Clone, Copy, Debug, PartialEq, Eq, Structural)]
pub enum SpawnPlan {
    /// What is stored of the project's thread is cleared, and a new one begins.
    ClearAndBegin,
    /// The stored thread goes on.
    Resume,
    /// A new one begins.
    Begin,
}

/// How a project's thread comes about: anew where that is asked for, or else
/// from what is stored of a root thread.
pub open spec fn spawn_plan(project: bool, fresh: bool, root: bool, stored: bool) -> SpawnPlan {
    if fresh && project {
        SpawnPlan::ClearAndBegin
    } else if !fresh && root && project && stored {
        SpawnPlan::Resume
    } else {
        SpawnPlan::Begin
    }
}

/// How a project's thread comes about.
pub fn plan_thread(project: Option<&str>, fresh: bool, root: bool, stored: bool) -> (r: SpawnPlan)
    ensures
        r == spawn_plan(project is Some, fresh, root, stored),
{
    if fresh {
        if project.is_some() {
            SpawnPlan::ClearAndBegin
        } else {
            SpawnPlan::Begin
        }
    } else if root && project.is_some() && stored {
        SpawnPlan::Resume
    } else {
        SpawnPlan::Begin
    }
}

/// The thread outlives a fresh start of the project.
pub fn outlives_fresh_start(entry: &ThreadEntry, project: &str) -> (r: bool)
    ensures
        r == (entry@.project != Some(project@)),
{
    !same_project(&entry.project, project)
}

/// A thread that is its project's only root is never held back.
pub proof fn only_root_is_stored(
    threads: Seq<ThreadEntryV>,
    id: Seq<char>,
    project: Option<Seq<char>>,
)
    requires
        forall|i: int|
            0 <= i < threads.len() && (#[trigger] threads[i]).root && threads[i].project == project
                ==> threads[i].id == id,
    ensures
        !superseded(threads, id, project),
{
}

} // verus!
