//! Whether and where writing goes on.

use vstd::prelude::*;

use crate::intent;
use crate::intent::{ClearHistory, IntentMatch, IntentMatchV};
use crate::json::{Json, JsonV};
use crate::offers;
use crate::text;
use crate::thread_state::ThreadState;

verus! {

/// What is known of the chapter that is next.
pub struct NextChapter {
    /// The number that the project's state gives; none where it has no state.
    pub next_chapter: Option<u32>,
    /// How long the chapter's draft is; that of the first chapter where the
    /// project has no state.
    pub draft_chars: usize,
    /// How long a draft must be to count as one.
    pub draft_min_chars: usize,
}

/// The number of the next chapter, at least one.
pub open spec fn next_number(next: Option<u32>) -> u32 {
    match next {
        Some(n) => if n == 0 {
            1
        } else {
            n
        },
        None => 1,
    }
}

/// How long the draft of the next chapter is; a project without a state has no
/// next chapter, and so no draft of it.
pub open spec fn next_draft(n: NextChapter) -> usize {
    if n.next_chapter is Some {
        n.draft_chars
    } else {
        0
    }
}

/// How long the draft of the next chapter is.
pub fn next_chapter_draft_chars(next: &NextChapter) -> (r: usize)
    ensures
        r == next_draft(*next),
{
    match next.next_chapter {
        Some(_) => next.draft_chars,
        None => 0,
    }
}

/// The chapter that writing goes on with: the one that is named, or else the
/// next one; zero without a project.
pub open spec fn continue_chapter(project: Seq<char>, args: JsonV, next: Option<u32>) -> u32 {
    match args.uint("chapter"@) {
        Some(c) if c > 0 => c as u32,
        _ => if project.len() == 0 {
            0
        } else {
            next_number(next)
        },
    }
}

/// The chapter that writing goes on with.
pub fn resolve_continue_chapter(project: &str, args: &Json, next: Option<u32>) -> (r: u32)
    ensures
        r == continue_chapter(project@, args@, next),
{
    match args.get_u64("chapter") {
        Some(c) => {
            if c > 0 {
                return c as u32;
            }
        },
        None => {},
    }
    if project.is_empty() {
        return 0;
    }
    number_of(next)
}

fn number_of(next: Option<u32>) -> (r: u32)
    ensures
        r == next_number(next),
        r >= 1,
{
    match next {
        Some(n) => if n == 0 {
            1
        } else {
            n
        },
        None => 1,
    }
}

/// The newest of the chapters from one to `most`.
pub open spec fn newest(chapters: Seq<u32>, most: u32) -> Option<u32>
    decreases chapters.len(),
{
    if chapters.len() == 0 {
        None
    } else {
        let rest = newest(chapters.drop_last(), most);
        let c = chapters.last();
        if c < 1 || c > most {
            rest
        } else {
            match rest {
                Some(x) => if x > c {
                    Some(x)
                } else {
                    Some(c)
                },
                None => Some(c),
            }
        }
    }
}

/// A project's counts of chapters.
pub struct ProjectCounts {
    pub published_count: u32,
    pub next_chapter: u32,
}

/// The larger number.
pub open spec fn larger(a: u32, b: u32) -> u32 {
    if a >= b {
        a
    } else {
        b
    }
}

/// The chapter to polish after a passed audit: the newest one that was audited,
/// or else the last published one, or else the next one where it has a draft.
pub open spec fn polish_target(
    project: Seq<char>,
    counts: Option<ProjectCounts>,
    audited: Seq<u32>,
    next_has_draft: bool,
) -> Option<u32> {
    match counts {
        Some(s) => if project.len() == 0 {
            None
        } else {
            match newest(audited, larger(larger(s.published_count, s.next_chapter), 1)) {
                Some(c) => Some(c),
                None => if s.published_count > 0 {
                    Some(s.published_count)
                } else if next_has_draft {
                    Some(larger(s.next_chapter, 1))
                } else {
                    None
                },
            }
        },
        None => None,
    }
}

fn find_newest(chapters: &Vec<u32>, most: u32) -> (r: Option<u32>)
    ensures
        r == newest(chapters@, most),
{
    let mut best: Option<u32> = None;
    let mut i: usize = 0;
    while i < chapters.len()
        invariant
            i <= chapters.len(),
            best == newest(chapters@.take(i as int), most),
        decreases chapters.len() - i,
    {
        assert(chapters@.take(i + 1).drop_last() =~= chapters@.take(i as int));
        let c: u32 = chapters[i];
        if c >= 1 && c <= most {
            best = match best {
                Some(x) => if x > c {
                    Some(x)
                } else {
                    Some(c)
                },
                None => Some(c),
            };
        }
        i = i + 1;
    }
    assert(chapters@.take(i as int) =~= chapters@);
    best
}

/// The chapter to polish after a passed audit. `audited` are the chapters that
/// have an audit report.
pub fn soft_revise_target_chapter(
    project: &str,
    counts: Option<ProjectCounts>,
    audited: &Vec<u32>,
    next_has_draft: bool,
) -> (r: Option<u32>)
    ensures
        r == polish_target(project@, counts, audited@, next_has_draft),
{
    let s = match counts {
        Some(s) => s,
        None => {
            return None;
        },
    };
    if project.is_empty() {
        return None;
    }
    let next: u32 = if s.next_chapter >= 1 {
        s.next_chapter
    } else {
        1
    };
    let most: u32 = if s.published_count >= next {
        s.published_count
    } else {
        next
    };
    assert(most == larger(larger(s.published_count, s.next_chapter), 1));
    match find_newest(audited, most) {
        Some(c) => Some(c),
        None => if s.published_count > 0 {
            Some(s.published_count)
        } else if next_has_draft {
            Some(next)
        } else {
            None
        },
    }
}

/// The newest chapter in range is one of the chapters, and none in range is
/// newer.
pub proof fn newest_is_newest(chapters: Seq<u32>, most: u32)
    ensures
        newest(chapters, most) matches Some(c) ==> chapters.contains(c) && 1 <= c <= most,
        forall|x: u32|
            #![trigger chapters.contains(x)]
            chapters.contains(x) && 1 <= x <= most ==> (newest(chapters, most) matches Some(c) && c
                >= x),
    decreases chapters.len(),
{
    if chapters.len() > 0 {
        let rest = chapters.drop_last();
        newest_is_newest(rest, most);
        assert(chapters[chapters.len() - 1] == chapters.last());
        assert forall|x: u32|
            #![trigger chapters.contains(x)]
            chapters.contains(x) && 1 <= x <= most implies (newest(chapters, most) matches Some(c)
            && c >= x) by {
            let k = choose|k: int| 0 <= k < chapters.len() && chapters[k] == x;
            if k < rest.len() {
                assert(rest[k] == x);
                assert(rest.contains(x));
            }
        }
        match newest(chapters, most) {
            Some(c) => {
                if rest.contains(c) {
                    let k = choose|k: int| 0 <= k < rest.len() && rest[k] == c;
                    assert(chapters[k] == c);
                }
            },
            None => {},
        }
    }
}

/// What decides whether the conversation before a new chapter may be cleared.
pub struct ClearFacts {
    /// Writing passes the checks of the plot.
    pub may_write: bool,
    /// Changes must be confirmed.
    pub require_confirm: bool,
    /// The arguments say that the confirmation was given already.
    pub confirm_skipped: bool,
    /// The author means to write a new chapter.
    pub intends_new_chapter: bool,
    /// The author said no more than to go on.
    pub bare_continue: bool,
    /// How long the draft of the chapter to be written is.
    pub chapter_draft_chars: usize,
}

/// The conversation may be cleared: writing is sure to begin, the author meant a
/// new chapter, and no draft is there already that the arguments do not name.
pub open spec fn clears_history(
    project: Seq<char>,
    args: JsonV,
    f: ClearFacts,
    n: NextChapter,
) -> bool {
    &&& project.len() > 0 && f.may_write
    &&& f.require_confirm ==> args.flag("apply"@) || f.confirm_skipped
    &&& f.intends_new_chapter || (f.bare_continue && next_draft(n) < n.draft_min_chars)
    &&& continue_chapter(project, args, n.next_chapter) != 0
    &&& args.uint("chapter"@) is None ==> f.chapter_draft_chars < n.draft_min_chars
}

/// Whether the conversation before a new chapter may be cleared.
pub fn continue_writing_should_clear_history(
    project: &str,
    args: &Json,
    facts: &ClearFacts,
    next: &NextChapter,
) -> (r: bool)
    ensures
        r == clears_history(project@, args@, *facts, *next),
{
    if project.is_empty() || !facts.may_write {
        return false;
    }
    if facts.require_confirm && !args.is_true("apply") && !facts.confirm_skipped {
        return false;
    }
    let bare_ready = facts.bare_continue && next_chapter_draft_chars(next) < next.draft_min_chars;
    if !facts.intends_new_chapter && !bare_ready {
        return false;
    }
    if resolve_continue_chapter(project, args, next.next_chapter) == 0 {
        return false;
    }
    !(args.get_u64("chapter").is_none() && facts.chapter_draft_chars >= next.draft_min_chars)
}

/// A plain request to go on writes the next chapter, where that has no draft and
/// the project has a state.
pub open spec fn bare_intent(
    project: Option<Seq<char>>,
    asks_to_continue: bool,
    n: NextChapter,
) -> Option<IntentMatchV> {
    match intent::usable_project(project) {
        Some(p) => if asks_to_continue && next_draft(n) < n.draft_min_chars && n.next_chapter
            is Some {
            Some(
                IntentMatchV {
                    id: "bare_continue_write"@,
                    tool: "continue_writing"@,
                    args: JsonV::empty_object().put("project"@, JsonV::Text(p)),
                    clear_history: ClearHistory::OnStart,
                },
            )
        } else {
            None
        },
        None => None,
    }
}

/// What a plain request to go on means.
pub fn bare_continue_write_intent(
    project: Option<&str>,
    asks_to_continue: bool,
    next: &NextChapter,
) -> (r: Option<IntentMatch>)
    ensures
        intent::opt_match(r) == bare_intent(text::opt_str(project), asks_to_continue, *next),
{
    match intent::filter_project(project) {
        Some(p) => if asks_to_continue && next_chapter_draft_chars(next) < next.draft_min_chars
            && next.next_chapter.is_some() {
            Some(
                IntentMatch {
                    id: "bare_continue_write".to_owned(),
                    tool: "continue_writing".to_owned(),
                    args: Json::object().with_str("project", p),
                    clear_history: ClearHistory::OnStart,
                },
            )
        } else {
            None
        },
        None => None,
    }
}

/// The next chapter, how long its draft is, and the chapter after it.
pub open spec fn draft_meta(n: NextChapter) -> (u32, usize, u32) {
    let c = next_number(n.next_chapter);
    (c, n.draft_chars, offers::saturating_next(c))
}

/// The next chapter, how long its draft is, and the chapter after it.
pub fn draft_exists_meta(next: &NextChapter) -> (r: (u32, usize, u32))
    ensures
        r == draft_meta(*next),
{
    let c: u32 = number_of(next.next_chapter);
    (c, next.draft_chars, c.saturating_add(1))
}

/// The question back where going on could mean two things, because the next
/// chapter has a draft already.
pub open spec fn clarify_text(asks_to_continue: bool, n: NextChapter) -> Option<Seq<char>> {
    if !asks_to_continue || n.draft_chars < n.draft_min_chars {
        None
    } else {
        let m = draft_meta(n);
        Some(
            "第"@ + text::dec(m.0 as nat) + "章已有正文（约 "@ + text::dec(m.1 as nat)
                + " 字），尚未发布（next_chapter="@ + text::dec(m.0 as nat)
                + "）。\n「继续」有歧义，请选择：审校本章 / 修订本章 / 写第"@
                + text::dec(m.2 as nat) + "章。"@,
        )
    }
}

/// The question back where going on could mean two things.
pub fn clarify_bare_continue(asks_to_continue: bool, next: &NextChapter) -> (r: Option<String>)
    ensures
        text::opt_text(r) == clarify_text(asks_to_continue, *next),
{
    if !asks_to_continue || next.draft_chars < next.draft_min_chars {
        return None;
    }
    let (chapter, chars, suggest) = draft_exists_meta(next);
    let number = text::number(chapter as u64);
    let mut s = "第".to_owned();
    s.push_str(number.as_str());
    s.push_str("章已有正文（约 ");
    s.push_str(text::number(chars as u64).as_str());
    s.push_str(" 字），尚未发布（next_chapter=");
    s.push_str(number.as_str());
    s.push_str("）。\n「继续」有歧义，请选择：审校本章 / 修订本章 / 写第");
    s.push_str(text::number(suggest as u64).as_str());
    s.push_str("章。");
    Some(s)
}

/// A plain request to go on is either carried out or asked back about, never
/// both, once the project has a state.
pub proof fn bare_continue_is_decided(project: Seq<char>, n: NextChapter)
    requires
        intent::usable_project(Some(project)) is Some,
        n.next_chapter is Some,
    ensures
        bare_intent(Some(project), true, n) is Some <==> clarify_text(true, n) is None,
{
}

/// The notice at the start of a new chapter.
pub open spec fn new_chapter_notice(project: Seq<char>, chapter: u32) -> Seq<char> {
    "已清理先前对话，正在撰写第"@ + text::dec(chapter as nat) + "章（《"@ + project
        + "》）。进度见下方「继续创作」工具卡；设定与正文以项目文件为准。"@
}

/// What a conversation starts with anew: the request, unless it is blank.
pub open spec fn kept_request(request: Seq<char>) -> Option<Seq<char>> {
    let t = text::trimmed(request);
    if t.len() == 0 {
        None
    } else {
        Some(t)
    }
}

impl ThreadState {
    /// Starts a new chapter: drops the cards of the work before, and gives the
    /// notice and the request that the conversation starts with anew.
    pub fn begin_new_chapter_history(&mut self, project: &str, chapter: u32, request: &str) -> (r: (
        String,
        Option<String>,
    ))
        ensures
            final(self)@ == old(self)@.cleared_for_chapter(),
            r.0@ == new_chapter_notice(project@, chapter),
            text::opt_text(r.1) == kept_request(request@),
    {
        self.begin_new_chapter();
        let mut s = "已清理先前对话，正在撰写第".to_owned();
        s.push_str(text::number(chapter as u64).as_str());
        s.push_str("章（《");
        s.push_str(project);
        s.push_str("》）。进度见下方「继续创作」工具卡；设定与正文以项目文件为准。");
        let t = text::trim(request);
        let kept = if t.is_empty() {
            None
        } else {
            Some(t.to_owned())
        };
        (s, kept)
    }
}

} // verus!
