//! How a change is carried to the places that depend on it.

use vstd::prelude::*;

use crate::cascade;
use crate::cascade::{OutcomeV, RunV, StepV};
use crate::impact;
use crate::impact::{HitV, ImpactTargetKind, SourceV};
use crate::laws::reading;
use crate::text;

verus! {

/// A text that a change makes outdated is itself revised: the chapter's text
/// with `revise_chapter`, its outline with `revise_outline`.
pub proof fn chapter_places_are_revised(project: Seq<char>, s: SourceV, h: HitV, n: u32)
    requires
        h.chapter == Some(n),
        n > 0,
        h.target_kind == ImpactTargetKind::Draft || h.target_kind == ImpactTargetKind::Outline,
    ensures
        match cascade::step_for(project, s, h) {
            StepV::Run { tool, args } => {
                &&& h.target_kind == ImpactTargetKind::Draft ==> tool == "revise_chapter"@
                &&& h.target_kind == ImpactTargetKind::Outline ==> tool == "revise_outline"@
                    && args.flag("force"@)
                &&& args.text("project"@) == Some(project)
                &&& args.uint("chapter"@) == Some(n as u64)
                &&& args.text("instructions"@) == Some(cascade::revision_text(s, h))
            },
            StepV::Skip(_) => false,
        },
{
    reading::put_reads_back();
    reading::names_differ();
}

/// The outline of a volume is designed anew with `design_arc_outline` for that
/// volume, the outline of the whole with `design_master_outline`.
pub proof fn outlines_are_designed_anew(project: Seq<char>, s: SourceV, h: HitV, n: u32)
    requires
        h.volume == Some(n),
        n > 0,
        h.target_kind == ImpactTargetKind::ArcOutline || h.target_kind
            == ImpactTargetKind::MasterOutline,
    ensures
        match cascade::step_for(project, s, h) {
            StepV::Run { tool, args } => {
                &&& h.target_kind == ImpactTargetKind::ArcOutline ==> tool
                    == "design_arc_outline"@ && args.uint("arc"@) == Some(n as u64)
                &&& h.target_kind == ImpactTargetKind::MasterOutline ==> tool
                    == "design_master_outline"@
                &&& args.flag("force"@)
                &&& args.text("project"@) == Some(project)
                &&& args.text("brief"@) == Some(cascade::revision_text(s, h))
            },
            StepV::Skip(_) => false,
        },
{
    reading::put_reads_back();
    reading::names_differ();
}

/// An entity is designed anew under its kind and name; a setting is written under
/// what was changed.
pub proof fn settings_are_rewritten(project: Seq<char>, s: SourceV, h: HitV)
    requires
        h.target_kind == ImpactTargetKind::Bible || (h.target_kind == ImpactTargetKind::Entity
            && h.entity_name.len() > 0),
    ensures
        match cascade::step_for(project, s, h) {
            StepV::Run { tool, args } => {
                &&& h.target_kind == ImpactTargetKind::Entity ==> tool == "design_entity"@
                    && args.text("kind"@) == Some(h.entity_kind) && args.text("name"@) == Some(
                    h.entity_name,
                ) && args.text("brief"@) == Some(cascade::revision_text(s, h))
                &&& h.target_kind == ImpactTargetKind::Bible ==> tool == "upsert_setting"@
                    && args.text("topic"@) == Some(s.id) && args.text("content"@) == Some(
                    cascade::revision_text(s, h),
                )
                &&& args.flag("force"@)
                &&& args.text("project"@) == Some(project)
            },
            StepV::Skip(_) => false,
        },
{
    reading::put_reads_back();
    reading::names_differ();
}

/// A plot card is left to the author, and so is a place that cannot be found:
/// a text or outline without a chapter, a volume's outline without a volume, an
/// entity without a name. Each is named in its line.
pub proof fn unknown_places_are_skipped(project: Seq<char>, s: SourceV, h: HitV)
    ensures
        cascade::step_for(project, s, h) is Skip <==> h.target_kind == ImpactTargetKind::Plot || ((
        h.target_kind == ImpactTargetKind::Draft || h.target_kind == ImpactTargetKind::Outline)
            && (h.chapter is None || h.chapter == Some(0u32))) || (h.target_kind
            == ImpactTargetKind::ArcOutline && (h.volume is None || h.volume == Some(0u32))) || (
        h.target_kind == ImpactTargetKind::Entity && h.entity_name.len() == 0),
        cascade::step_for(project, s, h) matches StepV::Skip(line) ==> text::occurs(
            line,
            h.target_ref,
        ),
{
    reading::joined_texts();
}

/// The instructions of a revision tell what was changed, what in the place is
/// outdated and why.
pub proof fn instructions_tell_the_change(s: SourceV, h: HitV)
    ensures
        text::occurs(cascade::revision_text(s, h), s.id),
        text::occurs(cascade::revision_text(s, h), s.kind_word),
        text::occurs(cascade::revision_text(s, h), h.matched_key),
        text::occurs(cascade::revision_text(s, h), h.reason),
        h.quote.len() <= 120 ==> text::occurs(cascade::revision_text(s, h), h.quote),
        s.before_snippet.len() <= 400 ==> text::occurs(
            cascade::revision_text(s, h),
            s.before_snippet,
        ),
        s.after_snippet.len() <= 400 ==> text::occurs(
            cascade::revision_text(s, h),
            s.after_snippet,
        ),
        text::ends(
            cascade::revision_text(s, h),
            "\n只改与上述变更冲突或过时的句子；勿改无关情节，勿新增无关设定。"@,
        ),
{
    reading::joined_texts();
}

/// Going on to the next place that is worked on passes over no other: all before
/// it are skipped, and nothing else of the run changes.
pub proof fn no_place_is_passed_over(s: RunV, j: int)
    requires
        s.at <= j < s.advanced().at,
    ensures
        j < s.hits.len(),
        cascade::step_for(s.project, s.source, s.hits[j]) is Skip,
    decreases s.hits.len() - s.at,
{
    match s.step() {
        Some(StepV::Skip(line)) => {
            if j > s.at {
                no_place_is_passed_over(
                    RunV { at: s.at + 1, lines: s.lines.push(line), ..s },
                    j,
                );
            }
        },
        _ => {},
    }
}

/// The run stays on the places that it started with, and stops only at a place
/// that is worked on or at the end.
pub proof fn places_stay(s: RunV)
    requires
        s.at <= s.hits.len(),
    ensures
        s.advanced().hits == s.hits,
        s.advanced().project == s.project,
        s.advanced().source == s.source,
        s.advanced().revised == s.revised,
        s.at <= s.advanced().at <= s.hits.len(),
        s.advanced().at < s.hits.len() ==> cascade::step_for(
            s.project,
            s.source,
            s.hits[s.advanced().at as int],
        ) is Run,
    decreases s.hits.len() - s.at,
{
    match s.step() {
        Some(StepV::Skip(line)) => {
            places_stay(RunV { at: s.at + 1, lines: s.lines.push(line), ..s });
        },
        _ => {},
    }
}

/// A chapter is audited again exactly where its text was revised: the tool ran and
/// was not blocked. Each outcome is told with the place, and the run goes on.
pub proof fn revised_texts_are_audited_again(s: RunV, o: OutcomeV)
    requires
        s.at < s.hits.len(),
        cascade::step_for(s.project, s.source, s.hits[s.at as int]) is Run,
    ensures
        ({
            let h = s.hits[s.at as int];
            let after = s.after(o);
            let worked = o matches OutcomeV::Ran { output, data } && !data.flag("blocked"@);
            &&& after.at == s.at + 1
            &&& after.hits == s.hits
            &&& h.target_kind == ImpactTargetKind::Draft && worked ==> after.revised
                == s.revised.push(h.chapter->0)
            &&& h.target_kind != ImpactTargetKind::Draft || !worked ==> after.revised == s.revised
            &&& after.lines.len() == s.lines.len() + 1
            &&& after.lines.drop_last() == s.lines
            &&& text::occurs(after.lines.last(), h.target_ref)
            &&& worked ==> text::begins(after.lines.last(), "- 已同步 "@)
            &&& o is Failed ==> text::begins(after.lines.last(), "- 同步 "@) && text::ends(
                after.lines.last(),
                o->Failed_0,
            )
            &&& !worked && o is Ran ==> text::occurs(after.lines.last(), " 被拦截："@)
        }),
{
    reading::joined_texts();
    reading::begun_texts();
    assert(s.after(o).lines.drop_last() =~= s.lines);
}

/// The path of an entity's card tells its kind.
pub proof fn paths_tell_kinds(path: Seq<char>)
    ensures
        text::occurs(path, "/items/"@) ==> cascade::entity_kind(path) == "item"@,
        text::occurs(path, "/locations/"@) && !text::occurs(path, "/items/"@)
            ==> cascade::entity_kind(path) == "location"@,
        !text::occurs(path, "/items/"@) && !text::occurs(path, "/locations/"@)
            ==> cascade::entity_kind(path) == "character"@,
{
}

/// The name taken from a path is the file's: what stands behind the last slash,
/// without the ending.
pub proof fn file_names_are_read(dir: Seq<char>, name: Seq<char>)
    requires
        dir.len() > 0 ==> dir.last() == '/',
        forall|i: int| 0 <= i < name.len() ==> #[trigger] name[i] != '/',
        !text::ends(name, ".md"@),
    ensures
        cascade::entity_slug(dir + name) == name,
        cascade::entity_slug(dir + name + ".md"@) == name,
{
    reveal_strlit(".md");
    parts(dir, name);
    assert(dir + name + ".md"@ =~= dir + (name + ".md"@));
    assert forall|i: int| 0 <= i < (name + ".md"@).len() implies #[trigger] (name + ".md"@)[i]
        != '/' by {}
    parts(dir, name + ".md"@);
    assert((name + ".md"@).take(name.len() as int) =~= name);
    if name.len() >= 3 && name[name.len() - 3] == '.' && name[name.len() - 2] == 'm' && name[
    name.len() - 1] == 'd' {
        assert(name.subrange(name.len() - 3, name.len() as int) =~= ".md"@);
        assert(text::ends(name, ".md"@));
    }
    assert(cascade::without_md(name) == name);
    assert(cascade::without_md(name + ".md"@) == cascade::without_md(name));
}

proof fn parts(dir: Seq<char>, name: Seq<char>)
    requires
        dir.len() > 0 ==> dir.last() == '/',
        forall|i: int| 0 <= i < name.len() ==> #[trigger] name[i] != '/',
    ensures
        cascade::last_part(dir + name) == name,
    decreases name.len(),
{
    if name.len() > 0 {
        assert((dir + name).drop_last() =~= dir + name.drop_last());
        assert((dir + name).last() == name[name.len() - 1]);
        parts(dir, name.drop_last());
        assert(name.drop_last().push(name.last()) =~= name);
    } else {
        assert(dir + name =~= dir);
        if dir.len() > 0 {
            assert(dir.last() == '/');
        }
    }
}

/// The places are worked on from the most basic kind to the least; texts of one
/// kind by chapter.
pub proof fn basic_places_come_first(v: Seq<HitV>, i: int, j: int)
    requires
        0 <= i < j < impact::consolidated(v).len(),
    ensures
        impact::consolidated(v)[i].rank <= impact::consolidated(v)[j].rank,
        impact::consolidated(v)[i].rank == impact::consolidated(v)[j].rank && impact::consolidated(
            v,
        )[i].chapter is Some && impact::consolidated(v)[j].chapter is Some
            ==> impact::consolidated(v)[i].chapter->0 <= impact::consolidated(v)[j].chapter->0,
{
    impact::consolidated_is_ordered(v);
    let a = impact::consolidated(v)[i];
    let b = impact::consolidated(v)[j];
    assert(!impact::before(b, a));
}

/// Two finds in one place become one find in that place, which names both.
pub proof fn finds_in_one_place_are_gathered(a: HitV, b: HitV)
    ensures
        ({
            let g = impact::gathered(a, b);
            &&& g.target_kind == a.target_kind
            &&& g.target_ref == a.target_ref
            &&& g.chapter == a.chapter
            &&& g.volume == a.volume
            &&& g.rank == a.rank
            &&& g.reason == a.reason
            &&& text::occurs(g.matched_key, a.matched_key)
            &&& text::occurs(g.matched_key, b.matched_key)
            &&& g.quote.len() <= 200 || g.quote == a.quote
            &&& a.quote.len() + b.quote.len() < 200 ==> text::occurs(g.quote, a.quote)
                && text::occurs(g.quote, b.quote)
        }),
{
    reveal_strlit("；");
    reading::joined_texts();
    reading::empty_occurs(a.matched_key);
    reading::empty_occurs(a.quote);
    assert(b.matched_key.len() == 0 ==> b.matched_key =~= Seq::empty());
    assert(b.quote.len() == 0 ==> b.quote =~= Seq::empty());
    assert(text::occurs_at(a.matched_key, a.matched_key, 0)) by {
        assert(a.matched_key.subrange(0, a.matched_key.len() as int) =~= a.matched_key);
    }
    assert(text::occurs_at(a.quote, a.quote, 0)) by {
        assert(a.quote.subrange(0, a.quote.len() as int) =~= a.quote);
    }
}

} // verus!
