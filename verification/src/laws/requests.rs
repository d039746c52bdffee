//! Which call a request is taken for.

use vstd::prelude::*;

use crate::intent;
use crate::intent::{ExtractMode, IntentV};
use crate::laws::reading;
use crate::text;

verus! {

/// A request to revise carries the author's own words, where they are long enough:
/// as long as the kind of request asks for, or else twenty-four characters. Only a
/// shorter one is replaced by the stock text.
pub proof fn authors_words_are_carried(spec: IntentV, t: Seq<char>, project: Option<Seq<char>>)
    requires
        spec.tool == "revise_chapter"@ || spec.tool == "revise_outline"@,
        intent::built(spec, t, project) is Some,
    ensures
        ({
            let least: int = match spec.instructions_min_chars {
                Some(n) => n as int,
                None => 24,
            };
            let said = intent::built(spec, t, project)->0.args.text("instructions"@);
            &&& t.len() >= least ==> said == Some(t)
            &&& t.len() < least && spec.default_instructions is Some ==> said
                == spec.default_instructions
            &&& t.len() < least && spec.default_instructions is None && spec.tool
                == "revise_outline"@ ==> said == Some("按用户要求修订本章章纲。"@)
            &&& t.len() < least && spec.default_instructions is None && spec.tool
                == "revise_chapter"@ ==> said == Some("按用户要求修订本章。"@)
        }),
{
    reading::put_reads_back();
    reveal_strlit("revise_chapter");
    reveal_strlit("revise_outline");
    assert("revise_chapter"@.len() == 14);
    assert("revise_outline"@.len() == 14);
    assert("revise_chapter"@[7] != "revise_outline"@[7]);
}

/// The same of a whole request: where a kind of request that revises decides, the
/// call holds what the author asked for.
pub proof fn decided_request_carries_words(
    spec: IntentV,
    t: Seq<char>,
    low: Seq<char>,
    project: Option<Seq<char>>,
)
    requires
        spec.tool == "revise_chapter"@ || spec.tool == "revise_outline"@,
        intent::matched_by(spec, t, low, project) is Some,
        t.len() >= match spec.instructions_min_chars {
            Some(n) => n as int,
            None => 24,
        },
    ensures
        intent::matched_by(spec, t, low, project)->0.args.text("instructions"@) == Some(t),
{
    authors_words_are_carried(spec, t, project);
}

/// The call is the one that the kind of request stands for, on the bound project.
pub proof fn request_becomes_its_call(
    spec: IntentV,
    t: Seq<char>,
    low: Seq<char>,
    project: Option<Seq<char>>,
)
    requires
        intent::matched_by(spec, t, low, project) is Some,
    ensures
        ({
            let m = intent::matched_by(spec, t, low, project)->0;
            &&& m.id == spec.id
            &&& m.tool == spec.tool
            &&& m.clear_history == spec.clear_history
            &&& m.args.text("project"@) == project
            &&& project is Some && project->0.len() > 0 && project->0 != "_"@
            &&& spec.id == "audit_queue_continue"@ ==> m.args.text("action"@) == Some(
                "continue"@,
            )
        }),
{
    reading::put_reads_back();
    reading::names_differ();
}

/// A request for a chapter names the chapter that the author wrote; where none is
/// written, it is refused, or left open if it may be.
pub proof fn chapter_is_the_one_named(spec: IntentV, t: Seq<char>, project: Seq<char>)
    requires
        project.len() > 0,
        project != "_"@,
        spec.extract == ExtractMode::Chapter || spec.extract == ExtractMode::ChapterOptional,
    ensures
        ({
            let m = intent::built(spec, t, Some(project));
            match intent::named_number(t, "章"@, "chapter "@) {
                Some(n) => m is Some && m->0.args.uint("chapter"@) == Some(n as u64),
                None => if spec.extract == ExtractMode::Chapter {
                    m is None
                } else {
                    m is Some && m->0.args.get("chapter"@) is None
                },
            }
        }),
{
    reading::put_reads_back();
    reading::names_differ();
}

/// A request for a volume names the volume that the author wrote, if any.
pub proof fn volume_is_the_one_named(spec: IntentV, t: Seq<char>, project: Seq<char>)
    requires
        project.len() > 0,
        project != "_"@,
        spec.extract == ExtractMode::VolumeOptional,
    ensures
        ({
            let m = intent::built(spec, t, Some(project));
            &&& m is Some
            &&& match intent::named_number(t, "卷"@, "volume "@) {
                Some(n) => m->0.args.uint("volume"@) == Some(n as u64),
                None => m->0.args.get("volume"@) is None,
            }
        }),
{
    reading::put_reads_back();
    reading::names_differ();
}

/// A request for several chapters starts at the first and ends at the last that
/// the author wrote; one chapter is no range.
pub proof fn range_is_the_one_named(spec: IntentV, t: Seq<char>, project: Seq<char>)
    requires
        project.len() > 0,
        project != "_"@,
        spec.extract == ExtractMode::ChapterRange,
        spec.id != "audit_queue_continue"@,
    ensures
        ({
            let m = intent::built(spec, t, Some(project));
            match intent::range_from(t, 0) {
                Some(r) => if r.0 == r.1 {
                    m is None
                } else {
                    &&& m is Some
                    &&& m->0.args.uint("from"@) == Some(r.0 as u64)
                    &&& m->0.args.uint("to"@) == Some(r.1 as u64)
                    &&& m->0.args.text("action"@) == Some("start"@)
                },
                None => m is None,
            }
        }),
{
    reading::put_reads_back();
    reading::names_differ();
}

/// A number in digits is read as it is written, the largest of those that occur;
/// a numeral in words only where no digits occur.
pub proof fn written_numbers_are_read(t: Seq<char>, unit: Seq<char>, word: Seq<char>, n: nat)
    requires
        1 <= n <= 99,
        text::occurs(t, "第"@ + text::dec(n) + unit) || text::occurs(t, word + text::dec(n)),
        forall|m: nat|
            n < m <= 99 ==> !text::occurs(t, "第"@ + #[trigger] text::dec(m) + unit)
                && !text::occurs(t, word + text::dec(m)),
    ensures
        intent::named_number(t, unit, word) == Some(n as u32),
{
    down_to(t, unit, word, n, 99);
}

proof fn down_to(t: Seq<char>, unit: Seq<char>, word: Seq<char>, n: nat, from: nat)
    requires
        1 <= n <= from <= 99,
        text::occurs(t, "第"@ + text::dec(n) + unit) || text::occurs(t, word + text::dec(n)),
        forall|m: nat|
            n < m <= 99 ==> !text::occurs(t, "第"@ + #[trigger] text::dec(m) + unit)
                && !text::occurs(t, word + text::dec(m)),
    ensures
        intent::largest_named(t, unit, word, from) == Some(n as u32),
    decreases from - n,
{
    if from > n {
        assert(text::dec(from) == text::dec(from));
        down_to(t, unit, word, n, (from - 1) as nat);
    }
}

/// A request is recognised by any of its words, or by all words of one of its
/// groups, and by none where an excluded word stands in it.
pub proof fn words_decide(spec: IntentV, t: Seq<char>, low: Seq<char>, i: int, g: int)
    ensures
        0 <= i < spec.none_keywords.len() && intent::has_keyword(t, low, spec.none_keywords[i])
            ==> !intent::keywords_hit(spec, t, low),
        spec.none_keywords.len() == 0 && 0 <= i < spec.any_keywords.len() && intent::has_keyword(
            t,
            low,
            spec.any_keywords[i],
        ) ==> intent::keywords_hit(spec, t, low),
        spec.none_keywords.len() == 0 && 0 <= g < spec.all_keyword_groups.len()
            && spec.all_keyword_groups[g].len() > 0 && (forall|k: int|
            0 <= k < spec.all_keyword_groups[g].len() ==> intent::has_keyword(
                t,
                low,
                #[trigger] spec.all_keyword_groups[g][k],
            )) ==> intent::keywords_hit(spec, t, low),
        (spec.any_keywords.len() > 0 || spec.all_keyword_groups.len() > 0) && (forall|k: int|
            0 <= k < spec.any_keywords.len() ==> !intent::has_keyword(
                t,
                low,
                #[trigger] spec.any_keywords[k],
            )) && (forall|k: int|
            0 <= k < spec.all_keyword_groups.len() ==> exists|j: int|
                0 <= j < (#[trigger] spec.all_keyword_groups[k]).len() && !intent::has_keyword(
                    t,
                    low,
                    #[trigger] spec.all_keyword_groups[k][j],
                )) ==> !intent::keywords_hit(spec, t, low),
{
    if intent::has_some_group(t, low, spec.all_keyword_groups) {
        let k = choose|k: int|
            0 <= k < spec.all_keyword_groups.len() && intent::has_group(
                t,
                low,
                #[trigger] spec.all_keyword_groups[k],
            );
        assert(intent::has_group(t, low, spec.all_keyword_groups[k]));
    }
    if 0 <= g < spec.all_keyword_groups.len() && spec.all_keyword_groups[g].len() > 0 && (
    forall|k: int|
        0 <= k < spec.all_keyword_groups[g].len() ==> intent::has_keyword(
            t,
            low,
            #[trigger] spec.all_keyword_groups[g][k],
        )) {
        assert(intent::has_group(t, low, spec.all_keyword_groups[g]));
        assert(intent::has_some_group(t, low, spec.all_keyword_groups));
    }
}

/// A word that is not plain ASCII stands in the request as it is written; a plain
/// one in any case.
pub proof fn words_are_found(t: Seq<char>, low: Seq<char>, key: Seq<char>)
    ensures
        !vstd::utf8::is_ascii_chars(key) ==> (intent::has_keyword(t, low, key) <==> text::occurs(
            t,
            key,
        )),
        vstd::utf8::is_ascii_chars(key) && (forall|i: int|
            0 <= i < key.len() ==> !('A' <= #[trigger] key[i] <= 'Z')) ==> (intent::has_keyword(
            t,
            low,
            key,
        ) <==> text::occurs(low, key)),
{
    if forall|i: int| 0 <= i < key.len() ==> !('A' <= #[trigger] key[i] <= 'Z') {
        assert(text::ascii_lowered(key) =~= key);
    }
}

} // verus!
