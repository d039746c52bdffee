//! What the decision council does with a failed audit.

use vstd::prelude::*;

use crate::decision_council;
use crate::decision_council::{
    BallotV, CouncilAction, CouncilSeverity, CouncilVote, KindV, MemberV, PlanV, Side,
};
use crate::issues;
use crate::issues::IssueV;
use crate::json::JsonV;
use crate::laws::findings;
use crate::laws::reading;

verus! {

/// A plan leaves an argument as it is.
pub open spec fn leaves(plan: Option<PlanV>, key: Seq<char>) -> bool {
    plan matches Some(p) ==> forall|i: int|
        0 <= i < p.arg_updates.len() ==> (#[trigger] p.arg_updates[i]).0 != key
}

/// An update of other arguments leaves an argument as it is.
proof fn kept(args: JsonV, ups: Seq<(Seq<char>, JsonV)>, key: Seq<char>)
    requires
        forall|i: int| 0 <= i < ups.len() ==> (#[trigger] ups[i]).0 != key,
    ensures
        decision_council::updated(args, ups).get(key) == args.get(key),
    decreases ups.len(),
{
    if ups.len() > 0 {
        let rest = ups.drop_last();
        assert forall|i: int| 0 <= i < rest.len() implies (#[trigger] rest[i]).0 != key by {
            assert(rest[i] == ups[i]);
        }
        kept(args, rest, key);
        assert(ups.last() == ups[ups.len() - 1]);
        reading::put_reads_back();
    }
}

/// An automatic revision revises the project and the chapter that were audited.
pub proof fn revises_what_was_audited(
    k: KindV,
    bs: Seq<BallotV>,
    s: Seq<IssueV>,
    project: Seq<char>,
    chapter: u32,
    retry_count: u32,
    streak: u32,
    plan: Option<PlanV>,
)
    requires
        leaves(plan, "project"@),
        leaves(plan, "chapter"@),
        leaves(plan, "choice"@),
    ensures
        ({
            let v = decision_council::verdict(
                k,
                bs,
                s,
                project,
                chapter,
                retry_count,
                streak,
                plan,
            );
            v.action == CouncilAction::AutoRevise ==> {
                &&& v.tool == "steer_run"@
                &&& v.args.text("project"@) == Some(project)
                &&& v.args.uint("chapter"@) == Some(chapter as u64)
                &&& v.args.text("choice"@) == Some("revise"@)
            }
        }),
{
    reading::put_reads_back();
    reading::names_differ();
    let base = JsonV::empty_object();
    let v = decision_council::verdict(k, bs, s, project, chapter, retry_count, streak, plan);
    let none = decision_council::revised(bs, s, project, chapter, retry_count, 0, None);
    assert(none.args.text("project"@) == Some(project));
    assert(none.args.uint("chapter"@) == Some(chapter as u64));
    assert(none.args.text("choice"@) == Some("revise"@));
    if plan is Some {
        kept(none.args, plan->0.arg_updates, "project"@);
        kept(none.args, plan->0.arg_updates, "chapter"@);
        kept(none.args, plan->0.arg_updates, "choice"@);
    }
}


/// An automatic revision takes up every blocking issue that has an id; it takes
/// up others only where no blocking issue has one.
pub proof fn revises_what_blocks(
    k: KindV,
    bs: Seq<BallotV>,
    s: Seq<IssueV>,
    project: Seq<char>,
    chapter: u32,
    retry_count: u32,
    streak: u32,
    plan: Option<PlanV>,
)
    requires
        leaves(plan, "issue_ids"@),
    ensures
        ({
            let v = decision_council::verdict(
                k,
                bs,
                s,
                project,
                chapter,
                retry_count,
                streak,
                plan,
            );
            v.action == CouncilAction::AutoRevise ==> {
                &&& v.args.list("issue_ids"@) matches Some(l)
                &&& forall|i: int, x: Seq<char>|
                    0 <= i < s.len() && (#[trigger] s[i]).id == Some(x) && s[i].priority == "P0"@
                        ==> #[trigger] l.contains(JsonV::Text(x))
                &&& forall|j: int|
                    0 <= j < l.len() ==> exists|i: int|
                        0 <= i < s.len() && #[trigger] l[j] == JsonV::Text(
                            (#[trigger] s[i]).id->0,
                        ) && s[i].id is Some && (s[i].priority == "P0"@ || !(exists|m: int|
                            0 <= m < s.len() && (#[trigger] s[m]).id is Some && s[m].priority
                                == "P0"@))
            }
        }),
{
    reading::put_reads_back();
    reading::names_differ();
    let none = decision_council::revised(bs, s, project, chapter, retry_count, 0, None);
    let ids = decision_council::taken_up(s);
    let l = issues::text_list(ids)->List_0;
    assert(none.args.list("issue_ids"@) == Some(l));
    if plan is Some {
        kept(none.args, plan->0.arg_updates, "issue_ids"@);
    }
    findings::ids_are_theirs(s);
    let p0 = issues::ids_of(issues::p0_only(s));
    assert forall|i: int, x: Seq<char>|
        0 <= i < s.len() && (#[trigger] s[i]).id == Some(x) && s[i].priority
            == "P0"@ implies #[trigger] l.contains(JsonV::Text(x)) by {
        findings::blocking_ids(s, x);
        let k = choose|k: int| 0 <= k < p0.len() && p0[k] == x;
        assert(l[k] == JsonV::Text(x));
    }
    assert forall|j: int| 0 <= j < l.len() implies exists|i: int|
        0 <= i < s.len() && #[trigger] l[j] == JsonV::Text((#[trigger] s[i]).id->0) && s[i].id
            is Some && (s[i].priority == "P0"@ || !(exists|m: int|
            0 <= m < s.len() && (#[trigger] s[m]).id is Some && s[m].priority == "P0"@)) by {
        let x = ids[j];
        assert(ids.contains(x));
        findings::blocking_ids(s, x);
        if p0.len() > 0 {
            let i = choose|i: int|
                0 <= i < s.len() && (#[trigger] s[i]).id == Some(x) && s[i].priority == "P0"@;
            assert(l[j] == JsonV::Text(s[i].id->0));
        } else {
            let i = choose|i: int| 0 <= i < s.len() && (#[trigger] s[i]).id == Some(x);
            if exists|m: int| 0 <= m < s.len() && (#[trigger] s[m]).id is Some && s[m].priority
                == "P0"@ {
                let m = choose|m: int|
                    0 <= m < s.len() && (#[trigger] s[m]).id is Some && s[m].priority == "P0"@;
                findings::blocking_ids(s, s[m].id->0);
                assert(false);
            }
            assert(l[j] == JsonV::Text(s[i].id->0));
        }
    }
}

/// The plan of a revision can hand the matter to the author.
pub proof fn plan_can_hand_over(
    k: KindV,
    bs: Seq<BallotV>,
    s: Seq<IssueV>,
    project: Seq<char>,
    chapter: u32,
    retry_count: u32,
    streak: u32,
    p: PlanV,
)
    requires
        p.escalate,
    ensures
        decision_council::verdict(k, bs, s, project, chapter, retry_count, streak, Some(p)).action
            == CouncilAction::EscalateHuman,
{
}

/// Retries are counted: the author decides as soon as as many revisions were
/// tried as are allowed, or the same kind of blocking issue came back as often
/// as the limit says.
pub proof fn author_decides_in_the_end(
    k: KindV,
    bs: Seq<BallotV>,
    s: Seq<IssueV>,
    project: Seq<char>,
    chapter: u32,
    retry_count: u32,
    streak: u32,
    plan: Option<PlanV>,
)
    requires
        retry_count >= k.max_auto_retries || (streak >= k.same_type_streak_limit && streak >= 1
            && exists|i: int| 0 <= i < s.len() && (#[trigger] s[i]).priority == "P0"@),
    ensures
        decision_council::verdict(k, bs, s, project, chapter, retry_count, streak, plan).action
            == CouncilAction::EscalateHuman,
{
    if retry_count < k.max_auto_retries {
        let i = choose|i: int| 0 <= i < s.len() && (#[trigger] s[i]).priority == "P0"@;
        assert(issues::is_p0(s[i]));
        assert(issues::some_p0(s));
    }
}

/// Nobody's ballot is for a side.
pub open spec fn nobody_for(bs: Seq<BallotV>, side: Side) -> bool {
    forall|i: int| 0 <= i < bs.len() ==> !decision_council::counts_for(#[trigger] bs[i], side)
}

proof fn first_is_cast(bs: Seq<BallotV>, role: Seq<char>, i: int)
    requires
        0 <= i,
    ensures
        decision_council::ballot_from(bs, role, i) matches Some(b) ==> exists|j: int|
            i <= j < bs.len() && bs[j] == b && b.agent == role,
        decision_council::ballot_from(bs, role, i) is None ==> forall|j: int|
            i <= j < bs.len() ==> (#[trigger] bs[j]).agent != role,
    decreases bs.len() - i,
{
    if i < bs.len() && bs[i].agent != role {
        first_is_cast(bs, role, i + 1);
    }
}

/// A side that nobody's ballot is for has no score.
pub proof fn no_ballot_no_score(ms: Seq<MemberV>, bs: Seq<BallotV>, side: Side)
    requires
        nobody_for(bs, side),
    ensures
        decision_council::weighted_sum(ms, bs, side) == 0,
    decreases ms.len(),
{
    if ms.len() > 0 {
        no_ballot_no_score(ms.drop_last(), bs, side);
        first_is_cast(bs, ms.last().role, 0);
    }
}

proof fn weights_add_up(ms: Seq<MemberV>)
    ensures
        decision_council::total_weight(ms) >= ms.len(),
    decreases ms.len(),
{
    if ms.len() > 0 {
        weights_add_up(ms.drop_last());
    }
}

/// The score of a side lies between the scores of the ballots: where each
/// member's ballot is for the side with at least the mark, the side reaches it;
/// where each that is for it has less, the side does not.
pub proof fn score_is_a_mean(ms: Seq<MemberV>, bs: Seq<BallotV>, side: Side, mark: u32)
    requires
        ms.len() > 0,
    ensures
        (forall|i: int|
            0 <= i < ms.len() ==> (decision_council::ballot_from(
                bs,
                (#[trigger] ms[i]).role,
                0,
            ) matches Some(b) && decision_council::counts_for(b, side) && b.score >= mark))
            ==> decision_council::reaches(ms, bs, side, mark),
        mark > 0 && (forall|i: int|
            0 <= i < ms.len() ==> (decision_council::ballot_from(
                bs,
                (#[trigger] ms[i]).role,
                0,
            ) matches Some(b) ==> b.score < mark)) ==> !decision_council::reaches(
            ms,
            bs,
            side,
            mark,
        ),
    decreases ms.len(),
{
    let r = ms.drop_last();
    let w = decision_council::weight_of(ms.last());
    let all = decision_council::total_weight(r);
    let sum = decision_council::weighted_sum(r, bs, side);
    assert(mark * (all + w) == mark * all + mark * w) by (nonlinear_arith);
    assert(w >= 1);
    assert(ms.last() == ms[ms.len() - 1]);
    assert forall|i: int| 0 <= i < r.len() implies #[trigger] r[i] == ms[i] by {}
    match decision_council::ballot_from(bs, ms.last().role, 0) {
        Some(b) => {
            let x = b.score as nat;
            if x >= mark {
                assert(w * x >= mark * w) by (nonlinear_arith)
                    requires
                        x >= mark,
                        w >= 0,
                ;
            } else {
                assert(w * x < mark * w) by (nonlinear_arith)
                    requires
                        x < mark,
                        w >= 1,
                ;
            }
        },
        None => {},
    }
    assert(mark > 0 ==> mark * w > 0) by (nonlinear_arith)
        requires
            w >= 1,
    ;
    if r.len() > 0 {
        score_is_a_mean(r, bs, side, mark);
    } else {
        assert(mark * all == 0) by (nonlinear_arith)
            requires
                all == 0,
        ;
    }
}

/// A heavier vote counts for more: one more member for the side adds its score as
/// often as the member's weight says, at least once.
pub proof fn votes_are_weighed(ms: Seq<MemberV>, m: MemberV, bs: Seq<BallotV>, side: Side, b: BallotV)
    requires
        decision_council::ballot_from(bs, m.role, 0) == Some(b),
        m.weight >= 1,
    ensures
        decision_council::weighted_sum(ms.push(m), bs, side) == decision_council::weighted_sum(
            ms,
            bs,
            side,
        ) + if decision_council::counts_for(b, side) {
            (m.weight as int) * (b.score as int)
        } else {
            0
        },
        decision_council::total_weight(ms.push(m)) == decision_council::total_weight(ms) + m.weight,
{
    assert(ms.push(m).drop_last() =~= ms);
}

/// What a ballot is for: revising where it votes so or prefers a fix, approving
/// where it votes so or prefers to approve, the author where it votes so.
pub proof fn ballots_take_sides(b: BallotV)
    ensures
        b.vote == CouncilVote::Revise ==> decision_council::counts_for(b, Side::Revise),
        b.vote == CouncilVote::Approve ==> decision_council::counts_for(b, Side::Approve),
        b.vote == CouncilVote::Escalate <==> decision_council::counts_for(b, Side::Escalate),
        b.vote == CouncilVote::Abstain && b.preferred_action.len() == 0
            ==> !decision_council::counts_for(b, Side::Revise) && !decision_council::counts_for(
            b,
            Side::Approve,
        ),
        b.preferred_action == "fix_all_p0"@ || b.preferred_action == "fix_all"@
            ==> decision_council::counts_for(b, Side::Revise),
        b.preferred_action == "approve"@ ==> decision_council::counts_for(b, Side::Approve),
        b.vote != CouncilVote::Revise && b.preferred_action == "approve"@
            ==> !decision_council::counts_for(b, Side::Revise),
{
    reveal_strlit("approve");
    reveal_strlit("fix");
    reveal_strlit("fix_all_p0");
    reveal_strlit("fix_all");
    assert("approve"@.len() == 7);
    assert("fix"@.len() == 3);
    assert("fix_all_p0"@.len() == 10);
    assert("fix_all"@.len() == 7);
    assert("approve"@[0] != "fix_all"@[0]);
    assert("fix_all_p0"@.subrange(0, 3) =~= "fix"@);
    assert("fix_all"@.subrange(0, 3) =~= "fix"@);
    assert("approve"@.subrange(0, 3)[0] == 'a');
}

/// A chapter with a blocking issue is revised at once, while retries are left:
/// the consistency auditor's veto suffices.
pub proof fn blocking_issue_is_revised(
    k: KindV,
    data: JsonV,
    s: Seq<IssueV>,
    project: Seq<char>,
    chapter: u32,
    retry_count: u32,
    streak: u32,
    plan: Option<PlanV>,
    n: int,
    m: int,
)
    requires
        0 <= n < s.len() && s[n].priority == "P0"@,
        0 <= m < k.members.len() && k.members[m].veto && k.members[m].role
            == "consistency_auditor"@,
        !k.allow_auto_accept_p0,
        k.min_score > 0,
        retry_count < k.max_auto_retries,
        streak < k.same_type_streak_limit,
        plan matches Some(p) ==> !p.escalate,
    ensures
        decision_council::verdict(
            k,
            decision_council::cast_ballots(k, data, s),
            s,
            project,
            chapter,
            retry_count,
            streak,
            plan,
        ).action == CouncilAction::AutoRevise,
{
    assert(issues::is_p0(s[n]));
    assert(issues::some_p0(s));
    issues::p0_only_empty(s);
    let bs = decision_council::cast_ballots(k, data, s);
    let chair = decision_council::consistency_ballot(data, s);
    assert(bs[0] == chair);
    assert(decision_council::is_block(bs[0], k.members[m].role));
    assert(decision_council::blocks_as(bs, k.members[m].role));
    assert(decision_council::vetoed(k.members, bs));
    assert(nobody_for(bs, Side::Escalate));
    no_ballot_no_score(k.members, bs, Side::Escalate);
    weights_add_up(k.members);
    let all = decision_council::total_weight(k.members);
    assert(k.min_score * all > 0) by (nonlinear_arith)
        requires
            k.min_score > 0,
            all >= 1,
    ;
}

/// Without a blocking issue nothing is revised that the council rather approves
/// of, nor where nobody is for it.
pub proof fn approval_is_not_revised(
    k: KindV,
    bs: Seq<BallotV>,
    s: Seq<IssueV>,
    project: Seq<char>,
    chapter: u32,
    retry_count: u32,
    streak: u32,
    plan: Option<PlanV>,
)
    requires
        forall|i: int| 0 <= i < s.len() ==> (#[trigger] s[i]).priority != "P0"@,
        decision_council::weighted_sum(k.members, bs, Side::Approve)
            >= decision_council::weighted_sum(k.members, bs, Side::Revise),
    ensures
        decision_council::verdict(k, bs, s, project, chapter, retry_count, streak, plan).action
            == CouncilAction::EscalateHuman,
{
    if issues::some_p0(s) {
        let i = choose|i: int| 0 <= i < s.len() && issues::is_p0(#[trigger] s[i]);
        assert(s[i].priority == "P0"@);
    }
}

/// A blocking issue is not revised without the council's agreement: without a
/// veto the revision's score must reach the mark.
pub proof fn revision_needs_agreement(
    k: KindV,
    bs: Seq<BallotV>,
    s: Seq<IssueV>,
    project: Seq<char>,
    chapter: u32,
    retry_count: u32,
    streak: u32,
    plan: Option<PlanV>,
)
    requires
        k.members.len() > 0,
        forall|i: int| 0 <= i < k.members.len() ==> !(#[trigger] k.members[i]).veto,
        decision_council::verdict(k, bs, s, project, chapter, retry_count, streak, plan).action
            == CouncilAction::AutoRevise,
    ensures
        decision_council::weighted_sum(k.members, bs, Side::Revise) >= k.min_score
            * decision_council::total_weight(k.members),
{
}

/// The consistency auditor approves exactly where nothing blocks and the audit
/// did not fail; a blocking issue makes it block with the ids of what blocks.
pub proof fn chair_votes_by_the_audit(data: JsonV, s: Seq<IssueV>)
    ensures
        ({
            let b = decision_council::consistency_ballot(data, s);
            let blocked = exists|i: int| 0 <= i < s.len() && (#[trigger] s[i]).priority == "P0"@;
            &&& b.agent == "consistency_auditor"@
            &&& b.vote == CouncilVote::Approve <==> !blocked && !data.denied(
                "consistency_passed"@,
            )
            &&& b.vote == CouncilVote::Revise <==> blocked || data.denied("consistency_passed"@)
            &&& b.severity == CouncilSeverity::Block <==> blocked
            &&& blocked ==> b.issue_refs == issues::ids_of(issues::p0_only(s))
            &&& decision_council::counts_for(b, Side::Revise) <==> b.vote == CouncilVote::Revise
            &&& decision_council::counts_for(b, Side::Approve) <==> b.vote == CouncilVote::Approve
            &&& blocked ==> b.score >= 90
        }),
{
    reveal_strlit("approve");
    reveal_strlit("fix");
    reveal_strlit("fix_all_p0");
    reveal_strlit("fix_all");
    assert("approve"@.len() == 7);
    assert("fix"@.len() == 3);
    assert("fix_all_p0"@.len() == 10);
    assert("fix_all"@.len() == 7);
    assert("approve"@[0] != "fix_all"@[0]);
    assert("fix_all_p0"@.subrange(0, 3) =~= "fix"@);
    assert("fix_all"@.subrange(0, 3) =~= "fix"@);
    assert("approve"@.subrange(0, 3)[0] == 'a');
    issues::p0_only_empty(s);
    if issues::some_p0(s) {
        let i = choose|i: int| 0 <= i < s.len() && issues::is_p0(#[trigger] s[i]);
        assert(s[i].priority == "P0"@);
    }
    if exists|i: int| 0 <= i < s.len() && (#[trigger] s[i]).priority == "P0"@ {
        let i = choose|i: int| 0 <= i < s.len() && (#[trigger] s[i]).priority == "P0"@;
        assert(issues::is_p0(s[i]));
    }
}

/// The advisers on pacing and plot never block, and vote to revise exactly where
/// their own look at the chapter failed.
pub proof fn advisers_never_block(data: JsonV)
    ensures
        ({
            let p = decision_council::pacing_ballot(data);
            let a = decision_council::plot_ballot(data);
            let plot = match data.bool("plot_accept_passed"@) {
                Some(x) => Some(x),
                None => data.bool("pass"@),
            };
            &&& p.agent == "pacing_reviewer"@ && a.agent == "plot_acceptor"@
            &&& p.severity != CouncilSeverity::Block && a.severity != CouncilSeverity::Block
            &&& p.vote == CouncilVote::Revise <==> data.denied("pacing_passed"@)
            &&& p.vote != CouncilVote::Revise ==> p.vote == CouncilVote::Abstain
            &&& a.vote == CouncilVote::Revise <==> plot == Some(false)
            &&& a.vote == CouncilVote::Approve <==> plot == Some(true)
            &&& a.vote == CouncilVote::Abstain <==> plot is None
        }),
{
}

/// The advisers on the council are heard where nothing blocks.
pub proof fn advisers_are_heard(k: KindV, data: JsonV, s: Seq<IssueV>)
    requires
        forall|i: int| 0 <= i < s.len() ==> (#[trigger] s[i]).priority != "P0"@,
    ensures
        ({
            let bs = decision_council::cast_ballots(k, data, s);
            let pacing = exists|i: int|
                0 <= i < k.members.len() && (#[trigger] k.members[i]).role == "pacing_reviewer"@;
            let plot = exists|i: int|
                0 <= i < k.members.len() && (#[trigger] k.members[i]).role == "plot_acceptor"@;
            &&& bs.len() == 1 + (if pacing {
                1int
            } else {
                0
            }) + (if plot {
                1int
            } else {
                0
            })
            &&& bs[0].agent == "consistency_auditor"@
            &&& pacing ==> bs[1] == decision_council::pacing_ballot(data)
            &&& plot ==> bs.last() == decision_council::plot_ballot(data)
        }),
{
    if issues::some_p0(s) {
        let i = choose|i: int| 0 <= i < s.len() && issues::is_p0(#[trigger] s[i]);
        assert(s[i].priority == "P0"@);
    }
}

/// A streak grows by one while a blocking kind comes back, starts at one with
/// new kinds, and ends where nothing blocks.
pub proof fn streaks_are_counted(
    prev: Seq<Seq<char>>,
    now: Seq<Seq<char>>,
    streak: u32,
    i: int,
    j: int,
)
    ensures
        now.len() == 0 ==> decision_council::next_streak(prev, now, streak) == 0,
        now.len() > 0 && (forall|x: Seq<char>| #[trigger] now.contains(x) ==> !prev.contains(x))
            ==> decision_council::next_streak(prev, now, streak) == 1,
        0 <= i < now.len() && 0 <= j < prev.len() && now[i] == prev[j] && 1 <= streak < u32::MAX
            ==> decision_council::next_streak(prev, now, streak) == streak + 1,
{
    if 0 <= i < now.len() && 0 <= j < prev.len() && now[i] == prev[j] {
        assert(prev.contains(now[i]));
        assert(decision_council::overlap(now, prev));
    }
    if decision_council::overlap(now, prev) {
        let n = choose|n: int| 0 <= n < now.len() && prev.contains(#[trigger] now[n]);
        assert(now.contains(now[n]));
    }
}

} // verus!
