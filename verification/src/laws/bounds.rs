//! How far the rules reach: what they take in, and what they leave out.

use vstd::prelude::*;

use crate::audit_decisions;
use crate::audit_offers;
use crate::audit_offers::AuditFixV;
use crate::chain;
use crate::chain::{EnvV, OfferKind};
use crate::chapter_offers;
use crate::confirm;
use crate::decision_council;
use crate::decision_council::{BallotV, CouncilSeverity, CouncilVote, MemberV, Side};
use crate::gates;
use crate::gates::{GateResolveV, GateV, VarsV};
use crate::intent;
use crate::intent::IntentV;
use crate::issues;
use crate::issues::IssueV;
use crate::json;
use crate::json::JsonV;
use crate::laws::reading;
use crate::laws::texts;
use crate::laws::volumes;
use crate::offers;
use crate::offers::{ContextV, OfferV, ScanV};
use crate::open_gate;
use crate::preview;
use crate::preview::{ArtifactText, PreviewParts, ProjectState};
use crate::prompts;
use crate::stage_picks;
use crate::stage_picks::HandoffEndV;
use crate::text;
use crate::thread_state::{MutationV, SettingBlockerV, ThreadV, VolumeHandoffV};
use crate::tool_loop;
use crate::tool_loop::SaidV;
use crate::volume;
use crate::volume::{FactsV, SetupStepV};
use crate::writing;
use crate::writing::NextChapter;

verus! {

// ---------------------------------------------------------------------------
// Requests
// ---------------------------------------------------------------------------

/// A kind of request takes a text exactly where its words stand in it and its call can
/// be put together for the bound project.
pub proof fn requests_need_their_words(
    spec: IntentV,
    t: Seq<char>,
    low: Seq<char>,
    project: Option<Seq<char>>,
)
    ensures
        intent::matched_by(spec, t, low, project) is Some <==> intent::keywords_hit(spec, t, low)
            && intent::built(spec, t, project) is Some,
        intent::matched_by(spec, t, low, project) is Some ==> intent::matched_by(
            spec,
            t,
            low,
            project,
        ) == intent::built(spec, t, project),
        project is None || project->0.len() == 0 || project->0 == "_"@ ==> intent::built(
            spec,
            t,
            project,
        ) is None,
{
}

/// A range that runs backwards is none, nor is one that starts at nothing.
pub proof fn ranges_run_forward(s: Seq<char>, i: int)
    ensures
        intent::range_at(s, i) matches Some(r) ==> 1 <= r.0 <= r.1,
        intent::range_from(s, i) matches Some(r) ==> 1 <= r.0 <= r.1,
    decreases s.len() - i,
{
    if 0 <= i < s.len() {
        ranges_run_forward(s, i + 1);
    }
}

/// A bare request to go on goes under its own name and starts a new conversation.
pub proof fn going_on_has_its_name(project: Option<Seq<char>>, asks: bool, n: NextChapter)
    ensures
        writing::bare_intent(project, asks, n) matches Some(m) ==> m.id == "bare_continue_write"@
            && m.clear_history == intent::ClearHistory::OnStart && asks && n.next_chapter is Some
            && n.draft_chars < n.draft_min_chars,
{
}

// ---------------------------------------------------------------------------
// The council
// ---------------------------------------------------------------------------

/// A veto is used exactly where a member that has one blocks in its own name, by voting
/// to revise or for the author.
pub proof fn vetoes_are_used_by_their_members(ms: Seq<MemberV>, bs: Seq<BallotV>, i: int, j: int)
    ensures
        0 <= i < ms.len() && ms[i].veto && 0 <= j < bs.len() && bs[j].agent == ms[i].role
            && bs[j].severity == CouncilSeverity::Block && (bs[j].vote == CouncilVote::Revise
            || bs[j].vote == CouncilVote::Escalate) ==> decision_council::vetoed(ms, bs),
        decision_council::vetoed(ms, bs) ==> exists|a: int, b: int|
            #![trigger ms[a], bs[b]]
            0 <= a < ms.len() && 0 <= b < bs.len() && ms[a].veto && bs[b].agent == ms[a].role
                && bs[b].severity == CouncilSeverity::Block && (bs[b].vote == CouncilVote::Revise
                || bs[b].vote == CouncilVote::Escalate),
{
    if 0 <= i < ms.len() && ms[i].veto && 0 <= j < bs.len() && bs[j].agent == ms[i].role
        && bs[j].severity == CouncilSeverity::Block && (bs[j].vote == CouncilVote::Revise
        || bs[j].vote == CouncilVote::Escalate) {
        assert(decision_council::is_block(bs[j], ms[i].role));
        assert(decision_council::blocks_as(bs, ms[i].role));
    }
    if decision_council::vetoed(ms, bs) {
        let a = choose|a: int|
            0 <= a < ms.len() && (#[trigger] ms[a]).veto && decision_council::blocks_as(
                bs,
                ms[a].role,
            );
        let b = choose|b: int|
            0 <= b < bs.len() && decision_council::is_block(#[trigger] bs[b], ms[a].role);
        assert(ms[a].veto && bs[b].agent == ms[a].role);
    }
}

/// The scores of the ballots: what blocks outweighs an approval, which outweighs advice.
pub proof fn ballots_are_scored(data: JsonV, s: Seq<IssueV>)
    ensures
        ({
            let c = decision_council::consistency_ballot(data, s);
            let p = decision_council::pacing_ballot(data);
            let a = decision_council::plot_ballot(data);
            &&& c.severity == CouncilSeverity::Block ==> c.score == 92
            &&& c.severity != CouncilSeverity::Block && c.vote == CouncilVote::Approve ==> c.score
                == 88
            &&& c.severity != CouncilSeverity::Block && c.vote == CouncilVote::Revise ==> c.score
                == 60
            &&& p.vote == CouncilVote::Revise ==> p.score == 55 && p.severity
                == CouncilSeverity::Warn
            &&& p.vote == CouncilVote::Abstain ==> p.score == 70
            &&& a.vote == CouncilVote::Approve ==> a.score == 80
            &&& a.vote == CouncilVote::Revise ==> a.score == 58 && a.severity
                == CouncilSeverity::Warn
            &&& a.vote == CouncilVote::Abstain ==> a.score == 50
            &&& c.severity == CouncilSeverity::Block ==> c.preferred_action == "fix_all_p0"@
            &&& c.severity != CouncilSeverity::Block && c.vote == CouncilVote::Revise
                ==> c.preferred_action == "fix_all"@
            &&& c.vote == CouncilVote::Approve ==> c.preferred_action == "approve"@
        }),
{
}

/// One more issue of a priority counts one more, any other none.
pub proof fn priorities_are_counted(s: Seq<IssueV>, x: IssueV, p: Seq<char>)
    ensures
        x.priority == p ==> issues::count_priority(s.push(x), p) == issues::count_priority(s, p) + 1,
        x.priority != p ==> issues::count_priority(s.push(x), p) == issues::count_priority(s, p),
        issues::count_priority(Seq::empty(), p) == 0,
{
    assert(s.push(x).drop_last() =~= s);
}

/// The prompt and the head of the checklist count what blocks and what is advised.
pub proof fn prompts_count_issues(s: Seq<IssueV>, n: u32, queue: bool)
    ensures
        text::begins(
            audit_decisions::fail_prompt(n, s, queue),
            "第"@ + text::dec(n as nat) + "章未通过（"@ + text::dec(
                issues::count_priority(s, "P0"@),
            ) + " 条阻断"@,
        ),
        text::begins(
            audit_decisions::checklist_head(s, n),
            "## 第"@ + text::dec(n as nat) + "章审校未通过\n\n阻断 **"@ + text::dec(
                issues::count_priority(s, "P0"@),
            ) + "** · 建议 **"@ + text::dec(issues::count_priority(s, "P1"@)) + "** · 共 "@
                + text::dec(s.len()),
        ),
        text::occurs(audit_decisions::fail_prompt(n, s, true), "审阅队列"@),
        audit_decisions::fail_prompt(n, s, true) != audit_decisions::fail_prompt(n, s, false),
{
    let a = "第"@ + text::dec(n as nat) + "章未通过（"@ + text::dec(issues::count_priority(s, "P0"@));
    let x = " 条阻断 · 审阅队列），请选择处理项："@;
    let y = " 条阻断），请选择处理项："@;
    reveal_strlit(" 条阻断");
    reveal_strlit(" 条阻断 · 审阅队列），请选择处理项：");
    reveal_strlit(" 条阻断），请选择处理项：");
    reveal_strlit("审阅队列");
    let mark = a + " 条阻断"@;
    assert((a + x).subrange(0, mark.len() as int) =~= mark);
    assert((a + y).subrange(0, mark.len() as int) =~= mark);
    assert((a + x).subrange(a.len() + 7int, a.len() + 11int) =~= "审阅队列"@);
    assert(text::occurs_at(a + x, "审阅队列"@, a.len() + 7int));
    assert((a + x).len() != (a + y).len());
    assert(text::begins(
        audit_decisions::checklist_head(s, n),
        "## 第"@ + text::dec(n as nat) + "章审校未通过\n\n阻断 **"@ + text::dec(
            issues::count_priority(s, "P0"@),
        ) + "** · 建议 **"@ + text::dec(issues::count_priority(s, "P1"@)) + "** · 共 "@
            + text::dec(s.len()),
    )) by {
        reading::begun_texts();
    }
}

/// The issues of an offered decision are those that it lists.
pub proof fn offered_issues_are_listed(opt: JsonV, ids: Seq<Seq<char>>)
    ensures
        opt.list("issue_ids"@) == Some(Seq::new(ids.len(), |i: int| JsonV::Text(ids[i])))
            ==> audit_decisions::offered_issues(opt) == ids,
        opt.list("issue_ids"@) is None ==> audit_decisions::offered_issues(opt).len() == 0,
        opt.get("action"@) is None && opt.text("choice"@) == Some("accept"@)
            ==> audit_decisions::offered_action(opt) == "accept"@,
        opt.get("action"@) is None && opt.get("choice"@) is None ==> audit_decisions::offered_action(
            opt,
        ) == "revise"@,
{
    texts_are_read(ids);
    plain_word("accept"@);
    plain_word("revise"@);
}

proof fn plain_word(w: Seq<char>)
    requires
        w == "accept"@ || w == "revise"@,
    ensures
        text::ascii_lowered(text::trimmed(w)) == w,
{
    reveal_strlit("accept");
    reveal_strlit("revise");
    texts::blanks_are_known(w[0]);
    texts::blanks_are_known(w.last());
    assert(text::trim_front(w) == w);
    assert(text::trim_back(w) == w);
    assert(text::ascii_lowered(w) =~= w);
}

proof fn texts_are_read(ids: Seq<Seq<char>>)
    ensures
        audit_decisions::texts_in(Seq::new(ids.len(), |i: int| JsonV::Text(ids[i]))) == ids,
    decreases ids.len(),
{
    let v = Seq::new(ids.len(), |i: int| JsonV::Text(ids[i]));
    if ids.len() > 0 {
        let r = ids.drop_last();
        texts_are_read(r);
        assert(v.drop_last() =~= Seq::new(r.len(), |i: int| JsonV::Text(r[i])));
        assert(v.last() == JsonV::Text(ids.last()));
        assert(r.push(ids.last()) =~= ids);
    }
}

// ---------------------------------------------------------------------------
// Answers
// ---------------------------------------------------------------------------

/// Words are not free at the card of an audit where they are short, stand on some button,
/// ask for work on a chapter, or the audit itself could not be carried out.
pub proof fn which_words_are_not_free(
    c: Seq<GateV>,
    answer: Seq<char>,
    project: Seq<char>,
    n: u32,
    queue: bool,
    infra: bool,
    g: int,
    o: int,
)
    requires
        ({
            let t = text::trimmed(answer);
            ||| infra
            ||| t.len() < 4
            ||| 0 <= g < c.len() && 0 <= o < c[g].options.len() && gates::named(c[g].options[o], t)
            ||| text::occurs(t, "章"@) && (text::occurs(t, "审校"@) || text::occurs(t, "修正"@)
                || text::occurs(t, "扩写"@) || text::occurs(t, "重写"@) || text::occurs(t, "续写"@)
                || text::occurs(t, "写第"@))
        }),
    ensures
        !(gates::resolved_audit(c, answer, project, n, queue, infra) matches Some(
            GateResolveV::SteerInstructions { .. },
        )),
{
    let t = text::trimmed(answer);
    if 0 <= g < c.len() && 0 <= o < c[g].options.len() && gates::named(c[g].options[o], t) {
        assert(gates::known(c, t));
    }
    let gate = gates::audit_gate_name(queue, infra);
    if gates::found(c, gate, answer) is Some {
        let found = gates::found(c, gate, answer)->0;
        let vars = VarsV { chapter: Some(n), ..VarsV::of_project(project) };
        assert(!(gates::materialized(found, vars) matches Some(
            GateResolveV::SteerInstructions { .. },
        )));
    }
}

/// A word steers where a button of an audit's card runs `steer_run` with that choice and
/// goes by the word.
pub proof fn steering_words_stand_on_buttons(
    c: Seq<GateV>,
    t: Seq<char>,
    choice: Seq<char>,
    gate: Seq<char>,
    i: int,
)
    requires
        text::trimmed(t) == t,
        t.len() > 0,
        gate == "audit"@ || gate == "audit_queue"@,
    ensures
        ({
            let opts = gates::options_of(c, gate);
            0 <= i < opts.len() && opts[i].tool == Some("steer_run"@) && opts[i].args is Some
                && opts[i].args->0.text("choice"@) == Some(choice) && (opts[i].id == t
                || opts[i].label == t || opts[i].aliases.contains(t)) ==> gates::steer_word(
                c,
                t,
                choice,
            )
        }),
        (forall|k: int|
            0 <= k < gates::options_of(c, "audit"@).len() ==> (#[trigger] gates::options_of(
                c,
                "audit"@,
            )[k]).tool != Some("steer_run"@)) && (forall|k: int|
            0 <= k < gates::options_of(c, "audit_queue"@).len() ==> (#[trigger] gates::options_of(
                c,
                "audit_queue"@,
            )[k]).tool != Some("steer_run"@)) ==> !gates::steer_word(c, t, choice),
        !gates::steer_word(c, Seq::empty(), choice),
{
    let opts = gates::options_of(c, gate);
    if 0 <= i < opts.len() && opts[i].tool == Some("steer_run"@) && opts[i].args is Some
        && opts[i].args->0.text("choice"@) == Some(choice) && gates::named(opts[i], t) {
        assert(gates::steers(opts[i], choice));
        assert(gates::gate_steers(c, gate, choice, t));
    }
    assert(text::trim_front(Seq::<char>::empty()) == Seq::<char>::empty());
}

/// A number on a card counts from one and has one or two digits.
pub proof fn numbers_count_buttons(n: nat, card: Seq<gates::UserInputOptionV>)
    requires
        1 <= n <= 99,
    ensures
        gates::one_based(text::dec(n)) == Some(n),
        n <= card.len() ==> gates::numbered_id(card, text::dec(n)) == Some(card[n - 1].id),
        n > card.len() ==> gates::numbered_id(card, text::dec(n)) is None,
        gates::one_based(Seq::empty()) is None,
{
    texts::written_numbers_are_read_back(n);
    let d = text::dec(n);
    if n >= 10 {
        texts::written_numbers_are_read_back(n / 10);
        assert(text::dec(n / 10).len() == 1);
    }
    texts::blanks_are_known(d[0]);
    texts::blanks_are_known(d.last());
    assert(text::is_digit(d[0]));
    assert(text::is_digit(d[d.len() - 1]));
    assert(text::trim_front(d) == d);
    assert(text::trim_back(d) == d);
    assert(text::trim_front(Seq::<char>::empty()) == Seq::<char>::empty());
}

/// The chapters of a look back are filled in as a list of them.
pub proof fn chapters_are_filled_in(vars: VarsV, v: Seq<u32>)
    requires
        vars.chapters == Some(v),
    ensures
        gates::rendered(JsonV::Text("{{chapters}}"@), vars) == JsonV::List(
            Seq::new(v.len(), |i: int| JsonV::Uint(v[i] as u64)),
        ),
{
    reveal_strlit("{{project}}");
    reveal_strlit("{{chapter}}");
    reveal_strlit("{{suggest_chapter}}");
    reveal_strlit("{{next_chapter}}");
    reveal_strlit("{{volume}}");
    reveal_strlit("{{chapters}}");
    assert("{{project}}"@.len() == 11);
    assert("{{chapter}}"@.len() == 11);
    assert("{{suggest_chapter}}"@.len() == 19);
    assert("{{next_chapter}}"@.len() == 16);
    assert("{{volume}}"@.len() == 10);
    assert("{{chapters}}"@.len() == 12);
    assert("{{project}}"@[2] != "{{chapter}}"@[2]);
}

/// What is left of a queue that is gone is told apart from other words: a button of the
/// queue, of a look back or of a failed audit, but not one that revises or accepts.
pub proof fn words_of_a_gone_queue(c: Seq<GateV>, t: Seq<char>, gate: Seq<char>, i: int)
    requires
        text::trimmed(t) == t,
        t.len() > 2,
        gate == "audit_queue"@ || gate == "volume_audit"@ || gate == "audit_infra"@,
        0 <= i < gates::options_of(c, gate).len(),
        gates::named(gates::options_of(c, gate)[i], t),
        gates::options_of(c, gate)[i].tool != Some("steer_run"@),
    ensures
        gates::stale_word(c, t),
{
    let o = gates::options_of(c, gate)[i];
    assert(!gates::steers(o, "revise"@) && !gates::steers(o, "accept"@));
    assert(gates::gate_stale(c, gate, t));
}

// ---------------------------------------------------------------------------
// Cards
// ---------------------------------------------------------------------------

/// An expected event that was looked at and needs a decision is asked about; after the
/// outline of a volume a look is asked for. Without an event there is nothing to decide.
pub proof fn looked_at_events_are_decided(
    s: ThreadV,
    args: JsonV,
    data: JsonV,
    project: Seq<char>,
)
    requires
        volumes::names_project(data, args, project),
    ensures
        data.flag("needs_user_choice"@) && data.text_or_empty("event_id"@).len() > 0 ==> (
        offers::expected_offer(s, "review_expected_events"@, args, data).1 matches OfferV::Ask(r)
            && r.project == project && (r.context matches ContextV::ExpectedEvent {
            kind,
            chapter,
            event_id,
            event_text,
        } && kind == "decide"@ && event_id == data.text_or_empty("event_id"@))),
        data.flag("needs_user_choice"@) && data.text_or_empty("event_id"@).len() == 0
            ==> offers::expected_offer(s, "review_expected_events"@, args, data).1 is Nothing,
        data.flag("offer_expected_review"@) ==> (offers::expected_offer(
            s,
            "design_arc_outline"@,
            args,
            data,
        ).1 matches OfferV::Ask(r) && (r.context matches ContextV::ExpectedEvent {
            kind,
            chapter,
            event_id,
            event_text,
        } && kind == "need_review"@)),
        !data.flag("offer_expected_review"@) ==> offers::expected_offer(
            s,
            "design_arc_outline"@,
            args,
            data,
        ).1 is Nothing,
{
    reveal_strlit("continue_writing");
    reveal_strlit("review_expected_events");
    reveal_strlit("design_arc_outline");
    assert("continue_writing"@.len() == 16);
    assert("review_expected_events"@.len() == 22);
    assert("design_arc_outline"@.len() == 18);
}

/// The request about a draft starts no rewrite of an outline, and names both chapters.
pub proof fn draft_requests_name_both(project: Seq<char>, n: u32, next: u32)
    ensures
        ({
            let r = offers::draft_request(project, n, next);
            &&& r.project == project && !r.outline_rewrite
            &&& r.context == (ContextV::DraftExists { chapter: n, suggest_chapter: next })
            &&& text::begins(r.reason, "第"@ + text::dec(n as nat) + "章已有未发布正文"@)
            &&& text::ends(r.reason, "写第"@ + text::dec(next as nat) + "章"@)
        }),
{
    let r = offers::draft_request(project, n, next).reason;
    reveal_strlit("章已有未发布正文");
    reveal_strlit("章已有未发布正文；可审校/修订本章，或写第");
    reveal_strlit("写第");
    let a = "第"@ + text::dec(n as nat) + "章已有未发布正文"@;
    let e = "写第"@ + text::dec(next as nat) + "章"@;
    assert(r.subrange(0, a.len() as int) =~= a);
    assert(r.subrange(r.len() - e.len(), r.len() as int) =~= e);
}

/// A volume goes by its number, and by its name where it has one.
pub proof fn volumes_go_by_number_and_name(n: u64, name: Seq<char>)
    ensures
        name.len() == 0 ==> volume::volume_label(n, name) == "第"@ + text::dec(n as nat) + "卷"@,
        name.len() > 0 ==> volume::volume_label(n, name) == "第"@ + text::dec(n as nat) + "卷「"@
            + name + "」"@,
{
}

/// The prompt at the end of a volume names it, its chapters and what is kept of it, and
/// warns of a gap in the settings.
pub proof fn volume_ends_are_told(data: JsonV, n: u64, memory: Seq<char>)
    ensures
        ({
            let p = volume::volume_end_prompt(data, n, memory);
            let label = volume::volume_label(n, data.text_or_empty("volume_ended_name"@));
            let ranged = data.uint("volume_ended_start"@) is Some && data.uint(
                "volume_ended_start"@,
            )->0 > 0 && data.uint("volume_ended_end"@) is Some && data.uint("volume_ended_end"@)->0
                > 0;
            &&& text::begins(p, label)
            &&& ranged ==> text::begins(
                p,
                label + "（第"@ + text::dec(data.uint("volume_ended_start"@)->0 as nat) + "–"@
                    + text::dec(data.uint("volume_ended_end"@)->0 as nat) + "章）"@,
            )
            &&& ranged && memory.len() > 0 ==> text::occurs(p, memory)
            &&& data.flag("plot_setting_blocker"@) ==> text::ends(
                p,
                "完成卷末选择后将请你处理设定缺口。"@,
            )
            &&& !data.flag("plot_setting_blocker"@) && (!ranged || memory.len() == 0) ==> text::ends(
                p,
                "已结束。请同步设定库，并确认卷记忆（防长程漂移）。"@,
            )
        }),
{
    let p = volume::volume_end_prompt(data, n, memory);
    let label = volume::volume_label(n, data.text_or_empty("volume_ended_name"@));
    let ranged = data.uint("volume_ended_start"@) is Some && data.uint("volume_ended_start"@)->0 > 0
        && data.uint("volume_ended_end"@) is Some && data.uint("volume_ended_end"@)->0 > 0;
    assert(text::begins(label, label)) by {
        assert(label.subrange(0, label.len() as int) =~= label);
    }
    assert(text::begins(p, label)) by {
        reading::begun_texts();
    }
    if ranged {
        assert(text::begins(
            p,
            label + "（第"@ + text::dec(data.uint("volume_ended_start"@)->0 as nat) + "–"@
                + text::dec(data.uint("volume_ended_end"@)->0 as nat) + "章）"@,
        )) by {
            reading::begun_texts();
        }
        if memory.len() > 0 {
            assert(text::occurs(p, memory)) by {
                reading::joined_texts();
            }
        }
    }
    if data.flag("plot_setting_blocker"@) {
        reveal_strlit("完成卷末选择后将请你处理设定缺口。");
        reveal_strlit(
            "\n\n⚠ 本卷剧情后设定审计出现 BLOCKER；完成卷末选择后将请你处理设定缺口。",
        );
        let e = "完成卷末选择后将请你处理设定缺口。"@;
        assert(p.subrange(p.len() - e.len(), p.len() as int) =~= e);
    } else if !ranged || memory.len() == 0 {
        reading::joined_texts();
    }
}

/// What the end of a volume puts off keeps the chapter, or else the volume's last.
pub proof fn put_off_gaps_keep_the_chapter(project: Seq<char>, data: JsonV)
    requires
        data.flag("plot_setting_blocker"@),
    ensures
        volume::deferred_blocker(project, data) matches Some(b) && {
            &&& b.project == project && b.offer_volume_handoff_after && !b.resume_chapter_next
            &&& !b.published && !b.plot_accept_open && !b.content_blocked && b.revise_instructions
                is None
            &&& data.uint("chapter"@) is Some && 0 < data.uint("chapter"@)->0 <= u32::MAX
                ==> b.chapter == data.uint("chapter"@)->0
            &&& data.uint("chapter"@) is None && data.uint("volume_ended_end"@) is Some && data.uint(
                "volume_ended_end"@,
            )->0 <= u32::MAX ==> b.chapter == data.uint("volume_ended_end"@)->0
            &&& data.text_or_empty("setting_blocker_detail"@).len() <= 240 ==> b.detail
                == data.text_or_empty("setting_blocker_detail"@)
            &&& b.detail.len() <= 240
        },
{
}

/// A look back asks nothing without a project, a choice or chapters.
pub proof fn looks_back_need_a_choice(s: ThreadV, tool: Seq<char>, args: JsonV, data: JsonV)
    requires
        tool != "audit_volume"@ || !data.flag("needs_user_choice"@) || data.list(
            "suggested_chapters"@,
        ) is None || (args.text_or_empty("project"@).len() == 0 && data.text_or_empty(
            "project"@,
        ).len() == 0),
    ensures
        volume::volume_audit_offer(s, tool, args, data) == (s, OfferV::Nothing),
{
}

/// The choice after a chapter is not taken up again without a project or chapter, for a
/// chapter that is not done with, or over another card; its prompt fits why it stopped.
pub proof fn choices_are_taken_up_where_due(s: ThreadV, c: Seq<GateV>, b: SettingBlockerV)
    ensures
        ({
            let after = chapter_offers::chapter_next_opened(s, c, b);
            &&& b.project.len() == 0 || b.chapter == 0 || s.outranks_chapter_next() || (!b.published
                && !b.content_blocked && b.revise_instructions is None) ==> after == (
                s,
                OfferV::Nothing,
            )
            &&& after.1 matches OfferV::Open(card) ==> {
                &&& b.published ==> card.prompt == prompts::published_prompt(
                    b.chapter,
                    b.plot_accept_open,
                )
                &&& !b.published && b.revise_instructions is Some && text::occurs(
                    b.revise_instructions->0,
                    "扩写到"@,
                ) ==> text::begins(
                    card.prompt,
                    "第"@ + text::dec(b.chapter as nat) + "章因字数未发布（"@,
                )
                &&& !b.published && b.revise_instructions is None ==> card.prompt
                    == chapter_offers::rule_stop_prompt(b.chapter)
            }
        }),
{
    reading::begun_texts();
}

/// Instructions to lengthen a chapter quote what the tool said about its length; those
/// about a rule what it said about the rule.
pub proof fn instructions_quote_the_tool(data: JsonV, n: u32, facts: chapter_offers::ChapterFactsV)
    requires
        data.text("length_status"@) == Some("hard_short"@),
    ensures
        ({
            let lines = prompts::length_lines(data.text_or_empty("message"@));
            let r = chapter_offers::revise_text(data, n, facts)->0;
            &&& lines.len() == 1 && lines[0].len() > 0 ==> text::ends(r, lines[0])
            &&& lines.len() == 0 ==> text::ends(r, "勿注水、勿另起主线。"@)
        }),
{
    let m = data.text_or_empty("message"@);
    let lines = prompts::length_lines(m);
    let r = prompts::length_text(facts.range_label, m);
    if lines.len() == 1 && lines[0].len() > 0 {
        assert(lines =~= seq![lines[0]]);
        assert(text::joined(prompts::first_three(lines), "；"@) == lines[0]);
        reading::joined_texts();
    } else if lines.len() == 0 {
        reveal_strlit("勿注水、勿另起主线。");
        reveal_strlit("字完整一章；保持情节与人物一致，补足场景与对话，勿注水、勿另起主线。");
        let e = "勿注水、勿另起主线。"@;
        assert(text::joined(prompts::first_three(lines), "；"@).len() == 0);
        assert(r.subrange(r.len() - e.len(), r.len() as int) =~= e);
    }
}

/// A line is about the length where it says so in one of the words for it.
pub proof fn lines_about_the_length(l: Seq<char>)
    ensures
        prompts::length_line(l) <==> text::occurs(l, "字数"@) || text::occurs(l, "偏短"@)
            || text::occurs(l, "硬门控"@),
        prompts::rule_message(l) <==> text::begins(l, "正文出现"@) || text::occurs(l, "禁名「"@)
            || text::occurs(l, "元叙述"@) || text::occurs(l, "[CONTRADICTION]"@) || text::occurs(
            l,
            "[NEW_FACT]"@,
        ),
        prompts::checklist_text(l) <==> text::occurs(text::trimmed(l), "### 问题清单"@) || (
        text::occurs(text::trimmed(l), "问题清单"@) && text::occurs(
            text::trimmed(l),
            "审校未通过"@,
        )),
{
}

/// The prompt about a rule lists each broken rule; without any it explains.
pub proof fn rule_prompts_list_the_rules(n: u32, message: Seq<char>)
    ensures
        ({
            let points = prompts::rule_points_in(message);
            let p = prompts::hard_rule_prompt(n, message);
            &&& points.len() == 1 ==> text::occurs(p, points[0])
            &&& points.len() > 0 ==> text::begins(
                p,
                "第"@ + text::dec(n as nat) + "章因硬规则未发布：\n"@,
            )
            &&& points.len() == 0 ==> text::begins(
                p,
                "第"@ + text::dec(n as nat) + "章因硬规则未发布（如"@,
            )
        }),
{
    let points = prompts::rule_points_in(message);
    let p = prompts::hard_rule_prompt(n, message);
    if points.len() == 0 {
        let a = "第"@ + text::dec(n as nat) + "章因硬规则未发布（如"@;
        reveal_strlit("章因硬规则未发布（如");
        reveal_strlit(
            "章因硬规则未发布（如正文出现「第N章」元叙述或禁名）。请选择：修正本章；也可点「其他」说明要求。",
        );
        assert(p.subrange(0, a.len() as int) =~= a);
    } else {
        assert(text::begins(p, "第"@ + text::dec(n as nat) + "章因硬规则未发布：\n"@)) by {
            reading::begun_texts();
        }
        if points.len() == 1 {
            assert(points =~= seq![points[0]]);
            assert(text::joined(points, "\n"@) == points[0]);
            assert(text::occurs(p, points[0])) by {
                reading::joined_texts();
            }
        }
    }
}

// ---------------------------------------------------------------------------
// Audits
// ---------------------------------------------------------------------------

/// The card of a failed audit has decisions for the queue where one runs: by its own
/// word or by the result's.
pub proof fn queue_decisions_need_a_queue(
    s: ThreadV,
    c: Seq<GateV>,
    args: JsonV,
    data: JsonV,
    found: Seq<IssueV>,
    running: bool,
    project: Seq<char>,
    n: u32,
)
    requires
        volumes::names_project(data, args, project),
        data.uint("chapter"@) == Some(n as u64),
        data.uint("volume_ended"@) is None,
        data.denied("consistency_passed"@),
        !data.flag("queue_finished"@) && !data.flag("queue_cancelled"@),
        !prompts::meta_only(data),
    ensures
        ({
            let after = audit_offers::audit_fix(
                s,
                c,
                "audit_chapters"@,
                args,
                data,
                found,
                running,
            );
            let queue = data.flag("queue_active"@) || running;
            &&& after.0.pending_audit matches Some(p)
            &&& p.decision_options == audit_decisions::fallback_decisions(project, n, found, queue)
            &&& after.1 matches AuditFixV::Open { card, todos }
            &&& todos == queue
        }),
{
}

/// What closes or is to be done is not lost along the way: the card of an audit that
/// closes is told where no later one does, and tasks shown by any offer are shown.
pub proof fn notices_are_not_lost(s: ThreadV, order: Seq<OfferKind>, i: int, e: EnvV)
    requires
        0 <= i < order.len(),
    ensures
        ({
            let n = chain::audit_notice(s, order[i], e);
            let r = chain::chained(s, order, i, e);
            &&& n.1 ==> r.1.todos
            &&& n.0 is Some ==> r.1.closed is Some
        }),
        order[i] != OfferKind::Audit ==> chain::audit_notice(s, order[i], e) == (
            None::<Seq<char>>,
            false,
        ),
{
}

/// A result that closes an audit is noticed, and one that does nothing is not.
pub proof fn audits_are_noticed(s: ThreadV, e: EnvV)
    ensures
        ({
            let f = audit_offers::audit_fix(
                s,
                e.catalog,
                e.tool,
                e.args,
                e.data,
                e.found,
                e.queue_running,
            );
            let n = chain::audit_notice(s, OfferKind::Audit, e);
            let o = chain::one_offer(s, OfferKind::Audit, e);
            &&& f.1 is Nothing ==> n == (None::<Seq<char>>, false) && o.1 is Nothing
            &&& f.1 matches AuditFixV::Dismissed { prompt, todos } ==> n == (Some(prompt), todos)
                && o.1 is Nothing
            &&& f.1 matches AuditFixV::Open { card, todos } ==> n.1 == todos && o.1 == OfferV::Open(
                card,
            )
            &&& o.0 == f.0
        }),
{
}

/// A checklist of the turn's own counts where another message than the closing one lists
/// issues.
pub proof fn own_checklists_are_found(
    items: Seq<JsonV>,
    turn_id: Seq<char>,
    item: Seq<char>,
    k: int,
)
    requires
        0 <= k < items.len(),
        items[k].text("type"@) == Some("agent_message"@),
        items[k].text("id"@) != Some(item),
        prompts::checklist_text(items[k].text_or_empty("text"@)),
    ensures
        tool_loop::has_own_checklist(
            JsonV::List(
                seq![
                    JsonV::empty_object().put("id"@, JsonV::Text(turn_id)).put(
                        "items"@,
                        JsonV::List(items),
                    ),
                ],
            ),
            turn_id,
            item,
        ),
        !tool_loop::has_own_checklist(JsonV::List(Seq::empty()), turn_id, item),
        !tool_loop::some_own_checklist(Seq::empty(), item),
        !tool_loop::has_own_checklist(JsonV::Null, turn_id, item),
        !tool_loop::has_own_checklist(JsonV::empty_object(), turn_id, item),
{
    reading::put_reads_back();
    reveal_strlit("id");
    reveal_strlit("items");
    assert("id"@.len() == 2);
    assert("items"@.len() == 5);
    let t = JsonV::empty_object().put("id"@, JsonV::Text(turn_id)).put(
        "items"@,
        JsonV::List(items),
    );
    let v = seq![t];
    assert(v[0] == t);
    assert(tool_loop::own_checklist(items[k], item));
    assert(tool_loop::some_own_checklist(items, item));
    assert(tool_loop::shows_own_checklist(v[0], turn_id, item));
    assert(tool_loop::some_turn_shows(v, turn_id, item));
}

// ---------------------------------------------------------------------------
// Volumes
// ---------------------------------------------------------------------------

/// What went wrong is kept short; what went well is told, and an activated card says that
/// writing can go on.
pub proof fn ends_of_steps_are_told(
    s: ThreadV,
    p: VolumeHandoffV,
    tool: Seq<char>,
    output: Seq<char>,
    data: JsonV,
)
    ensures
        stage_picks::handoff_error(data, output).len() <= 200,
        data.text("audit_summary"@) is None && data.text("schema_error"@) is Some && data.text(
            "schema_error"@,
        )->0.len() <= 200 ==> stage_picks::handoff_error(data, output) == data.text(
            "schema_error"@,
        )->0,
        ({
            let e = stage_picks::handoff_ended(s, Some(p), tool, output, data).1;
            &&& e matches HandoffEndV::Done(w) ==> text::occurs(w, output)
            &&& e matches HandoffEndV::Preview(w) ==> text::occurs(w, output)
            &&& tool == "design_plot"@ && data.flag("activated"@) && !data.flag("needs_confirm"@)
                && !data.flag("blocked"@) ==> (e matches HandoffEndV::Done(w) && text::ends(
                w,
                "剧情卡已激活，可 continue_writing 续写。"@,
            ))
        }),
{
    let e = stage_picks::handoff_ended(s, Some(p), tool, output, data).1;
    if e is Done {
        assert(text::occurs(e->Done_0, output)) by {
            reading::joined_texts();
        }
        if tool == "design_plot"@ && data.flag("activated"@) {
            let w = e->Done_0;
            reveal_strlit("剧情卡已激活，可 continue_writing 续写。");
            reveal_strlit("\n\n剧情卡已激活，可 continue_writing 续写。");
            let x = "剧情卡已激活，可 continue_writing 续写。"@;
            assert(w.subrange(w.len() - x.len(), w.len() as int) =~= x);
        }
    }
    if e is Preview {
        assert(text::occurs(e->Preview_0, output)) by {
            reading::joined_texts();
        }
    }
}

/// The memory of a volume is told as written only where the tool neither denied it nor
/// told an error.
pub proof fn kept_memory_is_told(intro: Seq<char>, output: Seq<char>, data: JsonV)
    ensures
        data.denied("ok"@) || data.get("error"@) is Some ==> stage_picks::memory_words(
            intro,
            output,
            data,
        ) == intro + "\n\n确认失败："@ + output,
        !data.denied("ok"@) && data.get("error"@) is None ==> text::begins(
            stage_picks::memory_words(intro, output, data),
            intro + "\n\n"@ + output + "\n\n卷记忆已写入。"@,
        ),
{
    if !data.denied("ok"@) && data.get("error"@) is None {
        let w = stage_picks::memory_words(intro, output, data);
        let a = intro + "\n\n"@ + output + "\n\n卷记忆已写入。"@;
        reveal_strlit("\n\n卷记忆已写入。");
        reveal_strlit(
            "\n\n卷记忆已写入。若设定库尚未同步，请继续选择「同步设定并确认卷记忆」或「跳过」。",
        );
        assert(w.subrange(0, a.len() as int) =~= a);
    }
}

// ---------------------------------------------------------------------------
// The overview
// ---------------------------------------------------------------------------

/// The state shown holds how far the project is, and no stored list of chapters.
pub proof fn state_tells_progress(s: ProjectState)
    requires
        s.value@ is Object,
    ensures
        preview::state_shown(Some(s)).uint("published_count"@) == Some(s.published_count as u64),
        preview::state_shown(Some(s)).uint("next_chapter"@) == Some(s.next_chapter as u64),
        preview::state_shown(None).uint("published_count"@) == Some(0u64),
        preview::state_shown(None).uint("next_chapter"@) == Some(1u64),
{
    reading::put_reads_back();
    reveal_strlit("published_count");
    reveal_strlit("next_chapter");
    assert("published_count"@.len() == 15);
    assert("next_chapter"@.len() == 12);
    assert(s.value@.dropped("chapters"@) is Object);
    assert(JsonV::empty_object().dropped("chapters"@) is Object);
}

/// A text among the artifacts is shown under its name; other files are not.
pub proof fn texts_among_artifacts_are_shown(v: Seq<ArtifactText>, a: ArtifactText)
    ensures
        a.ending@ == "md"@ || a.ending@ == "txt"@ ==> preview::artifacts_by_name(v.push(a)).text(
            a.stem@,
        ) == Some(a.shown@),
        a.ending@ != "md"@ && a.ending@ != "txt"@ ==> preview::artifacts_by_name(v.push(a))
            == preview::artifacts_by_name(v),
        preview::artifacts_by_name(Seq::empty()) == JsonV::empty_object(),
{
    assert(v.push(a).drop_last() =~= v);
    reading::put_reads_back();
    artifacts_are_object(v);
}

proof fn artifacts_are_object(v: Seq<ArtifactText>)
    ensures
        preview::artifacts_by_name(v) is Object,
    decreases v.len(),
{
    if v.len() > 0 {
        artifacts_are_object(v.drop_last());
        reading::put_reads_back();
    }
}

/// An outline counts as there where its text is more than a line; under its new name, or
/// its old one where there is no new.
pub proof fn outlines_count_where_written(artifacts: JsonV, s: Seq<char>)
    ensures
        preview::substantial(s) <==> text::encoded_len(text::trimmed(s)) > 20,
        artifacts.text("master_outline"@) == Some(s) ==> preview::either_substantial(
            artifacts,
            "master_outline"@,
            "master_planner"@,
        ) == preview::substantial(s),
        artifacts.get("master_outline"@) is None && artifacts.text("master_planner"@) == Some(s)
            ==> preview::either_substantial(artifacts, "master_outline"@, "master_planner"@)
            == preview::substantial(s),
        preview::outline_shown(None, artifacts).text("markdown"@) == Some(
            artifacts.text_or_empty("master_planner"@),
        ),
{
    reading::put_reads_back();
    reveal_strlit("markdown");
    reveal_strlit("acts");
    assert("markdown"@.len() == 8);
    assert("acts"@.len() == 4);
}

// ---------------------------------------------------------------------------
// What is taken up
// ---------------------------------------------------------------------------

/// A card about a draft needs a project and a chapter.
pub proof fn drafts_have_a_place(tool: Seq<char>, args: JsonV, data: JsonV)
    ensures
        args.text_or_empty("project"@).len() == 0 && data.text_or_empty("project"@).len() == 0
            ==> offers::draft_offer(tool, args, data) is Nothing,
        data.uint("chapter"@) is None || data.uint("chapter"@) == Some(0u64)
            ==> offers::draft_offer(tool, args, data) is Nothing,
{
}

/// The decisions offered are those of the result, or of the call where the result has
/// none.
pub proof fn offered_decisions_are_read(args: JsonV, data: JsonV, l: Seq<JsonV>)
    ensures
        data.list("options"@) == Some(l) ==> audit_offers::raw_options(args, data) == l,
        data.get("options"@) is None && args.list("options"@) == Some(l)
            ==> audit_offers::raw_options(args, data) == l,
        data.get("options"@) is None && args.get("options"@) is None ==> audit_offers::raw_options(
            args,
            data,
        ).len() == 0,
{
}

/// The step between volumes that stands open asks for the outline of the volume first and
/// for its first plot card after that.
pub proof fn steps_between_volumes_ask(
    s: ThreadV,
    c: Seq<GateV>,
    step: SetupStepV,
    queue: bool,
    h: VolumeHandoffV,
)
    requires
        s == (ThreadV { pending_volume_handoff: Some(h), ..ThreadV::idle(s.project) }),
    ensures
        ({
            let g = open_gate::open_gate_of(s, c, step, queue);
            &&& h.phase == "awaiting_next_arc"@ ==> g is Some && g->0.kind == "volume_handoff_arc"@
                && g->0.prompt == "卷间交接：请先设计第"@ + text::dec(h.volume as nat)
                + "卷卷纲，再开剧情卡写章。"@
            &&& h.phase == "awaiting_next_plot"@ ==> g is Some && g->0.kind
                == "volume_handoff_plot"@ && g->0.prompt == "卷间交接：第"@ + text::dec(
                h.volume as nat,
            ) + "卷卷纲已就绪，请设计并激活开局剧情卡。"@
        }),
{
    reveal_strlit("awaiting_next_arc");
    reveal_strlit("awaiting_next_plot");
    assert("awaiting_next_arc"@.len() == 17);
    assert("awaiting_next_plot"@.len() == 18);
}

/// A turn is closed by the last words of the model that say something and are no
/// checklist.
pub proof fn turns_are_closed_by_last_words(v: Seq<SaidV>, n: int, i: int)
    requires
        0 <= i < n <= v.len(),
        v[i].role == "assistant"@,
        text::trimmed(v[i].content).len() > 0,
        !prompts::checklist_text(v[i].content),
        forall|k: int|
            i < k < n ==> (#[trigger] v[k]).role != "assistant"@ || text::trimmed(
                v[k].content,
            ).len() == 0 || prompts::checklist_text(v[k].content),
    ensures
        tool_loop::last_closing(v, n) == Some(v[i].content),
    decreases n,
{
    if i < n - 1 {
        assert(!tool_loop::can_close(v[n - 1]));
        turns_are_closed_by_last_words(v, n - 1, i);
    }
}

/// Where no message can close a turn, nothing does.
pub proof fn turns_without_words_stay_open(v: Seq<SaidV>, n: int)
    requires
        0 <= n <= v.len(),
        forall|k: int|
            0 <= k < n ==> (#[trigger] v[k]).role != "assistant"@ || text::trimmed(
                v[k].content,
            ).len() == 0 || prompts::checklist_text(v[k].content),
    ensures
        tool_loop::last_closing(v, n) is None,
    decreases n,
{
    if n > 0 {
        assert(!tool_loop::can_close(v[n - 1]));
        turns_without_words_stay_open(v, n - 1);
    }
}

/// Where the tool had no message about a broken rule, its report is gone by.
pub proof fn reports_stand_in_for_messages(
    data: JsonV,
    n: u32,
    facts: chapter_offers::ChapterFactsV,
    any: Seq<char>,
)
    requires
        !prompts::length_blocked(data),
        data.flag("content_rule_blocked"@),
        text::trimmed(data.text_or_empty("report"@)).len() > 0,
    ensures
        text::trimmed(data.text_or_empty("message"@)).len() == 0 ==> chapter_offers::revise_text(
            data,
            n,
            facts,
        ) == Some(
            prompts::hard_rule_text(
                n,
                data.text_or_empty("report"@),
                any,
                text::lines_of(facts.draft),
                facts.line_rules,
            ),
        ),
        text::trimmed(data.text_or_empty("message"@)).len() > 0 ==> chapter_offers::revise_text(
            data,
            n,
            facts,
        ) == Some(
            prompts::hard_rule_text(
                n,
                data.text_or_empty("message"@),
                any,
                text::lines_of(facts.draft),
                facts.line_rules,
            ),
        ),
{
}

/// Only the first six issues of a report give advice.
pub proof fn six_issues_give_advice(long: JsonV, short: JsonV, v: Seq<JsonV>)
    requires
        v.len() >= 6,
        long.list("issues"@) == Some(v),
        short.list("issues"@) == Some(v.take(6)),
    ensures
        prompts::report_tips(long) == prompts::report_tips(short),
        prompts::report_tips(long).len() <= 6,
{
    advice_of_the_first(v, 6);
}

proof fn advice_of_the_first(v: Seq<JsonV>, n: nat)
    requires
        n <= 6 <= v.len(),
    ensures
        prompts::tips_of(v, n) == prompts::tips_of(v.take(6), n),
        prompts::tips_of(v, n).len() <= n,
    decreases n,
{
    if n > 0 {
        advice_of_the_first(v, (n - 1) as nat);
    }
}

/// The step between volumes is not asked about without a project, where the order of
/// steps is not kept, or while another decision is open.
pub proof fn steps_between_volumes_wait(
    s: ThreadV,
    enforce: bool,
    c: Seq<GateV>,
    tool: Seq<char>,
    args: JsonV,
    data: JsonV,
    facts: FactsV,
)
    requires
        !enforce || (args.text_or_empty("project"@).len() == 0 && data.text_or_empty(
            "project"@,
        ).len() == 0) || s.pending_audit is Some || s.pending_volume_audit is Some
            || s.pending_setup is Some,
    ensures
        volume::handoff_offer(s, enforce, c, tool, args, data, facts) == (s, OfferV::Nothing),
{
}

/// A change is shown with its differences; without any, alone, where it has text or
/// fields.
pub proof fn changes_show_their_differences(m: MutationV, c: Seq<GateV>, d: JsonV)
    ensures
        m.preview.get("diffs"@) == Some(d) ==> confirm::change_card(m, c).preview == Some(
            (m.preview, d),
        ) && offers::shown_preview(m.preview) == Some((m.preview, d)),
        m.preview.get("diffs"@) is None ==> confirm::change_card(m, c).preview == Some(
            (m.preview, JsonV::List(Seq::empty())),
        ),
        m.preview.get("diffs"@) is None && (m.preview.get("markdown"@) is Some || m.preview.get(
            "fields"@,
        ) is Some) ==> offers::shown_preview(m.preview) == Some(
            (m.preview, JsonV::List(Seq::empty())),
        ),
        m.preview.get("diffs"@) is None && m.preview.get("markdown"@) is None && m.preview.get(
            "fields"@,
        ) is None ==> offers::shown_preview(m.preview) is None,
{
}

/// The overview lists each kind of entity under its name.
pub proof fn entities_are_listed(p: PreviewParts)
    ensures
        preview::entities_shown(p).list("characters"@) == Some(json::items(p.characters@)),
        preview::entities_shown(p).list("items"@) == Some(json::items(p.items@)),
        preview::entities_shown(p).list("locations"@) == Some(json::items(p.locations@)),
{
    reading::put_reads_back();
    reveal_strlit("characters");
    reveal_strlit("items");
    reveal_strlit("locations");
    assert("characters"@.len() == 10);
    assert("items"@.len() == 5);
    assert("locations"@.len() == 9);
}

/// A model that looks things up again is sent to the chapter; one that repeats another
/// call is told which.
pub proof fn repeated_calls_are_named(tool: Seq<char>)
    ensures
        tool == "query_lore"@ ==> text::begins(
            tool_loop::instead_of(tool),
            "停止重复 query_lore。"@,
        ),
        tool != "query_lore"@ ==> text::begins(
            tool_loop::instead_of(tool),
            "停止重复调用 "@ + tool,
        ),
{
    if tool == "query_lore"@ {
        reveal_strlit("停止重复 query_lore。");
        reveal_strlit(
            "停止重复 query_lore。它只返回设定上下文，不含正文。若要核对时间线/伤势/能力位置，请立即调用 read_chapter；若要修订请调用 revise_chapter / steer_run。不要再 query_lore。",
        );
        assert(tool_loop::instead_of(tool).subrange(0, 16) =~= "停止重复 query_lore。"@);
    } else {
        reading::begun_texts();
    }
}

/// Dependent places that wait for a decision put off the cards of the setup, of chapters
/// and their order, of the step between volumes and of the next steps, and leave an audit
/// and a change as they were; without any there is nothing to decide.
pub proof fn impact_puts_cards_off(
    s: ThreadV,
    enabled: bool,
    c: Seq<GateV>,
    tool: Seq<char>,
    args: JsonV,
    data: JsonV,
    scan: ScanV,
)
    ensures
        ({
            let after = offers::impact_offer(s, enabled, c, tool, args, data, scan);
            after.1 is Open ==> {
                &&& !after.0.awaiting_studio_next && after.0.pending_studio_next is None
                &&& after.0.pending_setup is None && after.0.pending_chapter_next is None
                &&& after.0.pending_chapter_order is None && after.0.pending_volume_handoff is None
                &&& after.0.pending_audit == s.pending_audit && after.0.pending_mutation
                    == s.pending_mutation
                &&& after.0.pending_impact is Some && (after.0.pending_impact->0).hits == scan.hits
            }
        }),
        scan.hits.len() == 0 || scan.source is None ==> offers::impact_offer(
            s,
            enabled,
            c,
            tool,
            args,
            data,
            scan,
        ) == (s, OfferV::Nothing),
{
}

/// A council without members has no score.
pub proof fn empty_councils_score_nothing(bs: Seq<BallotV>, side: Side, ms: Seq<MemberV>)
    ensures
        decision_council::rounded_score(Seq::empty(), bs, side) == 0,
        ms.len() > 0 ==> decision_council::rounded_score(ms, bs, side)
            == decision_council::rounded(
            decision_council::weighted_sum(ms, bs, side),
            decision_council::total_weight(ms),
        ),
{
}

} // verus!
