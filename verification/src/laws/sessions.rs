//! How sessions, threads and sub-agents behave.

use vstd::prelude::*;

use crate::agent;
use crate::agent::registry;
use crate::agent::SpawnV;
use crate::dotenv;
use crate::features;
use crate::laws::reading;
use crate::progress;
use crate::prompts;
use crate::protocol::{MailV, UserInputV};
use crate::runtime;
use crate::runtime::{RunMode, StepOutcome};
use crate::server;
use crate::server::ScopeV;
use crate::session::handlers;
use crate::session::handlers::{OpV, SessionV};
use crate::studio_prompt;
use crate::text;
use crate::threads;
use crate::threads::{SpawnPlan, ThreadEntryV};

verus! {

/// Input to an idle session starts a turn of its own with it; input to a busy one
/// waits behind what waits already.
pub proof fn input_starts_or_waits(
    s: SessionV,
    sub_id: Seq<char>,
    fresh: Seq<char>,
    items: Seq<UserInputV>,
    skills: Seq<Seq<char>>,
)
    ensures
        handlers::step(s, sub_id, fresh, (OpV::UserInput { items, skills })) matches Ok(p) && {
            &&& s.running is None ==> {
                &&& p.1.start matches Some(t)
                &&& t.turn_id == sub_id && t.items == items && t.skills == skills
                &&& p.0 == (SessionV { running: Some(sub_id), ..s })
                &&& p.1.publish_phase
            }
            &&& s.running is Some ==> p.1.start is None && p.0 == (SessionV {
                waiting: s.waiting.push(items),
                ..s
            })
            &&& !p.1.abort && p.1.journal is None
        },
{
}

/// Steering says its text to the turn that it means; where another turn runs it is
/// refused.
pub proof fn steering_reaches_its_turn(
    s: SessionV,
    sub_id: Seq<char>,
    fresh: Seq<char>,
    said: Seq<char>,
    meant: Option<Seq<char>>,
)
    ensures
        ({
            let r = handlers::step(
                s,
                sub_id,
                fresh,
                (OpV::SteerTurn { text: said, turn_id: meant }),
            );
            let other = s.running is Some && meant is Some && s.running != meant;
            &&& other <==> r is Err
            &&& !other && s.running is Some ==> (r matches Ok(p) && p.0 == (SessionV {
                waiting: s.waiting.push(seq![UserInputV::Text { text: said }]),
                ..s
            }))
            &&& !other && s.running is None ==> (r matches Ok(p) && p.1.start is Some
                && p.1.start->0.items == seq![UserInputV::Text { text: said }])
        }),
{
}

/// An answer at a card is journalled with the card's turn and the option, and is said
/// as free words where there are any, or else as the option.
pub proof fn answers_are_said_and_journalled(
    s: SessionV,
    sub_id: Seq<char>,
    fresh: Seq<char>,
    turn_id: Seq<char>,
    option: Seq<char>,
    words: Option<Seq<char>>,
)
    ensures
        handlers::step(
            s,
            sub_id,
            fresh,
            (OpV::RespondUserInput { turn_id, option_id: option, free_text: words }),
        ) matches Ok(p) && {
            let said = match words {
                Some(w) => w,
                None => option,
            };
            &&& p.1.journal matches Some(j)
            &&& j.0 == turn_id && j.1 == option
            &&& text::ends(j.2, option)
            &&& j.3.text("option_id"@) == Some(option)
            &&& j.3.text("gate_turn_id"@) == Some(turn_id)
            &&& j.3.text("response_turn_id"@) == Some(sub_id)
            &&& words is Some ==> j.3.text("free_text"@) == words
            &&& s.running is None ==> p.1.start is Some && p.1.start->0.turn_id == sub_id
                && p.1.start->0.items == seq![UserInputV::Text { text: said }]
            &&& s.running is Some ==> p.0.waiting == s.waiting.push(
                seq![UserInputV::Text { text: said }],
            )
        },
{
    reading::put_reads_back();
    reading::joined_texts();
    reveal_strlit("option_id");
    reveal_strlit("free_text");
    reveal_strlit("gate_turn_id");
    reveal_strlit("response_turn_id");
    assert("option_id"@.len() == 9);
    assert("free_text"@.len() == 9);
    assert("gate_turn_id"@.len() == 12);
    assert("response_turn_id"@.len() == 16);
    assert("option_id"@[0] != "free_text"@[0]);
}

/// Interrupting stops the turn that is meant, or whatever runs where none is.
pub proof fn interrupting_stops(s: SessionV, sub_id: Seq<char>, fresh: Seq<char>, id: Option<Seq<char>>)
    ensures
        handlers::step(s, sub_id, fresh, (OpV::InterruptTurn { turn_id: id })) matches Ok(p) && {
            &&& p.1.abort && p.1.start is None
            &&& id is None || s.running == id ==> p.0 == (SessionV { running: None, ..s })
            &&& id is Some && s.running != id ==> p.0 == s
        },
{
}

/// A letter is kept; one that asks for it starts a turn with its words, unless a turn
/// runs already.
pub proof fn letters_are_kept(s: SessionV, sub_id: Seq<char>, fresh: Seq<char>, m: MailV)
    ensures
        handlers::step(
            s,
            sub_id,
            fresh,
            (OpV::InterAgentCommunication { communication: m }),
        ) matches Ok(p) && {
            &&& p.0.letters == s.letters.push(m)
            &&& p.0.waiting == s.waiting
            &&& m.trigger_turn && s.running is None ==> p.0.running == Some(fresh) && p.1.start
                is Some && p.1.start->0.turn_id == fresh && p.1.start->0.items
                == seq![UserInputV::Text { text: m.content }]
            &&& !m.trigger_turn || s.running is Some ==> p.0.running == s.running && p.1.start
                is None
        },
        handlers::step(s, sub_id, fresh, OpV::Shutdown) matches Ok(p) && p.0 == s && p.1.start
            is None && !p.1.abort,
{
}

/// A sub-agent that is started gets its task, its role's skill and the chapter; the
/// project is its own or else the parent's, and it lies one deeper than the parent.
pub proof fn started_agents_get_their_task(
    req: SpawnV,
    spawnable: bool,
    pipeline: bool,
    depth: Option<u32>,
    children: nat,
    project: Option<Seq<char>>,
)
    ensures
        ({
            let r = agent::spawn_decision(req, spawnable, pipeline, depth, children, project);
            let chapter_run = req.chapter is Some && (req.mode == Some("continue"@) || req.mode
                == Some("revise"@) || req.mode == Some("audit_only"@));
            &&& r is Ok <==> spawnable && (!chapter_run || pipeline) && depth is Some && depth->0
                < 4 && children < 32
            &&& r matches Ok(p) ==> {
                &&& p.depth == depth->0 + 1
                &&& p.role == req.role && p.task == req.task && p.chapter == req.chapter && p.mode
                    == req.mode && p.revision == req.revision
                &&& req.project is Some ==> p.project == req.project
                &&& req.project is None ==> p.project == project
                &&& p.items.len() == 2 && p.items[0] == (UserInputV::Text { text: req.task })
                &&& p.skills.len() == 1 && p.skills[0].len() == req.role.len() && forall|i: int|
                    0 <= i < req.role.len() ==> #[trigger] p.skills[0][i] == if req.role[i] == '_' {
                        '-'
                    } else {
                        req.role[i]
                    }
                &&& p.items[1] == (UserInputV::Skill { name: p.skills[0], path: None })
            }
            &&& r matches Err(e) ==> (!spawnable ==> text::occurs(e, req.role)) && (spawnable && (
            !chapter_run || pipeline) && depth is None ==> e == "unknown parent thread"@)
        }),
{
    reading::joined_texts();
}

/// A role that hosts others cannot be started, and says so by its name.
pub proof fn hosts_are_not_started(role: Seq<char>, how: Option<Seq<char>>)
    ensures
        registry::is_host_role(role) <==> role == "studio_agent"@ || role == "orchestrator"@
            || role.len() == 0,
        text::occurs(registry::denial(role, how), role),
        !registry::is_host_role(role) && how is Some ==> text::occurs(
            registry::denial(role, how),
            how->0,
        ),
{
    reading::joined_texts();
}

/// A sub-agent's run is of the project and chapter that it was given, in the mode that
/// it was given; writing where none is known.
pub proof fn runs_follow_the_job(mode: Option<Seq<char>>)
    ensures
        mode == Some("revise"@) ==> runtime::mode_of(mode) == RunMode::Revise,
        mode == Some("audit_only"@) ==> runtime::mode_of(mode) == RunMode::AuditOnly,
        mode == Some("continue"@) || mode is None ==> runtime::mode_of(mode) == RunMode::Continue,
{
    reveal_strlit("revise");
    reveal_strlit("audit_only");
    reveal_strlit("continue");
    assert("revise"@.len() == 6);
    assert("audit_only"@.len() == 10);
    assert("continue"@.len() == 8);
}

/// What a step came to is told: its own words, or that it completed; where it failed,
/// the error, and that it did not run.
pub proof fn steps_tell_their_outcome(role: Seq<char>, o: StepOutcome)
    ensures
        o matches StepOutcome::Failed { error } ==> {
            &&& text::begins(runtime::step_summary(role, o), role)
            &&& text::ends(runtime::step_summary(role, o), error@)
            &&& runtime::outcome_data(role, o).denied("step_ran"@)
            &&& runtime::outcome_data(role, o).text("error"@) == Some(error@)
        },
        o matches StepOutcome::Ran { said, run } ==> {
            &&& said is Some && said->0@.len() > 0 ==> runtime::step_summary(role, o) == said->0@
            &&& said is None ==> text::begins(runtime::step_summary(role, o), role)
            &&& runtime::outcome_data(role, o).flag("step_ran"@)
            &&& runtime::outcome_data(role, o).text("project"@) == Some(run.project@)
            &&& runtime::outcome_data(role, o).uint("chapter"@) == Some(run.chapter as u64)
            &&& runtime::outcome_data(role, o).text("summary"@) == Some(
                runtime::step_summary(role, o),
            )
            &&& runtime::outcome_data(role, o).get("consistency_passed"@) == Some(
                run.consistency_passed@,
            )
            &&& runtime::outcome_data(role, o).get("volume_ended"@) == Some(run.volume_ended@)
            &&& runtime::outcome_data(role, o).flag("needs_user_choice"@) == run.needs_user_choice
            &&& runtime::outcome_data(role, o).flag("plot_setting_blocker"@)
                == run.plot_setting_blocker
        },
{
    assert(o is Failed ==> text::begins(runtime::step_summary(role, o), role)) by {
        reading::begun_texts();
    }
    assert(o is Ran && o->said is None ==> text::begins(runtime::step_summary(role, o), role)) by {
        reading::begun_texts();
    }
    assert(o is Failed ==> text::ends(runtime::step_summary(role, o), o->error@)) by {
        reading::joined_texts();
    }
    reading::put_reads_back();
    reveal_strlit("step_ran");
    reveal_strlit("summary");
    reveal_strlit("project");
    reveal_strlit("chapter");
    reveal_strlit("error");
    reveal_strlit("consistency_passed");
    reveal_strlit("needs_user_choice");
    reveal_strlit("revision_applied_via_patch");
    reveal_strlit("report");
    reveal_strlit("status");
    reveal_strlit("volume_ended");
    reveal_strlit("volume_ended_name");
    reveal_strlit("volume_ended_start");
    reveal_strlit("volume_ended_end");
    reveal_strlit("plots_completed");
    reveal_strlit("plot_setting_blocker");
    assert("step_ran"@.len() == 8);
    assert("summary"@.len() == 7);
    assert("project"@.len() == 7);
    assert("chapter"@.len() == 7);
    assert("error"@.len() == 5);
    assert("consistency_passed"@.len() == 18);
    assert("needs_user_choice"@.len() == 17);
    assert("revision_applied_via_patch"@.len() == 26);
    assert("report"@.len() == 6);
    assert("status"@.len() == 6);
    assert("volume_ended"@.len() == 12);
    assert("volume_ended_name"@.len() == 17);
    assert("volume_ended_start"@.len() == 18);
    assert("volume_ended_end"@.len() == 16);
    assert("plots_completed"@.len() == 15);
    assert("plot_setting_blocker"@.len() == 20);
    assert("summary"@[0] != "project"@[0]);
    assert("summary"@[0] != "chapter"@[0]);
    assert("project"@[0] != "chapter"@[0]);
    assert("consistency_passed"@[0] != "volume_ended_start"@[0]);
    assert("needs_user_choice"@[0] != "volume_ended_name"@[0]);
    assert("report"@[0] != "status"@[0]);
}

/// What several said while a turn ran is one message: all that was said, in order,
/// without what is blank.
pub proof fn waiting_words_are_joined(a: Seq<char>, b: Seq<char>)
    requires
        text::trimmed(a).len() > 0,
        text::trimmed(b).len() > 0,
    ensures
        runtime::steer_message(seq![a, b]) == Some(a + "\n"@ + b),
        runtime::steer_message(seq![a]) == Some(a),
        runtime::steer_message(Seq::empty()) is None,
{
    let p = |t: Seq<char>| text::trimmed(t).len() > 0;
    reveal_with_fuel(text::filtered, 3);
    assert(seq![a, b].drop_last() =~= seq![a]);
    assert(seq![a].drop_last() =~= Seq::<Seq<char>>::empty());
    assert(text::filtered(seq![a], p) =~= seq![a]);
    assert(text::filtered(seq![a, b], p) =~= seq![a, b]);
    reveal_with_fuel(text::joined, 3);
}

/// One waits for a turn where one spoke to it, and only there.
pub proof fn who_waits_for_a_turn(op: OpV)
    ensures
        op is UserInput || op is SteerTurn || op is RespondUserInput ==> runtime::awaits_turn(op),
        op is InterruptTurn || op is Shutdown || op is InterAgentCommunication
            ==> !runtime::awaits_turn(op),
{
}

/// An event reaches exactly those whom it concerns.
pub proof fn events_reach_whom_they_concern(t: Seq<char>, parent: Option<Seq<char>>, id: Seq<char>)
    ensures
        server::heard_by(ScopeV::Thread(t), id) <==> t == id,
        server::heard_by(ScopeV::Agent { thread_id: t, parent }, id) <==> t == id || parent == Some(
            id,
        ),
        server::heard_by(ScopeV::Everyone { thread_id: parent }, id),
        server::addressee(ScopeV::Thread(t)) == Some(t),
        server::addressee(ScopeV::Agent { thread_id: t, parent }) == Some(t),
        server::addressee(ScopeV::Everyone { thread_id: parent }) == parent,
        text::occurs(server::no_project(t), t),
{
    reading::joined_texts();
}

/// A thread is taken over exactly by another root thread of its project.
pub proof fn project_has_one_root(v: Seq<ThreadEntryV>, id: Seq<char>, p: Seq<char>, i: int)
    ensures
        0 <= i < v.len() && v[i].id != id && v[i].project == Some(p) && v[i].root
            ==> threads::superseded(v, id, Some(p)),
        threads::superseded(v, id, Some(p)) ==> exists|j: int|
            0 <= j < v.len() && (#[trigger] v[j]).id != id && v[j].project == Some(p) && v[j].root,
        !threads::superseded(v, id, None),
{
    if 0 <= i < v.len() && v[i].id != id && v[i].project == Some(p) && v[i].root {
        assert(threads::takes_over(v[i], id, p));
    }
    if threads::superseded(v, id, Some(p)) {
        let j = choose|j: int| 0 <= j < v.len() && threads::takes_over(#[trigger] v[j], id, p);
        assert(v[j].id != id);
    }
}

/// A thread that starts afresh clears the project's old one; a root thread goes on
/// where one is stored; any other just begins.
pub proof fn threads_start_as_asked(project: bool, fresh: bool, root: bool, stored: bool)
    ensures
        fresh && project ==> threads::spawn_plan(project, fresh, root, stored)
            == SpawnPlan::ClearAndBegin,
        !fresh && project && root && stored ==> threads::spawn_plan(project, fresh, root, stored)
            == SpawnPlan::Resume,
        !project || (!fresh && !(root && stored)) ==> threads::spawn_plan(
            project,
            fresh,
            root,
            stored,
        ) == SpawnPlan::Begin,
{
}

/// A switch is what is configured for its key, first come; or else what is said where
/// nothing is.
pub proof fn switches_are_read(m: Seq<(Seq<char>, bool)>, key: Seq<char>, unset: bool, k: int)
    ensures
        0 <= k < m.len() && m[k].0 == key && (forall|j: int| 0 <= j < k ==> (#[trigger] m[j]).0 != key)
            ==> features::switch_or(m, key, unset) == m[k].1,
        (forall|j: int| 0 <= j < m.len() ==> (#[trigger] m[j]).0 != key) ==> features::switch_or(
            m,
            key,
            unset,
        ) == unset,
{
    if 0 <= k < m.len() && m[k].0 == key && (forall|j: int|
        0 <= j < k ==> (#[trigger] m[j]).0 != key) {
        switch_is_first(m, key, 0, k);
    }
    if forall|j: int| 0 <= j < m.len() ==> (#[trigger] m[j]).0 != key {
        no_switch(m, key, 0);
    }
}

proof fn switch_is_first(m: Seq<(Seq<char>, bool)>, key: Seq<char>, i: int, k: int)
    requires
        0 <= i <= k < m.len(),
        m[k].0 == key,
        forall|j: int| 0 <= j < k ==> (#[trigger] m[j]).0 != key,
    ensures
        features::switch_from(m, key, i) == Some(m[k].1),
    decreases k - i,
{
    if i < k {
        switch_is_first(m, key, i + 1, k);
    }
}

proof fn no_switch(m: Seq<(Seq<char>, bool)>, key: Seq<char>, i: int)
    requires
        0 <= i,
        forall|j: int| 0 <= j < m.len() ==> (#[trigger] m[j]).0 != key,
    ensures
        features::switch_from(m, key, i) is None,
    decreases m.len() - i,
{
    if i < m.len() {
        no_switch(m, key, i + 1);
    }
}

/// What a tool says at its end is added to what was streamed only where it was not
/// said already.
pub proof fn ending_is_not_repeated(streamed: Seq<char>, ending: Seq<char>)
    ensures
        ({
            let r = progress::closing_piece(streamed, ending);
            &&& ending.len() == 0 || text::occurs(streamed, text::trimmed(ending)) ==> r is None
            &&& r matches Some(t) ==> text::ends(t, ending)
            &&& streamed.len() == 0 && ending.len() > 0 && r is Some ==> r == Some(ending)
            &&& streamed.len() > 0 && r is Some ==> r == Some("\n"@ + ending)
            &&& ending.len() > 0 && !text::occurs(streamed, text::trimmed(ending))
                && !prompts::restated(streamed, ending) ==> r is Some
        }),
{
    reading::joined_texts();
    assert(ending.subrange(0, ending.len() as int) =~= ending);
}

/// A line sets a variable where it has the form `key=value`; a comment or a blank line
/// sets nothing.
pub proof fn lines_set_variables(key: Seq<char>, value: Seq<char>)
    requires
        key.len() > 0,
        value.len() > 0,
        key[0] != '#',
        forall|i: int|
            0 <= i < key.len() ==> #[trigger] key[i] != '=' && !text::is_space(key[i]),
        forall|i: int|
            0 <= i < value.len() ==> !text::is_space(#[trigger] value[i]) && value[i] != '"'
                && value[i] != '\'',
    ensures
        dotenv::line_sets(key + "="@ + value) == Some((key, value)),
        dotenv::line_sets("#"@ + key) is None,
        dotenv::line_sets(Seq::empty()) is None,
{
    reveal_strlit("=");
    reveal_strlit("#");
    let line = key + "="@ + value;
    bare_is_trimmed(line);
    bare_is_trimmed(key);
    bare_is_trimmed(value);
    let t = "#"@ + key;
    assert(!text::is_space('#'));
    assert(t[0] == '#');
    assert(text::trim_front(t) == t);
    text::trim_back_bare(t);
    assert(t.last() == key.last());
    assert(text::trim_back(t) == t);
    text::find_from_is_first(line, "="@, 0);
    assert(line.subrange(key.len() as int, key.len() as int + 1) =~= "="@);
    assert(text::occurs_at(line, "="@, key.len() as int));
    match text::find_from(line, "="@, 0) {
        Some(k) => {
            assert(line.subrange(k, k + 1)[0] == '=');
            assert(line[k] == '=');
            assert(k >= key.len());
            if k > key.len() {
                assert(!text::occurs_at(line, "="@, key.len() as int));
            }
            assert(line.take(k) =~= key);
            assert(line.skip(k + 1) =~= value);
        },
        None => {},
    }
    assert(text::front_off(value, '"') == value);
    assert(text::back_off(value, '"') == value);
    assert(text::front_off(value, '\'') == value);
    assert(text::back_off(value, '\'') == value);
}

proof fn bare_is_trimmed(s: Seq<char>)
    requires
        s.len() > 0,
        !text::is_space(s[0]),
        !text::is_space(s.last()),
    ensures
        text::trimmed(s) == s,
{
    assert(text::trim_front(s) == s);
    assert(text::trim_back(s) == s);
}

/// The model is told which project it works on, and given the skills that were called
/// and those that always stand.
pub proof fn model_is_told_its_project(
    project: Seq<char>,
    hints: Option<Seq<char>>,
    catalog: Seq<char>,
    studio: Seq<char>,
    draft: Seq<char>,
    called: Seq<studio_prompt::SkillText>,
)
    ensures
        text::occurs(studio_prompt::project_words(Some(project), hints), "《"@ + project + "》"@),
        hints is Some ==> text::occurs(
            studio_prompt::project_words(Some(project), hints),
            hints->0,
        ),
        text::trimmed(studio).len() > 0 ==> text::ends(
            studio_prompt::standing_skill("studio"@, studio),
            studio,
        ),
        text::trimmed(studio).len() == 0 ==> studio_prompt::standing_skill("studio"@, studio).len()
            == 0,
        called.len() > 0 && called.last().name@ != "studio"@ && called.last().name@
            != "novel-draft"@ ==> text::ends(
            studio_prompt::called_skills(called),
            called.last().body@,
        ) && text::occurs(studio_prompt::called_skills(called), called.last().name@),
        called.len() > 0 && (called.last().name@ == "studio"@ || called.last().name@
            == "novel-draft"@) ==> studio_prompt::called_skills(called)
            == studio_prompt::called_skills(called.drop_last()),
{
    named_in_words(project, hints);
    assert(text::ends(studio_prompt::skill_block("studio"@, studio), studio)) by {
        reading::joined_texts();
    }
    if called.len() > 0 {
        let k = called.last();
        let before = studio_prompt::called_skills(called.drop_last());
        let block = studio_prompt::skill_block(k.name@, k.body@);
        assert(text::ends(before + block, k.body@)) by {
            let all = before + block;
            assert(all.subrange(all.len() - k.body@.len(), all.len() as int) =~= k.body@);
        }
        assert(text::occurs(before + block, k.name@)) by {
            assert(text::occurs(block, k.name@)) by {
                reading::joined_texts();
            }
            let i = choose|i: int| text::occurs_at(block, k.name@, i);
            assert((before + block).subrange(before.len() + i, before.len() + i + k.name@.len())
                =~= block.subrange(i, i + k.name@.len()));
            assert(text::occurs_at(before + block, k.name@, before.len() + i));
        }
    }
}

proof fn named_in_words(project: Seq<char>, hints: Option<Seq<char>>)
    ensures
        text::occurs(studio_prompt::project_words(Some(project), hints), "《"@ + project + "》"@),
        hints is Some ==> text::occurs(
            studio_prompt::project_words(Some(project), hints),
            hints->0,
        ),
{
    let w = studio_prompt::project_words(Some(project), None);
    let all = studio_prompt::project_words(Some(project), hints);
    let mark = "《"@ + project + "》"@;
    reveal_strlit("《");
    reveal_strlit("》");
    reveal_strlit("当前会话已绑定项目《");
    let i = "当前会话已绑定项目《"@.len() - 1;
    first_of_long_words(project);
    assert(w.subrange(i, i + mark.len()) =~= mark);
    assert(all.subrange(i, i + mark.len()) =~= mark);
    assert(text::occurs_at(all, mark, i));
    if hints is Some {
        let h = "\n【当前项目长程 QA】\n"@ + hints->0
            + "\n若用户未否定，应在合适时机主动调用上述工具；汇报进度时须转述此建议。\n"@;
        assert(text::occurs(h, hints->0)) by {
            reading::joined_texts();
        }
        let k = choose|k: int| text::occurs_at(h, hints->0, k);
        assert(all == w + h);
        assert(all.subrange(w.len() + k, w.len() + k + hints->0.len()) =~= h.subrange(
            k,
            k + hints->0.len(),
        ));
        assert(text::occurs_at(all, hints->0, w.len() + k));
    }
}

proof fn first_of_long_words(project: Seq<char>)
    ensures
        ({
            let i = "当前会话已绑定项目《"@.len() + project.len();
            let w = studio_prompt::project_words(Some(project), None);
            i < w.len() && w[i as int] == '》'
        }),
{
    reveal_strlit(
        "》。用户指令默认针对此书。\n- 禁止无谓调用 list_projects（除非用户明确要「列出所有项目」）。\n- 「修正/扩写/重写/加长第N章」→ 立即 revise_chapter(project=\"",
    );
}

} // verus!
