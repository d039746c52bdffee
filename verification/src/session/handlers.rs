//! What a submission does to a thread's session. Running a turn never blocks
//! the submissions behind it: a turn is started and left to run.

use vstd::prelude::*;

use crate::json::{Json, JsonV};
use crate::protocol;
use crate::protocol::{InterAgentCommunication, MailV, UserInput, UserInputV};
use crate::session::input_queue;
use crate::session::input_queue::{InputQueue, TurnInput};
use crate::session::TurnGate;
use crate::text;

verus! {

/// A submission to a thread.
#[allow(inconsistent_fields)]
pub enum Op {
    InterruptTurn { turn_id: Option<String> },
    UserInput { items: Vec<UserInput>, skills: Vec<String> },
    SteerTurn { text: String, turn_id: Option<String> },
    RespondUserInput { turn_id: String, option_id: String, free_text: Option<String> },
    InterAgentCommunication { communication: InterAgentCommunication },
    Shutdown,
    /// A submission that was handled before it reached the thread.
    HandledElsewhere,
}

/// A submission by contents.
#[allow(inconsistent_fields)]
pub enum OpV {
    InterruptTurn { turn_id: Option<Seq<char>> },
    UserInput { items: Seq<UserInputV>, skills: Seq<Seq<char>> },
    SteerTurn { text: Seq<char>, turn_id: Option<Seq<char>> },
    RespondUserInput {
        turn_id: Seq<char>,
        option_id: Seq<char>,
        free_text: Option<Seq<char>>,
    },
    InterAgentCommunication { communication: MailV },
    Shutdown,
    HandledElsewhere,
}

impl View for Op {
    type V = OpV;

    open spec fn view(&self) -> OpV {
        match self {
            Op::InterruptTurn { turn_id } => OpV::InterruptTurn {
                turn_id: text::opt_text(*turn_id),
            },
            Op::UserInput { items, skills } => OpV::UserInput {
                items: protocol::input_list(items@),
                skills: text::texts(skills@),
            },
            Op::SteerTurn { text, turn_id } => OpV::SteerTurn {
                text: text@,
                turn_id: text::opt_text(*turn_id),
            },
            Op::RespondUserInput { turn_id, option_id, free_text } => OpV::RespondUserInput {
                turn_id: turn_id@,
                option_id: option_id@,
                free_text: text::opt_text(*free_text),
            },
            Op::InterAgentCommunication { communication } => OpV::InterAgentCommunication {
                communication: communication@,
            },
            Op::Shutdown => OpV::Shutdown,
            Op::HandledElsewhere => OpV::HandledElsewhere,
        }
    }
}

/// A turn to start.
pub struct TurnStart {
    pub turn_id: String,
    pub items: Vec<UserInput>,
    pub skills: Vec<String>,
}

/// A turn to start, by contents.
pub struct TurnStartV {
    pub turn_id: Seq<char>,
    pub items: Seq<UserInputV>,
    pub skills: Seq<Seq<char>>,
}

impl View for TurnStart {
    type V = TurnStartV;

    open spec fn view(&self) -> TurnStartV {
        TurnStartV {
            turn_id: self.turn_id@,
            items: protocol::input_list(self.items@),
            skills: text::texts(self.skills@),
        }
    }
}

/// An answer to a gate, for the journal.
pub struct GateAnswer {
    pub gate_turn_id: String,
    pub option_id: String,
    pub summary: String,
    pub data: Json,
}

/// What a submission asks for beyond the session itself.
pub struct Outcome {
    /// Stop the running turn.
    pub abort: bool,
    /// Tell clients whether a turn is running.
    pub publish_phase: bool,
    /// Put an answer into the journal.
    pub journal: Option<GateAnswer>,
    /// Start a turn.
    pub start: Option<TurnStart>,
}

/// A session: the running turn and what waits.
pub struct Session {
    pub gate: TurnGate,
    pub queue: InputQueue,
}

/// A session by contents.
pub struct SessionV {
    pub running: Option<Seq<char>>,
    pub waiting: Seq<Seq<UserInputV>>,
    pub letters: Seq<MailV>,
}

impl View for Session {
    type V = SessionV;

    open spec fn view(&self) -> SessionV {
        SessionV {
            running: self.gate@,
            waiting: self.queue.waiting(),
            letters: self.queue.letters(),
        }
    }
}

/// What a submission asks for, by contents.
pub struct OutcomeV {
    pub abort: bool,
    pub publish_phase: bool,
    pub journal: Option<(Seq<char>, Seq<char>, Seq<char>, JsonV)>,
    pub start: Option<TurnStartV>,
}

impl View for Outcome {
    type V = OutcomeV;

    open spec fn view(&self) -> OutcomeV {
        OutcomeV {
            abort: self.abort,
            publish_phase: self.publish_phase,
            journal: match self.journal {
                Some(a) => Some((a.gate_turn_id@, a.option_id@, a.summary@, a.data@)),
                None => None,
            },
            start: match self.start {
                Some(s) => Some(s@),
                None => None,
            },
        }
    }
}

/// Nothing is asked for.
pub open spec fn quiet() -> OutcomeV {
    OutcomeV { abort: false, publish_phase: false, journal: None, start: None }
}

/// Input starts a turn where none is running, and waits otherwise.
pub open spec fn input_step(
    s: SessionV,
    turn_id: Seq<char>,
    items: Seq<UserInputV>,
    skills: Seq<Seq<char>>,
) -> (SessionV, OutcomeV) {
    if s.running is Some {
        (SessionV { waiting: s.waiting.push(items), ..s }, quiet())
    } else {
        (
            SessionV { running: Some(turn_id), ..s },
            OutcomeV {
                publish_phase: true,
                start: Some(TurnStartV { turn_id, items, skills }),
                ..quiet()
            },
        )
    }
}

/// One text as input.
pub open spec fn text_input(t: Seq<char>) -> Seq<UserInputV> {
    seq![UserInputV::Text { text: t }]
}

/// What the journal keeps of an answer.
pub open spec fn answer_data(
    gate_turn_id: Seq<char>,
    option_id: Seq<char>,
    free_text: Option<Seq<char>>,
    sub_id: Seq<char>,
) -> JsonV {
    JsonV::empty_object().put("option_id"@, JsonV::Text(option_id)).put(
        "free_text"@,
        match free_text {
            Some(t) => JsonV::Text(t),
            None => JsonV::Null,
        },
    ).put("gate_turn_id"@, JsonV::Text(gate_turn_id)).put(
        "response_turn_id"@,
        JsonV::Text(sub_id),
    )
}

/// A steering text that names another turn than the running one is refused.
pub open spec fn steer_mismatch(running: Option<Seq<char>>, expected: Option<Seq<char>>) -> bool {
    running is Some && expected is Some && running != expected
}

/// What a submission does to a session. `sub_id` names the submission, `fresh`
/// a turn that a letter may start.
pub open spec fn step(s: SessionV, sub_id: Seq<char>, fresh: Seq<char>, op: OpV) -> Result<
    (SessionV, OutcomeV),
    Seq<char>,
> {
    match op {
        OpV::InterruptTurn { turn_id } => Ok(
            (
                SessionV {
                    running: if turn_id is None || s.running == turn_id {
                        None
                    } else {
                        s.running
                    },
                    ..s
                },
                OutcomeV { abort: true, publish_phase: true, ..quiet() },
            ),
        ),
        OpV::UserInput { items, skills } => Ok(input_step(s, sub_id, items, skills)),
        OpV::SteerTurn { text, turn_id } => if steer_mismatch(s.running, turn_id) {
            Err(
                "steer turn mismatch: expected "@ + turn_id->0 + ", active "@ + s.running->0,
            )
        } else {
            Ok(input_step(s, sub_id, text_input(text), Seq::empty()))
        },
        OpV::RespondUserInput { turn_id, option_id, free_text } => {
            let said = match free_text {
                Some(t) => t,
                None => option_id,
            };
            let next = input_step(s, sub_id, text_input(said), Seq::empty());
            Ok(
                (
                    next.0,
                    OutcomeV {
                        journal: Some(
                            (
                                turn_id,
                                option_id,
                                "gate responded: "@ + option_id,
                                answer_data(turn_id, option_id, free_text, sub_id),
                            ),
                        ),
                        ..next.1
                    },
                ),
            )
        },
        OpV::InterAgentCommunication { communication } => {
            let held = SessionV { letters: s.letters.push(communication), ..s };
            if !communication.trigger_turn || s.running is Some {
                Ok((held, quiet()))
            } else {
                Ok(
                    (
                        SessionV { running: Some(fresh), ..held },
                        OutcomeV {
                            publish_phase: true,
                            start: Some(
                                TurnStartV {
                                    turn_id: fresh,
                                    items: text_input(communication.content),
                                    skills: Seq::empty(),
                                },
                            ),
                            ..quiet()
                        },
                    ),
                )
            }
        },
        OpV::Shutdown | OpV::HandledElsewhere => Ok((s, quiet())),
    }
}

fn no_outcome() -> (r: Outcome)
    ensures
        r@ == quiet(),
{
    Outcome { abort: false, publish_phase: false, journal: None, start: None }
}

impl Session {
    /// No turn is running and nothing waits.
    pub fn new() -> (r: Session)
        ensures
            r@ == (SessionV { running: None, waiting: Seq::empty(), letters: Seq::empty() }),
    {
        Session { gate: TurnGate::new(), queue: InputQueue::new() }
    }

    /// Starts a turn with the input, or lets it wait for the running one.
    pub fn user_input_or_turn(
        &mut self,
        turn_id: String,
        items: Vec<UserInput>,
        skills: Vec<String>,
    ) -> (r: Outcome)
        ensures
            (final(self)@, r@) == input_step(
                old(self)@,
                turn_id@,
                protocol::input_list(items@),
                text::texts(skills@),
            ),
    {
        let ghost before = self@;
        let ghost given = protocol::input_list(items@);
        if !self.gate.try_begin(turn_id.clone()) {
            let mut list: Vec<TurnInput> = Vec::new();
            list.push(TurnInput::UserInput { content: items });
            proof {
                assert(input_queue::turn_inputs(list@) =~= seq![given]);
            }
            self.queue.extend_pending_input(list);
            assert(before.waiting + seq![given] =~= before.waiting.push(given));
            return no_outcome();
        }
        Outcome {
            abort: false,
            publish_phase: true,
            journal: None,
            start: Some(TurnStart { turn_id, items, skills }),
        }
    }

    /// Takes a letter, and starts a turn with it where it asks for one and none
    /// is running.
    pub fn handle_mailbox(&mut self, mail: InterAgentCommunication, fresh: String) -> (r: Outcome)
        ensures
            step(
                old(self)@,
                Seq::empty(),
                fresh@,
                (OpV::InterAgentCommunication { communication: mail@ }),
            ) == Ok::<(SessionV, OutcomeV), Seq<char>>((final(self)@, r@)),
    {
        let trigger = mail.trigger_turn;
        let said = mail.content.clone();
        self.queue.enqueue_mailbox(mail);
        if !trigger || !self.gate.try_begin(fresh.clone()) {
            return no_outcome();
        }
        let none: Vec<String> = Vec::new();
        assert(text::texts(none@) =~= Seq::<Seq<char>>::empty());
        Outcome {
            abort: false,
            publish_phase: true,
            journal: None,
            start: Some(
                TurnStart { turn_id: fresh, items: protocol::one_text(said.as_str()), skills: none },
            ),
        }
    }

    /// Handles one submission.
    pub fn dispatch_one(&mut self, sub_id: String, fresh: String, op: Op) -> (r: Result<
        Outcome,
        String,
    >)
        ensures
            match r {
                Ok(o) => step(old(self)@, sub_id@, fresh@, op@) == Ok::<
                    (SessionV, OutcomeV),
                    Seq<char>,
                >((final(self)@, o@)),
                Err(e) => step(old(self)@, sub_id@, fresh@, op@) == Err::<
                    (SessionV, OutcomeV),
                    Seq<char>,
                >(e@) && final(self)@ == old(self)@,
            },
    {
        let none: Vec<String> = Vec::new();
        assert(text::texts(none@) =~= Seq::<Seq<char>>::empty());
        match op {
            Op::InterruptTurn { turn_id } => {
                match turn_id {
                    Some(id) => self.gate.end_if(id.as_str()),
                    None => match self.gate.active_id() {
                        Some(id) => self.gate.end_if(id.as_str()),
                        None => {},
                    },
                }
                Ok(Outcome { abort: true, publish_phase: true, journal: None, start: None })
            },
            Op::UserInput { items, skills } => Ok(self.user_input_or_turn(sub_id, items, skills)),
            Op::SteerTurn { text, turn_id } => {
                match turn_id {
                    Some(expected) => match self.gate.active_id() {
                        Some(active) => {
                            if !text::same(active.as_str(), expected.as_str()) {
                                let mut e = "steer turn mismatch: expected ".to_owned();
                                e.push_str(expected.as_str());
                                e.push_str(", active ");
                                e.push_str(active.as_str());
                                return Err(e);
                            }
                        },
                        None => {},
                    },
                    None => {},
                }
                Ok(self.user_input_or_turn(sub_id, protocol::one_text(text.as_str()), none))
            },
            Op::RespondUserInput { turn_id, option_id, free_text } => {
                let said = match &free_text {
                    Some(t) => t.clone(),
                    None => option_id.clone(),
                };
                let free = match &free_text {
                    Some(t) => Json::str(t.as_str()),
                    None => Json::Null,
                };
                let data = Json::object().with_str("option_id", option_id.as_str()).with(
                    "free_text",
                    free,
                ).with_str("gate_turn_id", turn_id.as_str()).with_str(
                    "response_turn_id",
                    sub_id.as_str(),
                );
                let mut summary = "gate responded: ".to_owned();
                summary.push_str(option_id.as_str());
                let mut out = self.user_input_or_turn(
                    sub_id,
                    protocol::one_text(said.as_str()),
                    none,
                );
                out.journal = Some(GateAnswer { gate_turn_id: turn_id, option_id, summary, data });
                Ok(out)
            },
            Op::InterAgentCommunication { communication } => Ok(
                self.handle_mailbox(communication, fresh),
            ),
            Op::Shutdown => Ok(no_outcome()),
            Op::HandledElsewhere => Ok(no_outcome()),
        }
    }
}

// ---------------------------------------------------------------------------
// Laws
// ---------------------------------------------------------------------------

/// No submission starts a turn while one is running, and a turn that starts is
/// the one that is running afterwards.
pub proof fn one_turn_at_a_time(s: SessionV, sub_id: Seq<char>, fresh: Seq<char>, op: OpV)
    ensures
        match step(s, sub_id, fresh, op) {
            Ok(p) => p.1.start matches Some(t) ==> s.running is None && p.0.running == Some(
                t.turn_id,
            ),
            Err(_) => true,
        },
{
}

/// Input that comes while a turn is running is not lost: it waits, behind what
/// waited before.
pub proof fn input_is_kept(
    s: SessionV,
    sub_id: Seq<char>,
    fresh: Seq<char>,
    items: Seq<UserInputV>,
    skills: Seq<Seq<char>>,
)
    requires
        s.running is Some,
    ensures
        step(s, sub_id, fresh, (OpV::UserInput { items, skills })) matches Ok(p)
            && p.0.waiting == s.waiting.push(items) && p.0.running == s.running,
{
}

/// Interrupting one turn leaves another one running.
pub proof fn interrupt_spares_other_turn(
    s: SessionV,
    sub_id: Seq<char>,
    fresh: Seq<char>,
    turn_id: Seq<char>,
)
    requires
        s.running is Some,
        s.running != Some(turn_id),
    ensures
        step(s, sub_id, fresh, (OpV::InterruptTurn { turn_id: Some(turn_id) })) matches Ok(p)
            && p.0 == s && p.1.abort,
{
}

/// Of two inputs in a row exactly one starts a turn; the other waits.
pub proof fn double_click_starts_once(
    s: SessionV,
    first: Seq<char>,
    second: Seq<char>,
    items: Seq<UserInputV>,
    skills: Seq<Seq<char>>,
)
    requires
        s.running is None,
    ensures
        ({
            let a = input_step(s, first, items, skills);
            let b = input_step(a.0, second, items, skills);
            a.1.start is Some && b.1.start is None && b.0.running == Some(first) && b.0.waiting
                == s.waiting.push(items)
        }),
{
}

} // verus!
