//! Values that travel between clients, threads and agents.

use vstd::prelude::*;

use crate::text;

verus! {

/// One piece of what a user sends.
pub enum UserInput {
    Text { text: String },
    Skill { name: String, path: Option<String> },
}

/// A piece by contents.
pub enum UserInputV {
    Text { text: Seq<char> },
    Skill { name: Seq<char>, path: Option<Seq<char>> },
}

impl View for UserInput {
    type V = UserInputV;

    open spec fn view(&self) -> UserInputV {
        match self {
            UserInput::Text { text } => UserInputV::Text { text: text@ },
            UserInput::Skill { name, path } => UserInputV::Skill {
                name: name@,
                path: text::opt_text(*path),
            },
        }
    }
}

/// The contents of a list of pieces.
pub open spec fn input_list(v: Seq<UserInput>) -> Seq<UserInputV> {
    Seq::new(v.len(), |i: int| v[i]@)
}

impl UserInput {
    /// A text.
    pub fn text(s: &str) -> (r: UserInput)
        ensures
            r@ == (UserInputV::Text { text: s@ }),
    {
        UserInput::Text { text: s.to_owned() }
    }
}

/// A list with one text.
pub fn one_text(s: &str) -> (r: Vec<UserInput>)
    ensures
        input_list(r@) == seq![UserInputV::Text { text: s@ }],
{
    let mut v: Vec<UserInput> = Vec::new();
    v.push(UserInput::text(s));
    assert(input_list(v@) =~= seq![UserInputV::Text { text: s@ }]);
    v
}

/// Why one agent writes to another.
#[derive(Clone, Copy, Debug, PartialEq, Eq, Structural)]
pub enum InterAgentKind {
    Message,
    Followup,
    Result,
}

/// A letter from one agent to another.
pub struct InterAgentCommunication {
    pub author_thread_id: String,
    pub recipient_thread_id: String,
    pub content: String,
    pub trigger_turn: bool,
    pub kind: InterAgentKind,
}

/// A letter by contents.
pub struct MailV {
    pub author_thread_id: Seq<char>,
    pub recipient_thread_id: Seq<char>,
    pub content: Seq<char>,
    pub trigger_turn: bool,
    pub kind: InterAgentKind,
}

impl View for InterAgentCommunication {
    type V = MailV;

    open spec fn view(&self) -> MailV {
        MailV {
            author_thread_id: self.author_thread_id@,
            recipient_thread_id: self.recipient_thread_id@,
            content: self.content@,
            trigger_turn: self.trigger_turn,
            kind: self.kind,
        }
    }
}

/// The contents of a list of letters.
pub open spec fn mail_list(v: Seq<InterAgentCommunication>) -> Seq<MailV> {
    Seq::new(v.len(), |i: int| v[i]@)
}

} // verus!
