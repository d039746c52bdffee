//! Input that waits for a running turn, and the mailbox between agents.

use vstd::prelude::*;

use crate::protocol;
use crate::protocol::{InterAgentCommunication, MailV, UserInput, UserInputV};

verus! {

/// Input for a turn.
pub enum TurnInput {
    UserInput { content: Vec<UserInput> },
}

impl View for TurnInput {
    type V = Seq<UserInputV>;

    open spec fn view(&self) -> Seq<UserInputV> {
        match self {
            TurnInput::UserInput { content } => protocol::input_list(content@),
        }
    }
}

/// The contents of a list of inputs.
pub open spec fn turn_inputs(v: Seq<TurnInput>) -> Seq<Seq<UserInputV>> {
    Seq::new(v.len(), |i: int| v[i]@)
}

/// What waits: input for the next turn, and letters.
pub struct InputQueue {
    pending: Vec<TurnInput>,
    mailbox: Vec<InterAgentCommunication>,
}

impl InputQueue {
    /// The inputs that wait, oldest first.
    pub closed spec fn waiting(&self) -> Seq<Seq<UserInputV>> {
        turn_inputs(self.pending@)
    }

    /// The letters that wait, oldest first.
    pub closed spec fn letters(&self) -> Seq<MailV> {
        protocol::mail_list(self.mailbox@)
    }

    /// Nothing waits.
    pub fn new() -> (r: InputQueue)
        ensures
            r.waiting() == Seq::<Seq<UserInputV>>::empty(),
            r.letters() == Seq::<MailV>::empty(),
    {
        let r = InputQueue { pending: Vec::new(), mailbox: Vec::new() };
        assert(r.waiting() =~= Seq::<Seq<UserInputV>>::empty());
        assert(r.letters() =~= Seq::<MailV>::empty());
        r
    }

    /// Puts inputs behind those that wait.
    pub fn extend_pending_input(&mut self, list: Vec<TurnInput>)
        ensures
            final(self).waiting() == old(self).waiting() + turn_inputs(list@),
            final(self).letters() == old(self).letters(),
    {
        let ghost before = self.pending@;
        let mut list = list;
        let ghost added = list@;
        self.pending.append(&mut list);
        assert(turn_inputs(self.pending@) =~= turn_inputs(before) + turn_inputs(added));
    }

    /// Whether input waits.
    pub fn has_pending_input(&self) -> (r: bool)
        ensures
            r == (self.waiting().len() > 0),
    {
        self.pending.len() > 0
    }

    /// Takes all inputs that wait.
    pub fn drain_pending_input(&mut self) -> (r: Vec<TurnInput>)
        ensures
            turn_inputs(r@) == old(self).waiting(),
            final(self).waiting() == Seq::<Seq<UserInputV>>::empty(),
            final(self).letters() == old(self).letters(),
    {
        let mut out: Vec<TurnInput> = Vec::new();
        std::mem::swap(&mut out, &mut self.pending);
        assert(turn_inputs(self.pending@) =~= Seq::<Seq<UserInputV>>::empty());
        out
    }

    /// Drops all inputs that wait, such as repeated clicks on a card.
    pub fn clear_pending_input(&mut self)
        ensures
            final(self).waiting() == Seq::<Seq<UserInputV>>::empty(),
            final(self).letters() == old(self).letters(),
    {
        self.pending.clear();
        assert(turn_inputs(self.pending@) =~= Seq::<Seq<UserInputV>>::empty());
    }

    /// Puts a letter into the mailbox.
    pub fn enqueue_mailbox(&mut self, mail: InterAgentCommunication)
        ensures
            final(self).letters() == old(self).letters().push(mail@),
            final(self).waiting() == old(self).waiting(),
    {
        let ghost before = self.mailbox@;
        self.mailbox.push(mail);
        assert(protocol::mail_list(self.mailbox@) =~= protocol::mail_list(before).push(mail@));
    }

    /// Takes all letters.
    pub fn drain_mailbox(&mut self) -> (r: Vec<InterAgentCommunication>)
        ensures
            protocol::mail_list(r@) == old(self).letters(),
            final(self).letters() == Seq::<MailV>::empty(),
            final(self).waiting() == old(self).waiting(),
    {
        let mut out: Vec<InterAgentCommunication> = Vec::new();
        std::mem::swap(&mut out, &mut self.mailbox);
        assert(protocol::mail_list(self.mailbox@) =~= Seq::<MailV>::empty());
        out
    }
}

} // verus!
