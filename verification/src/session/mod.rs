//! One thread's session: the turn that is running, what waits, and what each
//! submission does.

use vstd::prelude::*;

use crate::text;

pub mod handlers;
pub mod input_queue;

pub use input_queue::{InputQueue, TurnInput};

verus! {

/// A running turn.
pub struct ActiveTurn {
    pub turn_id: String,
}

/// Lets one turn run at a time.
pub struct TurnGate {
    active: Option<ActiveTurn>,
}

impl View for TurnGate {
    type V = Option<Seq<char>>;

    /// The turn that is running.
    closed spec fn view(&self) -> Option<Seq<char>> {
        match self.active {
            Some(t) => Some(t.turn_id@),
            None => None,
        }
    }
}

impl TurnGate {
    /// No turn is running.
    pub fn new() -> (r: TurnGate)
        ensures
            r@ is None,
    {
        TurnGate { active: None }
    }

    /// The turn that is running.
    pub fn active_id(&self) -> (r: Option<String>)
        ensures
            text::opt_text(r) == self@,
    {
        match &self.active {
            Some(t) => Some(t.turn_id.clone()),
            None => None,
        }
    }

    /// Marks the turn as running, unless another one is.
    pub fn begin(&mut self, turn_id: String)
        ensures
            final(self)@ == match old(self)@ {
                Some(t) => Some(t),
                None => Some(turn_id@),
            },
    {
        let free = match &self.active {
            Some(t) => text::same(t.turn_id.as_str(), turn_id.as_str()),
            None => true,
        };
        if free {
            self.active = Some(ActiveTurn { turn_id });
        }
    }

    /// Starts the turn, unless one is running. Tells whether it started.
    pub fn try_begin(&mut self, turn_id: String) -> (r: bool)
        ensures
            r == (old(self)@ is None),
            final(self)@ == if r {
                Some(turn_id@)
            } else {
                old(self)@
            },
    {
        if self.active.is_some() {
            return false;
        }
        self.active = Some(ActiveTurn { turn_id });
        true
    }

    /// Ends whatever turn is running.
    pub fn end(&mut self)
        ensures
            final(self)@ is None,
    {
        self.active = None;
    }

    /// Ends the turn if it is the one that is running.
    pub fn end_if(&mut self, turn_id: &str)
        ensures
            final(self)@ == if old(self)@ == Some(turn_id@) {
                None
            } else {
                old(self)@
            },
    {
        let mine = match &self.active {
            Some(t) => text::same(t.turn_id.as_str(), turn_id),
            None => false,
        };
        if mine {
            self.active = None;
        }
    }

    /// Whether a turn is running.
    pub fn has_active(&self) -> (r: bool)
        ensures
            r == (self@ is Some),
    {
        self.active.is_some()
    }
}

} // verus!
