//! What a running tool shows.

use vstd::prelude::*;

use crate::prompts;
use crate::text;

verus! {

/// So many bytes are sent on without waiting.
pub const FLUSH_BYTES: usize = 800;

/// Progress of a tool that is gathered before it is sent on.
pub struct ProgressBuffer {
    waiting: String,
    sent: String,
}

/// Progress that waits and progress that was sent.
pub struct ProgressV {
    pub waiting: Seq<char>,
    pub sent: Seq<char>,
}

impl View for ProgressBuffer {
    type V = ProgressV;

    closed spec fn view(&self) -> ProgressV {
        ProgressV { waiting: self.waiting@, sent: self.sent@ }
    }
}

impl ProgressV {
    /// All that came so far.
    pub open spec fn told(self) -> Seq<char> {
        self.sent + self.waiting
    }

    /// Everything was sent on.
    pub open spec fn flushed(self) -> ProgressV {
        ProgressV { waiting: Seq::empty(), sent: self.sent + self.waiting }
    }
}

impl ProgressBuffer {
    /// A buffer that holds nothing.
    pub fn new() -> (r: ProgressBuffer)
        ensures
            r@ == (ProgressV { waiting: Seq::empty(), sent: Seq::empty() }),
    {
        ProgressBuffer { waiting: String::new(), sent: String::new() }
    }

    /// Sends on what waits, if anything does. Called on every tick and at the end.
    pub fn flush(&mut self) -> (r: Option<String>)
        ensures
            final(self)@ == old(self)@.flushed(),
            match r {
                Some(d) => d@ == old(self)@.waiting && d@.len() > 0,
                None => old(self)@.waiting.len() == 0,
            },
    {
        if self.waiting.as_str().is_empty() {
            assert(self.waiting@ =~= Seq::<char>::empty());
            assert(self.sent@ + self.waiting@ =~= self.sent@);
            return None;
        }
        let delta = self.waiting.clone();
        self.waiting = String::new();
        self.sent.push_str(delta.as_str());
        Some(delta)
    }

    /// Takes in a piece of progress. Once enough waits it is sent on at once.
    pub fn push(&mut self, delta: &str) -> (r: Option<String>)
        ensures
            ({
                let now = ProgressV { waiting: old(self)@.waiting + delta@, ..old(self)@ };
                if text::encoded_len(now.waiting) >= FLUSH_BYTES {
                    &&& final(self)@ == now.flushed()
                    &&& text::opt_text(r) == Some(now.waiting)
                } else {
                    &&& final(self)@ == now
                    &&& r is None
                }
            }),
    {
        self.waiting.push_str(delta);
        if text::encoded_at_least(self.waiting.as_str(), FLUSH_BYTES) {
            proof {
                if self.waiting@.len() == 0 {
                    assert(text::encoded_len(self.waiting@) == 0);
                }
            }
            self.flush()
        } else {
            None
        }
    }

    /// Everything that was sent on.
    pub fn streamed(&self) -> (r: &str)
        ensures
            r@ == self@.sent,
    {
        self.sent.as_str()
    }
}

/// Gathering loses nothing and changes no order: what was sent and what waits is
/// all that came.
pub proof fn nothing_is_lost(s: ProgressV, delta: Seq<char>)
    ensures
        s.flushed().told() == s.told(),
        ({
            let now = ProgressV { waiting: s.waiting + delta, ..s };
            &&& now.told() == s.told() + delta
            &&& now.flushed().told() == s.told() + delta
        }),
{
    assert(s.flushed().told() =~= s.told());
    let now = ProgressV { waiting: s.waiting + delta, ..s };
    assert(now.told() =~= s.told() + delta);
    assert(now.flushed().told() =~= s.told() + delta);
}

/// What is added to a tool's card at its end: its closing words, unless they
/// were shown already or tell the report again.
pub open spec fn closing_piece(streamed: Seq<char>, final_out: Seq<char>) -> Option<Seq<char>> {
    if final_out.len() == 0 || text::occurs(streamed, text::trimmed(final_out))
        || prompts::restated(streamed, final_out) {
        None
    } else if streamed.len() == 0 {
        Some(final_out)
    } else {
        Some("\n"@ + final_out)
    }
}

/// What is added to a tool's card at its end.
pub fn closing_delta(streamed: &str, final_out: &str) -> (r: Option<String>)
    ensures
        text::opt_text(r) == closing_piece(streamed@, final_out@),
{
    if final_out.is_empty() || text::contains(streamed, text::trim(final_out))
        || prompts::tool_ui_looks_like_restated_report(streamed, final_out) {
        return None;
    }
    if streamed.is_empty() {
        Some(final_out.to_owned())
    } else {
        let mut s = "\n".to_owned();
        s.push_str(final_out);
        Some(s)
    }
}

} // verus!
