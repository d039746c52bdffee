//! The journal of decisions and runs: what an entry holds, how long values are
//! cut, and which entries a query returns.

use vstd::prelude::*;

use crate::json;
use crate::json::{Json, JsonV};
use crate::order;
use crate::text;

verus! {

/// The most characters of a text that the journal keeps.
pub const MAX_FIELD_CHARS: usize = 2000;

/// What an entry records.
#[derive(Clone, Copy, Debug, PartialEq, Eq, Structural)]
pub enum OpsJournalKind {
    UserInput,
    GateResponded,
    MutationPreview,
    MutationApplied,
    HistoryReset,
}

/// The word for what an entry records.
pub open spec fn kind_word(k: OpsJournalKind) -> Seq<char> {
    match k {
        OpsJournalKind::UserInput => "user_input"@,
        OpsJournalKind::GateResponded => "gate_responded"@,
        OpsJournalKind::MutationPreview => "mutation_preview"@,
        OpsJournalKind::MutationApplied => "mutation_applied"@,
        OpsJournalKind::HistoryReset => "history_reset"@,
    }
}

impl OpsJournalKind {
    /// The word for what an entry records.
    pub fn as_str(&self) -> (r: &'static str)
        ensures
            r@ == kind_word(*self),
    {
        match self {
            OpsJournalKind::UserInput => "user_input",
            OpsJournalKind::GateResponded => "gate_responded",
            OpsJournalKind::MutationPreview => "mutation_preview",
            OpsJournalKind::MutationApplied => "mutation_applied",
            OpsJournalKind::HistoryReset => "history_reset",
        }
    }
}

/// One entry of the journal.
pub struct OpsJournalEntry {
    pub ts: String,
    pub project: String,
    pub thread_id: Option<String>,
    pub turn_id: Option<String>,
    pub chapter: Option<u32>,
    pub correlation_id: Option<String>,
    pub kind: OpsJournalKind,
    pub summary: String,
    pub data: Json,
}

/// An entry by contents.
pub struct EntryV {
    pub ts: Seq<char>,
    pub project: Seq<char>,
    pub thread_id: Option<Seq<char>>,
    pub turn_id: Option<Seq<char>>,
    pub chapter: Option<u32>,
    pub correlation_id: Option<Seq<char>>,
    pub kind: OpsJournalKind,
    pub summary: Seq<char>,
    pub data: JsonV,
}

impl View for OpsJournalEntry {
    type V = EntryV;

    open spec fn view(&self) -> EntryV {
        EntryV {
            ts: self.ts@,
            project: self.project@,
            thread_id: text::opt_text(self.thread_id),
            turn_id: text::opt_text(self.turn_id),
            chapter: self.chapter,
            correlation_id: text::opt_text(self.correlation_id),
            kind: self.kind,
            summary: self.summary@,
            data: self.data@,
        }
    }
}

/// The contents of a list of entries.
pub open spec fn entry_list(v: Seq<OpsJournalEntry>) -> Seq<EntryV> {
    Seq::new(v.len(), |i: int| v[i]@)
}

// ---------------------------------------------------------------------------
// Paths
// ---------------------------------------------------------------------------

/// A path below another: an absolute one stands for itself.
pub open spec fn joined_path(a: Seq<char>, b: Seq<char>) -> Seq<char> {
    if (b.len() > 0 && b[0] == '/') || a.len() == 0 {
        b
    } else if a.last() == '/' {
        a + b
    } else {
        a + "/"@ + b
    }
}

/// A path below another.
pub fn join_path(a: &str, b: &str) -> (r: String)
    ensures
        r@ == joined_path(a@, b@),
{
    let x = text::to_chars(a);
    let y = text::to_chars(b);
    if (y.len() > 0 && y[0] == '/') || x.len() == 0 {
        b.to_owned()
    } else {
        let mut s = a.to_owned();
        if x[x.len() - 1] != '/' {
            s.push_str("/");
        }
        s.push_str(b);
        s
    }
}

/// Where a project's journal lies.
pub open spec fn journal_place(root: Seq<char>, project: Seq<char>) -> Seq<char> {
    joined_path(joined_path(joined_path(root, project), ".novelx"@), "ops_journal.jsonl"@)
}

/// Where a project's journal lies.
pub fn journal_path(projects_root: &str, project: &str) -> (r: String)
    ensures
        r@ == journal_place(projects_root@, project@),
{
    let dir = join_path(projects_root, project);
    let own = join_path(dir.as_str(), ".novelx");
    join_path(own.as_str(), "ops_journal.jsonl")
}

// ---------------------------------------------------------------------------
// Cutting
// ---------------------------------------------------------------------------

/// `s`, or where it is longer than `max` its beginning with an ellipsis for its
/// last character.
pub open spec fn truncated(s: Seq<char>, max: nat) -> Seq<char> {
    if s.len() <= max {
        s
    } else {
        s.take(
            if max == 0 {
                0
            } else {
                max - 1
            },
        ).push('…')
    }
}

/// Cuts a text to at most `max` characters, an ellipsis in place of the rest.
pub fn truncate_str(s: &str, max: usize) -> (r: String)
    ensures
        r@ == truncated(s@, max as nat),
{
    let n: usize = s.unicode_len();
    if n <= max {
        return s.to_owned();
    }
    let keep: usize = max.saturating_sub(1);
    let head = s.substring_char(0, keep);
    let mut out = head.to_owned();
    assert(s@.subrange(0, keep as int) =~= s@.take(keep as int));
    out.push('…');
    out
}

/// The smaller of a length and a bound.
pub open spec fn at_most(n: nat, bound: nat) -> nat {
    if n <= bound {
        n
    } else {
        bound
    }
}

/// A value with its texts cut, and at most 32 items of a list and 48 entries of
/// an object kept.
pub open spec fn truncated_value(v: JsonV, max: nat) -> JsonV
    decreases v,
{
    match v {
        JsonV::Text(s) => JsonV::Text(truncated(s, max)),
        JsonV::List(a) => JsonV::List(
            Seq::new(
                at_most(a.len(), 32),
                |i: int|
                    if 0 <= i < a.len() {
                        truncated_value(a[i], max)
                    } else {
                        JsonV::Null
                    },
            ),
        ),
        JsonV::Object(m) => JsonV::Object(
            Seq::new(
                at_most(m.len(), 48),
                |i: int|
                    if 0 <= i < m.len() {
                        (m[i].0, truncated_value(m[i].1, max))
                    } else {
                        (Seq::<char>::empty(), JsonV::Null)
                    },
            ),
        ),
        other => other,
    }
}

/// Cuts the texts, lists and objects inside a value.
pub fn truncate_value(v: &Json, max: usize) -> (r: Json)
    ensures
        r@ == truncated_value(v@, max as nat),
    decreases v,
{
    match v {
        Json::Text(s) => Json::Text(truncate_str(s.as_str(), max)),
        Json::List(a) => {
            let most: usize = if a.len() <= 32 {
                a.len()
            } else {
                32
            };
            let mut out: Vec<Json> = Vec::new();
            let mut i: usize = 0;
            while i < most
                invariant
                    i <= most,
                    most <= a.len(),
                    out.len() == i,
                    *v == Json::List(*a),
                    forall|j: int|
                        0 <= j < i ==> (#[trigger] out@[j])@ == truncated_value(
                            a@[j]@,
                            max as nat,
                        ),
                decreases most - i,
            {
                assert(decreases_to!(v => v->List_0@[i as int]));
                let x = truncate_value(&a[i], max);
                out.push(x);
                i = i + 1;
            }
            proof {
                json::list_view(out);
                json::list_view(*a);
                assert(json::items(out@) =~= truncated_value(v@, max as nat)->List_0);
            }
            Json::List(out)
        },
        Json::Object(a) => {
            let most: usize = if a.len() <= 48 {
                a.len()
            } else {
                48
            };
            let mut out: Vec<(String, Json)> = Vec::new();
            let mut i: usize = 0;
            while i < most
                invariant
                    i <= most,
                    most <= a.len(),
                    out.len() == i,
                    *v == Json::Object(*a),
                    forall|j: int|
                        0 <= j < i ==> (#[trigger] out@[j]).0@ == a@[j].0@ && out@[j].1@
                            == truncated_value(a@[j].1@, max as nat),
                decreases most - i,
            {
                assert(decreases_to!(v => v->Object_0@[i as int].1));
                let x = truncate_value(&a[i].1, max);
                let k = a[i].0.clone();
                out.push((k, x));
                i = i + 1;
            }
            proof {
                json::object_view(out);
                json::object_view(*a);
                assert(json::entries(out@) =~= truncated_value(v@, max as nat)->Object_0);
            }
            Json::Object(out)
        },
        other => other.copy(),
    }
}

// ---------------------------------------------------------------------------
// Entries
// ---------------------------------------------------------------------------

/// Two digits stand in `s` at position `i`.
pub open spec fn two_digits(s: Seq<char>, i: int) -> bool {
    0 <= i && i + 2 <= s.len() && text::is_digit(s[i]) && text::is_digit(s[i + 1])
}

/// The text is a time in UTC whose year takes `y` characters:
/// `year-month-dayThour:minute:second`, then three, six or nine digits of the
/// second where they are needed, then the offset. A year has four digits; a
/// longer one has a sign.
pub open spec fn stamp_with_year(s: Seq<char>, y: int) -> bool {
    &&& 4 <= y && y + 21 <= s.len()
    &&& (y == 4 && text::all_digits(s.take(y))) || (y > 5 && s[0] == '+' && text::all_digits(
        s.subrange(1, y),
    ))
    &&& s[y] == '-' && two_digits(s, y + 1) && s[y + 3] == '-' && two_digits(s, y + 4)
    &&& s[y + 6] == 'T' && two_digits(s, y + 7) && s[y + 9] == ':' && two_digits(s, y + 10)
    &&& s[y + 12] == ':' && two_digits(s, y + 13)
    &&& {
        let f = s.subrange(y + 15, s.len() - 6);
        f.len() == 0 || ((f.len() == 4 || f.len() == 7 || f.len() == 10) && f[0] == '.'
            && text::all_digits(f.skip(1)))
    }
    &&& text::ends(s, "+00:00"@)
}

/// The text is a time in UTC.
pub open spec fn is_utc_stamp(s: Seq<char>) -> bool {
    exists|y: int| stamp_with_year(s, y)
}

/// `chrono::Utc::now` written by `DateTime::to_rfc3339`: the present time, as a
/// date, a time and the offset of UTC. Which time it is, the clock decides.
#[verifier::external_body]
fn now_stamp() -> (r: String)
    ensures
        is_utc_stamp(r@),
{
    chrono::Utc::now().to_rfc3339()
}

/// An entry with its texts cut.
pub open spec fn entry_at(
    ts: Seq<char>,
    project: Seq<char>,
    thread_id: Option<Seq<char>>,
    turn_id: Option<Seq<char>>,
    chapter: Option<u32>,
    correlation_id: Option<Seq<char>>,
    kind: OpsJournalKind,
    summary: Seq<char>,
    data: JsonV,
) -> EntryV {
    EntryV {
        ts,
        project,
        thread_id,
        turn_id,
        chapter,
        correlation_id,
        kind,
        summary: truncated(summary, MAX_FIELD_CHARS as nat),
        data: truncated_value(data, MAX_FIELD_CHARS as nat),
    }
}

fn own(o: Option<&str>) -> (r: Option<String>)
    ensures
        text::opt_text(r) == text::opt_str(o),
{
    match o {
        Some(s) => Some(s.to_owned()),
        None => None,
    }
}

/// An entry of the given time.
pub fn build_entry_at(
    ts: String,
    project: &str,
    thread_id: Option<&str>,
    turn_id: Option<&str>,
    chapter: Option<u32>,
    correlation_id: Option<&str>,
    kind: OpsJournalKind,
    summary: &str,
    data: &Json,
) -> (r: OpsJournalEntry)
    ensures
        r@ == entry_at(
            ts@,
            project@,
            text::opt_str(thread_id),
            text::opt_str(turn_id),
            chapter,
            text::opt_str(correlation_id),
            kind,
            summary@,
            data@,
        ),
{
    OpsJournalEntry {
        ts,
        project: project.to_owned(),
        thread_id: own(thread_id),
        turn_id: own(turn_id),
        chapter,
        correlation_id: own(correlation_id),
        kind,
        summary: truncate_str(summary, MAX_FIELD_CHARS),
        data: truncate_value(data, MAX_FIELD_CHARS),
    }
}

/// An entry of the present time.
pub fn build_entry(
    project: &str,
    thread_id: Option<&str>,
    turn_id: Option<&str>,
    chapter: Option<u32>,
    correlation_id: Option<&str>,
    kind: OpsJournalKind,
    summary: &str,
    data: &Json,
) -> (r: OpsJournalEntry)
    ensures
        r@ == entry_at(
            r.ts@,
            project@,
            text::opt_str(thread_id),
            text::opt_str(turn_id),
            chapter,
            text::opt_str(correlation_id),
            kind,
            summary@,
            data@,
        ),
        is_utc_stamp(r.ts@),
        text::occurs(r.ts@, "T"@),
        text::ends(r.ts@, "+00:00"@),
{
    let ts = now_stamp();
    proof {
        let y = choose|y: int| stamp_with_year(ts@, y);
        reveal_strlit("T");
        assert(ts@.subrange(y + 6, y + 7) =~= "T"@);
        assert(text::occurs_at(ts@, "T"@, y + 6));
    }
    build_entry_at(
        ts,
        project,
        thread_id,
        turn_id,
        chapter,
        correlation_id,
        kind,
        summary,
        data,
    )
}

/// Whether an entry is written at all: one without a project is not.
pub fn should_append(entry: &OpsJournalEntry) -> (r: bool)
    ensures
        r == (text::trimmed(entry@.project).len() > 0),
{
    !text::trim(entry.project.as_str()).is_empty()
}

/// A tool's data tells of a change that took effect.
pub open spec fn apply_succeeded(data: JsonV) -> bool {
    !data.flag("blocked"@) && !data.flag("content_rule_blocked"@) && !data.flag("needs_confirm"@)
        && !data.denied("ok"@)
}

/// Whether a tool's data tells of a change that took effect: it was not
/// blocked, does not await confirmation and did not fail.
pub fn tool_apply_succeeded(data: &Json) -> (r: bool)
    ensures
        r == apply_succeeded(data@),
{
    !data.is_true("blocked") && !data.is_true("content_rule_blocked") && !data.is_true(
        "needs_confirm",
    ) && !data.is_false("ok")
}

// ---------------------------------------------------------------------------
// Queries
// ---------------------------------------------------------------------------

/// Which entries are wanted.
pub struct OpsJournalQuery {
    pub limit: usize,
    pub chapter: Option<u32>,
    pub kind: Option<OpsJournalKind>,
    /// The earliest time, in the journal's own writing.
    pub after: Option<String>,
}

/// A query by contents.
pub struct QueryV {
    pub limit: usize,
    pub chapter: Option<u32>,
    pub kind: Option<OpsJournalKind>,
    pub after: Option<Seq<char>>,
}

impl View for OpsJournalQuery {
    type V = QueryV;

    open spec fn view(&self) -> QueryV {
        QueryV {
            limit: self.limit,
            chapter: self.chapter,
            kind: self.kind,
            after: text::opt_text(self.after),
        }
    }
}

impl OpsJournalQuery {
    /// The last entries of any kind.
    pub fn recent(limit: usize) -> (r: OpsJournalQuery)
        ensures
            r@ == (QueryV { limit, chapter: None, kind: None, after: None }),
    {
        OpsJournalQuery { limit, chapter: None, kind: None, after: None }
    }
}

/// The entry is wanted.
pub open spec fn wanted(e: EntryV, q: QueryV) -> bool {
    &&& q.kind matches Some(k) ==> e.kind == k
    &&& q.chapter matches Some(c) ==> e.chapter == Some(c)
    &&& q.after matches Some(a) ==> !order::lex_less(e.ts, a)
}

/// The entries that are wanted, in order.
pub open spec fn all_wanted(s: Seq<EntryV>, q: QueryV) -> Seq<EntryV>
    decreases s.len(),
{
    if s.len() == 0 {
        s
    } else if wanted(s.last(), q) {
        all_wanted(s.drop_last(), q).push(s.last())
    } else {
        all_wanted(s.drop_last(), q)
    }
}

/// How many entries a query returns at most: between one and 2000.
pub open spec fn most_entries(q: QueryV) -> nat {
    if q.limit < 1 {
        1
    } else if q.limit > 2000 {
        2000
    } else {
        q.limit as nat
    }
}

/// What a query returns: the last of the entries that are wanted, in order.
pub open spec fn selected(s: Seq<EntryV>, q: QueryV) -> Seq<EntryV> {
    let w = all_wanted(s, q);
    if w.len() > most_entries(q) {
        w.skip(w.len() - most_entries(q))
    } else {
        w
    }
}

impl OpsJournalEntry {
    fn is_wanted(&self, q: &OpsJournalQuery) -> (r: bool)
        ensures
            r == wanted(self@, q@),
    {
        let kind_ok = match q.kind {
            Some(k) => self.kind == k,
            None => true,
        };
        let chapter_ok = match q.chapter {
            Some(c) => match self.chapter {
                Some(x) => x == c,
                None => false,
            },
            None => true,
        };
        let time_ok = match &q.after {
            Some(a) => !order::less(self.ts.as_str(), a.as_str()),
            None => true,
        };
        kind_ok && chapter_ok && time_ok
    }
}

/// Picks from the journal's entries, oldest first, what a query returns.
pub fn select_entries(list: Vec<OpsJournalEntry>, q: &OpsJournalQuery) -> (r: Vec<OpsJournalEntry>)
    ensures
        entry_list(r@) == selected(entry_list(list@), q@),
{
    let ghost all = entry_list(list@);
    let mut rest = list;
    let mut out: Vec<OpsJournalEntry> = Vec::new();
    let ghost mut done: int = 0;
    assert(entry_list(out@) =~= all_wanted(all.take(0), q@));
    assert(entry_list(rest@) =~= all.skip(0));
    while rest.len() > 0
        invariant
            0 <= done <= all.len(),
            entry_list(rest@) == all.skip(done),
            entry_list(out@) == all_wanted(all.take(done), q@),
        decreases rest.len(),
    {
        let ghost before = entry_list(out@);
        let ghost left = entry_list(rest@);
        proof {
            assert(left.len() == all.len() - done);
            assert(left[0] == all[done]);
        }
        let e = rest.remove(0);
        let ghost ev = e@;
        proof {
            assert(left[0] == ev);
            assert(all.take(done + 1).drop_last() =~= all.take(done));
            assert(all.take(done + 1).last() == ev);
            assert(entry_list(rest@) =~= left.drop_first());
            assert(left.drop_first() =~= all.skip(done + 1));
        }
        if e.is_wanted(q) {
            out.push(e);
            assert(entry_list(out@) =~= before.push(ev));
        }
        proof {
            done = done + 1;
        }
    }
    proof {
        assert(all.take(done) =~= all);
    }
    let limit: usize = if q.limit < 1 {
        1
    } else if q.limit > 2000 {
        2000
    } else {
        q.limit
    };
    if out.len() > limit {
        let ghost w = entry_list(out@);
        let cut: usize = out.len() - limit;
        let tail = out.split_off(cut);
        assert(entry_list(tail@) =~= w.skip(cut as int));
        tail
    } else {
        out
    }
}

/// The lines of a journal that hold an entry: those that are not blank.
pub open spec fn filled_lines(v: Seq<Seq<char>>) -> Seq<Seq<char>>
    decreases v.len(),
{
    if v.len() == 0 {
        v
    } else if text::trimmed(v.last()).len() > 0 {
        filled_lines(v.drop_last()).push(v.last())
    } else {
        filled_lines(v.drop_last())
    }
}

/// The lines of a journal that hold an entry.
pub fn journal_lines(content: &str) -> (r: Vec<String>)
    ensures
        text::texts(r@) == filled_lines(text::lines_of(content@)),
{
    let all = text::lines(content);
    let ghost av = text::texts(all@);
    let mut out: Vec<String> = Vec::new();
    let mut i: usize = 0;
    assert(text::texts(out@) =~= filled_lines(av.take(0)));
    while i < all.len()
        invariant
            i <= all.len(),
            av == text::texts(all@),
            text::texts(out@) == filled_lines(av.take(i as int)),
        decreases all.len() - i,
    {
        let ghost before = text::texts(out@);
        proof {
            assert(av.take(i + 1).drop_last() =~= av.take(i as int));
            assert(av.take(i + 1).last() == all@[i as int]@);
        }
        if !text::trim(all[i].as_str()).is_empty() {
            out.push(all[i].clone());
            assert(text::texts(out@) =~= before.push(all@[i as int]@));
        }
        i = i + 1;
    }
    assert(av.take(i as int) =~= av);
    out
}

/// An entry on one line.
pub open spec fn entry_line(e: EntryV) -> Seq<char> {
    let head = e.ts + " "@ + kind_word(e.kind) + " "@ + e.project;
    let placed = match e.chapter {
        Some(c) => head + " ch"@ + text::dec(c as nat),
        None => head,
    };
    let tied = match e.correlation_id {
        Some(c) => placed + " ["@ + c + "]"@,
        None => placed,
    };
    tied + " — "@ + e.summary
}

/// An entry on one line.
pub fn format_entry_line(e: &OpsJournalEntry) -> (r: String)
    ensures
        r@ == entry_line(e@),
{
    let mut s = e.ts.clone();
    s.push_str(" ");
    s.push_str(e.kind.as_str());
    s.push_str(" ");
    s.push_str(e.project.as_str());
    match e.chapter {
        Some(c) => {
            s.push_str(" ch");
            s.push_str(text::number(c as u64).as_str());
        },
        None => {},
    }
    match &e.correlation_id {
        Some(c) => {
            s.push_str(" [");
            s.push_str(c.as_str());
            s.push_str("]");
        },
        None => {},
    }
    s.push_str(" — ");
    s.push_str(e.summary.as_str());
    s
}

/// The chapter that arguments or data name, if it is one.
pub open spec fn chapter_in(v: JsonV) -> Option<u32> {
    match v.uint("chapter"@) {
        Some(n) => if 0 < n <= u32::MAX {
            Some(n as u32)
        } else {
            None
        },
        None => None,
    }
}

/// The chapter that arguments or data name, if it is one.
pub fn chapter_from_value(v: &Json) -> (r: Option<u32>)
    ensures
        r == chapter_in(v@),
{
    match v.get_u64("chapter") {
        Some(n) => if n > 0 && n <= u32::MAX as u64 {
            Some(n as u32)
        } else {
            None
        },
        None => None,
    }
}

/// Arguments cut for the journal.
pub fn args_summary(args: &Json) -> (r: Json)
    ensures
        r@ == truncated_value(args@, 400),
{
    truncate_value(args, 400)
}

// ---------------------------------------------------------------------------
// Laws
// ---------------------------------------------------------------------------

/// A cut text is no longer than asked, keeps its beginning, and cutting it again
/// changes nothing.
pub proof fn truncated_fits(s: Seq<char>, max: nat)
    ensures
        max >= 1 ==> truncated(s, max).len() <= max,
        s.len() > max ==> truncated(s, max).last() == '…',
        truncated(truncated(s, max), max) == truncated(s, max),
{
    if s.len() > max && max == 0 {
        assert(truncated(s, max) =~= seq!['…']);
        assert(truncated(truncated(s, max), max) =~= seq!['…']);
    }
}

/// Cutting a value again changes nothing.
pub proof fn truncated_value_settles(v: JsonV, max: nat)
    ensures
        truncated_value(truncated_value(v, max), max) == truncated_value(v, max),
    decreases v,
{
    match v {
        JsonV::Text(s) => {
            truncated_fits(s, max);
        },
        JsonV::List(a) => {
            let b = truncated_value(v, max)->List_0;
            assert forall|i: int| 0 <= i < b.len() implies truncated_value(#[trigger] b[i], max)
                == b[i] by {
                truncated_value_settles(a[i], max);
            }
            assert(truncated_value(JsonV::List(b), max)->List_0 =~= b);
        },
        JsonV::Object(m) => {
            let b = truncated_value(v, max)->Object_0;
            assert forall|i: int| 0 <= i < b.len() implies truncated_value(
                (#[trigger] b[i]).1,
                max,
            ) == b[i].1 by {
                truncated_value_settles(m[i].1, max);
            }
            assert(truncated_value(JsonV::Object(b), max)->Object_0 =~= b);
        },
        _ => {},
    }
}

/// A query returns nothing that is not wanted, and never more than its limit,
/// which counts as at least one and at most two thousand.
pub proof fn selected_are_wanted(s: Seq<EntryV>, q: QueryV)
    ensures
        selected(s, q).len() <= most_entries(q),
        forall|i: int| 0 <= i < selected(s, q).len() ==> wanted(#[trigger] selected(s, q)[i], q),
{
    all_wanted_are(s, q);
}

proof fn all_wanted_are(s: Seq<EntryV>, q: QueryV)
    ensures
        forall|i: int| 0 <= i < all_wanted(s, q).len() ==> wanted(#[trigger] all_wanted(s, q)[i], q),
    decreases s.len(),
{
    if s.len() > 0 {
        all_wanted_are(s.drop_last(), q);
        let rest = all_wanted(s.drop_last(), q);
        assert forall|i: int| 0 <= i < all_wanted(s, q).len() implies wanted(
            #[trigger] all_wanted(s, q)[i],
            q,
        ) by {
            if i < rest.len() {
                assert(all_wanted(s, q)[i] == rest[i]);
            }
        }
    }
}

} // verus!
