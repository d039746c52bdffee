//! Issues that an audit reports.

use vstd::prelude::*;

use crate::json;
use crate::json::{Json, JsonV};
use crate::text;

verus! {

/// One issue of an audit report.
pub struct AuditIssue {
    pub id: Option<String>,
    /// `P0` blocks publication; `P1` and below advise.
    pub priority: String,
    /// What the issue is about, such as `TIMELINE`; may be empty.
    pub kind: String,
    pub message: Option<String>,
    pub location: String,
    pub quote: String,
}

/// An issue by contents.
pub struct IssueV {
    pub id: Option<Seq<char>>,
    pub priority: Seq<char>,
    pub kind: Seq<char>,
    pub message: Option<Seq<char>>,
    pub location: Seq<char>,
    pub quote: Seq<char>,
}

impl View for AuditIssue {
    type V = IssueV;

    open spec fn view(&self) -> IssueV {
        IssueV {
            id: text::opt_text(self.id),
            priority: self.priority@,
            kind: self.kind@,
            message: text::opt_text(self.message),
            location: self.location@,
            quote: self.quote@,
        }
    }
}

/// The contents of a list of issues.
pub open spec fn issue_list(v: Seq<AuditIssue>) -> Seq<IssueV> {
    Seq::new(v.len(), |i: int| v[i]@)
}

/// The issue blocks publication.
pub open spec fn is_p0(i: IssueV) -> bool {
    i.priority == "P0"@
}

/// The issues that block, in order.
pub open spec fn p0_only(s: Seq<IssueV>) -> Seq<IssueV>
    decreases s.len(),
{
    if s.len() == 0 {
        s
    } else if is_p0(s.last()) {
        p0_only(s.drop_last()).push(s.last())
    } else {
        p0_only(s.drop_last())
    }
}

/// The issues that do not block, in order.
pub open spec fn others_only(s: Seq<IssueV>) -> Seq<IssueV>
    decreases s.len(),
{
    if s.len() == 0 {
        s
    } else if is_p0(s.last()) {
        others_only(s.drop_last())
    } else {
        others_only(s.drop_last()).push(s.last())
    }
}

/// How many issues have the priority.
pub open spec fn count_priority(s: Seq<IssueV>, p: Seq<char>) -> nat
    decreases s.len(),
{
    if s.len() == 0 {
        0
    } else {
        count_priority(s.drop_last(), p) + if s.last().priority == p {
            1nat
        } else {
            0nat
        }
    }
}

/// The ids of the issues that have one, in order.
pub open spec fn ids_of(s: Seq<IssueV>) -> Seq<Seq<char>>
    decreases s.len(),
{
    if s.len() == 0 {
        Seq::empty()
    } else {
        match s.last().id {
            Some(id) => ids_of(s.drop_last()).push(id),
            None => ids_of(s.drop_last()),
        }
    }
}

/// Some issue blocks.
pub open spec fn some_p0(s: Seq<IssueV>) -> bool {
    exists|i: int| 0 <= i < s.len() && is_p0(#[trigger] s[i])
}

/// There are blocking issues exactly where one blocks.
pub proof fn p0_only_empty(s: Seq<IssueV>)
    ensures
        (p0_only(s).len() > 0) == some_p0(s),
        p0_only(s).len() <= s.len(),
        p0_only(s).len() == count_priority(s, "P0"@),
    decreases s.len(),
{
    if s.len() > 0 {
        let rest = s.drop_last();
        p0_only_empty(rest);
        if is_p0(s.last()) {
            assert(is_p0(s[s.len() - 1]));
        } else {
            if some_p0(s) {
                let i = choose|i: int| 0 <= i < s.len() && is_p0(#[trigger] s[i]);
                assert(is_p0(rest[i]));
            }
            if some_p0(rest) {
                let i = choose|i: int| 0 <= i < rest.len() && is_p0(#[trigger] rest[i]);
                assert(is_p0(s[i]));
            }
        }
    }
}

/// A list of texts as a structured value.
pub open spec fn text_list(v: Seq<Seq<char>>) -> JsonV {
    JsonV::List(Seq::new(v.len(), |i: int| JsonV::Text(v[i])))
}

/// A list of texts as a structured value.
pub fn texts_value(v: &Vec<String>) -> (r: Json)
    ensures
        r@ == text_list(text::texts(v@)),
{
    let mut out: Vec<Json> = Vec::new();
    let mut i: usize = 0;
    while i < v.len()
        invariant
            i <= v.len(),
            out.len() == i,
            forall|j: int| 0 <= j < i ==> (#[trigger] out@[j])@ == JsonV::Text(v@[j]@),
        decreases v.len() - i,
    {
        out.push(Json::Text(v[i].clone()));
        i = i + 1;
    }
    proof {
        json::list_view(out);
        assert(json::items(out@) =~= text_list(text::texts(v@))->List_0);
    }
    Json::List(out)
}

/// An issue as a report writes it, with its priority and kind told.
pub open spec fn issue_read(value: JsonV, priority: Seq<char>, kind: Seq<char>) -> IssueV {
    IssueV {
        id: value.text("id"@),
        priority,
        kind,
        message: match value.get("message"@) {
            Some(_) => value.text("message"@),
            None => value.text("description"@),
        },
        location: value.text_or_empty("location"@),
        quote: value.text_or_empty("quote"@),
    }
}

fn own(o: Option<&str>) -> (r: Option<String>)
    ensures
        text::opt_text(r) == text::opt_str(o),
{
    match o {
        Some(s) => Some(s.to_owned()),
        None => None,
    }
}

impl AuditIssue {
    /// Reads an issue as a report writes it; its priority and kind are told.
    pub fn read(value: &Json, priority: &str, kind: &str) -> (r: AuditIssue)
        ensures
            r@ == issue_read(value@, priority@, kind@),
    {
        let message = match value.get("message") {
            Some(_) => own(value.get_str("message")),
            None => own(value.get_str("description")),
        };
        AuditIssue {
            id: own(value.get_str("id")),
            priority: priority.to_owned(),
            kind: kind.to_owned(),
            message,
            location: value.str_or_empty("location"),
            quote: value.str_or_empty("quote"),
        }
    }

    /// A copy of the issue.
    pub fn copy(&self) -> (r: AuditIssue)
        ensures
            r@ == self@,
    {
        AuditIssue {
            id: text::clone_opt(&self.id),
            priority: self.priority.clone(),
            kind: self.kind.clone(),
            message: text::clone_opt(&self.message),
            location: self.location.clone(),
            quote: self.quote.clone(),
        }
    }

    /// Whether the issue blocks publication.
    pub fn blocks(&self) -> (r: bool)
        ensures
            r == is_p0(self@),
    {
        text::same(self.priority.as_str(), "P0")
    }
}

/// A copy of a list of issues.
pub fn copy_issues(v: &Vec<AuditIssue>) -> (r: Vec<AuditIssue>)
    ensures
        issue_list(r@) == issue_list(v@),
{
    let mut out: Vec<AuditIssue> = Vec::new();
    let mut i: usize = 0;
    while i < v.len()
        invariant
            i <= v.len(),
            out.len() == i,
            forall|j: int| 0 <= j < i ==> (#[trigger] out@[j])@ == v@[j]@,
        decreases v.len() - i,
    {
        out.push(v[i].copy());
        i = i + 1;
    }
    assert(issue_list(out@) =~= issue_list(v@));
    out
}

/// The issues that block, in order.
pub fn p0_issues(v: &Vec<AuditIssue>) -> (r: Vec<AuditIssue>)
    ensures
        issue_list(r@) == p0_only(issue_list(v@)),
{
    let mut out: Vec<AuditIssue> = Vec::new();
    let ghost all = issue_list(v@);
    let mut i: usize = 0;
    assert(issue_list(out@) =~= p0_only(all.take(0)));
    while i < v.len()
        invariant
            i <= v.len(),
            all == issue_list(v@),
            issue_list(out@) == p0_only(all.take(i as int)),
        decreases v.len() - i,
    {
        let ghost before = issue_list(out@);
        proof {
            assert(all.take(i + 1).drop_last() =~= all.take(i as int));
            assert(all.take(i + 1).last() == v@[i as int]@);
        }
        if v[i].blocks() {
            let c = v[i].copy();
            out.push(c);
            assert(issue_list(out@) =~= before.push(c@));
        }
        i = i + 1;
    }
    assert(all.take(i as int) =~= all);
    out
}

/// The issues that do not block, in order.
pub fn other_issues(v: &Vec<AuditIssue>) -> (r: Vec<AuditIssue>)
    ensures
        issue_list(r@) == others_only(issue_list(v@)),
{
    let mut out: Vec<AuditIssue> = Vec::new();
    let ghost all = issue_list(v@);
    let mut i: usize = 0;
    assert(issue_list(out@) =~= others_only(all.take(0)));
    while i < v.len()
        invariant
            i <= v.len(),
            all == issue_list(v@),
            issue_list(out@) == others_only(all.take(i as int)),
        decreases v.len() - i,
    {
        let ghost before = issue_list(out@);
        proof {
            assert(all.take(i + 1).drop_last() =~= all.take(i as int));
            assert(all.take(i + 1).last() == v@[i as int]@);
        }
        if !v[i].blocks() {
            let c = v[i].copy();
            out.push(c);
            assert(issue_list(out@) =~= before.push(c@));
        }
        i = i + 1;
    }
    assert(all.take(i as int) =~= all);
    out
}

/// How many issues have the priority.
pub fn count_with_priority(v: &Vec<AuditIssue>, p: &str) -> (r: usize)
    ensures
        r == count_priority(issue_list(v@), p@),
{
    let ghost all = issue_list(v@);
    let mut n: usize = 0;
    let mut i: usize = 0;
    assert(all.take(0) =~= Seq::<IssueV>::empty());
    while i < v.len()
        invariant
            i <= v.len(),
            n <= i,
            all == issue_list(v@),
            n == count_priority(all.take(i as int), p@),
        decreases v.len() - i,
    {
        proof {
            assert(all.take(i + 1).drop_last() =~= all.take(i as int));
            assert(all.take(i + 1).last() == v@[i as int]@);
        }
        if text::same(v[i].priority.as_str(), p) {
            n = n + 1;
        }
        i = i + 1;
    }
    assert(all.take(i as int) =~= all);
    n
}

/// The ids of the issues that have one, in order.
pub fn issue_ids(v: &Vec<AuditIssue>) -> (r: Vec<String>)
    ensures
        text::texts(r@) == ids_of(issue_list(v@)),
{
    let mut out: Vec<String> = Vec::new();
    let ghost all = issue_list(v@);
    let mut i: usize = 0;
    assert(text::texts(out@) =~= ids_of(all.take(0)));
    while i < v.len()
        invariant
            i <= v.len(),
            all == issue_list(v@),
            text::texts(out@) == ids_of(all.take(i as int)),
        decreases v.len() - i,
    {
        let ghost before = text::texts(out@);
        proof {
            assert(all.take(i + 1).drop_last() =~= all.take(i as int));
            assert(all.take(i + 1).last() == v@[i as int]@);
        }
        match &v[i].id {
            Some(id) => {
                out.push(id.clone());
                assert(text::texts(out@) =~= before.push(id@));
            },
            None => {},
        }
        i = i + 1;
    }
    assert(all.take(i as int) =~= all);
    out
}

} // verus!
