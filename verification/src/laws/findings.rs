//! What becomes of the issues that an audit found.

use vstd::prelude::*;

use crate::issues;
use crate::issues::IssueV;

verus! {

/// The ids taken from a list are those of its issues.
pub proof fn ids_are_theirs(s: Seq<IssueV>)
    ensures
        forall|x: Seq<char>| #[trigger]
            issues::ids_of(s).contains(x) <==> (exists|i: int|
                0 <= i < s.len() && (#[trigger] s[i]).id == Some(x)),
    decreases s.len(),
{
    if s.len() > 0 {
        let r = s.drop_last();
        ids_are_theirs(r);
        assert forall|x: Seq<char>| #[trigger] issues::ids_of(s).contains(x) <==> (exists|i: int|
            0 <= i < s.len() && (#[trigger] s[i]).id == Some(x)) by {
            let before = issues::ids_of(r);
            if issues::ids_of(s).contains(x) {
                let k = choose|k: int|
                    0 <= k < issues::ids_of(s).len() && issues::ids_of(s)[k] == x;
                if k < before.len() {
                    assert(before[k] == x);
                    assert(before.contains(x));
                    let i = choose|i: int| 0 <= i < r.len() && (#[trigger] r[i]).id == Some(x);
                    assert(s[i].id == Some(x));
                } else {
                    assert(s[s.len() - 1].id == Some(x));
                }
            }
            if exists|i: int| 0 <= i < s.len() && (#[trigger] s[i]).id == Some(x) {
                let i = choose|i: int| 0 <= i < s.len() && (#[trigger] s[i]).id == Some(x);
                if i < r.len() {
                    assert(r[i].id == Some(x));
                    assert(before.contains(x));
                    let k = choose|k: int| 0 <= k < before.len() && before[k] == x;
                    assert(issues::ids_of(s)[k] == x);
                } else {
                    assert(issues::ids_of(s) == before.push(x));
                    assert(issues::ids_of(s)[before.len() as int] == x);
                }
            }
        }
    }
}

/// The blocking issues of a list are those marked `P0`, the others all the rest.
pub proof fn blocking_are_marked(s: Seq<IssueV>)
    ensures
        forall|x: IssueV| #[trigger]
            issues::p0_only(s).contains(x) <==> s.contains(x) && x.priority == "P0"@,
        forall|x: IssueV| #[trigger]
            issues::others_only(s).contains(x) <==> s.contains(x) && x.priority != "P0"@,
        issues::p0_only(s).len() + issues::others_only(s).len() == s.len(),
    decreases s.len(),
{
    if s.len() > 0 {
        let r = s.drop_last();
        let last = s.last();
        blocking_are_marked(r);
        assert(s =~= r.push(last));
        assert forall|x: IssueV| s.contains(x) <==> r.contains(x) || x == last by {
            if r.contains(x) {
                let k = choose|k: int| 0 <= k < r.len() && r[k] == x;
                assert(s[k] == x);
            }
            if x == last {
                assert(s[s.len() - 1] == x);
            }
            if s.contains(x) {
                let k = choose|k: int| 0 <= k < s.len() && s[k] == x;
                if k < r.len() {
                    assert(r[k] == x);
                }
            }
        }
        pushed(issues::p0_only(r), last);
        pushed(issues::others_only(r), last);
    }
}

proof fn pushed(v: Seq<IssueV>, last: IssueV)
    ensures
        forall|x: IssueV| #[trigger] v.push(last).contains(x) <==> v.contains(x) || x == last,
{
    assert forall|x: IssueV| #[trigger] v.push(last).contains(x) <==> v.contains(x) || x == last by {
        if v.contains(x) {
            let k = choose|k: int| 0 <= k < v.len() && v[k] == x;
            assert(v.push(last)[k] == x);
        }
        if x == last {
            assert(v.push(last)[v.len() as int] == x);
        }
    }
}

/// Where some blocking issue has an id, the ids of the blocking issues are those
/// of the issues marked `P0`.
pub proof fn blocking_ids(s: Seq<IssueV>, x: Seq<char>)
    ensures
        issues::ids_of(issues::p0_only(s)).contains(x) <==> (exists|i: int|
            0 <= i < s.len() && (#[trigger] s[i]).id == Some(x) && s[i].priority == "P0"@),
{
    let p = issues::p0_only(s);
    ids_are_theirs(p);
    blocking_are_marked(s);
    if issues::ids_of(p).contains(x) {
        let i = choose|i: int| 0 <= i < p.len() && (#[trigger] p[i]).id == Some(x);
        assert(p.contains(p[i]));
        let k = choose|k: int| 0 <= k < s.len() && s[k] == p[i];
        assert(s[k].id == Some(x));
    }
    if exists|i: int| 0 <= i < s.len() && (#[trigger] s[i]).id == Some(x) && s[i].priority
        == "P0"@ {
        let i = choose|i: int|
            0 <= i < s.len() && (#[trigger] s[i]).id == Some(x) && s[i].priority == "P0"@;
        assert(s.contains(s[i]));
        assert(p.contains(s[i]));
        let k = choose|k: int| 0 <= k < p.len() && p[k] == s[i];
        assert(p[k].id == Some(x));
    }
}

} // verus!
