//! The order of texts, and lists of texts without repetition.

use vstd::prelude::*;

use crate::text;

verus! {

/// `a` comes before `b`, character by character; a proper prefix comes first.
pub open spec fn lex_less(a: Seq<char>, b: Seq<char>) -> bool
    decreases a.len(),
{
    if b.len() == 0 {
        false
    } else if a.len() == 0 {
        true
    } else if a[0] != b[0] {
        a[0] < b[0]
    } else {
        lex_less(a.drop_first(), b.drop_first())
    }
}

/// Of two different texts exactly one comes first, and no text precedes itself.
pub proof fn lex_total(a: Seq<char>, b: Seq<char>)
    ensures
        a == b ==> !lex_less(a, b) && !lex_less(b, a),
        a != b ==> lex_less(a, b) != lex_less(b, a),
    decreases a.len(),
{
    if a.len() > 0 && b.len() > 0 && a[0] == b[0] {
        lex_total(a.drop_first(), b.drop_first());
        assert(a =~= seq![a[0]] + a.drop_first());
        assert(b =~= seq![b[0]] + b.drop_first());
    } else if a.len() == 0 && b.len() == 0 {
        assert(a =~= b);
    }
}

/// The order carries over.
pub proof fn lex_transitive(a: Seq<char>, b: Seq<char>, c: Seq<char>)
    requires
        lex_less(a, b),
        lex_less(b, c),
    ensures
        lex_less(a, c),
    decreases a.len(),
{
    if a.len() > 0 && a[0] == b[0] && b[0] == c[0] {
        lex_transitive(a.drop_first(), b.drop_first(), c.drop_first());
    }
}

/// Whether `a` comes before `b`.
pub fn less(a: &str, b: &str) -> (r: bool)
    ensures
        r == lex_less(a@, b@),
{
    let x = text::to_chars(a);
    let y = text::to_chars(b);
    let mut i: usize = 0;
    assert(a@.skip(0) =~= a@);
    assert(b@.skip(0) =~= b@);
    loop
        invariant
            x@ == a@,
            y@ == b@,
            i <= x.len(),
            i <= y.len(),
            lex_less(a@, b@) == lex_less(a@.skip(i as int), b@.skip(i as int)),
        decreases x.len() - i,
    {
        if i >= y.len() {
            return false;
        }
        if i >= x.len() {
            return true;
        }
        if x[i] != y[i] {
            return x[i] < y[i];
        }
        proof {
            assert(a@.skip(i as int).drop_first() =~= a@.skip(i + 1));
            assert(b@.skip(i as int).drop_first() =~= b@.skip(i + 1));
        }
        i = i + 1;
    }
}

/// The texts are in order, and none occurs twice.
pub open spec fn ascending(s: Seq<Seq<char>>) -> bool {
    forall|i: int, j: int| 0 <= i < j < s.len() ==> lex_less(#[trigger] s[i], #[trigger] s[j])
}

/// The two lists hold the same texts.
pub open spec fn same_members(a: Seq<Seq<char>>, b: Seq<Seq<char>>) -> bool {
    forall|x: Seq<char>| #[trigger] a.contains(x) <==> b.contains(x)
}

/// An ordered list without repetition is settled by which texts it holds.
pub proof fn ascending_is_unique(a: Seq<Seq<char>>, b: Seq<Seq<char>>)
    requires
        ascending(a),
        ascending(b),
        same_members(a, b),
    ensures
        a == b,
    decreases a.len(),
{
    if a.len() == 0 {
        if b.len() > 0 {
            assert(b.contains(b[0]));
            assert(a.contains(b[0]));
        }
        assert(a =~= b);
    } else {
        assert(a.contains(a[0]));
        assert(b.contains(a[0]));
        assert(b.contains(b[0]));
        assert(a.contains(b[0]));
        let k = choose|k: int| 0 <= k < b.len() && b[k] == a[0];
        let m = choose|m: int| 0 <= m < a.len() && a[m] == b[0];
        lex_total(a[0], b[0]);
        assert(a[0] == b[0]);
        let a1 = a.drop_first();
        let b1 = b.drop_first();
        assert forall|x: Seq<char>| #[trigger] a1.contains(x) <==> b1.contains(x) by {
            if a1.contains(x) {
                let i = choose|i: int| 0 <= i < a1.len() && a1[i] == x;
                assert(a[i + 1] == x);
                assert(a.contains(x));
                assert(b.contains(x));
                let j = choose|j: int| 0 <= j < b.len() && b[j] == x;
                assert(lex_less(a[0], a[i + 1]));
                lex_total(a[0], x);
                assert(j > 0);
                assert(b1[j - 1] == x);
            }
            if b1.contains(x) {
                let i = choose|i: int| 0 <= i < b1.len() && b1[i] == x;
                assert(b[i + 1] == x);
                assert(b.contains(x));
                assert(a.contains(x));
                let j = choose|j: int| 0 <= j < a.len() && a[j] == x;
                assert(lex_less(b[0], b[i + 1]));
                lex_total(b[0], x);
                assert(j > 0);
                assert(a1[j - 1] == x);
            }
        }
        assert(ascending(a1)) by {
            assert forall|i: int, j: int| 0 <= i < j < a1.len() implies lex_less(
                #[trigger] a1[i],
                #[trigger] a1[j],
            ) by {
                assert(a1[i] == a[i + 1]);
                assert(a1[j] == a[j + 1]);
            }
        }
        assert(ascending(b1)) by {
            assert forall|i: int, j: int| 0 <= i < j < b1.len() implies lex_less(
                #[trigger] b1[i],
                #[trigger] b1[j],
            ) by {
                assert(b1[i] == b[i + 1]);
                assert(b1[j] == b[j + 1]);
            }
        }
        ascending_is_unique(a1, b1);
        assert(a =~= seq![a[0]] + a1);
        assert(b =~= seq![b[0]] + b1);
    }
}

/// The texts of the list in order, each once.
pub open spec fn sorted_set(all: Seq<Seq<char>>) -> Seq<Seq<char>> {
    choose|b: Seq<Seq<char>>| ascending(b) && #[trigger] same_members(b, all)
}

/// An ordered list without repetition that holds the same texts is the sorted one.
pub proof fn sorted_set_is(all: Seq<Seq<char>>, b: Seq<Seq<char>>)
    requires
        ascending(b),
        same_members(b, all),
    ensures
        sorted_set(all) == b,
{
    let c = sorted_set(all);
    assert(ascending(c) && same_members(c, all));
    assert(same_members(c, b)) by {
        assert forall|x: Seq<char>| #[trigger] c.contains(x) <==> b.contains(x) by {
            assert(c.contains(x) <==> all.contains(x));
            assert(b.contains(x) <==> all.contains(x));
        }
    }
    ascending_is_unique(c, b);
}

/// Puts a text into an ordered list, unless the list holds it.
fn put(out: &mut Vec<String>, x: String)
    requires
        ascending(text::texts(old(out)@)),
    ensures
        ascending(text::texts(final(out)@)),
        forall|y: Seq<char>| #[trigger]
            text::texts(final(out)@).contains(y) <==> (y == x@ || text::texts(old(out)@).contains(
                y,
            )),
{
    let ghost s = text::texts(out@);
    let ghost xv = x@;
    let mut i: usize = 0;
    while i < out.len() && less(out[i].as_str(), x.as_str())
        invariant
            i <= out.len(),
            s == text::texts(out@),
            xv == x@,
            forall|j: int| 0 <= j < i ==> lex_less(#[trigger] s[j], xv),
        decreases out.len() - i,
    {
        assert(s[i as int] == out@[i as int]@);
        i = i + 1;
    }
    if i < out.len() && text::same(out[i].as_str(), x.as_str()) {
        assert(s[i as int] == xv);
        assert(s.contains(xv));
        return;
    }
    out.insert(i, x);
    proof {
        let t = text::texts(out@);
        assert(t =~= s.insert(i as int, xv));
        if i < s.len() {
            lex_total(s[i as int], xv);
        }
        assert forall|a: int, b: int| 0 <= a < b < t.len() implies lex_less(
            #[trigger] t[a],
            #[trigger] t[b],
        ) by {
            if a == i {
                assert(t[b] == s[b - 1]);
                if b - 1 > i {
                    lex_transitive(xv, s[i as int], s[b - 1]);
                }
            } else if b == i {
                assert(t[a] == s[a]);
            }
        }
        assert forall|y: Seq<char>| #[trigger] t.contains(y) <==> (y == xv || s.contains(y)) by {
            if t.contains(y) {
                let k = choose|k: int| 0 <= k < t.len() && t[k] == y;
                if k < i {
                    assert(s[k] == y);
                } else if k > i {
                    assert(s[k - 1] == y);
                }
            }
            if y == xv {
                assert(t[i as int] == y);
            }
            if s.contains(y) {
                let k = choose|k: int| 0 <= k < s.len() && s[k] == y;
                if k < i {
                    assert(t[k] == y);
                } else {
                    assert(t[k + 1] == y);
                }
            }
        }
    }
}

/// The texts of the list in order, each once.
pub fn sorted_unique(v: &Vec<String>) -> (r: Vec<String>)
    ensures
        ascending(text::texts(r@)),
        same_members(text::texts(r@), text::texts(v@)),
        text::texts(r@) == sorted_set(text::texts(v@)),
{
    let mut out: Vec<String> = Vec::new();
    let ghost all = text::texts(v@);
    let mut i: usize = 0;
    while i < v.len()
        invariant
            i <= v.len(),
            all == text::texts(v@),
            ascending(text::texts(out@)),
            same_members(text::texts(out@), all.take(i as int)),
        decreases v.len() - i,
    {
        let ghost before = text::texts(out@);
        put(&mut out, v[i].clone());
        proof {
            let now = text::texts(out@);
            let next = all.take(i + 1);
            assert(all[i as int] == v@[i as int]@);
            assert forall|y: Seq<char>| #[trigger] now.contains(y) <==> next.contains(y) by {
                if next.contains(y) {
                    let k = choose|k: int| 0 <= k < next.len() && next[k] == y;
                    if k < i {
                        assert(all.take(i as int)[k] == y);
                        assert(all.take(i as int).contains(y));
                        assert(before.contains(y));
                    }
                }
                if now.contains(y) {
                    if y == all[i as int] {
                        assert(next[i as int] == y);
                    } else {
                        assert(before.contains(y));
                        assert(all.take(i as int).contains(y));
                        let k = choose|k: int| 0 <= k < i && all.take(i as int)[k] == y;
                        assert(next[k] == y);
                    }
                }
            }
        }
        i = i + 1;
    }
    assert(all.take(i as int) =~= all);
    proof {
        sorted_set_is(all, text::texts(out@));
    }
    out
}

} // verus!
