//! Volumes are named in the same words as chapters, but for the unit.

use vstd::prelude::*;

use crate::intent;
use crate::text;

verus! {

/// The request about a chapter, asked about a volume instead.
pub open spec fn about_volume(t: Seq<char>) -> Seq<char> {
    text::replaced(text::replaced(t, "章"@, "卷"@), "chapter "@, "volume "@)
}

/// No character of the one text stands in the other.
spec fn apart(a: Seq<char>, b: Seq<char>) -> bool {
    forall|i: int, j: int| 0 <= i < a.len() && 0 <= j < b.len() ==> a[i] != b[j]
}

/// The first character of the word stands nowhere else in it.
spec fn own_head(w: Seq<char>) -> bool {
    w.len() > 0 && forall|i: int| 0 < i < w.len() ==> #[trigger] w[i] != w[0]
}

// ---------------------------------------------------------------------------
// Where words stand
// ---------------------------------------------------------------------------

proof fn stands_at(s: Seq<char>, p: Seq<char>, i: int)
    requires
        0 <= i,
        i + p.len() <= s.len(),
        forall|j: int| 0 <= j < p.len() ==> s[i + j] == #[trigger] p[j],
    ensures
        text::occurs_at(s, p, i),
        text::occurs(s, p),
{
    assert(s.subrange(i, i + p.len()) =~= p);
    assert(text::occurs_at(s, p, i));
}

proof fn char_at(s: Seq<char>, p: Seq<char>, i: int, j: int)
    requires
        text::occurs_at(s, p, i),
        0 <= j < p.len(),
    ensures
        0 <= i,
        i + p.len() <= s.len(),
        s[i + j] == p[j],
{
    assert(s.subrange(i, i + p.len())[j] == p[j]);
}

/// Where the pattern stands in `s`.
spec fn place(s: Seq<char>, p: Seq<char>) -> int {
    choose|i: int| text::occurs_at(s, p, i)
}

/// A pattern that shares no character with a word lies on one side of it.
proof fn beside_word(a: Seq<char>, w: Seq<char>, b: Seq<char>, p: Seq<char>)
    requires
        p.len() > 0,
        w.len() > 0,
        apart(p, w),
    ensures
        text::occurs(a + w + b, p) == (text::occurs(a, p) || text::occurs(b, p)),
{
    let s = a + w + b;
    if text::occurs(s, p) {
        let i = place(s, p);
        assert forall|j: int| 0 <= j < p.len() implies s[i + j] == #[trigger] p[j] by {
            char_at(s, p, i, j);
        }
        char_at(s, p, i, 0);
        if i + p.len() <= a.len() {
            assert forall|j: int| 0 <= j < p.len() implies a[i + j] == #[trigger] p[j] by {
                assert(s[i + j] == p[j]);
            }
            stands_at(a, p, i);
        } else if i >= a.len() + w.len() {
            let k = i - a.len() - w.len();
            assert forall|j: int| 0 <= j < p.len() implies b[k + j] == #[trigger] p[j] by {
                assert(s[i + j] == p[j]);
            }
            stands_at(b, p, k);
        } else if i >= a.len() {
            assert(s[i + 0] == p[0]);
            assert(s[i] == w[i - a.len()]);
            assert(false);
        } else {
            let j = a.len() - i;
            assert(s[i + j] == p[j]);
            assert(s[a.len() as int] == w[0]);
            assert(false);
        }
    }
    if text::occurs(a, p) {
        let i = place(a, p);
        assert forall|j: int| 0 <= j < p.len() implies s[i + j] == #[trigger] p[j] by {
            char_at(a, p, i, j);
        }
        char_at(a, p, i, 0);
        stands_at(s, p, i);
    }
    if text::occurs(b, p) {
        let i = place(b, p);
        char_at(b, p, i, 0);
        let k = a.len() + w.len() + i;
        assert forall|j: int| 0 <= j < p.len() implies s[k + j] == #[trigger] p[j] by {
            char_at(b, p, i, j);
        }
        stands_at(s, p, k);
    }
}

/// A word with something behind it, where the word stands in `g + w + b` no
/// earlier than behind `g`: it is this word, or one further back.
proof fn word_and_more(g: Seq<char>, w: Seq<char>, b: Seq<char>, d: Seq<char>)
    requires
        own_head(w),
        d.len() > 0,
        forall|i: int| 0 <= i < g.len() ==> !text::occurs_at(g + w + b, w, i),
    ensures
        text::occurs(g + w + b, w + d) == (text::begins(b, d) || text::occurs(b, w + d)),
{
    let s = g + w + b;
    let p = w + d;
    if text::occurs(s, p) {
        let i = place(s, p);
        assert forall|j: int| 0 <= j < p.len() implies s[i + j] == #[trigger] p[j] by {
            char_at(s, p, i, j);
        }
        char_at(s, p, i, 0);
        if i < g.len() {
            assert forall|j: int| 0 <= j < w.len() implies s[i + j] == #[trigger] w[j] by {
                assert(p[j] == w[j]);
            }
            stands_at(s, w, i);
        } else if i == g.len() {
            assert forall|j: int| 0 <= j < d.len() implies b[0 + j] == #[trigger] d[j] by {
                assert(p[w.len() + j] == d[j]);
                assert(s[i + (w.len() + j)] == p[w.len() + j]);
            }
            stands_at(b, d, 0);
        } else if i < g.len() + w.len() {
            assert(s[i + 0] == p[0]);
            assert(s[i] == w[i - g.len()]);
            assert(p[0] == w[0]);
        } else {
            let k = i - g.len() - w.len();
            assert forall|j: int| 0 <= j < p.len() implies b[k + j] == #[trigger] p[j] by {
                assert(s[i + j] == p[j]);
            }
            stands_at(b, p, k);
        }
    }
    if text::begins(b, d) {
        assert forall|j: int| 0 <= j < p.len() implies s[g.len() + j] == #[trigger] p[j] by {
            if j >= w.len() {
                char_at(b, d, 0, j - w.len());
            }
        }
        char_at(b, d, 0, 0);
        stands_at(s, p, g.len() as int);
    }
    if text::occurs(b, p) {
        let i = place(b, p);
        char_at(b, p, i, 0);
        let k = g.len() + w.len() + i;
        assert forall|j: int| 0 <= j < p.len() implies s[k + j] == #[trigger] p[j] by {
            char_at(b, p, i, j);
        }
        stands_at(s, p, k);
    }
}

// ---------------------------------------------------------------------------
// One word for another
// ---------------------------------------------------------------------------

/// The text from `i` on, where the word next stands at `k`.
proof fn split_at(s: Seq<char>, c: Seq<char>, i: int, k: int)
    requires
        0 <= i <= s.len(),
        c.len() > 0,
        text::find_from(s, c, i) == Some(k),
    ensures
        i <= k,
        k + c.len() <= s.len(),
        s.skip(i) == s.subrange(i, k) + c + s.skip(k + c.len()),
        forall|j: int| 0 <= j < k - i ==> !#[trigger] text::occurs_at(s.skip(i), c, j),
{
    assert(i <= k && text::occurs_at(s, c, k)) by {
        text::find_from_is_first(s, c, i);
    }
    assert(s.subrange(k, k + c.len()) == c);
    assert(s.skip(i) =~= s.subrange(i, k) + s.subrange(k, k + c.len()) + s.skip(k + c.len()));
    assert forall|j: int| 0 <= j < k - i implies !#[trigger] text::occurs_at(s.skip(i), c, j) by {
        if text::occurs_at(s.skip(i), c, j) {
            assert(s.skip(i).subrange(j, j + c.len()) =~= s.subrange(i + j, i + j + c.len()));
            assert(text::occurs_at(s, c, i + j));
            text::find_from_is_first(s, c, i);
        }
    }
}

/// A pattern that shares no character with either word stays where it was.
proof fn others_stay(s: Seq<char>, c: Seq<char>, v: Seq<char>, p: Seq<char>, i: int)
    requires
        0 <= i <= s.len(),
        p.len() > 0,
        c.len() > 0,
        v.len() > 0,
        apart(p, c),
        apart(p, v),
    ensures
        text::occurs(text::replaced_from(s, c, v, i), p) == text::occurs(s.skip(i), p),
    decreases s.len() - i,
{
    text::find_from_is_first(s, c, i);
    match text::find_from(s, c, i) {
        Some(k) => {
            split_at(s, c, i, k);
            let g = s.subrange(i, k);
            let n = k + c.len();
            others_stay(s, c, v, p, n);
            beside_word(g, c, s.skip(n), p);
            beside_word(g, v, text::replaced_from(s, c, v, n), p);
            assert(text::replaced_from(s, c, v, i) == g + v + text::replaced_from(s, c, v, n));
        },
        None => {
            assert(s.skip(i) =~= s.subrange(i, s.len() as int));
        },
    }
}

/// What a text begins with stays, where it shares no character with a word.
proof fn beginning_stays(s: Seq<char>, c: Seq<char>, v: Seq<char>, d: Seq<char>, i: int)
    requires
        0 <= i <= s.len(),
        d.len() > 0,
        c.len() > 0,
        v.len() > 0,
        apart(d, c),
        apart(d, v),
    ensures
        text::begins(text::replaced_from(s, c, v, i), d) == text::begins(s.skip(i), d),
{
    text::find_from_is_first(s, c, i);
    match text::find_from(s, c, i) {
        Some(k) => {
            split_at(s, c, i, k);
            let g = s.subrange(i, k);
            let n = k + c.len();
            let x = s.skip(i);
            let y = text::replaced_from(s, c, v, i);
            let rest = text::replaced_from(s, c, v, n);
            assert(y == g + v + rest);
            if g.len() >= d.len() {
                assert(x.subrange(0, d.len() as int) =~= g.subrange(0, d.len() as int));
                assert(y.subrange(0, d.len() as int) =~= g.subrange(0, d.len() as int));
            } else {
                let m = g.len() as int;
                if text::begins(x, d) {
                    char_at(x, d, 0, m);
                    assert(x[m] == c[0]);
                }
                if text::begins(y, d) {
                    char_at(y, d, 0, m);
                    assert(y[m] == v[0]);
                }
            }
        },
        None => {
            assert(s.skip(i) =~= s.subrange(i, s.len() as int));
        },
    }
}

/// The new word with something behind it stands where the old one did, in a
/// text that did not hold the new word.
proof fn word_goes_over(s: Seq<char>, c: Seq<char>, v: Seq<char>, d: Seq<char>, i: int)
    requires
        0 <= i <= s.len(),
        own_head(c),
        own_head(v),
        d.len() > 0,
        apart(d, c),
        apart(d, v),
        !text::occurs(s, v),
    ensures
        text::occurs(text::replaced_from(s, c, v, i), v + d) == text::occurs(s.skip(i), c + d),
    decreases s.len() - i,
{
    text::find_from_is_first(s, c, i);
    match text::find_from(s, c, i) {
        Some(k) => {
            split_at(s, c, i, k);
            let g = s.subrange(i, k);
            let n = k + c.len();
            let rest = text::replaced_from(s, c, v, n);
            let y = g + v + rest;
            assert(text::replaced_from(s, c, v, i) == y);
            word_goes_over(s, c, v, d, n);
            beginning_stays(s, c, v, d, n);
            assert forall|j: int| 0 <= j < g.len() implies !text::occurs_at(y, v, j) by {
                if text::occurs_at(y, v, j) {
                    if j + v.len() <= g.len() {
                        assert forall|m: int| 0 <= m < v.len() implies s[i + j + m]
                            == #[trigger] v[m] by {
                            char_at(y, v, j, m);
                        }
                        stands_at(s, v, i + j);
                    } else {
                        char_at(y, v, j, g.len() - j);
                        assert(y[g.len() as int] == v[0]);
                    }
                }
            }
            word_and_more(g, v, rest, d);
            word_and_more(g, c, s.skip(n), d);
        },
        None => {
            let x = s.skip(i);
            assert(x =~= s.subrange(i, s.len() as int));
            if text::occurs(x, v + d) {
                let j = place(x, v + d);
                char_at(x, v + d, j, 0);
                assert forall|m: int| 0 <= m < v.len() implies s[i + j + m] == #[trigger] v[m] by {
                    char_at(x, v + d, j, m);
                    assert((v + d)[m] == v[m]);
                }
                stands_at(s, v, i + j);
            }
            if text::occurs(x, c + d) {
                let j = place(x, c + d);
                char_at(x, c + d, j, 0);
                assert forall|m: int| 0 <= m < c.len() implies s[i + j + m] == #[trigger] c[m] by {
                    char_at(x, c + d, j, m);
                    assert((c + d)[m] == c[m]);
                }
                stands_at(s, c, i + j);
            }
        },
    }
}

// ---------------------------------------------------------------------------
// One character for another
// ---------------------------------------------------------------------------

/// The text with the character `b` for each `a`.
spec fn swapped(s: Seq<char>, a: char, b: char) -> Seq<char> {
    s.map_values(
        |c: char|
            if c == a {
                b
            } else {
                c
            },
    )
}

/// Replacing one character by another changes nothing else.
proof fn replaced_is_swapped(s: Seq<char>, p: Seq<char>, w: Seq<char>, i: int)
    requires
        0 <= i <= s.len(),
        p.len() == 1,
        w.len() == 1,
    ensures
        text::replaced_from(s, p, w, i) == swapped(s, p[0], w[0]).skip(i),
    decreases s.len() - i,
{
    text::find_from_is_first(s, p, i);
    let m = swapped(s, p[0], w[0]);
    assert forall|j: int| 0 <= j < s.len() && s[j] == p[0] implies #[trigger] text::occurs_at(
        s,
        p,
        j,
    ) by {
        stands_at(s, p, j);
    }
    match text::find_from(s, p, i) {
        Some(k) => {
            char_at(s, p, k, 0);
            replaced_is_swapped(s, p, w, k + 1);
            let r = text::replaced_from(s, p, w, i);
            assert(r == s.subrange(i, k) + w + m.skip(k + 1));
            assert forall|j: int| 0 <= j < m.skip(i).len() implies r[j] == m.skip(i)[j] by {
                if i + j < k {
                    assert(!text::occurs_at(s, p, i + j));
                    assert(s[i + j] != p[0]);
                }
            }
            assert(r =~= m.skip(i));
        },
        None => {
            let r = s.subrange(i, s.len() as int);
            assert forall|j: int| 0 <= j < r.len() implies r[j] == m.skip(i)[j] by {
                assert(!text::occurs_at(s, p, i + j));
                assert(s[i + j] != p[0]);
            }
            assert(r =~= m.skip(i));
        },
    }
}

/// A pattern stands in a text without `b` where the swapped pattern stands in
/// the swapped text.
proof fn swapping_keeps_places(s: Seq<char>, p: Seq<char>, a: char, b: char)
    requires
        p.len() > 0,
        !s.contains(b),
        !p.contains(b),
    ensures
        text::occurs(s, p) == text::occurs(swapped(s, a, b), swapped(p, a, b)),
{
    let s2 = swapped(s, a, b);
    let p2 = swapped(p, a, b);
    if text::occurs(s, p) {
        let i = place(s, p);
        char_at(s, p, i, 0);
        assert forall|j: int| 0 <= j < p2.len() implies s2[i + j] == #[trigger] p2[j] by {
            char_at(s, p, i, j);
        }
        stands_at(s2, p2, i);
    }
    if text::occurs(s2, p2) {
        let i = place(s2, p2);
        char_at(s2, p2, i, 0);
        assert forall|j: int| 0 <= j < p.len() implies s[i + j] == #[trigger] p[j] by {
            char_at(s2, p2, i, j);
            assert(s.contains(s[i + j]));
            assert(p.contains(p[j]));
        }
        stands_at(s, p, i);
    }
}

// ---------------------------------------------------------------------------
// Numbers
// ---------------------------------------------------------------------------

/// The text holds neither a letter or blank of the two words nor a unit.
spec fn plain(x: Seq<char>) -> bool {
    x.len() > 0 && forall|i: int|
        0 <= i < x.len() ==> ('0' <= #[trigger] x[i] <= '9' || x[i] > '\u{7f}') && x[i] != '章'
            && x[i] != '卷'
}

proof fn number_is_plain(n: nat)
    ensures
        plain(text::dec(n)),
    decreases n,
{
    if n >= 10 {
        number_is_plain(n / 10);
    }
}

#[verifier::rlimit(40)]
proof fn numeral_is_plain(n: int)
    requires
        1 <= n <= 20,
    ensures
        plain(intent::cn_numerals()[n - 1]),
{
    reveal_strlit("一");
    reveal_strlit("二");
    reveal_strlit("三");
    reveal_strlit("四");
    reveal_strlit("五");
    reveal_strlit("六");
    reveal_strlit("七");
    reveal_strlit("八");
    reveal_strlit("九");
    reveal_strlit("十");
    reveal_strlit("十一");
    reveal_strlit("十二");
    reveal_strlit("十三");
    reveal_strlit("十四");
    reveal_strlit("十五");
    reveal_strlit("十六");
    reveal_strlit("十七");
    reveal_strlit("十八");
    reveal_strlit("十九");
    reveal_strlit("二十");
}

/// What the two words are made of.
proof fn words()
    ensures
        own_head("chapter "@),
        own_head("volume "@),
        forall|x: Seq<char>| plain(x) ==> #[trigger] apart(x, "chapter "@) && apart(x, "volume "@),
        !"chapter "@.contains('章'),
        !"chapter "@.contains('卷'),
        !"volume "@.contains('章'),
        !"volume "@.contains('卷'),
        "章"@ == seq!['章'],
        "卷"@ == seq!['卷'],
        "第"@ == seq!['第'],
{
    reveal_strlit("chapter ");
    reveal_strlit("volume ");
    reveal_strlit("章");
    reveal_strlit("卷");
    reveal_strlit("第");
    assert("章"@ =~= seq!['章']);
    assert("卷"@ =~= seq!['卷']);
    assert("第"@ =~= seq!['第']);
}

/// A unit behind a number goes over, and so does a number behind a word.
proof fn one_goes_over(t: Seq<char>, x: Seq<char>)
    requires
        !text::occurs(t, "卷"@),
        !text::occurs(t, "volume "@),
        plain(x),
    ensures
        text::occurs(t, "第"@ + x + "章"@) == text::occurs(about_volume(t), "第"@ + x + "卷"@),
        text::occurs(t, "chapter "@ + x) == text::occurs(about_volume(t), "volume "@ + x),
{
    words();
    let c = "chapter "@;
    let v = "volume "@;
    let u = text::replaced(t, "章"@, "卷"@);
    replaced_is_swapped(t, "章"@, "卷"@, 0);
    let m = swapped(t, '章', '卷');
    assert(m.skip(0) =~= m);
    assert(u == m);
    assert(!t.contains('卷')) by {
        if t.contains('卷') {
            let i = choose|i: int| 0 <= i < t.len() && t[i] == '卷';
            stands_at(t, "卷"@, i);
        }
    }
    let p = "第"@ + x + "章"@;
    let q = "第"@ + x + "卷"@;
    assert(!p.contains('卷'));
    assert(swapped(p, '章', '卷') =~= q);
    swapping_keeps_places(t, p, '章', '卷');
    let cx = c + x;
    assert(!cx.contains('卷') && !cx.contains('章')) by {
        assert forall|i: int| 0 <= i < cx.len() implies cx[i] != '卷' && cx[i] != '章' by {
            if i < c.len() {
                assert(c.contains(c[i]));
            }
        }
    }
    assert(swapped(cx, '章', '卷') =~= cx) by {
        assert forall|i: int| 0 <= i < cx.len() implies swapped(cx, '章', '卷')[i] == cx[i] by {
            assert(cx.contains(cx[i]));
        }
    }
    swapping_keeps_places(t, cx, '章', '卷');
    assert(swapped(v, '章', '卷') =~= v) by {
        assert forall|i: int| 0 <= i < v.len() implies swapped(v, '章', '卷')[i] == v[i] by {
            assert(v.contains(v[i]));
        }
    }
    swapping_keeps_places(t, v, '章', '卷');
    assert(u.skip(0) =~= u);
    assert(apart(q, c) && apart(q, v)) by {
        let y = seq!['第'] + x;
        assert(plain(y));
        assert(apart(y, c));
        assert forall|i: int, j: int| 0 <= i < q.len() && 0 <= j < c.len() implies q[i] != c[j] by {
            if i < y.len() {
                assert(q[i] == y[i]);
            } else {
                assert(c.contains(c[j]));
            }
        }
        assert forall|i: int, j: int| 0 <= i < q.len() && 0 <= j < v.len() implies q[i] != v[j] by {
            if i < y.len() {
                assert(q[i] == y[i]);
            } else {
                assert(v.contains(v[j]));
            }
        }
    }
    others_stay(u, c, v, q, 0);
    assert(apart(x, c));
    word_goes_over(u, c, v, x, 0);
}

proof fn digits_go_over(t: Seq<char>, n: nat)
    requires
        !text::occurs(t, "卷"@),
        !text::occurs(t, "volume "@),
    ensures
        intent::largest_named(t, "章"@, "chapter "@, n) == intent::largest_named(
            about_volume(t),
            "卷"@,
            "volume "@,
            n,
        ),
    decreases n,
{
    if n > 0 {
        number_is_plain(n);
        one_goes_over(t, text::dec(n));
        digits_go_over(t, (n - 1) as nat);
    }
}

proof fn numerals_go_over(t: Seq<char>, n: nat)
    requires
        !text::occurs(t, "卷"@),
        !text::occurs(t, "volume "@),
    ensures
        intent::numeral_named(t, "章"@, n) == intent::numeral_named(about_volume(t), "卷"@, n),
    decreases 21 - n,
{
    if 1 <= n <= 20 {
        numeral_is_plain(n as int);
        one_goes_over(t, intent::cn_numerals()[n - 1]);
        numerals_go_over(t, n + 1);
    }
}

/// Volumes are read exactly as chapters are: a text that names no volume, with
/// the chapter's words replaced by the volume's, names the volume of the same
/// number, or none where it named no chapter.
pub proof fn volumes_are_read_as_chapters(t: Seq<char>)
    requires
        !text::occurs(t, "卷"@),
        !text::occurs(t, "volume "@),
    ensures
        intent::named_number(about_volume(t), "卷"@, "volume "@) == intent::named_number(
            t,
            "章"@,
            "chapter "@,
        ),
{
    digits_go_over(t, 99);
    numerals_go_over(t, 1);
}

proof fn digits_in_range(s: Seq<char>, unit: Seq<char>, word: Seq<char>, n: nat)
    requires
        n <= 99,
    ensures
        intent::largest_named(s, unit, word, n) matches Some(k) ==> 1 <= k <= n
            && intent::names_number(s, unit, word, k as nat),
    decreases n,
{
    if n > 0 {
        digits_in_range(s, unit, word, (n - 1) as nat);
    }
}

proof fn numerals_in_range(s: Seq<char>, unit: Seq<char>, n: nat)
    requires
        1 <= n,
    ensures
        intent::numeral_named(s, unit, n) matches Some(k) ==> n <= k <= 20 && text::occurs(
            s,
            "第"@ + intent::cn_numerals()[k - 1] + unit,
        ),
    decreases 21 - n,
{
    if n <= 20 {
        numerals_in_range(s, unit, n + 1);
    }
}

/// A number that a text names lies between 1 and 99 and stands in the text, in
/// digits or in numerals; a unit without a number names none.
pub proof fn named_number_stands_in_text(s: Seq<char>, unit: Seq<char>, word: Seq<char>)
    ensures
        intent::named_number(s, unit, word) matches Some(n) ==> 1 <= n <= 99 && (
        intent::names_number(s, unit, word, n as nat) || (n <= 20 && text::occurs(
            s,
            "第"@ + intent::cn_numerals()[n - 1] + unit,
        ))),
{
    digits_in_range(s, unit, word, 99);
    numerals_in_range(s, unit, 1);
}

} // verus!
