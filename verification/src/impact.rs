//! Revising what depends on an applied change.

use vstd::prelude::*;

use crate::order;
use crate::text;

verus! {

/// What kind of place a change reaches.
#[derive(Clone, Copy, Debug, PartialEq, Eq, Structural)]
pub enum ImpactTargetKind {
    Draft,
    Outline,
    ArcOutline,
    MasterOutline,
    Entity,
    Bible,
    Plot,
}

/// A place that a change reaches.
pub struct ImpactHit {
    pub target_kind: ImpactTargetKind,
    /// The word for the kind.
    pub kind_word: String,
    /// The kinds with lower ranks are revised first.
    pub rank: u32,
    pub target_ref: String,
    pub chapter: Option<u32>,
    pub volume: Option<u32>,
    pub quote: String,
    pub matched_key: String,
    pub reason: String,
    /// The kind and the name of the entity, where the place is its card.
    pub entity_kind: String,
    pub entity_name: String,
}

/// A place that a change reaches, by contents.
pub struct HitV {
    pub target_kind: ImpactTargetKind,
    pub kind_word: Seq<char>,
    pub rank: u32,
    pub target_ref: Seq<char>,
    pub chapter: Option<u32>,
    pub volume: Option<u32>,
    pub quote: Seq<char>,
    pub matched_key: Seq<char>,
    pub reason: Seq<char>,
    pub entity_kind: Seq<char>,
    pub entity_name: Seq<char>,
}

impl View for ImpactHit {
    type V = HitV;

    open spec fn view(&self) -> HitV {
        HitV {
            target_kind: self.target_kind,
            kind_word: self.kind_word@,
            rank: self.rank,
            target_ref: self.target_ref@,
            chapter: self.chapter,
            volume: self.volume,
            quote: self.quote@,
            matched_key: self.matched_key@,
            reason: self.reason@,
            entity_kind: self.entity_kind@,
            entity_name: self.entity_name@,
        }
    }
}

/// The places by contents.
pub open spec fn hit_list(v: Seq<ImpactHit>) -> Seq<HitV> {
    Seq::new(v.len(), |i: int| v[i]@)
}

/// The change that was applied.
pub struct ImpactSource {
    pub id: String,
    pub kind_word: String,
    pub before_snippet: String,
    pub after_snippet: String,
}

/// The change that was applied, by contents.
pub struct SourceV {
    pub id: Seq<char>,
    pub kind_word: Seq<char>,
    pub before_snippet: Seq<char>,
    pub after_snippet: Seq<char>,
}

impl View for ImpactSource {
    type V = SourceV;

    open spec fn view(&self) -> SourceV {
        SourceV {
            id: self.id@,
            kind_word: self.kind_word@,
            before_snippet: self.before_snippet@,
            after_snippet: self.after_snippet@,
        }
    }
}

// ---------------------------------------------------------------------------
// One entry for each place
// ---------------------------------------------------------------------------

/// What a place is known by.
pub open spec fn key_of(h: HitV) -> Seq<char> {
    h.kind_word + ":"@ + h.target_ref
}

/// Two entries for one place: the quotes and the matched words are gathered, the
/// quotes up to two hundred characters.
pub open spec fn gathered(a: HitV, b: HitV) -> HitV {
    let quote = a.quote + "；"@ + b.quote;
    HitV {
        quote: if b.quote.len() == 0 || text::occurs(a.quote, b.quote) {
            a.quote
        } else {
            text::first_chars(quote, 200)
        },
        matched_key: if b.matched_key.len() == 0 || text::occurs(a.matched_key, b.matched_key) {
            a.matched_key
        } else {
            a.matched_key + ","@ + b.matched_key
        },
        ..a
    }
}

/// The first place at or after `i` whose key does not come before the key.
pub open spec fn spot(m: Seq<HitV>, key: Seq<char>, i: int) -> int
    decreases m.len() - i,
{
    if i < 0 || i >= m.len() || !order::lex_less(key_of(m[i]), key) {
        i
    } else {
        spot(m, key, i + 1)
    }
}

/// A list ordered by keys, with one more entry.
pub open spec fn entered(m: Seq<HitV>, h: HitV) -> Seq<HitV> {
    let i = spot(m, key_of(h), 0);
    if i < m.len() && key_of(m[i]) == key_of(h) {
        m.update(i, gathered(m[i], h))
    } else {
        m.insert(i, h)
    }
}

/// The entries ordered by keys, one for each key.
pub open spec fn by_key(v: Seq<HitV>) -> Seq<HitV>
    decreases v.len(),
{
    if v.len() == 0 {
        Seq::empty()
    } else {
        entered(by_key(v.drop_last()), v.last())
    }
}

/// The one number comes before the other; none comes first.
pub open spec fn chapter_before(a: Option<u32>, b: Option<u32>) -> bool {
    match (a, b) {
        (None, Some(_)) => true,
        (Some(x), Some(y)) => x < y,
        _ => false,
    }
}

/// The one entry is revised before the other: by rank, then by chapter, then by
/// the place's name.
pub open spec fn before(a: HitV, b: HitV) -> bool {
    a.rank < b.rank || (a.rank == b.rank && (chapter_before(a.chapter, b.chapter) || (a.chapter
        == b.chapter && order::lex_less(a.target_ref, b.target_ref))))
}

/// An ordered list with one more entry, after those that do not come later.
pub open spec fn queued(m: Seq<HitV>, h: HitV) -> Seq<HitV>
    decreases m.len(),
{
    if m.len() > 0 && before(h, m.last()) {
        queued(m.drop_last(), h).push(m.last())
    } else {
        m.push(h)
    }
}

/// The entries in the order of revision; equals keep their order.
pub open spec fn by_rank(v: Seq<HitV>) -> Seq<HitV>
    decreases v.len(),
{
    if v.len() == 0 {
        Seq::empty()
    } else {
        queued(by_rank(v.drop_last()), v.last())
    }
}

/// One entry for each place, in the order of revision.
pub open spec fn consolidated(v: Seq<HitV>) -> Seq<HitV> {
    by_rank(by_key(v))
}

fn append_key(h: &ImpactHit) -> (r: String)
    ensures
        r@ == key_of(h@),
{
    let mut s = h.kind_word.clone();
    s.push_str(":");
    s.push_str(h.target_ref.as_str());
    s
}

fn gather(a: ImpactHit, b: ImpactHit) -> (r: ImpactHit)
    ensures
        r@ == gathered(a@, b@),
{
    let mut a = a;
    if !b.quote.as_str().is_empty() && !text::contains(a.quote.as_str(), b.quote.as_str()) {
        let mut q = a.quote.clone();
        q.push_str("；");
        q.push_str(b.quote.as_str());
        a.quote = text::take_chars(q.as_str(), 200);
    }
    if !b.matched_key.as_str().is_empty() && !text::contains(
        a.matched_key.as_str(),
        b.matched_key.as_str(),
    ) {
        let mut k = a.matched_key.clone();
        k.push_str(",");
        k.push_str(b.matched_key.as_str());
        a.matched_key = k;
    }
    a
}

fn enter(m: &mut Vec<ImpactHit>, h: ImpactHit)
    ensures
        hit_list(final(m)@) == entered(hit_list(old(m)@), h@),
{
    let ghost mv = hit_list(m@);
    let ghost hv = h@;
    let key = append_key(&h);
    let mut i: usize = 0;
    let mut here = false;
    while i < m.len() && !here
        invariant
            i <= m.len(),
            mv == hit_list(m@),
            key@ == key_of(hv),
            spot(mv, key@, 0) == spot(mv, key@, i as int),
            here ==> i < m.len() && !order::lex_less(key_of(mv[i as int]), key@),
        decreases m.len() - i + (if here { 0int } else { 1int }),
    {
        assert(mv[i as int] == m@[i as int]@);
        let other = append_key(&m[i]);
        if order::less(other.as_str(), key.as_str()) {
            i = i + 1;
        } else {
            here = true;
        }
    }
    assert(spot(mv, key@, 0) == i);
    if i < m.len() {
        assert(mv[i as int] == m@[i as int]@);
        let other = append_key(&m[i]);
        if text::same(other.as_str(), key.as_str()) {
            let old_hit = m.remove(i);
            let one = gather(old_hit, h);
            m.insert(i, one);
            assert(hit_list(m@) =~= mv.update(i as int, gathered(mv[i as int], hv)));
            return;
        }
    }
    m.insert(i, h);
    assert(hit_list(m@) =~= mv.insert(i as int, hv));
}

fn comes_before(a: &ImpactHit, b: &ImpactHit) -> (r: bool)
    ensures
        r == before(a@, b@),
{
    if a.rank != b.rank {
        return a.rank < b.rank;
    }
    match (a.chapter, b.chapter) {
        (None, Some(_)) => true,
        (Some(_), None) => false,
        (Some(x), Some(y)) => if x != y {
            x < y
        } else {
            order::less(a.target_ref.as_str(), b.target_ref.as_str())
        },
        (None, None) => order::less(a.target_ref.as_str(), b.target_ref.as_str()),
    }
}

/// What `queued` does, counted from the end: the entries from `i` on come later.
proof fn queued_at(m: Seq<HitV>, h: HitV, i: int)
    requires
        0 <= i <= m.len(),
        i > 0 ==> !before(h, m[i - 1]),
        forall|j: int| i <= j < m.len() ==> before(h, #[trigger] m[j]),
    ensures
        queued(m, h) == m.insert(i, h),
    decreases m.len(),
{
    if i == m.len() {
        if m.len() > 0 {
            assert(m.last() == m[i - 1]);
        }
        assert(m.insert(i, h) =~= m.push(h));
    } else {
        assert(m.last() == m[m.len() - 1]);
        assert(before(h, m.last()));
        let rest = m.drop_last();
        assert forall|j: int| i <= j < rest.len() implies before(h, #[trigger] rest[j]) by {
            assert(rest[j] == m[j]);
        }
        if i > 0 {
            assert(rest[i - 1] == m[i - 1]);
        }
        queued_at(rest, h, i);
        assert(rest.insert(i, h).push(m.last()) =~= m.insert(i, h));
    }
}

fn queue_up(m: &mut Vec<ImpactHit>, h: ImpactHit)
    ensures
        hit_list(final(m)@) == queued(hit_list(old(m)@), h@),
{
    let ghost mv = hit_list(m@);
    let ghost hv = h@;
    let mut i: usize = m.len();
    let mut done = false;
    while i > 0 && !done
        invariant
            i <= m.len(),
            mv == hit_list(m@),
            hv == h@,
            forall|j: int| i <= j < mv.len() ==> before(hv, #[trigger] mv[j]),
            done ==> i > 0 && !before(hv, mv[i - 1]),
        decreases i + (if done { 0int } else { 1int }),
    {
        assert(mv[i - 1] == m@[i - 1]@);
        if comes_before(&h, &m[i - 1]) {
            i = i - 1;
        } else {
            done = true;
        }
    }
    m.insert(i, h);
    proof {
        assert(hit_list(m@) =~= mv.insert(i as int, hv));
        queued_at(mv, hv, i as int);
    }
}

impl ImpactHit {
    /// A copy of the place.
    pub fn copy(&self) -> (r: ImpactHit)
        ensures
            r@ == self@,
    {
        ImpactHit {
            target_kind: self.target_kind,
            kind_word: self.kind_word.clone(),
            rank: self.rank,
            target_ref: self.target_ref.clone(),
            chapter: self.chapter,
            volume: self.volume,
            quote: self.quote.clone(),
            matched_key: self.matched_key.clone(),
            reason: self.reason.clone(),
            entity_kind: self.entity_kind.clone(),
            entity_name: self.entity_name.clone(),
        }
    }
}

/// One entry for each place, in the order of revision.
pub fn consolidate_impact_hits(hits: &Vec<ImpactHit>) -> (r: Vec<ImpactHit>)
    ensures
        hit_list(r@) == consolidated(hit_list(hits@)),
{
    let ghost all = hit_list(hits@);
    let mut keyed: Vec<ImpactHit> = Vec::new();
    let mut i: usize = 0;
    assert(hit_list(keyed@) =~= by_key(all.take(0)));
    while i < hits.len()
        invariant
            i <= hits.len(),
            all == hit_list(hits@),
            hit_list(keyed@) == by_key(all.take(i as int)),
        decreases hits.len() - i,
    {
        assert(all.take(i + 1).drop_last() =~= all.take(i as int));
        assert(all.take(i + 1).last() == hits@[i as int]@);
        enter(&mut keyed, hits[i].copy());
        i = i + 1;
    }
    assert(all.take(i as int) =~= all);
    let ghost kv = hit_list(keyed@);
    let mut out: Vec<ImpactHit> = Vec::new();
    let mut k: usize = 0;
    assert(hit_list(out@) =~= by_rank(kv.take(0)));
    while k < keyed.len()
        invariant
            k <= keyed.len(),
            kv == hit_list(keyed@),
            hit_list(out@) == by_rank(kv.take(k as int)),
        decreases keyed.len() - k,
    {
        assert(kv.take(k + 1).drop_last() =~= kv.take(k as int));
        assert(kv.take(k + 1).last() == keyed@[k as int]@);
        queue_up(&mut out, keyed[k].copy());
        k = k + 1;
    }
    assert(kv.take(k as int) =~= kv);
    out
}

// ---------------------------------------------------------------------------
// Laws of the order
// ---------------------------------------------------------------------------

/// The keys ascend, so that none occurs twice.
pub open spec fn keys_ascend(m: Seq<HitV>) -> bool {
    forall|i: int, j: int|
        0 <= i < j < m.len() ==> order::lex_less(key_of(#[trigger] m[i]), key_of(#[trigger] m[j]))
}

proof fn spot_bounds(m: Seq<HitV>, key: Seq<char>, i: int)
    requires
        0 <= i <= m.len(),
    ensures
        i <= spot(m, key, i) <= m.len(),
        forall|j: int| i <= j < spot(m, key, i) ==> order::lex_less(key_of(#[trigger] m[j]), key),
        spot(m, key, i) < m.len() ==> !order::lex_less(key_of(m[spot(m, key, i)]), key),
    decreases m.len() - i,
{
    if i < m.len() && order::lex_less(key_of(m[i]), key) {
        spot_bounds(m, key, i + 1);
    }
}

/// Some entry has the key.
pub open spec fn holds_key(m: Seq<HitV>, key: Seq<char>) -> bool {
    exists|i: int| 0 <= i < m.len() && key_of(#[trigger] m[i]) == key
}

proof fn entered_keys(m: Seq<HitV>, h: HitV)
    requires
        keys_ascend(m),
    ensures
        keys_ascend(entered(m, h)),
        forall|key: Seq<char>| #[trigger]
            holds_key(entered(m, h), key) <==> (holds_key(m, key) || key == key_of(h)),
{
    let key = key_of(h);
    let i = spot(m, key, 0);
    spot_bounds(m, key, 0);
    let e = entered(m, h);
    if i < m.len() && key_of(m[i]) == key {
        assert(key_of(gathered(m[i], h)) == key);
        assert forall|a: int| 0 <= a < m.len() implies key_of(#[trigger] e[a]) == key_of(m[a]) by {
            if a == i {
            }
        }
        assert forall|k2: Seq<char>| #[trigger] holds_key(e, k2) <==> (holds_key(m, k2) || k2
            == key) by {
            if holds_key(e, k2) {
                let a = choose|a: int| 0 <= a < e.len() && key_of(#[trigger] e[a]) == k2;
                assert(key_of(m[a]) == k2);
            }
            if holds_key(m, k2) {
                let a = choose|a: int| 0 <= a < m.len() && key_of(#[trigger] m[a]) == k2;
                assert(key_of(e[a]) == k2);
            }
            if k2 == key {
                assert(key_of(e[i]) == key);
            }
        }
    } else {
        if i < m.len() {
            order::lex_total(key_of(m[i]), key);
        }
        assert forall|a: int, b: int| 0 <= a < b < e.len() implies order::lex_less(
            key_of(#[trigger] e[a]),
            key_of(#[trigger] e[b]),
        ) by {
            if a == i {
                assert(e[b] == m[b - 1]);
                if b - 1 > i {
                    assert(order::lex_less(key_of(m[i]), key_of(m[b - 1])));
                    order::lex_transitive(key, key_of(m[i]), key_of(m[b - 1]));
                }
            } else if b == i {
                assert(e[a] == m[a]);
            } else {
                let a0 = if a < i {
                    a
                } else {
                    a - 1
                };
                let b0 = if b < i {
                    b
                } else {
                    b - 1
                };
                assert(e[a] == m[a0]);
                assert(e[b] == m[b0]);
            }
        }
        assert forall|k2: Seq<char>| #[trigger] holds_key(e, k2) <==> (holds_key(m, k2) || k2
            == key) by {
            if holds_key(e, k2) {
                let a = choose|a: int| 0 <= a < e.len() && key_of(#[trigger] e[a]) == k2;
                if a < i {
                    assert(e[a] == m[a]);
                } else if a > i {
                    assert(e[a] == m[a - 1]);
                }
            }
            if holds_key(m, k2) {
                let a = choose|a: int| 0 <= a < m.len() && key_of(#[trigger] m[a]) == k2;
                if a < i {
                    assert(e[a] == m[a]);
                } else {
                    assert(e[a + 1] == m[a]);
                }
            }
            if k2 == key {
                assert(e[i] == h);
            }
        }
    }
}

proof fn by_key_ascends(v: Seq<HitV>)
    ensures
        keys_ascend(by_key(v)),
        forall|key: Seq<char>| #[trigger] holds_key(by_key(v), key) <==> holds_key(v, key),
    decreases v.len(),
{
    if v.len() > 0 {
        let rest = v.drop_last();
        by_key_ascends(rest);
        entered_keys(by_key(rest), v.last());
        assert forall|key: Seq<char>| #[trigger] holds_key(by_key(v), key) <==> holds_key(v, key) by {
            assert(holds_key(entered(by_key(rest), v.last()), key) == (holds_key(
                by_key(rest),
                key,
            ) || key == key_of(v.last())));
            if holds_key(v, key) {
                let a = choose|a: int| 0 <= a < v.len() && key_of(#[trigger] v[a]) == key;
                if a < v.len() - 1 {
                    assert(rest[a] == v[a]);
                    assert(holds_key(rest, key));
                }
            }
            if holds_key(rest, key) {
                let a = choose|a: int| 0 <= a < rest.len() && key_of(#[trigger] rest[a]) == key;
                assert(v[a] == rest[a]);
            }
            if key == key_of(v.last()) {
                assert(v[v.len() - 1] == v.last());
            }
        }
    }
}

/// No entry comes before one ahead of it.
pub open spec fn in_order(m: Seq<HitV>) -> bool {
    forall|i: int, j: int| 0 <= i < j < m.len() ==> !before(#[trigger] m[j], #[trigger] m[i])
}

proof fn before_carries(a: HitV, b: HitV, c: HitV)
    ensures
        before(a, b) ==> !before(b, a),
        before(a, b) && !before(c, b) ==> !before(c, a),
{
    order::lex_total(a.target_ref, b.target_ref);
    order::lex_total(b.target_ref, c.target_ref);
    order::lex_total(a.target_ref, c.target_ref);
    if before(a, b) && !before(c, b) && before(c, a) {
        if c.rank == a.rank && a.rank == b.rank && c.chapter == a.chapter && a.chapter
            == b.chapter {
            order::lex_transitive(c.target_ref, a.target_ref, b.target_ref);
        }
    }
}

proof fn queued_in_order(m: Seq<HitV>, h: HitV)
    requires
        in_order(m),
    ensures
        in_order(queued(m, h)),
        queued(m, h).to_multiset() == m.to_multiset().insert(h),
        forall|x: HitV| #[trigger] queued(m, h).contains(x) ==> x == h || m.contains(x),
    decreases m.len(),
{
    broadcast use vstd::seq_lib::group_to_multiset_ensures;

    let q = queued(m, h);
    if m.len() > 0 && before(h, m.last()) {
        let rest = m.drop_last();
        assert forall|i: int, j: int| 0 <= i < j < rest.len() implies !before(
            #[trigger] rest[j],
            #[trigger] rest[i],
        ) by {
            assert(rest[i] == m[i] && rest[j] == m[j]);
        }
        queued_in_order(rest, h);
        let qr = queued(rest, h);
        assert(m =~= rest.push(m.last()));
        assert(q.to_multiset() =~= m.to_multiset().insert(h));
        assert forall|i: int, j: int| 0 <= i < j < q.len() implies !before(
            #[trigger] q[j],
            #[trigger] q[i],
        ) by {
            if j == q.len() - 1 {
                assert(q[j] == m.last());
                assert(q[i] == qr[i]);
                assert(qr.contains(qr[i]));
                if qr[i] == h {
                    before_carries(h, m.last(), h);
                } else {
                    let a = choose|a: int| 0 <= a < rest.len() && rest[a] == qr[i];
                    assert(m[a] == qr[i]);
                    assert(m[m.len() - 1] == m.last());
                }
            } else {
                assert(q[i] == qr[i] && q[j] == qr[j]);
            }
        }
        assert forall|x: HitV| #[trigger] q.contains(x) implies x == h || m.contains(x) by {
            let a = choose|a: int| 0 <= a < q.len() && q[a] == x;
            if a == q.len() - 1 {
                assert(m[m.len() - 1] == x);
            } else {
                assert(qr[a] == x);
                assert(qr.contains(x));
                if x != h {
                    let b = choose|b: int| 0 <= b < rest.len() && rest[b] == x;
                    assert(m[b] == x);
                }
            }
        }
    } else {
        assert forall|i: int, j: int| 0 <= i < j < q.len() implies !before(
            #[trigger] q[j],
            #[trigger] q[i],
        ) by {
            if j == q.len() - 1 {
                assert(q[j] == h);
                assert(q[i] == m[i]);
                if i < m.len() - 1 {
                    assert(!before(m[m.len() - 1], m[i]));
                    if before(h, m[i]) {
                        before_carries(h, m[i], m.last());
                        not_before_carries(h, m.last(), m[i]);
                    }
                }
            } else {
                assert(q[i] == m[i] && q[j] == m[j]);
            }
        }
        assert forall|x: HitV| #[trigger] q.contains(x) implies x == h || m.contains(x) by {
            let a = choose|a: int| 0 <= a < q.len() && q[a] == x;
            if a < m.len() {
                assert(m[a] == x);
            }
        }
    }
}

/// What does not come before another does not come before one that the other
/// does not precede.
proof fn not_before_carries(a: HitV, b: HitV, c: HitV)
    requires
        !before(a, b),
        !before(b, c),
    ensures
        !before(a, c),
{
    order::lex_total(a.target_ref, b.target_ref);
    order::lex_total(b.target_ref, c.target_ref);
    order::lex_total(a.target_ref, c.target_ref);
    if before(a, c) {
        if a.rank == b.rank && b.rank == c.rank && a.chapter == b.chapter && b.chapter
            == c.chapter {
            if order::lex_less(b.target_ref, a.target_ref) {
                order::lex_transitive(b.target_ref, a.target_ref, c.target_ref);
            }
        }
    }
}

proof fn by_rank_in_order(v: Seq<HitV>)
    ensures
        in_order(by_rank(v)),
        by_rank(v).to_multiset() == v.to_multiset(),
    decreases v.len(),
{
    broadcast use vstd::seq_lib::group_to_multiset_ensures;

    if v.len() > 0 {
        by_rank_in_order(v.drop_last());
        queued_in_order(by_rank(v.drop_last()), v.last());
        assert(v =~= v.drop_last().push(v.last()));
        assert(by_rank(v).to_multiset() =~= v.to_multiset());
    } else {
        assert(v =~= Seq::<HitV>::empty());
    }
}

/// The places are revised in order: none comes before one ahead of it.
pub proof fn consolidated_is_ordered(v: Seq<HitV>)
    ensures
        in_order(consolidated(v)),
{
    by_rank_in_order(by_key(v));
}

/// No place is lost and none is revised twice.
pub proof fn consolidated_holds_each_place_once(v: Seq<HitV>)
    ensures
        forall|key: Seq<char>| #[trigger] holds_key(consolidated(v), key) <==> holds_key(v, key),
        forall|i: int, j: int|
            0 <= i < j < consolidated(v).len() ==> key_of(#[trigger] consolidated(v)[i]) != key_of(
                #[trigger] consolidated(v)[j],
            ),
{
    broadcast use vstd::seq_lib::group_to_multiset_ensures;

    let k = by_key(v);
    let c = consolidated(v);
    by_key_ascends(v);
    by_rank_in_order(k);
    assert forall|key: Seq<char>| #[trigger] holds_key(c, key) <==> holds_key(v, key) by {
        assert(holds_key(k, key) <==> holds_key(v, key));
        if holds_key(c, key) {
            let a = choose|a: int| 0 <= a < c.len() && key_of(#[trigger] c[a]) == key;
            assert(c.contains(c[a]));
            assert(c.to_multiset().count(c[a]) > 0);
            assert(k.contains(c[a]));
            let b = choose|b: int| 0 <= b < k.len() && k[b] == c[a];
            assert(key_of(k[b]) == key);
        }
        if holds_key(k, key) {
            let a = choose|a: int| 0 <= a < k.len() && key_of(#[trigger] k[a]) == key;
            assert(k.contains(k[a]));
            assert(k.to_multiset().count(k[a]) > 0);
            assert(c.contains(k[a]));
            let b = choose|b: int| 0 <= b < c.len() && c[b] == k[a];
            assert(key_of(c[b]) == key);
        }
    }
    assert forall|i: int, j: int| 0 <= i < j < c.len() implies key_of(#[trigger] c[i]) != key_of(
        #[trigger] c[j],
    ) by {
        if key_of(c[i]) == key_of(c[j]) {
            assert(c.contains(c[i]) && c.contains(c[j]));
            assert(c.to_multiset().count(c[i]) > 0 && c.to_multiset().count(c[j]) > 0);
            assert(k.contains(c[i]) && k.contains(c[j]));
            let a = choose|a: int| 0 <= a < k.len() && k[a] == c[i];
            let b = choose|b: int| 0 <= b < k.len() && k[b] == c[j];
            order::lex_total(key_of(k[a]), key_of(k[b]));
            assert(a == b);
            assert(k.no_duplicates()) by {
                assert forall|x: int, y: int| 0 <= x < k.len() && 0 <= y < k.len() && x
                    != y implies k[x] != k[y] by {
                    order::lex_total(key_of(k[x]), key_of(k[y]));
                    if x < y {
                        assert(order::lex_less(key_of(k[x]), key_of(k[y])));
                    } else {
                        assert(order::lex_less(key_of(k[y]), key_of(k[x])));
                    }
                }
            }
            k.lemma_multiset_has_no_duplicates();
            c.lemma_multiset_has_no_duplicates_conv();
            assert(c[i] != c[j]);
        }
    }
}

} // verus!
