//! What holds of a tool's stream once its final output is joined to it.

use vstd::prelude::*;

use crate::prompts;
use crate::text;

verus! {

/// The text ends in no white space.
pub open spec fn bare(s: Seq<char>) -> bool {
    s.len() > 0 ==> !text::is_space(s.last())
}

/// No line of the text ends in white space.
pub open spec fn bare_lines(s: Seq<char>) -> bool {
    forall|i: int| 0 <= i < text::lines_of(s).len() ==> bare(#[trigger] text::lines_of(s)[i])
}

// ---------------------------------------------------------------------------
// Trimming and joining
// ---------------------------------------------------------------------------

proof fn bare_stays(s: Seq<char>)
    ensures
        bare(text::trim_back(s)),
        text::trim_back(text::trim_back(s)) == text::trim_back(s),
        bare(s) ==> text::trim_back(s) == s,
{
    text::trim_back_bare(s);
}

/// White space behind a text goes, whatever stands before the text.
proof fn trim_behind(a: Seq<char>, b: Seq<char>)
    requires
        text::trim_back(b).len() > 0,
    ensures
        text::trim_back(a + b) == a + text::trim_back(b),
    decreases b.len(),
{
    assert((a + b).last() == b.last());
    if text::is_space(b.last()) {
        assert((a + b).drop_last() =~= a + b.drop_last());
        trim_behind(a, b.drop_last());
    }
}

proof fn front_is_cut(s: Seq<char>)
    ensures
        text::trim_front(s).len() <= s.len(),
        s == s.take(s.len() - text::trim_front(s).len()) + text::trim_front(s),
    decreases s.len(),
{
    if s.len() > 0 && text::is_space(s[0]) {
        let r = s.drop_first();
        front_is_cut(r);
        let n = r.len() - text::trim_front(r).len();
        assert(s =~= seq![s[0]] + r);
        assert(s.take(n + 1) =~= seq![s[0]] + r.take(n));
        assert(s =~= s.take(n + 1) + text::trim_front(r));
    } else {
        assert(s =~= s.take(0) + s);
    }
}

/// A text that is not blank holds its trimmed form at the end of what is left
/// without the white space behind it.
proof fn trimmed_is_held(s: Seq<char>)
    requires
        text::trimmed(s).len() > 0,
    ensures
        text::trim_back(s).len() > 0,
        text::occurs(text::trim_back(s), text::trimmed(s)),
{
    front_is_cut(s);
    let a = s.take(s.len() - text::trim_front(s).len());
    trim_behind(a, text::trim_front(s));
    held_behind(a, text::trimmed(s));
}

proof fn held_behind(a: Seq<char>, b: Seq<char>)
    ensures
        text::occurs(a + b, b),
{
    assert((a + b).subrange(a.len() as int, (a.len() + b.len()) as int) =~= b);
    assert(text::occurs_at(a + b, b, a.len() as int));
}

/// What stands in a part stands in the whole.
proof fn held_in_whole(a: Seq<char>, b: Seq<char>, p: Seq<char>)
    ensures
        text::occurs(a, p) ==> text::occurs(a + b, p),
        text::occurs(b, p) ==> text::occurs(a + b, p),
{
    if text::occurs(a, p) {
        let i = choose|i: int| text::occurs_at(a, p, i);
        assert((a + b).subrange(i, i + p.len()) =~= a.subrange(i, i + p.len()));
        assert(text::occurs_at(a + b, p, i));
    }
    if text::occurs(b, p) {
        let i = choose|i: int| text::occurs_at(b, p, i);
        let k = a.len() + i;
        assert((a + b).subrange(k, k + p.len()) =~= b.subrange(i, i + p.len()));
        assert(text::occurs_at(a + b, p, k));
    }
}

// ---------------------------------------------------------------------------
// The laws
// ---------------------------------------------------------------------------

/// The stream is never altered, only appended to. Nothing streamed shows the
/// final output alone, and a final output that was streamed adds nothing.
pub proof fn stream_is_kept(streamed: Seq<char>, final_out: Seq<char>)
    ensures
        text::begins(prompts::merged_output(streamed, final_out), text::trim_back(streamed)),
        text::trim_back(streamed).len() == 0 ==> prompts::merged_output(streamed, final_out)
            == text::trimmed(final_out),
        text::trim_back(streamed).len() > 0 && text::occurs(
            text::trim_back(streamed),
            text::trimmed(final_out),
        ) ==> prompts::merged_output(streamed, final_out) == text::trim_back(streamed),
{
    let s = text::trim_back(streamed);
    let r = prompts::merged_output(streamed, final_out);
    assert(r.subrange(0, s.len() as int) =~= s);
}

/// A stream that holds the final output takes no more.
proof fn held_takes_no_more(r: Seq<char>, final_out: Seq<char>)
    requires
        text::trim_back(r).len() > 0,
        text::occurs(text::trim_back(r), text::trimmed(final_out)),
    ensures
        prompts::merged_output(r, final_out) == text::trim_back(r),
{
}

/// What the stream becomes with the coda behind it.
proof fn with_coda(s: Seq<char>, hard: Seq<char>)
    requires
        text::trimmed(hard).len() > 0,
    ensures
        ({
            let again = text::trim_back(prompts::on_new_line(s, hard));
            &&& again.len() > 0
            &&& text::occurs(again, text::trimmed(hard))
            &&& text::occurs(s, "一致性通过"@) ==> text::occurs(again, "一致性通过"@)
            &&& text::occurs(s, "结果：通过"@) ==> text::occurs(again, "结果：通过"@)
        }),
{
    trimmed_is_held(hard);
    trim_behind(s + "\n"@, hard);
    let h = text::trim_back(hard);
    let again = s + "\n"@ + h;
    assert(again =~= s + ("\n"@ + h));
    held_in_whole(s, "\n"@ + h, "一致性通过"@);
    held_in_whole(s, "\n"@ + h, "结果：通过"@);
    held_in_whole(s + "\n"@, h, text::trimmed(hard));
}

/// Joining the same final output again adds nothing: at most white space behind
/// the text goes.
pub proof fn merging_again_adds_nothing(streamed: Seq<char>, final_out: Seq<char>)
    ensures
        prompts::merged_output(prompts::merged_output(streamed, final_out), final_out)
            == text::trim_back(prompts::merged_output(streamed, final_out)),
{
    let s = text::trim_back(streamed);
    let f = text::trimmed(final_out);
    let hard = prompts::hard_coda(f);
    let r = prompts::merged_output(streamed, final_out);
    bare_stays(streamed);
    bare_stays(text::trim_front(final_out));
    if s.len() == 0 {
        assert(r == f);
        if f.len() > 0 {
            held_behind(Seq::empty(), f);
            assert(Seq::empty() + f =~= f);
            held_takes_no_more(r, final_out);
        }
    } else if r == s {
        assert(text::trim_back(r) == s);
        assert(prompts::merged_output(s, final_out) == r);
    } else if r == prompts::on_new_line(s, f) {
        assert(f.len() > 0);
        assert(r.last() == f.last());
        bare_stays(r);
        held_behind(s + "\n"@, f);
        held_takes_no_more(r, final_out);
    } else {
        assert(r == prompts::on_new_line(s, hard));
        with_coda(s, hard);
        coda_takes_no_more(r, final_out, s);
    }
}

/// A stream that passed and holds the coda already takes no more of a final
/// output that contradicts it.
proof fn coda_takes_no_more(r: Seq<char>, final_out: Seq<char>, s: Seq<char>)
    requires
        text::trim_back(r).len() > 0,
        prompts::contradicts(s, text::trimmed(final_out)),
        text::occurs(s, "一致性通过"@) ==> text::occurs(text::trim_back(r), "一致性通过"@),
        text::occurs(s, "结果：通过"@) ==> text::occurs(text::trim_back(r), "结果：通过"@),
        text::occurs(
            text::trim_back(r),
            text::trimmed(prompts::hard_coda(text::trimmed(final_out))),
        ),
    ensures
        prompts::merged_output(r, final_out) == text::trim_back(r),
{
}

/// Where no line of the final output ends in white space, joining it again
/// changes nothing.
pub proof fn merging_settles(streamed: Seq<char>, final_out: Seq<char>)
    requires
        bare_lines(final_out),
    ensures
        prompts::merged_output(prompts::merged_output(streamed, final_out), final_out)
            == prompts::merged_output(streamed, final_out),
{
    merging_again_adds_nothing(streamed, final_out);
    let s = text::trim_back(streamed);
    let f = text::trimmed(final_out);
    let hard = prompts::hard_coda(f);
    let r = prompts::merged_output(streamed, final_out);
    bare_stays(streamed);
    bare_stays(text::trim_front(final_out));
    bare_stays(r);
    if s.len() > 0 && r != s {
        if r == prompts::on_new_line(s, f) {
            assert(r.last() == f.last());
        } else {
            assert(r == prompts::on_new_line(s, hard));
            assert(hard.len() > 0) by {
                trimmed_is_held(hard);
                text::trim_back_bare(hard);
            }
            coda_is_bare(final_out);
            assert(r.last() == hard.last());
        }
    }
}

// ---------------------------------------------------------------------------
// Lines
// ---------------------------------------------------------------------------

/// What stands before each line feed, a carriage return aside, is no white
/// space, unless the line is empty.
spec fn bare_feeds(s: Seq<char>) -> bool {
    forall|e: int| 0 <= e < s.len() && s[e] == '\n' ==> #[trigger] bare_feed(s, e)
}

spec fn bare_feed(s: Seq<char>, e: int) -> bool {
    let c = if e > 0 && s[e - 1] == '\r' {
        e - 1
    } else {
        e
    };
    c == 0 || s[c - 1] == '\n' || !text::is_space(s[c - 1])
}

proof fn line_end_is_next(s: Seq<char>, i: int)
    requires
        0 <= i <= s.len(),
    ensures
        i <= text::line_end(s, i) <= s.len(),
        text::line_end(s, i) < s.len() ==> s[text::line_end(s, i)] == '\n',
        forall|j: int| i <= j < text::line_end(s, i) ==> #[trigger] s[j] != '\n',
    decreases s.len() - i,
{
    if i < s.len() && s[i] != '\n' {
        line_end_is_next(s, i + 1);
    }
}

/// Lines that end in no white space leave none before a line feed.
proof fn feeds_of_lines(s: Seq<char>, i: int, e: int)
    requires
        0 <= i <= e < s.len(),
        s[e] == '\n',
        i > 0 ==> s[i - 1] == '\n',
        forall|k: int|
            0 <= k < text::lines_from(s, i).len() ==> bare(#[trigger] text::lines_from(s, i)[k]),
    ensures
        bare_feed(s, e),
    decreases s.len() - i,
{
    let n = text::line_end(s, i);
    line_end_is_next(s, i);
    let all = text::lines_from(s, i);
    let first = text::drop_cr(s.subrange(i, n));
    let rest = text::lines_from(s, n + 1);
    assert(n <= e);
    assert(all == seq![first] + rest);
    if n == e {
        assert(bare(all[0]));
    } else {
        assert forall|k: int| 0 <= k < rest.len() implies bare(#[trigger] rest[k]) by {
            assert(rest[k] == all[k + 1]);
        }
        feeds_of_lines(s, n + 1, e);
    }
}

/// The lines of a part that ends in no white space end in none, where those of
/// the whole do not.
proof fn lines_of_part(s: Seq<char>, a: int, b: int, i: int, k: int)
    requires
        bare_feeds(s),
        0 <= a < b <= s.len(),
        !text::is_space(s[b - 1]),
        0 <= i <= b - a,
        0 <= k < text::lines_from(s.subrange(a, b), i).len(),
    ensures
        bare(text::lines_from(s.subrange(a, b), i)[k]),
    decreases b - a - i,
{
    let t = s.subrange(a, b);
    let n = text::line_end(t, i);
    line_end_is_next(t, i);
    let all = text::lines_from(t, i);
    if n < t.len() {
        let whole = t.subrange(i, n);
        let first = text::drop_cr(whole);
        let rest = text::lines_from(t, n + 1);
        assert(all == seq![first] + rest);
        if k == 0 {
            assert(s[a + n] == '\n');
            assert(bare_feed(s, a + n));
            if first.len() > 0 {
                let c = i + first.len();
                assert(first.last() == t[c - 1]);
                assert(t[c - 1] == s[a + c - 1]);
                assert(t[c - 1] != '\n');
                if n > i {
                    assert(whole.last() == t[n - 1]);
                    assert(t[n - 1] == s[a + n - 1]);
                }
            }
        } else {
            lines_of_part(s, a, b, n + 1, k - 1);
            assert(all[k] == rest[k - 1]);
        }
    } else if i < t.len() {
        assert(all =~= seq![t.subrange(i, n)]);
        assert(t.subrange(i, n).last() == s[b - 1]);
    }
}

/// What is kept of a list was in it and passed.
proof fn kept_passed(v: Seq<Seq<char>>, p: spec_fn(Seq<char>) -> bool, i: int)
    requires
        0 <= i < text::filtered(v, p).len(),
    ensures
        p(text::filtered(v, p)[i]),
        v.contains(text::filtered(v, p)[i]),
    decreases v.len(),
{
    let r = v.drop_last();
    let kept = text::filtered(r, p);
    if i < kept.len() {
        kept_passed(r, p, i);
        let j = choose|j: int| 0 <= j < r.len() && r[j] == kept[i];
        assert(v[j] == kept[i]);
    } else {
        assert(v[v.len() - 1] == v.last());
    }
}

/// The coda that is kept of a final output ends in no white space.
proof fn coda_is_bare(final_out: Seq<char>)
    requires
        bare_lines(final_out),
        prompts::hard_coda(text::trimmed(final_out)).len() > 0,
    ensures
        bare(prompts::hard_coda(text::trimmed(final_out))),
{
    let f = text::trimmed(final_out);
    let p = |l: Seq<char>| prompts::coda_line(l);
    let all = text::lines_of(f);
    let kept = text::filtered(all, p);
    assert(kept.len() > 0);
    let m = kept.len() - 1;
    kept_passed(all, p, m);
    let k = choose|k: int| 0 <= k < all.len() && all[k] == kept[m];
    assert(kept.last().len() > 0) by {
        reveal_strlit("硬规则");
        reveal_strlit("修正本章");
        reveal_strlit("——");
    }
    let t = text::trim_front(final_out);
    front_is_cut(final_out);
    text::trim_back_bare(t);
    let a = final_out.len() - t.len();
    let b = a + f.len();
    assert(f =~= final_out.subrange(a, b)) by {
        assert(f =~= t.take(f.len() as int));
        assert forall|j: int| 0 <= j < f.len() implies f[j] == final_out[a + j] by {
            assert(final_out[a + j] == (final_out.take(a) + t)[a + j]);
        }
    }
    assert(f.len() > 0) by {
        if f.len() == 0 {
            assert(all =~= Seq::empty());
        }
    }
    assert forall|e: int| 0 <= e < final_out.len() && final_out[e]
        == '\n' implies #[trigger] bare_feed(final_out, e) by {
        assert forall|j: int| 0 <= j < text::lines_from(final_out, 0).len() implies bare(
            #[trigger] text::lines_from(final_out, 0)[j],
        ) by {
            assert(bare(text::lines_of(final_out)[j]));
        }
        feeds_of_lines(final_out, 0, e);
    }
    assert(final_out[b - 1] == f.last());
    lines_of_part(final_out, a, b, 0, k);
    last_part(kept);
}

/// A joined list ends as its last piece does.
proof fn last_part(parts: Seq<Seq<char>>)
    requires
        parts.len() > 0,
        parts.last().len() > 0,
    ensures
        text::joined(parts, "\n"@).len() > 0,
        text::joined(parts, "\n"@).last() == parts.last().last(),
{
}

} // verus!
