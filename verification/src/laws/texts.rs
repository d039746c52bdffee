//! What the operations on texts do.

use vstd::prelude::*;

use crate::intent;
use crate::laws::reading;
use crate::prompts;
use crate::prompts::TodoStatus;
use crate::json::JsonV;
use crate::text;

verus! {

/// A trimmed text neither begins nor ends with a blank, and only blanks were taken off.
pub proof fn trimming_takes_off_blanks(a: Seq<char>, s: Seq<char>, b: Seq<char>)
    requires
        s.len() > 0,
        !text::is_space(s[0]),
        !text::is_space(s.last()),
        forall|i: int| 0 <= i < a.len() ==> text::is_space(#[trigger] a[i]),
        forall|i: int| 0 <= i < b.len() ==> text::is_space(#[trigger] b[i]),
    ensures
        text::trimmed(a + s + b) == s,
        text::trimmed(a).len() == 0,
    decreases a.len() + b.len(),
{
    front_goes(a, s + b);
    assert(a + s + b =~= a + (s + b));
    back_goes(s, b);
    assert((s + b)[0] == s[0]);
    assert(text::trim_front(s + b) == s + b);
    assert(a + Seq::<char>::empty() =~= a);
    all_front_goes(a);
}

proof fn front_goes(a: Seq<char>, t: Seq<char>)
    requires
        t.len() > 0,
        !text::is_space(t[0]),
        forall|i: int| 0 <= i < a.len() ==> text::is_space(#[trigger] a[i]),
    ensures
        text::trim_front(a + t) == t,
    decreases a.len(),
{
    if a.len() > 0 {
        assert((a + t).drop_first() =~= a.drop_first() + t);
        assert((a + t)[0] == a[0]);
        front_goes(a.drop_first(), t);
    } else {
        assert(a + t =~= t);
    }
}

proof fn all_front_goes(a: Seq<char>)
    requires
        forall|i: int| 0 <= i < a.len() ==> text::is_space(#[trigger] a[i]),
    ensures
        text::trim_front(a).len() == 0,
    decreases a.len(),
{
    if a.len() > 0 {
        assert(text::is_space(a[0]));
        all_front_goes(a.drop_first());
    }
}

proof fn back_goes(s: Seq<char>, b: Seq<char>)
    requires
        s.len() > 0,
        !text::is_space(s.last()),
        forall|i: int| 0 <= i < b.len() ==> text::is_space(#[trigger] b[i]),
    ensures
        text::trim_back(s + b) == s,
    decreases b.len(),
{
    if b.len() > 0 {
        assert((s + b).drop_last() =~= s + b.drop_last());
        assert((s + b).last() == b.last());
        assert(b.last() == b[b.len() - 1]);
        back_goes(s, b.drop_last());
    } else {
        assert(s + b =~= s);
    }
}

/// The blanks are those of Unicode: the space, the tab, the ends of lines, and the
/// wide space of Chinese texts among them; letters and digits are none.
pub proof fn blanks_are_known(c: char)
    ensures
        c == ' ' || c == '\t' || c == '\n' || c == '\r' || c == '\u{3000}' || c == '\u{a0}'
            ==> text::is_space(c),
        'a' <= c <= 'z' || 'A' <= c <= 'Z' || '0' <= c <= '9' || '\u{4e00}' <= c <= '\u{9fff}'
            ==> !text::is_space(c),
{
}

/// A number is written so that it is read back.
pub proof fn written_numbers_are_read_back(n: nat)
    ensures
        text::dec(n).len() > 0,
        text::all_digits(text::dec(n)),
        text::digits_value(text::dec(n)) == n,
        text::written_number(text::dec(n)) == Some(n),
        n >= 1 ==> text::dec(n)[0] != '0',
    decreases n,
{
    let d = text::dec(n);
    if n < 10 {
        assert(d.drop_last() =~= Seq::<char>::empty());
        assert(d.last() == d[0]);
        digit_is_digit(n);
        assert(text::digits_value(Seq::<char>::empty()) == 0);
    } else {
        written_numbers_are_read_back(n / 10);
        digit_is_digit(n % 10);
        assert(d.drop_last() =~= text::dec(n / 10));
        assert(d.last() == text::digit_char(n % 10));
        assert(d[0] == text::dec(n / 10)[0]);
        assert forall|i: int| 0 <= i < d.len() implies text::is_digit(#[trigger] d[i]) by {
            if i < d.len() - 1 {
                assert(d[i] == text::dec(n / 10)[i]);
            }
        }
    }
    assert(text::is_digit(d[0]));
    assert(d[0] != '+');
}

proof fn digit_is_digit(k: nat)
    requires
        k < 10,
    ensures
        text::is_digit(text::digit_char(k)),
        text::digit_char(k) as nat - 48 == k,
{
}

/// The first characters of a text are all of it where it is short enough, and as many
/// as asked for where it is not.
pub proof fn beginnings_are_cut(s: Seq<char>, n: nat)
    ensures
        s.len() <= n ==> text::first_chars(s, n) == s,
        s.len() > n ==> text::first_chars(s, n).len() == n && text::begins(
            s,
            text::first_chars(s, n),
        ),
{
    if s.len() > n {
        assert(s.subrange(0, n as int) =~= s.take(n as int));
    }
}

/// Lines that are put together are read back as lines.
pub proof fn lines_are_read_back(a: Seq<char>, b: Seq<char>)
    requires
        forall|i: int| 0 <= i < a.len() ==> #[trigger] a[i] != '\n' && a[i] != '\r',
        forall|i: int| 0 <= i < b.len() ==> #[trigger] b[i] != '\n' && b[i] != '\r',
        b.len() > 0,
    ensures
        text::lines_of(a + "\n"@ + b) == seq![a, b],
{
    reveal_strlit("\n");
    let s = a + "\n"@ + b;
    ends_at(s, 0, a.len() as int);
    ends_at(s, a.len() as int + 1, s.len() as int);
    assert(s.subrange(0, a.len() as int) =~= a);
    assert(s.subrange(a.len() as int + 1, s.len() as int) =~= b);
    reveal_with_fuel(text::lines_from, 3);
    assert(text::lines_of(s) =~= seq![a, b]);
}

proof fn ends_at(s: Seq<char>, i: int, e: int)
    requires
        0 <= i <= e <= s.len(),
        forall|j: int| i <= j < e ==> #[trigger] s[j] != '\n',
        e < s.len() ==> s[e] == '\n',
    ensures
        text::line_end(s, i) == e,
    decreases e - i,
{
    if i < e {
        ends_at(s, i + 1, e);
    }
}

/// Parts that are joined stand in the whole, one after the other, between the
/// separators.
pub proof fn parts_are_joined(parts: Seq<Seq<char>>, last: Seq<char>, sep: Seq<char>)
    ensures
        text::joined(Seq::empty(), sep).len() == 0,
        text::joined(seq![last], sep) == last,
        parts.len() > 0 ==> text::joined(parts.push(last), sep) == text::joined(parts, sep) + sep
            + last,
{
    assert(parts.push(last).drop_last() =~= parts);
}

/// Where a mark stands once, it is replaced; where it does not, nothing changes.
pub proof fn marks_are_replaced(a: Seq<char>, mark: Seq<char>, b: Seq<char>, w: Seq<char>)
    requires
        mark.len() > 0,
        forall|i: int| 0 <= i < a.len() ==> !text::occurs_at(a + mark + b, mark, i),
        !text::occurs(b, mark),
    ensures
        text::replaced(a + mark + b, mark, w) == a + w + b,
        !text::occurs(a, mark) ==> text::replaced(a, mark, w) == a,
{
    let s = a + mark + b;
    let at = a.len() as int;
    let next = at + mark.len();
    assert(s.subrange(at, next) =~= mark);
    assert(text::occurs_at(s, mark, at));
    found_at(s, mark, 0, at);
    assert(s.subrange(next, s.len() as int) =~= b);
    found_nowhere(s, mark, next, b);
    assert(s.subrange(0, at) =~= a);
    assert(text::replaced_from(s, mark, w, next) == b);
    assert(text::replaced_from(s, mark, w, 0) == a + w + b);
    if !text::occurs(a, mark) {
        assert(a.subrange(0, a.len() as int) =~= a);
        found_nowhere(a, mark, 0, a);
    }
}

proof fn found_at(s: Seq<char>, p: Seq<char>, i: int, k: int)
    requires
        0 <= i <= k,
        text::occurs_at(s, p, k),
        forall|j: int| i <= j < k ==> !text::occurs_at(s, p, j),
    ensures
        text::find_from(s, p, i) == Some(k),
    decreases k - i,
{
    if i < k {
        assert(!text::occurs_at(s, p, i));
        found_at(s, p, i + 1, k);
    }
}

proof fn found_nowhere(s: Seq<char>, p: Seq<char>, i: int, rest: Seq<char>)
    requires
        0 <= i <= s.len(),
        rest == s.subrange(i, s.len() as int),
        !text::occurs(rest, p),
    ensures
        text::find_from(s, p, i) is None,
{
    text::find_from_is_first(s, p, i);
    if text::find_from(s, p, i) is Some {
        let k = text::find_from(s, p, i)->0;
        assert(rest.subrange(k - i, k - i + p.len()) =~= s.subrange(k, k + p.len()));
        assert(text::occurs_at(rest, p, k - i));
    }
}

/// Capital letters of the alphabet are lowered, everything else stays.
pub proof fn letters_are_lowered(s: Seq<char>, i: int)
    requires
        0 <= i < s.len(),
    ensures
        text::ascii_lowered(s).len() == s.len(),
        'A' <= s[i] <= 'Z' ==> text::ascii_lowered(s)[i] as u32 == s[i] as u32 + 32,
        !('A' <= s[i] <= 'Z') ==> text::ascii_lowered(s)[i] == s[i],
{
}

/// A range of chapters is read as it is written: the first, a dash or the word for
/// "to", the last.
pub proof fn ranges_are_read(a: nat, dash: char, b: nat)
    requires
        1 <= a <= b <= u32::MAX,
        dash == '-' || dash == '–' || dash == '—' || dash == '~' || dash == '到' || dash == '至',
    ensures
        intent::range_from(text::dec(a).push(dash) + text::dec(b), 0) == Some((a as u32, b as u32)),
{
    let s = text::dec(a).push(dash) + text::dec(b);
    let j = text::dec(a).len() as int;
    written_numbers_are_read_back(a);
    written_numbers_are_read_back(b);
    assert(s[0] == text::dec(a)[0]);
    assert forall|k: int| 0 <= k < j implies text::is_digit(#[trigger] s[k]) by {
        assert(s[k] == text::dec(a)[k]);
    }
    assert(s[j] == dash);
    digits_end_at(s, 0, j);
    assert(s.subrange(0, j) =~= text::dec(a));
    assert forall|k: int| j + 1 <= k < s.len() implies text::is_digit(#[trigger] s[k]) by {
        assert(s[k] == text::dec(b)[k - j - 1]);
    }
    digits_end_at(s, j + 1, s.len() as int);
    assert(s.subrange(j + 1, s.len() as int) =~= text::dec(b));
    assert(s[j + 1] == text::dec(b)[0]);
    assert(s[j + 1] != '第');
}

/// The same with the words for chapters: "第a章到第b章".
pub proof fn worded_ranges_are_read(a: nat, b: nat)
    requires
        1 <= a <= b <= u32::MAX,
    ensures
        intent::range_from("第"@ + text::dec(a) + "章到第"@ + text::dec(b) + "章"@, 0) == Some(
            (a as u32, b as u32),
        ),
{
    reveal_strlit("第");
    reveal_strlit("章到第");
    reveal_strlit("章");
    let s = "第"@ + text::dec(a) + "章到第"@ + text::dec(b) + "章"@;
    let j = 1 + text::dec(a).len() as int;
    let e = j + 3 + text::dec(b).len() as int;
    written_numbers_are_read_back(a);
    written_numbers_are_read_back(b);
    assert(s[0] == '第');
    assert(intent::range_at(s, 0) is None);
    assert forall|k: int| 1 <= k < j implies text::is_digit(#[trigger] s[k]) by {
        assert(s[k] == text::dec(a)[k - 1]);
    }
    assert(s[j] == '章' && s[j + 1] == '到' && s[j + 2] == '第');
    digits_end_at(s, 1, j);
    assert(s.subrange(1, j) =~= text::dec(a));
    assert forall|k: int| j + 3 <= k < e implies text::is_digit(#[trigger] s[k]) by {
        assert(s[k] == text::dec(b)[k - j - 3]);
    }
    assert(s[e] == '章');
    digits_end_at(s, j + 3, e);
    assert(s.subrange(j + 3, e) =~= text::dec(b));
    assert(s[1] == text::dec(a)[0]);
    assert(!text::is_space('第'));
    reveal_with_fuel(intent::after_joiners, 3);
    assert(intent::after_joiners(s, j + 1) == j + 2);
    assert(s[j + 3] == text::dec(b)[0]);
    reveal_with_fuel(intent::range_from, 2);
}

proof fn digits_end_at(s: Seq<char>, i: int, e: int)
    requires
        0 <= i <= e <= s.len(),
        forall|j: int| i <= j < e ==> text::is_digit(#[trigger] s[j]),
        e < s.len() ==> !text::is_digit(s[e]),
    ensures
        text::digits_end(s, i) == e,
    decreases e - i,
{
    if i < e {
        digits_end_at(s, i + 1, e);
    }
}

/// The numerals in words go on from ten as the language does, and no two are the same.
pub proof fn numerals_go_on(i: int, j: int)
    requires
        1 <= i <= 20,
        1 <= j <= 20,
    ensures
        intent::cn_numerals().len() == 20,
        i != j ==> intent::cn_numerals()[i - 1] != intent::cn_numerals()[j - 1],
        11 <= i <= 19 ==> intent::cn_numerals()[i - 1] == "十"@ + intent::cn_numerals()[i - 11],
        intent::cn_numerals()[0] == "一"@ && intent::cn_numerals()[1] == "二"@
            && intent::cn_numerals()[2] == "三"@ && intent::cn_numerals()[3] == "四"@
            && intent::cn_numerals()[4] == "五"@ && intent::cn_numerals()[5] == "六"@
            && intent::cn_numerals()[6] == "七"@ && intent::cn_numerals()[7] == "八"@
            && intent::cn_numerals()[8] == "九"@ && intent::cn_numerals()[9] == "十"@
            && intent::cn_numerals()[19] == "二"@ + "十"@,
{
    reveal_strlit("一");
    reveal_strlit("二");
    reveal_strlit("三");
    reveal_strlit("四");
    reveal_strlit("五");
    reveal_strlit("六");
    reveal_strlit("七");
    reveal_strlit("八");
    reveal_strlit("九");
    reveal_strlit("十");
    reveal_strlit("十一");
    reveal_strlit("十二");
    reveal_strlit("十三");
    reveal_strlit("十四");
    reveal_strlit("十五");
    reveal_strlit("十六");
    reveal_strlit("十七");
    reveal_strlit("十八");
    reveal_strlit("十九");
    reveal_strlit("二十");
    assert("一"@.len() == 1);
    assert("二"@.len() == 1);
    assert("三"@.len() == 1);
    assert("四"@.len() == 1);
    assert("五"@.len() == 1);
    assert("六"@.len() == 1);
    assert("七"@.len() == 1);
    assert("八"@.len() == 1);
    assert("九"@.len() == 1);
    assert("十"@.len() == 1);
    assert("十一"@.len() == 2);
    assert("十二"@.len() == 2);
    assert("十三"@.len() == 2);
    assert("十四"@.len() == 2);
    assert("十五"@.len() == 2);
    assert("十六"@.len() == 2);
    assert("十七"@.len() == 2);
    assert("十八"@.len() == 2);
    assert("十九"@.len() == 2);
    assert("二十"@.len() == 2);
    assert("一"@[0] != "二"@[0]);
    assert("一"@[0] != "三"@[0]);
    assert("一"@[0] != "四"@[0]);
    assert("一"@[0] != "五"@[0]);
    assert("一"@[0] != "六"@[0]);
    assert("一"@[0] != "七"@[0]);
    assert("一"@[0] != "八"@[0]);
    assert("一"@[0] != "九"@[0]);
    assert("一"@[0] != "十"@[0]);
    assert("二"@[0] != "三"@[0]);
    assert("二"@[0] != "四"@[0]);
    assert("二"@[0] != "五"@[0]);
    assert("二"@[0] != "六"@[0]);
    assert("二"@[0] != "七"@[0]);
    assert("二"@[0] != "八"@[0]);
    assert("二"@[0] != "九"@[0]);
    assert("二"@[0] != "十"@[0]);
    assert("三"@[0] != "四"@[0]);
    assert("三"@[0] != "五"@[0]);
    assert("三"@[0] != "六"@[0]);
    assert("三"@[0] != "七"@[0]);
    assert("三"@[0] != "八"@[0]);
    assert("三"@[0] != "九"@[0]);
    assert("三"@[0] != "十"@[0]);
    assert("四"@[0] != "五"@[0]);
    assert("四"@[0] != "六"@[0]);
    assert("四"@[0] != "七"@[0]);
    assert("四"@[0] != "八"@[0]);
    assert("四"@[0] != "九"@[0]);
    assert("四"@[0] != "十"@[0]);
    assert("五"@[0] != "六"@[0]);
    assert("五"@[0] != "七"@[0]);
    assert("五"@[0] != "八"@[0]);
    assert("五"@[0] != "九"@[0]);
    assert("五"@[0] != "十"@[0]);
    assert("六"@[0] != "七"@[0]);
    assert("六"@[0] != "八"@[0]);
    assert("六"@[0] != "九"@[0]);
    assert("六"@[0] != "十"@[0]);
    assert("七"@[0] != "八"@[0]);
    assert("七"@[0] != "九"@[0]);
    assert("七"@[0] != "十"@[0]);
    assert("八"@[0] != "九"@[0]);
    assert("八"@[0] != "十"@[0]);
    assert("九"@[0] != "十"@[0]);
    assert("十一"@[1] != "十二"@[1]);
    assert("十一"@[1] != "十三"@[1]);
    assert("十一"@[1] != "十四"@[1]);
    assert("十一"@[1] != "十五"@[1]);
    assert("十一"@[1] != "十六"@[1]);
    assert("十一"@[1] != "十七"@[1]);
    assert("十一"@[1] != "十八"@[1]);
    assert("十一"@[1] != "十九"@[1]);
    assert("十一"@[0] != "二十"@[0]);
    assert("十二"@[1] != "十三"@[1]);
    assert("十二"@[1] != "十四"@[1]);
    assert("十二"@[1] != "十五"@[1]);
    assert("十二"@[1] != "十六"@[1]);
    assert("十二"@[1] != "十七"@[1]);
    assert("十二"@[1] != "十八"@[1]);
    assert("十二"@[1] != "十九"@[1]);
    assert("十二"@[0] != "二十"@[0]);
    assert("十三"@[1] != "十四"@[1]);
    assert("十三"@[1] != "十五"@[1]);
    assert("十三"@[1] != "十六"@[1]);
    assert("十三"@[1] != "十七"@[1]);
    assert("十三"@[1] != "十八"@[1]);
    assert("十三"@[1] != "十九"@[1]);
    assert("十三"@[0] != "二十"@[0]);
    assert("十四"@[1] != "十五"@[1]);
    assert("十四"@[1] != "十六"@[1]);
    assert("十四"@[1] != "十七"@[1]);
    assert("十四"@[1] != "十八"@[1]);
    assert("十四"@[1] != "十九"@[1]);
    assert("十四"@[0] != "二十"@[0]);
    assert("十五"@[1] != "十六"@[1]);
    assert("十五"@[1] != "十七"@[1]);
    assert("十五"@[1] != "十八"@[1]);
    assert("十五"@[1] != "十九"@[1]);
    assert("十五"@[0] != "二十"@[0]);
    assert("十六"@[1] != "十七"@[1]);
    assert("十六"@[1] != "十八"@[1]);
    assert("十六"@[1] != "十九"@[1]);
    assert("十六"@[0] != "二十"@[0]);
    assert("十七"@[1] != "十八"@[1]);
    assert("十七"@[1] != "十九"@[1]);
    assert("十七"@[0] != "二十"@[0]);
    assert("十八"@[1] != "十九"@[1]);
    assert("十八"@[0] != "二十"@[0]);
    assert("十九"@[0] != "二十"@[0]);
    assert("十"@ + "一"@ =~= "十一"@);
    assert("十"@ + "二"@ =~= "十二"@);
    assert("十"@ + "三"@ =~= "十三"@);
    assert("十"@ + "四"@ =~= "十四"@);
    assert("十"@ + "五"@ =~= "十五"@);
    assert("十"@ + "六"@ =~= "十六"@);
    assert("十"@ + "七"@ =~= "十七"@);
    assert("十"@ + "八"@ =~= "十八"@);
    assert("十"@ + "九"@ =~= "十九"@);
    assert("二"@ + "十"@ =~= "二十"@);
}

/// A chapter named in words is that chapter, where no number is written in digits.
pub proof fn worded_chapters_are_read(t: Seq<char>, n: nat)
    requires
        1 <= n <= 20,
        text::occurs(t, "第"@ + intent::cn_numerals()[n - 1] + "章"@),
        forall|m: nat|
            1 <= m < n ==> !text::occurs(t, "第"@ + #[trigger] intent::cn_numerals()[m - 1] + "章"@),
        forall|m: nat|
            1 <= m <= 99 ==> !text::occurs(t, "第"@ + #[trigger] text::dec(m) + "章"@)
                && !text::occurs(t, "chapter "@ + text::dec(m)),
    ensures
        intent::named_number(t, "章"@, "chapter "@) == Some(n as u32),
{
    no_digits(t, 99);
    up_to(t, 1, n);
}

proof fn no_digits(t: Seq<char>, n: nat)
    requires
        n <= 99,
        forall|m: nat|
            1 <= m <= 99 ==> !text::occurs(t, "第"@ + #[trigger] text::dec(m) + "章"@)
                && !text::occurs(t, "chapter "@ + text::dec(m)),
    ensures
        intent::largest_named(t, "章"@, "chapter "@, n) is None,
    decreases n,
{
    if n > 0 {
        assert(text::dec(n) == text::dec(n));
        no_digits(t, (n - 1) as nat);
    }
}

proof fn up_to(t: Seq<char>, i: nat, n: nat)
    requires
        1 <= i <= n <= 20,
        text::occurs(t, "第"@ + intent::cn_numerals()[n - 1] + "章"@),
        forall|m: nat|
            1 <= m < n ==> !text::occurs(t, "第"@ + #[trigger] intent::cn_numerals()[m - 1] + "章"@),
    ensures
        intent::numeral_named(t, "章"@, i) == Some(n as u32),
    decreases n - i,
{
    if i < n {
        assert(!text::occurs(t, "第"@ + intent::cn_numerals()[i - 1] + "章"@));
        up_to(t, i + 1, n);
    }
}

/// A volume is read as it is written: "第n卷", or "第n幕".
pub proof fn written_volumes_are_read(n: nat, unit: char)
    requires
        1 <= n <= u32::MAX,
        unit == '卷' || unit == '幕',
    ensures
        prompts::volume_from(("第"@ + text::dec(n)).push(unit), 0) == Some(n as u32),
{
    reveal_strlit("第");
    let s = ("第"@ + text::dec(n)).push(unit);
    let e = 1 + text::dec(n).len() as int;
    written_numbers_are_read_back(n);
    assert forall|k: int| 1 <= k < e implies text::is_digit(#[trigger] s[k]) by {
        assert(s[k] == text::dec(n)[k - 1]);
    }
    assert(s[e] == unit);
    digits_end_at(s, 1, e);
    assert(s.subrange(1, e) =~= text::dec(n));
}

/// A text without the sign for a number names no volume.
pub proof fn no_sign_no_volume(s: Seq<char>, i: int)
    requires
        0 <= i,
        forall|k: int| 0 <= k < s.len() ==> #[trigger] s[k] != '第',
    ensures
        prompts::volume_from(s, i) is None,
    decreases s.len() - i,
{
    if i < s.len() {
        no_sign_no_volume(s, i + 1);
    }
}

/// The tasks of a queue are read with their words and their states.
pub proof fn tasks_are_read(v: Seq<JsonV>, k: int)
    requires
        0 <= k < v.len(),
        prompts::todos_in(Some(JsonV::List(v))) is Some,
    ensures
        ({
            let t = prompts::todos_in(Some(JsonV::List(v)))->0;
            &&& t.len() == v.len()
            &&& v[k].text("content"@) == Some(t[k].content)
            &&& v[k].text("status"@) == Some("in_progress"@) ==> t[k].status
                == TodoStatus::InProgress
            &&& v[k].text("status"@) == Some("completed"@) ==> t[k].status == TodoStatus::Completed
            &&& v[k].text("status"@) is None || v[k].text("status"@) == Some("pending"@)
                ==> t[k].status == TodoStatus::Pending
        }),
{
    reveal_strlit("in_progress");
    reveal_strlit("inProgress");
    reveal_strlit("completed");
    reveal_strlit("Completed");
    reveal_strlit("pending");
    assert("in_progress"@.len() == 11);
    assert("inProgress"@.len() == 10);
    assert("completed"@.len() == 9);
    assert("Completed"@.len() == 9);
    assert("pending"@.len() == 7);
    assert("completed"@[0] != "Completed"@[0]);
    tasks_from(v, 0, k);
}

proof fn tasks_from(v: Seq<JsonV>, i: int, k: int)
    requires
        0 <= i <= k < v.len(),
        prompts::todos_from(v, i) is Some,
    ensures
        ({
            let t = prompts::todos_from(v, i)->0;
            &&& t.len() == v.len() - i
            &&& v[k].text("content"@) == Some(t[k - i].content)
            &&& t[k - i].status == prompts::todo_status(v[k].text("status"@))
        }),
    decreases v.len() - i,
{
    let rest = prompts::todos_from(v, i + 1);
    if i + 1 < v.len() {
        if k > i {
            tasks_from(v, i + 1, k);
        } else {
            tasks_from(v, i + 1, i + 1);
        }
    }
    let t = prompts::todos_from(v, i)->0;
    if k > i {
        assert(t[k - i] == rest->0[k - i - 1]);
    }
}

/// A tool failed where it says so, was stopped, or tells an error.
pub proof fn failures_are_told(data: JsonV, intro: Seq<char>, output: Seq<char>)
    ensures
        prompts::tool_failed(data) <==> data.denied("ok"@) || data.flag("blocked"@) || data.get(
            "error"@,
        ) is Some,
        text::trimmed(output).len() > 0 && (data.flag("needs_confirm"@) || data.flag("blocked"@)
            || data.denied("ok"@)) ==> text::ends(
            prompts::apply_summary(intro, output, data),
            output,
        ),
        text::begins(prompts::apply_summary(intro, output, data), intro),
        data == JsonV::empty_object() ==> prompts::apply_summary(intro, output, data) == intro,
{
    assert(text::begins(prompts::apply_summary(intro, output, data), intro)) by {
        reading::begun_texts();
        assert(intro.subrange(0, intro.len() as int) =~= intro);
    }
    assert(text::ends(intro + "\n\n"@ + output, output)) by {
        reading::joined_texts();
    }
}

/// A rule is broken only by what a fix can put right on its own: references to
/// chapters, all of them, and none left after the fix.
pub proof fn only_references_are_fixed_alone(v: Seq<Seq<char>>, fixed: bool, left: Seq<Seq<char>>, i: int)
    ensures
        v.len() == 0 || !fixed || left.contains("meta_chapter_ref"@) ==> !prompts::autofix_allowed(
            v,
            fixed,
            left,
        ),
        0 <= i < v.len() && v[i] != "meta_chapter_ref"@ ==> !prompts::autofix_allowed(
            v,
            fixed,
            left,
        ),
        v.len() > 0 && fixed && !left.contains("meta_chapter_ref"@) && (forall|k: int|
            0 <= k < v.len() ==> #[trigger] v[k] == "meta_chapter_ref"@)
            ==> prompts::autofix_allowed(v, fixed, left),
{
}

/// A polishing revision names its chapter, and takes up what the last audit said could
/// be better.
pub proof fn polishing_takes_up_the_report(n: u32, report: JsonV, msg: Seq<char>)
    ensures
        text::begins(
            prompts::soft_revise_text(n, Some(report)),
            "按第"@ + text::dec(n as nat) + "章"@,
        ),
        text::begins(prompts::soft_revise_text(n, None), "按第"@ + text::dec(n as nat) + "章"@),
        report.list("issues"@) == Some(
            seq![JsonV::empty_object().put("message"@, JsonV::Text(msg))],
        ) && text::trimmed(msg).len() > 0 ==> text::occurs(
            prompts::soft_revise_text(n, Some(report)),
            text::trimmed(msg),
        ),
{
    let mark = "按第"@ + text::dec(n as nat) + "章"@;
    reveal_strlit("章");
    reveal_strlit("章上一轮审校的可改进项做局部修订，保持情节与设定一致，不要无故全文重写。");
    reveal_strlit("章审校可改进项做局部修订：\n");
    reveal_strlit("章审校报告中的可改进项做局部修订：\n");
    let one = prompts::soft_revise_text(n, Some(report));
    let two = prompts::soft_revise_text(n, None);
    assert(one.subrange(0, mark.len() as int) =~= mark);
    assert(two.subrange(0, mark.len() as int) =~= mark);
    let it = JsonV::empty_object().put("message"@, JsonV::Text(msg));
    if report.list("issues"@) == Some(seq![it]) && text::trimmed(msg).len() > 0 {
        reading::put_reads_back();
        reveal_strlit("message");
        reveal_strlit("priority");
        reveal_strlit("severity");
        assert("message"@.len() == 7);
        assert("priority"@.len() == 8);
        assert("severity"@.len() == 8);
        assert("priority"@[0] != "severity"@[0]);
        assert(seq![it][0] == it);
        reveal_with_fuel(prompts::tips_of, 2);
        let tip = "- "@ + text::trimmed(msg);
        assert(prompts::tip_of(it) == Some(tip));
        assert(prompts::report_tips(report) =~= seq![tip]);
        assert(text::joined(seq![tip], "\n"@) == tip);
        let head = "按第"@ + text::dec(n as nat) + "章审校可改进项做局部修订：\n"@;
        let tail = "\n保持情节与设定一致，优先补丁、避免无故全文重写。"@;
        assert(one == head + tip + tail);
        let at = head.len() + 2;
        reveal_strlit("- ");
        let w = text::trimmed(msg);
        assert(one.subrange(at as int, at as int + w.len()) =~= w);
        assert(text::occurs_at(one, w, at as int));
    }
}

} // verus!
