//! Environment files: one `KEY=value` to a line.

use vstd::prelude::*;

use crate::text;

verus! {

/// What one line of an environment file sets, if anything: blank lines, lines
/// that begin with `#`, lines without `=` and lines without a key set nothing.
/// A value stands without white space and quotes round it.
pub open spec fn line_sets(line: Seq<char>) -> Option<(Seq<char>, Seq<char>)> {
    let t = text::trimmed(line);
    if t.len() == 0 || t[0] == '#' {
        None
    } else {
        match text::cut_once(t, "="@) {
            Some(p) => {
                let key = text::trimmed(p.0);
                if key.len() == 0 {
                    None
                } else {
                    Some((key, text::both_off(text::both_off(text::trimmed(p.1), '"'), '\'')))
                }
            },
            None => None,
        }
    }
}

/// What the lines set, in their order.
pub open spec fn settings(lines: Seq<Seq<char>>) -> Seq<(Seq<char>, Seq<char>)>
    decreases lines.len(),
{
    if lines.len() == 0 {
        Seq::empty()
    } else {
        let before = settings(lines.drop_last());
        match line_sets(lines.last()) {
            Some(p) => before.push(p),
            None => before,
        }
    }
}

/// The texts of a list of pairs.
pub open spec fn pairs(v: Seq<(String, String)>) -> Seq<(Seq<char>, Seq<char>)> {
    v.map_values(|p: (String, String)| (p.0@, p.1@))
}

/// What one line of an environment file sets, if anything.
pub fn read_line(line: &str) -> (r: Option<(String, String)>)
    ensures
        match r {
            Some(p) => line_sets(line@) == Some((p.0@, p.1@)),
            None => line_sets(line@) is None,
        },
{
    let t = text::trim(line);
    let n: usize = t.unicode_len();
    if n == 0 || t.get_char(0) == '#' {
        return None;
    }
    match text::split_once(t, "=") {
        Some(p) => {
            let key = text::trim(p.0.as_str());
            let len: usize = key.unicode_len();
            if len == 0 {
                return None;
            }
            let value = text::trim_char(text::trim_char(text::trim(p.1.as_str()), '"'), '\'');
            Some((key.to_owned(), value.to_owned()))
        },
        None => None,
    }
}

/// The keys and values that an environment file sets, in the order of its
/// lines.
pub fn parse_dotenv(file: &str) -> (r: Vec<(String, String)>)
    ensures
        pairs(r@) == settings(text::lines_of(file@)),
{
    let lines = text::lines(file);
    let mut out: Vec<(String, String)> = Vec::new();
    let mut i: usize = 0;
    let ghost all = text::lines_of(file@);
    assert(all.take(0) =~= Seq::empty());
    assert(pairs(out@) =~= Seq::empty());
    while i < lines.len()
        invariant
            i <= lines.len(),
            text::texts(lines@) == all,
            pairs(out@) == settings(all.take(i as int)),
        decreases lines.len() - i,
    {
        let ghost before = out@;
        assert(all.take(i + 1).drop_last() =~= all.take(i as int));
        assert(all[i as int] == lines@[i as int]@);
        match read_line(lines[i].as_str()) {
            Some(p) => {
                out.push(p);
                assert(pairs(out@) =~= pairs(before).push((p.0@, p.1@)));
            },
            None => {},
        }
        i = i + 1;
    }
    assert(all.take(lines.len() as int) =~= all);
    out
}

/// No setting has an empty key.
pub proof fn keys_are_named(lines: Seq<Seq<char>>)
    ensures
        forall|i: int|
            0 <= i < settings(lines).len() ==> (#[trigger] settings(lines)[i]).0.len() > 0,
    decreases lines.len(),
{
    if lines.len() > 0 {
        keys_are_named(lines.drop_last());
        let before = settings(lines.drop_last());
        assert forall|i: int| 0 <= i < settings(lines).len() implies (
        #[trigger] settings(lines)[i]).0.len() > 0 by {
            if i < before.len() {
                assert(settings(lines)[i] == before[i]);
            }
        }
    }
}

} // verus!
