//! Reading what was put into an object.

use vstd::prelude::*;

use crate::json;
use crate::json::JsonV;
use crate::text;

verus! {

/// What is put under a key is read back under it, and nothing else changes.
pub proof fn put_reads_back()
    ensures
        JsonV::empty_object() is Object,
        forall|v: JsonV, key: Seq<char>, value: JsonV|
            v is Object ==> (#[trigger] v.put(key, value)) is Object && v.put(key, value).get(key)
                == Some(value),
        forall|v: JsonV, key: Seq<char>, value: JsonV, other: Seq<char>|
            other != key ==> #[trigger] v.put(key, value).get(other) == v.get(other),
{
    assert forall|v: JsonV, key: Seq<char>, value: JsonV| v is Object implies (#[trigger] v.put(
        key,
        value,
    )) is Object && v.put(key, value).get(key) == Some(value) by {
        json::get_after_put(v, key, value);
    }
    assert forall|v: JsonV, key: Seq<char>, value: JsonV, other: Seq<char>| other
        != key implies #[trigger] v.put(key, value).get(other) == v.get(other) by {
        json::get_other_after_put(v, key, value, other);
    }
}

/// The names of a call's arguments differ.
pub proof fn names_differ()
    ensures
        "project"@ != "chapter"@,
        "project"@ != "content"@,
        "chapter"@ != "content"@,
        "choice"@ != "action"@,
        "choice"@ != "volume"@,
        "action"@ != "volume"@,
        "from"@ != "kind"@,
        "from"@ != "name"@,
        "kind"@ != "name"@,
        "force"@ != "brief"@,
        "force"@ != "topic"@,
        "brief"@ != "topic"@,
        "apply_tool"@ != "apply_args"@,
        "to"@.len() == 2,
        "arc"@.len() == 3,
        "from"@.len() == 4,
        "kind"@.len() == 4,
        "name"@.len() == 4,
        "force"@.len() == 5,
        "brief"@.len() == 5,
        "topic"@.len() == 5,
        "choice"@.len() == 6,
        "action"@.len() == 6,
        "volume"@.len() == 6,
        "project"@.len() == 7,
        "chapter"@.len() == 7,
        "content"@.len() == 7,
        "issue_ids"@.len() == 9,
        "apply_tool"@.len() == 10,
        "apply_args"@.len() == 10,
        "mutation_id"@.len() == 11,
        "instructions"@.len() == 12,
{
    reveal_strlit("to");
    reveal_strlit("arc");
    reveal_strlit("from");
    reveal_strlit("kind");
    reveal_strlit("name");
    reveal_strlit("force");
    reveal_strlit("brief");
    reveal_strlit("topic");
    reveal_strlit("choice");
    reveal_strlit("action");
    reveal_strlit("volume");
    reveal_strlit("project");
    reveal_strlit("chapter");
    reveal_strlit("content");
    reveal_strlit("issue_ids");
    reveal_strlit("apply_tool");
    reveal_strlit("apply_args");
    reveal_strlit("mutation_id");
    reveal_strlit("instructions");
    assert("project"@[0] == 'p' && "chapter"@[0] == 'c' && "content"@[0] == 'c');
    assert("chapter"@[1] == 'h' && "content"@[1] == 'o');
    assert("choice"@[0] == 'c' && "action"@[0] == 'a' && "volume"@[0] == 'v');
    assert("from"@[0] == 'f' && "kind"@[0] == 'k' && "name"@[0] == 'n');
    assert("force"@[0] == 'f' && "brief"@[0] == 'b' && "topic"@[0] == 't');
    assert("apply_tool"@[6] == 't' && "apply_args"@[6] == 'a');
}

/// A text that is put together holds its parts.
pub proof fn joined_texts()
    ensures
        forall|a: Seq<char>, b: Seq<char>| text::occurs(#[trigger] (a + b), b),
        forall|a: Seq<char>, b: Seq<char>| text::occurs(#[trigger] (a + b), a),
        forall|a: Seq<char>, b: Seq<char>| text::ends(#[trigger] (a + b), b),
        forall|a: Seq<char>, b: Seq<char>, p: Seq<char>|
            #![trigger a + b, text::occurs(a, p)]
            text::occurs(a, p) ==> text::occurs(a + b, p),
{
    assert forall|a: Seq<char>, b: Seq<char>| text::ends(#[trigger] (a + b), b) by {
        assert((a + b).subrange(a.len() as int, (a + b).len() as int) =~= b);
    }
    assert forall|a: Seq<char>, b: Seq<char>| text::occurs(#[trigger] (a + b), b) by {
        assert((a + b).subrange(a.len() as int, (a + b).len() as int) =~= b);
        assert(text::occurs_at(a + b, b, a.len() as int));
    }
    assert forall|a: Seq<char>, b: Seq<char>| text::occurs(#[trigger] (a + b), a) by {
        assert((a + b).subrange(0, a.len() as int) =~= a);
        assert(text::occurs_at(a + b, a, 0));
    }
    assert forall|a: Seq<char>, b: Seq<char>, p: Seq<char>|
        #![trigger a + b, text::occurs(a, p)]
        text::occurs(a, p) implies text::occurs(a + b, p) by {
        let i = choose|i: int| text::occurs_at(a, p, i);
        assert((a + b).subrange(i, i + p.len()) =~= a.subrange(i, i + p.len()));
        assert(text::occurs_at(a + b, p, i));
    }
}

/// A text that is put together begins as its first part does.
pub proof fn begun_texts()
    ensures
        forall|a: Seq<char>, b: Seq<char>| text::begins(#[trigger] (a + b), a),
        forall|a: Seq<char>, b: Seq<char>, p: Seq<char>|
            #![trigger a + b, text::begins(a, p)]
            text::begins(a, p) ==> text::begins(a + b, p),
{
    assert forall|a: Seq<char>, b: Seq<char>| text::begins(#[trigger] (a + b), a) by {
        assert((a + b).subrange(0, a.len() as int) =~= a);
    }
    assert forall|a: Seq<char>, b: Seq<char>, p: Seq<char>|
        #![trigger a + b, text::begins(a, p)]
        text::begins(a, p) implies text::begins(a + b, p) by {
        assert((a + b).subrange(0, p.len() as int) =~= a.subrange(0, p.len() as int));
    }
}

/// The empty text occurs everywhere.
pub proof fn empty_occurs(s: Seq<char>)
    ensures
        text::occurs(s, Seq::empty()),
{
    assert(s.subrange(0, 0) =~= Seq::<char>::empty());
    assert(text::occurs_at(s, Seq::empty(), 0));
}

} // verus!
