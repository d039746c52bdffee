//! Structured values: what tools take as arguments and hand back as data.

use vstd::prelude::*;

use crate::text;

verus! {

/// A structured value. An object keeps its entries in the order in which they
/// were put; the first entry with a key is the one that counts.
pub enum Json {
    Null,
    Bool(bool),
    /// A whole number that is not negative.
    Uint(u64),
    /// A negative whole number.
    Neg(i64),
    /// Any other number, by its written form.
    Real(String),
    Text(String),
    List(Vec<Json>),
    Object(Vec<(String, Json)>),
}

/// What a structured value means.
pub enum JsonV {
    Null,
    Bool(bool),
    Uint(u64),
    Neg(i64),
    Real(Seq<char>),
    Text(Seq<char>),
    List(Seq<JsonV>),
    Object(Seq<(Seq<char>, JsonV)>),
}

impl View for Json {
    type V = JsonV;

    open spec fn view(&self) -> JsonV
        decreases self,
    {
        match self {
            Json::Null => JsonV::Null,
            Json::Bool(b) => JsonV::Bool(*b),
            Json::Uint(n) => JsonV::Uint(*n),
            Json::Neg(n) => JsonV::Neg(*n),
            Json::Real(s) => JsonV::Real(s@),
            Json::Text(s) => JsonV::Text(s@),
            Json::List(v) => JsonV::List(
                Seq::new(
                    v@.len(),
                    |i: int|
                        if 0 <= i < v@.len() {
                            v@[i].view()
                        } else {
                            JsonV::Null
                        },
                ),
            ),
            Json::Object(v) => JsonV::Object(
                Seq::new(
                    v@.len(),
                    |i: int|
                        if 0 <= i < v@.len() {
                            (v@[i].0@, v@[i].1.view())
                        } else {
                            (Seq::<char>::empty(), JsonV::Null)
                        },
                ),
            ),
        }
    }
}

/// The meanings of a list of values.
pub open spec fn items(v: Seq<Json>) -> Seq<JsonV> {
    Seq::new(v.len(), |i: int| v[i]@)
}

/// The meanings of an object's entries.
pub open spec fn entries(v: Seq<(String, Json)>) -> Seq<(Seq<char>, JsonV)> {
    Seq::new(v.len(), |i: int| (v[i].0@, v[i].1@))
}

/// The meaning of an optional value.
pub open spec fn opt_json(o: Option<&Json>) -> Option<JsonV> {
    match o {
        Some(j) => Some(j@),
        None => None,
    }
}

/// A list means the list of what its items mean.
pub proof fn list_view(v: Vec<Json>)
    ensures
        Json::List(v)@ == JsonV::List(items(v@)),
{
    reveal_with_fuel(<Json as View>::view, 2);
    let j = Json::List(v);
    assert(j@->List_0 =~= items(v@));
}

/// An object means the list of what its entries mean.
pub proof fn object_view(v: Vec<(String, Json)>)
    ensures
        Json::Object(v)@ == JsonV::Object(entries(v@)),
{
    reveal_with_fuel(<Json as View>::view, 2);
    let j = Json::Object(v);
    assert(j@->Object_0 =~= entries(v@));
}

/// The position of the first entry with the key, at or after `i`.
pub open spec fn key_from(m: Seq<(Seq<char>, JsonV)>, key: Seq<char>, i: int) -> Option<int>
    decreases m.len() - i,
{
    if i < 0 || i >= m.len() {
        None
    } else if m[i].0 == key {
        Some(i)
    } else {
        key_from(m, key, i + 1)
    }
}

/// A found key stands at the position; none stands before it.
pub proof fn key_from_is_first(m: Seq<(Seq<char>, JsonV)>, key: Seq<char>, i: int)
    requires
        0 <= i,
    ensures
        match key_from(m, key, i) {
            Some(k) => i <= k < m.len() && m[k].0 == key && forall|j: int|
                i <= j < k ==> (#[trigger] m[j]).0 != key,
            None => forall|j: int| i <= j < m.len() ==> (#[trigger] m[j]).0 != key,
        },
    decreases m.len() - i,
{
    if i < m.len() && m[i].0 != key {
        key_from_is_first(m, key, i + 1);
    }
}

/// The entries that do not stand under the key.
pub open spec fn without_key(m: Seq<(Seq<char>, JsonV)>, key: Seq<char>) -> Seq<(Seq<char>, JsonV)>
    decreases m.len(),
{
    if m.len() == 0 {
        Seq::empty()
    } else {
        let rest = without_key(m.drop_last(), key);
        if m.last().0 == key {
            rest
        } else {
            rest.push(m.last())
        }
    }
}

proof fn without_key_holds_none(m: Seq<(Seq<char>, JsonV)>, key: Seq<char>)
    ensures
        forall|i: int| 0 <= i < without_key(m, key).len() ==> (#[trigger] without_key(m, key)[i]).0
            != key,
    decreases m.len(),
{
    if m.len() > 0 {
        without_key_holds_none(m.drop_last(), key);
        let all = without_key(m, key);
        let rest = without_key(m.drop_last(), key);
        assert forall|i: int| 0 <= i < all.len() implies (#[trigger] all[i]).0 != key by {
            if i < rest.len() {
                assert(all[i] == rest[i]);
            } else {
                assert(all[i] == m.last());
            }
        }
    }
}

/// What was dropped is read no more.
pub proof fn nothing_after_drop(v: JsonV, key: Seq<char>)
    ensures
        v.dropped(key).get(key) is None,
{
    match v {
        JsonV::Object(m) => {
            without_key_holds_none(m, key);
            key_from_is_first(without_key(m, key), key, 0);
        },
        _ => {},
    }
}

impl JsonV {
    /// The value under `key`, where this is an object that has one.
    pub open spec fn get(self, key: Seq<char>) -> Option<JsonV> {
        match self {
            JsonV::Object(m) => match key_from(m, key, 0) {
                Some(k) => Some(m[k].1),
                None => None,
            },
            _ => None,
        }
    }

    /// The text under `key`.
    pub open spec fn text(self, key: Seq<char>) -> Option<Seq<char>> {
        match self.get(key) {
            Some(JsonV::Text(s)) => Some(s),
            _ => None,
        }
    }

    /// The text under `key`, or the empty text.
    pub open spec fn text_or_empty(self, key: Seq<char>) -> Seq<char> {
        match self.text(key) {
            Some(s) => s,
            None => Seq::empty(),
        }
    }

    /// The truth value under `key`.
    pub open spec fn bool(self, key: Seq<char>) -> Option<bool> {
        match self.get(key) {
            Some(JsonV::Bool(b)) => Some(b),
            _ => None,
        }
    }

    /// Whether `true` stands under `key`.
    pub open spec fn flag(self, key: Seq<char>) -> bool {
        self.bool(key) == Some(true)
    }

    /// Whether `false` stands under `key`.
    pub open spec fn denied(self, key: Seq<char>) -> bool {
        self.bool(key) == Some(false)
    }

    /// The whole number that is not negative under `key`.
    pub open spec fn uint(self, key: Seq<char>) -> Option<u64> {
        match self.get(key) {
            Some(JsonV::Uint(n)) => Some(n),
            _ => None,
        }
    }

    /// The list under `key`.
    pub open spec fn list(self, key: Seq<char>) -> Option<Seq<JsonV>> {
        match self.get(key) {
            Some(JsonV::List(v)) => Some(v),
            _ => None,
        }
    }

    /// The object with `value` under `key`: in the place of the entry that was
    /// there, or as a new last entry. Anything but an object stays as it is.
    pub open spec fn put(self, key: Seq<char>, value: JsonV) -> JsonV {
        match self {
            JsonV::Object(m) => match key_from(m, key, 0) {
                Some(k) => JsonV::Object(m.update(k, (key, value))),
                None => JsonV::Object(m.push((key, value))),
            },
            _ => self,
        }
    }

    /// The object without what stands under `key`. Anything but an object stays
    /// as it is.
    pub open spec fn dropped(self, key: Seq<char>) -> JsonV {
        match self {
            JsonV::Object(m) => JsonV::Object(without_key(m, key)),
            _ => self,
        }
    }

    /// The object without entries.
    pub open spec fn empty_object() -> JsonV {
        JsonV::Object(Seq::empty())
    }

    /// The object with one entry.
    pub open spec fn one(key: Seq<char>, value: JsonV) -> JsonV {
        JsonV::Object(seq![(key, value)])
    }
}

/// What was put under a key is read back under it.
pub proof fn get_after_put(v: JsonV, key: Seq<char>, value: JsonV)
    requires
        v is Object,
    ensures
        v.put(key, value).get(key) == Some(value),
{
    let m = v->Object_0;
    key_from_is_first(m, key, 0);
    let m2 = v.put(key, value)->Object_0;
    key_from_is_first(m2, key, 0);
    match key_from(m, key, 0) {
        Some(k) => {
            assert(m2[k].0 == key);
            let k2 = key_from(m2, key, 0)->0;
            if k2 < k {
                assert(m2[k2].0 == m[k2].0);
            }
        },
        None => {
            assert(m2[m.len() as int].0 == key);
            let k2 = key_from(m2, key, 0)->0;
            if k2 < m.len() {
                assert(m2[k2].0 == m[k2].0);
            }
        },
    }
}

/// What was put under a key changes nothing that is read under another.
pub proof fn get_other_after_put(v: JsonV, key: Seq<char>, value: JsonV, other: Seq<char>)
    requires
        other != key,
    ensures
        v.put(key, value).get(other) == v.get(other),
{
    if v is Object {
        let m = v->Object_0;
        let m2 = v.put(key, value)->Object_0;
        key_from_is_first(m, key, 0);
        key_from_is_first(m, other, 0);
        key_from_is_first(m2, other, 0);
        match key_from(m, other, 0) {
            Some(k) => {
                assert(m2[k].0 == other);
                let k2 = key_from(m2, other, 0)->0;
                if k2 < k {
                    assert(m[k2].0 == m2[k2].0);
                }
            },
            None => {
                if key_from(m2, other, 0) is Some {
                    let k2 = key_from(m2, other, 0)->0;
                    if k2 < m.len() {
                        assert(m[k2].0 == m2[k2].0 || m2[k2].0 == key);
                    }
                }
            },
        }
    }
}

impl Json {
    /// A copy of the value.
    pub fn copy(&self) -> (r: Json)
        ensures
            r@ == self@,
        decreases self,
    {
        match self {
            Json::Null => Json::Null,
            Json::Bool(b) => Json::Bool(*b),
            Json::Uint(n) => Json::Uint(*n),
            Json::Neg(n) => Json::Neg(*n),
            Json::Real(s) => Json::Real(s.clone()),
            Json::Text(s) => Json::Text(s.clone()),
            Json::List(v) => {
                let mut out: Vec<Json> = Vec::new();
                let mut i: usize = 0;
                while i < v.len()
                    invariant
                        i <= v.len(),
                        out.len() == i,
                        *self == Json::List(*v),
                        forall|j: int| 0 <= j < i ==> (#[trigger] out@[j])@ == v@[j]@,
                    decreases v.len() - i,
                {
                    assert(decreases_to!(self => self->List_0@[i as int]));
                    let c = v[i].copy();
                    out.push(c);
                    i = i + 1;
                }
                proof {
                    list_view(out);
                    list_view(*v);
                    assert(items(out@) =~= items(v@));
                }
                Json::List(out)
            },
            Json::Object(v) => {
                let mut out: Vec<(String, Json)> = Vec::new();
                let mut i: usize = 0;
                while i < v.len()
                    invariant
                        i <= v.len(),
                        out.len() == i,
                        *self == Json::Object(*v),
                        forall|j: int|
                            0 <= j < i ==> (#[trigger] out@[j]).0@ == v@[j].0@ && out@[j].1@
                                == v@[j].1@,
                    decreases v.len() - i,
                {
                    assert(decreases_to!(self => self->Object_0@[i as int].1));
                    let c = v[i].1.copy();
                    let k = v[i].0.clone();
                    out.push((k, c));
                    i = i + 1;
                }
                proof {
                    object_view(out);
                    object_view(*v);
                    assert(entries(out@) =~= entries(v@));
                }
                Json::Object(out)
            },
        }
    }

    /// The value under `key`, where this is an object that has one.
    pub fn get(&self, key: &str) -> (r: Option<&Json>)
        ensures
            opt_json(r) == self@.get(key@),
    {
        match self {
            Json::Object(v) => {
                proof {
                    object_view(*v);
                }
                let ghost m = entries(v@);
                let mut i: usize = 0;
                while i < v.len()
                    invariant
                        i <= v.len(),
                        m == entries(v@),
                        self@ == JsonV::Object(m),
                        key_from(m, key@, 0) == key_from(m, key@, i as int),
                    decreases v.len() - i,
                {
                    if text::same(v[i].0.as_str(), key) {
                        return Some(&v[i].1);
                    }
                    i = i + 1;
                }
                None
            },
            _ => None,
        }
    }

    /// The text under `key`.
    pub fn get_str(&self, key: &str) -> (r: Option<&str>)
        ensures
            text::opt_str(r) == self@.text(key@),
    {
        match self.get(key) {
            Some(Json::Text(s)) => Some(s.as_str()),
            _ => None,
        }
    }

    /// The text under `key`, or the empty text.
    pub fn str_or_empty(&self, key: &str) -> (r: String)
        ensures
            r@ == self@.text_or_empty(key@),
    {
        match self.get_str(key) {
            Some(s) => s.to_owned(),
            None => String::new(),
        }
    }

    /// The truth value under `key`.
    pub fn get_bool(&self, key: &str) -> (r: Option<bool>)
        ensures
            r == self@.bool(key@),
    {
        match self.get(key) {
            Some(Json::Bool(b)) => Some(*b),
            _ => None,
        }
    }

    /// Whether `true` stands under `key`.
    pub fn is_true(&self, key: &str) -> (r: bool)
        ensures
            r == self@.flag(key@),
    {
        match self.get_bool(key) {
            Some(b) => b,
            None => false,
        }
    }

    /// Whether `false` stands under `key`.
    pub fn is_false(&self, key: &str) -> (r: bool)
        ensures
            r == self@.denied(key@),
    {
        match self.get_bool(key) {
            Some(b) => !b,
            None => false,
        }
    }

    /// The whole number that is not negative under `key`.
    pub fn get_u64(&self, key: &str) -> (r: Option<u64>)
        ensures
            r == self@.uint(key@),
    {
        match self.get(key) {
            Some(Json::Uint(n)) => Some(*n),
            _ => None,
        }
    }

    /// The list under `key`.
    pub fn get_list(&self, key: &str) -> (r: Option<&Vec<Json>>)
        ensures
            match r {
                Some(v) => self@.list(key@) == Some(items(v@)),
                None => self@.list(key@) is None,
            },
    {
        match self.get(key) {
            Some(Json::List(v)) => {
                proof {
                    list_view(*v);
                }
                Some(v)
            },
            _ => None,
        }
    }

    /// The object without entries.
    pub fn object() -> (r: Json)
        ensures
            r@ == JsonV::empty_object(),
    {
        let v: Vec<(String, Json)> = Vec::new();
        proof {
            object_view(v);
            assert(entries(v@) =~= Seq::empty());
        }
        Json::Object(v)
    }

    /// A text value.
    pub fn str(s: &str) -> (r: Json)
        ensures
            r@ == JsonV::Text(s@),
    {
        Json::Text(s.to_owned())
    }

    /// The object with `value` under `key`.
    pub fn with(self, key: &str, value: Json) -> (r: Json)
        ensures
            r@ == self@.put(key@, value@),
    {
        match self {
            Json::Object(v) => {
                let mut v = v;
                let ghost m = entries(v@);
                proof {
                    object_view(v);
                }
                let mut i: usize = 0;
                while i < v.len()
                    invariant
                        i <= v.len(),
                        m == entries(v@),
                        self@ == JsonV::Object(m),
                        key_from(m, key@, 0) == key_from(m, key@, i as int),
                    decreases v.len() - i,
                {
                    if text::same(v[i].0.as_str(), key) {
                        v.set(i, (key.to_owned(), value));
                        proof {
                            object_view(v);
                            assert(entries(v@) =~= m.update(i as int, (key@, value@)));
                        }
                        return Json::Object(v);
                    }
                    i = i + 1;
                }
                v.push((key.to_owned(), value));
                proof {
                    object_view(v);
                    assert(entries(v@) =~= m.push((key@, value@)));
                }
                Json::Object(v)
            },
            other => other,
        }
    }

    /// The object without what stands under `key`.
    pub fn without(self, key: &str) -> (r: Json)
        ensures
            r@ == self@.dropped(key@),
    {
        match self {
            Json::Object(v) => {
                let ghost m = entries(v@);
                proof {
                    object_view(v);
                }
                let mut rest: Vec<(String, Json)> = Vec::new();
                assert(entries(rest@) =~= without_key(m.take(0), key@));
                let mut i: usize = 0;
                while i < v.len()
                    invariant
                        i <= v.len(),
                        m == entries(v@),
                        entries(rest@) == without_key(m.take(i as int), key@),
                    decreases v.len() - i,
                {
                    proof {
                        assert(m.take(i + 1).drop_last() =~= m.take(i as int));
                        assert(m.take(i + 1).last() == (v@[i as int].0@, v@[i as int].1@));
                    }
                    if !text::same(v[i].0.as_str(), key) {
                        let ghost before = entries(rest@);
                        rest.push((v[i].0.clone(), v[i].1.copy()));
                        assert(entries(rest@) =~= before.push(
                            (v@[i as int].0@, v@[i as int].1@),
                        ));
                    }
                    i = i + 1;
                }
                proof {
                    assert(m.take(i as int) =~= m);
                    object_view(rest);
                }
                Json::Object(rest)
            },
            other => other,
        }
    }

    /// The object with a text under `key`.
    pub fn with_str(self, key: &str, value: &str) -> (r: Json)
        ensures
            r@ == self@.put(key@, JsonV::Text(value@)),
    {
        self.with(key, Json::str(value))
    }

    /// The object with a number under `key`.
    pub fn with_u32(self, key: &str, value: u32) -> (r: Json)
        ensures
            r@ == self@.put(key@, JsonV::Uint(value as u64)),
    {
        self.with(key, Json::Uint(value as u64))
    }

    /// The object with a truth value under `key`.
    pub fn with_bool(self, key: &str, value: bool) -> (r: Json)
        ensures
            r@ == self@.put(key@, JsonV::Bool(value)),
    {
        self.with(key, Json::Bool(value))
    }
}

/// A copy of a list of values.
pub fn copy_list(v: &Vec<Json>) -> (r: Vec<Json>)
    ensures
        items(r@) == items(v@),
{
    let mut out: Vec<Json> = Vec::new();
    let mut i: usize = 0;
    while i < v.len()
        invariant
            i <= v.len(),
            out.len() == i,
            forall|j: int| 0 <= j < i ==> (#[trigger] out@[j])@ == v@[j]@,
        decreases v.len() - i,
    {
        out.push(v[i].copy());
        i = i + 1;
    }
    assert(items(out@) =~= items(v@));
    out
}

/// A value, or the object without entries where there is none.
pub open spec fn or_object(o: Option<JsonV>) -> JsonV {
    match o {
        Some(v) => v,
        None => JsonV::empty_object(),
    }
}

/// A copy of a value, or the object without entries where there is none.
pub fn copy_or_object(o: Option<&Json>) -> (r: Json)
    ensures
        r@ == or_object(opt_json(o)),
{
    match o {
        Some(j) => j.copy(),
        None => Json::object(),
    }
}

/// The project that the first value names, or else the second; empty where
/// neither names one.
pub open spec fn project_in(a: JsonV, b: JsonV) -> Seq<char> {
    match a.text("project"@) {
        Some(p) => p,
        None => b.text_or_empty("project"@),
    }
}

/// The project that the first value names, or else the second.
pub fn project_from(a: &Json, b: &Json) -> (r: String)
    ensures
        r@ == project_in(a@, b@),
{
    match a.get_str("project") {
        Some(p) => p.to_owned(),
        None => b.str_or_empty("project"),
    }
}

/// The number that the first value holds under the key, or else the second, or
/// else another number.
pub open spec fn uint_in(a: JsonV, b: JsonV, key: Seq<char>, other: u64) -> u64 {
    match a.uint(key) {
        Some(n) => n,
        None => match b.uint(key) {
            Some(n) => n,
            None => other,
        },
    }
}

/// The number that the first value holds under the key, or else the second, or
/// else another number.
pub fn uint_from(a: &Json, b: &Json, key: &str, other: u64) -> (r: u64)
    ensures
        r == uint_in(a@, b@, key@, other),
{
    match a.get_u64(key) {
        Some(n) => n,
        None => match b.get_u64(key) {
            Some(n) => n,
            None => other,
        },
    }
}

/// The number under the key, or another.
pub open spec fn uint_or(v: JsonV, key: Seq<char>, other: u64) -> u64 {
    match v.uint(key) {
        Some(n) => n,
        None => other,
    }
}

/// The number under the key, or another.
pub fn get_u64_or(v: &Json, key: &str, other: u64) -> (r: u64)
    ensures
        r == uint_or(v@, key@, other),
{
    match v.get_u64(key) {
        Some(n) => n,
        None => other,
    }
}

} // verus!
