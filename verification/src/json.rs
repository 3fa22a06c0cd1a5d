use vstd::prelude::*;

use crate::text::{str_eq, string_of, chars_of};

verus! {

/// A JSON value as the library handles it: request bodies it builds and the
/// responses it reads. Numbers keep the distinction the wire format makes:
/// an integer that fits `i64`, a larger unsigned integer, or any other number
/// held by its text.
#[derive(Debug)]
pub enum Json {
    Null,
    Bool(bool),
    Int(i64),
    UInt(u64),
    Float(String),
    Str(String),
    Array(Vec<Json>),
    Object(Vec<(String, Json)>),
}

/// The mathematical value of a [`Json`].
pub enum JsonV {
    Null,
    Bool(bool),
    Int(i64),
    UInt(u64),
    Float(Seq<char>),
    Str(Seq<char>),
    Array(Seq<JsonV>),
    Object(Seq<(Seq<char>, JsonV)>),
}

impl Json {
    pub open spec fn jv(self) -> JsonV
        decreases self,
    {
        match self {
            Json::Null => JsonV::Null,
            Json::Bool(b) => JsonV::Bool(b),
            Json::Int(i) => JsonV::Int(i),
            Json::UInt(u) => JsonV::UInt(u),
            Json::Float(s) => JsonV::Float(s@),
            Json::Str(s) => JsonV::Str(s@),
            Json::Array(v) => JsonV::Array(
                Seq::new(
                    v@.len(),
                    |i: int|
                        if 0 <= i < v@.len() {
                            v@[i].jv()
                        } else {
                            JsonV::Null
                        },
                ),
            ),
            Json::Object(v) => JsonV::Object(
                Seq::new(
                    v@.len(),
                    |i: int|
                        if 0 <= i < v@.len() {
                            (v@[i].0@, v@[i].1.jv())
                        } else {
                            (Seq::<char>::empty(), JsonV::Null)
                        },
                ),
            ),
        }
    }
}

impl View for Json {
    type V = JsonV;

    open spec fn view(&self) -> JsonV {
        self.jv()
    }
}

/// The mathematical values of a list of JSON values.
pub open spec fn jvs(v: Seq<Json>) -> Seq<JsonV> {
    Seq::new(v.len(), |i: int| v[i]@)
}

/// The mathematical values of a list of object entries.
pub open spec fn jentries(v: Seq<(String, Json)>) -> Seq<(Seq<char>, JsonV)> {
    Seq::new(v.len(), |i: int| (v[i].0@, v[i].1@))
}

/// The key under which YouTrack stamps its type discriminator.
pub open spec fn type_key() -> Seq<char> {
    seq!['$', 't', 'y', 'p', 'e']
}

// ---------------------------------------------------------------------
// Removing the type discriminator
// ---------------------------------------------------------------------

/// `j` with every `"$type"` entry removed from every object, at any depth.
pub open spec fn strip_v(j: JsonV) -> JsonV
    decreases j,
{
    match j {
        JsonV::Array(s) => JsonV::Array(
            Seq::new(
                s.len(),
                |i: int|
                    if 0 <= i < s.len() {
                        strip_v(s[i])
                    } else {
                        JsonV::Null
                    },
            ),
        ),
        JsonV::Object(es) => JsonV::Object(strip_entries(es)),
        _ => j,
    }
}

/// The entries of an object without the `"$type"` ones, each value stripped.
pub open spec fn strip_entries(es: Seq<(Seq<char>, JsonV)>) -> Seq<(Seq<char>, JsonV)>
    decreases es,
{
    if es.len() == 0 {
        es
    } else {
        let rest = strip_entries(es.drop_last());
        let e = es.last();
        if e.0 == type_key() {
            rest
        } else {
            rest.push((e.0, strip_v(e.1)))
        }
    }
}

/// No object anywhere in `j` has a `"$type"` entry.
pub open spec fn noise_free(j: JsonV) -> bool
    decreases j,
{
    match j {
        JsonV::Array(s) => forall|i: int| 0 <= i < s.len() ==> noise_free(#[trigger] s[i]),
        JsonV::Object(es) => forall|i: int|
            0 <= i < es.len() ==> (#[trigger] es[i]).0 != type_key() && noise_free(es[i].1),
        _ => true,
    }
}

proof fn lemma_strip_entries_len(es: Seq<(Seq<char>, JsonV)>)
    ensures
        strip_entries(es).len() <= es.len(),
    decreases es.len(),
{
    if es.len() > 0 {
        lemma_strip_entries_len(es.drop_last());
    }
}

/// Each kept entry of `strip_entries(es)` comes from an entry of `es`.
proof fn lemma_strip_entries_origin(es: Seq<(Seq<char>, JsonV)>, k: int)
    requires
        0 <= k < strip_entries(es).len(),
    ensures
        exists|i: int|
            0 <= i < es.len() && es[i].0 != type_key() && strip_entries(es)[k] == (
                es[i].0,
                strip_v(es[i].1),
            ),
    decreases es.len(),
{
    let rest = strip_entries(es.drop_last());
    let e = es.last();
    lemma_strip_entries_len(es.drop_last());
    if e.0 == type_key() || k < rest.len() {
        lemma_strip_entries_origin(es.drop_last(), k);
        let i = choose|i: int|
            0 <= i < es.drop_last().len() && es.drop_last()[i].0 != type_key() && rest[k] == (
                es.drop_last()[i].0,
                strip_v(es.drop_last()[i].1),
            );
        assert(es[i] == es.drop_last()[i]);
    } else {
        assert(strip_entries(es)[k] == (e.0, strip_v(e.1)));
        assert(es[es.len() - 1] == e);
    }
}

/// After stripping, no `"$type"` key is left anywhere.
pub proof fn lemma_strip_is_noise_free(j: JsonV)
    ensures
        noise_free(strip_v(j)),
    decreases j,
{
    match j {
        JsonV::Array(s) => {
            let t = strip_v(j);
            assert forall|i: int| 0 <= i < s.len() implies noise_free(
                #[trigger] t->Array_0[i],
            ) by {
                lemma_strip_is_noise_free(s[i]);
            }
        },
        JsonV::Object(es) => {
            let t = strip_entries(es);
            assert forall|k: int| 0 <= k < t.len() implies (#[trigger] t[k]).0 != type_key()
                && noise_free(t[k].1) by {
                lemma_strip_entries_origin(es, k);
                let i = choose|i: int|
                    0 <= i < es.len() && es[i].0 != type_key() && t[k] == (
                        es[i].0,
                        strip_v(es[i].1),
                    );
                lemma_strip_is_noise_free(es[i].1);
            }
        },
        _ => {},
    }
}

proof fn lemma_strip_entries_noise_free(es: Seq<(Seq<char>, JsonV)>)
    requires
        forall|i: int| 0 <= i < es.len() ==> (#[trigger] es[i]).0 != type_key() && noise_free(es[i].1)
            && strip_v(es[i].1) == es[i].1,
    ensures
        strip_entries(es) == es,
    decreases es.len(),
{
    if es.len() > 0 {
        lemma_strip_entries_noise_free(es.drop_last());
        assert(es.last() == es[es.len() - 1]);
        assert(es.drop_last().push(es.last()) =~= es);
    }
}

/// Stripping a value that has no `"$type"` key leaves it unchanged.
pub proof fn lemma_strip_noise_free_is_identity(j: JsonV)
    requires
        noise_free(j),
    ensures
        strip_v(j) == j,
    decreases j,
{
    match j {
        JsonV::Array(s) => {
            assert forall|i: int| 0 <= i < s.len() implies strip_v(s[i]) == s[i] by {
                lemma_strip_noise_free_is_identity(s[i]);
            }
            assert(strip_v(j)->Array_0 =~= s);
        },
        JsonV::Object(es) => {
            assert forall|i: int| 0 <= i < es.len() implies (#[trigger] es[i]).0 != type_key()
                && noise_free(es[i].1) && strip_v(es[i].1) == es[i].1 by {
                lemma_strip_noise_free_is_identity(es[i].1);
            }
            lemma_strip_entries_noise_free(es);
        },
        _ => {},
    }
}

/// Stripping twice is stripping once.
pub proof fn lemma_strip_idempotent(j: JsonV)
    ensures
        strip_v(strip_v(j)) == strip_v(j),
{
    lemma_strip_is_noise_free(j);
    lemma_strip_noise_free_is_identity(strip_v(j));
}

fn is_type_key(k: &String) -> (r: bool)
    ensures
        r == (k@ == type_key()),
{
    let t = string_of(&['$', 't', 'y', 'p', 'e']);
    assert(t@ =~= type_key()) by {
        assert(['$', 't', 'y', 'p', 'e']@ =~= type_key());
    }
    str_eq(k.as_str(), t.as_str())
}

/// A deep copy of `j`.
#[verifier::loop_isolation(false)]
pub fn deep_clone(j: &Json) -> (r: Json)
    ensures
        r@ == j@,
    decreases j,
{
    match j {
        Json::Null => Json::Null,
        Json::Bool(b) => Json::Bool(*b),
        Json::Int(i) => Json::Int(*i),
        Json::UInt(u) => Json::UInt(*u),
        Json::Float(s) => Json::Float(s.clone()),
        Json::Str(s) => Json::Str(s.clone()),
        Json::Array(v) => {
            let mut out: Vec<Json> = Vec::new();
            let mut i: usize = 0;
            while i < v.len()
                invariant
                    i <= v@.len(),
                    jvs(out@) == jvs(v@).take(i as int),
                decreases v@.len() - i,
            {
                assert(decreases_to!(j => v@[i as int]));
                let c = deep_clone(&v[i]);
                out.push(c);
                assert(jvs(out@) =~= jvs(v@).take(i + 1));
                i = i + 1;
            }
            assert(jvs(v@).take(v@.len() as int) =~= jvs(v@));
            let r = Json::Array(out);
            assert(r@->Array_0 =~= jvs(out@));
            assert(j@->Array_0 =~= jvs(v@));
            r
        },
        Json::Object(v) => {
            let mut out: Vec<(String, Json)> = Vec::new();
            let mut i: usize = 0;
            while i < v.len()
                invariant
                    i <= v@.len(),
                    jentries(out@) == jentries(v@).take(i as int),
                decreases v@.len() - i,
            {
                assert(decreases_to!(j => v@[i as int].1));
                let c = deep_clone(&v[i].1);
                out.push((v[i].0.clone(), c));
                assert(jentries(out@) =~= jentries(v@).take(i + 1));
                i = i + 1;
            }
            assert(jentries(v@).take(v@.len() as int) =~= jentries(v@));
            let r = Json::Object(out);
            assert(r@->Object_0 =~= jentries(out@));
            assert(j@->Object_0 =~= jentries(v@));
            r
        },
    }
}

/// `j` with every `"$type"` entry removed, at any depth.
#[verifier::loop_isolation(false)]
pub fn stripped(j: &Json) -> (r: Json)
    ensures
        r@ == strip_v(j@),
    decreases j,
{
    match j {
        Json::Array(v) => {
            let mut out: Vec<Json> = Vec::new();
            let mut i: usize = 0;
            while i < v.len()
                invariant
                    i <= v@.len(),
                    out@.len() == i,
                    forall|k: int| 0 <= k < i ==> (#[trigger] out@[k])@ == strip_v(v@[k]@),
                decreases v@.len() - i,
            {
                assert(decreases_to!(j => v@[i as int]));
                let c = stripped(&v[i]);
                out.push(c);
                i = i + 1;
            }
            let r = Json::Array(out);
            assert(r@ == strip_v(j@)) by {
                assert(r@->Array_0 =~= strip_v(j@)->Array_0);
            }
            r
        },
        Json::Object(v) => {
            let mut out: Vec<(String, Json)> = Vec::new();
            let mut i: usize = 0;
            while i < v.len()
                invariant
                    i <= v@.len(),
                    jentries(out@) == strip_entries(jentries(v@).take(i as int)),
                decreases v@.len() - i,
            {
                let ghost pre = jentries(v@).take(i as int);
                let ghost nxt = jentries(v@).take(i + 1);
                assert(nxt.drop_last() =~= pre);
                assert(nxt.last() == (v@[i as int].0@, v@[i as int].1@));
                if !is_type_key(&v[i].0) {
                    assert(decreases_to!(j => v@[i as int].1));
                    let c = stripped(&v[i].1);
                    out.push((v[i].0.clone(), c));
                    assert(jentries(out@) =~= strip_entries(nxt));
                } else {
                    assert(jentries(out@) =~= strip_entries(nxt));
                }
                i = i + 1;
            }
            assert(jentries(v@).take(v@.len() as int) =~= jentries(v@));
            let r = Json::Object(out);
            assert(r@ == strip_v(j@)) by {
                assert(r@->Object_0 =~= jentries(out@));
                assert(j@->Object_0 =~= jentries(v@));
            }
            r
        },
        _ => deep_clone(j),
    }
}

/// Removes every `"$type"` entry from every object in `v`, at any depth.
pub fn strip_noise(v: &mut Json)
    ensures
        final(v)@ == strip_v(old(v)@),
{
    let s = stripped(v);
    *v = s;
}

// ---------------------------------------------------------------------
// Reading
// ---------------------------------------------------------------------

/// Index of the first entry at or after `i` whose key is `k`.
pub open spec fn key_index_from(es: Seq<(Seq<char>, JsonV)>, k: Seq<char>, i: int) -> Option<int>
    decreases es.len() - i,
{
    if i < 0 || i >= es.len() {
        None
    } else if es[i].0 == k {
        Some(i)
    } else {
        key_index_from(es, k, i + 1)
    }
}

/// The value under key `k` of an object (`Value::get`); `None` for a missing
/// key or a value that is not an object.
pub open spec fn jget(j: JsonV, k: Seq<char>) -> Option<JsonV> {
    match j {
        JsonV::Object(es) => match key_index_from(es, k, 0) {
            Some(i) => Some(es[i].1),
            None => None,
        },
        _ => None,
    }
}

/// `jget` on an optional value.
pub open spec fn jget_opt(o: Option<JsonV>, k: Seq<char>) -> Option<JsonV> {
    match o {
        Some(j) => jget(j, k),
        None => None,
    }
}

/// The string held by `j`, if it is one (`Value::as_str`).
pub open spec fn jstr(j: Option<JsonV>) -> Option<Seq<char>> {
    match j {
        Some(JsonV::Str(s)) => Some(s),
        _ => None,
    }
}

/// The integer held by `j`, if it fits `i64` (`Value::as_i64`).
pub open spec fn ji64(j: Option<JsonV>) -> Option<i64> {
    match j {
        Some(JsonV::Int(i)) => Some(i),
        _ => None,
    }
}

/// The boolean held by `j`, if it is one (`Value::as_bool`).
pub open spec fn jbool(j: Option<JsonV>) -> Option<bool> {
    match j {
        Some(JsonV::Bool(b)) => Some(b),
        _ => None,
    }
}

/// The string under key `k`, if there is one.
pub open spec fn jget_str(j: JsonV, k: Seq<char>) -> Option<Seq<char>> {
    jstr(jget(j, k))
}

/// The elements of `j`, if it is an array (`Value::as_array`).
pub open spec fn jarray(j: JsonV) -> Option<Seq<JsonV>> {
    match j {
        JsonV::Array(s) => Some(s),
        _ => None,
    }
}

impl Json {
    /// The value under `key`, if `self` is an object holding it.
    #[verifier::loop_isolation(false)]
    pub fn get<'a>(&'a self, key: &str) -> (r: Option<&'a Json>)
        ensures
            match r {
                Some(x) => jget(self@, key@) == Some(x@),
                None => jget(self@, key@) is None,
            },
    {
        match self {
            Json::Object(v) => {
                let ghost es = jentries(v@);
                assert(self@->Object_0 =~= es);
                let mut i: usize = 0;
                while i < v.len()
                    invariant
                        i <= v@.len(),
                        es == jentries(v@),
                        key_index_from(es, key@, 0) == key_index_from(es, key@, i as int),
                    decreases v@.len() - i,
                {
                    if str_eq(v[i].0.as_str(), key) {
                        return Some(&v[i].1);
                    }
                    i = i + 1;
                }
                None
            },
            _ => None,
        }
    }

    /// The string this value holds, if it is one.
    pub fn as_str<'a>(&'a self) -> (r: Option<&'a str>)
        ensures
            match r {
                Some(s) => jstr(Some(self@)) == Some(s@),
                None => jstr(Some(self@)) is None,
            },
    {
        match self {
            Json::Str(s) => Some(s.as_str()),
            _ => None,
        }
    }

    /// The integer this value holds, if it fits an `i64`.
    pub fn as_i64(&self) -> (r: Option<i64>)
        ensures
            r == ji64(Some(self@)),
    {
        match self {
            Json::Int(i) => Some(*i),
            _ => None,
        }
    }

    /// The boolean this value holds, if it is one.
    pub fn as_bool(&self) -> (r: Option<bool>)
        ensures
            r == jbool(Some(self@)),
    {
        match self {
            Json::Bool(b) => Some(*b),
            _ => None,
        }
    }

    /// The elements of this value, if it is an array.
    pub fn as_array<'a>(&'a self) -> (r: Option<&'a Vec<Json>>)
        ensures
            match r {
                Some(v) => jarray(self@) == Some(jvs(v@)),
                None => jarray(self@) is None,
            },
    {
        match self {
            Json::Array(v) => {
                assert(self@->Array_0 =~= jvs(v@));
                Some(v)
            },
            _ => None,
        }
    }

    /// The string under `key`, if there is one, as a new string.
    pub fn get_str(&self, key: &str) -> (r: Option<String>)
        ensures
            match r {
                Some(s) => jget_str(self@, key@) == Some(s@),
                None => jget_str(self@, key@) is None,
            },
    {
        match self.get(key) {
            Some(x) => match x.as_str() {
                Some(s) => Some(string_of(&chars_of(s))),
                None => None,
            },
            None => None,
        }
    }
}

// ---------------------------------------------------------------------
// Building
// ---------------------------------------------------------------------

/// A JSON string.
pub fn jstring(s: &str) -> (r: Json)
    ensures
        r@ == JsonV::Str(s@),
{
    Json::Str(string_of(&chars_of(s)))
}

/// An object with one entry.
pub fn obj1(k: &str, v: Json) -> (r: Json)
    ensures
        r@ == JsonV::Object(seq![(k@, v@)]),
{
    let mut es: Vec<(String, Json)> = Vec::new();
    es.push((string_of(&chars_of(k)), v));
    let r = Json::Object(es);
    assert(r@->Object_0 =~= seq![(k@, v@)]);
    r
}

/// An empty object.
pub fn empty_obj() -> (r: Json)
    ensures
        r@ == JsonV::Object(Seq::empty()),
{
    let r = Json::Object(Vec::new());
    assert(r@->Object_0 =~= Seq::<(Seq<char>, JsonV)>::empty());
    r
}

/// Appends the entry `(k, v)` to the object `o`.
pub fn push_entry(o: &mut Json, k: &str, v: Json)
    requires
        old(o)@ is Object,
    ensures
        final(o)@ == JsonV::Object(old(o)@->Object_0.push((k@, v@))),
{
    match o {
        Json::Object(es) => {
            let ghost before = jentries(es@);
            assert(old(o)@->Object_0 =~= before);
            es.push((string_of(&chars_of(k)), v));
            assert(jentries(es@) =~= before.push((k@, v@)));
        },
        _ => {},
    }
    proof {
        assert(final(o)@->Object_0 =~= old(o)@->Object_0.push((k@, v@)));
    }
}

/// An array holding `items`.
pub fn jarray_of(items: Vec<Json>) -> (r: Json)
    ensures
        r@ == JsonV::Array(jvs(items@)),
{
    let r = Json::Array(items);
    assert(r@->Array_0 =~= jvs(items@));
    r
}

} // verus!
