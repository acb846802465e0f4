//! A structural model of JSON documents.
//!
//! The wire format of every entity in this crate is a JSON document.  The
//! document is held structurally: an object is an ordered list of key/value
//! pairs, and a number is carried as its decimal text, never as a float, so
//! that monetary values survive a round trip unchanged.  Turning a
//! [`JsonValue`] into JSON text and back is the job of an external layer.

use vstd::prelude::*;

verus! {

broadcast use vstd::std_specs::vec::group_vec_axioms, vstd::seq::group_seq_axioms;

/// A JSON document, held structurally.
#[derive(Debug, PartialEq)]
pub enum JsonValue {
    /// The JSON value `null`.
    Null,
    /// A JSON boolean.
    Bool(bool),
    /// A JSON number, carried verbatim as its decimal text.
    Number(String),
    /// A JSON string.
    Str(String),
    /// A JSON array.
    Array(Vec<JsonValue>),
    /// A JSON object: its fields in emission order.
    Object(Vec<(String, JsonValue)>),
}

/// The mathematical shape of a JSON document: the view of [`JsonValue`].
#[verifier::ext_equal]
pub enum Jv {
    /// The JSON value `null`.
    Null,
    /// A JSON boolean.
    Bool(bool),
    /// A JSON number, as its decimal text.
    Number(Seq<char>),
    /// A JSON string.
    Str(Seq<char>),
    /// A JSON array.
    Array(Seq<Jv>),
    /// A JSON object: its fields in emission order.
    Object(Seq<(Seq<char>, Jv)>),
}

/// The shape of a document: [`JsonValue`]'s view, written out recursively.
pub open spec fn jv_of(j: JsonValue) -> Jv
    decreases j,
{
    match j {
        JsonValue::Null => Jv::Null,
        JsonValue::Bool(b) => Jv::Bool(b),
        JsonValue::Number(s) => Jv::Number(s@),
        JsonValue::Str(s) => Jv::Str(s@),
        JsonValue::Array(v) => Jv::Array(jv_of_elems(v@)),
        JsonValue::Object(v) => Jv::Object(jv_of_fields(v@)),
    }
}

/// The shapes of an array's elements, in order.
pub open spec fn jv_of_elems(s: Seq<JsonValue>) -> Seq<Jv>
    decreases s,
{
    if s.len() == 0 {
        Seq::empty()
    } else {
        jv_of_elems(s.drop_last()).push(jv_of(s.last()))
    }
}

/// The shapes of an object's fields, in order.
pub open spec fn jv_of_fields(s: Seq<(String, JsonValue)>) -> Seq<(Seq<char>, Jv)>
    decreases s,
{
    if s.len() == 0 {
        Seq::empty()
    } else {
        jv_of_fields(s.drop_last()).push((s.last().0@, jv_of(s.last().1)))
    }
}

/// Appending a field appends its shape.
pub broadcast proof fn lemma_jv_of_fields_push(s: Seq<(String, JsonValue)>, p: (String, JsonValue))
    ensures
        #[trigger] jv_of_fields(s.push(p)) == jv_of_fields(s).push((p.0@, jv_of(p.1))),
{
    assert(s.push(p).drop_last() =~= s);
    assert(s.push(p).last() == p);
}

/// Appending an element appends its shape.
pub broadcast proof fn lemma_jv_of_elems_push(s: Seq<JsonValue>, j: JsonValue)
    ensures
        #[trigger] jv_of_elems(s.push(j)) == jv_of_elems(s).push(jv_of(j)),
{
    assert(s.push(j).drop_last() =~= s);
    assert(s.push(j).last() == j);
}

/// One step of building an object's field list: appending what a single
/// field contributes — nothing, or one entry — is a no-op or a push.
pub proof fn lemma_acc_step(prev: Seq<(Seq<char>, Jv)>, e: Seq<(Seq<char>, Jv)>)
    ensures
        e.len() == 0 ==> prev + e == prev,
        e.len() == 1 ==> prev + e == prev.push(e[0]),
{
    if e.len() == 0 {
        assert(prev + e =~= prev);
    } else if e.len() == 1 {
        assert(prev + e =~= prev.push(e[0]));
    }
}

/// The empty field list is a left identity of concatenation.
pub proof fn lemma_concat_left_empty(e: Seq<(Seq<char>, Jv)>)
    ensures
        Seq::<(Seq<char>, Jv)>::empty() + e == e,
{
    assert(Seq::<(Seq<char>, Jv)>::empty() + e =~= e);
}

/// Lookup distributes over concatenation: the left part keeps priority.
pub broadcast proof fn lemma_lookup_concat(s1: Seq<(Seq<char>, Jv)>, s2: Seq<(Seq<char>, Jv)>, k: Seq<char>)
    ensures
        #[trigger] lookup(s1 + s2, k) == if lookup(s1, k) is Some {
            lookup(s1, k)
        } else {
            lookup(s2, k)
        },
    decreases s1.len(),
{
    if s1.len() == 0 {
        assert(s1 + s2 =~= s2);
    } else {
        assert((s1 + s2).drop_first() =~= s1.drop_first() + s2);
        lemma_lookup_concat(s1.drop_first(), s2, k);
    }
}

/// How lookup behaves when one more field is appended: an existing binding
/// keeps priority, otherwise the new field is found exactly under its key.
pub proof fn lemma_lookup_push(s: Seq<(Seq<char>, Jv)>, p: (Seq<char>, Jv), k: Seq<char>)
    ensures
        lookup(s.push(p), k) == if lookup(s, k) is Some {
            lookup(s, k)
        } else if p.0 == k {
            Some(p.1)
        } else {
            None
        },
    decreases s.len(),
{
    if s.len() == 0 {
        assert(s.push(p).drop_first() =~= Seq::empty());
    } else {
        assert(s.push(p).drop_first() =~= s.drop_first().push(p));
        lemma_lookup_push(s.drop_first(), p, k);
    }
}

impl View for JsonValue {
    type V = Jv;

    open spec fn view(&self) -> Jv {
        jv_of(*self)
    }
}

/// The element shapes of an array are the shapes of its elements, index by
/// index.
pub broadcast proof fn lemma_jv_of_elems(s: Seq<JsonValue>)
    ensures
        #[trigger] jv_of_elems(s).len() == s.len(),
        forall|i: int| 0 <= i < s.len() ==> jv_of_elems(s)[i] == jv_of(s[i]),
    decreases s.len(),
{
    if s.len() > 0 {
        lemma_jv_of_elems(s.drop_last());
    }
}

/// The field shapes of an object are the key views and value shapes of its
/// fields, index by index.
pub broadcast proof fn lemma_jv_of_fields(s: Seq<(String, JsonValue)>)
    ensures
        #[trigger] jv_of_fields(s).len() == s.len(),
        forall|i: int|
            0 <= i < s.len() ==> jv_of_fields(s)[i] == (s[i].0@, jv_of(s[i].1)),
    decreases s.len(),
{
    if s.len() > 0 {
        lemma_jv_of_fields(s.drop_last());
    }
}

/// The first value bound to `key` in an object's field list, if any: JSON
/// object lookup.
pub open spec fn lookup(fields: Seq<(Seq<char>, Jv)>, key: Seq<char>) -> Option<Jv>
    decreases fields.len(),
{
    if fields.len() == 0 {
        None
    } else if fields[0].0 == key {
        Some(fields[0].1)
    } else {
        lookup(fields.drop_first(), key)
    }
}

/// What lookup finds is one of the field values.
pub proof fn lemma_lookup_elem(fs: Seq<(Seq<char>, Jv)>, k: Seq<char>)
    ensures
        match lookup(fs, k) {
            Some(x) => exists|i: int| 0 <= i < fs.len() && fs[i].1 == x,
            None => true,
        },
    decreases fs.len(),
{
    if fs.len() != 0 {
        if fs[0].0 == k {
            assert(fs[0].1 == lookup(fs, k)->Some_0);
        } else {
            lemma_lookup_elem(fs.drop_first(), k);
            if let Some(x) = lookup(fs, k) {
                let j = choose|j: int|
                    0 <= j < fs.drop_first().len() && fs.drop_first()[j].1 == x;
                assert(fs[j + 1].1 == x);
            }
        }
    }
}

/// What lookup finds inside an object stands below the object in the
/// well-founded order that recursive definitions descend along.
pub proof fn lemma_lookup_smaller(v: Jv, k: Seq<char>)
    ensures
        match v {
            Jv::Object(fs) => match lookup(fs, k) {
                Some(x) => decreases_to!(v => x),
                None => true,
            },
            _ => true,
        },
{
    if let Jv::Object(fs) = v {
        lemma_lookup_elem(fs, k);
        if let Some(x) = lookup(fs, k) {
            let i = choose|i: int| 0 <= i < fs.len() && fs[i].1 == x;
            assert(decreases_to!(v => v->Object_0));
            assert(decreases_to!(fs => fs[i]));
            assert(decreases_to!(fs[i] => fs[i].1));
            assert(decreases_to!(v => x));
        }
    }
}

impl JsonValue {
    /// A structurally identical copy of the document: same shape, character
    /// for character.
    pub fn deep_clone(&self) -> (r: JsonValue)
        ensures
            r@ == self@,
        decreases *self,
    {
        match self {
            JsonValue::Null => JsonValue::Null,
            JsonValue::Bool(b) => JsonValue::Bool(*b),
            JsonValue::Number(s) => JsonValue::Number(s.clone()),
            JsonValue::Str(s) => JsonValue::Str(s.clone()),
            JsonValue::Array(v) => {
                let mut out: Vec<JsonValue> = Vec::new();
                let n = v.len();
                let mut i: usize = 0;
                while i < n
                    invariant
                        0 <= i <= n,
                        n == v@.len(),
                        *self == JsonValue::Array(*v),
                        out@.len() == i,
                        forall|k: int| 0 <= k < i ==> jv_of(#[trigger] out@[k]) == jv_of(v@[k]),
                    decreases n - i,
                {
                    proof {
                        assert(*v == (*self)->Array_0);
                        assert(decreases_to!(*self => (*self)->Array_0));
                        assert(decreases_to!(*v => v@));
                        assert(decreases_to!(v@ => v@[i as int]));
                    }
                    let c = v[i].deep_clone();
                    out.push(c);
                    i += 1;
                }
                let r = JsonValue::Array(out);
                proof {
                    lemma_jv_of_elems(r->Array_0@);
                    lemma_jv_of_elems(v@);
                    assert(jv_of_elems(r->Array_0@) =~= jv_of_elems(v@));
                }
                r
            },
            JsonValue::Object(v) => {
                let mut out: Vec<(String, JsonValue)> = Vec::new();
                let n = v.len();
                let mut i: usize = 0;
                while i < n
                    invariant
                        0 <= i <= n,
                        n == v@.len(),
                        *self == JsonValue::Object(*v),
                        out@.len() == i,
                        forall|k: int|
                            0 <= k < i ==> (#[trigger] out@[k]).0@ == v@[k].0@ && jv_of(out@[k].1)
                                == jv_of(v@[k].1),
                    decreases n - i,
                {
                    proof {
                        assert(*v == (*self)->Object_0);
                        assert(decreases_to!(*self => (*self)->Object_0));
                        assert(decreases_to!(*v => v@));
                        assert(decreases_to!(v@ => v@[i as int]));
                        assert(decreases_to!(v@[i as int] => v@[i as int].1));
                    }
                    let c = v[i].1.deep_clone();
                    let k = v[i].0.clone();
                    out.push((k, c));
                    i += 1;
                }
                let r = JsonValue::Object(out);
                proof {
                    lemma_jv_of_fields(r->Object_0@);
                    lemma_jv_of_fields(v@);
                    assert(jv_of_fields(r->Object_0@) =~= jv_of_fields(v@));
                }
                r
            },
        }
    }
}

} // verus!
