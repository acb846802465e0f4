//! The wire codec: how an entity turns into a JSON document and back.
//!
//! Every wire-relevant type implements [`WireCodec`]: a specification of its
//! JSON shape (`encoding`), a decoding relation (`can_decode` / `decodes_to`),
//! executable `encode` / `decode` functions proved against them, and a
//! round-trip law.  Generic helpers decode required and optional object
//! fields, so that a struct's decoder is a sequence of field reads.

use vstd::prelude::*;

use crate::json::{jv_of, jv_of_elems, jv_of_fields, lookup, JsonValue, Jv};
use crate::json::{lemma_jv_of_elems, lemma_jv_of_fields};

verus! {

/// A decoding failure: the inbound JSON document does not match the shape the
/// target type expects.  Each variant names the offending field or the
/// expected shape where one can be identified.
#[derive(Debug, PartialEq)]
pub enum DecodeError {
    /// A required field is absent from the document.
    MissingField(String),
    /// A value of the wrong JSON type stands where another was expected.
    WrongType(String),
    /// An enumeration field holds a token outside its documented closed set.
    UnknownToken(String),
}

/// A builder finalisation failure: a required field was never supplied.
#[derive(Debug, PartialEq)]
pub enum BuildError {
    /// The named required field was never set on the builder.
    UninitializedField(String),
}

/// A type that travels over the wire as a JSON document.
///
/// The contracts tie the executable functions to the specification: `encode`
/// returns exactly `encoding`, `decode` succeeds if and only if `can_decode`
/// holds and then relates its result to the document by `decodes_to`, and
/// `lemma_round_trip` states the round-trip law: what `encoding` produces is
/// decodable, and anything it decodes to encodes identically.
pub trait WireCodec: Sized {
    /// The JSON document this value encodes to.
    spec fn encoding(self) -> Jv;

    /// Whether a document decodes to some value of this type.
    spec fn can_decode(v: Jv) -> bool;

    /// Whether a document decodes to exactly this value.
    spec fn decodes_to(v: Jv, t: Self) -> bool;

    /// Encode this value as a JSON document.
    fn encode(&self) -> (r: JsonValue)
        ensures
            r@ == self.encoding(),
    ;

    /// Decode a value from a JSON document, or report how the document
    /// deviates from the expected shape.
    fn decode(v: &JsonValue) -> (r: Result<Self, DecodeError>)
        ensures
            r is Ok <==> Self::can_decode(v@),
            match r {
                Ok(t) => Self::decodes_to(v@, t),
                Err(_) => true,
            },
    ;

    /// The round-trip law: an encoded value is decodable, and everything the
    /// document decodes to puts the same document back on the wire — no field
    /// is lost, invented or altered, and an absent optional stays absent.
    proof fn lemma_round_trip(t: Self, u: Self)
        ensures
            Self::can_decode(t.encoding()),
            Self::decodes_to(t.encoding(), u) ==> u.encoding() == t.encoding(),
    ;
}

/// A required field: present, and decodable as `T`.
pub open spec fn req_ok<T: WireCodec>(fs: Seq<(Seq<char>, Jv)>, key: Seq<char>) -> bool {
    match lookup(fs, key) {
        Some(v) => T::can_decode(v),
        None => false,
    }
}

/// A required field decodes to exactly `t`.
pub open spec fn req_rel<T: WireCodec>(fs: Seq<(Seq<char>, Jv)>, key: Seq<char>, t: T) -> bool {
    match lookup(fs, key) {
        Some(v) => T::decodes_to(v, t),
        None => false,
    }
}

/// An optional field: absent, or decodable as `T`.
pub open spec fn opt_ok<T: WireCodec>(fs: Seq<(Seq<char>, Jv)>, key: Seq<char>) -> bool {
    match lookup(fs, key) {
        Some(v) => T::can_decode(v),
        None => true,
    }
}

/// An optional field decodes to exactly `o`: absent means `None`, present
/// means `Some` of what the value decodes to.
pub open spec fn opt_rel<T: WireCodec>(
    fs: Seq<(Seq<char>, Jv)>,
    key: Seq<char>,
    o: Option<T>,
) -> bool {
    match lookup(fs, key) {
        Some(v) => match o {
            Some(t) => T::decodes_to(v, t),
            None => false,
        },
        None => o is None,
    }
}

/// The field list an optional value contributes to its parent's encoding: one
/// entry when set, nothing when absent.
pub open spec fn opt_entry<T: WireCodec>(key: Seq<char>, o: Option<T>) -> Seq<(Seq<char>, Jv)> {
    match o {
        Some(t) => seq![(key, t.encoding())],
        None => seq![],
    }
}

/// The single field a required value contributes to its parent's encoding.
pub open spec fn field_entry(key: Seq<char>, v: Jv) -> Seq<(Seq<char>, Jv)> {
    seq![(key, v)]
}

/// Looking a key up in a single required entry.
pub broadcast proof fn lemma_lookup_field_entry(key: Seq<char>, v: Jv, k: Seq<char>)
    ensures
        #[trigger] lookup(field_entry(key, v), k) == if k == key {
            Some(v)
        } else {
            None
        },
{
    reveal_with_fuel(lookup, 2);
    if k != key {
        assert(field_entry(key, v).drop_first() =~= Seq::<(Seq<char>, Jv)>::empty());
    }
}

/// Looking a key up in what an optional value contributes: found only when
/// the value is set and the key is its own.
pub broadcast proof fn lemma_lookup_opt_entry<T: WireCodec>(key: Seq<char>, o: Option<T>, k: Seq<char>)
    ensures
        #[trigger] lookup(opt_entry(key, o), k) == match o {
            Some(t) => if k == key {
                Some(t.encoding())
            } else {
                None
            },
            None => None::<Jv>,
        },
{
    reveal_with_fuel(lookup, 2);
    match o {
        Some(t) => {
            if k != key {
                assert(opt_entry(key, o).drop_first() =~= Seq::<(Seq<char>, Jv)>::empty());
            }
        },
        None => {},
    }
}

/// Whether two string views are equal, decided executably.
pub fn str_eq(a: &str, b: &str) -> (r: bool)
    ensures
        r == (a@ == b@),
{
    let x = a.to_owned();
    let y = b.to_owned();
    x == y
}

/// JSON object lookup: the first field bound to `key`, if any.
pub fn obj_get<'a>(fields: &'a Vec<(String, JsonValue)>, key: &str) -> (r: Option<&'a JsonValue>)
    ensures
        match r {
            Some(j) => lookup(jv_of_fields(fields@), key@) == Some(jv_of(*j)) && exists|i: int|
                0 <= i < fields@.len() && fields@[i].1 == *j,
            None => lookup(jv_of_fields(fields@), key@) is None,
        },
{
    proof {
        lemma_jv_of_fields(fields@);
        assert(jv_of_fields(fields@).skip(0) =~= jv_of_fields(fields@));
    }
    let ghost full = jv_of_fields(fields@);
    let n = fields.len();
    let mut i: usize = 0;
    while i < n
        invariant
            0 <= i <= n,
            n == fields@.len(),
            full == jv_of_fields(fields@),
            full.len() == n,
            forall|k: int| 0 <= k < n ==> full[k] == (fields@[k].0@, jv_of(fields@[k].1)),
            lookup(full, key@) == lookup(full.skip(i as int), key@),
        decreases n - i,
    {
        let hit = str_eq(fields[i].0.as_str(), key);
        proof {
            assert(full.skip(i as int).len() > 0);
            assert(full.skip(i as int)[0] == full[i as int]);
        }
        if hit {
            proof {
                assert(lookup(full.skip(i as int), key@) == Some(full[i as int].1));
            }
            proof {
                assert(0 <= i < fields@.len() && fields@[i as int].1 == fields@[i as int].1);
            }
            return Some(&fields[i].1);
        }
        proof {
            assert(full.skip(i as int).drop_first() =~= full.skip(i as int + 1));
        }
        i += 1;
    }
    proof {
        assert(full.skip(n as int) =~= Seq::empty());
    }
    None
}

/// Read a required field and decode it as `T`.
pub fn get_req<T: WireCodec>(fields: &Vec<(String, JsonValue)>, key: &str) -> (r: Result<
    T,
    DecodeError,
>)
    ensures
        r is Ok <==> req_ok::<T>(jv_of_fields(fields@), key@),
        match r {
            Ok(t) => req_rel::<T>(jv_of_fields(fields@), key@, t),
            Err(_) => true,
        },
        match r {
            Ok(_) => true,
            Err(e) => match lookup(jv_of_fields(fields@), key@) {
                None => e matches DecodeError::MissingField(f) && f@ == key@,
                Some(w) => !T::can_decode(w),
            },
        },
{
    match obj_get(fields, key) {
        Some(j) => T::decode(j),
        None => Err(DecodeError::MissingField(key.to_owned())),
    }
}

/// Read an optional field; decode it as `T` when present.
pub fn get_opt<T: WireCodec>(fields: &Vec<(String, JsonValue)>, key: &str) -> (r: Result<
    Option<T>,
    DecodeError,
>)
    ensures
        r is Ok <==> opt_ok::<T>(jv_of_fields(fields@), key@),
        match r {
            Ok(o) => opt_rel::<T>(jv_of_fields(fields@), key@, o),
            Err(_) => true,
        },
        match r {
            Ok(_) => true,
            Err(_) => match lookup(jv_of_fields(fields@), key@) {
                None => false,
                Some(w) => !T::can_decode(w),
            },
        },
{
    match obj_get(fields, key) {
        Some(j) => match T::decode(j) {
            Ok(t) => Ok(Some(t)),
            Err(e) => Err(e),
        },
        None => Ok(None),
    }
}

/// Appends a required field to an object under construction: its shape grows
/// by exactly that field's entry.
pub fn push_req<T: WireCodec>(fs: &mut Vec<(String, JsonValue)>, key: &str, x: &T)
    ensures
        jv_of_fields(final(fs)@) == jv_of_fields(old(fs)@) + field_entry(key@, x.encoding()),
{
    let ghost prev = jv_of_fields(fs@);
    fs.push((key.to_owned(), x.encode()));
    proof {
        broadcast use crate::json::lemma_jv_of_fields_push;

        crate::json::lemma_acc_step(prev, field_entry(key@, x.encoding()));
    }
}

/// Appends an optional field to an object under construction: its shape grows
/// by that field's entry when the value is set, and not at all when it is
/// absent.
pub fn push_opt<T: WireCodec>(fs: &mut Vec<(String, JsonValue)>, key: &str, o: &Option<T>)
    ensures
        jv_of_fields(final(fs)@) == jv_of_fields(old(fs)@) + opt_entry(key@, *o),
{
    let ghost prev = jv_of_fields(fs@);
    if let Some(x) = o {
        fs.push((key.to_owned(), x.encode()));
    }
    proof {
        broadcast use crate::json::lemma_jv_of_fields_push;

        crate::json::lemma_acc_step(prev, opt_entry(key@, *o));
    }
}

impl WireCodec for String {
    open spec fn encoding(self) -> Jv {
        Jv::Str(self@)
    }

    open spec fn can_decode(v: Jv) -> bool {
        v is Str
    }

    open spec fn decodes_to(v: Jv, t: Self) -> bool {
        v == Jv::Str(t@)
    }

    fn encode(&self) -> (r: JsonValue) {
        JsonValue::Str(self.clone())
    }

    fn decode(v: &JsonValue) -> (r: Result<Self, DecodeError>) {
        match v {
            JsonValue::Str(s) => Ok(s.clone()),
            _ => Err(DecodeError::WrongType("string".to_owned())),
        }
    }

    proof fn lemma_round_trip(t: Self, u: Self) {
    }
}

impl WireCodec for bool {
    open spec fn encoding(self) -> Jv {
        Jv::Bool(self)
    }

    open spec fn can_decode(v: Jv) -> bool {
        v is Bool
    }

    open spec fn decodes_to(v: Jv, t: Self) -> bool {
        v == Jv::Bool(t)
    }

    fn encode(&self) -> (r: JsonValue) {
        JsonValue::Bool(*self)
    }

    fn decode(v: &JsonValue) -> (r: Result<Self, DecodeError>) {
        match v {
            JsonValue::Bool(b) => Ok(*b),
            _ => Err(DecodeError::WrongType("boolean".to_owned())),
        }
    }

    proof fn lemma_round_trip(t: Self, u: Self) {
    }
}

impl WireCodec for JsonValue {
    /// An opaque document travels as itself: schema areas the model leaves
    /// untyped (processor responses, funding instruments) pass through
    /// unaltered.
    open spec fn encoding(self) -> Jv {
        jv_of(self)
    }

    open spec fn can_decode(v: Jv) -> bool {
        true
    }

    open spec fn decodes_to(v: Jv, t: Self) -> bool {
        jv_of(t) == v
    }

    fn encode(&self) -> (r: JsonValue) {
        self.deep_clone()
    }

    fn decode(v: &JsonValue) -> (r: Result<Self, DecodeError>) {
        Ok(v.deep_clone())
    }

    proof fn lemma_round_trip(t: Self, u: Self) {
    }
}

impl<T: WireCodec> WireCodec for Box<T> {
    /// A boxed value travels exactly as the value itself.
    open spec fn encoding(self) -> Jv {
        (*self).encoding()
    }

    open spec fn can_decode(v: Jv) -> bool {
        T::can_decode(v)
    }

    open spec fn decodes_to(v: Jv, t: Self) -> bool {
        T::decodes_to(v, *t)
    }

    fn encode(&self) -> (r: JsonValue) {
        (**self).encode()
    }

    fn decode(v: &JsonValue) -> (r: Result<Self, DecodeError>) {
        match T::decode(v) {
            Ok(t) => Ok(Box::new(t)),
            Err(e) => Err(e),
        }
    }

    proof fn lemma_round_trip(t: Self, u: Self) {
        T::lemma_round_trip(*t, *u);
    }
}

impl<T: WireCodec> WireCodec for Vec<T> {
    /// A list encodes as a JSON array, element by element.
    open spec fn encoding(self) -> Jv {
        Jv::Array(Seq::new(self@.len(), |i: int| self@[i].encoding()))
    }

    open spec fn can_decode(v: Jv) -> bool {
        match v {
            Jv::Array(es) => forall|i: int| 0 <= i < es.len() ==> T::can_decode(#[trigger] es[i]),
            _ => false,
        }
    }

    open spec fn decodes_to(v: Jv, t: Self) -> bool {
        match v {
            Jv::Array(es) => es.len() == t@.len() && forall|i: int|
                0 <= i < es.len() ==> T::decodes_to(#[trigger] es[i], t@[i]),
            _ => false,
        }
    }

    fn encode(&self) -> (r: JsonValue) {
        let mut out: Vec<JsonValue> = Vec::new();
        let n = self.len();
        let mut i: usize = 0;
        while i < n
            invariant
                0 <= i <= n,
                n == self@.len(),
                out@.len() == i,
                forall|k: int| 0 <= k < i ==> jv_of(#[trigger] out@[k]) == self@[k].encoding(),
            decreases n - i,
        {
            out.push(self[i].encode());
            i += 1;
        }
        let r = JsonValue::Array(out);
        proof {
            lemma_jv_of_elems(r->Array_0@);
            assert(jv_of_elems(r->Array_0@) =~= Seq::new(self@.len(), |i: int| self@[i].encoding()));
        }
        r
    }

    fn decode(v: &JsonValue) -> (r: Result<Self, DecodeError>) {
        match v {
            JsonValue::Array(elems) => {
                proof {
                    lemma_jv_of_elems(elems@);
                }
                let mut out: Vec<T> = Vec::new();
                let n = elems.len();
                let mut i: usize = 0;
                while i < n
                    invariant
                        0 <= i <= n,
                        n == elems@.len(),
                        out@.len() == i,
                        v@ == Jv::Array(jv_of_elems(elems@)),
                        jv_of_elems(elems@).len() == n,
                        forall|k: int|
                            0 <= k < n ==> jv_of_elems(elems@)[k] == jv_of(#[trigger] elems@[k]),
                        forall|k: int|
                            0 <= k < i ==> T::can_decode(jv_of(#[trigger] elems@[k]))
                                && T::decodes_to(jv_of(elems@[k]), out@[k]),
                    decreases n - i,
                {
                    match T::decode(&elems[i]) {
                        Ok(t) => out.push(t),
                        Err(e) => {
                            proof {
                                assert(jv_of_elems(elems@)[i as int] == jv_of(
                                    elems@[i as int],
                                ));
                                assert(!T::can_decode(jv_of_elems(elems@)[i as int]));
                                assert(v@ == Jv::Array(jv_of_elems(elems@)));
                                assert(!T::can_decode(v@->Array_0[i as int]));
                                assert(!Self::can_decode(v@));
                            }
                            return Err(e);
                        },
                    }
                    i += 1;
                }
                Ok(out)
            },
            _ => Err(DecodeError::WrongType("array".to_owned())),
        }
    }

    proof fn lemma_round_trip(t: Self, u: Self) {
        let enc = t.encoding();
        let es = enc->Array_0;
        assert forall|i: int| 0 <= i < es.len() implies T::can_decode(#[trigger] es[i]) by {
            T::lemma_round_trip(t@[i], t@[i]);
        }
        if Self::decodes_to(enc, u) {
            assert forall|i: int| 0 <= i < u@.len() implies (#[trigger] u@[i]).encoding()
                == t@[i].encoding() by {
                assert(es[i] == t@[i].encoding());
                assert(T::decodes_to(es[i], u@[i]));
                T::lemma_round_trip(t@[i], u@[i]);
            }
            assert(Seq::new(u@.len(), |i: int| u@[i].encoding()) =~= Seq::new(
                t@.len(),
                |i: int| t@[i].encoding(),
            ));
        }
    }
}

} // verus!
