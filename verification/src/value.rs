//! The pipeline's neutral, JSON-shaped value model and the model of the
//! script engine's native value type.
//!
//! Numbers that are exactly representable as `i64` are held as integers.
//! Any other JSON number is carried as its decimal text (`Num`), so the
//! model itself is exact and total. A native float can render as a
//! non-finite text (`inf`, `-inf`); the backward conversion coerces such
//! a value to null, so `Num` only ever carries finite number texts on
//! the pipeline's own paths. The boundary that reads real JSON decides
//! which variant to build.
//!
//! Each executable value type has a mathematical mirror (`JsonValV`,
//! `NativeValV`) over `int`, `Seq<char>` and `Seq`, reached through `@`;
//! every contract in the crate speaks of those mirrors.

use vstd::prelude::*;

verus! {

/// A JSON-like value: the payload of input-record metadata and the shape
/// of everything the pipeline serializes.
#[derive(Debug, PartialEq)]
pub enum JsonVal {
    Null,
    Bool(bool),
    Int(i64),
    /// A JSON number that is not exactly representable as `i64`, carried
    /// as its decimal text (for example `"2.5"`).
    Num(String),
    Str(String),
    Arr(Vec<JsonVal>),
    /// An object as an ordered list of key/value pairs; keys are unique.
    Obj(Vec<(String, JsonVal)>),
}

/// The mathematical mirror of [`JsonVal`].
pub enum JsonValV {
    Null,
    Bool(bool),
    Int(int),
    Num(Seq<char>),
    Str(Seq<char>),
    Arr(Seq<JsonValV>),
    Obj(Seq<(Seq<char>, JsonValV)>),
}

/// The script engine's native value, modelled with plain payloads.
/// Strings live in `Bytes`, as the engine holds them; timestamps and
/// regexes are carried as their text rendering.
#[derive(Debug, PartialEq)]
pub enum NativeVal {
    Null,
    Bool(bool),
    Int(i64),
    /// A non-integer number as its decimal text; the engine's floats are
    /// never NaN, so every such value has one.
    Float(String),
    Bytes(String),
    Timestamp(String),
    Regex(String),
    Arr(Vec<NativeVal>),
    Obj(Vec<(String, NativeVal)>),
}

/// The mathematical mirror of [`NativeVal`].
pub enum NativeValV {
    Null,
    Bool(bool),
    Int(int),
    Float(Seq<char>),
    Bytes(Seq<char>),
    Timestamp(Seq<char>),
    Regex(Seq<char>),
    Arr(Seq<NativeValV>),
    Obj(Seq<(Seq<char>, NativeValV)>),
}

pub open spec fn jv_view(v: JsonVal) -> JsonValV
    decreases v,
{
    match v {
        JsonVal::Null => JsonValV::Null,
        JsonVal::Bool(b) => JsonValV::Bool(b),
        JsonVal::Int(i) => JsonValV::Int(i as int),
        JsonVal::Num(t) => JsonValV::Num(t@),
        JsonVal::Str(s) => JsonValV::Str(s@),
        JsonVal::Arr(elems) => JsonValV::Arr(jv_view_seq(elems@)),
        JsonVal::Obj(fields) => JsonValV::Obj(jv_view_pairs(fields@)),
    }
}

pub open spec fn jv_view_seq(s: Seq<JsonVal>) -> Seq<JsonValV>
    decreases s,
{
    if s.len() == 0 {
        Seq::empty()
    } else {
        seq![jv_view(s[0])] + jv_view_seq(s.subrange(1, s.len() as int))
    }
}

pub open spec fn jv_view_pairs(s: Seq<(String, JsonVal)>) -> Seq<(Seq<char>, JsonValV)>
    decreases s,
{
    if s.len() == 0 {
        Seq::empty()
    } else {
        seq![(s[0].0@, jv_view(s[0].1))] + jv_view_pairs(s.subrange(1, s.len() as int))
    }
}

/// `jv_view_seq` maps the sequence pointwise.
pub proof fn lemma_jv_view_seq(s: Seq<JsonVal>)
    ensures
        jv_view_seq(s).len() == s.len(),
        forall|i: int| 0 <= i < s.len() ==> jv_view_seq(s)[i] == jv_view(s[i]),
    decreases s.len(),
{
    if s.len() > 0 {
        lemma_jv_view_seq(s.subrange(1, s.len() as int));
    }
}

/// `jv_view_pairs` maps the sequence pointwise.
pub proof fn lemma_jv_view_pairs(s: Seq<(String, JsonVal)>)
    ensures
        jv_view_pairs(s).len() == s.len(),
        forall|i: int| 0 <= i < s.len()
            ==> jv_view_pairs(s)[i] == (s[i].0@, jv_view(s[i].1)),
    decreases s.len(),
{
    if s.len() > 0 {
        lemma_jv_view_pairs(s.subrange(1, s.len() as int));
    }
}

impl View for JsonVal {
    type V = JsonValV;

    open spec fn view(&self) -> JsonValV {
        jv_view(*self)
    }
}

pub open spec fn nv_view(v: NativeVal) -> NativeValV
    decreases v,
{
    match v {
        NativeVal::Null => NativeValV::Null,
        NativeVal::Bool(b) => NativeValV::Bool(b),
        NativeVal::Int(i) => NativeValV::Int(i as int),
        NativeVal::Float(t) => NativeValV::Float(t@),
        NativeVal::Bytes(s) => NativeValV::Bytes(s@),
        NativeVal::Timestamp(s) => NativeValV::Timestamp(s@),
        NativeVal::Regex(s) => NativeValV::Regex(s@),
        NativeVal::Arr(elems) => NativeValV::Arr(nv_view_seq(elems@)),
        NativeVal::Obj(fields) => NativeValV::Obj(nv_view_pairs(fields@)),
    }
}

pub open spec fn nv_view_seq(s: Seq<NativeVal>) -> Seq<NativeValV>
    decreases s,
{
    if s.len() == 0 {
        Seq::empty()
    } else {
        seq![nv_view(s[0])] + nv_view_seq(s.subrange(1, s.len() as int))
    }
}

pub open spec fn nv_view_pairs(s: Seq<(String, NativeVal)>) -> Seq<(Seq<char>, NativeValV)>
    decreases s,
{
    if s.len() == 0 {
        Seq::empty()
    } else {
        seq![(s[0].0@, nv_view(s[0].1))] + nv_view_pairs(s.subrange(1, s.len() as int))
    }
}

/// `nv_view_seq` maps the sequence pointwise.
pub proof fn lemma_nv_view_seq(s: Seq<NativeVal>)
    ensures
        nv_view_seq(s).len() == s.len(),
        forall|i: int| 0 <= i < s.len() ==> nv_view_seq(s)[i] == nv_view(s[i]),
    decreases s.len(),
{
    if s.len() > 0 {
        lemma_nv_view_seq(s.subrange(1, s.len() as int));
    }
}

/// `nv_view_pairs` maps the sequence pointwise.
pub proof fn lemma_nv_view_pairs(s: Seq<(String, NativeVal)>)
    ensures
        nv_view_pairs(s).len() == s.len(),
        forall|i: int| 0 <= i < s.len()
            ==> nv_view_pairs(s)[i] == (s[i].0@, nv_view(s[i].1)),
    decreases s.len(),
{
    if s.len() > 0 {
        lemma_nv_view_pairs(s.subrange(1, s.len() as int));
    }
}

impl View for NativeVal {
    type V = NativeValV;

    open spec fn view(&self) -> NativeValV {
        nv_view(*self)
    }
}

/// Looks a key up in an object's field list: the value of the first pair
/// whose key is `key`.
pub open spec fn obj_get(fields: Seq<(Seq<char>, JsonValV)>, key: Seq<char>) -> Option<JsonValV>
    decreases fields.len(),
{
    if fields.len() == 0 {
        None
    } else if fields[0].0 == key {
        Some(fields[0].1)
    } else {
        obj_get(fields.subrange(1, fields.len() as int), key)
    }
}

impl Clone for JsonVal {
    #[verifier::loop_isolation(false)]
    fn clone(&self) -> (r: Self)
        ensures
            r@ == self@,
        decreases self,
    {
        match self {
            JsonVal::Null => JsonVal::Null,
            JsonVal::Bool(b) => JsonVal::Bool(*b),
            JsonVal::Int(i) => JsonVal::Int(*i),
            JsonVal::Num(t) => JsonVal::Num(t.clone()),
            JsonVal::Str(s) => JsonVal::Str(s.clone()),
            JsonVal::Arr(elems) => {
                let mut out: Vec<JsonVal> = Vec::new();
                let n = elems.len();
                let mut i: usize = 0;
                while i < n
                    invariant
                        i <= n,
                        out@.len() == i,
                        forall|j: int| 0 <= j < i ==> out@[j]@ == elems@[j]@,
                    decreases n - i,
                {
                    out.push(elems[i].clone());
                    i = i + 1;
                }
                let r = JsonVal::Arr(out);
                proof {
                    lemma_jv_view_seq(out@);
                    lemma_jv_view_seq(elems@);
                    assert(r@->Arr_0 =~= self@->Arr_0);
                }
                r
            }
            JsonVal::Obj(fields) => {
                let mut out: Vec<(String, JsonVal)> = Vec::new();
                let n = fields.len();
                let mut i: usize = 0;
                while i < n
                    invariant
                        i <= n,
                        out@.len() == i,
                        forall|j: int| 0 <= j < i
                            ==> out@[j].0@ == fields@[j].0@ && out@[j].1@ == fields@[j].1@,
                    decreases n - i,
                {
                    let k = fields[i].0.clone();
                    let v = fields[i].1.clone();
                    out.push((k, v));
                    i = i + 1;
                }
                let r = JsonVal::Obj(out);
                proof {
                    lemma_jv_view_pairs(out@);
                    lemma_jv_view_pairs(fields@);
                    assert(r@->Obj_0 =~= self@->Obj_0);
                }
                r
            }
        }
    }
}

impl Clone for NativeVal {
    #[verifier::loop_isolation(false)]
    fn clone(&self) -> (r: Self)
        ensures
            r@ == self@,
        decreases self,
    {
        match self {
            NativeVal::Null => NativeVal::Null,
            NativeVal::Bool(b) => NativeVal::Bool(*b),
            NativeVal::Int(i) => NativeVal::Int(*i),
            NativeVal::Float(t) => NativeVal::Float(t.clone()),
            NativeVal::Bytes(s) => NativeVal::Bytes(s.clone()),
            NativeVal::Timestamp(s) => NativeVal::Timestamp(s.clone()),
            NativeVal::Regex(s) => NativeVal::Regex(s.clone()),
            NativeVal::Arr(elems) => {
                let mut out: Vec<NativeVal> = Vec::new();
                let n = elems.len();
                let mut i: usize = 0;
                while i < n
                    invariant
                        i <= n,
                        out@.len() == i,
                        forall|j: int| 0 <= j < i ==> out@[j]@ == elems@[j]@,
                    decreases n - i,
                {
                    out.push(elems[i].clone());
                    i = i + 1;
                }
                let r = NativeVal::Arr(out);
                proof {
                    lemma_nv_view_seq(out@);
                    lemma_nv_view_seq(elems@);
                    assert(r@->Arr_0 =~= self@->Arr_0);
                }
                r
            }
            NativeVal::Obj(fields) => {
                let mut out: Vec<(String, NativeVal)> = Vec::new();
                let n = fields.len();
                let mut i: usize = 0;
                while i < n
                    invariant
                        i <= n,
                        out@.len() == i,
                        forall|j: int| 0 <= j < i
                            ==> out@[j].0@ == fields@[j].0@ && out@[j].1@ == fields@[j].1@,
                    decreases n - i,
                {
                    let k = fields[i].0.clone();
                    let v = fields[i].1.clone();
                    out.push((k, v));
                    i = i + 1;
                }
                let r = NativeVal::Obj(out);
                proof {
                    lemma_nv_view_pairs(out@);
                    lemma_nv_view_pairs(fields@);
                    assert(r@->Obj_0 =~= self@->Obj_0);
                }
                r
            }
        }
    }
}

/// Extending a field list appends one viewed pair.
pub proof fn lemma_jv_view_pairs_snoc(s: Seq<(String, JsonVal)>, x: (String, JsonVal))
    ensures
        jv_view_pairs(s.push(x)) == jv_view_pairs(s) + seq![(x.0@, jv_view(x.1))],
    decreases s.len(),
{
    let full = s.push(x);
    if s.len() == 0 {
        assert(full.subrange(1, 1) =~= Seq::<(String, JsonVal)>::empty());
        assert(jv_view_pairs(Seq::<(String, JsonVal)>::empty()) =~= Seq::<(
            Seq<char>,
            JsonValV,
        )>::empty());
        assert(jv_view_pairs(full) =~= jv_view_pairs(s) + seq![(x.0@, jv_view(x.1))]);
    } else {
        let tail = s.subrange(1, s.len() as int);
        assert(full.subrange(1, full.len() as int) =~= tail.push(x));
        lemma_jv_view_pairs_snoc(tail, x);
        assert(jv_view_pairs(full) =~= jv_view_pairs(s) + seq![(x.0@, jv_view(x.1))]);
    }
}

/// When the first pair holding `key` stands at `i`, `obj_get` returns its
/// value.
pub proof fn lemma_obj_get_found(fields: Seq<(Seq<char>, JsonValV)>, key: Seq<char>, i: int)
    requires
        0 <= i < fields.len(),
        fields[i].0 == key,
        forall|j: int| 0 <= j < i ==> (#[trigger] fields[j]).0 != key,
    ensures
        obj_get(fields, key) == Some(fields[i].1),
    decreases i,
{
    if i > 0 {
        let tail = fields.subrange(1, fields.len() as int);
        assert(forall|j: int| 0 <= j < i - 1 ==> (#[trigger] tail[j]).0 != key);
        lemma_obj_get_found(tail, key, i - 1);
    }
}

/// When no pair holds `key`, `obj_get` returns nothing.
pub proof fn lemma_obj_get_none(fields: Seq<(Seq<char>, JsonValV)>, key: Seq<char>)
    requires
        forall|j: int| 0 <= j < fields.len() ==> (#[trigger] fields[j]).0 != key,
    ensures
        obj_get(fields, key) is None,
    decreases fields.len(),
{
    if fields.len() > 0 {
        lemma_obj_get_none(fields.subrange(1, fields.len() as int), key);
    }
}

/// Looks a key up in an object's field list, returning a borrow of the
/// first matching value.
pub fn obj_find<'a>(fields: &'a Vec<(String, JsonVal)>, key: &str) -> (r: Option<&'a JsonVal>)
    ensures
        match r {
            Some(v) => obj_get(jv_view_pairs(fields@), key@) == Some(jv_view(*v)),
            None => obj_get(jv_view_pairs(fields@), key@) is None,
        },
{
    let n = fields.len();
    let mut i: usize = 0;
    proof {
        lemma_jv_view_pairs(fields@);
    }
    while i < n
        invariant
            i <= n,
            n == fields.len(),
            forall|j: int| 0 <= j < i ==> (#[trigger] jv_view_pairs(fields@)[j]).0 != key@,
        decreases n - i,
    {
        if crate::text::str_eq(fields[i].0.as_str(), key) {
            proof {
                lemma_jv_view_pairs(fields@);
                lemma_obj_get_found(jv_view_pairs(fields@), key@, i as int);
            }
            return Some(&fields[i].1);
        }
        proof {
            lemma_jv_view_pairs(fields@);
        }
        i = i + 1;
    }
    proof {
        lemma_obj_get_none(jv_view_pairs(fields@), key@);
    }
    None
}

} // verus!

