//! The record converter: the total mapping from the neutral JSON value
//! model onto the engine's native value model, the backward mapping from
//! native values onto JSON, and the embedding of a log event as a native
//! object. The backward-after-forward round trip is proved below.

use vstd::prelude::*;

use crate::error::TransformError;
use crate::types::{LogEvent, LogEventV};
use crate::value::{
    jv_view, jv_view_pairs, jv_view_seq, lemma_jv_view_pairs, lemma_jv_view_seq, lemma_nv_view_pairs,
    lemma_nv_view_seq, nv_view, nv_view_pairs, nv_view_seq, JsonVal, JsonValV, NativeVal,
    NativeValV,
};

verus! {

/// The forward conversion: every JSON value has a native image. Strings
/// become engine bytes; integral numbers stay integers; other numbers
/// become engine floats carrying the same decimal text.
pub open spec fn to_native_v(j: JsonValV) -> NativeValV
    decreases j,
{
    match j {
        JsonValV::Null => NativeValV::Null,
        JsonValV::Bool(b) => NativeValV::Bool(b),
        JsonValV::Int(i) => NativeValV::Int(i),
        JsonValV::Num(t) => NativeValV::Float(t),
        JsonValV::Str(s) => NativeValV::Bytes(s),
        JsonValV::Arr(elems) => NativeValV::Arr(to_native_seq(elems)),
        JsonValV::Obj(fields) => NativeValV::Obj(to_native_pairs(fields)),
    }
}

pub open spec fn to_native_seq(s: Seq<JsonValV>) -> Seq<NativeValV>
    decreases s,
{
    if s.len() == 0 {
        Seq::empty()
    } else {
        seq![to_native_v(s[0])] + to_native_seq(s.subrange(1, s.len() as int))
    }
}

pub open spec fn to_native_pairs(s: Seq<(Seq<char>, JsonValV)>) -> Seq<(Seq<char>, NativeValV)>
    decreases s,
{
    if s.len() == 0 {
        Seq::empty()
    } else {
        seq![(s[0].0, to_native_v(s[0].1))] + to_native_pairs(s.subrange(1, s.len() as int))
    }
}

/// Whether a number text names a finite number: the engine renders the
/// infinities as `inf` and `-inf` (its floats are never NaN, but the
/// rendering is covered for totality); every other text is finite here.
pub open spec fn num_text_finite(t: Seq<char>) -> bool {
    t != "inf"@ && t != "-inf"@ && t != "NaN"@
}

/// The backward conversion: every native value reads back as JSON. Bytes
/// read as strings; finite floats read as their number text; a
/// non-finite float coerces to null — the converter's fixed policy, so a
/// non-finite value can never leak into the JSON output; timestamps and
/// regexes read as their text rendering.
pub open spec fn from_native_v(n: NativeValV) -> JsonValV
    decreases n,
{
    match n {
        NativeValV::Null => JsonValV::Null,
        NativeValV::Bool(b) => JsonValV::Bool(b),
        NativeValV::Int(i) => JsonValV::Int(i),
        NativeValV::Float(t) => if num_text_finite(t) {
            JsonValV::Num(t)
        } else {
            JsonValV::Null
        },
        NativeValV::Bytes(s) => JsonValV::Str(s),
        NativeValV::Timestamp(s) => JsonValV::Str(s),
        NativeValV::Regex(s) => JsonValV::Str(s),
        NativeValV::Arr(elems) => JsonValV::Arr(from_native_seq(elems)),
        NativeValV::Obj(fields) => JsonValV::Obj(from_native_pairs(fields)),
    }
}

/// Whether every number text inside the value is finite: the values the
/// round trip is exact on.
pub open spec fn nums_finite(j: JsonValV) -> bool
    decreases j,
{
    match j {
        JsonValV::Num(t) => num_text_finite(t),
        JsonValV::Arr(elems) => nums_finite_seq(elems),
        JsonValV::Obj(fields) => nums_finite_pairs(fields),
        _ => true,
    }
}

pub open spec fn nums_finite_seq(s: Seq<JsonValV>) -> bool
    decreases s,
{
    s.len() == 0 || (nums_finite(s[0]) && nums_finite_seq(s.subrange(1, s.len() as int)))
}

pub open spec fn nums_finite_pairs(s: Seq<(Seq<char>, JsonValV)>) -> bool
    decreases s,
{
    s.len() == 0 || (nums_finite(s[0].1) && nums_finite_pairs(s.subrange(1, s.len() as int)))
}

pub open spec fn from_native_seq(s: Seq<NativeValV>) -> Seq<JsonValV>
    decreases s,
{
    if s.len() == 0 {
        Seq::empty()
    } else {
        seq![from_native_v(s[0])] + from_native_seq(s.subrange(1, s.len() as int))
    }
}

pub open spec fn from_native_pairs(s: Seq<(Seq<char>, NativeValV)>) -> Seq<(Seq<char>, JsonValV)>
    decreases s,
{
    if s.len() == 0 {
        Seq::empty()
    } else {
        seq![(s[0].0, from_native_v(s[0].1))] + from_native_pairs(s.subrange(1, s.len() as int))
    }
}

/// A log event as a native object: the raw line under `message`, then
/// the metadata fields in order.
pub open spec fn log_event_nv(ev: LogEventV) -> NativeValV {
    NativeValV::Obj(
        seq![("message"@, NativeValV::Bytes(ev.message))] + to_native_pairs(ev.metadata),
    )
}

/// Round trip: reading a converted JSON value back from the native model
/// returns it unchanged — the forward conversion loses nothing. The one
/// family left out: a `Num` carrying a non-finite rendering, which the
/// backward conversion's policy coerces to null.
pub proof fn lemma_native_round_trip(j: JsonValV)
    requires
        nums_finite(j),
    ensures
        from_native_v(to_native_v(j)) == j,
    decreases j,
{
    match j {
        JsonValV::Arr(elems) => {
            lemma_native_round_trip_seq(elems);
            assert(from_native_seq(to_native_seq(elems)) =~= elems);
        }
        JsonValV::Obj(fields) => {
            lemma_native_round_trip_pairs(fields);
            assert(from_native_pairs(to_native_pairs(fields)) =~= fields);
        }
        _ => {}
    }
}

pub proof fn lemma_native_round_trip_seq(s: Seq<JsonValV>)
    requires
        nums_finite_seq(s),
    ensures
        from_native_seq(to_native_seq(s)) == s,
    decreases s,
{
    if s.len() == 0 {
        assert(to_native_seq(s) =~= Seq::<NativeValV>::empty());
        assert(from_native_seq(Seq::<NativeValV>::empty()) =~= Seq::<JsonValV>::empty());
        assert(from_native_seq(to_native_seq(s)) =~= s);
    } else {
        let tail = s.subrange(1, s.len() as int);
        lemma_native_round_trip(s[0]);
        lemma_native_round_trip_seq(tail);
        let nat_tail = to_native_seq(tail);
        assert(to_native_seq(s) == seq![to_native_v(s[0])] + nat_tail);
        assert((seq![to_native_v(s[0])] + nat_tail).subrange(
            1,
            (seq![to_native_v(s[0])] + nat_tail).len() as int,
        ) =~= nat_tail);
        assert(from_native_seq(to_native_seq(s)) =~= s);
    }
}

pub proof fn lemma_native_round_trip_pairs(s: Seq<(Seq<char>, JsonValV)>)
    requires
        nums_finite_pairs(s),
    ensures
        from_native_pairs(to_native_pairs(s)) == s,
    decreases s,
{
    if s.len() == 0 {
        assert(to_native_pairs(s) =~= Seq::<(Seq<char>, NativeValV)>::empty());
        assert(from_native_pairs(Seq::<(Seq<char>, NativeValV)>::empty()) =~= Seq::<(
            Seq<char>,
            JsonValV,
        )>::empty());
        assert(from_native_pairs(to_native_pairs(s)) =~= s);
    } else {
        let tail = s.subrange(1, s.len() as int);
        lemma_native_round_trip(s[0].1);
        lemma_native_round_trip_pairs(tail);
        let nat_tail = to_native_pairs(tail);
        assert(to_native_pairs(s) == seq![(s[0].0, to_native_v(s[0].1))] + nat_tail);
        assert((seq![(s[0].0, to_native_v(s[0].1))] + nat_tail).subrange(
            1,
            (seq![(s[0].0, to_native_v(s[0].1))] + nat_tail).len() as int,
        ) =~= nat_tail);
        assert(from_native_pairs(to_native_pairs(s)) =~= s);
    }
}

/// Converts a borrowed JSON value to the engine's native model.
#[verifier::loop_isolation(false)]
fn to_native_ref(j: &JsonVal) -> (r: NativeVal)
    ensures
        r@ == to_native_v(j@),
    decreases j,
{
    match j {
        JsonVal::Null => NativeVal::Null,
        JsonVal::Bool(b) => NativeVal::Bool(*b),
        JsonVal::Int(i) => NativeVal::Int(*i),
        JsonVal::Num(t) => NativeVal::Float(t.clone()),
        JsonVal::Str(s) => NativeVal::Bytes(s.clone()),
        JsonVal::Arr(elems) => {
            let ghost src = jv_view_seq(elems@);
            proof {
                lemma_jv_view_seq(elems@);
            }
            let mut out: Vec<NativeVal> = Vec::new();
            let n = elems.len();
            let mut i: usize = 0;
            while i < n
                invariant
                    i <= n,
                    out@.len() == i,
                    forall|j2: int| 0 <= j2 < i ==> nv_view(#[trigger] out@[j2]) == to_native_v(
                        src[j2],
                    ),
                decreases n - i,
            {
                out.push(to_native_ref(&elems[i]));
                i = i + 1;
            }
            let r = NativeVal::Arr(out);
            proof {
                lemma_nv_view_seq(r->Arr_0@);
                lemma_to_native_seq_pointwise(src);
                assert(r@->Arr_0 =~= to_native_seq(src));
            }
            r
        }
        JsonVal::Obj(fields) => {
            let ghost src = jv_view_pairs(fields@);
            proof {
                lemma_jv_view_pairs(fields@);
            }
            let mut out: Vec<(String, NativeVal)> = Vec::new();
            let n = fields.len();
            let mut i: usize = 0;
            while i < n
                invariant
                    i <= n,
                    out@.len() == i,
                    forall|j2: int| 0 <= j2 < i ==> (#[trigger] out@[j2]).0@ == src[j2].0
                        && nv_view(out@[j2].1) == to_native_v(src[j2].1),
                decreases n - i,
            {
                let k = fields[i].0.clone();
                let v = to_native_ref(&fields[i].1);
                out.push((k, v));
                i = i + 1;
            }
            let r = NativeVal::Obj(out);
            proof {
                lemma_nv_view_pairs(r->Obj_0@);
                lemma_to_native_pairs_pointwise(src);
                assert(r@->Obj_0 =~= to_native_pairs(src));
            }
            r
        }
    }
}

/// Converts a JSON value to the engine's native model.
pub fn serde_json_to_vrl_value(j: JsonVal) -> (r: NativeVal)
    ensures
        r@ == to_native_v(jv_view(j)),
{
    to_native_ref(&j)
}

/// `to_native_seq` maps pointwise.
pub proof fn lemma_to_native_seq_pointwise(s: Seq<JsonValV>)
    ensures
        to_native_seq(s).len() == s.len(),
        forall|i: int| 0 <= i < s.len() ==> to_native_seq(s)[i] == to_native_v(s[i]),
    decreases s.len(),
{
    if s.len() > 0 {
        lemma_to_native_seq_pointwise(s.subrange(1, s.len() as int));
    }
}

/// `to_native_pairs` maps pointwise.
pub proof fn lemma_to_native_pairs_pointwise(s: Seq<(Seq<char>, JsonValV)>)
    ensures
        to_native_pairs(s).len() == s.len(),
        forall|i: int| 0 <= i < s.len() ==> to_native_pairs(s)[i] == (
            s[i].0,
            to_native_v(s[i].1),
        ),
    decreases s.len(),
{
    if s.len() > 0 {
        lemma_to_native_pairs_pointwise(s.subrange(1, s.len() as int));
    }
}

/// `from_native_seq` maps pointwise.
pub proof fn lemma_from_native_seq_pointwise(s: Seq<NativeValV>)
    ensures
        from_native_seq(s).len() == s.len(),
        forall|i: int| 0 <= i < s.len() ==> from_native_seq(s)[i] == from_native_v(s[i]),
    decreases s.len(),
{
    if s.len() > 0 {
        lemma_from_native_seq_pointwise(s.subrange(1, s.len() as int));
    }
}

/// `from_native_pairs` maps pointwise.
pub proof fn lemma_from_native_pairs_pointwise(s: Seq<(Seq<char>, NativeValV)>)
    ensures
        from_native_pairs(s).len() == s.len(),
        forall|i: int| 0 <= i < s.len() ==> from_native_pairs(s)[i] == (
            s[i].0,
            from_native_v(s[i].1),
        ),
    decreases s.len(),
{
    if s.len() > 0 {
        lemma_from_native_pairs_pointwise(s.subrange(1, s.len() as int));
    }
}

/// Converts a borrowed native value back to the JSON model.
#[verifier::loop_isolation(false)]
fn from_native_ref(n: &NativeVal) -> (r: JsonVal)
    ensures
        r@ == from_native_v(n@),
    decreases n,
{
    match n {
        NativeVal::Null => JsonVal::Null,
        NativeVal::Bool(b) => JsonVal::Bool(*b),
        NativeVal::Int(i) => JsonVal::Int(*i),
        NativeVal::Float(t) => {
            if crate::text::str_eq(t.as_str(), "inf") || crate::text::str_eq(t.as_str(), "-inf")
                || crate::text::str_eq(t.as_str(), "NaN") {
                JsonVal::Null
            } else {
                JsonVal::Num(t.clone())
            }
        }
        NativeVal::Bytes(s) => JsonVal::Str(s.clone()),
        NativeVal::Timestamp(s) => JsonVal::Str(s.clone()),
        NativeVal::Regex(s) => JsonVal::Str(s.clone()),
        NativeVal::Arr(elems) => {
            let ghost src = nv_view_seq(elems@);
            proof {
                lemma_nv_view_seq(elems@);
            }
            let mut out: Vec<JsonVal> = Vec::new();
            let n2 = elems.len();
            let mut i: usize = 0;
            while i < n2
                invariant
                    i <= n2,
                    out@.len() == i,
                    forall|j2: int| 0 <= j2 < i ==> jv_view(#[trigger] out@[j2]) == from_native_v(
                        src[j2],
                    ),
                decreases n2 - i,
            {
                out.push(from_native_ref(&elems[i]));
                i = i + 1;
            }
            let r = JsonVal::Arr(out);
            proof {
                lemma_jv_view_seq(r->Arr_0@);
                lemma_from_native_seq_pointwise(src);
                assert(r@->Arr_0 =~= from_native_seq(src));
            }
            r
        }
        NativeVal::Obj(fields) => {
            let ghost src = nv_view_pairs(fields@);
            proof {
                lemma_nv_view_pairs(fields@);
            }
            let mut out: Vec<(String, JsonVal)> = Vec::new();
            let n2 = fields.len();
            let mut i: usize = 0;
            while i < n2
                invariant
                    i <= n2,
                    out@.len() == i,
                    forall|j2: int| 0 <= j2 < i ==> (#[trigger] out@[j2]).0@ == src[j2].0
                        && jv_view(out@[j2].1) == from_native_v(src[j2].1),
                decreases n2 - i,
            {
                let k = fields[i].0.clone();
                let v = from_native_ref(&fields[i].1);
                out.push((k, v));
                i = i + 1;
            }
            let r = JsonVal::Obj(out);
            proof {
                lemma_jv_view_pairs(r->Obj_0@);
                lemma_from_native_pairs_pointwise(src);
                assert(r@->Obj_0 =~= from_native_pairs(src));
            }
            r
        }
    }
}

/// Converts a native value back to the JSON model.
pub fn vrl_value_to_serde_json(n: NativeVal) -> (r: JsonVal)
    ensures
        r@ == from_native_v(nv_view(n)),
{
    from_native_ref(&n)
}

/// Embeds a log event as a native object: the raw line under `message`,
/// then the metadata fields converted in order.
#[verifier::loop_isolation(false)]
pub fn log_event_to_vrl_value(event: LogEvent) -> (r: NativeVal)
    ensures
        r@ == log_event_nv(event@),
{
    let ghost evv = event@;
    let ghost src = jv_view_pairs(event.metadata@);
    proof {
        lemma_jv_view_pairs(event.metadata@);
    }
    let mut out: Vec<(String, NativeVal)> = Vec::new();
    out.push(("message".to_owned(), NativeVal::Bytes(event.message)));
    let fields = event.metadata;
    let n = fields.len();
    let mut i: usize = 0;
    while i < n
        invariant
            i <= n,
            n == fields.len(),
            out@.len() == i + 1,
            out@[0].0@ == "message"@,
            nv_view(out@[0].1) == NativeValV::Bytes(evv.message),
            forall|j2: int| 0 <= j2 < i ==> (#[trigger] out@[j2 + 1]).0@ == src[j2].0 && nv_view(
                out@[j2 + 1].1,
            ) == to_native_v(src[j2].1),
            forall|j2: int| 0 <= j2 < n ==> (#[trigger] fields@[j2]).0@ == src[j2].0 && jv_view(
                fields@[j2].1,
            ) == src[j2].1,
        decreases n - i,
    {
        let k = fields[i].0.clone();
        let v = to_native_ref(&fields[i].1);
        out.push((k, v));
        i = i + 1;
    }
    let r = NativeVal::Obj(out);
    proof {
        lemma_nv_view_pairs(r->Obj_0@);
        lemma_to_native_pairs_pointwise(src);
        assert(evv.metadata == src);
        let built = nv_view_pairs(r->Obj_0@);
        let target = log_event_nv(evv)->Obj_0;
        assert forall|k: int| 0 <= k < built.len() implies built[k] == target[k] by {
            if k == 0 {
                assert(target[0] == ("message"@, NativeValV::Bytes(evv.message)));
            } else {
                assert(r->Obj_0@[(k - 1) + 1].0@ == src[k - 1].0);
                assert(nv_view(r->Obj_0@[(k - 1) + 1].1) == to_native_v(src[k - 1].1));
                assert(target[k] == to_native_pairs(src)[k - 1]);
            }
        }
        assert(r@->Obj_0 =~= target);
    }
    r
}

// ---------------------------------------------------------------------
// The backward conversion's schema side: reading an OCSF event record
// out of a JSON value, failing exactly where the shape is wrong.
// ---------------------------------------------------------------------

/// A required string member: present and a string.
pub open spec fn get_req_str(f: Seq<(Seq<char>, JsonValV)>, key: Seq<char>) -> Option<Seq<char>> {
    match crate::value::obj_get(f, key) {
        Some(JsonValV::Str(s)) => Some(s),
        _ => None,
    }
}

/// A required integer member fitting `i32`.
pub open spec fn get_req_i32(f: Seq<(Seq<char>, JsonValV)>, key: Seq<char>) -> Option<int> {
    match crate::value::obj_get(f, key) {
        Some(JsonValV::Int(i)) => if i32::MIN <= i <= i32::MAX {
            Some(i)
        } else {
            None
        },
        _ => None,
    }
}

/// A required integer member.
pub open spec fn get_req_i64(f: Seq<(Seq<char>, JsonValV)>, key: Seq<char>) -> Option<int> {
    match crate::value::obj_get(f, key) {
        Some(JsonValV::Int(i)) => Some(i),
        _ => None,
    }
}

/// An optional string member: `None` on a type mismatch, else whether it
/// is present and its text.
pub open spec fn get_opt_str(f: Seq<(Seq<char>, JsonValV)>, key: Seq<char>) -> Option<
    Option<Seq<char>>,
> {
    match crate::value::obj_get(f, key) {
        None => Some(None),
        Some(JsonValV::Str(s)) => Some(Some(s)),
        Some(_) => None,
    }
}

/// An optional integer member fitting `i32`.
pub open spec fn get_opt_i32(f: Seq<(Seq<char>, JsonValV)>, key: Seq<char>) -> Option<
    Option<int>,
> {
    match crate::value::obj_get(f, key) {
        None => Some(None),
        Some(JsonValV::Int(i)) => if i32::MIN <= i <= i32::MAX {
            Some(Some(i))
        } else {
            None
        },
        Some(_) => None,
    }
}

/// An optional integer member.
pub open spec fn get_opt_i64(f: Seq<(Seq<char>, JsonValV)>, key: Seq<char>) -> Option<
    Option<int>,
> {
    match crate::value::obj_get(f, key) {
        None => Some(None),
        Some(JsonValV::Int(i)) => Some(Some(i)),
        Some(_) => None,
    }
}

/// An optional boolean member.
pub open spec fn get_opt_bool(f: Seq<(Seq<char>, JsonValV)>, key: Seq<char>) -> Option<
    Option<bool>,
> {
    match crate::value::obj_get(f, key) {
        None => Some(None),
        Some(JsonValV::Bool(b)) => Some(Some(b)),
        Some(_) => None,
    }
}

pub open spec fn parse_user_v(v: JsonValV) -> Option<crate::ocsf::OcsfUserV> {
    match v {
        JsonValV::Obj(f) => if get_req_str(f, "name"@) is Some && get_req_str(f, "uid"@) is Some {
            Some(
                crate::ocsf::OcsfUserV {
                    name: get_req_str(f, "name"@)->0,
                    uid: get_req_str(f, "uid"@)->0,
                },
            )
        } else {
            None
        },
        _ => None,
    }
}

pub open spec fn parse_actor_v(v: JsonValV) -> Option<crate::ocsf::OcsfActorV> {
    match v {
        JsonValV::Obj(f) => match crate::value::obj_get(f, "user"@) {
            Some(u) => match parse_user_v(u) {
                Some(uv) => Some(crate::ocsf::OcsfActorV { user: uv }),
                None => None,
            },
            None => None,
        },
        _ => None,
    }
}

pub open spec fn parse_service_v(v: JsonValV) -> Option<crate::ocsf::OcsfServiceV> {
    match v {
        JsonValV::Obj(f) => match get_req_str(f, "name"@) {
            Some(n) => Some(crate::ocsf::OcsfServiceV { name: n }),
            None => None,
        },
        _ => None,
    }
}

pub open spec fn parse_endpoint_v(v: JsonValV) -> Option<crate::ocsf::OcsfEndpointV> {
    match v {
        JsonValV::Obj(f) => if get_opt_str(f, "ip"@) is Some && get_opt_str(f, "hostname"@)
            is Some && get_opt_i32(f, "port"@) is Some {
            Some(
                crate::ocsf::OcsfEndpointV {
                    ip: get_opt_str(f, "ip"@)->0,
                    hostname: get_opt_str(f, "hostname"@)->0,
                    port: get_opt_i32(f, "port"@)->0,
                },
            )
        } else {
            None
        },
        _ => None,
    }
}

pub open spec fn parse_process_v(v: JsonValV) -> Option<crate::ocsf::OcsfProcessV> {
    match v {
        JsonValV::Obj(f) => if get_req_str(f, "name"@) is Some && get_req_str(f, "cmd_line"@)
            is Some && get_req_str(f, "uid"@) is Some && get_opt_i32(f, "pid"@) is Some {
            Some(
                crate::ocsf::OcsfProcessV {
                    name: get_req_str(f, "name"@)->0,
                    cmd_line: get_req_str(f, "cmd_line"@)->0,
                    uid: get_req_str(f, "uid"@)->0,
                    pid: get_opt_i32(f, "pid"@)->0,
                },
            )
        } else {
            None
        },
        _ => None,
    }
}

pub open spec fn parse_product_v(v: JsonValV) -> Option<crate::ocsf::OcsfProductV> {
    match v {
        JsonValV::Obj(f) => if get_req_str(f, "vendor_name"@) is Some && get_req_str(f, "name"@)
            is Some && get_req_str(f, "version"@) is Some {
            Some(
                crate::ocsf::OcsfProductV {
                    vendor_name: get_req_str(f, "vendor_name"@)->0,
                    name: get_req_str(f, "name"@)->0,
                    version: get_req_str(f, "version"@)->0,
                },
            )
        } else {
            None
        },
        _ => None,
    }
}

pub open spec fn parse_observable_v(v: JsonValV) -> Option<crate::ocsf::OcsfObservableV> {
    match v {
        JsonValV::Obj(f) => if get_req_str(f, "name"@) is Some && get_req_str(f, "type"@) is Some
            && get_req_i32(f, "type_id"@) is Some && get_req_str(f, "value"@) is Some {
            Some(
                crate::ocsf::OcsfObservableV {
                    name: get_req_str(f, "name"@)->0,
                    observable_type: get_req_str(f, "type"@)->0,
                    type_id: get_req_i32(f, "type_id"@)->0,
                    value: get_req_str(f, "value"@)->0,
                },
            )
        } else {
            None
        },
        _ => None,
    }
}

/// All elements parsed as observables, or nothing on the first failure.
pub open spec fn parse_observables_seq(s: Seq<JsonValV>) -> Option<
    Seq<crate::ocsf::OcsfObservableV>,
>
    decreases s.len(),
{
    if s.len() == 0 {
        Some(Seq::empty())
    } else {
        match parse_observable_v(s[0]) {
            Some(o) => match parse_observables_seq(s.subrange(1, s.len() as int)) {
                Some(rest) => Some(seq![o] + rest),
                None => None,
            },
            None => None,
        }
    }
}

/// All elements read as strings, or nothing on the first failure.
pub open spec fn parse_str_seq(s: Seq<JsonValV>) -> Option<Seq<Seq<char>>>
    decreases s.len(),
{
    if s.len() == 0 {
        Some(Seq::empty())
    } else {
        match s[0] {
            JsonValV::Str(t) => match parse_str_seq(s.subrange(1, s.len() as int)) {
                Some(rest) => Some(seq![t] + rest),
                None => None,
            },
            _ => None,
        }
    }
}

pub open spec fn parse_metadata_v(v: JsonValV) -> Option<crate::ocsf::OcsfMetadataV> {
    match v {
        JsonValV::Obj(f) => {
            let product = match crate::value::obj_get(f, "product"@) {
                Some(p) => parse_product_v(p),
                None => None,
            };
            let profiles = match crate::value::obj_get(f, "profiles"@) {
                None => Some(None),
                Some(JsonValV::Arr(a)) => match parse_str_seq(a) {
                    Some(ps) => Some(Some(ps)),
                    None => None,
                },
                Some(_) => None,
            };
            if get_req_str(f, "version"@) is Some && product is Some && get_opt_str(f, "uid"@)
                is Some && get_opt_i64(f, "logged_time"@) is Some && get_opt_str(f, "log_name"@)
                is Some && get_opt_str(f, "log_provider"@) is Some && get_opt_str(
                f,
                "event_code"@,
            ) is Some && profiles is Some && get_opt_str(f, "log_version"@) is Some
                && get_opt_str(f, "log_level"@) is Some && get_opt_str(f, "original_time"@)
                is Some {
                Some(
                    crate::ocsf::OcsfMetadataV {
                        uid: get_opt_str(f, "uid"@)->0,
                        version: get_req_str(f, "version"@)->0,
                        product: product->0,
                        logged_time: get_opt_i64(f, "logged_time"@)->0,
                        log_name: get_opt_str(f, "log_name"@)->0,
                        log_provider: get_opt_str(f, "log_provider"@)->0,
                        event_code: get_opt_str(f, "event_code"@)->0,
                        profiles: profiles->0,
                        log_version: get_opt_str(f, "log_version"@)->0,
                        log_level: get_opt_str(f, "log_level"@)->0,
                        original_time: get_opt_str(f, "original_time"@)->0,
                    },
                )
            } else {
                None
            }
        }
        _ => None,
    }
}

/// The whole event read out of a JSON value: every required member
/// present with the right shape, every optional member either absent or
/// well shaped, unknown members ignored.
pub open spec fn parse_event_v(v: JsonValV) -> Option<crate::ocsf::OcsfEventV> {
    match v {
        JsonValV::Obj(f) => {
            let metadata = match crate::value::obj_get(f, "metadata"@) {
                Some(m) => parse_metadata_v(m),
                None => None,
            };
            let user = match crate::value::obj_get(f, "user"@) {
                None => Some(None),
                Some(u) => match parse_user_v(u) {
                    Some(x) => Some(Some(x)),
                    None => None,
                },
            };
            let actor = match crate::value::obj_get(f, "actor"@) {
                None => Some(None),
                Some(a) => match parse_actor_v(a) {
                    Some(x) => Some(Some(x)),
                    None => None,
                },
            };
            let service = match crate::value::obj_get(f, "service"@) {
                None => Some(None),
                Some(x) => match parse_service_v(x) {
                    Some(y) => Some(Some(y)),
                    None => None,
                },
            };
            let src_endpoint = match crate::value::obj_get(f, "src_endpoint"@) {
                None => Some(None),
                Some(x) => match parse_endpoint_v(x) {
                    Some(y) => Some(Some(y)),
                    None => None,
                },
            };
            let dst_endpoint = match crate::value::obj_get(f, "dst_endpoint"@) {
                None => Some(None),
                Some(x) => match parse_endpoint_v(x) {
                    Some(y) => Some(Some(y)),
                    None => None,
                },
            };
            let logon_process = match crate::value::obj_get(f, "logon_process"@) {
                None => Some(None),
                Some(x) => match parse_process_v(x) {
                    Some(y) => Some(Some(y)),
                    None => None,
                },
            };
            let observables = match crate::value::obj_get(f, "observables"@) {
                None => Some(None),
                Some(JsonValV::Arr(a)) => match parse_observables_seq(a) {
                    Some(obs) => Some(Some(obs)),
                    None => None,
                },
                Some(_) => None,
            };
            let unmapped = match crate::value::obj_get(f, "unmapped"@) {
                None => Some(None),
                Some(JsonValV::Obj(u)) => Some(Some(u)),
                Some(_) => None,
            };
            if metadata is Some && get_req_i32(f, "category_uid"@) is Some && get_req_str(
                f,
                "category_name"@,
            ) is Some && get_req_i32(f, "class_uid"@) is Some && get_req_str(f, "class_name"@)
                is Some && get_req_i64(f, "time"@) is Some && get_req_i32(f, "type_uid"@) is Some
                && get_req_str(f, "type_name"@) is Some && get_req_i32(f, "activity_id"@) is Some
                && get_req_str(f, "activity_name"@) is Some && get_req_str(f, "status"@) is Some
                && get_req_i32(f, "status_id"@) is Some && get_req_str(f, "severity"@) is Some
                && get_req_i32(f, "severity_id"@) is Some && user is Some && actor is Some
                && service is Some && src_endpoint is Some && dst_endpoint is Some && get_opt_str(
                f,
                "auth_protocol"@,
            ) is Some && get_opt_i32(f, "auth_protocol_id"@) is Some && get_opt_str(
                f,
                "logon_type"@,
            ) is Some && get_opt_i32(f, "logon_type_id"@) is Some && logon_process is Some
                && get_opt_bool(f, "is_remote"@) is Some && get_opt_bool(f, "is_mfa"@) is Some
                && get_opt_bool(f, "is_cleartext"@) is Some && get_opt_str(f, "status_code"@)
                is Some && get_opt_str(f, "status_detail"@) is Some && get_opt_str(f, "message"@)
                is Some && get_opt_str(f, "raw_data"@) is Some && observables is Some && unmapped
                is Some && get_opt_i32(f, "timezone_offset"@) is Some {
                Some(
                    crate::ocsf::OcsfEventV {
                        metadata: metadata->0,
                        category_uid: get_req_i32(f, "category_uid"@)->0,
                        category_name: get_req_str(f, "category_name"@)->0,
                        class_uid: get_req_i32(f, "class_uid"@)->0,
                        class_name: get_req_str(f, "class_name"@)->0,
                        time: get_req_i64(f, "time"@)->0,
                        type_uid: get_req_i32(f, "type_uid"@)->0,
                        type_title: get_req_str(f, "type_name"@)->0,
                        activity_id: get_req_i32(f, "activity_id"@)->0,
                        activity_name: get_req_str(f, "activity_name"@)->0,
                        status: get_req_str(f, "status"@)->0,
                        status_id: get_req_i32(f, "status_id"@)->0,
                        severity: get_req_str(f, "severity"@)->0,
                        severity_id: get_req_i32(f, "severity_id"@)->0,
                        user: user->0,
                        actor: actor->0,
                        service: service->0,
                        src_endpoint: src_endpoint->0,
                        dst_endpoint: dst_endpoint->0,
                        auth_protocol: get_opt_str(f, "auth_protocol"@)->0,
                        auth_protocol_id: get_opt_i32(f, "auth_protocol_id"@)->0,
                        logon_type: get_opt_str(f, "logon_type"@)->0,
                        logon_type_id: get_opt_i32(f, "logon_type_id"@)->0,
                        logon_process: logon_process->0,
                        is_remote: get_opt_bool(f, "is_remote"@)->0,
                        is_mfa: get_opt_bool(f, "is_mfa"@)->0,
                        is_cleartext: get_opt_bool(f, "is_cleartext"@)->0,
                        status_code: get_opt_str(f, "status_code"@)->0,
                        status_detail: get_opt_str(f, "status_detail"@)->0,
                        message: get_opt_str(f, "message"@)->0,
                        raw_data: get_opt_str(f, "raw_data"@)->0,
                        observables: observables->0,
                        unmapped: unmapped->0,
                        timezone_offset: get_opt_i32(f, "timezone_offset"@)->0,
                    },
                )
            } else {
                None
            }
        }
        _ => None,
    }
}

fn take_req_str(f: &Vec<(String, JsonVal)>, key: &str) -> (r: Option<String>)
    ensures
        match r {
            Some(s) => get_req_str(jv_view_pairs(f@), key@) == Some(s@),
            None => get_req_str(jv_view_pairs(f@), key@) is None,
        },
{
    match crate::value::obj_find(f, key) {
        Some(JsonVal::Str(s)) => Some(s.clone()),
        _ => None,
    }
}

fn take_req_i32(f: &Vec<(String, JsonVal)>, key: &str) -> (r: Option<i32>)
    ensures
        match r {
            Some(i) => get_req_i32(jv_view_pairs(f@), key@) == Some(i as int),
            None => get_req_i32(jv_view_pairs(f@), key@) is None,
        },
{
    match crate::value::obj_find(f, key) {
        Some(JsonVal::Int(i)) => {
            if *i >= i32::MIN as i64 && *i <= i32::MAX as i64 {
                Some(*i as i32)
            } else {
                None
            }
        }
        _ => None,
    }
}

fn take_req_i64(f: &Vec<(String, JsonVal)>, key: &str) -> (r: Option<i64>)
    ensures
        match r {
            Some(i) => get_req_i64(jv_view_pairs(f@), key@) == Some(i as int),
            None => get_req_i64(jv_view_pairs(f@), key@) is None,
        },
{
    match crate::value::obj_find(f, key) {
        Some(JsonVal::Int(i)) => Some(*i),
        _ => None,
    }
}

fn take_opt_str(f: &Vec<(String, JsonVal)>, key: &str) -> (r: Option<Option<String>>)
    ensures
        match r {
            Some(o) => get_opt_str(jv_view_pairs(f@), key@) == Some(
                crate::ocsf::opt_str_view(o),
            ),
            None => get_opt_str(jv_view_pairs(f@), key@) is None,
        },
{
    match crate::value::obj_find(f, key) {
        None => Some(None),
        Some(JsonVal::Str(s)) => Some(Some(s.clone())),
        Some(_) => None,
    }
}

fn take_opt_i32(f: &Vec<(String, JsonVal)>, key: &str) -> (r: Option<Option<i32>>)
    ensures
        match r {
            Some(o) => get_opt_i32(jv_view_pairs(f@), key@) == Some(
                crate::ocsf::opt_i32_view(o),
            ),
            None => get_opt_i32(jv_view_pairs(f@), key@) is None,
        },
{
    match crate::value::obj_find(f, key) {
        None => Some(None),
        Some(JsonVal::Int(i)) => {
            if *i >= i32::MIN as i64 && *i <= i32::MAX as i64 {
                Some(Some(*i as i32))
            } else {
                None
            }
        }
        Some(_) => None,
    }
}

fn take_opt_i64(f: &Vec<(String, JsonVal)>, key: &str) -> (r: Option<Option<i64>>)
    ensures
        match r {
            Some(o) => get_opt_i64(jv_view_pairs(f@), key@) == Some(
                crate::ocsf::opt_i64_view(o),
            ),
            None => get_opt_i64(jv_view_pairs(f@), key@) is None,
        },
{
    match crate::value::obj_find(f, key) {
        None => Some(None),
        Some(JsonVal::Int(i)) => Some(Some(*i)),
        Some(_) => None,
    }
}

fn take_opt_bool(f: &Vec<(String, JsonVal)>, key: &str) -> (r: Option<Option<bool>>)
    ensures
        match r {
            Some(o) => get_opt_bool(jv_view_pairs(f@), key@) == Some(o),
            None => get_opt_bool(jv_view_pairs(f@), key@) is None,
        },
{
    match crate::value::obj_find(f, key) {
        None => Some(None),
        Some(JsonVal::Bool(b)) => Some(Some(*b)),
        Some(_) => None,
    }
}

fn parse_user(v: &JsonVal) -> (r: Option<crate::ocsf::OcsfUser>)
    ensures
        match r {
            Some(u) => parse_user_v(v@) == Some(u@),
            None => parse_user_v(v@) is None,
        },
{
    match v {
        JsonVal::Obj(f) => {
            let name = take_req_str(f, "name");
            let uid = take_req_str(f, "uid");
            match (name, uid) {
                (Some(name), Some(uid)) => Some(crate::ocsf::OcsfUser { name, uid }),
                _ => None,
            }
        }
        _ => None,
    }
}

fn parse_actor(v: &JsonVal) -> (r: Option<crate::ocsf::OcsfActor>)
    ensures
        match r {
            Some(a) => parse_actor_v(v@) == Some(a@),
            None => parse_actor_v(v@) is None,
        },
{
    match v {
        JsonVal::Obj(f) => {
            match crate::value::obj_find(f, "user") {
                Some(u) => match parse_user(u) {
                    Some(uv) => Some(crate::ocsf::OcsfActor { user: uv }),
                    None => None,
                },
                None => None,
            }
        }
        _ => None,
    }
}

fn parse_service(v: &JsonVal) -> (r: Option<crate::ocsf::OcsfService>)
    ensures
        match r {
            Some(s) => parse_service_v(v@) == Some(s@),
            None => parse_service_v(v@) is None,
        },
{
    match v {
        JsonVal::Obj(f) => {
            match take_req_str(f, "name") {
                Some(name) => Some(crate::ocsf::OcsfService { name }),
                None => None,
            }
        }
        _ => None,
    }
}

fn parse_endpoint(v: &JsonVal) -> (r: Option<crate::ocsf::OcsfEndpoint>)
    ensures
        match r {
            Some(e) => parse_endpoint_v(v@) == Some(e@),
            None => parse_endpoint_v(v@) is None,
        },
{
    match v {
        JsonVal::Obj(f) => {
            let ip = take_opt_str(f, "ip");
            let hostname = take_opt_str(f, "hostname");
            let port = take_opt_i32(f, "port");
            match (ip, hostname, port) {
                (Some(ip), Some(hostname), Some(port)) => Some(
                    crate::ocsf::OcsfEndpoint { ip, hostname, port },
                ),
                _ => None,
            }
        }
        _ => None,
    }
}

fn parse_process(v: &JsonVal) -> (r: Option<crate::ocsf::OcsfProcess>)
    ensures
        match r {
            Some(p) => parse_process_v(v@) == Some(p@),
            None => parse_process_v(v@) is None,
        },
{
    match v {
        JsonVal::Obj(f) => {
            let name = take_req_str(f, "name");
            let cmd_line = take_req_str(f, "cmd_line");
            let uid = take_req_str(f, "uid");
            let pid = take_opt_i32(f, "pid");
            match (name, cmd_line, uid, pid) {
                (Some(name), Some(cmd_line), Some(uid), Some(pid)) => Some(
                    crate::ocsf::OcsfProcess { name, cmd_line, uid, pid },
                ),
                _ => None,
            }
        }
        _ => None,
    }
}

fn parse_product(v: &JsonVal) -> (r: Option<crate::ocsf::OcsfProduct>)
    ensures
        match r {
            Some(p) => parse_product_v(v@) == Some(p@),
            None => parse_product_v(v@) is None,
        },
{
    match v {
        JsonVal::Obj(f) => {
            let vendor_name = take_req_str(f, "vendor_name");
            let name = take_req_str(f, "name");
            let version = take_req_str(f, "version");
            match (vendor_name, name, version) {
                (Some(vendor_name), Some(name), Some(version)) => Some(
                    crate::ocsf::OcsfProduct { vendor_name, name, version },
                ),
                _ => None,
            }
        }
        _ => None,
    }
}

fn parse_observable(v: &JsonVal) -> (r: Option<crate::ocsf::OcsfObservable>)
    ensures
        match r {
            Some(o) => parse_observable_v(v@) == Some(o@),
            None => parse_observable_v(v@) is None,
        },
{
    match v {
        JsonVal::Obj(f) => {
            let name = take_req_str(f, "name");
            let observable_type = take_req_str(f, "type");
            let type_id = take_req_i32(f, "type_id");
            let value = take_req_str(f, "value");
            match (name, observable_type, type_id, value) {
                (Some(name), Some(observable_type), Some(type_id), Some(value)) => Some(
                    crate::ocsf::OcsfObservable { name, observable_type, type_id, value },
                ),
                _ => None,
            }
        }
        _ => None,
    }
}

/// `parse_observables_seq` succeeds exactly when every element parses,
/// and then maps pointwise.
proof fn lemma_parse_observables_pointwise(s: Seq<JsonValV>)
    ensures
        parse_observables_seq(s) is Some <==> (forall|i: int|
            0 <= i < s.len() ==> parse_observable_v(#[trigger] s[i]) is Some),
        parse_observables_seq(s) matches Some(obs) ==> obs.len() == s.len() && (forall|i: int|
            0 <= i < s.len() ==> obs[i] == parse_observable_v(#[trigger] s[i])->0),
    decreases s.len(),
{
    if s.len() > 0 {
        let tail = s.subrange(1, s.len() as int);
        lemma_parse_observables_pointwise(tail);
        match parse_observable_v(s[0]) {
            Some(o) => {
                match parse_observables_seq(tail) {
                    Some(rest) => {
                        let whole = seq![o] + rest;
                        assert(parse_observables_seq(s) == Some(whole));
                        assert forall|i: int| 0 <= i < s.len() implies parse_observable_v(
                            #[trigger] s[i],
                        ) is Some by {
                            if i > 0 {
                                assert(tail[i - 1] == s[i]);
                            }
                        }
                        assert forall|i: int| 0 <= i < s.len() implies whole[i]
                            == parse_observable_v(#[trigger] s[i])->0 by {
                            if i == 0 {
                                assert(whole[0] == o);
                            } else {
                                assert(whole[i] == rest[i - 1]);
                                assert(tail[i - 1] == s[i]);
                            }
                        }
                    }
                    None => {
                        let k = choose|k: int|
                            0 <= k < tail.len() && !(parse_observable_v(#[trigger] tail[k])
                                is Some);
                        assert(s[k + 1] == tail[k]);
                        assert(!(parse_observable_v(s[k + 1]) is Some));
                    }
                }
            }
            None => {}
        }
    }
}

/// `parse_str_seq` succeeds exactly when every element is a string, and
/// then maps pointwise.
proof fn lemma_parse_str_seq_pointwise(s: Seq<JsonValV>)
    ensures
        parse_str_seq(s) is Some <==> (forall|i: int|
            0 <= i < s.len() ==> (#[trigger] s[i]) is Str),
        parse_str_seq(s) matches Some(ts) ==> ts.len() == s.len() && (forall|i: int|
            0 <= i < s.len() ==> ts[i] == (#[trigger] s[i])->Str_0),
    decreases s.len(),
{
    if s.len() > 0 {
        let tail = s.subrange(1, s.len() as int);
        lemma_parse_str_seq_pointwise(tail);
        match s[0] {
            JsonValV::Str(t) => {
                match parse_str_seq(tail) {
                    Some(rest) => {
                        let whole = seq![t] + rest;
                        assert(parse_str_seq(s) == Some(whole));
                        assert forall|i: int| 0 <= i < s.len() implies (#[trigger] s[i])
                            is Str by {
                            if i > 0 {
                                assert(tail[i - 1] == s[i]);
                            }
                        }
                        assert forall|i: int| 0 <= i < s.len() implies whole[i] == (
                        #[trigger] s[i])->Str_0 by {
                            if i == 0 {
                                assert(whole[0] == t);
                            } else {
                                assert(whole[i] == rest[i - 1]);
                                assert(tail[i - 1] == s[i]);
                            }
                        }
                    }
                    None => {
                        let k = choose|k: int|
                            0 <= k < tail.len() && !((#[trigger] tail[k]) is Str);
                        assert(s[k + 1] == tail[k]);
                        assert(!(s[k + 1] is Str));
                    }
                }
            }
            _ => {}
        }
    }
}

#[verifier::loop_isolation(false)]
fn parse_observables(a: &Vec<JsonVal>) -> (r: Option<Vec<crate::ocsf::OcsfObservable>>)
    ensures
        match r {
            Some(obs) => parse_observables_seq(jv_view_seq(a@)) matches Some(t) && t
                =~= obs@.map_values(|o: crate::ocsf::OcsfObservable| o@),
            None => parse_observables_seq(jv_view_seq(a@)) is None,
        },
{
    let ghost src = jv_view_seq(a@);
    proof {
        lemma_jv_view_seq(a@);
        lemma_parse_observables_pointwise(src);
    }
    let mut out: Vec<crate::ocsf::OcsfObservable> = Vec::new();
    let n = a.len();
    let mut i: usize = 0;
    while i < n
        invariant
            i <= n,
            out@.len() == i,
            forall|j: int| 0 <= j < i ==> parse_observable_v(#[trigger] src[j]) == Some(
                out@[j]@,
            ),
        decreases n - i,
    {
        proof {
            assert(src[i as int] == jv_view(a@[i as int]));
        }
        match parse_observable(&a[i]) {
            Some(o) => out.push(o),
            None => {
                proof {
                    assert(!(parse_observable_v(src[i as int]) is Some));
                }
                return None;
            }
        }
        i = i + 1;
    }
    proof {
        assert(forall|j: int| 0 <= j < src.len() ==> parse_observable_v(#[trigger] src[j])
            is Some);
        let t = parse_observables_seq(src)->0;
        let mapped = out@.map_values(|o: crate::ocsf::OcsfObservable| o@);
        assert forall|j: int| 0 <= j < t.len() implies t[j] == mapped[j] by {
            assert(t[j] == parse_observable_v(src[j])->0);
            assert(mapped[j] == out@[j]@);
        }
        assert(t =~= mapped);
    }
    Some(out)
}

#[verifier::loop_isolation(false)]
fn parse_profiles(a: &Vec<JsonVal>) -> (r: Option<Vec<String>>)
    ensures
        match r {
            Some(ps) => parse_str_seq(jv_view_seq(a@)) matches Some(t) && t =~= ps@.map_values(
                |s: String| s@,
            ),
            None => parse_str_seq(jv_view_seq(a@)) is None,
        },
{
    let ghost src = jv_view_seq(a@);
    proof {
        lemma_jv_view_seq(a@);
        lemma_parse_str_seq_pointwise(src);
    }
    let mut out: Vec<String> = Vec::new();
    let n = a.len();
    let mut i: usize = 0;
    while i < n
        invariant
            i <= n,
            out@.len() == i,
            forall|j: int| 0 <= j < i ==> (#[trigger] src[j]) is Str && out@[j]@ == src[j]->Str_0,
        decreases n - i,
    {
        proof {
            assert(src[i as int] == jv_view(a@[i as int]));
        }
        match &a[i] {
            JsonVal::Str(s) => out.push(s.clone()),
            _ => {
                proof {
                    assert(!(src[i as int] is Str));
                }
                return None;
            }
        }
        i = i + 1;
    }
    proof {
        assert(forall|j: int| 0 <= j < src.len() ==> (#[trigger] src[j]) is Str);
        let t = parse_str_seq(src)->0;
        let mapped = out@.map_values(|s2: String| s2@);
        assert forall|j: int| 0 <= j < t.len() implies t[j] == mapped[j] by {
            assert(t[j] == src[j]->Str_0);
            assert(mapped[j] == out@[j]@);
        }
        assert(t =~= mapped);
    }
    Some(out)
}

#[verifier::rlimit(100)]
fn parse_metadata(v: &JsonVal) -> (r: Option<crate::ocsf::OcsfMetadata>)
    ensures
        match r {
            Some(m) => parse_metadata_v(v@) == Some(m@),
            None => parse_metadata_v(v@) is None,
        },
{
    match v {
        JsonVal::Obj(f) => {
            let version = match take_req_str(f, "version") {
                Some(x) => x,
                None => {
                    return None;
                }
            };
            let product = match crate::value::obj_find(f, "product") {
                Some(p) => match parse_product(p) {
                    Some(x) => x,
                    None => {
                        return None;
                    }
                },
                None => {
                    return None;
                }
            };
            let uid = match take_opt_str(f, "uid") {
                Some(x) => x,
                None => {
                    return None;
                }
            };
            let logged_time = match take_opt_i64(f, "logged_time") {
                Some(x) => x,
                None => {
                    return None;
                }
            };
            let log_name = match take_opt_str(f, "log_name") {
                Some(x) => x,
                None => {
                    return None;
                }
            };
            let log_provider = match take_opt_str(f, "log_provider") {
                Some(x) => x,
                None => {
                    return None;
                }
            };
            let event_code = match take_opt_str(f, "event_code") {
                Some(x) => x,
                None => {
                    return None;
                }
            };
            let profiles = match crate::value::obj_find(f, "profiles") {
                None => None,
                Some(JsonVal::Arr(a)) => match parse_profiles(a) {
                    Some(ps) => Some(ps),
                    None => {
                        return None;
                    }
                },
                Some(_) => {
                    return None;
                }
            };
            let log_version = match take_opt_str(f, "log_version") {
                Some(x) => x,
                None => {
                    return None;
                }
            };
            let log_level = match take_opt_str(f, "log_level") {
                Some(x) => x,
                None => {
                    return None;
                }
            };
            let original_time = match take_opt_str(f, "original_time") {
                Some(x) => x,
                None => {
                    return None;
                }
            };
            proof {
                match &profiles {
                    Some(ps) => {
                        assert(Seq::new(ps@.len(), |i: int| ps@[i]@) =~= ps@.map_values(
                            |s2: String| s2@,
                        ));
                    }
                    None => {}
                }
            }
            Some(
                crate::ocsf::OcsfMetadata {
                    uid,
                    version,
                    product,
                    logged_time,
                    log_name,
                    log_provider,
                    event_code,
                    profiles,
                    log_version,
                    log_level,
                    original_time,
                },
            )
        }
        _ => None,
    }
}

/// Reads an OCSF event record out of a JSON value: the backward half of
/// the record converter. Succeeds exactly when the value fits the
/// schema; a misshapen value is a per-record parse failure, never a
/// crash.
#[verifier::rlimit(100)]
pub fn parse_ocsf_event(v: &JsonVal) -> (r: Result<crate::ocsf::OcsfEvent, TransformError>)
    ensures
        r matches Ok(ev) ==> parse_event_v(v@) == Some(ev@),
        r is Err ==> parse_event_v(v@) is None,
        r matches Err(e) ==> e@ is ParseError,
{
    let schema_err = || -> (e: TransformError)
        ensures
            e@ is ParseError,
        {
            TransformError::ParseError(
                "value does not fit the OCSF event schema".to_owned(),
            )
        };
    match v {
        JsonVal::Obj(f) => {
            let metadata = match crate::value::obj_find(f, "metadata") {
                Some(m) => match parse_metadata(m) {
                    Some(x) => x,
                    None => {
                        return Err(schema_err());
                    }
                },
                None => {
                    return Err(schema_err());
                }
            };
            let category_uid = match take_req_i32(f, "category_uid") {
                Some(x) => x,
                None => {
                    return Err(schema_err());
                }
            };
            let category_name = match take_req_str(f, "category_name") {
                Some(x) => x,
                None => {
                    return Err(schema_err());
                }
            };
            let class_uid = match take_req_i32(f, "class_uid") {
                Some(x) => x,
                None => {
                    return Err(schema_err());
                }
            };
            let class_name = match take_req_str(f, "class_name") {
                Some(x) => x,
                None => {
                    return Err(schema_err());
                }
            };
            let time = match take_req_i64(f, "time") {
                Some(x) => x,
                None => {
                    return Err(schema_err());
                }
            };
            let type_uid = match take_req_i32(f, "type_uid") {
                Some(x) => x,
                None => {
                    return Err(schema_err());
                }
            };
            let type_title = match take_req_str(f, "type_name") {
                Some(x) => x,
                None => {
                    return Err(schema_err());
                }
            };
            let activity_id = match take_req_i32(f, "activity_id") {
                Some(x) => x,
                None => {
                    return Err(schema_err());
                }
            };
            let activity_name = match take_req_str(f, "activity_name") {
                Some(x) => x,
                None => {
                    return Err(schema_err());
                }
            };
            let status = match take_req_str(f, "status") {
                Some(x) => x,
                None => {
                    return Err(schema_err());
                }
            };
            let status_id = match take_req_i32(f, "status_id") {
                Some(x) => x,
                None => {
                    return Err(schema_err());
                }
            };
            let severity = match take_req_str(f, "severity") {
                Some(x) => x,
                None => {
                    return Err(schema_err());
                }
            };
            let severity_id = match take_req_i32(f, "severity_id") {
                Some(x) => x,
                None => {
                    return Err(schema_err());
                }
            };
            let user = match crate::value::obj_find(f, "user") {
                None => None,
                Some(u) => match parse_user(u) {
                    Some(x) => Some(x),
                    None => {
                        return Err(schema_err());
                    }
                },
            };
            let actor = match crate::value::obj_find(f, "actor") {
                None => None,
                Some(a) => match parse_actor(a) {
                    Some(x) => Some(x),
                    None => {
                        return Err(schema_err());
                    }
                },
            };
            let service = match crate::value::obj_find(f, "service") {
                None => None,
                Some(x) => match parse_service(x) {
                    Some(y) => Some(y),
                    None => {
                        return Err(schema_err());
                    }
                },
            };
            let src_endpoint = match crate::value::obj_find(f, "src_endpoint") {
                None => None,
                Some(x) => match parse_endpoint(x) {
                    Some(y) => Some(y),
                    None => {
                        return Err(schema_err());
                    }
                },
            };
            let dst_endpoint = match crate::value::obj_find(f, "dst_endpoint") {
                None => None,
                Some(x) => match parse_endpoint(x) {
                    Some(y) => Some(y),
                    None => {
                        return Err(schema_err());
                    }
                },
            };
            let auth_protocol = match take_opt_str(f, "auth_protocol") {
                Some(x) => x,
                None => {
                    return Err(schema_err());
                }
            };
            let auth_protocol_id = match take_opt_i32(f, "auth_protocol_id") {
                Some(x) => x,
                None => {
                    return Err(schema_err());
                }
            };
            let logon_type = match take_opt_str(f, "logon_type") {
                Some(x) => x,
                None => {
                    return Err(schema_err());
                }
            };
            let logon_type_id = match take_opt_i32(f, "logon_type_id") {
                Some(x) => x,
                None => {
                    return Err(schema_err());
                }
            };
            let logon_process = match crate::value::obj_find(f, "logon_process") {
                None => None,
                Some(x) => match parse_process(x) {
                    Some(y) => Some(y),
                    None => {
                        return Err(schema_err());
                    }
                },
            };
            let is_remote = match take_opt_bool(f, "is_remote") {
                Some(x) => x,
                None => {
                    return Err(schema_err());
                }
            };
            let is_mfa = match take_opt_bool(f, "is_mfa") {
                Some(x) => x,
                None => {
                    return Err(schema_err());
                }
            };
            let is_cleartext = match take_opt_bool(f, "is_cleartext") {
                Some(x) => x,
                None => {
                    return Err(schema_err());
                }
            };
            let status_code = match take_opt_str(f, "status_code") {
                Some(x) => x,
                None => {
                    return Err(schema_err());
                }
            };
            let status_detail = match take_opt_str(f, "status_detail") {
                Some(x) => x,
                None => {
                    return Err(schema_err());
                }
            };
            let message = match take_opt_str(f, "message") {
                Some(x) => x,
                None => {
                    return Err(schema_err());
                }
            };
            let raw_data = match take_opt_str(f, "raw_data") {
                Some(x) => x,
                None => {
                    return Err(schema_err());
                }
            };
            let observables = match crate::value::obj_find(f, "observables") {
                None => None,
                Some(JsonVal::Arr(a)) => match parse_observables(a) {
                    Some(obs) => Some(obs),
                    None => {
                        return Err(schema_err());
                    }
                },
                Some(_) => {
                    return Err(schema_err());
                }
            };
            let unmapped = match crate::value::obj_find(f, "unmapped") {
                None => None,
                Some(JsonVal::Obj(u)) => Some(crate::ocsf::clone_pairs(u)),
                Some(_) => {
                    return Err(schema_err());
                }
            };
            let timezone_offset = match take_opt_i32(f, "timezone_offset") {
                Some(x) => x,
                None => {
                    return Err(schema_err());
                }
            };
            let ev = crate::ocsf::OcsfEvent {
                metadata,
                category_uid,
                category_name,
                class_uid,
                class_name,
                time,
                type_uid,
                type_title,
                activity_id,
                activity_name,
                status,
                status_id,
                severity,
                severity_id,
                user,
                actor,
                service,
                src_endpoint,
                dst_endpoint,
                auth_protocol,
                auth_protocol_id,
                logon_type,
                logon_type_id,
                logon_process,
                is_remote,
                is_mfa,
                is_cleartext,
                status_code,
                status_detail,
                message,
                raw_data,
                observables,
                unmapped,
                timezone_offset,
            };
            proof {
                match &ev.observables {
                    Some(obs) => {
                        assert(Seq::new(obs@.len(), |i: int| obs@[i]@) =~= obs@.map_values(
                            |o: crate::ocsf::OcsfObservable| o@,
                        ));
                    }
                    None => {}
                }
            }
            Ok(ev)
        }
        _ => Err(schema_err()),
    }
}

} // verus!
