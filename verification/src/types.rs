//! The input side of the pipeline: one log event, carrying the raw line
//! and caller-attached metadata.

use vstd::prelude::*;

use crate::text::str_eq;
use crate::value::{jv_view, jv_view_pairs, obj_get, JsonVal, JsonValV};

verus! {

/// One log event to be transformed: the raw line under `message`, plus
/// zero or more metadata fields attached by the caller. Keys are unique;
/// attaching an existing key replaces its value in place.
#[derive(Debug, Clone, PartialEq)]
pub struct LogEvent {
    pub message: String,
    pub metadata: Vec<(String, JsonVal)>,
}

/// The mathematical mirror of [`LogEvent`].
pub struct LogEventV {
    pub message: Seq<char>,
    pub metadata: Seq<(Seq<char>, JsonValV)>,
}

impl View for LogEvent {
    type V = LogEventV;

    open spec fn view(&self) -> LogEventV {
        LogEventV { message: self.message@, metadata: jv_view_pairs(self.metadata@) }
    }
}

/// Replaces the value of the first pair holding `key`, or appends the new
/// pair when no pair holds it.
pub open spec fn upsert(
    s: Seq<(Seq<char>, JsonValV)>,
    key: Seq<char>,
    value: JsonValV,
) -> Seq<(Seq<char>, JsonValV)>
    decreases s.len(),
{
    if s.len() == 0 {
        seq![(key, value)]
    } else if s[0].0 == key {
        seq![(key, value)] + s.subrange(1, s.len() as int)
    } else {
        seq![s[0]] + upsert(s.subrange(1, s.len() as int), key, value)
    }
}

/// When the first pair holding `key` stands at `i`, upsert updates it in
/// place.
proof fn lemma_upsert_found(
    s: Seq<(Seq<char>, JsonValV)>,
    key: Seq<char>,
    value: JsonValV,
    i: int,
)
    requires
        0 <= i < s.len(),
        s[i].0 == key,
        forall|j: int| 0 <= j < i ==> (#[trigger] s[j]).0 != key,
    ensures
        upsert(s, key, value) == s.update(i, (key, value)),
    decreases i,
{
    if i == 0 {
        assert(upsert(s, key, value) =~= s.update(0, (key, value)));
    } else {
        let tail = s.subrange(1, s.len() as int);
        assert(forall|j: int| 0 <= j < i - 1 ==> (#[trigger] tail[j]).0 != key);
        lemma_upsert_found(tail, key, value, i - 1);
        assert(upsert(s, key, value) =~= s.update(i, (key, value)));
    }
}

/// When no pair holds `key`, upsert appends the new pair.
proof fn lemma_upsert_absent(s: Seq<(Seq<char>, JsonValV)>, key: Seq<char>, value: JsonValV)
    requires
        forall|j: int| 0 <= j < s.len() ==> (#[trigger] s[j]).0 != key,
    ensures
        upsert(s, key, value) == s.push((key, value)),
    decreases s.len(),
{
    if s.len() == 0 {
        assert(upsert(s, key, value) =~= s.push((key, value)));
    } else {
        lemma_upsert_absent(s.subrange(1, s.len() as int), key, value);
        assert(upsert(s, key, value) =~= s.push((key, value)));
    }
}

impl LogEvent {
    /// A fresh event holding the raw line and no metadata.
    pub fn new(message: &str) -> (r: Self)
        ensures
            r@.message == message@,
            r@.metadata == Seq::<(Seq<char>, JsonValV)>::empty(),
    {
        let r = LogEvent { message: message.to_owned(), metadata: Vec::new() };
        proof {
            assert(r@.metadata =~= Seq::<(Seq<char>, JsonValV)>::empty());
        }
        r
    }

    /// Attaches one metadata field, replacing the value in place when the
    /// key is already present.
    #[verifier::loop_isolation(false)]
    pub fn with_metadata(self, key: &str, value: JsonVal) -> (r: Self)
        ensures
            r@.message == self@.message,
            r@.metadata == upsert(self@.metadata, key@, jv_view(value)),
    {
        let ghost old_pairs = jv_view_pairs(self.metadata@);
        let ghost valv = jv_view(value);
        let mut ev = self;
        let n = ev.metadata.len();
        let mut i: usize = 0;
        proof {
            crate::value::lemma_jv_view_pairs(ev.metadata@);
        }
        while i < n
            invariant
                i <= n,
                n == ev.metadata.len(),
                old_pairs == jv_view_pairs(ev.metadata@),
                old_pairs.len() == n,
                forall|j: int| 0 <= j < n ==> old_pairs[j] == (
                    ev.metadata@[j].0@,
                    jv_view(ev.metadata@[j].1),
                ),
                forall|j: int| 0 <= j < i ==> (#[trigger] old_pairs[j]).0 != key@,
                ev@.message == self@.message,
            decreases n - i,
        {
            if str_eq(ev.metadata[i].0.as_str(), key) {
                let ghost pre = ev.metadata@;
                let new_key = key.to_owned();
                ev.metadata.set(i, (new_key, value));
                proof {
                    crate::value::lemma_jv_view_pairs(ev.metadata@);
                    let post_pairs = jv_view_pairs(ev.metadata@);
                    let target = old_pairs.update(i as int, (key@, valv));
                    assert forall|j: int| 0 <= j < n implies post_pairs[j] == target[j] by {
                        if j == i {
                            assert(ev.metadata@[j].0@ == key@);
                            assert(jv_view(ev.metadata@[j].1) == valv);
                        } else {
                            assert(ev.metadata@[j] == pre[j]);
                        }
                    }
                    assert(post_pairs =~= target);
                    lemma_upsert_found(old_pairs, key@, valv, i as int);
                }
                return ev;
            }
            i = i + 1;
        }
        ev.metadata.push((key.to_owned(), value));
        proof {
            crate::value::lemma_jv_view_pairs(ev.metadata@);
            assert(jv_view_pairs(ev.metadata@) =~= old_pairs.push((key@, valv)));
            lemma_upsert_absent(old_pairs, key@, valv);
        }
        ev
    }

    /// The value attached under `key`, if any.
    pub fn metadata_value(&self, key: &str) -> (r: Option<&JsonVal>)
        ensures
            match r {
                Some(v) => obj_get(self@.metadata, key@) == Some(v@),
                None => obj_get(self@.metadata, key@) is None,
            },
    {
        let n = self.metadata.len();
        let mut i: usize = 0;
        proof {
            crate::value::lemma_jv_view_pairs(self.metadata@);
        }
        while i < n
            invariant
                i <= n,
                n == self.metadata.len(),
                forall|j: int| 0 <= j < i
                    ==> (#[trigger] jv_view_pairs(self.metadata@)[j]).0 != key@,
            decreases n - i,
        {
            if str_eq(self.metadata[i].0.as_str(), key) {
                proof {
                    crate::value::lemma_jv_view_pairs(self.metadata@);
                    crate::value::lemma_obj_get_found(
                        jv_view_pairs(self.metadata@),
                        key@,
                        i as int,
                    );
                }
                return Some(&self.metadata[i].1);
            }
            proof {
                crate::value::lemma_jv_view_pairs(self.metadata@);
            }
            i = i + 1;
        }
        proof {
            crate::value::lemma_obj_get_none(jv_view_pairs(self.metadata@), key@);
        }
        None
    }

    /// How many metadata fields the event carries.
    pub fn metadata_len(&self) -> (n: usize)
        ensures
            n == self@.metadata.len(),
    {
        proof {
            crate::value::lemma_jv_view_pairs(self.metadata@);
        }
        self.metadata.len()
    }
}

} // verus!
