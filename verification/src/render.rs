//! Verified renderers from the JSON value model to wire text: compact
//! JSON, pretty JSON (two-space indent), and a block-style YAML mapping.
//! Each executable renderer is proved to produce exactly the text of its
//! spec-level text function, so framing properties of the streaming
//! serializer can be stated and proved over these functions.

use vstd::prelude::*;

use crate::text::{dec_int, esc, push_dec_i64, push_escaped};
use crate::value::{JsonVal, JsonValV};

verus! {

pub open spec fn null_text() -> Seq<char> {
    seq!['n', 'u', 'l', 'l']
}

pub open spec fn true_text() -> Seq<char> {
    seq!['t', 'r', 'u', 'e']
}

pub open spec fn false_text() -> Seq<char> {
    seq!['f', 'a', 'l', 's', 'e']
}

/// A JSON string literal: the escaped characters between double quotes.
pub open spec fn jstr(s: Seq<char>) -> Seq<char> {
    seq!['"'] + esc(s) + seq!['"']
}

/// The compact JSON text of a value.
pub open spec fn jtext(v: JsonValV) -> Seq<char>
    decreases v,
{
    match v {
        JsonValV::Null => null_text(),
        JsonValV::Bool(b) => if b {
            true_text()
        } else {
            false_text()
        },
        JsonValV::Int(i) => dec_int(i),
        JsonValV::Num(t) => t,
        JsonValV::Str(s) => jstr(s),
        JsonValV::Arr(elems) => seq!['['] + jtext_elems(elems) + seq![']'],
        JsonValV::Obj(fields) => seq!['{'] + jtext_fields(fields) + seq!['}'],
    }
}

/// Array elements joined by commas.
pub open spec fn jtext_elems(s: Seq<JsonValV>) -> Seq<char>
    decreases s,
{
    if s.len() == 0 {
        Seq::empty()
    } else if s.len() == 1 {
        jtext(s[0])
    } else {
        jtext(s[0]) + seq![','] + jtext_elems(s.subrange(1, s.len() as int))
    }
}

/// Object members, `"key":value`, joined by commas.
pub open spec fn jtext_fields(s: Seq<(Seq<char>, JsonValV)>) -> Seq<char>
    decreases s,
{
    if s.len() == 0 {
        Seq::empty()
    } else if s.len() == 1 {
        jstr(s[0].0) + seq![':'] + jtext(s[0].1)
    } else {
        jstr(s[0].0) + seq![':'] + jtext(s[0].1) + seq![','] + jtext_fields(
            s.subrange(1, s.len() as int),
        )
    }
}

/// Extending an element list appends one comma-separated rendering.
pub proof fn lemma_jtext_elems_snoc(s: Seq<JsonValV>, x: JsonValV)
    ensures
        jtext_elems(s.push(x)) == if s.len() == 0 {
            jtext(x)
        } else {
            jtext_elems(s) + seq![','] + jtext(x)
        },
    decreases s.len(),
{
    let full = s.push(x);
    if s.len() == 0 {
        assert(full.len() == 1);
        assert(full[0] == x);
        assert(jtext_elems(full) =~= jtext(x));
    } else {
        let tail = s.subrange(1, s.len() as int);
        assert(full.subrange(1, full.len() as int) =~= tail.push(x));
        lemma_jtext_elems_snoc(tail, x);
        assert(jtext_elems(full) =~= jtext_elems(s) + seq![','] + jtext(x));
    }
}

/// Extending a member list appends one comma-separated member.
pub proof fn lemma_jtext_fields_snoc(s: Seq<(Seq<char>, JsonValV)>, x: (Seq<char>, JsonValV))
    ensures
        jtext_fields(s.push(x)) == if s.len() == 0 {
            jstr(x.0) + seq![':'] + jtext(x.1)
        } else {
            jtext_fields(s) + seq![','] + jstr(x.0) + seq![':'] + jtext(x.1)
        },
    decreases s.len(),
{
    let full = s.push(x);
    if s.len() == 0 {
        assert(full.len() == 1);
        assert(full[0] == x);
        assert(jtext_fields(full) =~= jstr(x.0) + seq![':'] + jtext(x.1));
    } else {
        let tail = s.subrange(1, s.len() as int);
        assert(full.subrange(1, full.len() as int) =~= tail.push(x));
        lemma_jtext_fields_snoc(tail, x);
        assert(jtext_fields(full) =~= jtext_fields(s) + seq![','] + jstr(x.0) + seq![':'] + jtext(
            x.1,
        ));
    }
}

/// Appends `"null"` and relates the literal to its spec text.
fn push_null(out: &mut String)
    ensures
        final(out)@ == old(out)@ + null_text(),
{
    out.append("null");
    proof {
        reveal_strlit("null");
        assert("null"@ =~= null_text());
    }
}

fn push_bool(out: &mut String, b: bool)
    ensures
        final(out)@ == old(out)@ + if b {
            true_text()
        } else {
            false_text()
        },
{
    if b {
        out.append("true");
        proof {
            reveal_strlit("true");
            assert("true"@ =~= true_text());
        }
    } else {
        out.append("false");
        proof {
            reveal_strlit("false");
            assert("false"@ =~= false_text());
        }
    }
}

/// Appends a JSON string literal holding `s`.
fn push_jstr(out: &mut String, s: &str)
    ensures
        final(out)@ == old(out)@ + jstr(s@),
{
    out.push('"');
    push_escaped(out, s);
    out.push('"');
}

/// Appends the compact JSON text of `v`.
#[verifier::loop_isolation(false)]
pub fn push_json(out: &mut String, v: &JsonVal)
    ensures
        final(out)@ == old(out)@ + jtext(v@),
    decreases v,
{
    match v {
        JsonVal::Null => push_null(out),
        JsonVal::Bool(b) => push_bool(out, *b),
        JsonVal::Int(i) => push_dec_i64(out, *i),
        JsonVal::Num(t) => out.append(t.as_str()),
        JsonVal::Str(s) => push_jstr(out, s.as_str()),
        JsonVal::Arr(elems) => {
            let ghost vseq = v@->Arr_0;
            proof {
                crate::value::lemma_jv_view_seq(elems@);
            }
            out.push('[');
            let ghost base = out@;
            let n = elems.len();
            let mut i: usize = 0;
            while i < n
                invariant
                    i <= n,
                    out@ == base + jtext_elems(vseq.subrange(0, i as int)),
                decreases n - i,
            {
                if i > 0 {
                    out.push(',');
                }
                push_json(out, &elems[i]);
                proof {
                    assert(vseq.subrange(0, i + 1) =~= vseq.subrange(0, i as int).push(vseq[i as int]));
                    lemma_jtext_elems_snoc(vseq.subrange(0, i as int), vseq[i as int]);
                }
                i = i + 1;
            }
            out.push(']');
            proof {
                assert(vseq.subrange(0, n as int) =~= vseq);
            }
        }
        JsonVal::Obj(fields) => {
            let ghost vseq = v@->Obj_0;
            proof {
                crate::value::lemma_jv_view_pairs(fields@);
            }
            out.push('{');
            let ghost base = out@;
            let n = fields.len();
            let mut i: usize = 0;
            while i < n
                invariant
                    i <= n,
                    out@ == base + jtext_fields(vseq.subrange(0, i as int)),
                decreases n - i,
            {
                if i > 0 {
                    out.push(',');
                }
                push_jstr(out, fields[i].0.as_str());
                out.push(':');
                push_json(out, &fields[i].1);
                proof {
                    assert(vseq.subrange(0, i + 1) =~= vseq.subrange(0, i as int).push(vseq[i as int]));
                    lemma_jtext_fields_snoc(vseq.subrange(0, i as int), vseq[i as int]);
                }
                i = i + 1;
            }
            out.push('}');
            proof {
                assert(vseq.subrange(0, n as int) =~= vseq);
            }
        }
    }
}

/// The compact JSON text of `v` as a fresh string.
pub fn render_json(v: &JsonVal) -> (r: String)
    ensures
        r@ == jtext(v@),
{
    let mut out = String::new();
    push_json(&mut out, v);
    out
}

/// Two spaces: one indentation step.
pub open spec fn sp2() -> Seq<char> {
    seq![' ', ' ']
}

/// The pretty JSON text of a value standing at indentation `ind`:
/// two-space indentation, `": "` after keys, one element per line, and
/// `[]` / `{}` for empty composites.
pub open spec fn ptext(v: JsonValV, ind: Seq<char>) -> Seq<char>
    decreases v, 0int,
{
    match v {
        JsonValV::Null => null_text(),
        JsonValV::Bool(b) => if b {
            true_text()
        } else {
            false_text()
        },
        JsonValV::Int(i) => dec_int(i),
        JsonValV::Num(t) => t,
        JsonValV::Str(s) => jstr(s),
        JsonValV::Arr(elems) => if elems.len() == 0 {
            seq!['[', ']']
        } else {
            seq!['[', '\n'] + ptext_elems(elems, ind + sp2()) + seq!['\n'] + ind + seq![']']
        },
        JsonValV::Obj(fields) => if fields.len() == 0 {
            seq!['{', '}']
        } else {
            seq!['{', '\n'] + ptext_fields(fields, ind + sp2()) + seq!['\n'] + ind + seq!['}']
        },
    }
}

/// Pretty array elements, each indented on its own line.
pub open spec fn ptext_elems(s: Seq<JsonValV>, ind: Seq<char>) -> Seq<char>
    decreases s, 1int,
{
    if s.len() == 0 {
        Seq::empty()
    } else if s.len() == 1 {
        ind + ptext(s[0], ind)
    } else {
        ind + ptext(s[0], ind) + seq![',', '\n'] + ptext_elems(s.subrange(1, s.len() as int), ind)
    }
}

/// Pretty object members, each indented on its own line.
pub open spec fn ptext_fields(s: Seq<(Seq<char>, JsonValV)>, ind: Seq<char>) -> Seq<char>
    decreases s, 1int,
{
    if s.len() == 0 {
        Seq::empty()
    } else if s.len() == 1 {
        ind + jstr(s[0].0) + seq![':', ' '] + ptext(s[0].1, ind)
    } else {
        ind + jstr(s[0].0) + seq![':', ' '] + ptext(s[0].1, ind) + seq![',', '\n'] + ptext_fields(
            s.subrange(1, s.len() as int),
            ind,
        )
    }
}

/// Extending a pretty element list appends one line-separated rendering.
pub proof fn lemma_ptext_elems_snoc(s: Seq<JsonValV>, x: JsonValV, ind: Seq<char>)
    ensures
        ptext_elems(s.push(x), ind) == if s.len() == 0 {
            ind + ptext(x, ind)
        } else {
            ptext_elems(s, ind) + seq![',', '\n'] + ind + ptext(x, ind)
        },
    decreases s.len(),
{
    let full = s.push(x);
    if s.len() == 0 {
        assert(full.len() == 1);
        assert(full[0] == x);
        assert(ptext_elems(full, ind) =~= ind + ptext(x, ind));
    } else {
        let tail = s.subrange(1, s.len() as int);
        assert(full.subrange(1, full.len() as int) =~= tail.push(x));
        lemma_ptext_elems_snoc(tail, x, ind);
        assert(ptext_elems(full, ind) =~= ptext_elems(s, ind) + seq![',', '\n'] + ind + ptext(
            x,
            ind,
        ));
    }
}

/// Extending a pretty member list appends one line-separated member.
pub proof fn lemma_ptext_fields_snoc(
    s: Seq<(Seq<char>, JsonValV)>,
    x: (Seq<char>, JsonValV),
    ind: Seq<char>,
)
    ensures
        ptext_fields(s.push(x), ind) == if s.len() == 0 {
            ind + jstr(x.0) + seq![':', ' '] + ptext(x.1, ind)
        } else {
            ptext_fields(s, ind) + seq![',', '\n'] + ind + jstr(x.0) + seq![':', ' '] + ptext(
                x.1,
                ind,
            )
        },
    decreases s.len(),
{
    let full = s.push(x);
    if s.len() == 0 {
        assert(full.len() == 1);
        assert(full[0] == x);
        assert(ptext_fields(full, ind) =~= ind + jstr(x.0) + seq![':', ' '] + ptext(x.1, ind));
    } else {
        let tail = s.subrange(1, s.len() as int);
        assert(full.subrange(1, full.len() as int) =~= tail.push(x));
        lemma_ptext_fields_snoc(tail, x, ind);
        assert(ptext_fields(full, ind) =~= ptext_fields(s, ind) + seq![',', '\n'] + ind + jstr(
            x.0,
        ) + seq![':', ' '] + ptext(x.1, ind));
    }
}

/// Appends the pretty JSON text of `v`, standing at indentation `ind`.
#[verifier::loop_isolation(false)]
#[verifier::rlimit(100)]
pub fn push_json_pretty(out: &mut String, v: &JsonVal, ind: &str)
    ensures
        final(out)@ == old(out)@ + ptext(v@, ind@),
    decreases v,
{
    match v {
        JsonVal::Null => push_null(out),
        JsonVal::Bool(b) => push_bool(out, *b),
        JsonVal::Int(i) => push_dec_i64(out, *i),
        JsonVal::Num(t) => out.append(t.as_str()),
        JsonVal::Str(s) => push_jstr(out, s.as_str()),
        JsonVal::Arr(elems) => {
            let ghost vseq = v@->Arr_0;
            proof {
                crate::value::lemma_jv_view_seq(elems@);
            }
            if elems.len() == 0 {
                out.push('[');
                out.push(']');
            } else {
                let mut deeper = String::new();
                deeper.append(ind);
                deeper.append("  ");
                proof {
                    reveal_strlit("  ");
                    assert(deeper@ =~= ind@ + sp2());
                }
                out.push('[');
                out.push('\n');
                let ghost base = out@;
                let n = elems.len();
                let mut i: usize = 0;
                while i < n
                    invariant
                        i <= n,
                        out@ == base + ptext_elems(vseq.subrange(0, i as int), deeper@),
                    decreases n - i,
                {
                    if i > 0 {
                        out.push(',');
                        out.push('\n');
                    }
                    out.append(deeper.as_str());
                    push_json_pretty(out, &elems[i], deeper.as_str());
                    proof {
                        assert(vseq.subrange(0, i + 1) =~= vseq.subrange(0, i as int).push(
                            vseq[i as int],
                        ));
                        lemma_ptext_elems_snoc(vseq.subrange(0, i as int), vseq[i as int], deeper@);
                    }
                    i = i + 1;
                }
                out.push('\n');
                out.append(ind);
                out.push(']');
                proof {
                    assert(vseq.subrange(0, n as int) =~= vseq);
                }
            }
        }
        JsonVal::Obj(fields) => {
            let ghost vseq = v@->Obj_0;
            proof {
                crate::value::lemma_jv_view_pairs(fields@);
            }
            if fields.len() == 0 {
                out.push('{');
                out.push('}');
            } else {
                let mut deeper = String::new();
                deeper.append(ind);
                deeper.append("  ");
                proof {
                    reveal_strlit("  ");
                    assert(deeper@ =~= ind@ + sp2());
                }
                out.push('{');
                out.push('\n');
                let ghost base = out@;
                let n = fields.len();
                let mut i: usize = 0;
                while i < n
                    invariant
                        i <= n,
                        out@ == base + ptext_fields(vseq.subrange(0, i as int), deeper@),
                    decreases n - i,
                {
                    if i > 0 {
                        out.push(',');
                        out.push('\n');
                    }
                    out.append(deeper.as_str());
                    push_jstr(out, fields[i].0.as_str());
                    out.push(':');
                    out.push(' ');
                    push_json_pretty(out, &fields[i].1, deeper.as_str());
                    proof {
                        assert(vseq.subrange(0, i + 1) =~= vseq.subrange(0, i as int).push(
                            vseq[i as int],
                        ));
                        lemma_ptext_fields_snoc(vseq.subrange(0, i as int), vseq[i as int], deeper@);
                    }
                    i = i + 1;
                }
                out.push('\n');
                out.append(ind);
                out.push('}');
                proof {
                    assert(vseq.subrange(0, n as int) =~= vseq);
                }
            }
        }
    }
}

/// The pretty JSON text of `v` as a fresh string.
pub fn render_json_pretty(v: &JsonVal) -> (r: String)
    ensures
        r@ == ptext(v@, Seq::empty()),
{
    let mut out = String::new();
    push_json_pretty(&mut out, v, "");
    proof {
        reveal_strlit("");
        assert(""@ =~= Seq::<char>::empty());
    }
    out
}

/// Whether a value renders as a single YAML scalar.
pub open spec fn is_ycomposite(v: JsonValV) -> bool {
    v is Arr || v is Obj
}

/// The scalar YAML text of a non-composite value. Strings are always
/// double-quoted with JSON-style escapes, which YAML accepts; composites
/// have no scalar text.
pub open spec fn yscalar(v: JsonValV) -> Seq<char> {
    match v {
        JsonValV::Null => null_text(),
        JsonValV::Bool(b) => if b {
            true_text()
        } else {
            false_text()
        },
        JsonValV::Int(i) => dec_int(i),
        JsonValV::Num(t) => t,
        JsonValV::Str(s) => jstr(s),
        JsonValV::Arr(_) => Seq::empty(),
        JsonValV::Obj(_) => Seq::empty(),
    }
}

/// A key character that may stand unquoted in the YAML output.
pub open spec fn is_plain_key_char(c: char) -> bool {
    (97 <= c as nat && c as nat <= 122) || (65 <= c as nat && c as nat <= 90) || (48 <= c as nat
        && c as nat <= 57) || c == '_' || c == '-'
}

/// A key that may stand unquoted: nonempty, over letters, digits, `_`, `-`.
pub open spec fn is_plain_key(k: Seq<char>) -> bool {
    k.len() > 0 && forall|i: int| 0 <= i < k.len() ==> is_plain_key_char(#[trigger] k[i])
}

/// A mapping key: unquoted when plain, else a double-quoted literal.
pub open spec fn ykey(k: Seq<char>) -> Seq<char> {
    if is_plain_key(k) {
        k
    } else {
        jstr(k)
    }
}

/// The block-style YAML text of a value standing at indentation `ind`:
/// a sequence of lines, each ending in a newline. Scalars stand alone on
/// one line; sequences use `- ` entries; mappings use `key: value` lines,
/// with nested composites indented two further spaces on following lines.
pub open spec fn ytext(v: JsonValV, ind: Seq<char>) -> Seq<char>
    decreases v, 0int,
{
    match v {
        JsonValV::Arr(elems) => if elems.len() == 0 {
            ind + seq!['[', ']', '\n']
        } else {
            yitems(elems, ind)
        },
        JsonValV::Obj(fields) => if fields.len() == 0 {
            ind + seq!['{', '}', '\n']
        } else {
            yfields(fields, ind)
        },
        _ => ind + yscalar(v) + seq!['\n'],
    }
}

/// One YAML sequence entry.
pub open spec fn yitem(v: JsonValV, ind: Seq<char>) -> Seq<char>
    decreases v, 1int,
{
    if is_ycomposite(v) {
        ind + seq!['-', '\n'] + ytext(v, ind + sp2())
    } else {
        ind + seq!['-', ' '] + yscalar(v) + seq!['\n']
    }
}

/// The entries of a YAML sequence, in order.
pub open spec fn yitems(s: Seq<JsonValV>, ind: Seq<char>) -> Seq<char>
    decreases s, 2int,
{
    if s.len() == 0 {
        Seq::empty()
    } else {
        yitem(s[0], ind) + yitems(s.subrange(1, s.len() as int), ind)
    }
}

/// One YAML mapping line (or line group, for a composite value).
pub open spec fn yfield(f: (Seq<char>, JsonValV), ind: Seq<char>) -> Seq<char>
    decreases f, 1int,
{
    if is_ycomposite(f.1) {
        ind + ykey(f.0) + seq![':', '\n'] + ytext(f.1, ind + sp2())
    } else {
        ind + ykey(f.0) + seq![':', ' '] + yscalar(f.1) + seq!['\n']
    }
}

/// The members of a YAML mapping, in order.
pub open spec fn yfields(s: Seq<(Seq<char>, JsonValV)>, ind: Seq<char>) -> Seq<char>
    decreases s, 2int,
{
    if s.len() == 0 {
        Seq::empty()
    } else {
        yfield(s[0], ind) + yfields(s.subrange(1, s.len() as int), ind)
    }
}

/// Extending a sequence appends one entry's lines.
pub proof fn lemma_yitems_snoc(s: Seq<JsonValV>, x: JsonValV, ind: Seq<char>)
    ensures
        yitems(s.push(x), ind) == yitems(s, ind) + yitem(x, ind),
    decreases s.len(),
{
    let full = s.push(x);
    if s.len() == 0 {
        assert(full.subrange(1, 1) =~= Seq::<JsonValV>::empty());
        assert(yitems(Seq::<JsonValV>::empty(), ind) =~= Seq::<char>::empty());
        assert(yitems(full, ind) =~= yitems(s, ind) + yitem(x, ind));
    } else {
        let tail = s.subrange(1, s.len() as int);
        assert(full.subrange(1, full.len() as int) =~= tail.push(x));
        lemma_yitems_snoc(tail, x, ind);
        assert(yitems(full, ind) =~= yitems(s, ind) + yitem(x, ind));
    }
}

/// Extending a mapping appends one member's lines.
pub proof fn lemma_yfields_snoc(
    s: Seq<(Seq<char>, JsonValV)>,
    x: (Seq<char>, JsonValV),
    ind: Seq<char>,
)
    ensures
        yfields(s.push(x), ind) == yfields(s, ind) + yfield(x, ind),
    decreases s.len(),
{
    let full = s.push(x);
    if s.len() == 0 {
        assert(full.subrange(1, 1) =~= Seq::<(Seq<char>, JsonValV)>::empty());
        assert(yfields(Seq::<(Seq<char>, JsonValV)>::empty(), ind) =~= Seq::<char>::empty());
        assert(yfields(full, ind) =~= yfields(s, ind) + yfield(x, ind));
    } else {
        let tail = s.subrange(1, s.len() as int);
        assert(full.subrange(1, full.len() as int) =~= tail.push(x));
        lemma_yfields_snoc(tail, x, ind);
        assert(yfields(full, ind) =~= yfields(s, ind) + yfield(x, ind));
    }
}

/// Appends the scalar YAML text of a non-composite value; appends nothing
/// for composites.
fn push_yscalar(out: &mut String, v: &JsonVal)
    ensures
        final(out)@ == old(out)@ + yscalar(v@),
{
    match v {
        JsonVal::Null => push_null(out),
        JsonVal::Bool(b) => push_bool(out, *b),
        JsonVal::Int(i) => push_dec_i64(out, *i),
        JsonVal::Num(t) => out.append(t.as_str()),
        JsonVal::Str(s) => push_jstr(out, s.as_str()),
        JsonVal::Arr(_) => (),
        JsonVal::Obj(_) => (),
    }
}

/// Appends the YAML reading of a mapping key.
fn push_ykey(out: &mut String, k: &str)
    ensures
        final(out)@ == old(out)@ + ykey(k@),
{
    let n = k.unicode_len();
    let mut plain = n > 0;
    let mut i: usize = 0;
    while i < n
        invariant
            i <= n,
            n as nat == k@.len(),
            plain == (n > 0 && forall|j: int|
                0 <= j < i ==> is_plain_key_char(#[trigger] k@[j])),
        decreases n - i,
    {
        let c = k.get_char(i);
        let u = c as u32;
        let ok = (97 <= u && u <= 122) || (65 <= u && u <= 90) || (48 <= u && u <= 57) || c == '_'
            || c == '-';
        plain = plain && ok;
        i = i + 1;
    }
    if plain {
        out.append(k);
    } else {
        push_jstr(out, k);
    }
}

/// Appends one YAML sequence entry for `v`.
fn push_yitem(out: &mut String, v: &JsonVal, ind: &str, deeper: &str)
    requires
        deeper@ == ind@ + sp2(),
    ensures
        final(out)@ == old(out)@ + yitem(v@, ind@),
    decreases v, 1int,
{
    let composite = match v {
        JsonVal::Arr(_) => true,
        JsonVal::Obj(_) => true,
        _ => false,
    };
    out.append(ind);
    out.push('-');
    if composite {
        out.push('\n');
        push_yaml(out, v, deeper);
    } else {
        out.push(' ');
        push_yscalar(out, v);
        out.push('\n');
    }
}

/// Appends one YAML mapping member for `k` and `v`.
fn push_yfield(out: &mut String, k: &str, v: &JsonVal, ind: &str, deeper: &str)
    requires
        deeper@ == ind@ + sp2(),
    ensures
        final(out)@ == old(out)@ + yfield((k@, v@), ind@),
    decreases v, 1int,
{
    let composite = match v {
        JsonVal::Arr(_) => true,
        JsonVal::Obj(_) => true,
        _ => false,
    };
    out.append(ind);
    push_ykey(out, k);
    out.push(':');
    if composite {
        out.push('\n');
        push_yaml(out, v, deeper);
    } else {
        out.push(' ');
        push_yscalar(out, v);
        out.push('\n');
    }
}

/// Appends the block-style YAML text of `v`, standing at indentation `ind`.
#[verifier::loop_isolation(false)]
#[verifier::rlimit(60)]
pub fn push_yaml(out: &mut String, v: &JsonVal, ind: &str)
    ensures
        final(out)@ == old(out)@ + ytext(v@, ind@),
    decreases v, 0int,
{
    match v {
        JsonVal::Arr(elems) => {
            let ghost vseq = v@->Arr_0;
            proof {
                crate::value::lemma_jv_view_seq(elems@);
            }
            if elems.len() == 0 {
                out.append(ind);
                out.push('[');
                out.push(']');
                out.push('\n');
            } else {
                let mut deeper = String::new();
                deeper.append(ind);
                deeper.append("  ");
                proof {
                    reveal_strlit("  ");
                    assert(deeper@ =~= ind@ + sp2());
                }
                let ghost base = out@;
                let n = elems.len();
                let mut i: usize = 0;
                while i < n
                    invariant
                        i <= n,
                        out@ == base + yitems(vseq.subrange(0, i as int), ind@),
                    decreases n - i,
                {
                    push_yitem(out, &elems[i], ind, deeper.as_str());
                    proof {
                        assert(vseq.subrange(0, i + 1) =~= vseq.subrange(0, i as int).push(
                            vseq[i as int],
                        ));
                        lemma_yitems_snoc(vseq.subrange(0, i as int), vseq[i as int], ind@);
                    }
                    i = i + 1;
                }
                proof {
                    assert(vseq.subrange(0, n as int) =~= vseq);
                }
            }
        }
        JsonVal::Obj(fields) => {
            let ghost vseq = v@->Obj_0;
            proof {
                crate::value::lemma_jv_view_pairs(fields@);
            }
            if fields.len() == 0 {
                out.append(ind);
                out.push('{');
                out.push('}');
                out.push('\n');
            } else {
                let mut deeper = String::new();
                deeper.append(ind);
                deeper.append("  ");
                proof {
                    reveal_strlit("  ");
                    assert(deeper@ =~= ind@ + sp2());
                }
                let ghost base = out@;
                let n = fields.len();
                let mut i: usize = 0;
                while i < n
                    invariant
                        i <= n,
                        out@ == base + yfields(vseq.subrange(0, i as int), ind@),
                    decreases n - i,
                {
                    push_yfield(out, fields[i].0.as_str(), &fields[i].1, ind, deeper.as_str());
                    proof {
                        assert(vseq.subrange(0, i + 1) =~= vseq.subrange(0, i as int).push(
                            vseq[i as int],
                        ));
                        lemma_yfields_snoc(vseq.subrange(0, i as int), vseq[i as int], ind@);
                    }
                    i = i + 1;
                }
                proof {
                    assert(vseq.subrange(0, n as int) =~= vseq);
                }
            }
        }
        _ => {
            out.append(ind);
            push_yscalar(out, v);
            out.push('\n');
        }
    }
}

/// The YAML text of `v` as a fresh document body.
pub fn render_yaml(v: &JsonVal) -> (r: String)
    ensures
        r@ == ytext(v@, Seq::empty()),
{
    let mut out = String::new();
    push_yaml(&mut out, v, "");
    proof {
        reveal_strlit("");
        assert(""@ =~= Seq::<char>::empty());
    }
    out
}

/// Whether every number text inside the value is free of raw newlines.
/// Number texts carried by the model are decimal renderings, which never
/// hold one; this predicate states that fact for a given value.
pub open spec fn nums_clean(v: JsonValV) -> bool
    decreases v,
{
    match v {
        JsonValV::Num(t) => forall|i: int| 0 <= i < t.len() ==> t[i] != '\n',
        JsonValV::Arr(elems) => nums_clean_seq(elems),
        JsonValV::Obj(fields) => nums_clean_pairs(fields),
        _ => true,
    }
}

pub open spec fn nums_clean_seq(s: Seq<JsonValV>) -> bool
    decreases s,
{
    s.len() == 0 || (nums_clean(s[0]) && nums_clean_seq(s.subrange(1, s.len() as int)))
}

pub open spec fn nums_clean_pairs(s: Seq<(Seq<char>, JsonValV)>) -> bool
    decreases s,
{
    s.len() == 0 || (nums_clean(s[0].1) && nums_clean_pairs(s.subrange(1, s.len() as int)))
}

/// The compact rendering of a value with clean number texts holds no raw
/// newline: strings are escaped, numbers and punctuation have none.
pub proof fn lemma_jtext_no_newline(v: JsonValV)
    requires
        nums_clean(v),
    ensures
        forall|i: int| 0 <= i < jtext(v).len() ==> jtext(v)[i] != '\n',
    decreases v,
{
    match v {
        JsonValV::Null => {
            assert forall|i: int| 0 <= i < jtext(v).len() implies jtext(v)[i] != '\n' by {
                assert(jtext(v) == null_text());
            }
        }
        JsonValV::Bool(_) => {
            assert forall|i: int| 0 <= i < jtext(v).len() implies jtext(v)[i] != '\n' by {
                assert(jtext(v) == true_text() || jtext(v) == false_text());
            }
        }
        JsonValV::Int(i) => {
            crate::text::lemma_dec_int_no_newline(i);
        }
        JsonValV::Num(_) => {}
        JsonValV::Str(s) => {
            crate::text::lemma_esc_no_newline(s);
            assert forall|i: int| 0 <= i < jtext(v).len() implies jtext(v)[i] != '\n' by {
                if i == 0 {
                    assert(jstr(s)[0] == '"');
                } else if i < 1 + crate::text::esc(s).len() {
                    assert(jstr(s)[i] == crate::text::esc(s)[i - 1]);
                } else {
                    assert(jstr(s)[i] == '"');
                }
            }
        }
        JsonValV::Arr(elems) => {
            lemma_jtext_elems_no_newline(elems);
            assert forall|i: int| 0 <= i < jtext(v).len() implies jtext(v)[i] != '\n' by {
                if i == 0 {
                    assert(jtext(v)[0] == '[');
                } else if i < 1 + jtext_elems(elems).len() {
                    assert(jtext(v)[i] == jtext_elems(elems)[i - 1]);
                } else {
                    assert(jtext(v)[i] == ']');
                }
            }
        }
        JsonValV::Obj(fields) => {
            lemma_jtext_fields_no_newline(fields);
            assert forall|i: int| 0 <= i < jtext(v).len() implies jtext(v)[i] != '\n' by {
                if i == 0 {
                    assert(jtext(v)[0] == '{');
                } else if i < 1 + jtext_fields(fields).len() {
                    assert(jtext(v)[i] == jtext_fields(fields)[i - 1]);
                } else {
                    assert(jtext(v)[i] == '}');
                }
            }
        }
    }
}

pub proof fn lemma_jtext_elems_no_newline(s: Seq<JsonValV>)
    requires
        nums_clean_seq(s),
    ensures
        forall|i: int| 0 <= i < jtext_elems(s).len() ==> jtext_elems(s)[i] != '\n',
    decreases s,
{
    if s.len() > 0 {
        let head = jtext(s[0]);
        let tail = jtext_elems(s.subrange(1, s.len() as int));
        lemma_jtext_no_newline(s[0]);
        lemma_jtext_elems_no_newline(s.subrange(1, s.len() as int));
        assert forall|i: int| 0 <= i < jtext_elems(s).len() implies jtext_elems(s)[i] != '\n' by {
            if s.len() == 1 {
                assert(jtext_elems(s)[i] == head[i]);
            } else if i < head.len() {
                assert(jtext_elems(s)[i] == head[i]);
            } else if i == head.len() {
                assert(jtext_elems(s)[i] == ',');
            } else {
                assert(jtext_elems(s)[i] == tail[i - head.len() - 1]);
            }
        }
    }
}

pub proof fn lemma_jtext_fields_no_newline(s: Seq<(Seq<char>, JsonValV)>)
    requires
        nums_clean_pairs(s),
    ensures
        forall|i: int| 0 <= i < jtext_fields(s).len() ==> jtext_fields(s)[i] != '\n',
    decreases s,
{
    if s.len() > 0 {
        let member = jstr(s[0].0) + seq![':'] + jtext(s[0].1);
        let tail = jtext_fields(s.subrange(1, s.len() as int));
        crate::text::lemma_esc_no_newline(s[0].0);
        lemma_jtext_no_newline(s[0].1);
        lemma_jtext_fields_no_newline(s.subrange(1, s.len() as int));
        assert forall|i: int| 0 <= i < member.len() implies member[i] != '\n' by {
            let k = jstr(s[0].0);
            if i < k.len() {
                assert(member[i] == k[i]);
                if 0 < i < k.len() - 1 {
                    assert(k[i] == crate::text::esc(s[0].0)[i - 1]);
                }
            } else if i == k.len() {
                assert(member[i] == ':');
            } else {
                assert(member[i] == jtext(s[0].1)[i - k.len() - 1]);
            }
        }
        assert forall|i: int| 0 <= i < jtext_fields(s).len() implies jtext_fields(s)[i] != '\n' by {
            if s.len() == 1 {
                assert(jtext_fields(s)[i] == member[i]);
            } else if i < member.len() {
                assert(jtext_fields(s)[i] == member[i]);
            } else if i == member.len() {
                assert(jtext_fields(s)[i] == ',');
            } else {
                assert(jtext_fields(s)[i] == tail[i - member.len() - 1]);
            }
        }
    }
}

} // verus!

