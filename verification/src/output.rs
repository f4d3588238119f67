//! Output formatting: whole-collection rendering of event records and the
//! incremental streaming serializer with framing-correct JSON-array,
//! NDJSON, and YAML-document-stream output. The framing state is the
//! record count, not a string heuristic, and `finalize` is pure, so
//! finalizing twice cannot corrupt the stream.

use vstd::prelude::*;

use crate::config::{extension_text, OutputFormat};
use crate::error::TransformError;
use crate::ocsf::{event_jv, OcsfEvent, OcsfEventV};
use crate::render::{
    jtext, jtext_elems, lemma_jtext_elems_snoc, lemma_ptext_elems_snoc, ptext, ptext_elems,
    push_json, push_json_pretty, push_yaml, sp2, ytext,
};
use crate::value::JsonValV;

verus! {

/// The JSON values of a sequence of events.
pub open spec fn events_jv_seq(s: Seq<OcsfEventV>) -> Seq<JsonValV> {
    Seq::new(s.len(), |i: int| event_jv(s[i]))
}

/// The NDJSON reading of a sequence of events: one compact rendering plus
/// a newline per record.
pub open spec fn ndjson_text(s: Seq<OcsfEventV>) -> Seq<char>
    decreases s.len(),
{
    if s.len() == 0 {
        Seq::empty()
    } else {
        jtext(event_jv(s[0])) + seq!['\n'] + ndjson_text(s.subrange(1, s.len() as int))
    }
}

/// Extending the sequence appends one line.
pub proof fn lemma_ndjson_text_snoc(s: Seq<OcsfEventV>, x: OcsfEventV)
    ensures
        ndjson_text(s.push(x)) == ndjson_text(s) + jtext(event_jv(x)) + seq!['\n'],
    decreases s.len(),
{
    let full = s.push(x);
    if s.len() == 0 {
        assert(full.subrange(1, 1) =~= Seq::<OcsfEventV>::empty());
        assert(ndjson_text(Seq::<OcsfEventV>::empty()) =~= Seq::<char>::empty());
        assert(ndjson_text(full) =~= ndjson_text(s) + jtext(event_jv(x)) + seq!['\n']);
    } else {
        assert(full.subrange(1, full.len() as int) =~= s.subrange(1, s.len() as int).push(x));
        lemma_ndjson_text_snoc(s.subrange(1, s.len() as int), x);
        assert(ndjson_text(full) =~= ndjson_text(s) + jtext(event_jv(x)) + seq!['\n']);
    }
}

/// The YAML document stream of a sequence of events: each document after
/// the first is preceded by a `---` separator line.
pub open spec fn yaml_stream_text(s: Seq<OcsfEventV>) -> Seq<char>
    decreases s.len(),
{
    if s.len() == 0 {
        Seq::empty()
    } else if s.len() == 1 {
        ytext(event_jv(s[0]), Seq::empty())
    } else {
        ytext(event_jv(s[0]), Seq::empty()) + "---\n"@ + yaml_stream_text(
            s.subrange(1, s.len() as int),
        )
    }
}

/// Extending the stream appends one separator (after the first document)
/// and one document.
pub proof fn lemma_yaml_stream_snoc(s: Seq<OcsfEventV>, x: OcsfEventV)
    ensures
        yaml_stream_text(s.push(x)) == if s.len() == 0 {
            ytext(event_jv(x), Seq::empty())
        } else {
            yaml_stream_text(s) + "---\n"@ + ytext(event_jv(x), Seq::empty())
        },
    decreases s.len(),
{
    let full = s.push(x);
    if s.len() == 0 {
        assert(full.len() == 1);
        assert(full[0] == x);
    } else {
        assert(full.subrange(1, full.len() as int) =~= s.subrange(1, s.len() as int).push(x));
        lemma_yaml_stream_snoc(s.subrange(1, s.len() as int), x);
        assert(yaml_stream_text(full) =~= yaml_stream_text(s) + "---\n"@ + ytext(
            event_jv(x),
            Seq::empty(),
        ));
    }
}

/// The single-record reading for a format: compact or pretty JSON, one
/// NDJSON line, or one YAML document body.
pub open spec fn single_text(e: OcsfEventV, format: OutputFormat, pretty: bool) -> Seq<char> {
    match format {
        OutputFormat::Json => if pretty {
            ptext(event_jv(e), Seq::empty())
        } else {
            jtext(event_jv(e))
        },
        OutputFormat::JsonPretty => ptext(event_jv(e), Seq::empty()),
        OutputFormat::Ndjson => jtext(event_jv(e)) + seq!['\n'],
        OutputFormat::Yaml => ytext(event_jv(e), Seq::empty()),
    }
}

/// The whole-collection reading for a format: a JSON array (compact or
/// pretty), NDJSON lines, or the YAML document stream — the same text,
/// byte for byte, that the streaming path finalizes to.
pub open spec fn collection_text(s: Seq<OcsfEventV>, format: OutputFormat, pretty: bool) -> Seq<
    char,
> {
    match format {
        OutputFormat::Json => if pretty {
            ptext(JsonValV::Arr(events_jv_seq(s)), Seq::empty())
        } else {
            jtext(JsonValV::Arr(events_jv_seq(s)))
        },
        OutputFormat::JsonPretty => ptext(JsonValV::Arr(events_jv_seq(s)), Seq::empty()),
        OutputFormat::Ndjson => ndjson_text(s),
        OutputFormat::Yaml => yaml_stream_text(s),
    }
}

/// Formats collections and single records.
pub struct OutputFormatter;

impl OutputFormatter {
    /// Renders one record in the given format.
    pub fn format_single_event(event: &OcsfEvent, format: OutputFormat, pretty: bool) -> (r:
        Result<String, TransformError>)
        ensures
            r matches Ok(t) && t@ == single_text(event@, format, pretty),
    {
        let v = event.to_json();
        let mut out = String::new();
        match format {
            OutputFormat::Json => {
                if pretty {
                    push_json_pretty(&mut out, &v, "");
                    proof {
                        reveal_strlit("");
                        assert(""@ =~= Seq::<char>::empty());
                    }
                } else {
                    push_json(&mut out, &v);
                }
            }
            OutputFormat::JsonPretty => {
                push_json_pretty(&mut out, &v, "");
                proof {
                    reveal_strlit("");
                    assert(""@ =~= Seq::<char>::empty());
                }
            }
            OutputFormat::Ndjson => {
                push_json(&mut out, &v);
                out.push('\n');
            }
            OutputFormat::Yaml => {
                push_yaml(&mut out, &v, "");
                proof {
                    reveal_strlit("");
                    assert(""@ =~= Seq::<char>::empty());
                }
            }
        }
        Ok(out)
    }

    /// Renders the whole collection in the given format.
    pub fn format_events(events: &Vec<OcsfEvent>, format: OutputFormat, pretty: bool) -> (r:
        Result<String, TransformError>)
        ensures
            r matches Ok(t) && t@ == collection_text(events@.map_values(|e: OcsfEvent| e@), format, pretty),
    {
        let ghost evs = events@.map_values(|e: OcsfEvent| e@);
        match format {
            OutputFormat::Ndjson => {
                let mut out = String::new();
                let n = events.len();
                let mut i: usize = 0;
                while i < n
                    invariant
                        i <= n,
                        n == events.len(),
                        evs == events@.map_values(|e: OcsfEvent| e@),
                        out@ == ndjson_text(evs.subrange(0, i as int)),
                    decreases n - i,
                {
                    let v = events[i].to_json();
                    push_json(&mut out, &v);
                    out.push('\n');
                    proof {
                        assert(evs.subrange(0, i + 1) =~= evs.subrange(0, i as int).push(
                            evs[i as int],
                        ));
                        lemma_ndjson_text_snoc(evs.subrange(0, i as int), evs[i as int]);
                    }
                    i = i + 1;
                }
                proof {
                    assert(evs.subrange(0, n as int) =~= evs);
                }
                Ok(out)
            }
            OutputFormat::Yaml => {
                let mut out = String::new();
                let n = events.len();
                let mut i: usize = 0;
                while i < n
                    invariant
                        i <= n,
                        n == events.len(),
                        evs == events@.map_values(|e: OcsfEvent| e@),
                        out@ == yaml_stream_text(evs.subrange(0, i as int)),
                    decreases n - i,
                {
                    if i > 0 {
                        out.append("---\n");
                    }
                    let v = events[i].to_json();
                    push_yaml(&mut out, &v, "");
                    proof {
                        reveal_strlit("");
                        assert(""@ =~= Seq::<char>::empty());
                        assert(evs.subrange(0, i + 1) =~= evs.subrange(0, i as int).push(
                            evs[i as int],
                        ));
                        lemma_yaml_stream_snoc(evs.subrange(0, i as int), evs[i as int]);
                    }
                    i = i + 1;
                }
                proof {
                    assert(evs.subrange(0, n as int) =~= evs);
                }
                Ok(out)
            }
            _ => {
                let mut elems: Vec<crate::value::JsonVal> = Vec::new();
                let n = events.len();
                let mut i: usize = 0;
                while i < n
                    invariant
                        i <= n,
                        n == events.len(),
                        evs == events@.map_values(|e: OcsfEvent| e@),
                        elems@.len() == i,
                        forall|j: int| 0 <= j < i ==> crate::value::jv_view(
                            #[trigger] elems@[j],
                        ) == event_jv(evs[j]),
                    decreases n - i,
                {
                    elems.push(events[i].to_json());
                    i = i + 1;
                }
                let arr = crate::value::JsonVal::Arr(elems);
                proof {
                    crate::value::lemma_jv_view_seq(arr->Arr_0@);
                    assert(arr@->Arr_0 =~= events_jv_seq(evs));
                }
                let mut out = String::new();
                let use_pretty = pretty || match format {
                    OutputFormat::JsonPretty => true,
                    _ => false,
                };
                if use_pretty {
                    push_json_pretty(&mut out, &arr, "");
                } else {
                    push_json(&mut out, &arr);
                }
                proof {
                    reveal_strlit("");
                    assert(""@ =~= Seq::<char>::empty());
                }
                Ok(out)
            }
        }
    }

    /// The file extension for a format, as an owned string.
    pub fn get_file_extension(format: OutputFormat) -> (r: String)
        ensures
            r@ == extension_text(format),
    {
        format.extension().to_owned()
    }

    /// Relies on `chrono::Utc::now` and its `format`: the current UTC
    /// time rendered as `%Y%m%d_%H%M%S`. The result depends on the
    /// clock, so only its shape is promised: digits, the underscore, and
    /// possibly a year sign — never a dot or a slash.
    #[verifier::external_body]
    fn now_stamp() -> (r: String)
        ensures
            forall|i: int| 0 <= i < r@.len() ==> r@[i] != '.' && r@[i] != '/',
    {
        let stamp = chrono::Utc::now().format("%Y%m%d_%H%M%S");
        format!("{stamp}")
    }

    /// An output file name: the base name, optionally a `_`-separated
    /// timestamp, and the format's extension.
    pub fn create_output_filename(base_name: &str, format: OutputFormat, include_timestamp: bool)
        -> (r: String)
        ensures
            !include_timestamp ==> r@ == base_name@ + seq!['.'] + extension_text(format),
            include_timestamp ==> exists|stamp: Seq<char>|
                r@ == base_name@ + seq!['_'] + stamp + seq!['.'] + extension_text(format) && (
                forall|i: int| 0 <= i < stamp.len() ==> stamp[i] != '.' && stamp[i] != '/'),
    {
        let mut out = String::new();
        out.append(base_name);
        if include_timestamp {
            out.push('_');
            let stamp = Self::now_stamp();
            out.append(stamp.as_str());
            proof {
                assert(out@ == base_name@ + seq!['_'] + stamp@);
            }
        }
        out.push('.');
        out.append(format.extension());
        out
    }

    /// Whether every record of the collection can be rendered in the
    /// format. The library's renderers are total, so this always accepts;
    /// it stands for callers that check before writing.
    pub fn validate_format_compatibility(_events: &Vec<OcsfEvent>, _format: OutputFormat) -> (r:
        Result<(), TransformError>)
        ensures
            r is Ok,
    {
        Ok(())
    }
}

/// The finished stream for a format: the JSON array is wrapped in
/// brackets (`[]` when empty), NDJSON and the YAML stream pass through.
pub open spec fn finalized_text(format: OutputFormat, pretty: bool, s: Seq<OcsfEventV>) -> Seq<
    char,
> {
    match format {
        OutputFormat::Json => if pretty {
            pretty_array_text(s)
        } else {
            seq!['['] + jtext_elems(events_jv_seq(s)) + seq![']']
        },
        OutputFormat::JsonPretty => pretty_array_text(s),
        OutputFormat::Ndjson => ndjson_text(s),
        OutputFormat::Yaml => yaml_stream_text(s),
    }
}

/// The pretty JSON array of a sequence of events.
pub open spec fn pretty_array_text(s: Seq<OcsfEventV>) -> Seq<char> {
    if s.len() == 0 {
        seq!['[', ']']
    } else {
        seq!['[', '\n'] + ptext_elems(events_jv_seq(s), sp2()) + seq!['\n', ']']
    }
}

/// The streaming serializer: renders records one at a time into a running
/// buffer with the framing separators of the chosen format. The ghost
/// record sequence ties the buffer to exactly the records appended so
/// far; `finalize` reads the buffer without touching it, so a second
/// finalize returns the same stream.
pub struct StreamingOutputFormatter {
    format: OutputFormat,
    pretty: bool,
    buffer: String,
    count: usize,
    events: Ghost<Seq<OcsfEventV>>,
}

impl StreamingOutputFormatter {
    /// The format the stream was opened with.
    pub closed spec fn spec_format(&self) -> OutputFormat {
        self.format
    }

    /// Whether pretty rendering was chosen.
    pub closed spec fn spec_pretty(&self) -> bool {
        self.pretty
    }

    /// The records appended so far.
    pub closed spec fn spec_events(&self) -> Seq<OcsfEventV> {
        self.events@
    }

    /// The running buffer's text.
    pub closed spec fn spec_buffer(&self) -> Seq<char> {
        self.buffer@
    }

    /// The record count the serializer tracks.
    pub closed spec fn spec_count(&self) -> usize {
        self.count
    }

    /// Whether pretty JSON rendering is in effect.
    pub open spec fn effective_pretty(&self) -> bool {
        self.spec_pretty() || self.spec_format() is JsonPretty
    }

    /// The serializer's invariant: the record count fits, and the buffer
    /// holds exactly the framing-correct body of the appended records.
    pub open spec fn wf(&self) -> bool {
        &&& self.spec_count() == self.spec_events().len()
        &&& match self.spec_format() {
            OutputFormat::Ndjson => self.spec_buffer() == ndjson_text(self.spec_events()),
            OutputFormat::Yaml => self.spec_buffer() == yaml_stream_text(self.spec_events()),
            OutputFormat::Json | OutputFormat::JsonPretty => if self.effective_pretty() {
                self.spec_buffer() == ptext_elems(events_jv_seq(self.spec_events()), sp2())
            } else {
                self.spec_buffer() == jtext_elems(events_jv_seq(self.spec_events()))
            },
        }
    }

    /// An empty stream for the chosen format and pretty flag.
    pub fn new(format: OutputFormat, pretty: bool) -> (r: Self)
        ensures
            r.wf(),
            r.spec_format() == format,
            r.spec_pretty() == pretty,
            r.spec_events() == Seq::<OcsfEventV>::empty(),
    {
        let r = StreamingOutputFormatter {
            format,
            pretty,
            buffer: String::new(),
            count: 0,
            events: Ghost(Seq::empty()),
        };
        proof {
            assert(events_jv_seq(Seq::<OcsfEventV>::empty()) =~= Seq::<JsonValV>::empty());
        }
        r
    }

    /// Appends one record to the stream, with the separator its format
    /// calls for.
    #[verifier::rlimit(100)]
    pub fn add_event(&mut self, event: &OcsfEvent) -> (r: Result<(), TransformError>)
        requires
            old(self).wf(),
            old(self).spec_events().len() < usize::MAX,
        ensures
            r is Ok,
            final(self).wf(),
            final(self).spec_format() == old(self).spec_format(),
            final(self).spec_pretty() == old(self).spec_pretty(),
            final(self).spec_events() == old(self).spec_events().push(event@),
    {
        let ghost olds = self.events@;
        let v = event.to_json();
        proof {
            assert(events_jv_seq(olds.push(event@)) =~= events_jv_seq(olds).push(
                event_jv(event@),
            ));
        }
        match self.format {
            OutputFormat::Ndjson => {
                push_json(&mut self.buffer, &v);
                self.buffer.push('\n');
                proof {
                    lemma_ndjson_text_snoc(olds, event@);
                }
            }
            OutputFormat::Yaml => {
                if self.count > 0 {
                    self.buffer.append("---\n");
                }
                push_yaml(&mut self.buffer, &v, "");
                proof {
                    reveal_strlit("");
                    assert(""@ =~= Seq::<char>::empty());
                    lemma_yaml_stream_snoc(olds, event@);
                }
            }
            _ => {
                let use_pretty = self.pretty || match self.format {
                    OutputFormat::JsonPretty => true,
                    _ => false,
                };
                if use_pretty {
                    if self.count > 0 {
                        self.buffer.push(',');
                        self.buffer.push('\n');
                    }
                    self.buffer.append("  ");
                    push_json_pretty(&mut self.buffer, &v, "  ");
                    proof {
                        reveal_strlit("  ");
                        assert("  "@ =~= sp2());
                        let evsold = events_jv_seq(olds);
                        let x = event_jv(event@);
                        lemma_ptext_elems_snoc(evsold, x, sp2());
                        assert(self.buffer@ =~= ptext_elems(evsold.push(x), sp2()));
                    }
                } else {
                    if self.count > 0 {
                        self.buffer.push(',');
                    }
                    push_json(&mut self.buffer, &v);
                    proof {
                        let evsold = events_jv_seq(olds);
                        let x = event_jv(event@);
                        lemma_jtext_elems_snoc(evsold, x);
                        assert(self.buffer@ =~= jtext_elems(evsold.push(x)));
                    }
                }
            }
        }
        self.count = self.count + 1;
        proof {
            self.events@ = olds.push(event@);
        }
        Ok(())
    }

    /// The running buffer.
    pub fn get_buffer(&self) -> (r: &str)
        ensures
            r@ == self.spec_buffer(),
    {
        self.buffer.as_str()
    }

    /// Empties the stream: the buffer and the record sequence restart.
    pub fn clear_buffer(&mut self)
        ensures
            final(self).wf(),
            final(self).spec_format() == old(self).spec_format(),
            final(self).spec_pretty() == old(self).spec_pretty(),
            final(self).spec_events() == Seq::<OcsfEventV>::empty(),
    {
        self.buffer = String::new();
        self.count = 0;
        proof {
            self.events@ = Seq::<OcsfEventV>::empty();
            assert(events_jv_seq(Seq::<OcsfEventV>::empty()) =~= Seq::<JsonValV>::empty());
        }
    }

    /// The finished stream. Pure: the serializer is left untouched, so
    /// calling this twice returns the same text twice.
    pub fn finalize(&self) -> (r: Result<String, TransformError>)
        requires
            self.wf(),
        ensures
            r matches Ok(t) && t@ == finalized_text(
                self.spec_format(),
                self.effective_pretty(),
                self.spec_events(),
            ),
    {
        match self.format {
            OutputFormat::Ndjson | OutputFormat::Yaml => {
                let mut out = String::new();
                out.append(self.buffer.as_str());
                proof {
                    assert(out@ =~= self.spec_buffer());
                }
                Ok(out)
            }
            _ => {
                let use_pretty = self.pretty || match self.format {
                    OutputFormat::JsonPretty => true,
                    _ => false,
                };
                let mut out = String::new();
                if use_pretty {
                    if self.count == 0 {
                        out.push('[');
                        out.push(']');
                        proof {
                            assert(out@ =~= pretty_array_text(self.spec_events()));
                        }
                    } else {
                        out.push('[');
                        out.push('\n');
                        out.append(self.buffer.as_str());
                        out.push('\n');
                        out.push(']');
                        proof {
                            assert(out@ =~= pretty_array_text(self.spec_events()));
                        }
                    }
                } else {
                    out.push('[');
                    out.append(self.buffer.as_str());
                    out.push(']');
                    proof {
                        assert(out@ =~= seq!['['] + jtext_elems(
                            events_jv_seq(self.spec_events()),
                        ) + seq![']']);
                    }
                }
                Ok(out)
            }
        }
    }
}

/// The streaming path and the whole-collection formatter agree byte for
/// byte, for every format, record sequence and pretty flag.
pub proof fn lemma_streaming_agrees_with_collection(
    s: Seq<OcsfEventV>,
    format: OutputFormat,
    pretty: bool,
)
    ensures
        finalized_text(format, pretty || format is JsonPretty, s) == collection_text(
            s,
            format,
            pretty,
        ),
{
    match format {
        OutputFormat::Ndjson => {}
        OutputFormat::Yaml => {}
        OutputFormat::Json | OutputFormat::JsonPretty => {
            let ev = events_jv_seq(s);
            if pretty || format is JsonPretty {
                if s.len() == 0 {
                    assert(ev.len() == 0);
                    assert(pretty_array_text(s) =~= ptext(JsonValV::Arr(ev), Seq::empty()));
                } else {
                    assert(Seq::<char>::empty() + sp2() =~= sp2());
                    assert(pretty_array_text(s) =~= ptext(JsonValV::Arr(ev), Seq::empty()));
                }
            } else {
                assert(seq!['['] + jtext_elems(ev) + seq![']'] =~= jtext(JsonValV::Arr(ev)));
            }
        }
    }
}

/// JSON-array framing law: the finished compact stream of `N` records is
/// the bracketed, comma-joined list of exactly the records' compact
/// renderings, one per record; with no records it is exactly `[]`.
pub proof fn lemma_json_array_framing(s: Seq<OcsfEventV>)
    ensures
        finalized_text(OutputFormat::Json, false, s) == seq!['['] + jtext_elems(events_jv_seq(s))
            + seq![']'],
        events_jv_seq(s).len() == s.len(),
        s.len() == 0 ==> finalized_text(OutputFormat::Json, false, s) == seq!['[', ']'],
{
    if s.len() == 0 {
        assert(events_jv_seq(s) =~= Seq::<JsonValV>::empty());
        assert(seq!['['] + jtext_elems(events_jv_seq(s)) + seq![']'] =~= seq!['[', ']']);
    }
}

/// NDJSON framing law: for records whose number texts are newline-free,
/// the output of `N` records holds exactly `N` newlines — one line per
/// record, each line the compact JSON rendering of its record.
pub proof fn lemma_ndjson_line_count(s: Seq<OcsfEventV>)
    requires
        forall|i: int| 0 <= i < s.len() ==> crate::render::nums_clean(event_jv(#[trigger] s[i])),
    ensures
        crate::text::count_char(ndjson_text(s), '\n') == s.len(),
    decreases s.len(),
{
    if s.len() > 0 {
        let head = jtext(event_jv(s[0]));
        let tail = s.subrange(1, s.len() as int);
        crate::render::lemma_jtext_no_newline(event_jv(s[0]));
        crate::text::lemma_count_char_zero(head, '\n');
        crate::text::lemma_count_char_concat(head, seq!['\n'], '\n');
        crate::text::lemma_count_char_concat(head + seq!['\n'], ndjson_text(tail), '\n');
        assert(crate::text::count_char(seq!['\n'], '\n') == 1) by {
            assert(seq!['\n'].subrange(1, 1) =~= Seq::<char>::empty());
            assert(crate::text::count_char(Seq::<char>::empty(), '\n') == 0);
        }
        lemma_ndjson_line_count(tail);
    }
}

} // verus!
