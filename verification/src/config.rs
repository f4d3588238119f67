//! Run configuration: the output format, the transformer settings with
//! their defaults and validation, and the conversion from a Vector-style
//! configuration tree to transformer settings.
//!
//! Reading configuration files and checking paths against the file system
//! are I/O and stay outside the library; validation here receives the
//! file-system facts as plain booleans.

use vstd::prelude::*;

use crate::value::{jv_view_pairs, obj_get, JsonVal, JsonValV};

verus! {

/// The wire format of the output stream.
#[derive(Debug, Clone, Copy, PartialEq, Eq, Structural)]
pub enum OutputFormat {
    Json,
    Ndjson,
    Yaml,
    JsonPretty,
}

/// The file extension belonging to a format.
pub open spec fn extension_text(f: OutputFormat) -> Seq<char> {
    match f {
        OutputFormat::Json | OutputFormat::JsonPretty => "json"@,
        OutputFormat::Ndjson => "ndjson"@,
        OutputFormat::Yaml => "yaml"@,
    }
}

impl OutputFormat {
    /// The file extension used for output files of this format.
    pub fn extension(&self) -> (r: &str)
        ensures
            r@ == extension_text(*self),
    {
        match self {
            OutputFormat::Json | OutputFormat::JsonPretty => "json",
            OutputFormat::Ndjson => "ndjson",
            OutputFormat::Yaml => "yaml",
        }
    }
}

/// Relies on `num_cpus::get`: the number of available CPUs, always at
/// least 1.
#[verifier::external_body]
fn worker_count() -> (r: usize)
    ensures
        r >= 1,
{
    num_cpus::get()
}

/// The transformer's run settings. Paths are carried as text; the caller
/// owning the file system resolves them.
#[derive(Debug, Clone, PartialEq)]
pub struct TransformerConfig {
    /// Path of the transformation script file.
    pub vrl_script_path: String,
    /// Input file or directory path.
    pub input_path: String,
    /// Output directory for transformed events.
    pub output_path: String,
    pub output_format: OutputFormat,
    pub batch_size: usize,
    /// Continue past per-file failures instead of aborting the batch.
    pub skip_errors: bool,
    pub watch_mode: bool,
    /// Watch interval in seconds.
    pub watch_interval: u64,
    pub enable_metrics: bool,
    pub metrics_port: u16,
    pub log_level: String,
    pub pretty_print: bool,
    pub max_workers: usize,
    pub include_patterns: Vec<String>,
    pub exclude_patterns: Vec<String>,
    pub hot_reload: bool,
    pub vrl_functions_dir: Option<String>,
}

impl Default for TransformerConfig {
    /// The default settings: NDJSON output, batches of 100, errors
    /// skipped, no watching, no metrics, one worker per CPU.
    fn default() -> (r: Self)
        ensures
            r.vrl_script_path@ == "remap.vrl"@,
            r.input_path@ == "/var/log/auth.log"@,
            r.output_path@ == "./ocsf_output"@,
            r.output_format == OutputFormat::Ndjson,
            r.batch_size == 100,
            r.skip_errors == true,
            r.watch_mode == false,
            r.watch_interval == 5,
            r.enable_metrics == false,
            r.metrics_port == 9090,
            r.log_level@ == "info"@,
            r.pretty_print == false,
            r.max_workers >= 1,
            r.include_patterns@.len() == 0,
            r.exclude_patterns@.len() == 0,
            r.hot_reload == false,
            r.vrl_functions_dir is None,
    {
        TransformerConfig {
            vrl_script_path: "remap.vrl".to_owned(),
            input_path: "/var/log/auth.log".to_owned(),
            output_path: "./ocsf_output".to_owned(),
            output_format: OutputFormat::Ndjson,
            batch_size: 100,
            skip_errors: true,
            watch_mode: false,
            watch_interval: 5,
            enable_metrics: false,
            metrics_port: 9090,
            log_level: "info".to_owned(),
            pretty_print: false,
            max_workers: worker_count(),
            include_patterns: Vec::new(),
            exclude_patterns: Vec::new(),
            hot_reload: false,
            vrl_functions_dir: None,
        }
    }
}

impl TransformerConfig {
    /// Checks the settings. The caller reports whether the script file
    /// and the input path exist; the numeric checks are the library's.
    /// Accepts exactly when both paths exist, the batch size is positive,
    /// and the worker count is positive; the first failing check names
    /// its message.
    pub fn validate(&self, script_exists: bool, input_exists: bool) -> (r: Result<(), String>)
        ensures
            r is Ok <==> script_exists && input_exists && self.batch_size > 0
                && self.max_workers > 0,
            !script_exists ==> (r matches Err(m) && m@ == "VRL script file not found: "@
                + self.vrl_script_path@),
            script_exists && !input_exists ==> (r matches Err(m) && m@
                == "Input path not found: "@ + self.input_path@),
            script_exists && input_exists && self.batch_size == 0 ==> (r matches Err(m) && m@
                == "Batch size must be greater than 0"@),
            script_exists && input_exists && self.batch_size > 0 && self.max_workers == 0
                ==> (r matches Err(m) && m@ == "Max workers must be greater than 0"@),
    {
        if !script_exists {
            let mut m = String::new();
            m.append("VRL script file not found: ");
            m.append(self.vrl_script_path.as_str());
            return Err(m);
        }
        if !input_exists {
            let mut m = String::new();
            m.append("Input path not found: ");
            m.append(self.input_path.as_str());
            return Err(m);
        }
        if self.batch_size == 0 {
            return Err("Batch size must be greater than 0".to_owned());
        }
        if self.max_workers == 0 {
            return Err("Max workers must be greater than 0".to_owned());
        }
        Ok(())
    }
}

/// The directory part of a path's text: the text before the last `/`
/// (the lone `/` when the last slash leads the path), and empty when the
/// path holds no slash.
pub open spec fn parent_dir(s: Seq<char>) -> Seq<char>
    decreases s.len(),
{
    if s.len() == 0 {
        Seq::empty()
    } else if s[s.len() - 1] == '/' {
        if s.len() == 1 {
            seq!['/']
        } else {
            s.subrange(0, s.len() - 1)
        }
    } else {
        parent_dir(s.subrange(0, s.len() - 1))
    }
}

/// When the last slash stands at `k`, the parent is the text before it.
proof fn lemma_parent_dir_at(s: Seq<char>, k: int)
    requires
        0 <= k < s.len(),
        s[k] == '/',
        forall|j: int| k < j < s.len() ==> s[j] != '/',
    ensures
        parent_dir(s) == if k == 0 {
            seq!['/']
        } else {
            s.subrange(0, k)
        },
    decreases s.len(),
{
    if k == s.len() - 1 {
    } else {
        let shorter = s.subrange(0, s.len() - 1);
        assert(forall|j: int| k < j < shorter.len() ==> shorter[j] != '/');
        lemma_parent_dir_at(shorter, k);
        if k > 0 {
            assert(shorter.subrange(0, k) =~= s.subrange(0, k));
        }
    }
}

/// When a path holds no slash, its parent is empty.
proof fn lemma_parent_dir_none(s: Seq<char>)
    requires
        forall|j: int| 0 <= j < s.len() ==> s[j] != '/',
    ensures
        parent_dir(s) == Seq::<char>::empty(),
    decreases s.len(),
{
    if s.len() > 0 {
        lemma_parent_dir_none(s.subrange(0, s.len() - 1));
    }
}

/// The directory part of a path's text.
fn parent_dir_exec(s: &str) -> (r: String)
    ensures
        r@ == parent_dir(s@),
{
    let n = s.unicode_len();
    let mut i: usize = n;
    while i > 0
        invariant
            i <= n,
            n as nat == s@.len(),
            forall|j: int| i <= j < n ==> s@[j] != '/',
        decreases i,
    {
        let c = s.get_char(i - 1);
        if c == '/' {
            proof {
                lemma_parent_dir_at(s@, i - 1);
            }
            if i == 1 {
                let root = "/".to_owned();
                proof {
                    reveal_strlit("/");
                    assert(root@ =~= seq!['/']);
                }
                return root;
            }
            let part = s.substring_char(0, i - 1);
            return part.to_owned();
        }
        i = i - 1;
    }
    proof {
        lemma_parent_dir_none(s@);
    }
    String::new()
}

/// A Vector-style configuration tree, modelled over the JSON value
/// model: each section is an ordered table of named values.
#[derive(Debug, Clone, PartialEq)]
pub struct VectorConfig {
    pub data_dir: String,
    pub sources: Vec<(String, JsonVal)>,
    pub transforms: Vec<(String, JsonVal)>,
    pub sinks: Vec<(String, JsonVal)>,
}

/// The script path a Vector tree names: `transforms.ocsf_transform.file`.
pub open spec fn vector_script_path(transforms: Seq<(Seq<char>, JsonValV)>) -> Option<Seq<char>> {
    match obj_get(transforms, "ocsf_transform"@) {
        Some(JsonValV::Obj(t)) => match obj_get(t, "file"@) {
            Some(JsonValV::Str(p)) => Some(p),
            _ => None,
        },
        _ => None,
    }
}

/// The input path a Vector tree names: the first entry of `include` in
/// the first source.
pub open spec fn vector_input_path(sources: Seq<(Seq<char>, JsonValV)>) -> Option<Seq<char>> {
    if sources.len() > 0 {
        match sources[0].1 {
            JsonValV::Obj(t) => match obj_get(t, "include"@) {
                Some(JsonValV::Arr(a)) => if a.len() > 0 {
                    match a[0] {
                        JsonValV::Str(p) => Some(p),
                        _ => None,
                    }
                } else {
                    None
                },
                _ => None,
            },
            _ => None,
        }
    } else {
        None
    }
}

/// The output directory a Vector tree names: the directory part of
/// `sinks.ocsf_output.path`.
pub open spec fn vector_output_path(sinks: Seq<(Seq<char>, JsonValV)>) -> Option<Seq<char>> {
    match obj_get(sinks, "ocsf_output"@) {
        Some(JsonValV::Obj(t)) => match obj_get(t, "path"@) {
            Some(JsonValV::Str(p)) => Some(parent_dir(p)),
            _ => None,
        },
        _ => None,
    }
}

impl VectorConfig {
    /// Reads the transformer settings out of the Vector tree: the script
    /// path, input path, and output directory it names, each falling back
    /// to the default when the tree does not name one; every other
    /// setting keeps its default.
    pub fn to_transformer_config(&self) -> (r: TransformerConfig)
        ensures
            r.vrl_script_path@ == match vector_script_path(jv_view_pairs(self.transforms@)) {
                Some(p) => p,
                None => "remap.vrl"@,
            },
            r.input_path@ == match vector_input_path(jv_view_pairs(self.sources@)) {
                Some(p) => p,
                None => "/var/log/auth.log"@,
            },
            r.output_path@ == match vector_output_path(jv_view_pairs(self.sinks@)) {
                Some(p) => p,
                None => "./ocsf_output"@,
            },
            r.output_format == OutputFormat::Ndjson,
            r.batch_size == 100,
            r.skip_errors == true,
            r.watch_mode == false,
            r.watch_interval == 5,
            r.enable_metrics == false,
            r.metrics_port == 9090,
            r.log_level@ == "info"@,
            r.pretty_print == false,
            r.max_workers >= 1,
            r.include_patterns@.len() == 0,
            r.exclude_patterns@.len() == 0,
            r.hot_reload == false,
            r.vrl_functions_dir is None,
    {
        let mut config = TransformerConfig::default();
        match crate::value::obj_find(&self.transforms, "ocsf_transform") {
            Some(JsonVal::Obj(t)) => match crate::value::obj_find(t, "file") {
                Some(JsonVal::Str(p)) => {
                    config.vrl_script_path = p.clone();
                }
                _ => (),
            },
            _ => (),
        }
        if self.sources.len() > 0 {
            proof {
                crate::value::lemma_jv_view_pairs(self.sources@);
            }
            match &self.sources[0].1 {
                JsonVal::Obj(t) => match crate::value::obj_find(t, "include") {
                    Some(JsonVal::Arr(a)) => {
                        if a.len() > 0 {
                            proof {
                                crate::value::lemma_jv_view_seq(a@);
                            }
                            match &a[0] {
                                JsonVal::Str(p) => {
                                    config.input_path = p.clone();
                                }
                                _ => (),
                            }
                        }
                    }
                    _ => (),
                },
                _ => (),
            }
        }
        match crate::value::obj_find(&self.sinks, "ocsf_output") {
            Some(JsonVal::Obj(t)) => match crate::value::obj_find(t, "path") {
                Some(JsonVal::Str(p)) => {
                    config.output_path = parent_dir_exec(p.as_str());
                }
                _ => (),
            },
            _ => (),
        }
        config
    }
}

} // verus!
