//! Input validation and file-name selection. File-system facts (whether
//! a path exists, whether it is a file) are I/O and come in as plain
//! booleans from the caller; everything else is checked here, with glob
//! pattern matching behind its trusted wrappers.

use vstd::prelude::*;

use crate::error::TransformError;
use crate::runtime::script_compiles;
use crate::text::{ascii_lower, is_blank, line_is_blank, str_eq, to_ascii_lower};

verus! {

/// Whether `glob::Pattern::new` accepts the pattern text: acceptance is
/// a function of the text alone.
pub uninterp spec fn glob_pattern_ok(p: Seq<char>) -> bool;

/// Whether the pattern matches the name, for a pattern the compiler
/// accepts: matching is a function of the two texts alone.
pub uninterp spec fn glob_matches(p: Seq<char>, name: Seq<char>) -> bool;

/// Relies on `glob::Pattern::new`: whether the pattern text compiles.
#[verifier::external_body]
fn pattern_ok(p: &str) -> (r: bool)
    ensures
        r == glob_pattern_ok(p@),
{
    glob::Pattern::new(p).is_ok()
}

/// Relies on `glob::Pattern::new` and `glob::Pattern::matches`: whether
/// the pattern matches the name; a pattern that does not compile matches
/// nothing.
#[verifier::external_body]
fn pattern_matches(p: &str, name: &str) -> (r: bool)
    ensures
        glob_pattern_ok(p@) ==> r == glob_matches(p@, name@),
        !glob_pattern_ok(p@) ==> r == false,
{
    glob::Pattern::new(p).map(|pat| pat.matches(name)).unwrap_or(false)
}

/// Whether some pattern in the list compiles and matches the name.
pub open spec fn any_pattern_matches(patterns: Seq<String>, name: Seq<char>) -> bool {
    exists|i: int|
        0 <= i < patterns.len() && glob_pattern_ok(patterns[i]@) && glob_matches(
            patterns[i]@,
            name,
        )
}

/// Reads files and selects which directory entries to process.
pub struct FileReader;

impl FileReader {
    /// Whether a file name passes the include/exclude patterns: exclude
    /// patterns are checked first; an empty include list admits every
    /// file not excluded.
    pub fn should_process_file(
        file_name: &str,
        include_patterns: &Vec<String>,
        exclude_patterns: &Vec<String>,
    ) -> (r: bool)
        ensures
            r == (!any_pattern_matches(exclude_patterns@, file_name@) && (
            include_patterns@.len() == 0 || any_pattern_matches(include_patterns@, file_name@))),
    {
        let ne = exclude_patterns.len();
        let mut i: usize = 0;
        while i < ne
            invariant
                i <= ne,
                ne == exclude_patterns.len(),
                forall|j: int| 0 <= j < i ==> !(glob_pattern_ok(
                    (#[trigger] exclude_patterns@[j])@,
                ) && glob_matches(exclude_patterns@[j]@, file_name@)),
            decreases ne - i,
        {
            if pattern_matches(exclude_patterns[i].as_str(), file_name) {
                return false;
            }
            i = i + 1;
        }
        if include_patterns.len() == 0 {
            return true;
        }
        let ni = include_patterns.len();
        let mut k: usize = 0;
        while k < ni
            invariant
                k <= ni,
                ni == include_patterns.len(),
                !any_pattern_matches(exclude_patterns@, file_name@),
                forall|j: int| 0 <= j < k ==> !(glob_pattern_ok(
                    (#[trigger] include_patterns@[j])@,
                ) && glob_matches(include_patterns@[j]@, file_name@)),
            decreases ni - k,
        {
            if pattern_matches(include_patterns[k].as_str(), file_name) {
                return true;
            }
            k = k + 1;
        }
        false
    }
}

/// The extension of a path's text: the text after the last `.` of the
/// file name, provided that dot neither leads the name nor is missing.
pub open spec fn ext_of(s: Seq<char>) -> Option<Seq<char>>
    decreases s.len(),
{
    if s.len() == 0 {
        None
    } else if s[s.len() - 1] == '/' {
        None
    } else if s[s.len() - 1] == '.' {
        if s.len() == 1 || s[s.len() - 2] == '/' {
            None
        } else {
            Some(Seq::empty())
        }
    } else {
        match ext_of(s.subrange(0, s.len() - 1)) {
            Some(e) => Some(e.push(s[s.len() - 1])),
            None => None,
        }
    }
}

/// Scanning back from `k+1`: when the characters after `k` are plain and
/// the character at `k` decides, the extension follows from that point.
proof fn lemma_ext_of_scan(s: Seq<char>, k: int)
    requires
        0 <= k < s.len(),
        forall|j: int| k < j < s.len() ==> s[j] != '.' && s[j] != '/',
    ensures
        s[k] == '/' ==> ext_of(s) is None,
        (s[k] == '.' && (k == 0 || s[k - 1] == '/')) ==> ext_of(s) is None,
        (s[k] == '.' && k > 0 && s[k - 1] != '/') ==> ext_of(s) == Some(
            s.subrange(k + 1, s.len() as int),
        ),
    decreases s.len() - k,
{
    if k == s.len() - 1 {
        if s[k] == '.' && k > 0 && s[k - 1] != '/' {
            assert(s.subrange(k + 1, s.len() as int) =~= Seq::<char>::empty());
        }
    } else {
        let shorter = s.subrange(0, s.len() - 1);
        assert(forall|j: int| k < j < shorter.len() ==> shorter[j] != '.' && shorter[j] != '/');
        assert(shorter[k] == s[k]);
        if k > 0 {
            assert(shorter[k - 1] == s[k - 1]);
        }
        lemma_ext_of_scan(shorter, k);
        if s[k] == '.' && k > 0 && s[k - 1] != '/' {
            assert(shorter.subrange(k + 1, shorter.len() as int).push(s[s.len() - 1]) =~= s.subrange(
                k + 1,
                s.len() as int,
            ));
        }
    }
}

/// A path whose tail holds neither dot nor slash has no extension.
proof fn lemma_ext_of_none(s: Seq<char>)
    requires
        forall|j: int| 0 <= j < s.len() ==> s[j] != '.' && s[j] != '/',
    ensures
        ext_of(s) is None,
    decreases s.len(),
{
    if s.len() > 0 {
        lemma_ext_of_none(s.subrange(0, s.len() - 1));
    }
}

/// The extension of a path's text, as an owned string.
pub fn extension_of(s: &str) -> (r: Option<String>)
    ensures
        match r {
            Some(e) => ext_of(s@) == Some(e@),
            None => ext_of(s@) is None,
        },
{
    let n = s.unicode_len();
    let mut i: usize = n;
    while i > 0
        invariant
            i <= n,
            n as nat == s@.len(),
            forall|j: int| i <= j < n ==> s@[j] != '.' && s@[j] != '/',
        decreases i,
    {
        let c = s.get_char(i - 1);
        if c == '/' {
            proof {
                lemma_ext_of_scan(s@, i - 1);
            }
            return None;
        }
        if c == '.' {
            if i == 1 {
                proof {
                    lemma_ext_of_scan(s@, 0);
                }
                return None;
            }
            let before = s.get_char(i - 2);
            if before == '/' {
                proof {
                    lemma_ext_of_scan(s@, i - 1);
                }
                return None;
            }
            let ext = s.substring_char(i, n);
            proof {
                lemma_ext_of_scan(s@, i - 1);
            }
            return Some(ext.to_owned());
        }
        i = i - 1;
    }
    proof {
        lemma_ext_of_none(s@);
    }
    None
}

/// Validates plain inputs. The file-system checks live with the caller
/// that owns the file system; it reports their outcome here.
pub struct InputValidator;

impl InputValidator {
    /// A script path is usable when it exists and is a regular file.
    pub fn validate_vrl_script_file(path: &str, exists: bool, is_file: bool) -> (r: Result<
        (),
        TransformError,
    >)
        ensures
            r is Ok <==> exists && is_file,
            r matches Err(e) ==> e@ is ValidationError,
    {
        if !exists {
            let mut m = String::new();
            m.append("VRL script file not found: ");
            m.append(path);
            return Err(TransformError::ValidationError(m));
        }
        if !is_file {
            let mut m = String::new();
            m.append("VRL script path is not a file: ");
            m.append(path);
            return Err(TransformError::ValidationError(m));
        }
        Ok(())
    }

    /// An input path is usable when it exists as a file or a directory.
    pub fn validate_input_path(path: &str, exists: bool, is_file: bool, is_dir: bool) -> (r:
        Result<(), TransformError>)
        ensures
            r is Ok <==> exists && (is_file || is_dir),
            r matches Err(e) ==> e@ is ValidationError,
    {
        if !exists {
            let mut m = String::new();
            m.append("Input path not found: ");
            m.append(path);
            return Err(TransformError::ValidationError(m));
        }
        if !is_file && !is_dir {
            let mut m = String::new();
            m.append("Input path is neither a file nor a directory: ");
            m.append(path);
            return Err(TransformError::ValidationError(m));
        }
        Ok(())
    }

    /// An output directory is usable when the probe the caller ran
    /// succeeded — creating the directory when the path was absent, or
    /// writing a test file into it when it already was a directory — and
    /// an existing path is in fact a directory.
    pub fn validate_output_path(path: &str, exists: bool, is_dir: bool, probe_ok: bool) -> (r:
        Result<(), TransformError>)
        ensures
            r is Ok <==> (exists ==> is_dir) && probe_ok,
            r matches Err(e) ==> e@ is ValidationError,
    {
        if exists && !is_dir {
            let mut m = String::new();
            m.append("Output path exists but is not a directory: ");
            m.append(path);
            return Err(TransformError::ValidationError(m));
        }
        if !probe_ok {
            let mut m = String::new();
            if exists {
                m.append("Output directory is not writable: ");
            } else {
                m.append("Cannot create output directory: ");
            }
            m.append(path);
            return Err(TransformError::ValidationError(m));
        }
        Ok(())
    }

    /// A configuration file is usable when it exists as a regular file
    /// whose extension, lowered, is one of `toml`, `yaml`, `yml`, `json`.
    pub fn validate_config_file(path: &str, exists: bool, is_file: bool) -> (r: Result<
        (),
        TransformError,
    >)
        ensures
            r is Ok <==> exists && is_file && (match ext_of(path@) {
                Some(e) => ascii_lower(e) == "toml"@ || ascii_lower(e) == "yaml"@ || ascii_lower(
                    e,
                ) == "yml"@ || ascii_lower(e) == "json"@,
                None => false,
            }),
            r matches Err(e) ==> e@ is ValidationError,
    {
        if !exists {
            return Err(
                TransformError::ValidationError("Configuration file not found".to_owned()),
            );
        }
        if !is_file {
            return Err(
                TransformError::ValidationError("Configuration path is not a file".to_owned()),
            );
        }
        match extension_of(path) {
            Some(e) => {
                let low = to_ascii_lower(e.as_str());
                if str_eq(low.as_str(), "toml") || str_eq(low.as_str(), "yaml") || str_eq(
                    low.as_str(),
                    "yml",
                ) || str_eq(low.as_str(), "json") {
                    Ok(())
                } else {
                    Err(
                        TransformError::ValidationError(
                            "Unsupported configuration file format".to_owned(),
                        ),
                    )
                }
            }
            None => Err(
                TransformError::ValidationError(
                    "Configuration file has no extension".to_owned(),
                ),
            ),
        }
    }

    /// Script text is usable when it is not blank and the engine's
    /// compiler accepts it.
    pub fn validate_vrl_script_content(script_content: &str) -> (r: Result<(), TransformError>)
        ensures
            r is Ok <==> !is_blank(script_content@) && script_compiles(script_content@),
            r matches Err(e) ==> e@ is ValidationError || e@ is CompileError,
    {
        if line_is_blank(script_content) {
            return Err(TransformError::ValidationError("VRL script content is empty".to_owned()));
        }
        crate::transformer::OcsfTransformer::validate_script(script_content)
    }

    /// A batch size is usable between 1 and 10000.
    pub fn validate_batch_size(batch_size: usize) -> (r: Result<(), TransformError>)
        ensures
            r is Ok <==> 1 <= batch_size <= 10000,
            r matches Err(e) ==> e@ is ValidationError,
    {
        if batch_size == 0 {
            return Err(
                TransformError::ValidationError("Batch size must be greater than 0".to_owned()),
            );
        }
        if batch_size > 10000 {
            return Err(TransformError::ValidationError("Batch size too large".to_owned()));
        }
        Ok(())
    }

    /// A watch interval is usable between 1 and 3600 seconds.
    pub fn validate_watch_interval(interval: u64) -> (r: Result<(), TransformError>)
        ensures
            r is Ok <==> 1 <= interval <= 3600,
            r matches Err(e) ==> e@ is ValidationError,
    {
        if interval == 0 {
            return Err(
                TransformError::ValidationError(
                    "Watch interval must be greater than 0 seconds".to_owned(),
                ),
            );
        }
        if interval > 3600 {
            return Err(TransformError::ValidationError("Watch interval too large".to_owned()));
        }
        Ok(())
    }

    /// A metrics port is usable from 1024 up.
    pub fn validate_metrics_port(port: u16) -> (r: Result<(), TransformError>)
        ensures
            r is Ok <==> port >= 1024,
            r matches Err(e) ==> e@ is ValidationError,
    {
        if port < 1024 {
            return Err(TransformError::ValidationError("Port number too low".to_owned()));
        }
        Ok(())
    }

    /// A log level is usable when, lowered, it is one of the five names.
    pub fn validate_log_level(level: &str) -> (r: Result<(), TransformError>)
        ensures
            r is Ok <==> (ascii_lower(level@) == "trace"@ || ascii_lower(level@) == "debug"@
                || ascii_lower(level@) == "info"@ || ascii_lower(level@) == "warn"@ || ascii_lower(
                level@,
            ) == "error"@),
            r matches Err(e) ==> e@ is ValidationError,
    {
        let low = to_ascii_lower(level);
        if str_eq(low.as_str(), "trace") || str_eq(low.as_str(), "debug") || str_eq(
            low.as_str(),
            "info",
        ) || str_eq(low.as_str(), "warn") || str_eq(low.as_str(), "error") {
            Ok(())
        } else {
            Err(TransformError::ValidationError("Invalid log level".to_owned()))
        }
    }

    /// File patterns are usable when every one compiles.
    pub fn validate_file_patterns(patterns: &Vec<String>) -> (r: Result<(), TransformError>)
        ensures
            r is Ok <==> (forall|i: int|
                0 <= i < patterns@.len() ==> glob_pattern_ok((#[trigger] patterns@[i])@)),
            r matches Err(e) ==> e@ is ValidationError,
    {
        let n = patterns.len();
        let mut i: usize = 0;
        while i < n
            invariant
                i <= n,
                n == patterns.len(),
                forall|j: int| 0 <= j < i ==> glob_pattern_ok((#[trigger] patterns@[j])@),
            decreases n - i,
        {
            if !pattern_ok(patterns[i].as_str()) {
                return Err(TransformError::ValidationError("Invalid file pattern".to_owned()));
            }
            i = i + 1;
        }
        Ok(())
    }

    /// Every check a transform run makes before work starts, in order:
    /// the script file, the input path, the output directory, the batch
    /// size; the first failing check's error is returned.
    pub fn validate_transform_params(
        vrl_script: &str,
        script_exists: bool,
        script_is_file: bool,
        input: &str,
        input_exists: bool,
        input_is_file: bool,
        input_is_dir: bool,
        output: &str,
        output_exists: bool,
        output_is_dir: bool,
        output_probe_ok: bool,
        batch_size: usize,
    ) -> (r: Result<(), TransformError>)
        ensures
            r is Ok <==> (script_exists && script_is_file && input_exists && (input_is_file
                || input_is_dir) && (output_exists ==> output_is_dir) && output_probe_ok && 1
                <= batch_size <= 10000),
            r matches Err(e) ==> e@ is ValidationError,
    {
        Self::validate_vrl_script_file(vrl_script, script_exists, script_is_file)?;
        Self::validate_input_path(input, input_exists, input_is_file, input_is_dir)?;
        Self::validate_output_path(output, output_exists, output_is_dir, output_probe_ok)?;
        Self::validate_batch_size(batch_size)?;
        Ok(())
    }

    /// Every check a watch run makes before work starts, in order: the
    /// script file, the input path, the output directory, the interval;
    /// the first failing check's error is returned.
    pub fn validate_watch_params(
        vrl_script: &str,
        script_exists: bool,
        script_is_file: bool,
        input: &str,
        input_exists: bool,
        input_is_file: bool,
        input_is_dir: bool,
        output: &str,
        output_exists: bool,
        output_is_dir: bool,
        output_probe_ok: bool,
        interval: u64,
    ) -> (r: Result<(), TransformError>)
        ensures
            r is Ok <==> (script_exists && script_is_file && input_exists && (input_is_file
                || input_is_dir) && (output_exists ==> output_is_dir) && output_probe_ok && 1
                <= interval <= 3600),
            r matches Err(e) ==> e@ is ValidationError,
    {
        Self::validate_vrl_script_file(vrl_script, script_exists, script_is_file)?;
        Self::validate_input_path(input, input_exists, input_is_file, input_is_dir)?;
        Self::validate_output_path(output, output_exists, output_is_dir, output_probe_ok)?;
        Self::validate_watch_interval(interval)?;
        Ok(())
    }

    /// A file's extension, lowered, must be among the expected ones.
    #[verifier::loop_isolation(false)]
    pub fn validate_file_type(file_path: &str, expected_extensions: &Vec<String>) -> (r: Result<
        (),
        TransformError,
    >)
        ensures
            r is Ok <==> (match ext_of(file_path@) {
                Some(e) => exists|i: int|
                    0 <= i < expected_extensions@.len() && ascii_lower(e) == (
                    #[trigger] expected_extensions@[i])@,
                None => false,
            }),
            r matches Err(e) ==> e@ is ValidationError,
    {
        match extension_of(file_path) {
            Some(e) => {
                let low = to_ascii_lower(e.as_str());
                let n = expected_extensions.len();
                let mut i: usize = 0;
                while i < n
                    invariant
                        i <= n,
                        n == expected_extensions.len(),
                        low@ == ascii_lower(ext_of(file_path@)->0),
                        forall|j: int| 0 <= j < i ==> low@ != (
                        #[trigger] expected_extensions@[j])@,
                    decreases n - i,
                {
                    if str_eq(low.as_str(), expected_extensions[i].as_str()) {
                        proof {
                            let w = i as int;
                            assert(0 <= w < expected_extensions@.len() && ascii_lower(
                                ext_of(file_path@)->0,
                            ) == (#[trigger] expected_extensions@[w])@);
                        }
                        return Ok(());
                    }
                    i = i + 1;
                }
                Err(TransformError::ValidationError("Unexpected file type".to_owned()))
            }
            None => Err(TransformError::ValidationError("File has no extension".to_owned())),
        }
    }
}

/// The joined reading of a list of findings, `; `-separated.
pub open spec fn joined_text(s: Seq<String>) -> Seq<char>
    decreases s.len(),
{
    if s.len() == 0 {
        Seq::empty()
    } else if s.len() == 1 {
        s[0]@
    } else {
        s[0]@ + "; "@ + joined_text(s.subrange(1, s.len() as int))
    }
}

proof fn lemma_joined_text_snoc(s: Seq<String>, x: String)
    ensures
        joined_text(s.push(x)) == if s.len() == 0 {
            x@
        } else {
            joined_text(s) + "; "@ + x@
        },
    decreases s.len(),
{
    let full = s.push(x);
    if s.len() == 0 {
        assert(full.len() == 1);
        assert(full[0] == x);
    } else {
        assert(full.subrange(1, full.len() as int) =~= s.subrange(1, s.len() as int).push(x));
        lemma_joined_text_snoc(s.subrange(1, s.len() as int), x);
        assert(joined_text(full) =~= joined_text(s) + "; "@ + x@);
    }
}

/// The collected findings of one validation pass: errors make it
/// invalid, warnings do not.
#[derive(Debug, Clone, PartialEq)]
pub struct ValidationResult {
    pub is_valid: bool,
    pub errors: Vec<String>,
    pub warnings: Vec<String>,
}

impl ValidationResult {
    /// A fresh, valid result with no findings.
    pub fn new() -> (r: Self)
        ensures
            r.is_valid == true,
            r.errors@.len() == 0,
            r.warnings@.len() == 0,
    {
        ValidationResult { is_valid: true, errors: Vec::new(), warnings: Vec::new() }
    }

    /// Records an error; the result turns invalid.
    pub fn add_error(&mut self, error: &str)
        ensures
            final(self).is_valid == false,
            final(self).errors@.len() == old(self).errors@.len() + 1,
            final(self).errors@.last()@ == error@,
            final(self).warnings == old(self).warnings,
    {
        self.errors.push(error.to_owned());
        self.is_valid = false;
    }

    /// Records a warning; validity is untouched.
    pub fn add_warning(&mut self, warning: &str)
        ensures
            final(self).is_valid == old(self).is_valid,
            final(self).warnings@.len() == old(self).warnings@.len() + 1,
            final(self).warnings@.last()@ == warning@,
            final(self).errors == old(self).errors,
    {
        self.warnings.push(warning.to_owned());
    }

    /// Whether validation passed.
    pub fn is_ok(&self) -> (r: bool)
        ensures
            r == self.is_valid,
    {
        self.is_valid
    }

    /// Every error joined into one line.
    pub fn error_summary(&self) -> (r: String)
        ensures
            r@ == joined_text(self.errors@),
    {
        join_strings(&self.errors)
    }

    /// Every warning joined into one line.
    pub fn warning_summary(&self) -> (r: String)
        ensures
            r@ == joined_text(self.warnings@),
    {
        join_strings(&self.warnings)
    }
}

impl Default for ValidationResult {
    fn default() -> (r: Self)
        ensures
            r.is_valid == true,
            r.errors@.len() == 0,
            r.warnings@.len() == 0,
    {
        ValidationResult::new()
    }
}

/// Joins strings with `; ` between them.
#[verifier::loop_isolation(false)]
fn join_strings(parts: &Vec<String>) -> (r: String)
    ensures
        r@ == joined_text(parts@),
{
    let mut out = String::new();
    let n = parts.len();
    let mut i: usize = 0;
    while i < n
        invariant
            i <= n,
            out@ == joined_text(parts@.subrange(0, i as int)),
        decreases n - i,
    {
        if i > 0 {
            out.append("; ");
        }
        out.append(parts[i].as_str());
        proof {
            assert(parts@.subrange(0, i + 1) =~= parts@.subrange(0, i as int).push(
                parts@[i as int],
            ));
            lemma_joined_text_snoc(parts@.subrange(0, i as int), parts@[i as int]);
        }
        i = i + 1;
    }
    proof {
        assert(parts@.subrange(0, n as int) =~= parts@);
    }
    out
}

} // verus!
