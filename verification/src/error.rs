//! The error taxonomy of the pipeline, with verified message rendering.
//! Configuration errors are fatal before processing starts; compile
//! errors are fatal only for the initial load; execution, schema and
//! per-file read errors are per-record or per-file and follow the
//! skip-or-abort policy.

use vstd::prelude::*;

use crate::text::{dec_nat, push_dec_u64};

verus! {

/// One failure, tagged by the stage that produced it.
#[derive(Debug, PartialEq)]
pub enum TransformError {
    /// The script engine refused to compile the transformation script.
    CompileError(String),
    /// The installed program failed on one record.
    TransformError(String),
    /// The transformation output did not parse into the output schema.
    ParseError(String),
    /// A file could not be read or written.
    IoError(String),
    /// The run's configuration is unusable.
    ConfigError(String),
    /// An input failed validation.
    ValidationError(String),
    /// The file-watch subsystem failed.
    WatchError(String),
    /// The metrics subsystem failed.
    MetricsError(String),
    /// Anything else.
    Unknown(String),
}

/// The mathematical mirror of [`TransformError`].
pub enum TransformErrorV {
    CompileError(Seq<char>),
    TransformError(Seq<char>),
    ParseError(Seq<char>),
    IoError(Seq<char>),
    ConfigError(Seq<char>),
    ValidationError(Seq<char>),
    WatchError(Seq<char>),
    MetricsError(Seq<char>),
    Unknown(Seq<char>),
}

impl View for TransformError {
    type V = TransformErrorV;

    open spec fn view(&self) -> TransformErrorV {
        match self {
            TransformError::CompileError(m) => TransformErrorV::CompileError(m@),
            TransformError::TransformError(m) => TransformErrorV::TransformError(m@),
            TransformError::ParseError(m) => TransformErrorV::ParseError(m@),
            TransformError::IoError(m) => TransformErrorV::IoError(m@),
            TransformError::ConfigError(m) => TransformErrorV::ConfigError(m@),
            TransformError::ValidationError(m) => TransformErrorV::ValidationError(m@),
            TransformError::WatchError(m) => TransformErrorV::WatchError(m@),
            TransformError::MetricsError(m) => TransformErrorV::MetricsError(m@),
            TransformError::Unknown(m) => TransformErrorV::Unknown(m@),
        }
    }
}

/// The one-line reading of an error: a stage prefix and its detail.
pub open spec fn error_text(e: TransformErrorV) -> Seq<char> {
    match e {
        TransformErrorV::CompileError(m) => "Script compilation error: "@ + m,
        TransformErrorV::TransformError(m) => "Transformation error: "@ + m,
        TransformErrorV::ParseError(m) => "Parse error: "@ + m,
        TransformErrorV::IoError(m) => "IO error: "@ + m,
        TransformErrorV::ConfigError(m) => "Configuration error: "@ + m,
        TransformErrorV::ValidationError(m) => "Validation error: "@ + m,
        TransformErrorV::WatchError(m) => "Watch error: "@ + m,
        TransformErrorV::MetricsError(m) => "Metrics error: "@ + m,
        TransformErrorV::Unknown(m) => "Unknown error: "@ + m,
    }
}

impl Clone for TransformError {
    fn clone(&self) -> (r: Self)
        ensures
            r@ == self@,
    {
        match self {
            TransformError::CompileError(m) => TransformError::CompileError(m.clone()),
            TransformError::TransformError(m) => TransformError::TransformError(m.clone()),
            TransformError::ParseError(m) => TransformError::ParseError(m.clone()),
            TransformError::IoError(m) => TransformError::IoError(m.clone()),
            TransformError::ConfigError(m) => TransformError::ConfigError(m.clone()),
            TransformError::ValidationError(m) => TransformError::ValidationError(m.clone()),
            TransformError::WatchError(m) => TransformError::WatchError(m.clone()),
            TransformError::MetricsError(m) => TransformError::MetricsError(m.clone()),
            TransformError::Unknown(m) => TransformError::Unknown(m.clone()),
        }
    }
}

impl TransformError {
    /// The error's one-line reading.
    #[verifier::rlimit(60)]
    pub fn message(&self) -> (r: String)
        ensures
            r@ == error_text(self@),
    {
        let mut out = String::new();
        match self {
            TransformError::CompileError(m) => {
                out.append("Script compilation error: ");
                out.append(m.as_str());
            }
            TransformError::TransformError(m) => {
                out.append("Transformation error: ");
                out.append(m.as_str());
            }
            TransformError::ParseError(m) => {
                out.append("Parse error: ");
                out.append(m.as_str());
            }
            TransformError::IoError(m) => {
                out.append("IO error: ");
                out.append(m.as_str());
            }
            TransformError::ConfigError(m) => {
                out.append("Configuration error: ");
                out.append(m.as_str());
            }
            TransformError::ValidationError(m) => {
                out.append("Validation error: ");
                out.append(m.as_str());
            }
            TransformError::WatchError(m) => {
                out.append("Watch error: ");
                out.append(m.as_str());
            }
            TransformError::MetricsError(m) => {
                out.append("Metrics error: ");
                out.append(m.as_str());
            }
            TransformError::Unknown(m) => {
                out.append("Unknown error: ");
                out.append(m.as_str());
            }
        }
        out
    }
}

/// Result type used across the crate for operations that may fail with a
/// [`TransformError`].
pub type TransformResult<T> = Result<T, TransformError>;

/// Declares the standard library's I/O error type, so file-system
/// failures can be wrapped into the taxonomy.
#[verifier::external_type_specification]
#[verifier::external_body]
pub struct ExIoError(std::io::Error);

impl From<std::io::Error> for TransformError {
    /// Wraps a file-system error's text as an `IoError`.
    fn from(e: std::io::Error) -> (r: Self) {
        TransformError::IoError(e.to_string())
    }
}

impl vstd::std_specs::convert::FromSpecImpl<std::io::Error> for TransformError {
    open spec fn obeys_from_spec() -> bool {
        false
    }

    open spec fn from_spec(e: std::io::Error) -> TransformError {
        TransformError::Unknown(vstd::pervasive::arbitrary())
    }
}

/// The outcome counts and per-line failures of one batch.
#[derive(Debug)]
pub struct BatchError {
    pub successful: usize,
    pub failed: usize,
    pub errors: Vec<(usize, TransformError)>,
}

/// One `  Line N: <error>` line.
pub open spec fn batch_error_line(idx: int, e: TransformErrorV) -> Seq<char> {
    "  Line "@ + dec_nat(idx as nat) + ": "@ + error_text(e) + seq!['\n']
}

/// The per-line failure lines, in order.
pub open spec fn batch_error_lines(s: Seq<(usize, TransformErrorV)>) -> Seq<char>
    decreases s.len(),
{
    if s.len() == 0 {
        Seq::empty()
    } else {
        batch_error_line(s[0].0 as int, s[0].1) + batch_error_lines(s.subrange(1, s.len() as int))
    }
}

/// Extending the failure list appends one line.
proof fn lemma_batch_error_lines_snoc(s: Seq<(usize, TransformErrorV)>, x: (usize, TransformErrorV))
    ensures
        batch_error_lines(s.push(x)) == batch_error_lines(s) + batch_error_line(x.0 as int, x.1),
    decreases s.len(),
{
    let full = s.push(x);
    if s.len() == 0 {
        assert(full.subrange(1, 1) =~= Seq::<(usize, TransformErrorV)>::empty());
        assert(batch_error_lines(Seq::<(usize, TransformErrorV)>::empty())
            =~= Seq::<char>::empty());
        assert(batch_error_lines(full) =~= batch_error_lines(s) + batch_error_line(
            x.0 as int,
            x.1,
        ));
    } else {
        assert(full.subrange(1, full.len() as int) =~= s.subrange(1, s.len() as int).push(x));
        lemma_batch_error_lines_snoc(s.subrange(1, s.len() as int), x);
        assert(batch_error_lines(full) =~= batch_error_lines(s) + batch_error_line(
            x.0 as int,
            x.1,
        ));
    }
}

/// The whole reading of a batch failure: the counts line, then, when any
/// per-line failure was recorded, an `Errors:` block.
pub open spec fn batch_error_text(
    successful: int,
    failed: int,
    errors: Seq<(usize, TransformErrorV)>,
) -> Seq<char> {
    "Batch processing failed: "@ + dec_nat(successful as nat) + " successful, "@ + dec_nat(
        failed as nat,
    ) + " failed"@ + if errors.len() == 0 {
        Seq::<char>::empty()
    } else {
        "\nErrors:\n"@ + batch_error_lines(errors)
    }
}

pub open spec fn batch_errors_view(s: Seq<(usize, TransformError)>) -> Seq<
    (usize, TransformErrorV),
>
    decreases s.len(),
{
    if s.len() == 0 {
        Seq::empty()
    } else {
        seq![(s[0].0, s[0].1@)] + batch_errors_view(s.subrange(1, s.len() as int))
    }
}

/// `batch_errors_view` maps the list pointwise.
proof fn lemma_batch_errors_view(s: Seq<(usize, TransformError)>)
    ensures
        batch_errors_view(s).len() == s.len(),
        forall|i: int| 0 <= i < s.len() ==> batch_errors_view(s)[i] == (s[i].0, s[i].1@),
    decreases s.len(),
{
    if s.len() > 0 {
        lemma_batch_errors_view(s.subrange(1, s.len() as int));
    }
}

impl BatchError {
    /// The multi-line reading of the batch failure.
    #[verifier::loop_isolation(false)]
    pub fn message(&self) -> (r: String)
        ensures
            r@ == batch_error_text(
                self.successful as int,
                self.failed as int,
                batch_errors_view(self.errors@),
            ),
    {
        proof {
            lemma_batch_errors_view(self.errors@);
        }
        let mut out = String::new();
        out.append("Batch processing failed: ");
        push_dec_u64(&mut out, self.successful as u64);
        out.append(" successful, ");
        push_dec_u64(&mut out, self.failed as u64);
        out.append(" failed");
        if self.errors.len() > 0 {
            out.append("\nErrors:\n");
            let ghost evs = batch_errors_view(self.errors@);
            let ghost base = out@;
            let n = self.errors.len();
            let mut i: usize = 0;
            while i < n
                invariant
                    i <= n,
                    out@ == base + batch_error_lines(evs.subrange(0, i as int)),
                decreases n - i,
            {
                out.append("  Line ");
                push_dec_u64(&mut out, self.errors[i].0 as u64);
                out.append(": ");
                let m = self.errors[i].1.message();
                out.append(m.as_str());
                out.push('\n');
                proof {
                    assert(evs.subrange(0, i + 1) =~= evs.subrange(0, i as int).push(
                        evs[i as int],
                    ));
                    lemma_batch_error_lines_snoc(evs.subrange(0, i as int), evs[i as int]);
                }
                i = i + 1;
            }
            proof {
                assert(evs.subrange(0, n as int) =~= evs);
            }
        }
        out
    }
}

/// One validation finding.
#[derive(Debug, Clone, PartialEq)]
pub struct ValidationErrorDetail {
    pub field: String,
    pub message: String,
    pub line_number: Option<usize>,
}

/// One finding's line: with a line number when one is known.
pub open spec fn validation_detail_line(
    field: Seq<char>,
    message: Seq<char>,
    line_number: Option<usize>,
) -> Seq<char> {
    match line_number {
        Some(l) => "  Line "@ + dec_nat(l as nat) + ": "@ + field + " - "@ + message
            + seq!['\n'],
        None => "  "@ + field + " - "@ + message + seq!['\n'],
    }
}

pub open spec fn validation_detail_view(d: ValidationErrorDetail) -> Seq<char> {
    validation_detail_line(d.field@, d.message@, d.line_number)
}

pub open spec fn validation_lines(s: Seq<ValidationErrorDetail>) -> Seq<char>
    decreases s.len(),
{
    if s.len() == 0 {
        Seq::empty()
    } else {
        validation_detail_view(s[0]) + validation_lines(s.subrange(1, s.len() as int))
    }
}

proof fn lemma_validation_lines_snoc(s: Seq<ValidationErrorDetail>, x: ValidationErrorDetail)
    ensures
        validation_lines(s.push(x)) == validation_lines(s) + validation_detail_view(x),
    decreases s.len(),
{
    let full = s.push(x);
    if s.len() == 0 {
        assert(full.subrange(1, 1) =~= Seq::<ValidationErrorDetail>::empty());
        assert(validation_lines(Seq::<ValidationErrorDetail>::empty()) =~= Seq::<char>::empty());
        assert(validation_lines(full) =~= validation_lines(s) + validation_detail_view(x));
    } else {
        assert(full.subrange(1, full.len() as int) =~= s.subrange(1, s.len() as int).push(x));
        lemma_validation_lines_snoc(s.subrange(1, s.len() as int), x);
        assert(validation_lines(full) =~= validation_lines(s) + validation_detail_view(x));
    }
}

/// The collected findings of one validation pass.
#[derive(Debug)]
pub struct ValidationErrors {
    pub errors: Vec<ValidationErrorDetail>,
}

/// The whole reading: a count line, then one line per finding.
pub open spec fn validation_errors_text(s: Seq<ValidationErrorDetail>) -> Seq<char> {
    "Validation failed with "@ + dec_nat(s.len()) + " errors:\n"@ + validation_lines(s)
}

impl ValidationErrors {
    /// The multi-line reading of the findings.
    #[verifier::loop_isolation(false)]
    #[verifier::rlimit(100)]
    pub fn message(&self) -> (r: String)
        ensures
            r@ == validation_errors_text(self.errors@),
    {
        let mut out = String::new();
        out.append("Validation failed with ");
        push_dec_u64(&mut out, self.errors.len() as u64);
        out.append(" errors:\n");
        let ghost base = out@;
        let n = self.errors.len();
        let mut i: usize = 0;
        while i < n
            invariant
                i <= n,
                out@ == base + validation_lines(self.errors@.subrange(0, i as int)),
            decreases n - i,
        {
            match &self.errors[i].line_number {
                Some(l) => {
                    out.append("  Line ");
                    push_dec_u64(&mut out, *l as u64);
                    out.append(": ");
                    out.append(self.errors[i].field.as_str());
                    out.append(" - ");
                    out.append(self.errors[i].message.as_str());
                    out.push('\n');
                }
                None => {
                    out.append("  ");
                    out.append(self.errors[i].field.as_str());
                    out.append(" - ");
                    out.append(self.errors[i].message.as_str());
                    out.push('\n');
                }
            }
            proof {
                assert(self.errors@.subrange(0, i + 1) =~= self.errors@.subrange(0, i as int).push(
                    self.errors@[i as int],
                ));
                lemma_validation_lines_snoc(
                    self.errors@.subrange(0, i as int),
                    self.errors@[i as int],
                );
            }
            i = i + 1;
        }
        proof {
            assert(self.errors@.subrange(0, n as int) =~= self.errors@);
        }
        out
    }
}

} // verus!
