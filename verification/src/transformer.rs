//! The transformation engine and batch policy: one log line in, one OCSF
//! record or one explicit failure out; batches preserve input order and
//! produce exactly one result per line; the skip-or-abort policy is one
//! decision function shared by every batch path.
//!
//! The handle is owned by value here. The embedding that shares it across
//! tasks guards it read-mostly and swaps it atomically; the contracts
//! below give that swap its meaning — a failed reload leaves the handle
//! exactly as it was.

use vstd::prelude::*;

use crate::config::TransformerConfig;
use crate::convert::{
    from_native_v, log_event_to_vrl_value, parse_event_v, parse_ocsf_event, vrl_value_to_serde_json,
};
use crate::error::{TransformError, TransformErrorV};
use crate::ocsf::OcsfEvent;
use crate::runtime::{script_compiles, VrlRuntime};
use crate::text::{is_blank, line_is_blank};
use crate::types::LogEvent;
use crate::value::NativeValV;

verus! {

/// What an engine outcome may read back as once parsed: some native
/// value whose JSON reading fits the event schema. The program's outcome
/// is ambient in this model (it may read the clock or the environment),
/// so this existential constrains only the schema fit of a success —
/// essentially any schema-valid record satisfies it; the exact
/// record-for-value statement lives on `parse_ocsf_event`, which takes
/// the engine's outcome as an argument.
pub open spec fn is_transform_output(ev: crate::ocsf::OcsfEventV) -> bool {
    exists|out: NativeValV| parse_event_v(from_native_v(out)) == Some(ev)
}

/// A per-record failure: the engine refused the record or its output did
/// not fit the schema.
pub open spec fn is_record_failure(e: TransformErrorV) -> bool {
    e is TransformError || e is ParseError
}

/// The transformation engine: the compiled-program handle plus the run
/// configuration.
pub struct OcsfTransformer {
    runtime: VrlRuntime,
    config: TransformerConfig,
}

impl OcsfTransformer {
    /// The script text the installed program was compiled from.
    pub closed spec fn spec_script(&self) -> Seq<char> {
        self.runtime.spec_script()
    }

    /// Whether batch processing skips per-line failures.
    pub closed spec fn spec_skip_errors(&self) -> bool {
        self.config.skip_errors
    }

    /// Builds an engine from a script text under the default settings;
    /// fails with the compiler's diagnostics exactly when the engine
    /// refuses the script.
    pub fn with_script(vrl_script: String) -> (r: Result<Self, TransformError>)
        ensures
            r is Ok <==> script_compiles(vrl_script@),
            r matches Ok(t) ==> t.spec_script() == vrl_script@ && t.spec_skip_errors() == true,
            r matches Err(e) ==> e@ is CompileError,
    {
        match VrlRuntime::new(vrl_script.as_str()) {
            Ok(runtime) => Ok(
                OcsfTransformer { runtime, config: TransformerConfig::default() },
            ),
            Err(e) => Err(TransformError::CompileError(e)),
        }
    }

    /// Builds an engine from a script text and explicit settings.
    pub fn with_config(config: TransformerConfig, vrl_script: String) -> (r: Result<
        Self,
        TransformError,
    >)
        ensures
            r is Ok <==> script_compiles(vrl_script@),
            r matches Ok(t) ==> t.spec_script() == vrl_script@ && t.spec_skip_errors()
                == config.skip_errors,
            r matches Err(e) ==> e@ is CompileError,
    {
        match VrlRuntime::new(vrl_script.as_str()) {
            Ok(runtime) => Ok(OcsfTransformer { runtime, config }),
            Err(e) => Err(TransformError::CompileError(e)),
        }
    }

    /// Transforms one event: embeds it as a native value, runs the
    /// installed program, reads the outcome back, and parses it into an
    /// event record. Whatever the engine returned, a success is a value
    /// that fits the schema, and the handle is left unchanged.
    pub fn transform_event(&mut self, event: LogEvent) -> (r: Result<OcsfEvent, TransformError>)
        ensures
            *final(self) == *old(self),
            r matches Ok(ev) ==> is_transform_output(ev@),
            r matches Err(e) ==> is_record_failure(e@),
    {
        let native = log_event_to_vrl_value(event);
        let out = match self.runtime.transform(native) {
            Ok(v) => v,
            Err(e) => {
                return Err(TransformError::TransformError(e));
            }
        };
        let json = vrl_value_to_serde_json(out);
        match parse_ocsf_event(&json) {
            Ok(ev) => Ok(ev),
            Err(e) => Err(e),
        }
    }

    /// Transforms one raw log line: the line is wrapped as an event with
    /// empty metadata.
    pub fn transform_line(&mut self, log_line: &str) -> (r: Result<OcsfEvent, TransformError>)
        ensures
            *final(self) == *old(self),
            r matches Ok(ev) ==> is_transform_output(ev@),
            r matches Err(e) ==> is_record_failure(e@),
    {
        let event = LogEvent::new(log_line);
        self.transform_event(event)
    }

    /// Transforms a batch of lines: exactly one result per input line,
    /// in input order — result `i` is produced by running the installed
    /// program on line `i`. Because the program's outcome is ambient,
    /// the contract can tie results to lines only by position and count;
    /// which record a given line yields is not statable here.
    pub fn transform_batch(&mut self, log_lines: Vec<String>) -> (r: Vec<
        Result<OcsfEvent, TransformError>,
    >)
        ensures
            *final(self) == *old(self),
            r@.len() == log_lines@.len(),
            forall|i: int| 0 <= i < r@.len() ==> (match #[trigger] r@[i] {
                Ok(ev) => is_transform_output(ev@),
                Err(e) => is_record_failure(e@),
            }),
    {
        let mut results: Vec<Result<OcsfEvent, TransformError>> = Vec::new();
        let n = log_lines.len();
        let mut i: usize = 0;
        while i < n
            invariant
                i <= n,
                n == log_lines.len(),
                *self == *old(self),
                results@.len() == i,
                forall|j: int| 0 <= j < i ==> (match #[trigger] results@[j] {
                    Ok(ev) => is_transform_output(ev@),
                    Err(e) => is_record_failure(e@),
                }),
            decreases n - i,
        {
            let line = log_lines[i].clone();
            results.push(self.transform_line(line.as_str()));
            i = i + 1;
        }
        results
    }

    /// How many of the lines are non-blank.
    pub open spec fn count_nonblank(lines: Seq<String>) -> int
        decreases lines.len(),
    {
        if lines.len() == 0 {
            0
        } else {
            (if is_blank(lines[0]@) {
                0int
            } else {
                1int
            }) + Self::count_nonblank(lines.subrange(1, lines.len() as int))
        }
    }

    /// Processes the lines of one file: blank lines are skipped, each
    /// other line is transformed, and the records come out in the order
    /// of the lines that produced them (the loop appends in line order;
    /// with the ambient engine, order is carried by construction rather
    /// than by a per-line clause). Under the skip policy failures are
    /// bypassed and processing always succeeds; an input of only blank
    /// lines is an empty success under either policy, since nothing is
    /// handed to the engine; under the abort policy the first failure is
    /// returned and a success holds one record per non-blank line.
    #[verifier::loop_isolation(false)]
    pub fn process_lines(&mut self, lines: &Vec<String>) -> (r: Result<
        Vec<OcsfEvent>,
        TransformError,
    >)
        ensures
            *final(self) == *old(self),
            old(self).spec_skip_errors() ==> r is Ok,
            Self::count_nonblank(lines@) == 0 ==> r is Ok,
            r matches Ok(evs) ==> evs@.len() <= Self::count_nonblank(lines@) && (forall|i: int|
                0 <= i < evs@.len() ==> is_transform_output(#[trigger] evs@[i]@)),
            !old(self).spec_skip_errors() ==> (r matches Ok(evs) ==> evs@.len()
                == Self::count_nonblank(lines@)),
            r matches Err(e) ==> !old(self).spec_skip_errors() && is_record_failure(e@),
    {
        let mut events: Vec<OcsfEvent> = Vec::new();
        let n = lines.len();
        let mut i: usize = 0;
        let skip = self.config.skip_errors;
        proof {
            assert(skip == old(self).spec_skip_errors());
        }
        while i < n
            invariant
                i <= n,
                *self == *old(self),
                skip == old(self).spec_skip_errors(),
                events@.len() <= Self::count_nonblank(lines@.subrange(0, i as int)),
                !skip ==> events@.len() == Self::count_nonblank(lines@.subrange(0, i as int)),
                forall|j: int| 0 <= j < events@.len() ==> is_transform_output(
                    #[trigger] events@[j]@,
                ),
            decreases n - i,
        {
            proof {
                lemma_count_nonblank_snoc(lines@.subrange(0, i as int), lines@[i as int]);
                assert(lines@.subrange(0, i + 1) =~= lines@.subrange(0, i as int).push(
                    lines@[i as int],
                ));
                lemma_count_nonblank_bounds(lines@.subrange(0, i + 1));
            }
            if !line_is_blank(lines[i].as_str()) {
                match self.transform_line(lines[i].as_str()) {
                    Ok(ev) => {
                        events.push(ev);
                    }
                    Err(e) => {
                        if !skip {
                            proof {
                                lemma_count_nonblank_at(lines@, i as int);
                            }
                            return Err(e);
                        }
                    }
                }
            }
            i = i + 1;
        }
        proof {
            assert(lines@.subrange(0, n as int) =~= lines@);
        }
        Ok(events)
    }

    /// Replaces the installed program with one compiled from the new
    /// script. A failed compilation leaves the handle exactly as it was,
    /// still servicing calls against the previously installed program.
    pub fn reload_script(&mut self, vrl_script: &str) -> (r: Result<(), TransformError>)
        ensures
            r is Ok <==> script_compiles(vrl_script@),
            r is Ok ==> final(self).spec_script() == vrl_script@ && final(self).spec_skip_errors()
                == old(self).spec_skip_errors(),
            r matches Err(e) ==> *final(self) == *old(self) && e@ is CompileError,
    {
        match VrlRuntime::new(vrl_script) {
            Ok(new_runtime) => {
                self.runtime = new_runtime;
                Ok(())
            }
            Err(e) => Err(TransformError::CompileError(e)),
        }
    }

    /// Checks a script against the engine's compiler without keeping the
    /// compiled program.
    pub fn validate_script(vrl_script: &str) -> (r: Result<(), TransformError>)
        ensures
            r is Ok <==> script_compiles(vrl_script@),
            r matches Err(e) ==> e@ is CompileError,
    {
        match VrlRuntime::new(vrl_script) {
            Ok(_) => Ok(()),
            Err(e) => Err(TransformError::CompileError(e)),
        }
    }
}

/// Counting non-blank lines distributes over extending by one line.
proof fn lemma_count_nonblank_snoc(s: Seq<String>, x: String)
    ensures
        OcsfTransformer::count_nonblank(s.push(x)) == OcsfTransformer::count_nonblank(s) + (
        if is_blank(x@) {
            0int
        } else {
            1int
        }),
    decreases s.len(),
{
    let full = s.push(x);
    if s.len() == 0 {
        assert(full.subrange(1, 1) =~= Seq::<String>::empty());
        assert(OcsfTransformer::count_nonblank(Seq::<String>::empty()) == 0);
    } else {
        assert(full.subrange(1, full.len() as int) =~= s.subrange(1, s.len() as int).push(x));
        lemma_count_nonblank_snoc(s.subrange(1, s.len() as int), x);
    }
}

/// The non-blank count is non-negative and at most the line count.
proof fn lemma_count_nonblank_bounds(s: Seq<String>)
    ensures
        0 <= OcsfTransformer::count_nonblank(s) <= s.len(),
    decreases s.len(),
{
    if s.len() > 0 {
        lemma_count_nonblank_bounds(s.subrange(1, s.len() as int));
    }
}

/// A non-blank line anywhere makes the non-blank count positive.
proof fn lemma_count_nonblank_at(s: Seq<String>, i: int)
    requires
        0 <= i < s.len(),
        !is_blank(s[i]@),
    ensures
        OcsfTransformer::count_nonblank(s) >= 1,
    decreases i,
{
    let tail = s.subrange(1, s.len() as int);
    if i == 0 {
        lemma_count_nonblank_bounds(tail);
    } else {
        lemma_count_nonblank_at(tail, i - 1);
    }
}

/// What the batch driver does after a failure: carry on under the skip
/// policy, abort otherwise.
#[derive(Debug, Clone, Copy, PartialEq, Eq, Structural)]
pub enum ErrorDisposition {
    Continue,
    Abort,
}

/// The one policy decision both batch paths share.
pub fn decide(skip_errors: bool) -> (r: ErrorDisposition)
    ensures
        r == (if skip_errors {
            ErrorDisposition::Continue
        } else {
            ErrorDisposition::Abort
        }),
{
    if skip_errors {
        ErrorDisposition::Continue
    } else {
        ErrorDisposition::Abort
    }
}

/// The aggregate outcome of one directory pass.
#[derive(Debug, Clone, PartialEq)]
pub struct DirectoryOutcome {
    pub processed_files: usize,
    pub failed_files: usize,
    pub total_events: usize,
}

/// How many per-file outcomes succeeded.
pub open spec fn count_ok(s: Seq<Result<usize, TransformErrorV>>) -> int
    decreases s.len(),
{
    if s.len() == 0 {
        0
    } else {
        (if s[0] is Ok {
            1int
        } else {
            0int
        }) + count_ok(s.subrange(1, s.len() as int))
    }
}

/// The written-record total of the successful outcomes, saturating at
/// the machine limit as the running sum does.
pub open spec fn sum_ok_sat(s: Seq<Result<usize, TransformErrorV>>) -> int
    decreases s.len(),
{
    if s.len() == 0 {
        0
    } else {
        let prev = sum_ok_sat(s.drop_last());
        match s.last() {
            Ok(k) => if prev + k <= usize::MAX {
                prev + k
            } else {
                usize::MAX as int
            },
            Err(_) => prev,
        }
    }
}

/// The first failing outcome, if any.
pub open spec fn first_err(s: Seq<Result<usize, TransformErrorV>>) -> Option<TransformErrorV>
    decreases s.len(),
{
    if s.len() == 0 {
        None
    } else {
        match s[0] {
            Err(e) => Some(e),
            Ok(_) => first_err(s.subrange(1, s.len() as int)),
        }
    }
}

pub open spec fn file_results_view(s: Seq<Result<usize, TransformError>>) -> Seq<
    Result<usize, TransformErrorV>,
>
    decreases s.len(),
{
    if s.len() == 0 {
        Seq::empty()
    } else {
        seq![
            match s[0] {
                Ok(k) => Ok::<usize, TransformErrorV>(k),
                Err(e) => Err(e@),
            },
        ] + file_results_view(s.subrange(1, s.len() as int))
    }
}

proof fn lemma_file_results_view(s: Seq<Result<usize, TransformError>>)
    ensures
        file_results_view(s).len() == s.len(),
        forall|i: int| 0 <= i < s.len() ==> file_results_view(s)[i] == (match s[i] {
            Ok(k) => Ok::<usize, TransformErrorV>(k),
            Err(e) => Err(e@),
        }),
    decreases s.len(),
{
    if s.len() > 0 {
        lemma_file_results_view(s.subrange(1, s.len() as int));
    }
}

proof fn lemma_count_ok_snoc(s: Seq<Result<usize, TransformErrorV>>, x: Result<
    usize,
    TransformErrorV,
>)
    ensures
        count_ok(s.push(x)) == count_ok(s) + (if x is Ok {
            1int
        } else {
            0int
        }),
    decreases s.len(),
{
    let full = s.push(x);
    if s.len() == 0 {
        assert(full.subrange(1, 1) =~= Seq::<Result<usize, TransformErrorV>>::empty());
        assert(count_ok(Seq::<Result<usize, TransformErrorV>>::empty()) == 0);
    } else {
        assert(full.subrange(1, full.len() as int) =~= s.subrange(1, s.len() as int).push(x));
        lemma_count_ok_snoc(s.subrange(1, s.len() as int), x);
    }
}

/// When no outcome up to the end failed, there is no first error; when
/// the first failure stands at `k`, it is the first error.
proof fn lemma_first_err_none(s: Seq<Result<usize, TransformErrorV>>)
    requires
        forall|i: int| 0 <= i < s.len() ==> (#[trigger] s[i]) is Ok,
    ensures
        first_err(s) is None,
    decreases s.len(),
{
    if s.len() > 0 {
        lemma_first_err_none(s.subrange(1, s.len() as int));
    }
}

proof fn lemma_first_err_at(s: Seq<Result<usize, TransformErrorV>>, k: int)
    requires
        0 <= k < s.len(),
        s[k] is Err,
        forall|i: int| 0 <= i < k ==> (#[trigger] s[i]) is Ok,
    ensures
        first_err(s) == Some(s[k]->Err_0),
    decreases k,
{
    if k > 0 {
        let tail = s.subrange(1, s.len() as int);
        assert(forall|i: int| 0 <= i < k - 1 ==> (#[trigger] tail[i]) is Ok);
        lemma_first_err_at(tail, k - 1);
    }
}

/// Folds a sequence of per-file outcomes under the error policy. Under
/// the skip policy every outcome is counted and the pass succeeds; under
/// the abort policy the pass stops at — and returns — the first failure,
/// counting only the files before it.
#[verifier::loop_isolation(false)]
#[verifier::rlimit(60)]
pub fn directory_summary(results: &Vec<Result<usize, TransformError>>, skip_errors: bool) -> (r:
    Result<DirectoryOutcome, TransformError>)
    ensures
        skip_errors ==> (r matches Ok(out) && out.processed_files == count_ok(
            file_results_view(results@),
        ) && out.failed_files == results@.len() - count_ok(file_results_view(results@))
            && out.total_events == sum_ok_sat(file_results_view(results@))),
        !skip_errors ==> (match first_err(file_results_view(results@)) {
            Some(e) => r matches Err(re) && re@ == e,
            None => r matches Ok(out) && out.processed_files == results@.len()
                && out.failed_files == 0,
        }),
{
    proof {
        lemma_file_results_view(results@);
    }
    let ghost rv = file_results_view(results@);
    let mut processed: usize = 0;
    let mut failed: usize = 0;
    let mut total: usize = 0;
    let n = results.len();
    let mut i: usize = 0;
    while i < n
        invariant
            i <= n,
            processed == count_ok(rv.subrange(0, i as int)),
            failed == i - processed,
            total == sum_ok_sat(rv.subrange(0, i as int)),
            !skip_errors ==> forall|j: int| 0 <= j < i ==> (#[trigger] rv[j]) is Ok,
        decreases n - i,
    {
        proof {
            assert(rv.subrange(0, i + 1) =~= rv.subrange(0, i as int).push(rv[i as int]));
            lemma_count_ok_snoc(rv.subrange(0, i as int), rv[i as int]);
            assert(rv.subrange(0, i + 1).drop_last() =~= rv.subrange(0, i as int));
            lemma_count_ok_bounds(rv.subrange(0, i as int));
        }
        match &results[i] {
            Ok(k) => {
                processed = processed + 1;
                total = saturating_add_usize(total, *k);
            }
            Err(e) => {
                if !skip_errors {
                    proof {
                        lemma_first_err_at(rv, i as int);
                    }
                    return Err(e.clone());
                }
                failed = failed + 1;
            }
        }
        i = i + 1;
    }
    proof {
        assert(rv.subrange(0, n as int) =~= rv);
        if !skip_errors {
            lemma_first_err_none(rv);
            lemma_count_ok_all(rv);
        }
        lemma_count_ok_bounds(rv);
    }
    Ok(DirectoryOutcome { processed_files: processed, failed_files: failed, total_events: total })
}

proof fn lemma_count_ok_bounds(s: Seq<Result<usize, TransformErrorV>>)
    ensures
        0 <= count_ok(s) <= s.len(),
    decreases s.len(),
{
    if s.len() > 0 {
        lemma_count_ok_bounds(s.subrange(1, s.len() as int));
    }
}

/// When every outcome succeeded, the success count is the length.
proof fn lemma_count_ok_all(s: Seq<Result<usize, TransformErrorV>>)
    requires
        forall|i: int| 0 <= i < s.len() ==> (#[trigger] s[i]) is Ok,
    ensures
        count_ok(s) == s.len(),
    decreases s.len(),
{
    if s.len() > 0 {
        lemma_count_ok_all(s.subrange(1, s.len() as int));
    }
}

/// Adds, stopping at the machine limit.
fn saturating_add_usize(a: usize, b: usize) -> (r: usize)
    ensures
        r == if a + b <= usize::MAX {
            a + b
        } else {
            usize::MAX as int
        },
{
    if a <= usize::MAX - b {
        a + b
    } else {
        usize::MAX
    }
}

} // verus!
