//! The compiled-program handle: compiles the transformation script
//! through the script engine and runs the installed program against
//! native values. The engine's compiler, its value type, and the
//! conversions at its boundary are the trusted surface of this module;
//! everything downstream works on the pipeline's own value model.

use vstd::prelude::*;

use vrl::compiler::state::RuntimeState;
use vrl::compiler::{Context, Program, TargetValue, TimeZone};
use vrl::value::Secrets;
use vrl::value::Value as EngineVal;

use crate::convert::from_native_v;
use crate::render::{jtext, push_json};
use crate::value::NativeVal;

verus! {

/// Declares the engine's compiled-program type; values of it are opaque
/// here and only ever handed back to the engine.
#[verifier::external_type_specification]
#[verifier::external_body]
pub struct ExProgram(Program);

/// Declares the engine's value type; values of it are opaque here and
/// cross the boundary only through the wrappers below.
#[verifier::external_type_specification]
#[verifier::external_body]
pub struct ExValue(vrl::value::Value);

/// Whether the engine's compiler accepts a script: compilation is a
/// function of the source text alone.
pub uninterp spec fn script_compiles(script: Seq<char>) -> bool;

/// Relies on `vrl::compiler::compile` and `vrl::stdlib::all`: compiles
/// the script against the engine's standard function library; returns
/// the program exactly when the script is well formed against that fixed
/// registry, else the diagnostics' text.
#[verifier::external_body]
fn engine_compile(script: &str) -> (r: Result<Program, String>)
    ensures
        r is Ok <==> script_compiles(script@),
{
    match vrl::compiler::compile(script, &vrl::stdlib::all()) {
        Ok(res) => Ok(res.program),
        Err(diagnostics) => Err(format!("failed to compile script: {diagnostics:?}")),
    }
}

/// Whether the engine-side JSON reader accepts a text: parsing is a
/// function of the text alone.
pub uninterp spec fn engine_json_parses(text: Seq<char>) -> bool;

/// Relies on `serde_json::from_str` and the engine value's deserializer:
/// reads a JSON text into the engine's value type (strings become engine
/// bytes, integral numbers integers, other numbers floats); accepts
/// exactly the texts the reader's fixed grammar and depth limit admit.
#[verifier::external_body]
fn engine_value_from_json(text: &str) -> (r: Result<EngineVal, String>)
    ensures
        r is Ok <==> engine_json_parses(text@),
{
    serde_json::from_str(text).map_err(|e| e.to_string())
}

/// Relies on `Program::resolve`: runs the program against the value in a
/// fresh runtime state under the default time zone. The program may read
/// the clock or other ambient state, so nothing is promised of the
/// outcome beyond its shape.
#[verifier::external_body]
fn engine_execute(program: &Program, input: EngineVal) -> (r: Result<EngineVal, String>) {
    let mut target = TargetValue {
        value: input,
        metadata: EngineVal::Object(Default::default()),
        secrets: Secrets::default(),
    };
    let mut state = RuntimeState::default();
    let timezone = TimeZone::default();
    let mut ctx = Context::new(&mut target, &mut state, &timezone);
    program.resolve(&mut ctx).map_err(|e| e.to_string())
}

/// Relies on the engine value's variants and their `Display` renderings:
/// converts an engine value to the native model, one arm per variant —
/// bytes, timestamps and regexes carry their text, floats their decimal
/// rendering (an infinity renders as `inf`/`-inf`, which the backward
/// conversion coerces to null), collections convert elementwise.
#[verifier::external_body]
fn engine_value_to_native(v: EngineVal) -> (r: NativeVal) {
    match v {
        EngineVal::Bytes(b) => NativeVal::Bytes(String::from_utf8_lossy(&b).to_string()),
        EngineVal::Regex(x) => NativeVal::Regex(x.to_string()),
        EngineVal::Integer(i) => NativeVal::Int(i),
        EngineVal::Float(f) => NativeVal::Float(f.to_string()),
        EngineVal::Boolean(b) => NativeVal::Bool(b),
        EngineVal::Timestamp(ts) => NativeVal::Timestamp(ts.to_string()),
        EngineVal::Object(map) => NativeVal::Obj(
            map.into_iter().map(|(k, v)| (k.to_string(), engine_value_to_native(v))).collect(),
        ),
        EngineVal::Array(arr) => NativeVal::Arr(
            arr.into_iter().map(engine_value_to_native).collect(),
        ),
        EngineVal::Null => NativeVal::Null,
    }
}

/// The handle owning one compiled transformation program. The script it
/// was compiled from is carried as ghost state, so callers can state
/// which program a handle is running.
pub struct VrlRuntime {
    program: Program,
    script: Ghost<Seq<char>>,
}

impl VrlRuntime {
    /// The text of the script the installed program was compiled from.
    pub closed spec fn spec_script(&self) -> Seq<char> {
        self.script@
    }

    /// Compiles a fresh runtime from the given script; fails with the
    /// compiler's diagnostics exactly when the engine refuses the script.
    pub fn new(vrl_script: &str) -> (r: Result<Self, String>)
        ensures
            r is Ok <==> script_compiles(vrl_script@),
            r matches Ok(rt) ==> rt.spec_script() == vrl_script@,
    {
        match engine_compile(vrl_script) {
            Ok(program) => Ok(VrlRuntime { program, script: Ghost(vrl_script@) }),
            Err(e) => Err(e),
        }
    }

    /// Runs the installed program against one native value. The handle
    /// itself is left exactly as it was. The value crosses the boundary
    /// as its JSON reading, so the call fails before ever running the
    /// program exactly when the engine-side reader refuses that text;
    /// past that point the outcome is the engine's.
    pub fn transform(&mut self, event: NativeVal) -> (r: Result<NativeVal, String>)
        ensures
            *final(self) == *old(self),
            r is Ok ==> engine_json_parses(jtext(from_native_v(event@))),
            !engine_json_parses(jtext(from_native_v(event@))) ==> r is Err,
    {
        let json = vrl_native_json(&event);
        let engine_input = match engine_value_from_json(json.as_str()) {
            Ok(v) => v,
            Err(e) => {
                return Err(e);
            }
        };
        match engine_execute(&self.program, engine_input) {
            Ok(out) => Ok(engine_value_to_native(out)),
            Err(e) => Err(e),
        }
    }

    /// The installed program.
    pub fn program(&self) -> &Program {
        &self.program
    }
}

/// The JSON text a native value crosses the engine boundary as: its
/// reading back in the JSON model, rendered compactly.
pub fn vrl_native_json(v: &NativeVal) -> (r: String)
    ensures
        r@ == jtext(from_native_v(v@)),
{
    let j = crate::convert::vrl_value_to_serde_json(v.clone());
    let mut out = String::new();
    push_json(&mut out, &j);
    out
}

} // verus!
