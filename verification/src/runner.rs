//! The pipeline: preprocess, compile, label, run, classify. Strictly
//! sequential; the first failing stage decides the outcome and no later stage
//! is attempted.

use vstd::prelude::*;
use crate::engine::{
    ast_set_source, engine_compile, engine_new, engine_run_ast, engine_set_full_optimization,
    parse_err_of, parses,
};
use crate::outcome::Outcome;
use crate::preprocess::{spec_strip_shebang, strip_shebang};

verus! {

/// One invocation of the launcher: which file to run, and whether the engine
/// may optimize the compiled script. Built once from the command line and
/// never changed afterwards.
pub struct Request {
    /// The script file's path, as the user wrote it; also the source label
    /// attached to the compiled program for diagnostics.
    pub filename: String,
    /// Whether to raise the engine's optimization level to its maximum;
    /// when false the engine keeps its default level.
    pub optimize: bool,
}

/// Classifies the loader's result: a failed read becomes a `UsageError`
/// carrying the loader's description unchanged, and no compile or run step
/// is attempted on it; the file's text passes through untouched.
pub fn load_outcome(result: Result<String, String>) -> (r: Result<String, Outcome>)
    ensures
        result matches Ok(s) ==> (r matches Ok(t) && t == s),
        result matches Err(m) ==> (r matches Err(o) && o == Outcome::UsageError(m)),
{
    match result {
        Ok(s) => Ok(s),
        Err(m) => Err(Outcome::UsageError(m)),
    }
}

/// Classifies the engine's compile result: a compile failure becomes a
/// `DataError` carrying the engine's description unchanged; a compiled
/// program passes through untouched.
pub fn compile_outcome(result: Result<rhai::AST, String>) -> (r: Result<rhai::AST, Outcome>)
    ensures
        result matches Ok(ast) ==> (r matches Ok(out) && out == ast),
        result matches Err(m) ==> (r matches Err(o) && o == Outcome::DataError(m)),
{
    match result {
        Ok(ast) => Ok(ast),
        Err(m) => Err(Outcome::DataError(m)),
    }
}

/// Classifies the engine's run result: success is `Success`, and any runtime
/// fault becomes a `RuntimeFault` carrying the engine's description
/// unchanged — no finer classification exists.
pub fn run_outcome(result: Result<(), String>) -> (o: Outcome)
    ensures
        result matches Ok(u) ==> o == Outcome::Success,
        result matches Err(m) ==> o == Outcome::RuntimeFault(m),
{
    match result {
        Ok(_) => Outcome::Success,
        Err(m) => Outcome::RuntimeFault(m),
    }
}

/// Runs a script's text through the whole pipeline: strip a leading shebang,
/// compile with the requested optimization level, label the compiled program
/// with the file name, and execute it. A `DataError` comes back exactly when
/// the stripped text does not parse, and it carries the engine's parse error
/// unchanged; the loader is not part of this pipeline, so no run of it ever
/// yields a `UsageError`.
pub fn run_script(source: &str, request: &Request) -> (o: Outcome)
    ensures
        !(o is UsageError),
        o is DataError <==> !parses(spec_strip_shebang(source@)),
        o matches Outcome::DataError(m) ==> m@ == parse_err_of(spec_strip_shebang(source@)),
{
    let script = strip_shebang(source);
    let mut engine = engine_new();
    if request.optimize {
        engine_set_full_optimization(&mut engine);
    }
    match compile_outcome(engine_compile(&engine, script)) {
        Err(o) => o,
        Ok(mut ast) => {
            ast_set_source(&mut ast, request.filename.as_str());
            run_outcome(engine_run_ast(&engine, &ast))
        },
    }
}

} // verus!
