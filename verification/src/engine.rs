//! Trusted boundary around the rhai engine: the compile and run capability
//! the pipeline consumes. Each wrapper makes exactly one engine call; engine
//! errors leave it already rendered as the line that will be printed.

use vstd::prelude::*;

verus! {

#[verifier::external_type_specification]
#[verifier::external_body]
pub struct ExEngine(rhai::Engine);

#[verifier::external_type_specification]
#[verifier::external_body]
pub struct ExAst(rhai::AST);

/// Whether the engine's parser accepts this script text. The result is a
/// function of the text alone: the engines this crate builds differ only in
/// optimization level, parsing runs before optimization with the default
/// limits, and an optimization pass cannot turn a compilable script into a
/// failing one (errors met while eagerly evaluating constants are discarded).
pub uninterp spec fn parses(s: Seq<char>) -> bool;

/// The description of the parse error the engine reports for a script text
/// it does not accept; a function of the text alone, as above.
pub uninterp spec fn parse_err_of(s: Seq<char>) -> Seq<char>;

/// Relies on rhai's `Engine::new`: a fresh engine with the default settings
/// and built-in functions only.
#[verifier::external_body]
pub(crate) fn engine_new() -> rhai::Engine {
    rhai::Engine::new()
}

/// Relies on rhai's `Engine::set_optimization_level`: it only stores the
/// level that later compilations will use; here the maximum, `Full`.
#[verifier::external_body]
pub(crate) fn engine_set_full_optimization(engine: &mut rhai::Engine) {
    engine.set_optimization_level(rhai::OptimizationLevel::Full);
}

/// Relies on rhai's `Engine::compile`: parses the script (and optimizes it at
/// the engine's stored level) into a compiled program. On failure the parse
/// error's description is rendered through its `Display` impl. Parsing is
/// deterministic in the script text for the engines this crate builds (only
/// `engine_new`, with or without `engine_set_full_optimization`, ever makes
/// one), so the result is named over the text alone.
#[verifier::external_body]
pub(crate) fn engine_compile(engine: &rhai::Engine, script: &str) -> (r: Result<
    rhai::AST,
    String,
>)
    ensures
        r is Ok <==> parses(script@),
        r matches Err(m) ==> m@ == parse_err_of(script@),
{
    match engine.compile(script) {
        Ok(ast) => Ok(ast),
        Err(e) => Err(format!("{}", e)),
    }
}

/// Relies on rhai's `AST::set_source`: stores the given name on the compiled
/// program, for inclusion in diagnostic messages only.
#[verifier::external_body]
pub(crate) fn ast_set_source(ast: &mut rhai::AST, name: &str) {
    ast.set_source(name);
}

/// Relies on rhai's `Engine::run_ast`: evaluates the compiled program in a
/// fresh scope. On failure the runtime error's description is rendered
/// through its `Display` impl.
#[verifier::external_body]
pub(crate) fn engine_run_ast(engine: &rhai::Engine, ast: &rhai::AST) -> Result<(), String> {
    match engine.run_ast(ast) {
        Ok(()) => Ok(()),
        Err(e) => Err(format!("{}", e)),
    }
}

} // verus!
