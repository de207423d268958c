use rhai_runner::outcome::Outcome;
use rhai_runner::runner::{compile_outcome, load_outcome, run_outcome, run_script, Request};

fn request(optimize: bool) -> Request {
    Request { filename: String::from("script.rhai"), optimize }
}

#[test]
fn valid_script_succeeds() {
    let o = run_script("let x = 40 + 2; if x != 42 { throw \"bad\" }", &request(true));
    assert!(matches!(o, Outcome::Success));
    assert_eq!(o.exit_code(), 0);
    assert!(o.message().is_none());
}

#[test]
fn printing_script_succeeds() {
    let o = run_script("print(42);", &request(true));
    assert!(matches!(o, Outcome::Success));
    assert_eq!(o.exit_code(), 0);
}

#[test]
fn syntax_error_is_data_error() {
    let o = run_script("let x = {", &request(true));
    assert_eq!(o.exit_code(), 65);
    assert!(matches!(o, Outcome::DataError(_)));
    assert!(!o.message().unwrap().is_empty());
}

#[test]
fn undefined_function_is_runtime_fault() {
    let o = run_script("no_such_function(1);", &request(false));
    assert_eq!(o.exit_code(), 1);
    assert!(matches!(o, Outcome::RuntimeFault(_)));
    assert!(!o.message().unwrap().is_empty());
}

#[test]
fn thrown_value_is_runtime_fault() {
    let o = run_script("throw \"boom\";", &request(true));
    assert_eq!(o.exit_code(), 1);
    assert!(matches!(o, Outcome::RuntimeFault(_)));
}

#[test]
fn shebang_script_runs() {
    let src = "#!/usr/bin/env rhai\nlet y = 1 + 1; if y != 2 { throw \"bad\" }";
    let o = run_script(src, &request(true));
    assert!(matches!(o, Outcome::Success));
}

#[test]
fn shebang_only_file_is_data_error() {
    let o = run_script("#!no-newline", &request(true));
    assert!(matches!(o, Outcome::DataError(_)));
    assert_eq!(o.exit_code(), 65);
}

#[test]
fn optimization_invariant_script_same_outcome() {
    let src = "let total = 0; for i in 0..5 { total += i; } if total != 10 { throw \"bad\" }";
    let with_opt = run_script(src, &request(true));
    let without_opt = run_script(src, &request(false));
    assert!(matches!(with_opt, Outcome::Success));
    assert!(matches!(without_opt, Outcome::Success));
    assert_eq!(with_opt.exit_code(), without_opt.exit_code());
}

#[test]
fn optimization_invariant_fault_same_outcome() {
    let src = "let d = 0; let x = 1 / d; x";
    let with_opt = run_script(src, &request(true));
    let without_opt = run_script(src, &request(false));
    assert!(matches!(with_opt, Outcome::RuntimeFault(_)));
    assert!(matches!(without_opt, Outcome::RuntimeFault(_)));
    assert_eq!(with_opt.exit_code(), without_opt.exit_code());
}

#[test]
fn run_stage_classification() {
    assert!(matches!(run_outcome(Ok(())), Outcome::Success));
    match run_outcome(Err(String::from("kaboom"))) {
        Outcome::RuntimeFault(m) => assert_eq!(m, "kaboom"),
        _ => panic!("a run error must classify as a runtime fault"),
    }
}

#[test]
fn load_stage_classification() {
    match load_outcome(Err(String::from("No such file or directory (os error 2)"))) {
        Err(Outcome::UsageError(m)) => {
            assert_eq!(m, "No such file or directory (os error 2)");
            assert_eq!(Outcome::UsageError(m).exit_code(), 64);
        }
        _ => panic!("a read error must classify as a usage error"),
    }
    match load_outcome(Ok(String::from("print(1);"))) {
        Ok(source) => assert_eq!(source, "print(1);"),
        _ => panic!("a read file's text must pass through untouched"),
    }
}

#[test]
fn compile_stage_classification() {
    match compile_outcome(Err(String::from("bad token"))) {
        Err(Outcome::DataError(m)) => assert_eq!(m, "bad token"),
        _ => panic!("a compile error must classify as a data error"),
    }
    let ast = rhai::Engine::new().compile("1 + 1;").unwrap();
    assert!(compile_outcome(Ok(ast)).is_ok());
}
