//! End-to-end properties of the compile-and-execute pipeline: determinism,
//! boundary cases, and the error scenarios with their positions and stack
//! traces.

use monkey_rust_compiler::object::Object;
use monkey_rust_compiler::position::Position;
use monkey_rust_compiler::runner::{run_source, RunnerError};
use monkey_rust_compiler::runtime_error::RuntimeErrorType;

#[test]
fn repeated_runs_are_deterministic() {
    let source = "let add = fn(a, b) { a + b }; puts(\"x\", add(2, 3)); add(10, 20);";
    let first = run_source(source).expect("run should succeed");
    let second = run_source(source).expect("run should succeed");
    assert_eq!(first.result.as_ref(), second.result.as_ref());
    assert_eq!(first.output, second.output);

    let failing = "let f = fn(n) { n + true }; f(1);";
    match (run_source(failing), run_source(failing)) {
        (Err(RunnerError::Runtime(a)), Err(RunnerError::Runtime(b))) => {
            assert_eq!(a.error_type, b.error_type);
            assert_eq!(a.message, b.message);
            assert_eq!(a.pos, b.pos);
            assert_eq!(a.stack, b.stack);
        }
        other => panic!("expected matching runtime errors, got {other:?}"),
    }
}

#[test]
fn empty_program_yields_null() {
    let out = run_source("").expect("empty program should run");
    assert_eq!(out.result.as_ref(), &Object::Null);
    assert!(out.output.is_empty());
}

#[test]
fn empty_array_and_hash_are_valid() {
    let out = run_source("[];").expect("empty array literal should run");
    assert_eq!(out.result.inspect(), "[]");

    let out = run_source("{};").expect("empty hash literal should run");
    assert_eq!(out.result.inspect(), "{}");
}

#[test]
fn if_false_without_alternative_yields_null() {
    let out = run_source("if (false) { 1 };").expect("run should succeed");
    assert_eq!(out.result.as_ref(), &Object::Null);
}

#[test]
fn negative_array_index_yields_null_not_error() {
    let out = run_source("[1, 2, 3][-2];").expect("run should succeed");
    assert_eq!(out.result.as_ref(), &Object::Null);
}

#[test]
fn duplicate_hash_keys_resolve_to_last_write() {
    let out = run_source("{\"k\": 1, \"k\": 2, \"k\": 3}[\"k\"];").expect("run should succeed");
    assert_eq!(out.result.as_ref(), &Object::Integer(3));

    let out = run_source("{1: \"a\", 1: \"b\"}[1];").expect("run should succeed");
    assert_eq!(out.result.inspect(), "b");
}

#[test]
fn adder_scenario_yields_five_with_no_output() {
    let out = run_source("let add = fn(a,b){a+b}; add(2,3);").expect("run should succeed");
    assert_eq!(out.result.as_ref(), &Object::Integer(5));
    assert!(out.output.is_empty());
}

#[test]
fn nested_adder_scenario_yields_seven() {
    let out = run_source("let newAdder = fn(a){ fn(b){ a+b } }; let addTwo = newAdder(2); addTwo(5);")
        .expect("run should succeed");
    assert_eq!(out.result.as_ref(), &Object::Integer(7));
}

#[test]
fn factorial_scenario_yields_one_hundred_twenty() {
    let out = run_source("let fact = fn(n){ if (n==0){1} else {n*fact(n-1)} }; fact(5);")
        .expect("run should succeed");
    assert_eq!(out.result.as_ref(), &Object::Integer(120));
}

#[test]
fn puts_scenario_captures_one_concatenated_line() {
    let out = run_source("puts(\"a\", 1, true); 1;").expect("run should succeed");
    assert_eq!(out.result.as_ref(), &Object::Integer(1));
    assert_eq!(out.output, vec!["a1true".to_string()]);
}

#[test]
fn division_by_zero_is_pinned_to_the_operator_position() {
    match run_source("1 / 0;") {
        Err(RunnerError::Runtime(err)) => {
            assert_eq!(err.error_type, RuntimeErrorType::DivisionByZero);
            assert_eq!(err.error_type.code(), "DIVISION_BY_ZERO");
            assert_eq!(err.pos, Position::new(1, 3));
        }
        other => panic!("expected runtime error, got {other:?}"),
    }
}

#[test]
fn type_mismatch_carries_innermost_first_stack_trace() {
    let source = "let bad = fn(x){ x + true }; let mid = fn(y){ bad(y) }; mid(1);";
    match run_source(source) {
        Err(RunnerError::Runtime(err)) => {
            assert_eq!(err.error_type, RuntimeErrorType::TypeMismatch);
            assert_eq!(err.stack.len(), 3);
            assert_eq!(err.stack[0].function_name, "bad");
            assert_eq!(err.stack[0].arg_count, Some(1));
            assert_eq!(err.stack[1].function_name, "mid");
            assert_eq!(err.stack[1].arg_count, Some(1));
            assert_eq!(err.stack[2].function_name, "<repl>");
            assert_eq!(err.stack[2].arg_count, Some(0));
        }
        other => panic!("expected runtime error, got {other:?}"),
    }
}

#[test]
fn each_runtime_error_code_is_reachable() {
    let cases: Vec<(&str, RuntimeErrorType, &str)> = vec![
        ("1 + true;", RuntimeErrorType::TypeMismatch, "TYPE_MISMATCH"),
        ("1(2);", RuntimeErrorType::NotCallable, "NOT_CALLABLE"),
        (
            "let f = fn(a){a}; f(1, 2);",
            RuntimeErrorType::WrongArgumentCount,
            "WRONG_ARGUMENT_COUNT",
        ),
        (
            "len(1);",
            RuntimeErrorType::InvalidArgumentType,
            "INVALID_ARGUMENT_TYPE",
        ),
        (
            "break;",
            RuntimeErrorType::InvalidControlFlow,
            "INVALID_CONTROL_FLOW",
        ),
        (
            "continue;",
            RuntimeErrorType::InvalidControlFlow,
            "INVALID_CONTROL_FLOW",
        ),
        ("1[0];", RuntimeErrorType::InvalidIndex, "INVALID_INDEX"),
        ("{[1]: 2};", RuntimeErrorType::Unhashable, "UNHASHABLE"),
        ("1 / 0;", RuntimeErrorType::DivisionByZero, "DIVISION_BY_ZERO"),
        (
            "\"a\" < \"b\";",
            RuntimeErrorType::UnsupportedOperation,
            "UNSUPPORTED_OPERATION",
        ),
    ];
    for (source, expected_type, expected_code) in cases {
        match run_source(source) {
            Err(RunnerError::Runtime(err)) => {
                assert_eq!(err.error_type, expected_type, "source={source}");
                assert_eq!(err.error_type.code(), expected_code, "source={source}");
            }
            other => panic!("expected runtime error for {source}, got {other:?}"),
        }
    }
}

#[test]
fn scanner_round_trips_identifier_and_string_text() {
    let tokens = monkey_rust_compiler::runner::tokenize("let quux = \"hi mom\"; ~");
    let literals: Vec<String> = tokens.iter().map(|t| t.literal.clone()).collect();
    assert_eq!(literals, vec!["let", "quux", "=", "hi mom", ";", "~", ""]);
}

#[test]
fn string_arithmetic_beyond_concatenation_is_a_type_mismatch() {
    for source in ["\"a\" - \"b\";", "\"a\" * \"b\";", "\"a\" / \"b\";"] {
        match run_source(source) {
            Err(RunnerError::Runtime(err)) => {
                assert_eq!(err.error_type, RuntimeErrorType::TypeMismatch, "source={source}");
                assert!(
                    err.message.contains("STRING and STRING"),
                    "source={source} message={}",
                    err.message
                );
            }
            other => panic!("expected runtime error for {source}, got {other:?}"),
        }
    }

    let out = run_source("\"a\" + \"b\";").expect("string concatenation should run");
    assert_eq!(out.result.inspect(), "ab");
}

#[test]
fn negation_of_a_non_integer_is_a_type_mismatch() {
    match run_source("let x = if (false) { 1 }; -x;") {
        Err(RunnerError::Runtime(err)) => {
            assert_eq!(err.error_type, RuntimeErrorType::TypeMismatch);
            assert_eq!(err.message, "unsupported operand type for -: NULL");
        }
        other => panic!("expected runtime error, got {other:?}"),
    }

    let out = run_source("-7;").expect("integer negation should run");
    assert_eq!(out.result.as_ref(), &Object::Integer(-7));
}
