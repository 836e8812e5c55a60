//! Whole-program scenarios: building and executing programs, and the exact
//! build errors rejected programs report.

use otterc::ast::{BinaryOp, Block, Expr, Function, Literal, Param, Program, Statement, UnaryOp};
use otterc::error::{BuildError, ErrorClass};
use otterc::executor::{ExecError, JitExecutor};
use otterc::interp::RtVal;
use otterc::registry::SymbolRegistry;
use otterc::stdlib::bootstrap_stdlib;
use otterc::value_type::ValueType;

fn ident(name: &str) -> Expr {
    Expr::Identifier(name.to_string())
}

fn text(value: &str) -> Expr {
    Expr::Literal(Literal::String(value.to_string()))
}

fn num(value: f64) -> Expr {
    Expr::Literal(Literal::Number(value.to_bits()))
}

fn call(name: &str, args: Vec<Expr>) -> Expr {
    Expr::Call {
        func: Box::new(ident(name)),
        args,
    }
}

fn binary(op: otterc::ast::BinaryOp, left: Expr, right: Expr) -> Expr {
    Expr::Binary {
        op,
        left: Box::new(left),
        right: Box::new(right),
    }
}

fn fn_stmt(name: &str, params: Vec<Param>, ret_ty: Option<&str>, body: Vec<Statement>) -> Statement {
    Statement::Function(Function::new(
        name.to_string(),
        params,
        ret_ty.map(|t| t.to_string()),
        Block::new(body),
    ))
}

fn main_program(body: Vec<Statement>) -> Program {
    Program::new(vec![fn_stmt("main", vec![], None, body)])
}

fn simple_if(cond: Expr, then_body: Vec<Statement>, else_body: Option<Vec<Statement>>) -> Statement {
    Statement::If {
        cond: Box::new(cond),
        then_block: Block::new(then_body),
        elif_blocks: vec![],
        else_block: else_body.map(Block::new),
    }
}

fn run_ok(program: &Program) -> String {
    let registry = bootstrap_stdlib();
    let mut engine = JitExecutor::new(program, &registry).expect("build should succeed");
    engine.execute_main().expect("execution should succeed");
    engine.captured_output().clone()
}

fn build_err(program: &Program) -> BuildError {
    let registry = bootstrap_stdlib();
    match JitExecutor::new(program, &registry) {
        Ok(_) => panic!("build should fail"),
        Err(e) => e,
    }
}

#[test]
fn hello_world_prints_and_exits_cleanly() {
    let program = main_program(vec![Statement::Expr(call("println", vec![text("Hello")]))]);
    assert_eq!(run_ok(&program), "Hello\n");
}

#[test]
fn print_and_println_interleave() {
    let program = main_program(vec![
        Statement::Expr(call("print", vec![text("a")])),
        Statement::Expr(call("print", vec![text("b")])),
        Statement::Expr(call("println", vec![text("c")])),
    ]);
    assert_eq!(run_ok(&program), "abc\n");
}

#[test]
fn arithmetic_branches_and_loops_match_reference() {
    // let x = 2 + 3 * 4; if x > 10: println("big") else: println("small");
    // for i in 0..3: println("tick")
    let program = main_program(vec![
        Statement::Let {
            name: "x".to_string(),
            expr: binary(BinaryOp::Add, num(2.0), binary(BinaryOp::Mul, num(3.0), num(4.0))),
        },
        simple_if(
            binary(BinaryOp::Gt, ident("x"), num(10.0)),
            vec![Statement::Expr(call("println", vec![text("big")]))],
            Some(vec![Statement::Expr(call("println", vec![text("small")]))]),
        ),
        Statement::For {
            var: "i".to_string(),
            iterable: Expr::Range {
                start: Box::new(num(0.0)),
                end: Box::new(num(3.0)),
            },
            body: Block::new(vec![Statement::Expr(call("println", vec![text("tick")]))]),
        },
    ]);
    assert_eq!(run_ok(&program), "big\ntick\ntick\ntick\n");
}

#[test]
fn float_operations_match_reference() {
    let program = main_program(vec![
        Statement::Let {
            name: "a".to_string(),
            expr: binary(BinaryOp::Mod, num(7.5), num(2.0)),
        },
        Statement::Let {
            name: "b".to_string(),
            expr: binary(
                BinaryOp::Mul,
                binary(BinaryOp::Div, binary(BinaryOp::Sub, num(10.0), num(4.0)), num(2.0)),
                num(3.0),
            ),
        },
        simple_if(
            binary(BinaryOp::Eq, ident("a"), num(1.5)),
            vec![Statement::Expr(call("println", vec![text("rem")]))],
            None,
        ),
        simple_if(
            binary(BinaryOp::Eq, ident("b"), num(9.0)),
            vec![Statement::Expr(call("println", vec![text("muldiv")]))],
            None,
        ),
        simple_if(
            binary(BinaryOp::Lt, num(1.0), num(2.0)),
            vec![Statement::Expr(call("println", vec![text("lt")]))],
            None,
        ),
        simple_if(
            Expr::Unary {
                op: UnaryOp::Not,
                expr: Box::new(binary(BinaryOp::LtEq, num(2.0), num(1.0))),
            },
            vec![Statement::Expr(call("println", vec![text("nle")]))],
            None,
        ),
        simple_if(
            binary(
                BinaryOp::Eq,
                Expr::Unary {
                    op: UnaryOp::Neg,
                    expr: Box::new(num(2.0)),
                },
                binary(BinaryOp::Sub, num(0.0), num(2.0)),
            ),
            vec![Statement::Expr(call("println", vec![text("neg")]))],
            None,
        ),
    ]);
    assert_eq!(run_ok(&program), "rem\nmuldiv\nlt\nnle\nneg\n");
}

#[test]
fn user_function_call_and_return() {
    let program = Program::new(vec![
        fn_stmt(
            "twice",
            vec![Param::new("a".to_string(), Some("float".to_string()))],
            Some("float"),
            vec![Statement::Return(Some(binary(BinaryOp::Add, ident("a"), ident("a"))))],
        ),
        fn_stmt(
            "main",
            vec![],
            None,
            vec![
                Statement::Let {
                    name: "y".to_string(),
                    expr: call("twice", vec![num(21.0)]),
                },
                simple_if(
                    binary(BinaryOp::Eq, ident("y"), num(42.0)),
                    vec![Statement::Expr(call("println", vec![text("ok")]))],
                    None,
                ),
            ],
        ),
    ]);
    assert_eq!(run_ok(&program), "ok\n");
}

#[test]
fn integer_loop_over_integer_parameters() {
    let program = Program::new(vec![
        fn_stmt(
            "steps",
            vec![
                Param::new("a".to_string(), Some("int".to_string())),
                Param::new("b".to_string(), Some("int".to_string())),
            ],
            None,
            vec![Statement::For {
                var: "i".to_string(),
                iterable: Expr::Range {
                    start: Box::new(ident("a")),
                    end: Box::new(ident("b")),
                },
                body: Block::new(vec![Statement::Expr(call("println", vec![text("i")]))]),
            }],
        ),
        fn_stmt("main", vec![], None, vec![]),
    ]);
    let registry = bootstrap_stdlib();
    let mut engine = JitExecutor::new(&program, &registry).expect("build should succeed");
    engine
        .execute_function("steps", vec![RtVal::I64(0), RtVal::I64(2)])
        .expect("execution should succeed");
    assert_eq!(engine.captured_output(), "i\ni\n");
}

#[test]
fn integer_widens_to_float_at_runtime() {
    let program = Program::new(vec![
        fn_stmt(
            "shift",
            vec![Param::new("a".to_string(), Some("int".to_string()))],
            Some("float"),
            vec![Statement::Return(Some(binary(BinaryOp::Add, ident("a"), num(0.5))))],
        ),
        fn_stmt("main", vec![], None, vec![]),
    ]);
    let registry = bootstrap_stdlib();
    let mut engine = JitExecutor::new(&program, &registry).expect("build should succeed");
    let result = engine
        .execute_function("shift", vec![RtVal::I64(2)])
        .expect("execution should succeed");
    match result {
        Some(RtVal::F64(bits)) => assert_eq!(bits, 2.5f64.to_bits()),
        other => panic!("expected a float result, got {:?}", other),
    }
}

#[test]
fn runtime_error_query_reports_clean() {
    let program = main_program(vec![simple_if(
        call("runtime.has_error", vec![]),
        vec![Statement::Expr(call("println", vec![text("err")]))],
        Some(vec![Statement::Expr(call("println", vec![text("clean")]))]),
    )]);
    assert_eq!(run_ok(&program), "clean\n");
}

#[test]
fn rebinding_with_a_new_type_is_a_type_error_naming_the_binding() {
    let program = main_program(vec![
        Statement::Let {
            name: "x".to_string(),
            expr: num(10.0),
        },
        Statement::Assignment {
            name: "x".to_string(),
            expr: Expr::Literal(Literal::Bool(true)),
        },
    ]);
    match build_err(&program) {
        BuildError::AssignTypeMismatch { name, existing, found } => {
            assert_eq!(name, "x");
            // Numbers are doubles: the existing binding is of the numeric family.
            assert_eq!(existing, ValueType::F64);
            assert_eq!(found, ValueType::Bool);
        }
        other => panic!("expected an assignment type mismatch, got {:?}", other),
    }
    assert_eq!(build_err(&program).class(), ErrorClass::TypeError);
}

#[test]
fn unknown_callee_is_an_unresolved_symbol_error_naming_it() {
    let program = main_program(vec![Statement::Expr(call("unknown_fn", vec![num(1.0)]))]);
    match build_err(&program) {
        BuildError::UnknownFunction { name } => assert_eq!(name, "unknown_fn"),
        other => panic!("expected an unknown function error, got {:?}", other),
    }
    assert_eq!(build_err(&program).class(), ErrorClass::UnresolvedSymbolError);
}

#[test]
fn numeric_loop_variable_fails_println_argument_check() {
    let program = main_program(vec![Statement::For {
        var: "i".to_string(),
        iterable: Expr::Range {
            start: Box::new(num(0.0)),
            end: Box::new(num(5.0)),
        },
        body: Block::new(vec![Statement::Expr(call("println", vec![ident("i")]))]),
    }]);
    match build_err(&program) {
        BuildError::ArgTypeMismatch { name, expected, found } => {
            assert_eq!(name, "println");
            assert_eq!(expected, ValueType::Str);
            assert_eq!(found, ValueType::F64);
        }
        other => panic!("expected an argument type mismatch, got {:?}", other),
    }
    assert_eq!(build_err(&program).class(), ErrorClass::TypeError);
}

#[test]
fn while_statement_is_a_reported_unsupported_construct() {
    let program = main_program(vec![Statement::While {
        cond: Expr::Literal(Literal::Bool(true)),
        body: Block::new(vec![]),
    }]);
    match build_err(&program) {
        BuildError::UnsupportedConstruct { construct } => assert_eq!(construct, "while loop"),
        other => panic!("expected an unsupported construct error, got {:?}", other),
    }
    assert_eq!(build_err(&program).class(), ErrorClass::UnsupportedConstructError);
}

#[test]
fn empty_program_is_a_structural_error() {
    let program = Program::new(vec![]);
    match build_err(&program) {
        BuildError::EmptyProgram => {}
        other => panic!("expected an empty program error, got {:?}", other),
    }
    assert_eq!(build_err(&program).class(), ErrorClass::StructuralError);
}

#[test]
fn missing_main_is_a_structural_error() {
    let program = Program::new(vec![fn_stmt("helper", vec![], None, vec![])]);
    match build_err(&program) {
        BuildError::MissingMain => {}
        other => panic!("expected a missing entry error, got {:?}", other),
    }
    assert_eq!(build_err(&program).class(), ErrorClass::StructuralError);
}

#[test]
fn unit_valued_let_is_a_type_error() {
    let program = main_program(vec![Statement::Let {
        name: "x".to_string(),
        expr: call("println", vec![text("hi")]),
    }]);
    match build_err(&program) {
        BuildError::UnitValue { name } => assert_eq!(name, "x"),
        other => panic!("expected a unit value error, got {:?}", other),
    }
}

#[test]
fn integer_arithmetic_is_rejected_as_a_type_error() {
    // Two integer-typed parameters: their sum is rejected, floats only.
    let program = Program::new(vec![
        fn_stmt(
            "add_ints",
            vec![
                Param::new("a".to_string(), Some("int".to_string())),
                Param::new("b".to_string(), Some("int".to_string())),
            ],
            None,
            vec![Statement::Expr(binary(BinaryOp::Add, ident("a"), ident("b")))],
        ),
        fn_stmt("main", vec![], None, vec![]),
    ]);
    match build_err(&program) {
        BuildError::NonFloatArithmetic { found } => assert_eq!(found, ValueType::I64),
        other => panic!("expected a non-float arithmetic error, got {:?}", other),
    }
    assert_eq!(build_err(&program).class(), ErrorClass::TypeError);
}

#[test]
fn mixed_integer_float_operands_coerce_to_float() {
    // An int parameter plus a float literal builds, and its result is a
    // double; storing it under a float annotation round-trips.
    let program = Program::new(vec![
        fn_stmt(
            "widen",
            vec![Param::new("a".to_string(), Some("int".to_string()))],
            Some("float"),
            vec![Statement::Return(Some(binary(BinaryOp::Add, num(1.25), ident("a"))))],
        ),
        fn_stmt("main", vec![], None, vec![]),
    ]);
    let registry = bootstrap_stdlib();
    let mut engine = JitExecutor::new(&program, &registry).expect("build should succeed");
    let result = engine
        .execute_function("widen", vec![RtVal::I64(3)])
        .expect("execution should succeed");
    match result {
        Some(RtVal::F64(bits)) => assert_eq!(bits, 4.25f64.to_bits()),
        other => panic!("expected a float result, got {:?}", other),
    }
}

#[test]
fn elif_arm_is_a_reported_unsupported_construct() {
    let program = main_program(vec![Statement::If {
        cond: Box::new(Expr::Literal(Literal::Bool(true))),
        then_block: Block::new(vec![]),
        elif_blocks: vec![(Expr::Literal(Literal::Bool(false)), Block::new(vec![]))],
        else_block: None,
    }]);
    match build_err(&program) {
        BuildError::UnsupportedConstruct { construct } => assert_eq!(construct, "elif arm"),
        other => panic!("expected an unsupported construct error, got {:?}", other),
    }
}

#[test]
fn unknown_type_name_is_a_type_error() {
    let program = Program::new(vec![
        fn_stmt(
            "f",
            vec![Param::new("a".to_string(), Some("quux".to_string()))],
            None,
            vec![],
        ),
        fn_stmt("main", vec![], None, vec![]),
    ]);
    match build_err(&program) {
        BuildError::UnknownTypeName { name } => assert_eq!(name, "quux"),
        other => panic!("expected an unknown type name error, got {:?}", other),
    }
}

#[test]
fn print_arity_is_checked() {
    let program = main_program(vec![Statement::Expr(call(
        "println",
        vec![text("a"), text("b")],
    ))]);
    match build_err(&program) {
        BuildError::ArityMismatch { name, expected, found } => {
            assert_eq!(name, "println");
            assert_eq!(expected, 1);
            assert_eq!(found, 2);
        }
        other => panic!("expected an arity mismatch, got {:?}", other),
    }
}

#[test]
fn registered_service_calls_check_arity_and_types() {
    let mut registry = bootstrap_stdlib();
    registry.register(otterc::ffi::FfiFunction {
        name: "math.twirl".to_string(),
        symbol: "otter_math_twirl".to_string(),
        signature: otterc::ffi::FfiSignature::new(
            vec![otterc::ffi::FfiType::F64],
            otterc::ffi::FfiType::F64,
        ),
    });
    let arity = main_program(vec![Statement::Expr(call("math.twirl", vec![]))]);
    match JitExecutor::new(&arity, &registry) {
        Err(BuildError::ArityMismatch { name, expected, found }) => {
            assert_eq!(name, "math.twirl");
            assert_eq!(expected, 1);
            assert_eq!(found, 0);
        }
        other => panic!("expected an arity mismatch, got {:?}", other.err()),
    }
    let typed = main_program(vec![Statement::Expr(call("math.twirl", vec![text("x")]))]);
    match JitExecutor::new(&typed, &registry) {
        Err(BuildError::ArgTypeMismatch { name, expected, found }) => {
            assert_eq!(name, "math.twirl");
            assert_eq!(expected, ValueType::F64);
            assert_eq!(found, ValueType::Str);
        }
        other => panic!("expected an argument type mismatch, got {:?}", other.err()),
    }
}

#[test]
fn range_outside_a_for_header_is_rejected() {
    let program = main_program(vec![Statement::Let {
        name: "r".to_string(),
        expr: Expr::Range {
            start: Box::new(num(0.0)),
            end: Box::new(num(3.0)),
        },
    }]);
    match build_err(&program) {
        BuildError::RangeOutsideFor => {}
        other => panic!("expected a range placement error, got {:?}", other),
    }
}

#[test]
fn executor_counts_invocations_and_cache_traffic() {
    let program = main_program(vec![Statement::Expr(call("println", vec![text("x")]))]);
    let registry = bootstrap_stdlib();
    let mut engine = JitExecutor::new(&program, &registry).expect("build should succeed");
    engine.execute_main().expect("first run");
    engine.execute_main().expect("second run");
    let stats = engine.get_stats();
    assert_eq!(stats.cache_stats.misses, 1);
    assert_eq!(stats.cache_stats.hits, 1);
    assert_eq!(stats.cache_stats.evictions, 0);
    let main_metrics = stats
        .profiler_metrics
        .iter()
        .find(|m| m.name == "main")
        .expect("metrics for the entry function");
    assert_eq!(main_metrics.invocations, 2);
    assert!(main_metrics.steps > 0);
    assert_eq!(engine.captured_output(), "x\nx\n");
}

#[test]
fn entry_function_must_take_no_arguments() {
    let program = Program::new(vec![fn_stmt(
        "main",
        vec![Param::new("a".to_string(), Some("float".to_string()))],
        None,
        vec![],
    )]);
    let registry = bootstrap_stdlib();
    let mut engine = JitExecutor::new(&program, &registry).expect("build should succeed");
    match engine.execute_main() {
        Err(ExecError::WrongArity { name, expected, found }) => {
            assert_eq!(name, "main");
            assert_eq!(expected, 0);
            assert_eq!(found, 1);
        }
        other => panic!("expected an arity error, got {:?}", other.err()),
    }
}

#[test]
fn registry_resolution_without_runtime_service_traps() {
    let mut registry = bootstrap_stdlib();
    registry.register(otterc::ffi::FfiFunction {
        name: "math.twirl".to_string(),
        symbol: "otter_math_twirl".to_string(),
        signature: otterc::ffi::FfiSignature::new(
            vec![otterc::ffi::FfiType::F64],
            otterc::ffi::FfiType::F64,
        ),
    });
    let program = main_program(vec![Statement::Expr(call("math.twirl", vec![num(1.0)]))]);
    let mut engine = JitExecutor::new(&program, &registry).expect("build should succeed");
    match engine.execute_main() {
        Err(ExecError::Trapped { .. }) => {}
        other => panic!("expected a trap, got {:?}", other.err()),
    }
}

#[test]
fn build_leaves_registry_reusable() {
    // Two builds against one registry: the registry is read, never changed.
    let registry: SymbolRegistry = bootstrap_stdlib();
    let p1 = main_program(vec![Statement::Expr(call("println", vec![text("1")]))]);
    let p2 = main_program(vec![Statement::Expr(call("println", vec![text("2")]))]);
    let mut e1 = JitExecutor::new(&p1, &registry).expect("first build");
    let mut e2 = JitExecutor::new(&p2, &registry).expect("second build");
    e1.execute_main().expect("first run");
    e2.execute_main().expect("second run");
    assert_eq!(e1.captured_output(), "1\n");
    assert_eq!(e2.captured_output(), "2\n");
}
