//! End-to-end tests: each line is tokenized, parsed, and run through both
//! execution strategies, with the numeric queries answered by real
//! double-precision arithmetic.

use calc::ast::Error;
use calc::env::Env;
use calc::interpreter::EvalOutcome;
use calc::num::Query;
use calc::vm::ExecOutcome;
use calc::{compiler, interpreter, lexer, parser, vm};

fn answer(q: &Query) -> u64 {
    match q {
        Query::Lit(s) => s.parse::<f64>().unwrap().to_bits(),
        Query::OfInt(n) => ((*n as i64) as f64).to_bits(),
        Query::Neg(a) => (-f64::from_bits(*a)).to_bits(),
        Query::Abs(a) => f64::from_bits(*a).abs().to_bits(),
        Query::Sqrt(a) => f64::from_bits(*a).sqrt().to_bits(),
        Query::Add(a, b) => (f64::from_bits(*a) + f64::from_bits(*b)).to_bits(),
        Query::Sub(a, b) => (f64::from_bits(*a) - f64::from_bits(*b)).to_bits(),
        Query::Mul(a, b) => (f64::from_bits(*a) * f64::from_bits(*b)).to_bits(),
        Query::Div(a, b) => (f64::from_bits(*a) / f64::from_bits(*b)).to_bits(),
        Query::Pow(a, b) => f64::from_bits(*a).powf(f64::from_bits(*b)).to_bits(),
        Query::Trunc(a) => (f64::from_bits(*a) as i64) as u64,
        Query::Lt(a, b) => (f64::from_bits(*a) < f64::from_bits(*b)) as u64,
        Query::Gt(a, b) => (f64::from_bits(*a) > f64::from_bits(*b)) as u64,
    }
}

fn interp_line(line: &str, env: &mut Env) -> Result<(Option<String>, f64), Error> {
    let tokens = lexer::parse(line)?;
    let stmt = parser::parse(&tokens)?;
    let mut tape: Vec<u64> = Vec::new();
    loop {
        match interpreter::eval(&stmt, env, &tape) {
            EvalOutcome::Done(name, v) => return Ok((name, f64::from_bits(v))),
            EvalOutcome::Need(q) => tape.push(answer(&q)),
            EvalOutcome::Fail(e) => return Err(e),
        }
    }
}

fn vm_line(line: &str, env: &mut Env) -> Result<Option<f64>, Error> {
    let tokens = lexer::parse(line)?;
    let stmt = parser::parse(&tokens)?;
    let instrs = compiler::compile(&stmt);
    let mut tape: Vec<u64> = Vec::new();
    loop {
        match vm::execute(&instrs, env, &tape) {
            ExecOutcome::Done(v) => return Ok(v.map(f64::from_bits)),
            ExecOutcome::Need(q) => tape.push(answer(&q)),
            ExecOutcome::Fail(e) => return Err(e),
        }
    }
}

fn eval_value(line: &str) -> f64 {
    let mut env = Env::new();
    interp_line(line, &mut env).unwrap().1
}

fn eval_err(line: &str) -> Error {
    let mut env = Env::new();
    interp_line(line, &mut env).unwrap_err()
}

#[test]
fn interpreter_and_vm_agree() {
    let lines = [
        "1 + 2 * 3",
        "2^3^2",
        "sqrt(16) + abs(-3)",
        "3! + 0!",
        "-2^2",
        "(1 + 2) * 4.5",
        "10 / 4",
        "1 / 0",
        "2 ^ 0.5",
    ];
    for line in lines {
        let mut env1 = Env::new();
        let mut env2 = Env::new();
        let iv = interp_line(line, &mut env1).unwrap();
        let vv = vm_line(line, &mut env2).unwrap();
        assert_eq!(iv.0, None);
        assert_eq!(Some(iv.1.to_bits()), vv.map(f64::to_bits), "on {:?}", line);
    }
}

#[test]
fn interpreter_and_vm_agree_on_assignment() {
    let mut env1 = Env::new();
    let mut env2 = Env::new();
    let iv = interp_line("x = 2 + 2", &mut env1).unwrap();
    assert_eq!(iv, (Some("x".to_string()), 4.0));
    // The machine's stack is empty after SetLocal: no value remains.
    let vv = vm_line("x = 2 + 2", &mut env2).unwrap();
    assert_eq!(vv, None);
    // Both environments hold the same binding.
    let i2 = interp_line("x", &mut env1).unwrap();
    let v2 = vm_line("x", &mut env2).unwrap();
    assert_eq!(i2.1, 4.0);
    assert_eq!(v2, Some(4.0));
}

#[test]
fn interpreter_and_vm_agree_on_errors() {
    let lines = ["y + 1", "foo(1)", "(-1)!", "2 ^ -1"];
    for line in lines {
        let mut env1 = Env::new();
        let mut env2 = Env::new();
        let ie = interp_line(line, &mut env1).unwrap_err();
        let ve = vm_line(line, &mut env2).unwrap_err();
        assert_eq!(ie, ve, "on {:?}", line);
    }
}

#[test]
fn literal_round_trips_its_value() {
    let tokens = lexer::parse("3.5").unwrap();
    assert_eq!(tokens.len(), 1);
    match &tokens[0] {
        calc::ast::Token::Num(lit) => {
            assert_eq!(lit, "3.5");
            assert_eq!(lit.parse::<f64>().unwrap(), 3.5);
        }
        other => panic!("expected a number token, got {:?}", other),
    }
    assert_eq!(eval_value("3.5"), 3.5);
}

#[test]
fn caret_is_right_associative() {
    assert_eq!(eval_value("2^3^2"), 512.0);
    assert_ne!(eval_value("2^3^2"), 64.0);
    assert_eq!(eval_value("(2^3)^2"), 64.0);
}

#[test]
fn mul_div_bind_tighter_than_add_sub() {
    assert_eq!(eval_value("2+3*4"), 14.0);
    assert_eq!(eval_value("10-6/2"), 7.0);
}

#[test]
fn factorial_values_and_rejection() {
    assert_eq!(eval_value("3!"), 6.0);
    assert_eq!(eval_value("0!"), 1.0);
    match eval_err("(-1)!") {
        Error::InvalidFactorial(bits) => assert_eq!(f64::from_bits(bits), -1.0),
        other => panic!("expected an invalid factorial, got {:?}", other),
    }
}

#[test]
fn factorial_binds_tighter_than_prefix_minus() {
    assert_eq!(eval_value("-3!"), -6.0);
}

#[test]
fn assignment_persists_in_environment() {
    let mut env = Env::new();
    let (name, value) = interp_line("x = 5", &mut env).unwrap();
    assert_eq!(name.as_deref(), Some("x"));
    assert_eq!(value, 5.0);
    let (name2, value2) = interp_line("x + 1", &mut env).unwrap();
    assert_eq!(name2, None);
    assert_eq!(value2, 6.0);
}

#[test]
fn reassignment_overwrites() {
    let mut env = Env::new();
    interp_line("x = 5", &mut env).unwrap();
    interp_line("x = x * 2", &mut env).unwrap();
    assert_eq!(interp_line("x", &mut env).unwrap().1, 10.0);
}

#[test]
fn unknown_identifier_fails() {
    assert_eq!(eval_err("y + 1"), Error::UndefinedVariable("y".to_string()));
}

#[test]
fn failed_statement_leaves_environment_untouched() {
    let mut env = Env::new();
    interp_line("x = 1", &mut env).unwrap();
    interp_line("x = y + 1", &mut env).unwrap_err();
    assert_eq!(interp_line("x", &mut env).unwrap().1, 1.0);
}

#[test]
fn builtin_calls_and_unknown_function() {
    assert_eq!(eval_value("sqrt(16)"), 4.0);
    assert_eq!(eval_value("abs(-3)"), 3.0);
    assert_eq!(eval_err("foo(1)"), Error::UnknownFunction("foo".to_string()));
}

#[test]
fn malformed_input_fails() {
    assert_eq!(eval_err("2 + "), Error::UnexpectedEndOfInput);
    assert_eq!(eval_err("2 2"), Error::ExpectedEndOfInput);
    assert_eq!(eval_err(""), Error::UnexpectedEndOfInput);
}

#[test]
fn error_variants_from_syntax() {
    assert_eq!(eval_err("*2"), Error::UnexpectedOperator('*'));
    assert_eq!(eval_err("(1+2"), Error::UnmatchedParenthesis);
    assert_eq!(eval_err("(1)(2)"), Error::ExpectedIdentifierForCall);
    assert_eq!(eval_err("2 @ 3"), Error::UnexpectedCharacter('@', 2));
    assert_eq!(
        eval_err("1.2.3"),
        Error::MalformedNumber("1.2.3".to_string())
    );
}

#[test]
fn negative_exponent_is_rejected() {
    match eval_err("2 ^ -1") {
        Error::InvalidExponent(bits) => assert_eq!(f64::from_bits(bits), -1.0),
        other => panic!("expected an invalid exponent, got {:?}", other),
    }
}

#[test]
fn division_by_zero_yields_infinity() {
    assert_eq!(eval_value("1/0"), f64::INFINITY);
    assert_eq!(eval_value("-1/0"), f64::NEG_INFINITY);
}

#[test]
fn prefix_minus_binds_looser_than_caret() {
    assert_eq!(eval_value("-2^2"), -4.0);
    assert_eq!(eval_value("(-2)^2"), 4.0);
}

#[test]
fn stack_underflow_on_hand_written_code() {
    let mut env = Env::new();
    let instrs = vec![calc::ast::Instr::OpAdd];
    let tape: Vec<u64> = Vec::new();
    match vm::execute(&instrs, &mut env, &tape) {
        ExecOutcome::Fail(e) => assert_eq!(e, Error::StackUnderflow),
        other => panic!("expected a stack underflow, got {:?}", other),
    }
}

#[test]
fn trailing_dot_literal_is_accepted() {
    assert_eq!(eval_value("1."), 1.0);
    assert_eq!(eval_value("2. + 0.5"), 2.5);
}

#[test]
fn nested_parentheses_group() {
    assert_eq!(eval_value("((2 + 3)) * (4 - (1))"), 15.0);
}

#[test]
fn call_takes_a_compound_argument() {
    assert_eq!(eval_value("sqrt(8 + 8)"), 4.0);
    assert_eq!(eval_value("sqrt(16)!"), 24.0);
}

#[test]
fn tolerance_constant_is_the_tolerance() {
    assert_eq!(calc::num::FACT_TOLERANCE_BITS, (1.0e-8f64).to_bits());
    assert_eq!(calc::num::ZERO_BITS, (0.0f64).to_bits());
}
