//! Shape tests for the tokenizer, the parser and the compiler: exact token
//! sequences, exact trees, exact instruction sequences.

use calc::ast::{BinOp, Expr, Instr, Stmt, Token, UnOp};
use calc::{compiler, lexer, parser};

fn parse_line(line: &str) -> Stmt {
    let tokens = lexer::parse(line).unwrap();
    parser::parse(&tokens).unwrap()
}

#[test]
fn tokenizer_splits_a_line() {
    let tokens = lexer::parse("x1 = 2.5 + sqrt(9)").unwrap();
    assert_eq!(
        tokens,
        vec![
            Token::Ident("x1".to_string()),
            Token::Op('='),
            Token::Num("2.5".to_string()),
            Token::Op('+'),
            Token::Ident("sqrt".to_string()),
            Token::Op('('),
            Token::Num("9".to_string()),
            Token::Op(')'),
        ]
    );
}

#[test]
fn tokenizer_needs_no_spaces() {
    let tokens = lexer::parse("1+2").unwrap();
    assert_eq!(
        tokens,
        vec![
            Token::Num("1".to_string()),
            Token::Op('+'),
            Token::Num("2".to_string()),
        ]
    );
}

#[test]
fn tokenizer_is_greedy() {
    // A letter ends a number; a digit may continue an identifier.
    let tokens = lexer::parse("12ab3").unwrap();
    assert_eq!(
        tokens,
        vec![
            Token::Num("12".to_string()),
            Token::Ident("ab3".to_string()),
        ]
    );
}

#[test]
fn parser_builds_precedence_tree() {
    // 2+3*4 parses as 2+(3*4).
    let stmt = parse_line("2+3*4");
    assert_eq!(
        stmt,
        Stmt::Expr(Expr::Binary(
            BinOp::Add,
            Box::new(Expr::Num("2".to_string())),
            Box::new(Expr::Binary(
                BinOp::Mul,
                Box::new(Expr::Num("3".to_string())),
                Box::new(Expr::Num("4".to_string())),
            )),
        ))
    );
}

#[test]
fn parser_groups_caret_to_the_right() {
    let stmt = parse_line("2^3^2");
    assert_eq!(
        stmt,
        Stmt::Expr(Expr::Binary(
            BinOp::Pow,
            Box::new(Expr::Num("2".to_string())),
            Box::new(Expr::Binary(
                BinOp::Pow,
                Box::new(Expr::Num("3".to_string())),
                Box::new(Expr::Num("2".to_string())),
            )),
        ))
    );
}

#[test]
fn parser_reads_assignment_and_call() {
    let stmt = parse_line("y = sqrt(16)");
    assert_eq!(
        stmt,
        Stmt::Assign(
            "y".to_string(),
            Expr::Call("sqrt".to_string(), Box::new(Expr::Num("16".to_string()))),
        )
    );
}

#[test]
fn parser_wraps_prefix_and_postfix() {
    let stmt = parse_line("-3!");
    assert_eq!(
        stmt,
        Stmt::Expr(Expr::Unary(
            UnOp::Neg,
            Box::new(Expr::Unary(
                UnOp::Fact,
                Box::new(Expr::Num("3".to_string())),
            )),
        ))
    );
}

#[test]
fn compiler_emits_post_order() {
    let stmt = parse_line("x = 1 + 2 * 3");
    let instrs = compiler::compile(&stmt);
    assert_eq!(
        instrs,
        vec![
            Instr::LoadConst("1".to_string()),
            Instr::LoadConst("2".to_string()),
            Instr::LoadConst("3".to_string()),
            Instr::OpMul,
            Instr::OpAdd,
            Instr::SetLocal("x".to_string()),
        ]
    );
}

#[test]
fn compiler_emits_unary_and_call() {
    let stmt = parse_line("abs(-x)!");
    let instrs = compiler::compile(&stmt);
    assert_eq!(
        instrs,
        vec![
            Instr::LoadLocal("x".to_string()),
            Instr::OpNeg,
            Instr::Call("abs".to_string()),
            Instr::OpFact,
        ]
    );
}
