//! The shared data model: lexical tokens, the statement tree that the parser
//! produces, and the linear instruction form that the compiler lowers it to.
//!
//! Each executable type has a mathematical twin (`TokenV`, `ExprV`, ...) in
//! which owned strings appear as `Seq<char>`; contracts speak of the twins
//! through each type's view.

use vstd::prelude::*;

verus! {

/// One lexical token: a numeric literal (kept as its source text), a
/// single-character operator out of `+ - * / ^ ! ( ) =`, or an identifier.
#[derive(Debug, PartialEq)]
pub enum Token {
    Num(String),
    Op(char),
    Ident(String),
}

/// Mathematical twin of [`Token`].
pub enum TokenV {
    Num(Seq<char>),
    Op(char),
    Ident(Seq<char>),
}

impl View for Token {
    type V = TokenV;

    open spec fn view(&self) -> TokenV {
        match self {
            Token::Num(s) => TokenV::Num(s@),
            Token::Op(c) => TokenV::Op(*c),
            Token::Ident(s) => TokenV::Ident(s@),
        }
    }
}

/// The view of a token sequence, element by element.
pub open spec fn tokens_view(ts: Seq<Token>) -> Seq<TokenV> {
    ts.map_values(|t: Token| t@)
}

/// A unary operator: prefix `+`, prefix `-`, or the postfix factorial `!`.
#[derive(Debug, Clone, Copy, PartialEq, Eq, Structural)]
pub enum UnOp {
    Pos,
    Neg,
    Fact,
}

/// A binary infix operator.
#[derive(Debug, Clone, Copy, PartialEq, Eq, Structural)]
pub enum BinOp {
    Add,
    Sub,
    Mul,
    Div,
    Pow,
}

/// One expression node. Each node exclusively owns its children.
#[derive(Debug, PartialEq)]
pub enum Expr {
    Num(String),
    Ident(String),
    Unary(UnOp, Box<Expr>),
    Binary(BinOp, Box<Expr>, Box<Expr>),
    Call(String, Box<Expr>),
}

/// Mathematical twin of [`Expr`].
pub enum ExprV {
    Num(Seq<char>),
    Ident(Seq<char>),
    Unary(UnOp, Box<ExprV>),
    Binary(BinOp, Box<ExprV>, Box<ExprV>),
    Call(Seq<char>, Box<ExprV>),
}

pub open spec fn expr_view(e: &Expr) -> ExprV
    decreases e,
{
    match e {
        Expr::Num(s) => ExprV::Num(s@),
        Expr::Ident(s) => ExprV::Ident(s@),
        Expr::Unary(op, a) => ExprV::Unary(*op, Box::new(expr_view(a))),
        Expr::Binary(op, l, r) => ExprV::Binary(*op, Box::new(expr_view(l)), Box::new(expr_view(r))),
        Expr::Call(s, a) => ExprV::Call(s@, Box::new(expr_view(a))),
    }
}

impl View for Expr {
    type V = ExprV;

    open spec fn view(&self) -> ExprV {
        expr_view(self)
    }
}

/// One statement: a variable assignment, or a bare expression.
#[derive(Debug, PartialEq)]
pub enum Stmt {
    Assign(String, Expr),
    Expr(Expr),
}

/// Mathematical twin of [`Stmt`].
pub enum StmtV {
    Assign(Seq<char>, ExprV),
    Expr(ExprV),
}

impl View for Stmt {
    type V = StmtV;

    open spec fn view(&self) -> StmtV {
        match self {
            Stmt::Assign(n, e) => StmtV::Assign(n@, e@),
            Stmt::Expr(e) => StmtV::Expr(e@),
        }
    }
}

/// One stack-machine instruction. Execution order is list order; the
/// language has no control flow, so there are no jumps.
#[derive(Debug, PartialEq)]
pub enum Instr {
    LoadConst(String),
    LoadLocal(String),
    SetLocal(String),
    OpPos,
    OpNeg,
    OpFact,
    OpAdd,
    OpSub,
    OpMul,
    OpDiv,
    OpPow,
    Call(String),
}

/// Mathematical twin of [`Instr`].
pub enum InstrV {
    LoadConst(Seq<char>),
    LoadLocal(Seq<char>),
    SetLocal(Seq<char>),
    OpPos,
    OpNeg,
    OpFact,
    OpAdd,
    OpSub,
    OpMul,
    OpDiv,
    OpPow,
    Call(Seq<char>),
}

impl View for Instr {
    type V = InstrV;

    open spec fn view(&self) -> InstrV {
        match self {
            Instr::LoadConst(s) => InstrV::LoadConst(s@),
            Instr::LoadLocal(s) => InstrV::LoadLocal(s@),
            Instr::SetLocal(s) => InstrV::SetLocal(s@),
            Instr::OpPos => InstrV::OpPos,
            Instr::OpNeg => InstrV::OpNeg,
            Instr::OpFact => InstrV::OpFact,
            Instr::OpAdd => InstrV::OpAdd,
            Instr::OpSub => InstrV::OpSub,
            Instr::OpMul => InstrV::OpMul,
            Instr::OpDiv => InstrV::OpDiv,
            Instr::OpPow => InstrV::OpPow,
            Instr::Call(s) => InstrV::Call(s@),
        }
    }
}

/// The view of an instruction sequence, element by element.
pub open spec fn instrs_view(is: Seq<Instr>) -> Seq<InstrV> {
    is.map_values(|i: Instr| i@)
}

/// Every way a statement can fail. A failing statement aborts only itself;
/// the caller keeps the session going.
#[derive(Debug, PartialEq)]
pub enum Error {
    /// A character the tokenizer does not know, with its position.
    UnexpectedCharacter(char, usize),
    /// A numeric literal with more than one `.`.
    MalformedNumber(String),
    UnexpectedEndOfInput,
    UnexpectedOperator(char),
    UnmatchedParenthesis,
    ExpectedEndOfInput,
    ExpectedIdentifierForCall,
    UndefinedVariable(String),
    UnknownFunction(String),
    /// The operand's bit pattern: not a non-negative whole number.
    InvalidFactorial(u64),
    /// The exponent's bit pattern: negative.
    InvalidExponent(u64),
    /// An instruction popped from an empty stack; unreachable for compiled
    /// statements (see `equiv`).
    StackUnderflow,
}

/// Mathematical twin of [`Error`].
pub enum ErrorV {
    UnexpectedCharacter(char, int),
    MalformedNumber(Seq<char>),
    UnexpectedEndOfInput,
    UnexpectedOperator(char),
    UnmatchedParenthesis,
    ExpectedEndOfInput,
    ExpectedIdentifierForCall,
    UndefinedVariable(Seq<char>),
    UnknownFunction(Seq<char>),
    InvalidFactorial(u64),
    InvalidExponent(u64),
    StackUnderflow,
}

impl View for Error {
    type V = ErrorV;

    open spec fn view(&self) -> ErrorV {
        match self {
            Error::UnexpectedCharacter(c, i) => ErrorV::UnexpectedCharacter(*c, *i as int),
            Error::MalformedNumber(s) => ErrorV::MalformedNumber(s@),
            Error::UnexpectedEndOfInput => ErrorV::UnexpectedEndOfInput,
            Error::UnexpectedOperator(c) => ErrorV::UnexpectedOperator(*c),
            Error::UnmatchedParenthesis => ErrorV::UnmatchedParenthesis,
            Error::ExpectedEndOfInput => ErrorV::ExpectedEndOfInput,
            Error::ExpectedIdentifierForCall => ErrorV::ExpectedIdentifierForCall,
            Error::UndefinedVariable(s) => ErrorV::UndefinedVariable(s@),
            Error::UnknownFunction(s) => ErrorV::UnknownFunction(s@),
            Error::InvalidFactorial(b) => ErrorV::InvalidFactorial(*b),
            Error::InvalidExponent(b) => ErrorV::InvalidExponent(*b),
            Error::StackUnderflow => ErrorV::StackUnderflow,
        }
    }
}

} // verus!
