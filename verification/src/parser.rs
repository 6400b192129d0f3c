//! The parser: consumes one statement's whole token sequence and produces
//! its tree, by precedence climbing. A statement beginning `name =` is an
//! assignment of the expression after the `=`; anything else is one bare
//! expression; trailing tokens are an error.
//!
//! Binding powers (higher binds tighter): infix `+ -` are 1/2, infix `* /`
//! are 3/4, prefix `+ -` recurse at 5, infix `^` is 8/7 (right-associative),
//! postfix `!` and the call `(` bind at 9.

use vstd::prelude::*;

use crate::ast::{
    BinOp, Error, ErrorV, Expr, ExprV, Stmt, StmtV, Token, TokenV, UnOp, tokens_view,
};

verus! {

/// The prefix reading of a token: the operator and the binding power its
/// operand is parsed at.
pub open spec fn token_prefix_s(t: TokenV) -> Option<(UnOp, int)> {
    match t {
        TokenV::Op(c) => if c == '+' {
            Some((UnOp::Pos, 5))
        } else if c == '-' {
            Some((UnOp::Neg, 5))
        } else {
            None
        },
        _ => None,
    }
}

/// The postfix reading of a token: the operator character (`!` or the call
/// `(`) and its left binding power.
pub open spec fn token_postfix_s(t: TokenV) -> Option<(char, int)> {
    match t {
        TokenV::Op(c) => if c == '!' || c == '(' {
            Some((c, 9))
        } else {
            None
        },
        _ => None,
    }
}

/// The infix reading of a token: the operator and its left and right binding
/// powers. `^` has right below left, making it right-associative; the others
/// associate to the left.
pub open spec fn token_infix_s(t: TokenV) -> Option<(BinOp, int, int)> {
    match t {
        TokenV::Op(c) => if c == '+' {
            Some((BinOp::Add, 1, 2))
        } else if c == '-' {
            Some((BinOp::Sub, 1, 2))
        } else if c == '*' {
            Some((BinOp::Mul, 3, 4))
        } else if c == '/' {
            Some((BinOp::Div, 3, 4))
        } else if c == '^' {
            Some((BinOp::Pow, 8, 7))
        } else {
            None
        },
        _ => None,
    }
}

/// A sub-parse's returned position, kept inside `lo..=hi`. Every sub-parse
/// in fact consumes at least one token and stays within the sequence (the
/// implementation proves so at each call), so the clamp changes nothing; it
/// only makes the recursion below visibly terminating.
pub open spec fn clamp_pos(j: int, lo: int, hi: int) -> int {
    if j < lo {
        lo
    } else if j > hi {
        hi
    } else {
        j
    }
}

/// One expression parsed from position `i`, never extending past an operator
/// whose left binding power is below `min_bp`: the expression and the
/// position after it. First a primary or prefix term, then `parse_more_s`.
pub open spec fn parse_expr_s(t: Seq<TokenV>, i: int, min_bp: int) -> Result<(ExprV, int), ErrorV>
    decreases t.len() - i, 1int,
    when 0 <= i <= t.len()
{
    if i >= t.len() {
        Err(ErrorV::UnexpectedEndOfInput)
    } else {
        match token_prefix_s(t[i]) {
            Some((op, rbp)) => match parse_expr_s(t, i + 1, rbp) {
                Ok((rhs, j)) => parse_more_s(
                    t,
                    ExprV::Unary(op, Box::new(rhs)),
                    clamp_pos(j, i + 1, t.len() as int),
                    min_bp,
                ),
                Err(e) => Err(e),
            },
            None => match t[i] {
                TokenV::Num(lit) => parse_more_s(t, ExprV::Num(lit), i + 1, min_bp),
                TokenV::Ident(name) => parse_more_s(t, ExprV::Ident(name), i + 1, min_bp),
                TokenV::Op(c) => if c == '(' {
                    match parse_expr_s(t, i + 1, 0) {
                        Ok((inner, j)) => {
                            let j2 = clamp_pos(j, i + 1, t.len() as int);
                            if j2 < t.len() && t[j2] == TokenV::Op(')') {
                                parse_more_s(t, inner, j2 + 1, min_bp)
                            } else {
                                Err(ErrorV::UnmatchedParenthesis)
                            }
                        },
                        Err(e) => Err(e),
                    }
                } else {
                    Err(ErrorV::UnexpectedOperator(c))
                },
            },
        }
    }
}

/// The climb: extend `lhs` with postfix and infix operators of binding power
/// at least `min_bp`, stopping at the first token that does not continue the
/// expression. A postfix `(` is a call: its target must already be a bare
/// identifier, checked only after the argument and the closing `)` are
/// consumed, so an unmatched `)` is reported ahead of a bad call target.
pub open spec fn parse_more_s(t: Seq<TokenV>, lhs: ExprV, i: int, min_bp: int) -> Result<
    (ExprV, int),
    ErrorV,
>
    decreases t.len() - i, 0int,
    when 0 <= i <= t.len()
{
    if i >= t.len() {
        Ok((lhs, i))
    } else {
        match token_postfix_s(t[i]) {
            Some((c, lbp)) => if lbp < min_bp {
                Ok((lhs, i))
            } else if c == '!' {
                parse_more_s(t, ExprV::Unary(UnOp::Fact, Box::new(lhs)), i + 1, min_bp)
            } else {
                match parse_expr_s(t, i + 1, 0) {
                    Ok((arg, j)) => {
                        let j2 = clamp_pos(j, i + 1, t.len() as int);
                        if j2 < t.len() && t[j2] == TokenV::Op(')') {
                            match lhs {
                                ExprV::Ident(name) => parse_more_s(
                                    t,
                                    ExprV::Call(name, Box::new(arg)),
                                    j2 + 1,
                                    min_bp,
                                ),
                                _ => Err(ErrorV::ExpectedIdentifierForCall),
                            }
                        } else {
                            Err(ErrorV::UnmatchedParenthesis)
                        }
                    },
                    Err(e) => Err(e),
                }
            },
            None => match token_infix_s(t[i]) {
                Some((op, lbp, rbp)) => if lbp < min_bp {
                    Ok((lhs, i))
                } else {
                    match parse_expr_s(t, i + 1, rbp) {
                        Ok((rhs, j)) => parse_more_s(
                            t,
                            ExprV::Binary(op, Box::new(lhs), Box::new(rhs)),
                            clamp_pos(j, i + 1, t.len() as int),
                            min_bp,
                        ),
                        Err(e) => Err(e),
                    }
                },
                None => Ok((lhs, i)),
            },
        }
    }
}

/// A whole token sequence parsed as one bare expression statement.
pub open spec fn parse_bare_s(t: Seq<TokenV>) -> Result<StmtV, ErrorV> {
    match parse_expr_s(t, 0, 0) {
        Ok((e, j)) => if j == t.len() {
            Ok(StmtV::Expr(e))
        } else {
            Err(ErrorV::ExpectedEndOfInput)
        },
        Err(e) => Err(e),
    }
}

/// One statement from a whole token sequence: `Ident =` opens an assignment
/// of the expression after it; anything else is one bare expression; either
/// way the tokens must be consumed exactly.
pub open spec fn parse_spec(t: Seq<TokenV>) -> Result<StmtV, ErrorV> {
    if t.len() == 0 {
        Err(ErrorV::UnexpectedEndOfInput)
    } else if t.len() >= 2 {
        match t[0] {
            TokenV::Ident(name) => if t[1] == TokenV::Op('=') {
                match parse_expr_s(t, 2, 0) {
                    Ok((e, j)) => if j == t.len() {
                        Ok(StmtV::Assign(name, e))
                    } else {
                        Err(ErrorV::ExpectedEndOfInput)
                    },
                    Err(e) => Err(e),
                }
            } else {
                parse_bare_s(t)
            },
            _ => parse_bare_s(t),
        }
    } else {
        parse_bare_s(t)
    }
}

impl Token {
    /// This token read as a prefix operator, with its operand's binding
    /// power.
    fn prefix_op(&self) -> (r: Option<(UnOp, u8)>)
        ensures
            token_prefix_s(self@) == match r {
                Some((op, bp)) => Some((op, bp as int)),
                None => None::<(UnOp, int)>,
            },
    {
        match self {
            Token::Op(c) => {
                if *c == '+' {
                    Some((UnOp::Pos, 5))
                } else if *c == '-' {
                    Some((UnOp::Neg, 5))
                } else {
                    None
                }
            },
            _ => None,
        }
    }

    /// This token read as a postfix operator (`!` or the call `(`), with its
    /// left binding power.
    fn postfix_op(&self) -> (r: Option<(char, u8)>)
        ensures
            token_postfix_s(self@) == match r {
                Some((c, bp)) => Some((c, bp as int)),
                None => None::<(char, int)>,
            },
    {
        match self {
            Token::Op(c) => {
                if *c == '!' || *c == '(' {
                    Some((*c, 9))
                } else {
                    None
                }
            },
            _ => None,
        }
    }

    /// This token read as an infix operator, with its left and right binding
    /// powers.
    fn infix_op(&self) -> (r: Option<(BinOp, u8, u8)>)
        ensures
            token_infix_s(self@) == match r {
                Some((op, l, rb)) => Some((op, l as int, rb as int)),
                None => None::<(BinOp, int, int)>,
            },
    {
        match self {
            Token::Op(c) => {
                if *c == '+' {
                    Some((BinOp::Add, 1, 2))
                } else if *c == '-' {
                    Some((BinOp::Sub, 1, 2))
                } else if *c == '*' {
                    Some((BinOp::Mul, 3, 4))
                } else if *c == '/' {
                    Some((BinOp::Div, 3, 4))
                } else if *c == '^' {
                    Some((BinOp::Pow, 8, 7))
                } else {
                    None
                }
            },
            _ => None,
        }
    }
}

fn expr_bp(tokens: &Vec<Token>, start: usize, min_bp: u8) -> (r: Result<(Expr, usize), Error>)
    requires
        start <= tokens@.len(),
    ensures
        ({
            let ps = parse_expr_s(tokens_view(tokens@), start as int, min_bp as int);
            match r {
                Ok((e, j)) => ps == Ok::<(ExprV, int), ErrorV>((e@, j as int)) && start < j
                    <= tokens@.len(),
                Err(er) => ps == Err::<(ExprV, int), ErrorV>(er@),
            }
        }),
    decreases tokens@.len() - start,
{
    let ghost tv = tokens_view(tokens@);
    proof {
        assert(tv.len() == tokens@.len());
        if start < tokens@.len() {
            assert(tv[start as int] == tokens@[start as int]@);
        }
    }
    if start >= tokens.len() {
        return Err(Error::UnexpectedEndOfInput);
    }
    let tok = &tokens[start];
    let mut lhs: Expr;
    let mut p: usize;
    match tok.prefix_op() {
        Some((op, rbp)) => {
            let (rhs, j) = match expr_bp(tokens, start + 1, rbp) {
                Ok(x) => x,
                Err(er) => {
                    return Err(er);
                },
            };
            lhs = Expr::Unary(op, Box::new(rhs));
            p = j;
            proof {
                assert(clamp_pos(j as int, start + 1, tv.len() as int) == j as int);
            }
        },
        None => {
            match tok {
                Token::Num(lit) => {
                    lhs = Expr::Num(lit.clone());
                    p = start + 1;
                },
                Token::Ident(name) => {
                    lhs = Expr::Ident(name.clone());
                    p = start + 1;
                },
                Token::Op(c) => {
                    if *c == '(' {
                        let (inner, j) = match expr_bp(tokens, start + 1, 0) {
                            Ok(x) => x,
                            Err(er) => {
                                return Err(er);
                            },
                        };
                        proof {
                            assert(clamp_pos(j as int, start + 1, tv.len() as int) == j as int);
                            if j < tokens@.len() {
                                assert(tv[j as int] == tokens@[j as int]@);
                            }
                        }
                        let mut closed = false;
                        if j < tokens.len() {
                            if let Token::Op(c2) = &tokens[j] {
                                if *c2 == ')' {
                                    closed = true;
                                }
                            }
                        }
                        if !closed {
                            return Err(Error::UnmatchedParenthesis);
                        }
                        lhs = inner;
                        p = j + 1;
                    } else {
                        return Err(Error::UnexpectedOperator(*c));
                    }
                },
            }
        },
    }
    loop
        invariant
            tv == tokens_view(tokens@),
            tv.len() == tokens@.len(),
            start < p <= tokens@.len(),
            parse_expr_s(tv, start as int, min_bp as int) == parse_more_s(
                tv,
                lhs@,
                p as int,
                min_bp as int,
            ),
        ensures
            start < p <= tokens@.len(),
            parse_expr_s(tv, start as int, min_bp as int) == Ok::<(ExprV, int), ErrorV>(
                (lhs@, p as int),
            ),
        decreases tokens@.len() - p,
    {
        if p >= tokens.len() {
            break ;
        }
        proof {
            assert(tv[p as int] == tokens@[p as int]@);
        }
        let tok2 = &tokens[p];
        match tok2.postfix_op() {
            Some((c, lbp)) => {
                if lbp < min_bp {
                    break ;
                }
                if c == '!' {
                    lhs = Expr::Unary(UnOp::Fact, Box::new(lhs));
                    p = p + 1;
                } else {
                    let (arg, j) = match expr_bp(tokens, p + 1, 0) {
                        Ok(x) => x,
                        Err(er) => {
                            return Err(er);
                        },
                    };
                    proof {
                        assert(clamp_pos(j as int, p + 1, tv.len() as int) == j as int);
                        if j < tokens@.len() {
                            assert(tv[j as int] == tokens@[j as int]@);
                        }
                    }
                    let mut closed = false;
                    if j < tokens.len() {
                        if let Token::Op(c2) = &tokens[j] {
                            if *c2 == ')' {
                                closed = true;
                            }
                        }
                    }
                    if !closed {
                        return Err(Error::UnmatchedParenthesis);
                    }
                    match lhs {
                        Expr::Ident(name) => {
                            lhs = Expr::Call(name, Box::new(arg));
                        },
                        _ => {
                            return Err(Error::ExpectedIdentifierForCall);
                        },
                    }
                    p = j + 1;
                }
            },
            None => {
                match tok2.infix_op() {
                    Some((op, lbp, rbp)) => {
                        if lbp < min_bp {
                            break ;
                        }
                        let (rhs, j) = match expr_bp(tokens, p + 1, rbp) {
                            Ok(x) => x,
                            Err(er) => {
                                return Err(er);
                            },
                        };
                        proof {
                            assert(clamp_pos(j as int, p + 1, tv.len() as int) == j as int);
                        }
                        lhs = Expr::Binary(op, Box::new(lhs), Box::new(rhs));
                        p = j;
                    },
                    None => {
                        break ;
                    },
                }
            },
        }
    }
    Ok((lhs, p))
}

/// Parse one statement from a whole token sequence.
pub fn parse(tokens: &Vec<Token>) -> (r: Result<Stmt, Error>)
    ensures
        match r {
            Ok(s) => parse_spec(tokens_view(tokens@)) == Ok::<StmtV, ErrorV>(s@),
            Err(e) => parse_spec(tokens_view(tokens@)) == Err::<StmtV, ErrorV>(e@),
        },
{
    let ghost tv = tokens_view(tokens@);
    proof {
        assert(tv.len() == tokens@.len());
        if tokens@.len() > 0 {
            assert(tv[0] == tokens@[0]@);
        }
        if tokens@.len() > 1 {
            assert(tv[1] == tokens@[1]@);
        }
    }
    if tokens.len() == 0 {
        return Err(Error::UnexpectedEndOfInput);
    }
    let mut assign_name: Option<String> = None;
    if tokens.len() >= 2 {
        if let Token::Ident(name) = &tokens[0] {
            if let Token::Op(c) = &tokens[1] {
                if *c == '=' {
                    assign_name = Some(name.clone());
                }
            }
        }
    }
    match assign_name {
        Some(name) => {
            match expr_bp(tokens, 2, 0) {
                Ok((e, j)) => {
                    if j == tokens.len() {
                        Ok(Stmt::Assign(name, e))
                    } else {
                        Err(Error::ExpectedEndOfInput)
                    }
                },
                Err(er) => Err(er),
            }
        },
        None => {
            match expr_bp(tokens, 0, 0) {
                Ok((e, j)) => {
                    if j == tokens.len() {
                        Ok(Stmt::Expr(e))
                    } else {
                        Err(Error::ExpectedEndOfInput)
                    }
                },
                Err(er) => Err(er),
            }
        },
    }
}

} // verus!
