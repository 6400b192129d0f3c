//! The numeric oracle. Values are IEEE-754 double-precision bit patterns
//! carried as `u64`; the core decides everything about a statement except the
//! arithmetic itself. When an executor needs an arithmetic result it stops
//! with a [`Query`]; the caller computes the answer, appends it to the answer
//! tape, and runs the statement again. Answers are consumed from the tape in
//! order, so a caller that answers each query the same way every time (as
//! machine arithmetic does) replays the run deterministically.
//!
//! Boolean answers are encoded as `u64`: zero is false, anything else true.

use vstd::prelude::*;

use crate::ast::{BinOp, Error, ErrorV, UnOp};

verus! {

/// Bit pattern of the double `+0.0`.
pub const ZERO_BITS: u64 = 0;

/// Bit pattern of the double `1.0e-8`, the tolerance within which a
/// factorial operand must be a whole number.
pub const FACT_TOLERANCE_BITS: u64 = 0x3E45_798E_E230_8C3A;

/// One arithmetic request on double bit patterns. `Lit` asks for the value
/// of a decimal literal; `OfInt` for the double nearest an unsigned integer
/// (reading it as a signed 64-bit value, as the factorial product does);
/// `Trunc` for a value's whole part as an unsigned integer (clamped to the
/// signed 64-bit range); `Lt` and `Gt` for comparisons.
#[derive(Debug, PartialEq)]
pub enum Query {
    Lit(String),
    OfInt(u64),
    Neg(u64),
    Abs(u64),
    Sqrt(u64),
    Add(u64, u64),
    Sub(u64, u64),
    Mul(u64, u64),
    Div(u64, u64),
    Pow(u64, u64),
    Trunc(u64),
    Lt(u64, u64),
    Gt(u64, u64),
}

/// Mathematical twin of [`Query`].
pub enum QueryV {
    Lit(Seq<char>),
    OfInt(u64),
    Neg(u64),
    Abs(u64),
    Sqrt(u64),
    Add(u64, u64),
    Sub(u64, u64),
    Mul(u64, u64),
    Div(u64, u64),
    Pow(u64, u64),
    Trunc(u64),
    Lt(u64, u64),
    Gt(u64, u64),
}

impl View for Query {
    type V = QueryV;

    open spec fn view(&self) -> QueryV {
        match self {
            Query::Lit(s) => QueryV::Lit(s@),
            Query::OfInt(n) => QueryV::OfInt(*n),
            Query::Neg(a) => QueryV::Neg(*a),
            Query::Abs(a) => QueryV::Abs(*a),
            Query::Sqrt(a) => QueryV::Sqrt(*a),
            Query::Add(a, b) => QueryV::Add(*a, *b),
            Query::Sub(a, b) => QueryV::Sub(*a, *b),
            Query::Mul(a, b) => QueryV::Mul(*a, *b),
            Query::Div(a, b) => QueryV::Div(*a, *b),
            Query::Pow(a, b) => QueryV::Pow(*a, *b),
            Query::Trunc(a) => QueryV::Trunc(*a),
            Query::Lt(a, b) => QueryV::Lt(*a, *b),
            Query::Gt(a, b) => QueryV::Gt(*a, *b),
        }
    }
}

/// Why a run did not produce a value: it is starved for an answer, or the
/// statement failed.
#[derive(Debug, PartialEq)]
pub enum Stop {
    Need(Query),
    Fail(Error),
}

/// Mathematical twin of [`Stop`].
pub enum StopV {
    Need(QueryV),
    Fail(ErrorV),
}

impl View for Stop {
    type V = StopV;

    open spec fn view(&self) -> StopV {
        match self {
            Stop::Need(q) => StopV::Need(q@),
            Stop::Fail(e) => StopV::Fail(e@),
        }
    }
}

/// The view of an executor's intermediate result.
pub open spec fn res_view(r: Result<u64, Stop>) -> Result<u64, StopV> {
    match r {
        Ok(v) => Ok(v),
        Err(s) => Err(s@),
    }
}

/// A boolean answer: zero is false, anything else true.
pub open spec fn truthy(a: u64) -> bool {
    a != 0
}

/// Reading one answer for `q` at position `pos` of the tape: the next answer
/// if one is left, otherwise starvation on `q` itself.
pub open spec fn ask_s(q: QueryV, tape: Seq<u64>, pos: int) -> (int, Result<u64, StopV>) {
    if 0 <= pos < tape.len() {
        (pos + 1, Ok(tape[pos]))
    } else {
        (pos, Err(StopV::Need(q)))
    }
}

pub(crate) fn ask(q: Query, tape: &Vec<u64>, pos: &mut usize) -> (r: Result<u64, Stop>)
    ensures
        ({
            let (p2, rs) = ask_s(q@, tape@, *old(pos) as int);
            *final(pos) as int == p2 && res_view(r) == rs
        }),
{
    if *pos < tape.len() {
        let a = tape[*pos];
        *pos = *pos + 1;
        Ok(a)
    } else {
        Err(Stop::Need(q))
    }
}

/// The factorial product `1 * 2 * ... * n` in wrapping 64-bit arithmetic
/// (factorials beyond `20!` exceed 64 bits and wrap).
pub open spec fn wrap_prod(n: u64) -> u64
    decreases n,
{
    if n == 0 {
        1u64
    } else {
        wrap_prod((n - 1) as u64).wrapping_mul(n)
    }
}

/// The factorial of the value with bit pattern `v`: the operand must be a
/// non-negative whole number within `1.0e-8`, and the result is the double
/// nearest the product of the integers `1..=trunc(v)` (the empty product for
/// zero).
pub open spec fn fact_s(v: u64, tape: Seq<u64>, pos: int) -> (int, Result<u64, StopV>) {
    let (p1, ra) = ask_s(QueryV::Abs(v), tape, pos);
    match ra {
        Err(s) => (p1, Err(s)),
        Ok(av) => {
            let (p2, rd) = ask_s(QueryV::Sub(av, v), tape, p1);
            match rd {
                Err(s) => (p2, Err(s)),
                Ok(dv) => {
                    let (p3, rg) = ask_s(QueryV::Gt(dv, FACT_TOLERANCE_BITS), tape, p2);
                    match rg {
                        Err(s) => (p3, Err(s)),
                        Ok(gv) => {
                            let (p4, rl) = ask_s(QueryV::Lt(v, ZERO_BITS), tape, p3);
                            match rl {
                                Err(s) => (p4, Err(s)),
                                Ok(lv) => {
                                    if truthy(gv) || truthy(lv) {
                                        (p4, Err(StopV::Fail(ErrorV::InvalidFactorial(v))))
                                    } else {
                                        let (p5, rt) = ask_s(QueryV::Trunc(av), tape, p4);
                                        match rt {
                                            Err(s) => (p5, Err(s)),
                                            Ok(n) => ask_s(QueryV::OfInt(wrap_prod(n)), tape, p5),
                                        }
                                    }
                                },
                            }
                        },
                    }
                },
            }
        },
    }
}

/// Applying a unary operator to the value with bit pattern `v`. Prefix `+`
/// is the identity and needs no arithmetic.
pub open spec fn apply_unary_s(op: UnOp, v: u64, tape: Seq<u64>, pos: int) -> (int, Result<
    u64,
    StopV,
>) {
    match op {
        UnOp::Pos => (pos, Ok(v)),
        UnOp::Neg => ask_s(QueryV::Neg(v), tape, pos),
        UnOp::Fact => fact_s(v, tape, pos),
    }
}

/// Applying a binary operator. `^` first rejects a negative exponent with
/// `InvalidExponent`; the four others follow double arithmetic as the answer
/// tape gives it (division by zero included: it yields a value, never an
/// error).
pub open spec fn apply_binary_s(op: BinOp, l: u64, r: u64, tape: Seq<u64>, pos: int) -> (int, Result<
    u64,
    StopV,
>) {
    match op {
        BinOp::Add => ask_s(QueryV::Add(l, r), tape, pos),
        BinOp::Sub => ask_s(QueryV::Sub(l, r), tape, pos),
        BinOp::Mul => ask_s(QueryV::Mul(l, r), tape, pos),
        BinOp::Div => ask_s(QueryV::Div(l, r), tape, pos),
        BinOp::Pow => {
            let (p1, rc) = ask_s(QueryV::Lt(r, ZERO_BITS), tape, pos);
            match rc {
                Err(s) => (p1, Err(s)),
                Ok(cv) => {
                    if truthy(cv) {
                        (p1, Err(StopV::Fail(ErrorV::InvalidExponent(r))))
                    } else {
                        ask_s(QueryV::Pow(l, r), tape, p1)
                    }
                },
            }
        },
    }
}

/// Applying a named function call. Only `sqrt` and `abs` exist; any other
/// name fails with `UnknownFunction`.
pub open spec fn apply_call_s(name: Seq<char>, v: u64, tape: Seq<u64>, pos: int) -> (int, Result<
    u64,
    StopV,
>) {
    if name == "sqrt"@ {
        ask_s(QueryV::Sqrt(v), tape, pos)
    } else if name == "abs"@ {
        ask_s(QueryV::Abs(v), tape, pos)
    } else {
        (pos, Err(StopV::Fail(ErrorV::UnknownFunction(name))))
    }
}

pub(crate) fn fact_op(v: u64, tape: &Vec<u64>, pos: &mut usize) -> (r: Result<u64, Stop>)
    ensures
        ({
            let (p2, rs) = fact_s(v, tape@, *old(pos) as int);
            *final(pos) as int == p2 && res_view(r) == rs
        }),
{
    let av = match ask(Query::Abs(v), tape, pos) {
        Ok(a) => a,
        Err(s) => {
            return Err(s);
        },
    };
    let dv = match ask(Query::Sub(av, v), tape, pos) {
        Ok(a) => a,
        Err(s) => {
            return Err(s);
        },
    };
    let gv = match ask(Query::Gt(dv, FACT_TOLERANCE_BITS), tape, pos) {
        Ok(a) => a,
        Err(s) => {
            return Err(s);
        },
    };
    let lv = match ask(Query::Lt(v, ZERO_BITS), tape, pos) {
        Ok(a) => a,
        Err(s) => {
            return Err(s);
        },
    };
    if gv != 0 || lv != 0 {
        return Err(Stop::Fail(Error::InvalidFactorial(v)));
    }
    let n = match ask(Query::Trunc(av), tape, pos) {
        Ok(a) => a,
        Err(s) => {
            return Err(s);
        },
    };
    let mut acc: u64 = 1;
    let mut i: u64 = 0;
    while i < n
        invariant
            i <= n,
            acc == wrap_prod(i),
        decreases n - i,
    {
        i = i + 1;
        acc = acc.wrapping_mul(i);
    }
    ask(Query::OfInt(acc), tape, pos)
}

pub(crate) fn apply_unary(op: UnOp, v: u64, tape: &Vec<u64>, pos: &mut usize) -> (r: Result<
    u64,
    Stop,
>)
    ensures
        ({
            let (p2, rs) = apply_unary_s(op, v, tape@, *old(pos) as int);
            *final(pos) as int == p2 && res_view(r) == rs
        }),
{
    match op {
        UnOp::Pos => Ok(v),
        UnOp::Neg => ask(Query::Neg(v), tape, pos),
        UnOp::Fact => fact_op(v, tape, pos),
    }
}

pub(crate) fn apply_binary(op: BinOp, l: u64, r: u64, tape: &Vec<u64>, pos: &mut usize) -> (res:
    Result<u64, Stop>)
    ensures
        ({
            let (p2, rs) = apply_binary_s(op, l, r, tape@, *old(pos) as int);
            *final(pos) as int == p2 && res_view(res) == rs
        }),
{
    match op {
        BinOp::Add => ask(Query::Add(l, r), tape, pos),
        BinOp::Sub => ask(Query::Sub(l, r), tape, pos),
        BinOp::Mul => ask(Query::Mul(l, r), tape, pos),
        BinOp::Div => ask(Query::Div(l, r), tape, pos),
        BinOp::Pow => {
            let cv = match ask(Query::Lt(r, ZERO_BITS), tape, pos) {
                Ok(a) => a,
                Err(s) => {
                    return Err(s);
                },
            };
            if cv != 0 {
                Err(Stop::Fail(Error::InvalidExponent(r)))
            } else {
                ask(Query::Pow(l, r), tape, pos)
            }
        },
    }
}

pub(crate) fn apply_call(name: &String, v: u64, tape: &Vec<u64>, pos: &mut usize) -> (r: Result<
    u64,
    Stop,
>)
    ensures
        ({
            let (p2, rs) = apply_call_s(name@, v, tape@, *old(pos) as int);
            *final(pos) as int == p2 && res_view(r) == rs
        }),
{
    let sqrt_name: String = "sqrt".to_owned();
    let abs_name: String = "abs".to_owned();
    if *name == sqrt_name {
        ask(Query::Sqrt(v), tape, pos)
    } else if *name == abs_name {
        ask(Query::Abs(v), tape, pos)
    } else {
        Err(Stop::Fail(Error::UnknownFunction(name.clone())))
    }
}

} // verus!
