//! The tree-walking interpreter: evaluates a statement's tree directly
//! against the environment. Identifiers are looked up as the tree is walked;
//! an assignment binds its name only after the right-hand side has fully
//! evaluated, so a failing statement leaves the environment untouched.

use vstd::prelude::*;

use crate::ast::{Error, Expr, ExprV, Stmt, StmtV};
use crate::env::Env;
use crate::num::{
    Query, Stop, StopV, apply_binary, apply_binary_s, apply_call, apply_call_s, apply_unary,
    apply_unary_s, ask, ask_s, res_view, QueryV,
};

verus! {

/// What interpreting one statement yields: the spec-level name, value and
/// resulting environment, or the stop that ended the run.
pub type EvalSpecR = Result<(Option<Seq<char>>, u64, Map<Seq<char>, u64>), StopV>;

/// The value of an expression, read against an environment and an answer
/// tape: the new tape position, and the value's bit pattern or the stop.
/// Children are evaluated left to right, each operator after its operands.
pub open spec fn eval_expr_s(e: ExprV, env: Map<Seq<char>, u64>, tape: Seq<u64>, pos: int) -> (int, Result<
    u64,
    StopV,
>)
    decreases e,
{
    match e {
        ExprV::Num(lit) => ask_s(QueryV::Lit(lit), tape, pos),
        ExprV::Ident(name) => if env.contains_key(name) {
            (pos, Ok(env[name]))
        } else {
            (pos, Err(StopV::Fail(crate::ast::ErrorV::UndefinedVariable(name))))
        },
        ExprV::Unary(op, a) => {
            let (p1, r1) = eval_expr_s(*a, env, tape, pos);
            match r1 {
                Ok(v) => apply_unary_s(op, v, tape, p1),
                Err(s) => (p1, Err(s)),
            }
        },
        ExprV::Binary(op, l, r) => {
            let (p1, r1) = eval_expr_s(*l, env, tape, pos);
            match r1 {
                Ok(lv) => {
                    let (p2, r2) = eval_expr_s(*r, env, tape, p1);
                    match r2 {
                        Ok(rv) => apply_binary_s(op, lv, rv, tape, p2),
                        Err(s) => (p2, Err(s)),
                    }
                },
                Err(s) => (p1, Err(s)),
            }
        },
        ExprV::Call(name, a) => {
            let (p1, r1) = eval_expr_s(*a, env, tape, pos);
            match r1 {
                Ok(v) => apply_call_s(name, v, tape, p1),
                Err(s) => (p1, Err(s)),
            }
        },
    }
}

/// Interpreting one statement: a bare expression returns its value and
/// leaves the environment alone; an assignment also returns the bound name
/// and inserts the value under it.
pub open spec fn eval_spec(s: StmtV, env: Map<Seq<char>, u64>, tape: Seq<u64>) -> EvalSpecR {
    match s {
        StmtV::Expr(e) => {
            let (p, r) = eval_expr_s(e, env, tape, 0);
            match r {
                Ok(v) => Ok((None, v, env)),
                Err(st) => Err(st),
            }
        },
        StmtV::Assign(name, e) => {
            let (p, r) = eval_expr_s(e, env, tape, 0);
            match r {
                Ok(v) => Ok((Some(name), v, env.insert(name, v))),
                Err(st) => Err(st),
            }
        },
    }
}

/// The spec view of an optionally bound name.
pub open spec fn opt_name_view(o: Option<String>) -> Option<Seq<char>> {
    match o {
        Some(s) => Some(s@),
        None => None,
    }
}

fn eval_expr(e: &Expr, env: &Env, tape: &Vec<u64>, pos: &mut usize) -> (r: Result<u64, Stop>)
    ensures
        ({
            let (p2, rs) = eval_expr_s(e@, env@, tape@, *old(pos) as int);
            *final(pos) as int == p2 && res_view(r) == rs
        }),
    decreases e,
{
    match e {
        Expr::Num(lit) => ask(Query::Lit(lit.clone()), tape, pos),
        Expr::Ident(name) => match env.get(name) {
            Some(v) => Ok(v),
            None => Err(Stop::Fail(Error::UndefinedVariable(name.clone()))),
        },
        Expr::Unary(op, a) => {
            let v = match eval_expr(a, env, tape, pos) {
                Ok(v) => v,
                Err(s) => {
                    return Err(s);
                },
            };
            apply_unary(*op, v, tape, pos)
        },
        Expr::Binary(op, l, r) => {
            let lv = match eval_expr(l, env, tape, pos) {
                Ok(v) => v,
                Err(s) => {
                    return Err(s);
                },
            };
            let rv = match eval_expr(r, env, tape, pos) {
                Ok(v) => v,
                Err(s) => {
                    return Err(s);
                },
            };
            apply_binary(*op, lv, rv, tape, pos)
        },
        Expr::Call(name, a) => {
            let v = match eval_expr(a, env, tape, pos) {
                Ok(v) => v,
                Err(s) => {
                    return Err(s);
                },
            };
            apply_call(name, v, tape, pos)
        },
    }
}

/// How one interpreter run ended: a result (with the bound name for an
/// assignment), starvation for one more answer, or a failure. Starvation and
/// failure leave the environment untouched.
#[derive(Debug)]
pub enum EvalOutcome {
    Done(Option<String>, u64),
    Need(Query),
    Fail(Error),
}

/// Interpret one statement against `env`, reading arithmetic answers from
/// `tape`. On `Need(q)` the caller appends the answer to `q` to the tape and
/// calls again; answers are consumed in evaluation order, so a caller that
/// answers deterministically replays the same run.
pub fn eval(stmt: &Stmt, env: &mut Env, tape: &Vec<u64>) -> (r: EvalOutcome)
    ensures
        ({
            let rs = eval_spec(stmt@, old(env)@, tape@);
            match r {
                EvalOutcome::Done(name, value) => rs == Ok::<_, StopV>(
                    (opt_name_view(name), value, final(env)@),
                ),
                EvalOutcome::Need(q) => rs == Err::<(Option<Seq<char>>, u64, Map<Seq<char>, u64>), StopV>(StopV::Need(q@))
                    && final(env)@ == old(env)@,
                EvalOutcome::Fail(er) => rs == Err::<(Option<Seq<char>>, u64, Map<Seq<char>, u64>), StopV>(StopV::Fail(er@))
                    && final(env)@ == old(env)@,
            }
        }),
{
    match stmt {
        Stmt::Expr(e) => {
            let mut pos: usize = 0;
            match eval_expr(e, env, tape, &mut pos) {
                Ok(v) => EvalOutcome::Done(None, v),
                Err(Stop::Need(q)) => EvalOutcome::Need(q),
                Err(Stop::Fail(er)) => EvalOutcome::Fail(er),
            }
        },
        Stmt::Assign(name, e) => {
            let mut pos: usize = 0;
            match eval_expr(e, env, tape, &mut pos) {
                Ok(v) => {
                    env.set(name.clone(), v);
                    EvalOutcome::Done(Some(name.clone()), v)
                },
                Err(Stop::Need(q)) => EvalOutcome::Need(q),
                Err(Stop::Fail(er)) => EvalOutcome::Fail(er),
            }
        },
    }
}

} // verus!
