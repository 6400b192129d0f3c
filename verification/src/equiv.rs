//! The equivalence of the two execution strategies: for every statement,
//! every environment and every answer tape, interpreting the statement and
//! executing its compiled code reach the same outcome. Since both executors
//! consume tape answers in the same order (operands left to right, each
//! operator after its operands), a caller that answers each query the same
//! way — as machine arithmetic does — gets the same result from either
//! strategy. It also follows that compiled code never underflows the
//! machine's stack.

use vstd::prelude::*;

use crate::ast::{ErrorV, ExprV, InstrV, StmtV};
use crate::compiler::{binop_instr, compile_expr_s, compile_spec, unop_instr};
use crate::interpreter::{eval_expr_s, eval_spec};
use crate::num::{StopV, apply_binary_s, apply_unary_s};
use crate::vm::{RunV, exec_spec, run_s};

verus! {

/// Running two instruction sequences in a row is running the first, then the
/// second from where it left off.
proof fn lemma_run_append(
    a: Seq<InstrV>,
    b: Seq<InstrV>,
    stack: Seq<u64>,
    env: Map<Seq<char>, u64>,
    tape: Seq<u64>,
    pos: int,
)
    ensures
        run_s(a + b, stack, env, tape, pos) == match run_s(a, stack, env, tape, pos) {
            RunV::Done(s2, e2, p2) => run_s(b, s2, e2, tape, p2),
            RunV::Stop(x) => RunV::Stop(x),
        },
    decreases a.len(),
{
    if a.len() == 0 {
        assert(a + b =~= b);
    } else {
        assert((a + b).first() == a.first());
        assert((a + b).drop_first() =~= a.drop_first() + b);
        match crate::vm::step_s(a.first(), stack, env, tape, pos) {
            RunV::Done(s2, e2, p2) => {
                lemma_run_append(a.drop_first(), b, s2, e2, tape, p2);
            },
            RunV::Stop(x) => {},
        }
    }
}

/// Compiler correctness for one expression: running its code from any stack
/// pushes exactly the value the interpreter computes for it (consuming the
/// same answers), or stops with exactly the interpreter's stop. The
/// environment is never touched.
pub proof fn lemma_compile_expr_run(
    e: ExprV,
    stack: Seq<u64>,
    env: Map<Seq<char>, u64>,
    tape: Seq<u64>,
    pos: int,
)
    ensures
        run_s(compile_expr_s(e), stack, env, tape, pos) == ({
            let (p2, r) = eval_expr_s(e, env, tape, pos);
            match r {
                Ok(v) => RunV::Done(stack.push(v), env, p2),
                Err(s) => RunV::Stop(s),
            }
        }),
    decreases e,
{
    reveal_with_fuel(run_s, 3);
    match e {
        ExprV::Num(lit) => {
            let code = compile_expr_s(e);
            assert(code.first() == InstrV::LoadConst(lit));
            assert(code.drop_first() =~= Seq::<InstrV>::empty());
        },
        ExprV::Ident(name) => {
            let code = compile_expr_s(e);
            assert(code.first() == InstrV::LoadLocal(name));
            assert(code.drop_first() =~= Seq::<InstrV>::empty());
        },
        ExprV::Unary(op, a) => {
            let ca = compile_expr_s(*a);
            let sing = seq![unop_instr(op)];
            assert(compile_expr_s(e) =~= ca + sing);
            lemma_run_append(ca, sing, stack, env, tape, pos);
            lemma_compile_expr_run(*a, stack, env, tape, pos);
            let (p1, r1) = eval_expr_s(*a, env, tape, pos);
            match r1 {
                Ok(v) => {
                    let st2 = stack.push(v);
                    assert(sing.first() == unop_instr(op));
                    assert(sing.drop_first() =~= Seq::<InstrV>::empty());
                    assert(st2.last() == v);
                    assert(st2.drop_last() =~= stack);
                    let (p2, r2) = apply_unary_s(op, v, tape, p1);
                    match r2 {
                        Ok(v2) => {
                            assert(st2.drop_last().push(v2) =~= stack.push(v2));
                        },
                        Err(_) => {},
                    }
                },
                Err(_) => {},
            }
        },
        ExprV::Binary(op, l, r) => {
            let cl = compile_expr_s(*l);
            let cr = compile_expr_s(*r);
            let sing = seq![binop_instr(op)];
            assert(compile_expr_s(e) =~= (cl + cr) + sing);
            lemma_run_append(cl + cr, sing, stack, env, tape, pos);
            lemma_run_append(cl, cr, stack, env, tape, pos);
            lemma_compile_expr_run(*l, stack, env, tape, pos);
            let (p1, r1) = eval_expr_s(*l, env, tape, pos);
            match r1 {
                Ok(lv) => {
                    lemma_compile_expr_run(*r, stack.push(lv), env, tape, p1);
                    let (p2, r2) = eval_expr_s(*r, env, tape, p1);
                    match r2 {
                        Ok(rv) => {
                            let st2 = stack.push(lv).push(rv);
                            assert(sing.first() == binop_instr(op));
                            assert(sing.drop_first() =~= Seq::<InstrV>::empty());
                            assert(st2.len() >= 2);
                            assert(st2.last() == rv);
                            assert(st2[st2.len() - 2] == lv);
                            assert(st2.drop_last().drop_last() =~= stack);
                            let (p3, r3) = apply_binary_s(op, lv, rv, tape, p2);
                            match r3 {
                                Ok(v) => {
                                    assert(st2.drop_last().drop_last().push(v) =~= stack.push(v));
                                },
                                Err(_) => {},
                            }
                        },
                        Err(_) => {},
                    }
                },
                Err(_) => {},
            }
        },
        ExprV::Call(name, a) => {
            let ca = compile_expr_s(*a);
            let sing = seq![InstrV::Call(name)];
            assert(compile_expr_s(e) =~= ca + sing);
            lemma_run_append(ca, sing, stack, env, tape, pos);
            lemma_compile_expr_run(*a, stack, env, tape, pos);
            let (p1, r1) = eval_expr_s(*a, env, tape, pos);
            match r1 {
                Ok(v) => {
                    let st2 = stack.push(v);
                    assert(sing.first() == InstrV::Call(name));
                    assert(sing.drop_first() =~= Seq::<InstrV>::empty());
                    assert(st2.last() == v);
                    assert(st2.drop_last() =~= stack);
                    let (p2, r2) = crate::num::apply_call_s(name, v, tape, p1);
                    match r2 {
                        Ok(v2) => {
                            assert(st2.drop_last().push(v2) =~= stack.push(v2));
                        },
                        Err(_) => {},
                    }
                },
                Err(_) => {},
            }
        },
    }
}

/// The two execution strategies agree on every statement, environment and
/// answer tape: interpreting a statement and executing its compiled code
/// starve on the same query, fail with the same error, or both succeed with
/// the same resulting environment — and on success the machine's final top
/// of stack is the interpreted value for a bare expression, and nothing for
/// an assignment, whose value the `SetLocal` instruction has popped and
/// bound in the environment instead. In particular, compiled code never
/// fails with `StackUnderflow`.
pub proof fn lemma_pipeline_equivalence(s: StmtV, env: Map<Seq<char>, u64>, tape: Seq<u64>)
    ensures
        ({
            let ir = eval_spec(s, env, tape);
            let vr = exec_spec(compile_spec(s), env, tape);
            match ir {
                Ok((name, value, env2)) => vr == Ok::<(Option<u64>, Map<Seq<char>, u64>), StopV>(
                    (
                        match name {
                            Some(_) => None,
                            None => Some(value),
                        },
                        env2,
                    ),
                ),
                Err(st) => vr == Err::<(Option<u64>, Map<Seq<char>, u64>), StopV>(st),
            }
        }),
{
    reveal_with_fuel(run_s, 3);
    let empty = Seq::<u64>::empty();
    match s {
        StmtV::Expr(e) => {
            lemma_compile_expr_run(e, empty, env, tape, 0);
            let (p, r) = eval_expr_s(e, env, tape, 0);
            match r {
                Ok(v) => {
                    assert(empty.push(v).len() == 1);
                    assert(empty.push(v).last() == v);
                },
                Err(_) => {},
            }
        },
        StmtV::Assign(name, e) => {
            let ce = compile_expr_s(e);
            let sing = seq![InstrV::SetLocal(name)];
            assert(compile_spec(s) =~= ce + sing);
            lemma_run_append(ce, sing, empty, env, tape, 0);
            lemma_compile_expr_run(e, empty, env, tape, 0);
            let (p, r) = eval_expr_s(e, env, tape, 0);
            match r {
                Ok(v) => {
                    let st = empty.push(v);
                    assert(sing.first() == InstrV::SetLocal(name));
                    assert(sing.drop_first() =~= Seq::<InstrV>::empty());
                    assert(st.len() == 1);
                    assert(st.last() == v);
                    assert(st.drop_last() =~= empty);
                },
                Err(_) => {},
            }
        },
    }
}

/// The interpreter can starve or fail, but never with `StackUnderflow`: that
/// error belongs to the machine alone.
proof fn lemma_eval_no_underflow(e: ExprV, env: Map<Seq<char>, u64>, tape: Seq<u64>, pos: int)
    ensures
        eval_expr_s(e, env, tape, pos).1 != Err::<u64, StopV>(
            StopV::Fail(ErrorV::StackUnderflow),
        ),
    decreases e,
{
    match e {
        ExprV::Num(_) => {},
        ExprV::Ident(_) => {},
        ExprV::Unary(op, a) => {
            lemma_eval_no_underflow(*a, env, tape, pos);
        },
        ExprV::Binary(op, l, r) => {
            lemma_eval_no_underflow(*l, env, tape, pos);
            let (p1, r1) = eval_expr_s(*l, env, tape, pos);
            if r1 is Ok {
                lemma_eval_no_underflow(*r, env, tape, p1);
            }
        },
        ExprV::Call(name, a) => {
            lemma_eval_no_underflow(*a, env, tape, pos);
        },
    }
}

/// A statement's compiled code never pops from an empty stack: on every
/// environment and every answer tape, executing what `compile_spec` produced
/// cannot fail with `StackUnderflow`.
pub proof fn lemma_compiled_code_never_underflows(
    s: StmtV,
    env: Map<Seq<char>, u64>,
    tape: Seq<u64>,
)
    ensures
        exec_spec(compile_spec(s), env, tape) != Err::<(Option<u64>, Map<Seq<char>, u64>), StopV>(
            StopV::Fail(ErrorV::StackUnderflow),
        ),
{
    lemma_pipeline_equivalence(s, env, tape);
    match s {
        StmtV::Expr(e) => {
            lemma_eval_no_underflow(e, env, tape, 0);
        },
        StmtV::Assign(name, e) => {
            lemma_eval_no_underflow(e, env, tape, 0);
        },
    }
}

} // verus!
