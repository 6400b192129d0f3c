//! The stack virtual machine: executes an instruction sequence against the
//! environment, instruction by instruction, over one operand stack of double
//! bit patterns. Binary operators pop the right operand first; popping from
//! an empty stack is the internal `StackUnderflow` failure, which never
//! happens on compiled statements (see `equiv`). The environment is changed
//! only when the whole sequence runs to completion.

use vstd::prelude::*;

use crate::ast::{BinOp, Error, ErrorV, Instr, InstrV, UnOp, instrs_view};
use crate::env::Env;
use crate::num::{
    Query, QueryV, Stop, StopV, apply_binary, apply_binary_s, apply_call, apply_call_s,
    apply_unary_s, ask, ask_s, fact_op,
};

verus! {

/// A machine state after some instructions: the stack, the environment and
/// the tape position — or the stop that ended the run.
pub enum RunV {
    Done(Seq<u64>, Map<Seq<char>, u64>, int),
    Stop(StopV),
}

/// What executing a whole sequence yields: the top of the final stack (if
/// any value remains) and the resulting environment, or the stop.
pub type ExecSpecR = Result<(Option<u64>, Map<Seq<char>, u64>), StopV>;

/// One unary instruction: pop the operand, apply, push the result. The
/// environment is untouched.
pub open spec fn un_step_s(op: UnOp, stack: Seq<u64>, tape: Seq<u64>, pos: int) -> Result<
    (Seq<u64>, int),
    StopV,
> {
    if stack.len() == 0 {
        Err(StopV::Fail(ErrorV::StackUnderflow))
    } else {
        let (p, r) = apply_unary_s(op, stack.last(), tape, pos);
        match r {
            Ok(v) => Ok((stack.drop_last().push(v), p)),
            Err(s) => Err(s),
        }
    }
}

/// One binary instruction: pop the right operand, then the left, apply, push
/// the result. The environment is untouched.
pub open spec fn bin_step_s(op: BinOp, stack: Seq<u64>, tape: Seq<u64>, pos: int) -> Result<
    (Seq<u64>, int),
    StopV,
> {
    if stack.len() < 2 {
        Err(StopV::Fail(ErrorV::StackUnderflow))
    } else {
        let (p, r) = apply_binary_s(op, stack[stack.len() - 2], stack.last(), tape, pos);
        match r {
            Ok(v) => Ok((stack.drop_last().drop_last().push(v), p)),
            Err(s) => Err(s),
        }
    }
}

/// A stack-and-position step outcome, lifted to a machine state.
pub open spec fn lift_s(r: Result<(Seq<u64>, int), StopV>, env: Map<Seq<char>, u64>) -> RunV {
    match r {
        Ok((s2, p2)) => RunV::Done(s2, env, p2),
        Err(s) => RunV::Stop(s),
    }
}

/// The effect of one instruction on a machine state.
pub open spec fn step_s(
    ins: InstrV,
    stack: Seq<u64>,
    env: Map<Seq<char>, u64>,
    tape: Seq<u64>,
    pos: int,
) -> RunV {
    match ins {
        InstrV::LoadConst(lit) => {
            let (p, r) = ask_s(QueryV::Lit(lit), tape, pos);
            match r {
                Ok(v) => RunV::Done(stack.push(v), env, p),
                Err(s) => RunV::Stop(s),
            }
        },
        InstrV::LoadLocal(name) => if env.contains_key(name) {
            RunV::Done(stack.push(env[name]), env, pos)
        } else {
            RunV::Stop(StopV::Fail(ErrorV::UndefinedVariable(name)))
        },
        InstrV::SetLocal(name) => if stack.len() == 0 {
            RunV::Stop(StopV::Fail(ErrorV::StackUnderflow))
        } else {
            RunV::Done(stack.drop_last(), env.insert(name, stack.last()), pos)
        },
        InstrV::OpPos => lift_s(un_step_s(UnOp::Pos, stack, tape, pos), env),
        InstrV::OpNeg => lift_s(un_step_s(UnOp::Neg, stack, tape, pos), env),
        InstrV::OpFact => lift_s(un_step_s(UnOp::Fact, stack, tape, pos), env),
        InstrV::OpAdd => lift_s(bin_step_s(BinOp::Add, stack, tape, pos), env),
        InstrV::OpSub => lift_s(bin_step_s(BinOp::Sub, stack, tape, pos), env),
        InstrV::OpMul => lift_s(bin_step_s(BinOp::Mul, stack, tape, pos), env),
        InstrV::OpDiv => lift_s(bin_step_s(BinOp::Div, stack, tape, pos), env),
        InstrV::OpPow => lift_s(bin_step_s(BinOp::Pow, stack, tape, pos), env),
        InstrV::Call(name) => {
            if stack.len() == 0 {
                RunV::Stop(StopV::Fail(ErrorV::StackUnderflow))
            } else {
                let (p, r) = apply_call_s(name, stack.last(), tape, pos);
                match r {
                    Ok(v) => RunV::Done(stack.drop_last().push(v), env, p),
                    Err(s) => RunV::Stop(s),
                }
            }
        },
    }
}

/// Running a sequence from a machine state, instruction by instruction.
pub open spec fn run_s(
    instrs: Seq<InstrV>,
    stack: Seq<u64>,
    env: Map<Seq<char>, u64>,
    tape: Seq<u64>,
    pos: int,
) -> RunV
    decreases instrs.len(),
{
    if instrs.len() == 0 {
        RunV::Done(stack, env, pos)
    } else {
        match step_s(instrs.first(), stack, env, tape, pos) {
            RunV::Done(s2, e2, p2) => run_s(instrs.drop_first(), s2, e2, tape, p2),
            RunV::Stop(x) => RunV::Stop(x),
        }
    }
}

/// Executing a whole sequence from an empty stack: the final top of stack
/// (none after an assignment, whose `SetLocal` pops its value) and the final
/// environment.
pub open spec fn exec_spec(instrs: Seq<InstrV>, env: Map<Seq<char>, u64>, tape: Seq<u64>) -> ExecSpecR {
    match run_s(instrs, Seq::empty(), env, tape, 0) {
        RunV::Done(stack, e2, p) => Ok(
            (
                if stack.len() > 0 {
                    Some(stack.last())
                } else {
                    None
                },
                e2,
            ),
        ),
        RunV::Stop(s) => Err(s),
    }
}

/// How one machine run ended. Starvation and failure leave the environment
/// untouched; even a completed run commits its bindings only at the end.
#[derive(Debug)]
pub enum ExecOutcome {
    Done(Option<u64>),
    Need(Query),
    Fail(Error),
}

/// Execute an instruction sequence against `env`, reading arithmetic answers
/// from `tape`. On `Need(q)` the caller appends the answer to `q` and calls
/// again; answers are consumed in execution order, so a caller that answers
/// deterministically replays the same run.
pub fn execute(instrs: &Vec<Instr>, env: &mut Env, tape: &Vec<u64>) -> (r: ExecOutcome)
    ensures
        ({
            let rs = exec_spec(instrs_view(instrs@), old(env)@, tape@);
            match r {
                ExecOutcome::Done(v) => rs == Ok::<_, StopV>((v, final(env)@)),
                ExecOutcome::Need(q) => rs == Err::<(Option<u64>, Map<Seq<char>, u64>), StopV>(
                    StopV::Need(q@),
                ) && final(env)@ == old(env)@,
                ExecOutcome::Fail(er) => rs == Err::<(Option<u64>, Map<Seq<char>, u64>), StopV>(
                    StopV::Fail(er@),
                ) && final(env)@ == old(env)@,
            }
        }),
{
    let ghost iv = instrs_view(instrs@);
    let mut work = env.duplicate();
    let mut stack: Vec<u64> = Vec::new();
    let mut pos: usize = 0;
    let mut i: usize = 0;
    proof {
        assert(iv.skip(0) =~= iv);
        assert(stack@ =~= Seq::<u64>::empty());
    }
    while i < instrs.len()
        invariant
            i <= instrs@.len(),
            iv == instrs_view(instrs@),
            iv.len() == instrs@.len(),
            env@ == old(env)@,
            run_s(iv, Seq::empty(), old(env)@, tape@, 0) == run_s(
                iv.skip(i as int),
                stack@,
                work@,
                tape@,
                pos as int,
            ),
        decreases instrs@.len() - i,
    {
        proof {
            assert(iv.skip(i as int).first() == iv[i as int]);
            assert(iv.skip(i as int).drop_first() =~= iv.skip(i + 1));
        }
        let ghost stack0 = stack@;
        let ins = &instrs[i];
        match ins {
            Instr::LoadConst(lit) => {
                match ask(Query::Lit(lit.clone()), tape, &mut pos) {
                    Ok(v) => {
                        stack.push(v);
                    },
                    Err(s) => {
                        return stop_outcome(s);
                    },
                }
            },
            Instr::LoadLocal(name) => {
                match work.get(name) {
                    Some(v) => {
                        stack.push(v);
                    },
                    None => {
                        return ExecOutcome::Fail(Error::UndefinedVariable(name.clone()));
                    },
                }
            },
            Instr::SetLocal(name) => {
                match stack.pop() {
                    Some(v) => {
                        work.set(name.clone(), v);
                    },
                    None => {
                        return ExecOutcome::Fail(Error::StackUnderflow);
                    },
                }
            },
            Instr::OpPos => {
                match stack.pop() {
                    Some(v) => {
                        stack.push(v);
                        proof {
                            assert(stack@ =~= stack0);
                        }
                    },
                    None => {
                        return ExecOutcome::Fail(Error::StackUnderflow);
                    },
                }
            },
            Instr::OpNeg => {
                match stack.pop() {
                    Some(v) => {
                        match ask(Query::Neg(v), tape, &mut pos) {
                            Ok(v2) => {
                                stack.push(v2);
                            },
                            Err(s) => {
                                return stop_outcome(s);
                            },
                        }
                    },
                    None => {
                        return ExecOutcome::Fail(Error::StackUnderflow);
                    },
                }
            },
            Instr::OpFact => {
                match stack.pop() {
                    Some(v) => {
                        match fact_op(v, tape, &mut pos) {
                            Ok(v2) => {
                                stack.push(v2);
                            },
                            Err(s) => {
                                return stop_outcome(s);
                            },
                        }
                    },
                    None => {
                        return ExecOutcome::Fail(Error::StackUnderflow);
                    },
                }
            },
            Instr::OpAdd => {
                match bin_step(BinOp::Add, &mut stack, tape, &mut pos) {
                    Ok(_) => {
                    },
                    Err(s) => {
                        return stop_outcome(s);
                    },
                }
            },
            Instr::OpSub => {
                match bin_step(BinOp::Sub, &mut stack, tape, &mut pos) {
                    Ok(_) => {
                    },
                    Err(s) => {
                        return stop_outcome(s);
                    },
                }
            },
            Instr::OpMul => {
                match bin_step(BinOp::Mul, &mut stack, tape, &mut pos) {
                    Ok(_) => {
                    },
                    Err(s) => {
                        return stop_outcome(s);
                    },
                }
            },
            Instr::OpDiv => {
                match bin_step(BinOp::Div, &mut stack, tape, &mut pos) {
                    Ok(_) => {
                    },
                    Err(s) => {
                        return stop_outcome(s);
                    },
                }
            },
            Instr::OpPow => {
                match bin_step(BinOp::Pow, &mut stack, tape, &mut pos) {
                    Ok(_) => {
                    },
                    Err(s) => {
                        return stop_outcome(s);
                    },
                }
            },
            Instr::Call(name) => {
                match stack.pop() {
                    Some(v) => {
                        match apply_call(name, v, tape, &mut pos) {
                            Ok(v2) => {
                                stack.push(v2);
                            },
                            Err(s) => {
                                return stop_outcome(s);
                            },
                        }
                    },
                    None => {
                        return ExecOutcome::Fail(Error::StackUnderflow);
                    },
                }
            },
        }
        i = i + 1;
    }
    proof {
        assert(iv.skip(i as int) =~= Seq::<InstrV>::empty());
    }
    *env = work;
    match stack.pop() {
        Some(v) => ExecOutcome::Done(Some(v)),
        None => ExecOutcome::Done(None),
    }
}

/// The outcome a stop maps to.
fn stop_outcome(s: Stop) -> (r: ExecOutcome)
    ensures
        match s {
            Stop::Need(q) => r matches ExecOutcome::Need(q2) && q2 == q,
            Stop::Fail(e) => r matches ExecOutcome::Fail(e2) && e2 == e,
        },
{
    match s {
        Stop::Need(q) => ExecOutcome::Need(q),
        Stop::Fail(er) => ExecOutcome::Fail(er),
    }
}

/// Pop the right then the left operand, apply `op`, push the result.
fn bin_step(op: BinOp, stack: &mut Vec<u64>, tape: &Vec<u64>, pos: &mut usize) -> (r: Result<
    (),
    Stop,
>)
    ensures
        ({
            let before = bin_step_s(op, old(stack)@, tape@, *old(pos) as int);
            match r {
                Ok(_) => before == Ok::<(Seq<u64>, int), StopV>(
                    (final(stack)@, *final(pos) as int),
                ),
                Err(s) => before == Err::<(Seq<u64>, int), StopV>(s@),
            }
        }),
{
    let rv = match stack.pop() {
        Some(v) => v,
        None => {
            return Err(Stop::Fail(Error::StackUnderflow));
        },
    };
    let lv = match stack.pop() {
        Some(v) => v,
        None => {
            return Err(Stop::Fail(Error::StackUnderflow));
        },
    };
    match apply_binary(op, lv, rv, tape, pos) {
        Ok(v) => {
            stack.push(v);
            Ok(())
        },
        Err(s) => Err(s),
    }
}

} // verus!
