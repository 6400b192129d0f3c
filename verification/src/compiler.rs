//! The bytecode compiler: a purely structural, total lowering of a statement
//! tree to stack-machine instructions. Operands are emitted before the
//! operator that consumes them (post-order, children left to right); an
//! assignment emits its expression followed by one `SetLocal`. No error is
//! possible here: every error condition is deferred to execution.

use vstd::prelude::*;

use crate::ast::{BinOp, Expr, ExprV, Instr, InstrV, Stmt, StmtV, UnOp, instrs_view};

verus! {

/// The instruction a unary operator lowers to.
pub open spec fn unop_instr(op: UnOp) -> InstrV {
    match op {
        UnOp::Pos => InstrV::OpPos,
        UnOp::Neg => InstrV::OpNeg,
        UnOp::Fact => InstrV::OpFact,
    }
}

/// The instruction a binary operator lowers to.
pub open spec fn binop_instr(op: BinOp) -> InstrV {
    match op {
        BinOp::Add => InstrV::OpAdd,
        BinOp::Sub => InstrV::OpSub,
        BinOp::Mul => InstrV::OpMul,
        BinOp::Div => InstrV::OpDiv,
        BinOp::Pow => InstrV::OpPow,
    }
}

/// The code of an expression: its operands in post-order, each operator
/// after its operands.
pub open spec fn compile_expr_s(e: ExprV) -> Seq<InstrV>
    decreases e,
{
    match e {
        ExprV::Num(lit) => seq![InstrV::LoadConst(lit)],
        ExprV::Ident(name) => seq![InstrV::LoadLocal(name)],
        ExprV::Unary(op, a) => compile_expr_s(*a).push(unop_instr(op)),
        ExprV::Binary(op, l, r) => compile_expr_s(*l) + compile_expr_s(*r) + seq![
            binop_instr(op),
        ],
        ExprV::Call(name, a) => compile_expr_s(*a).push(InstrV::Call(name)),
    }
}

/// The code of a statement: an assignment ends with `SetLocal`.
pub open spec fn compile_spec(s: StmtV) -> Seq<InstrV> {
    match s {
        StmtV::Assign(name, e) => compile_expr_s(e).push(InstrV::SetLocal(name)),
        StmtV::Expr(e) => compile_expr_s(e),
    }
}

fn compile_expr(e: &Expr) -> (r: Vec<Instr>)
    ensures
        instrs_view(r@) == compile_expr_s(e@),
    decreases e,
{
    match e {
        Expr::Num(lit) => {
            let mut out: Vec<Instr> = Vec::new();
            out.push(Instr::LoadConst(lit.clone()));
            proof {
                assert(instrs_view(out@) =~= seq![InstrV::LoadConst(lit@)]);
            }
            out
        },
        Expr::Ident(name) => {
            let mut out: Vec<Instr> = Vec::new();
            out.push(Instr::LoadLocal(name.clone()));
            proof {
                assert(instrs_view(out@) =~= seq![InstrV::LoadLocal(name@)]);
            }
            out
        },
        Expr::Unary(op, a) => {
            let mut out = compile_expr(a);
            let ghost before = out@;
            let ins = match op {
                UnOp::Pos => Instr::OpPos,
                UnOp::Neg => Instr::OpNeg,
                UnOp::Fact => Instr::OpFact,
            };
            out.push(ins);
            proof {
                assert(instrs_view(out@) =~= instrs_view(before).push(unop_instr(*op)));
            }
            out
        },
        Expr::Binary(op, l, r) => {
            let mut out = compile_expr(l);
            let ghost left = out@;
            let mut right = compile_expr(r);
            let ghost rightv = right@;
            out.append(&mut right);
            proof {
                assert(instrs_view(left + rightv) =~= instrs_view(left) + instrs_view(rightv));
            }
            let ghost both = out@;
            let ins = match op {
                BinOp::Add => Instr::OpAdd,
                BinOp::Sub => Instr::OpSub,
                BinOp::Mul => Instr::OpMul,
                BinOp::Div => Instr::OpDiv,
                BinOp::Pow => Instr::OpPow,
            };
            out.push(ins);
            proof {
                assert(instrs_view(out@) =~= instrs_view(both).push(binop_instr(*op)));
                assert(compile_expr_s(e@) =~= instrs_view(out@));
            }
            out
        },
        Expr::Call(name, a) => {
            let mut out = compile_expr(a);
            let ghost before = out@;
            out.push(Instr::Call(name.clone()));
            proof {
                assert(instrs_view(out@) =~= instrs_view(before).push(InstrV::Call(name@)));
            }
            out
        },
    }
}

/// Compile one statement to its instruction sequence.
pub fn compile(stmt: &Stmt) -> (r: Vec<Instr>)
    ensures
        instrs_view(r@) == compile_spec(stmt@),
{
    match stmt {
        Stmt::Assign(name, e) => {
            let mut out = compile_expr(e);
            let ghost before = out@;
            out.push(Instr::SetLocal(name.clone()));
            proof {
                assert(instrs_view(out@) =~= instrs_view(before).push(InstrV::SetLocal(name@)));
            }
            out
        },
        Stmt::Expr(e) => compile_expr(e),
    }
}

} // verus!
