//! An interactive calculator core: a tokenizer, a binding-power parser, and
//! two interchangeable execution strategies for one statement at a time — a
//! tree-walking interpreter and a bytecode compiler with a stack machine.
//!
//! Numeric values are IEEE-754 double-precision bit patterns carried as
//! `u64`. The core never computes on them itself: whenever an executor needs
//! an arithmetic result it stops with a [`num::Query`], and the caller (the
//! surrounding shell) appends the answer to a tape of answers and runs the
//! statement again. Given the same tape, both execution strategies reach the
//! same result; `equiv::lemma_pipeline_equivalence` proves it.

pub mod ast;
pub mod compiler;
pub mod env;
pub mod equiv;
pub mod interpreter;
pub mod lexer;
pub mod num;
pub mod parser;
pub mod vm;
