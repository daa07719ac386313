//! A small verified evaluator for arithmetic expression trees.
//!
//! An [`expr::Expr`] is a finite tree built from integer literals, a single
//! free variable, the four binary operators, and an n-ary summation.
//! [`eval::eval`] interprets such a tree against a binding for the variable,
//! returning either the computed integer or a division-by-zero failure.

pub mod eval;
pub mod expr;
pub mod sample;
