//! The expression tree and its convenience builders.

use vstd::prelude::*;

verus! {

/// A node in the recursive arithmetic syntax tree.
///
/// `Const` and `Var` are leaves; the binary operators own their operands
/// behind a `Box` so the enum has finite size, and `Summation` owns an
/// arbitrary number of terms directly in a `Vec`, which already supplies the
/// required indirection. A value of this type is a finite, acyclic tree and
/// is never mutated after construction.
#[derive(Debug)]
pub enum Expr {
    Const(i64),
    Add(Box<Expr>, Box<Expr>),
    Sub(Box<Expr>, Box<Expr>),
    Mul(Box<Expr>, Box<Expr>),
    Div(Box<Expr>, Box<Expr>),
    Var,
    Summation(Vec<Expr>),
}

/// Builds `Add(x, y)`, boxing the operands.
pub fn add(x: Expr, y: Expr) -> (e: Expr)
    ensures
        e matches Expr::Add(l, r) && *l == x && *r == y,
{
    Expr::Add(Box::new(x), Box::new(y))
}

/// Builds `Sub(x, y)`, boxing the operands.
pub fn sub(x: Expr, y: Expr) -> (e: Expr)
    ensures
        e matches Expr::Sub(l, r) && *l == x && *r == y,
{
    Expr::Sub(Box::new(x), Box::new(y))
}

/// Builds `Mul(x, y)`, boxing the operands.
pub fn mul(x: Expr, y: Expr) -> (e: Expr)
    ensures
        e matches Expr::Mul(l, r) && *l == x && *r == y,
{
    Expr::Mul(Box::new(x), Box::new(y))
}

/// Builds `Div(x, y)`, boxing the operands.
pub fn div(x: Expr, y: Expr) -> (e: Expr)
    ensures
        e matches Expr::Div(l, r) && *l == x && *r == y,
{
    Expr::Div(Box::new(x), Box::new(y))
}

} // verus!
