//! The evaluator: a structurally recursive interpreter for [`Expr`] trees.
//!
//! [`evaluate`] is the mathematical meaning of a tree under a binding for the
//! free variable; [`eval`] is the executable interpreter, proved to return
//! exactly that meaning. Addition, subtraction and multiplication wrap on
//! overflow (two's complement); division truncates toward zero, and a divisor
//! that evaluates to zero — however it was written — makes the whole
//! enclosing tree evaluate to [`EvalError::DivisionByZero`].

use vstd::prelude::*;
use vstd::wrapping::i64_specs;

use crate::expr::Expr;

verus! {

/// The single failure evaluation can report: some `Div` node's divisor
/// evaluated to zero. No payload records which node it was.
#[derive(Debug, Clone, Copy, PartialEq, Eq, Structural)]
pub enum EvalError {
    DivisionByZero,
}

/// Truncating `i64` division (rounded toward zero). The one overflowing
/// case, `i64::MIN / -1`, wraps around to `i64::MIN`.
pub open spec fn div_values(l: i64, r: i64) -> i64
    recommends
        r != 0,
{
    match l.checked_div(r) {
        Some(q) => q,
        None => i64::MIN,
    }
}

/// The meaning of an expression under a binding `var` for the free variable:
/// the computed integer, or `DivisionByZero` if any divisor in the evaluated
/// part of the tree comes out zero.
pub open spec fn evaluate(e: Expr, var: i64) -> Result<i64, EvalError>
    decreases e,
{
    match e {
        Expr::Const(k) => Ok(k),
        Expr::Var => Ok(var),
        Expr::Add(l, r) => match (evaluate(*l, var), evaluate(*r, var)) {
            (Ok(lv), Ok(rv)) => Ok(i64_specs::wrapping_add(lv, rv)),
            (Err(err), _) => Err(err),
            (_, Err(err)) => Err(err),
        },
        Expr::Sub(l, r) => match (evaluate(*l, var), evaluate(*r, var)) {
            (Ok(lv), Ok(rv)) => Ok(i64_specs::wrapping_sub(lv, rv)),
            (Err(err), _) => Err(err),
            (_, Err(err)) => Err(err),
        },
        Expr::Mul(l, r) => match (evaluate(*l, var), evaluate(*r, var)) {
            (Ok(lv), Ok(rv)) => Ok(i64_specs::wrapping_mul(lv, rv)),
            (Err(err), _) => Err(err),
            (_, Err(err)) => Err(err),
        },
        Expr::Div(l, r) => match evaluate(*r, var) {
            Err(err) => Err(err),
            Ok(rv) => if rv == 0 {
                Err(EvalError::DivisionByZero)
            } else {
                match evaluate(*l, var) {
                    Err(err) => Err(err),
                    Ok(lv) => Ok(div_values(lv, rv)),
                }
            },
        },
        Expr::Summation(terms) => evaluate_sum(terms@, var, 0),
    }
}

/// A left-to-right fold of evaluation over `terms`, starting from the running
/// sum `acc`: the first failing term decides the result, and the terms after
/// it play no part.
pub open spec fn evaluate_sum(terms: Seq<Expr>, var: i64, acc: i64) -> Result<i64, EvalError>
    decreases terms,
{
    if terms.len() == 0 {
        Ok(acc)
    } else {
        match evaluate(terms[0], var) {
            Err(err) => Err(err),
            Ok(v) => evaluate_sum(terms.drop_first(), var, i64_specs::wrapping_add(acc, v)),
        }
    }
}

/// Interprets `expr` with `var` substituted for every `Var` leaf.
///
/// The tree is only read: it can be evaluated again, against this or any
/// other binding. Operands are evaluated left to right and the first failure
/// short-circuits the rest, except that `Div` evaluates its divisor first
/// and fails before touching the dividend when the divisor is zero.
pub fn eval(expr: &Expr, var: i64) -> (res: Result<i64, EvalError>)
    ensures
        res == evaluate(*expr, var),
    decreases *expr,
{
    match expr {
        Expr::Const(k) => Ok(*k),
        Expr::Var => Ok(var),
        Expr::Add(l, r) => match eval(l, var) {
            Err(err) => Err(err),
            Ok(lv) => match eval(r, var) {
                Err(err) => Err(err),
                Ok(rv) => Ok(lv.wrapping_add(rv)),
            },
        },
        Expr::Sub(l, r) => match eval(l, var) {
            Err(err) => Err(err),
            Ok(lv) => match eval(r, var) {
                Err(err) => Err(err),
                Ok(rv) => Ok(lv.wrapping_sub(rv)),
            },
        },
        Expr::Mul(l, r) => match eval(l, var) {
            Err(err) => Err(err),
            Ok(lv) => match eval(r, var) {
                Err(err) => Err(err),
                Ok(rv) => Ok(lv.wrapping_mul(rv)),
            },
        },
        Expr::Div(l, r) => match eval(r, var) {
            Err(err) => Err(err),
            Ok(rv) => if rv == 0 {
                Err(EvalError::DivisionByZero)
            } else {
                match eval(l, var) {
                    Err(err) => Err(err),
                    Ok(lv) => match lv.checked_div(rv) {
                        Some(q) => Ok(q),
                        None => Ok(i64::MIN),
                    },
                }
            },
        },
        Expr::Summation(terms) => {
            let n: usize = terms.len();
            let mut acc: i64 = 0;
            let mut i: usize = 0;
            proof {
                assert(terms@.skip(0) =~= terms@);
            }
            while i < n
                invariant
                    *expr == Expr::Summation(*terms),
                    n == terms@.len(),
                    i <= n,
                    evaluate(*expr, var) == evaluate_sum(terms@.skip(i as int), var, acc),
                decreases n - i,
            {
                proof {
                    assert(decreases_to!(*expr => (*expr)->Summation_0));
                    assert((*expr)->Summation_0 == *terms);
                    assert(decreases_to!(*terms => terms@));
                    assert(decreases_to!(terms@ => terms@[i as int]));
                }
                let ghost suffix = terms@.skip(i as int);
                proof {
                    assert(suffix[0] == terms@[i as int]);
                    assert(suffix.drop_first() =~= terms@.skip(i as int + 1));
                }
                match eval(&terms[i], var) {
                    Err(err) => {
                        return Err(err);
                    },
                    Ok(v) => {
                        acc = acc.wrapping_add(v);
                        i = i + 1;
                    },
                }
            }
            proof {
                assert(terms@.skip(n as int) =~= Seq::<Expr>::empty());
            }
            Ok(acc)
        },
    }
}

/// Law: a constant evaluates to itself, whatever the binding.
pub proof fn lemma_const(k: i64, x: i64)
    ensures
        evaluate(Expr::Const(k), x) == Result::<i64, EvalError>::Ok(k),
{
}

/// Law: the free variable evaluates to the binding.
pub proof fn lemma_var(x: i64)
    ensures
        evaluate(Expr::Var, x) == Result::<i64, EvalError>::Ok(x),
{
}

/// Law: subtracting the variable from itself evaluates to zero, whatever
/// the binding.
pub proof fn lemma_sub_var_var(l: Box<Expr>, r: Box<Expr>, x: i64)
    requires
        *l == Expr::Var,
        *r == Expr::Var,
    ensures
        evaluate(Expr::Sub(l, r), x) == Result::<i64, EvalError>::Ok(0),
{
    reveal_with_fuel(evaluate, 2);
}

/// Law: subtracting the constant 5 and then adding it back restores the
/// value of the inner expression, for every binding under which the inner
/// expression evaluates successfully. Wrapping arithmetic makes this hold
/// even at the edges of the `i64` range.
pub proof fn lemma_add_sub_cancel(s: Box<Expr>, c: Box<Expr>, a: Box<Expr>, c2: Box<Expr>, x: i64)
    requires
        *s == Expr::Sub(a, c2),
        *c == Expr::Const(5),
        *c2 == Expr::Const(5),
        evaluate(*a, x) is Ok,
    ensures
        evaluate(Expr::Add(s, c), x) == evaluate(*a, x),
{
    reveal_with_fuel(evaluate, 3);
    let v = evaluate(*a, x)->Ok_0;
    assert(evaluate(*s, x) == Result::<i64, EvalError>::Ok(i64_specs::wrapping_sub(v, 5)));
    assert(i64_specs::wrapping_add(i64_specs::wrapping_sub(v, 5), 5) == v);
}

/// Law: a summation with no terms evaluates to the identity 0, whatever
/// the binding.
pub proof fn lemma_empty_summation(terms: Vec<Expr>, x: i64)
    requires
        terms@.len() == 0,
    ensures
        evaluate(Expr::Summation(terms), x) == Result::<i64, EvalError>::Ok(0),
{
    assert(evaluate(Expr::Summation(terms), x) == evaluate_sum(terms@, x, 0));
    assert(evaluate_sum(terms@, x, 0) == Result::<i64, EvalError>::Ok(0));
}

/// Law: evaluation is deterministic — the same tree under the same binding
/// always yields the same result, so repeating an evaluation cannot change
/// what it returns.
pub proof fn lemma_eval_deterministic(
    e: &Expr,
    x: i64,
    r1: Result<i64, EvalError>,
    r2: Result<i64, EvalError>,
)
    requires
        r1 == evaluate(*e, x),
        r2 == evaluate(*e, x),
    ensures
        r1 == r2,
{
}

} // verus!

