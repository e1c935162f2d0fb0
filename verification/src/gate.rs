//! Columns and gate polynomials.
//!
//! A column is a named, typed vertical sequence of field-element slots,
//! one per row; a gate is a polynomial over the cells of the current row
//! that must evaluate to zero on every row for the row to be valid.

use vstd::prelude::*;
use crate::field::Fp;
use crate::field::MODULUS;
use crate::field::fadd;
use crate::field::fmul;

verus! {

/// The three kinds of column.
#[derive(Clone, Copy, Debug, PartialEq, Eq, Structural)]
pub enum ColumnKind {
    /// Witness-provided, private.
    Advice,
    /// Circuit-shape constants, the same for every proof.
    Fixed,
    /// Public inputs, supplied at verification time.
    Instance,
}

/// A column handle: its kind and its index among columns of that kind.
#[derive(Clone, Copy, Debug, PartialEq, Eq, Structural)]
pub struct Column {
    pub kind: ColumnKind,
    pub index: usize,
}

/// A polynomial over the cells of the current row.
///
/// `Advice(i)` and `Fixed(i)` query column `i` of that kind at the
/// current row; the single gate of this circuit reads no other row.
pub enum Expr {
    Advice(usize),
    Fixed(usize),
    Constant(Fp),
    Sum(Box<Expr>, Box<Expr>),
    Product(Box<Expr>, Box<Expr>),
}

/// A row valuation entry: the queried column's value, zero when the
/// column was never assigned on this row.
pub open spec fn queried(s: Seq<nat>, i: int) -> nat {
    if 0 <= i < s.len() {
        s[i]
    } else {
        0
    }
}

/// All entries of a valuation are canonical field elements.
pub open spec fn canonical_seq(s: Seq<nat>) -> bool {
    forall|i: int| 0 <= i < s.len() ==> s[i] < MODULUS
}

/// The canonical representatives of a sequence of field elements.
pub open spec fn fp_seq(s: Seq<Fp>) -> Seq<nat> {
    s.map_values(|f: Fp| f@)
}

/// Every constant embedded in the polynomial is canonical.
pub open spec fn wf_expr(e: Expr) -> bool
    decreases e,
{
    match e {
        Expr::Advice(_) => true,
        Expr::Fixed(_) => true,
        Expr::Constant(c) => c.wf(),
        Expr::Sum(a, b) => wf_expr(*a) && wf_expr(*b),
        Expr::Product(a, b) => wf_expr(*a) && wf_expr(*b),
    }
}

/// The value of a polynomial on one row, given the row's advice and
/// fixed column valuations.
pub open spec fn eval_expr(e: Expr, adv: Seq<nat>, fix: Seq<nat>) -> nat
    decreases e,
{
    match e {
        Expr::Advice(i) => queried(adv, i as int),
        Expr::Fixed(i) => queried(fix, i as int),
        Expr::Constant(c) => c@,
        Expr::Sum(a, b) => fadd(eval_expr(*a, adv, fix), eval_expr(*b, adv, fix)),
        Expr::Product(a, b) => fmul(eval_expr(*a, adv, fix), eval_expr(*b, adv, fix)),
    }
}

/// Evaluate a polynomial on one row of assigned values.
pub fn eval(e: &Expr, adv: &Vec<Fp>, fix: &Vec<Fp>) -> (r: Fp)
    requires
        wf_expr(*e),
        canonical_seq(fp_seq(adv@)),
        canonical_seq(fp_seq(fix@)),
    ensures
        r@ == eval_expr(*e, fp_seq(adv@), fp_seq(fix@)),
        r.wf(),
    decreases *e,
{
    match e {
        Expr::Advice(i) => {
            if *i < adv.len() {
                let f = adv[*i];
                proof {
                    assert(fp_seq(adv@)[*i as int] == f@);
                }
                f
            } else {
                Fp::zero()
            }
        },
        Expr::Fixed(i) => {
            if *i < fix.len() {
                let f = fix[*i];
                proof {
                    assert(fp_seq(fix@)[*i as int] == f@);
                }
                f
            } else {
                Fp::zero()
            }
        },
        Expr::Constant(c) => *c,
        Expr::Sum(a, b) => {
            let x = eval(a, adv, fix);
            let y = eval(b, adv, fix);
            x.add(y)
        },
        Expr::Product(a, b) => {
            let x = eval(a, adv, fix);
            let y = eval(b, adv, fix);
            x.mul(y)
        },
    }
}

} // verus!
