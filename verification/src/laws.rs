//! Crate-wide laws of the builder algebra.
//!
//! The contracts of the combinators pin each constructed tree exactly;
//! the proof functions here state the consequences a caller relies on:
//! building from a value never disturbs it, two builds from the same
//! receiver are independent, and a sealed conditional keeps its branches
//! in insertion order, first branch outermost.

use std::rc::Rc;
use vstd::prelude::*;

use crate::cond::spec_seal;
use crate::expr::{BinOp, Expr};
use crate::frame::LazyFrame;
use crate::plan::Plan;

verus! {

/// Combining an expression with two others leaves the receiver embedded
/// unchanged in both results, and the results are equal exactly when the
/// combined arguments are: distinct arguments give distinct trees, and
/// the receiver itself can be read back intact from either.
pub proof fn lemma_combine_independent(e1: Expr, a: Expr, b: Expr, op: BinOp)
    ensures
        e1.spec_binary(op, a) matches Expr::BinaryOp { op: o, left, right } && o == op && left
            == e1 && right == a,
        (e1.spec_binary(op, a) == e1.spec_binary(op, b)) <==> (a == b),
{
}

/// Applying a transformation twice to one frame yields two downstream
/// plans that both wrap the same untouched input plan, and that are equal
/// exactly when the added predicates are: neither downstream plan can
/// observe the other's addition.
pub proof fn lemma_transformations_independent(base: LazyFrame, p: Expr, q: Expr)
    ensures
        (Plan::Filter { input: base.plan, predicate: p } matches Plan::Filter {
            input,
            predicate,
        } && input == base.plan && predicate == p),
        (Rc::new(Plan::Filter { input: base.plan, predicate: p }) == Rc::new(
            Plan::Filter { input: base.plan, predicate: q },
        )) <==> (p == q),
{
}

/// Sealing the chain `when(p1).and_then(v1).when(p2).and_then(v2)` with
/// `otherwise(v3)` nests the first branch outermost: a row on which `p1`
/// holds takes `v1` even where `p2` also holds, rows on which only `p2`
/// holds take `v2`, and all others take `v3`.
pub proof fn lemma_seal_orders_branches(p1: Expr, v1: Expr, p2: Expr, v2: Expr, v3: Expr)
    ensures
        spec_seal(seq![p1, p2], seq![v1, v2], v3) == (Expr::Ternary {
            predicate: Rc::new(p1),
            if_true: Rc::new(v1),
            if_false: Rc::new(
                Expr::Ternary {
                    predicate: Rc::new(p2),
                    if_true: Rc::new(v2),
                    if_false: Rc::new(v3),
                },
            ),
        }),
{
    let conditions = seq![p1, p2];
    let statements = seq![v1, v2];
    assert(conditions.drop_first() =~= seq![p2]);
    assert(statements.drop_first() =~= seq![v2]);
    assert(seq![p2].drop_first() =~= Seq::<Expr>::empty());
    assert(seq![v2].drop_first() =~= Seq::<Expr>::empty());
    assert(spec_seal(Seq::<Expr>::empty(), Seq::<Expr>::empty(), v3) == v3);
    assert(seq![p2][0] == p2 && seq![v2][0] == v2);
    assert(spec_seal(seq![p2], seq![v2], v3) == (Expr::Ternary {
        predicate: Rc::new(p2),
        if_true: Rc::new(v2),
        if_false: Rc::new(v3),
    }));
}

} // verus!
