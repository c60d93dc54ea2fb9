//! The conditional builder state machine.
//!
//! A multi-way conditional is accumulated branch by branch: [`when`] opens
//! the first branch, `and_then` pairs a predicate with its result, further
//! `when`/`and_then` calls append branches in order, and `otherwise` alone
//! seals the chain into one expression. Branches are tested in the order
//! they were added: the sealed tree nests the first branch outermost, so
//! the first predicate that holds for a row decides that row's value. A
//! chain that is never sealed has no effect on any plan.

use std::rc::Rc;
use vstd::prelude::*;

use crate::expr::Expr;

verus! {

/// The sealed conditional for the given branch lists: each condition is
/// paired with its statement, in order, first outermost; rows matching no
/// condition take the `otherwise` value.
pub open spec fn spec_seal(conditions: Seq<Expr>, statements: Seq<Expr>, otherwise: Expr) -> Expr
    decreases conditions.len(),
{
    if conditions.len() == 0 || statements.len() == 0 {
        otherwise
    } else {
        Expr::Ternary {
            predicate: Rc::new(conditions[0]),
            if_true: Rc::new(statements[0]),
            if_false: Rc::new(spec_seal(conditions.drop_first(), statements.drop_first(), otherwise)),
        }
    }
}

/// The opening state of a conditional chain: one predicate, waiting for
/// its result expression.
pub struct When {
    /// The predicate of the first branch.
    pub predicate: Expr,
}

/// One complete branch: a predicate paired with its result expression.
pub struct WhenThen {
    /// The predicate of the branch.
    pub predicate: Expr,
    /// The value taken where the predicate holds.
    pub statement: Expr,
}

/// A chain of two or more branches under construction. The conditions
/// hold one entry more than the statements exactly while a predicate
/// waits for its paired result.
pub struct WhenThenThen {
    /// The branch predicates, in the order they were added.
    pub conditions: Vec<Expr>,
    /// The branch results, in the same order.
    pub statements: Vec<Expr>,
}

/// Open a conditional chain with its first predicate.
pub fn when(predicate: &Expr) -> (r: When)
    ensures
        r.predicate == *predicate,
{
    When { predicate: predicate.clone() }
}

impl When {
    /// Pair the predicate with its result expression.
    pub fn and_then(self, expr: &Expr) -> (r: WhenThen)
        ensures
            r.predicate == self.predicate,
            r.statement == *expr,
    {
        WhenThen { predicate: self.predicate, statement: expr.clone() }
    }
}

impl WhenThen {
    /// Start a longer chain: remember this branch and open the next one
    /// with the given predicate.
    pub fn when(self, predicate: &Expr) -> (r: WhenThenThen)
        ensures
            r.conditions@ == seq![self.predicate, *predicate],
            r.statements@ == seq![self.statement],
    {
        let mut conditions: Vec<Expr> = Vec::new();
        conditions.push(self.predicate);
        conditions.push(predicate.clone());
        let mut statements: Vec<Expr> = Vec::new();
        statements.push(self.statement);
        proof {
            assert(conditions@ =~= seq![conditions@[0], *predicate]);
            assert(statements@ =~= seq![statements@[0]]);
        }
        WhenThenThen { conditions, statements }
    }

    /// Seal the two-branch conditional: where the predicate holds the
    /// branch value, elsewhere the given value.
    pub fn otherwise(self, expr: &Expr) -> (r: Expr)
        ensures
            r == (Expr::Ternary {
                predicate: Rc::new(self.predicate),
                if_true: Rc::new(self.statement),
                if_false: Rc::new(*expr),
            }),
    {
        Expr::Ternary {
            predicate: Rc::new(self.predicate),
            if_true: Rc::new(self.statement),
            if_false: Rc::new(expr.clone()),
        }
    }
}

impl WhenThenThen {
    /// True when every added predicate has its paired result.
    pub open spec fn balanced(self) -> bool {
        self.conditions@.len() == self.statements@.len()
    }

    /// True while the last predicate still waits for its result.
    pub open spec fn pending(self) -> bool {
        self.conditions@.len() == self.statements@.len() + 1
    }

    /// Append the next branch's predicate.
    pub fn when(self, predicate: &Expr) -> (r: WhenThenThen)
        requires
            self.balanced(),
        ensures
            r.conditions@ == self.conditions@.push(*predicate),
            r.statements@ == self.statements@,
            r.pending(),
    {
        let mut conditions = self.conditions;
        conditions.push(predicate.clone());
        WhenThenThen { conditions, statements: self.statements }
    }

    /// Pair the waiting predicate with its result.
    pub fn and_then(self, expr: &Expr) -> (r: WhenThenThen)
        requires
            self.pending(),
        ensures
            r.conditions@ == self.conditions@,
            r.statements@ == self.statements@.push(*expr),
            r.balanced(),
    {
        let mut statements = self.statements;
        statements.push(expr.clone());
        WhenThenThen { conditions: self.conditions, statements }
    }

    /// Seal the full ordered branch list into one expression: branches
    /// are tested in the order they were added, first match wins, and
    /// rows matching no predicate take the given value.
    pub fn otherwise(self, expr: &Expr) -> (r: Expr)
        requires
            self.balanced(),
        ensures
            r == spec_seal(self.conditions@, self.statements@, *expr),
    {
        let ghost conditions = self.conditions@;
        let ghost statements = self.statements@;
        let mut result = expr.clone();
        let mut i: usize = self.conditions.len();
        while i > 0
            invariant
                i <= conditions.len(),
                conditions.len() == statements.len(),
                self.conditions@ == conditions,
                self.statements@ == statements,
                result == spec_seal(
                    conditions.subrange(i as int, conditions.len() as int),
                    statements.subrange(i as int, statements.len() as int),
                    *expr,
                ),
            decreases i,
        {
            i = i - 1;
            result = Expr::Ternary {
                predicate: Rc::new(self.conditions[i].clone()),
                if_true: Rc::new(self.statements[i].clone()),
                if_false: Rc::new(result),
            };
            proof {
                let n = conditions.len() as int;
                assert(conditions.subrange(i as int, n).drop_first() =~= conditions.subrange(
                    i + 1,
                    n,
                ));
                assert(statements.subrange(i as int, n).drop_first() =~= statements.subrange(
                    i + 1,
                    n,
                ));
            }
        }
        proof {
            assert(conditions.subrange(0, conditions.len() as int) =~= conditions);
            assert(statements.subrange(0, statements.len() as int) =~= statements);
        }
        result
    }
}

} // verus!
