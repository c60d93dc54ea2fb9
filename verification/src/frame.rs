//! The immutable handle over an accumulating logical plan.
//!
//! Every transformation method returns a new [`LazyFrame`] wrapping a new
//! plan node whose input is the previous plan; no method mutates its
//! receiver, and two frames may share plan prefixes. Only [`collect`] and
//! the schema and plan-description queries cross into the execution
//! engine.
//!
//! [`collect`]: LazyFrame::collect

use std::rc::Rc;
use vstd::prelude::*;

use crate::engine;
use crate::engine::Table;
use crate::error::PlError;
use crate::expr::Expr;
use crate::plan::{JoinKind, NullSubset, Plan};
use crate::rc_clone;

verus! {

/// A handle owning one logical-plan root.
pub struct LazyFrame {
    /// The accumulated plan.
    pub plan: Rc<Plan>,
}

/// The join kind named by the given characters, if it is one of the five
/// accepted names.
pub open spec fn spec_join_kind(s: Seq<char>) -> Option<JoinKind> {
    if s == "left"@ {
        Some(JoinKind::Left)
    } else if s == "inner"@ {
        Some(JoinKind::Inner)
    } else if s == "outer"@ {
        Some(JoinKind::Outer)
    } else if s == "semi"@ {
        Some(JoinKind::Semi)
    } else if s == "anti"@ {
        Some(JoinKind::Anti)
    } else {
        None
    }
}

impl JoinKind {
    /// The join kind named by the given string; any name outside the fixed
    /// set is rejected at once with a construction error.
    pub fn parse(how: &str) -> (r: Result<JoinKind, PlError>)
        ensures
            match spec_join_kind(how@) {
                Some(k) => r == Ok::<JoinKind, PlError>(k),
                None => r matches Err(e) && e is Construction,
            },
    {
        proof {
            reveal_strlit("left");
            reveal_strlit("inner");
            reveal_strlit("outer");
            reveal_strlit("semi");
            reveal_strlit("anti");
            assert("left"@ !~= "inner"@);
            assert("left"@ !~= "outer"@);
            assert("left"@[0] != "semi"@[0]);
            assert("left"@[0] != "anti"@[0]);
            assert("inner"@[0] != "outer"@[0]);
            assert("inner"@ !~= "semi"@);
            assert("inner"@ !~= "anti"@);
            assert("outer"@ !~= "semi"@);
            assert("outer"@ !~= "anti"@);
            assert("semi"@[0] != "anti"@[0]);
        }
        if crate::str_eq(how, "left") {
            Ok(JoinKind::Left)
        } else if crate::str_eq(how, "inner") {
            Ok(JoinKind::Inner)
        } else if crate::str_eq(how, "outer") {
            Ok(JoinKind::Outer)
        } else if crate::str_eq(how, "semi") {
            Ok(JoinKind::Semi)
        } else if crate::str_eq(how, "anti") {
            Ok(JoinKind::Anti)
        } else {
            let mut message = "how must be one of left, inner, outer, semi, anti, got ".to_owned();
            message.append(how);
            Err(PlError::Construction { message })
        }
    }
}

impl Clone for LazyFrame {
    /// A new handle over the same plan.
    fn clone(&self) -> (r: LazyFrame)
        ensures
            r == *self,
    {
        LazyFrame { plan: rc_clone(&self.plan) }
    }
}

impl LazyFrame {
    /// A frame that reads the given table and applies nothing else.
    pub fn scan(table: Table) -> (r: LazyFrame)
        ensures
            r.plan == Rc::new(Plan::Scan { table }),
    {
        LazyFrame { plan: Rc::new(Plan::Scan { table }) }
    }

    /// Keep only the rows where the boolean predicate holds.
    pub fn filter(&self, expr: &Expr) -> (r: LazyFrame)
        ensures
            r.plan == Rc::new(Plan::Filter { input: self.plan, predicate: *expr }),
    {
        LazyFrame {
            plan: Rc::new(
                Plan::Filter { input: rc_clone(&self.plan), predicate: expr.clone() },
            ),
        }
    }

    /// Produce exactly the given expressions as the new column set, in the
    /// given order.
    pub fn select(&self, exprs: Vec<Expr>) -> (r: LazyFrame)
        ensures
            r.plan == Rc::new(Plan::Select { input: self.plan, exprs }),
    {
        LazyFrame { plan: Rc::new(Plan::Select { input: rc_clone(&self.plan), exprs }) }
    }

    /// Add or replace one column by name, keeping all other columns and
    /// their order.
    pub fn with_column(&self, expr: Expr) -> (r: LazyFrame)
        ensures
            r.plan == Rc::new(Plan::WithColumn { input: self.plan, expr }),
    {
        LazyFrame { plan: Rc::new(Plan::WithColumn { input: rc_clone(&self.plan), expr }) }
    }

    /// Add or replace columns by name, keeping all other columns and their
    /// order.
    pub fn with_columns(&self, exprs: Vec<Expr>) -> (r: LazyFrame)
        ensures
            r.plan == Rc::new(Plan::WithColumns { input: self.plan, exprs }),
    {
        LazyFrame { plan: Rc::new(Plan::WithColumns { input: rc_clone(&self.plan), exprs }) }
    }

    /// Sort the rows by one named column.
    pub fn sort(&self, by_column: String, reverse: bool, nulls_last: bool) -> (r: LazyFrame)
        ensures
            r.plan == Rc::new(
                Plan::Sort { input: self.plan, by_column, descending: reverse, nulls_last },
            ),
    {
        LazyFrame {
            plan: Rc::new(
                Plan::Sort {
                    input: rc_clone(&self.plan),
                    by_column,
                    descending: reverse,
                    nulls_last,
                },
            ),
        }
    }

    /// Sort the rows by a list of expressions; the descending flags must
    /// pair up with the expressions, one each, or construction fails.
    pub fn sort_by_exprs(&self, by: Vec<Expr>, reverse: Vec<bool>, nulls_last: bool) -> (r:
        Result<LazyFrame, PlError>)
        ensures
            by@.len() == reverse@.len() ==> (r matches Ok(lf) && lf.plan == Rc::new(
                Plan::SortByExprs {
                    input: self.plan,
                    by,
                    descending: reverse,
                    nulls_last,
                },
            )),
            r is Err <==> by@.len() != reverse@.len(),
            r matches Err(e) ==> e is Construction,
    {
        if by.len() != reverse.len() {
            return Err(
                PlError::Construction {
                    message: "the descending flags must be as many as the sort expressions"
                        .to_owned(),
                },
            );
        }
        Ok(
            LazyFrame {
                plan: Rc::new(
                    Plan::SortByExprs {
                        input: rc_clone(&self.plan),
                        by,
                        descending: reverse,
                        nulls_last,
                    },
                ),
            },
        )
    }

    /// Join this frame with another on equal-length key expression lists.
    /// An unknown join-kind name or mismatched key-list lengths are
    /// rejected here, at construction, never deferred to execution.
    pub fn join(
        &self,
        other: &LazyFrame,
        left_on: Vec<Expr>,
        right_on: Vec<Expr>,
        how: &str,
        suffix: String,
        allow_parallel: bool,
        force_parallel: bool,
    ) -> (r: Result<LazyFrame, PlError>)
        ensures
            r matches Ok(lf) ==> (spec_join_kind(how@) matches Some(k) && left_on@.len()
                == right_on@.len() && lf.plan == Rc::new(
                Plan::Join {
                    input_left: self.plan,
                    input_right: other.plan,
                    left_on,
                    right_on,
                    how: k,
                    suffix,
                    allow_parallel,
                    force_parallel,
                },
            )),
            r is Err <==> (spec_join_kind(how@) is None || left_on@.len() != right_on@.len()),
            r matches Err(e) ==> e is Construction,
    {
        let how = match JoinKind::parse(how) {
            Ok(k) => k,
            Err(e) => {
                return Err(e);
            },
        };
        if left_on.len() != right_on.len() {
            return Err(
                PlError::Construction {
                    message: "left_on and right_on must name one key expression per pair"
                        .to_owned(),
                },
            );
        }
        Ok(
            LazyFrame {
                plan: Rc::new(
                    Plan::Join {
                        input_left: rc_clone(&self.plan),
                        input_right: rc_clone(&other.plan),
                        left_on,
                        right_on,
                        how,
                        suffix,
                        allow_parallel,
                        force_parallel,
                    },
                ),
            },
        )
    }

    /// Drop rows with missing values; the three forms of the subset are
    /// three distinct requests and are dispatched as such.
    pub fn drop_nulls(&self, cols: NullSubset) -> (r: LazyFrame)
        ensures
            r.plan == Rc::new(Plan::DropNulls { input: self.plan, subset: cols }),
    {
        LazyFrame {
            plan: Rc::new(Plan::DropNulls { input: rc_clone(&self.plan), subset: cols }),
        }
    }

    /// A hint that the engine should materialize and reuse the result at
    /// this point of the plan.
    pub fn cache(&self) -> (r: LazyFrame)
        ensures
            r.plan == Rc::new(Plan::Cache { input: self.plan }),
    {
        LazyFrame { plan: Rc::new(Plan::Cache { input: rc_clone(&self.plan) }) }
    }

    /// Removing columns is deliberately unfinished and fails.
    pub fn drop(&self) -> (r: Result<LazyFrame, PlError>)
        ensures
            r matches Err(e) && e is NotImplemented,
    {
        Err(PlError::NotImplemented { message: "drop is not implemented".to_owned() })
    }

    /// Exploding list columns to long format is deliberately unfinished
    /// and fails.
    pub fn explode(&self) -> (r: Result<LazyFrame, PlError>)
        ensures
            r matches Err(e) && e is NotImplemented,
    {
        Err(PlError::NotImplemented { message: "explode is not implemented".to_owned() })
    }

    /// Hand the accumulated plan to the execution engine and return the
    /// materialized table, or the engine's failure unchanged.
    pub fn collect(&self) -> (r: Result<Table, PlError>)
        ensures
            r matches Err(e) ==> e is Engine,
    {
        match engine::eng_lf_collect(engine::plan_to_engine(&self.plan)) {
            Ok(t) => Ok(t),
            Err(e) => Err(engine::engine_error(&e)),
        }
    }

    /// The plan's resolved column names, in order; resolution is on
    /// demand and fails with a schema error when the plan references an
    /// unknown column.
    pub fn columns(&self) -> (r: Result<Vec<String>, PlError>)
        ensures
            r matches Err(e) ==> e is Schema,
    {
        match engine::eng_lf_schema_names(engine::plan_to_engine(&self.plan)) {
            Ok(names) => Ok(names),
            Err(e) => Err(engine::schema_error(&e)),
        }
    }

    /// A human-readable dump of the unoptimized plan.
    pub fn describe_plan(&self) -> (r: Result<String, PlError>)
        ensures
            r matches Err(e) ==> e is Engine,
    {
        match engine::eng_lf_describe(engine::plan_to_engine(&self.plan)) {
            Ok(s) => Ok(s),
            Err(e) => Err(engine::engine_error(&e)),
        }
    }

    /// A human-readable dump of the plan after the engine's optimizer ran;
    /// the optimizer may itself fail on an ill-formed plan.
    pub fn describe_optimized_plan(&self) -> (r: Result<String, PlError>)
        ensures
            r matches Err(e) ==> e is Engine,
    {
        match engine::eng_lf_describe_optimized(engine::plan_to_engine(&self.plan)) {
            Ok(s) => Ok(s),
            Err(e) => Err(engine::engine_error(&e)),
        }
    }
}

} // verus!
