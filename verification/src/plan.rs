//! The deferred logical plan.
//!
//! A [`Plan`] is an append-only tree of table-level transformation nodes.
//! It is never mutated after creation: every transformation wraps the
//! previous plan as the input of one new node, and two plans may share
//! their prefixes.

use std::rc::Rc;
use vstd::prelude::*;

use crate::engine::Table;
use crate::expr::Expr;

verus! {

/// The kind of a join; the closed set of accepted kinds.
#[derive(Clone, Copy)]
pub enum JoinKind {
    /// Keep every row of the left table.
    Left,
    /// Keep only rows with a key match on both sides.
    Inner,
    /// Keep every row of both tables.
    Outer,
    /// Keep left rows that have a match, left columns only.
    Semi,
    /// Keep left rows that have no match, left columns only.
    Anti,
}

/// Which columns a null-dropping step inspects. The three forms are
/// distinct requests and are dispatched as such.
pub enum NullSubset {
    /// A row is dropped when any column holds a missing value.
    AnyColumn,
    /// A row is dropped when this one column holds a missing value.
    Single { name: String },
    /// A row is dropped when any of the listed columns holds a missing
    /// value.
    Columns { names: Vec<String> },
}

/// One node of the deferred logical plan.
pub enum Plan {
    /// The source table.
    Scan { table: Table },
    /// Keep the rows where the boolean predicate holds.
    Filter { input: Rc<Plan>, predicate: Expr },
    /// Produce exactly the given expressions as the new column set, in the
    /// given order.
    Select { input: Rc<Plan>, exprs: Vec<Expr> },
    /// Add or replace one column by name, keeping all other columns.
    WithColumn { input: Rc<Plan>, expr: Expr },
    /// Add or replace columns by name, keeping all other columns.
    WithColumns { input: Rc<Plan>, exprs: Vec<Expr> },
    /// Sort the rows by one named column.
    Sort { input: Rc<Plan>, by_column: String, descending: bool, nulls_last: bool },
    /// Sort the rows by a list of expressions, one descending flag each.
    SortByExprs { input: Rc<Plan>, by: Vec<Expr>, descending: Vec<bool>, nulls_last: bool },
    /// Join two plans on equal-length key expression lists.
    Join {
        input_left: Rc<Plan>,
        input_right: Rc<Plan>,
        left_on: Vec<Expr>,
        right_on: Vec<Expr>,
        how: JoinKind,
        suffix: String,
        allow_parallel: bool,
        force_parallel: bool,
    },
    /// A hint to materialize and reuse the result at this point.
    Cache { input: Rc<Plan> },
    /// Drop rows with missing values in the inspected columns.
    DropNulls { input: Rc<Plan>, subset: NullSubset },
}

/// The mathematical shape of a plan: the same tree with lists read as
/// sequences. The engine's deferred plans are specified against this
/// shape, so a converted plan can be compared with the plan it came from.
pub enum PlanModel {
    /// The source table.
    Scan { table: Table },
    /// Keep the rows where the boolean predicate holds.
    Filter { input: Box<PlanModel>, predicate: Expr },
    /// Produce exactly the given expressions as the new column set.
    Select { input: Box<PlanModel>, exprs: Seq<Expr> },
    /// Add or replace one column by name.
    WithColumn { input: Box<PlanModel>, expr: Expr },
    /// Add or replace columns by name.
    WithColumns { input: Box<PlanModel>, exprs: Seq<Expr> },
    /// Sort the rows by one named column.
    Sort { input: Box<PlanModel>, by_column: String, descending: bool, nulls_last: bool },
    /// Sort the rows by a list of expressions, one descending flag each.
    SortByExprs { input: Box<PlanModel>, by: Seq<Expr>, descending: Seq<bool>, nulls_last: bool },
    /// Join two plans on equal-length key expression lists.
    Join {
        input_left: Box<PlanModel>,
        input_right: Box<PlanModel>,
        left_on: Seq<Expr>,
        right_on: Seq<Expr>,
        how: JoinKind,
        suffix: String,
        allow_parallel: bool,
        force_parallel: bool,
    },
    /// A hint to materialize and reuse the result at this point.
    Cache { input: Box<PlanModel> },
    /// Drop rows with a missing value in the inspected columns: all of
    /// them when no list is given, else the listed ones.
    DropNulls { input: Box<PlanModel>, subset: Option<Seq<String>> },
}

impl NullSubset {
    /// The inspected columns as the engine receives them: no list for the
    /// any-column form, a one-element list for a single name.
    pub open spec fn model(self) -> Option<Seq<String>> {
        match self {
            NullSubset::AnyColumn => None,
            NullSubset::Single { name } => Some(seq![name]),
            NullSubset::Columns { names } => Some(names@),
        }
    }
}

impl Plan {
    /// This plan's mathematical shape.
    pub open spec fn model(self) -> PlanModel
        decreases self,
    {
        match self {
            Plan::Scan { table } => PlanModel::Scan { table },
            Plan::Filter { input, predicate } => PlanModel::Filter {
                input: Box::new(input.model()),
                predicate,
            },
            Plan::Select { input, exprs } => PlanModel::Select {
                input: Box::new(input.model()),
                exprs: exprs@,
            },
            Plan::WithColumn { input, expr } => PlanModel::WithColumn {
                input: Box::new(input.model()),
                expr,
            },
            Plan::WithColumns { input, exprs } => PlanModel::WithColumns {
                input: Box::new(input.model()),
                exprs: exprs@,
            },
            Plan::Sort { input, by_column, descending, nulls_last } => PlanModel::Sort {
                input: Box::new(input.model()),
                by_column,
                descending,
                nulls_last,
            },
            Plan::SortByExprs { input, by, descending, nulls_last } => PlanModel::SortByExprs {
                input: Box::new(input.model()),
                by: by@,
                descending: descending@,
                nulls_last,
            },
            Plan::Join {
                input_left,
                input_right,
                left_on,
                right_on,
                how,
                suffix,
                allow_parallel,
                force_parallel,
            } => PlanModel::Join {
                input_left: Box::new(input_left.model()),
                input_right: Box::new(input_right.model()),
                left_on: left_on@,
                right_on: right_on@,
                how,
                suffix,
                allow_parallel,
                force_parallel,
            },
            Plan::Cache { input } => PlanModel::Cache { input: Box::new(input.model()) },
            Plan::DropNulls { input, subset } => PlanModel::DropNulls {
                input: Box::new(input.model()),
                subset: subset.model(),
            },
        }
    }
}

} // verus!
