//! A verified builder core for a lazy, columnar query API.
//!
//! Expressions over columns are assembled into immutable trees (`expr`),
//! and table-level transformations are collected into a deferred logical
//! plan that is only executed on an explicit `collect`.

use std::rc::Rc;
use vstd::prelude::*;

mod arena;
pub mod cond;
mod engine;
mod error;
mod expr;
mod frame;
mod io;
mod laws;
mod plan;
mod series;

pub use arena::{decodable, Arena};
pub use cond::{spec_seal, When, WhenThen, WhenThenThen};
pub use engine::Table;
pub use error::PlError;
pub use expr::{col, cols, count, first, last, lit_bool, lit_int, lit_null, lit_str};
pub use expr::{AggOp, BinOp, Expr, Lit, StrFn, StringNameSpace, UnOp};
pub use frame::{spec_join_kind, LazyFrame};
pub use io::{csv_lossy_ok, csv_utf8_ok, read_csv, spec_csv_encoding, CsvEncoding, CsvOptions};
pub use laws::{lemma_combine_independent, lemma_seal_orders_branches, lemma_transformations_independent};
pub use series::{spec_as_bool, spec_as_i8, spec_as_str, spec_same_series, DynValue, Series, SeriesData};
pub use series::{spec_bool_coercible, spec_str_coercible};
pub use series::{spec_count_present, spec_fill, spec_fill_null_result, spec_fill_strategy, spec_max_present, spec_mean_present, spec_min_present, spec_strategy_fill, spec_sum_present, FillNullStrategy};
pub use plan::{JoinKind, NullSubset, Plan, PlanModel};

verus! {

/// Relies on Rc::clone: the result shares the same allocation, so it is the
/// same abstract value.
#[verifier::external_body]
pub(crate) fn rc_clone<T>(v: &Rc<T>) -> (r: Rc<T>)
    ensures
        r == *v,
{
    Rc::clone(v)
}

/// True exactly when the two strings hold the same characters.
pub(crate) fn str_eq(a: &str, b: &str) -> (r: bool)
    ensures
        r == (a@ == b@),
{
    let x = a.to_owned();
    let y = b.to_owned();
    x == y
}

/// An exact copy of a vector of strings.
pub(crate) fn clone_names(v: &Vec<String>) -> (r: Vec<String>)
    ensures
        r@ == v@,
{
    let r = v.clone();
    proof {
        assert(r@ =~= v@);
    }
    r
}

/// An exact copy of a vector of booleans.
pub(crate) fn clone_bools(v: &Vec<bool>) -> (r: Vec<bool>)
    ensures
        r@ == v@,
{
    let r = v.clone();
    proof {
        assert(r@ =~= v@);
    }
    r
}

} // verus!
