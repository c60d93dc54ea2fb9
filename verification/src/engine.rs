//! The boundary to the columnar execution engine.
//!
//! The verified plan and expression trees of this crate are converted, node
//! by node, into the engine's own expression and plan values, and the
//! engine is asked to execute, to describe or to resolve the schema of the
//! converted plan. Every call into the engine goes through a trusted
//! wrapper below whose body holds exactly that call. What an engine value
//! stands for is named by [`expr_model`] and [`lazy_model`]; each trusted
//! constructor states the one node it builds of that model, and the
//! verified conversions [`expr_to_engine`] and [`plan_to_engine`] are
//! proved to hand the engine exactly the tree they were given.

use std::rc::Rc;

use polars::prelude::IntoLazy;
use polars_io::prelude::SerReader;
use vstd::prelude::*;

use crate::error::PlError;

verus! {

/// The engine's expression tree, held opaquely.
#[verifier::external_body]
pub struct EngineExpr {
    inner: polars::prelude::Expr,
}

/// The engine's deferred plan handle, held opaquely.
#[verifier::external_body]
pub struct EngineLazy {
    inner: polars::prelude::LazyFrame,
}

/// The engine's error value; opaque to this crate.
#[verifier::external_type_specification]
#[verifier::external_body]
pub struct ExEnginePolarsError(polars::prelude::PolarsError);

/// The engine's binary operator tag; opaque to this crate.
#[verifier::external_type_specification]
#[verifier::external_body]
pub struct ExEngineOperator(polars::prelude::Operator);

/// The engine's join kind tag; opaque to this crate.
#[verifier::external_type_specification]
#[verifier::external_body]
pub struct ExEngineJoinType(polars::prelude::JoinType);

/// A materialized table returned by the engine, held opaquely.
#[verifier::external_body]
pub struct Table {
    df: polars::prelude::DataFrame,
}

/// The expression of this crate that an engine expression stands for: the
/// trusted constructors below each state the one node they build of it.
pub uninterp spec fn expr_model(e: EngineExpr) -> crate::expr::Expr;

/// The plan shape that an engine deferred plan stands for: the trusted
/// constructors below each state the one node they append to it.
pub uninterp spec fn lazy_model(l: EngineLazy) -> crate::plan::PlanModel;

/// The operator tag of this crate that an engine operator stands for.
pub uninterp spec fn op_model(op: polars::prelude::Operator) -> crate::expr::BinOp;

/// The join kind of this crate that an engine join tag stands for.
pub uninterp spec fn join_kind_model(how: polars::prelude::JoinType) -> crate::plan::JoinKind;

/// The expressions a sequence of engine expressions stands for, one each,
/// in order.
pub open spec fn exprs_model(s: Seq<EngineExpr>) -> Seq<crate::expr::Expr> {
    Seq::new(s.len(), |i: int| expr_model(s[i]))
}

/// Relies on polars Operator::Plus.
#[verifier::external_body]
pub(crate) fn op_plus() -> (r: polars::prelude::Operator)
    ensures
        op_model(r) == crate::expr::BinOp::Plus,
{
    polars::prelude::Operator::Plus
}

/// Relies on polars Operator::Minus.
#[verifier::external_body]
pub(crate) fn op_minus() -> (r: polars::prelude::Operator)
    ensures
        op_model(r) == crate::expr::BinOp::Minus,
{
    polars::prelude::Operator::Minus
}

/// Relies on polars Operator::Multiply.
#[verifier::external_body]
pub(crate) fn op_multiply() -> (r: polars::prelude::Operator)
    ensures
        op_model(r) == crate::expr::BinOp::Multiply,
{
    polars::prelude::Operator::Multiply
}

/// Relies on polars Operator::TrueDivide.
#[verifier::external_body]
pub(crate) fn op_true_divide() -> (r: polars::prelude::Operator)
    ensures
        op_model(r) == crate::expr::BinOp::TrueDivide,
{
    polars::prelude::Operator::TrueDivide
}

/// Relies on polars Operator::FloorDivide.
#[verifier::external_body]
pub(crate) fn op_floor_divide() -> (r: polars::prelude::Operator)
    ensures
        op_model(r) == crate::expr::BinOp::FloorDivide,
{
    polars::prelude::Operator::FloorDivide
}

/// Relies on polars Operator::Modulus.
#[verifier::external_body]
pub(crate) fn op_modulus() -> (r: polars::prelude::Operator)
    ensures
        op_model(r) == crate::expr::BinOp::Modulus,
{
    polars::prelude::Operator::Modulus
}

/// Relies on polars Operator::Eq.
#[verifier::external_body]
pub(crate) fn op_eq() -> (r: polars::prelude::Operator)
    ensures
        op_model(r) == crate::expr::BinOp::Eq,
{
    polars::prelude::Operator::Eq
}

/// Relies on polars Operator::NotEq.
#[verifier::external_body]
pub(crate) fn op_not_eq() -> (r: polars::prelude::Operator)
    ensures
        op_model(r) == crate::expr::BinOp::NotEq,
{
    polars::prelude::Operator::NotEq
}

/// Relies on polars Operator::Gt.
#[verifier::external_body]
pub(crate) fn op_gt() -> (r: polars::prelude::Operator)
    ensures
        op_model(r) == crate::expr::BinOp::Gt,
{
    polars::prelude::Operator::Gt
}

/// Relies on polars Operator::GtEq.
#[verifier::external_body]
pub(crate) fn op_gt_eq() -> (r: polars::prelude::Operator)
    ensures
        op_model(r) == crate::expr::BinOp::GtEq,
{
    polars::prelude::Operator::GtEq
}

/// Relies on polars Operator::Lt.
#[verifier::external_body]
pub(crate) fn op_lt() -> (r: polars::prelude::Operator)
    ensures
        op_model(r) == crate::expr::BinOp::Lt,
{
    polars::prelude::Operator::Lt
}

/// Relies on polars Operator::LtEq.
#[verifier::external_body]
pub(crate) fn op_lt_eq() -> (r: polars::prelude::Operator)
    ensures
        op_model(r) == crate::expr::BinOp::LtEq,
{
    polars::prelude::Operator::LtEq
}

/// Relies on polars JoinType::Left.
#[verifier::external_body]
pub(crate) fn join_type_left() -> (r: polars::prelude::JoinType)
    ensures
        join_kind_model(r) == crate::plan::JoinKind::Left,
{
    polars::prelude::JoinType::Left
}

/// Relies on polars JoinType::Inner.
#[verifier::external_body]
pub(crate) fn join_type_inner() -> (r: polars::prelude::JoinType)
    ensures
        join_kind_model(r) == crate::plan::JoinKind::Inner,
{
    polars::prelude::JoinType::Inner
}

/// Relies on polars JoinType::Full, the kind that keeps every row of both
/// tables.
#[verifier::external_body]
pub(crate) fn join_type_outer() -> (r: polars::prelude::JoinType)
    ensures
        join_kind_model(r) == crate::plan::JoinKind::Outer,
{
    polars::prelude::JoinType::Full
}

/// Relies on polars JoinType::Semi.
#[verifier::external_body]
pub(crate) fn join_type_semi() -> (r: polars::prelude::JoinType)
    ensures
        join_kind_model(r) == crate::plan::JoinKind::Semi,
{
    polars::prelude::JoinType::Semi
}

/// Relies on polars JoinType::Anti.
#[verifier::external_body]
pub(crate) fn join_type_anti() -> (r: polars::prelude::JoinType)
    ensures
        join_kind_model(r) == crate::plan::JoinKind::Anti,
{
    polars::prelude::JoinType::Anti
}

/// Relies on polars col: the expression naming one column, with `*` and
/// `^...$` names expanded to selections.
#[verifier::external_body]
pub(crate) fn eng_col(name: String) -> (r: EngineExpr)
    ensures
        expr_model(r) == (crate::expr::Expr::Column { name }),
{
    EngineExpr { inner: polars::prelude::col(name) }
}

/// Relies on polars cols: the selection of several columns by name.
#[verifier::external_body]
pub(crate) fn eng_cols(names: &Rc<Vec<String>>) -> (r: EngineExpr)
    ensures
        expr_model(r) == (crate::expr::Expr::Columns { names: *names }),
{
    EngineExpr { inner: polars::prelude::cols((**names).clone()).as_expr() }
}

/// Relies on polars lit on a 64-bit integer scalar: the constant keeps
/// the 64-bit integer type.
#[verifier::external_body]
pub(crate) fn eng_lit_i64(value: i64) -> (r: EngineExpr)
    ensures
        expr_model(r) == (crate::expr::Expr::Literal {
            value: crate::expr::Lit::Int { value },
        }),
{
    EngineExpr {
        inner: polars::prelude::lit(
            polars::prelude::Scalar::new(
                polars::prelude::DataType::Int64,
                polars::prelude::AnyValue::Int64(value),
            ),
        ),
    }
}

/// Relies on polars lit on a boolean.
#[verifier::external_body]
pub(crate) fn eng_lit_bool(value: bool) -> (r: EngineExpr)
    ensures
        expr_model(r) == (crate::expr::Expr::Literal {
            value: crate::expr::Lit::Bool { value },
        }),
{
    EngineExpr { inner: polars::prelude::lit(value) }
}

/// Relies on polars lit on a string.
#[verifier::external_body]
pub(crate) fn eng_lit_str(value: String) -> (r: EngineExpr)
    ensures
        expr_model(r) == (crate::expr::Expr::Literal {
            value: crate::expr::Lit::Str { value },
        }),
{
    EngineExpr { inner: polars::prelude::lit(value) }
}

/// Relies on polars lit on the null literal.
#[verifier::external_body]
pub(crate) fn eng_lit_null() -> (r: EngineExpr)
    ensures
        expr_model(r) == (crate::expr::Expr::Literal { value: crate::expr::Lit::Null }),
{
    EngineExpr { inner: polars::prelude::lit(polars::prelude::NULL) }
}

/// Relies on polars len: the row count expression.
#[verifier::external_body]
pub(crate) fn eng_len() -> (r: EngineExpr)
    ensures
        expr_model(r) == crate::expr::Expr::Len,
{
    EngineExpr { inner: polars::prelude::len() }
}

/// Relies on polars first: the selection of the first column.
#[verifier::external_body]
pub(crate) fn eng_first_column() -> (r: EngineExpr)
    ensures
        expr_model(r) == crate::expr::Expr::FirstColumn,
{
    EngineExpr { inner: polars::prelude::first().as_expr() }
}

/// Relies on polars last: the selection of the last column.
#[verifier::external_body]
pub(crate) fn eng_last_column() -> (r: EngineExpr)
    ensures
        expr_model(r) == crate::expr::Expr::LastColumn,
{
    EngineExpr { inner: polars::prelude::last().as_expr() }
}

/// Relies on polars binary_expr: the binary node over two expressions.
#[verifier::external_body]
pub(crate) fn eng_binary(
    left: EngineExpr,
    op: polars::prelude::Operator,
    right: EngineExpr,
) -> (r: EngineExpr)
    ensures
        expr_model(r) == (crate::expr::Expr::BinaryOp {
            op: op_model(op),
            left: Rc::new(expr_model(left)),
            right: Rc::new(expr_model(right)),
        }),
{
    EngineExpr { inner: polars::prelude::binary_expr(left.inner, op, right.inner) }
}

/// Relies on polars ternary_expr: the row-wise conditional node.
#[verifier::external_body]
pub(crate) fn eng_ternary(
    predicate: EngineExpr,
    if_true: EngineExpr,
    if_false: EngineExpr,
) -> (r: EngineExpr)
    ensures
        expr_model(r) == (crate::expr::Expr::Ternary {
            predicate: Rc::new(expr_model(predicate)),
            if_true: Rc::new(expr_model(if_true)),
            if_false: Rc::new(expr_model(if_false)),
        }),
{
    EngineExpr { inner: polars::prelude::ternary_expr(predicate.inner, if_true.inner, if_false.inner) }
}

/// Relies on polars Expr::not.
#[verifier::external_body]
pub(crate) fn eng_not(e: EngineExpr) -> (r: EngineExpr)
    ensures
        expr_model(r) == (crate::expr::Expr::UnaryOp {
            op: crate::expr::UnOp::Not,
            operand: Rc::new(expr_model(e)),
        }),
{
    EngineExpr { inner: e.inner.not() }
}

/// Relies on polars Expr::is_null.
#[verifier::external_body]
pub(crate) fn eng_is_null(e: EngineExpr) -> (r: EngineExpr)
    ensures
        expr_model(r) == (crate::expr::Expr::UnaryOp {
            op: crate::expr::UnOp::IsNull,
            operand: Rc::new(expr_model(e)),
        }),
{
    EngineExpr { inner: e.inner.is_null() }
}

/// Relies on polars Expr::is_not_null.
#[verifier::external_body]
pub(crate) fn eng_is_not_null(e: EngineExpr) -> (r: EngineExpr)
    ensures
        expr_model(r) == (crate::expr::Expr::UnaryOp {
            op: crate::expr::UnOp::IsNotNull,
            operand: Rc::new(expr_model(e)),
        }),
{
    EngineExpr { inner: e.inner.is_not_null() }
}

/// Relies on polars Expr::is_finite.
#[verifier::external_body]
pub(crate) fn eng_is_finite(e: EngineExpr) -> (r: EngineExpr)
    ensures
        expr_model(r) == (crate::expr::Expr::UnaryOp {
            op: crate::expr::UnOp::IsFinite,
            operand: Rc::new(expr_model(e)),
        }),
{
    EngineExpr { inner: e.inner.is_finite() }
}

/// Relies on polars Expr::is_infinite.
#[verifier::external_body]
pub(crate) fn eng_is_infinite(e: EngineExpr) -> (r: EngineExpr)
    ensures
        expr_model(r) == (crate::expr::Expr::UnaryOp {
            op: crate::expr::UnOp::IsInfinite,
            operand: Rc::new(expr_model(e)),
        }),
{
    EngineExpr { inner: e.inner.is_infinite() }
}

/// Relies on polars Expr::is_nan.
#[verifier::external_body]
pub(crate) fn eng_is_nan(e: EngineExpr) -> (r: EngineExpr)
    ensures
        expr_model(r) == (crate::expr::Expr::UnaryOp {
            op: crate::expr::UnOp::IsNan,
            operand: Rc::new(expr_model(e)),
        }),
{
    EngineExpr { inner: e.inner.is_nan() }
}

/// Relies on polars Expr::is_not_nan.
#[verifier::external_body]
pub(crate) fn eng_is_not_nan(e: EngineExpr) -> (r: EngineExpr)
    ensures
        expr_model(r) == (crate::expr::Expr::UnaryOp {
            op: crate::expr::UnOp::IsNotNan,
            operand: Rc::new(expr_model(e)),
        }),
{
    EngineExpr { inner: e.inner.is_not_nan() }
}

/// Relies on polars Expr::is_unique.
#[verifier::external_body]
pub(crate) fn eng_is_unique(e: EngineExpr) -> (r: EngineExpr)
    ensures
        expr_model(r) == (crate::expr::Expr::UnaryOp {
            op: crate::expr::UnOp::IsUnique,
            operand: Rc::new(expr_model(e)),
        }),
{
    EngineExpr { inner: e.inner.is_unique() }
}

/// Relies on polars Expr::is_first_distinct: true at the first occurrence
/// of each value.
#[verifier::external_body]
pub(crate) fn eng_is_first(e: EngineExpr) -> (r: EngineExpr)
    ensures
        expr_model(r) == (crate::expr::Expr::UnaryOp {
            op: crate::expr::UnOp::IsFirst,
            operand: Rc::new(expr_model(e)),
        }),
{
    EngineExpr { inner: e.inner.is_first_distinct() }
}

/// Relies on polars Expr::is_duplicated.
#[verifier::external_body]
pub(crate) fn eng_is_duplicated(e: EngineExpr) -> (r: EngineExpr)
    ensures
        expr_model(r) == (crate::expr::Expr::UnaryOp {
            op: crate::expr::UnOp::IsDuplicated,
            operand: Rc::new(expr_model(e)),
        }),
{
    EngineExpr { inner: e.inner.is_duplicated() }
}

/// Relies on polars Expr::abs.
#[verifier::external_body]
pub(crate) fn eng_abs(e: EngineExpr) -> (r: EngineExpr)
    ensures
        expr_model(r) == (crate::expr::Expr::UnaryOp {
            op: crate::expr::UnOp::Abs,
            operand: Rc::new(expr_model(e)),
        }),
{
    EngineExpr { inner: e.inner.abs() }
}

/// Relies on polars Expr::floor.
#[verifier::external_body]
pub(crate) fn eng_floor(e: EngineExpr) -> (r: EngineExpr)
    ensures
        expr_model(r) == (crate::expr::Expr::UnaryOp {
            op: crate::expr::UnOp::Floor,
            operand: Rc::new(expr_model(e)),
        }),
{
    EngineExpr { inner: e.inner.floor() }
}

/// Relies on polars Expr::ceil.
#[verifier::external_body]
pub(crate) fn eng_ceil(e: EngineExpr) -> (r: EngineExpr)
    ensures
        expr_model(r) == (crate::expr::Expr::UnaryOp {
            op: crate::expr::UnOp::Ceil,
            operand: Rc::new(expr_model(e)),
        }),
{
    EngineExpr { inner: e.inner.ceil() }
}

/// Relies on polars Expr::reverse.
#[verifier::external_body]
pub(crate) fn eng_reverse(e: EngineExpr) -> (r: EngineExpr)
    ensures
        expr_model(r) == (crate::expr::Expr::UnaryOp {
            op: crate::expr::UnOp::Reverse,
            operand: Rc::new(expr_model(e)),
        }),
{
    EngineExpr { inner: e.inner.reverse() }
}

/// Relies on polars Expr::explode; empty lists become a missing value, as
/// do missing lists.
#[verifier::external_body]
pub(crate) fn eng_explode(e: EngineExpr) -> (r: EngineExpr)
    ensures
        expr_model(r) == (crate::expr::Expr::UnaryOp {
            op: crate::expr::UnOp::Explode,
            operand: Rc::new(expr_model(e)),
        }),
{
    EngineExpr { inner: e.inner.explode(polars::prelude::ExplodeOptions { empty_as_null: true, keep_nulls: true }) }
}

/// Relies on polars Expr::drop_nulls.
#[verifier::external_body]
pub(crate) fn eng_drop_nulls(e: EngineExpr) -> (r: EngineExpr)
    ensures
        expr_model(r) == (crate::expr::Expr::UnaryOp {
            op: crate::expr::UnOp::DropNulls,
            operand: Rc::new(expr_model(e)),
        }),
{
    EngineExpr { inner: e.inner.drop_nulls() }
}

/// Relies on polars Expr::drop_nans.
#[verifier::external_body]
pub(crate) fn eng_drop_nans(e: EngineExpr) -> (r: EngineExpr)
    ensures
        expr_model(r) == (crate::expr::Expr::UnaryOp {
            op: crate::expr::UnOp::DropNans,
            operand: Rc::new(expr_model(e)),
        }),
{
    EngineExpr { inner: e.inner.drop_nans() }
}

/// Relies on polars Expr::unique.
#[verifier::external_body]
pub(crate) fn eng_unique(e: EngineExpr) -> (r: EngineExpr)
    ensures
        expr_model(r) == (crate::expr::Expr::UnaryOp {
            op: crate::expr::UnOp::Unique,
            operand: Rc::new(expr_model(e)),
        }),
{
    EngineExpr { inner: e.inner.unique() }
}

/// Relies on polars Expr::unique_stable.
#[verifier::external_body]
pub(crate) fn eng_unique_stable(e: EngineExpr) -> (r: EngineExpr)
    ensures
        expr_model(r) == (crate::expr::Expr::UnaryOp {
            op: crate::expr::UnOp::UniqueStable,
            operand: Rc::new(expr_model(e)),
        }),
{
    EngineExpr { inner: e.inner.unique_stable() }
}

/// Relies on polars Expr::unique_counts.
#[verifier::external_body]
pub(crate) fn eng_unique_counts(e: EngineExpr) -> (r: EngineExpr)
    ensures
        expr_model(r) == (crate::expr::Expr::UnaryOp {
            op: crate::expr::UnOp::UniqueCounts,
            operand: Rc::new(expr_model(e)),
        }),
{
    EngineExpr { inner: e.inner.unique_counts() }
}

/// Relies on polars Expr::arg_unique.
#[verifier::external_body]
pub(crate) fn eng_arg_unique(e: EngineExpr) -> (r: EngineExpr)
    ensures
        expr_model(r) == (crate::expr::Expr::UnaryOp {
            op: crate::expr::UnOp::ArgUnique,
            operand: Rc::new(expr_model(e)),
        }),
{
    EngineExpr { inner: e.inner.arg_unique() }
}

/// Relies on polars Expr::arg_max.
#[verifier::external_body]
pub(crate) fn eng_arg_max(e: EngineExpr) -> (r: EngineExpr)
    ensures
        expr_model(r) == (crate::expr::Expr::UnaryOp {
            op: crate::expr::UnOp::ArgMax,
            operand: Rc::new(expr_model(e)),
        }),
{
    EngineExpr { inner: e.inner.arg_max() }
}

/// Relies on polars Expr::arg_min.
#[verifier::external_body]
pub(crate) fn eng_arg_min(e: EngineExpr) -> (r: EngineExpr)
    ensures
        expr_model(r) == (crate::expr::Expr::UnaryOp {
            op: crate::expr::UnOp::ArgMin,
            operand: Rc::new(expr_model(e)),
        }),
{
    EngineExpr { inner: e.inner.arg_min() }
}

/// Relies on polars Expr::fill_null_with_strategy with the backward
/// strategy: missing values take the next seen value.
#[verifier::external_body]
pub(crate) fn eng_backward_fill(e: EngineExpr) -> (r: EngineExpr)
    ensures
        expr_model(r) == (crate::expr::Expr::UnaryOp {
            op: crate::expr::UnOp::BackwardFill,
            operand: Rc::new(expr_model(e)),
        }),
{
    EngineExpr { inner: e.inner.fill_null_with_strategy(polars::prelude::FillNullStrategy::Backward(None)) }
}

/// Relies on polars Expr::fill_null_with_strategy with the forward
/// strategy: missing values take the latest seen value.
#[verifier::external_body]
pub(crate) fn eng_forward_fill(e: EngineExpr) -> (r: EngineExpr)
    ensures
        expr_model(r) == (crate::expr::Expr::UnaryOp {
            op: crate::expr::UnOp::ForwardFill,
            operand: Rc::new(expr_model(e)),
        }),
{
    EngineExpr { inner: e.inner.fill_null_with_strategy(polars::prelude::FillNullStrategy::Forward(None)) }
}

/// Relies on polars Expr::agg_groups.
#[verifier::external_body]
pub(crate) fn eng_agg_groups(e: EngineExpr) -> (r: EngineExpr)
    ensures
        expr_model(r) == (crate::expr::Expr::UnaryOp {
            op: crate::expr::UnOp::AggGroups,
            operand: Rc::new(expr_model(e)),
        }),
{
    EngineExpr { inner: e.inner.agg_groups() }
}

/// Relies on polars Expr::min.
#[verifier::external_body]
pub(crate) fn eng_min(e: EngineExpr) -> (r: EngineExpr)
    ensures
        expr_model(r) == (crate::expr::Expr::Agg {
            op: crate::expr::AggOp::Min,
            operand: Rc::new(expr_model(e)),
        }),
{
    EngineExpr { inner: e.inner.min() }
}

/// Relies on polars Expr::max.
#[verifier::external_body]
pub(crate) fn eng_max(e: EngineExpr) -> (r: EngineExpr)
    ensures
        expr_model(r) == (crate::expr::Expr::Agg {
            op: crate::expr::AggOp::Max,
            operand: Rc::new(expr_model(e)),
        }),
{
    EngineExpr { inner: e.inner.max() }
}

/// Relies on polars Expr::mean.
#[verifier::external_body]
pub(crate) fn eng_mean(e: EngineExpr) -> (r: EngineExpr)
    ensures
        expr_model(r) == (crate::expr::Expr::Agg {
            op: crate::expr::AggOp::Mean,
            operand: Rc::new(expr_model(e)),
        }),
{
    EngineExpr { inner: e.inner.mean() }
}

/// Relies on polars Expr::median.
#[verifier::external_body]
pub(crate) fn eng_median(e: EngineExpr) -> (r: EngineExpr)
    ensures
        expr_model(r) == (crate::expr::Expr::Agg {
            op: crate::expr::AggOp::Median,
            operand: Rc::new(expr_model(e)),
        }),
{
    EngineExpr { inner: e.inner.median() }
}

/// Relies on polars Expr::sum.
#[verifier::external_body]
pub(crate) fn eng_sum(e: EngineExpr) -> (r: EngineExpr)
    ensures
        expr_model(r) == (crate::expr::Expr::Agg {
            op: crate::expr::AggOp::Sum,
            operand: Rc::new(expr_model(e)),
        }),
{
    EngineExpr { inner: e.inner.sum() }
}

/// Relies on polars Expr::count.
#[verifier::external_body]
pub(crate) fn eng_count(e: EngineExpr) -> (r: EngineExpr)
    ensures
        expr_model(r) == (crate::expr::Expr::Agg {
            op: crate::expr::AggOp::Count,
            operand: Rc::new(expr_model(e)),
        }),
{
    EngineExpr { inner: e.inner.count() }
}

/// Relies on polars Expr::n_unique.
#[verifier::external_body]
pub(crate) fn eng_n_unique(e: EngineExpr) -> (r: EngineExpr)
    ensures
        expr_model(r) == (crate::expr::Expr::Agg {
            op: crate::expr::AggOp::NUnique,
            operand: Rc::new(expr_model(e)),
        }),
{
    EngineExpr { inner: e.inner.n_unique() }
}

/// Relies on polars Expr::first.
#[verifier::external_body]
pub(crate) fn eng_first_value(e: EngineExpr) -> (r: EngineExpr)
    ensures
        expr_model(r) == (crate::expr::Expr::Agg {
            op: crate::expr::AggOp::First,
            operand: Rc::new(expr_model(e)),
        }),
{
    EngineExpr { inner: e.inner.first() }
}

/// Relies on polars Expr::last.
#[verifier::external_body]
pub(crate) fn eng_last_value(e: EngineExpr) -> (r: EngineExpr)
    ensures
        expr_model(r) == (crate::expr::Expr::Agg {
            op: crate::expr::AggOp::Last,
            operand: Rc::new(expr_model(e)),
        }),
{
    EngineExpr { inner: e.inner.last() }
}

/// Relies on polars Expr::implode, keeping the order of the values.
#[verifier::external_body]
pub(crate) fn eng_implode(e: EngineExpr) -> (r: EngineExpr)
    ensures
        expr_model(r) == (crate::expr::Expr::Agg {
            op: crate::expr::AggOp::List,
            operand: Rc::new(expr_model(e)),
        }),
{
    EngineExpr { inner: e.inner.implode(true) }
}

/// Relies on polars Expr::std.
#[verifier::external_body]
pub(crate) fn eng_std(e: EngineExpr, ddof: u8) -> (r: EngineExpr)
    ensures
        expr_model(r) == (crate::expr::Expr::Agg {
            op: crate::expr::AggOp::Std { ddof },
            operand: Rc::new(expr_model(e)),
        }),
{
    EngineExpr { inner: e.inner.std(ddof) }
}

/// Relies on polars Expr::var.
#[verifier::external_body]
pub(crate) fn eng_var(e: EngineExpr, ddof: u8) -> (r: EngineExpr)
    ensures
        expr_model(r) == (crate::expr::Expr::Agg {
            op: crate::expr::AggOp::Var { ddof },
            operand: Rc::new(expr_model(e)),
        }),
{
    EngineExpr { inner: e.inner.var(ddof) }
}

/// Relies on polars Expr::alias.
#[verifier::external_body]
pub(crate) fn eng_alias(e: EngineExpr, name: String) -> (r: EngineExpr)
    ensures
        expr_model(r) == (crate::expr::Expr::Alias {
            operand: Rc::new(expr_model(e)),
            name,
        }),
{
    EngineExpr { inner: e.inner.alias(name) }
}

/// Relies on polars Expr::sort; single-threaded order of equal elements is
/// left to the engine.
#[verifier::external_body]
pub(crate) fn eng_sort(
    e: EngineExpr,
    descending: bool,
    nulls_last: bool,
) -> (r: EngineExpr)
    ensures
        expr_model(r) == (crate::expr::Expr::Sort {
            operand: Rc::new(expr_model(e)),
            descending,
            nulls_last,
        }),
{
    EngineExpr { inner: e.inner.sort(polars::prelude::SortOptions {
        descending,
        nulls_last,
        multithreaded: true,
        maintain_order: false,
        limit: None,
    }) }
}

/// Relies on polars Expr::arg_sort.
#[verifier::external_body]
pub(crate) fn eng_arg_sort(
    e: EngineExpr,
    descending: bool,
    nulls_last: bool,
) -> (r: EngineExpr)
    ensures
        expr_model(r) == (crate::expr::Expr::ArgSort {
            operand: Rc::new(expr_model(e)),
            descending,
            nulls_last,
        }),
{
    EngineExpr { inner: e.inner.arg_sort(descending, nulls_last) }
}

/// Relies on polars Expr::filter.
#[verifier::external_body]
pub(crate) fn eng_filter_expr(
    e: EngineExpr,
    predicate: EngineExpr,
) -> (r: EngineExpr)
    ensures
        expr_model(r) == (crate::expr::Expr::Filter {
            operand: Rc::new(expr_model(e)),
            predicate: Rc::new(expr_model(predicate)),
        }),
{
    EngineExpr { inner: e.inner.filter(predicate.inner) }
}

/// Relies on polars Expr::fill_null with an expression-valued fill.
#[verifier::external_body]
pub(crate) fn eng_fill_null(
    e: EngineExpr,
    fill: EngineExpr,
) -> (r: EngineExpr)
    ensures
        expr_model(r) == (crate::expr::Expr::FillNull {
            operand: Rc::new(expr_model(e)),
            fill: Rc::new(expr_model(fill)),
        }),
{
    EngineExpr { inner: e.inner.fill_null(fill.inner) }
}

/// Relies on polars Expr::fill_nan.
#[verifier::external_body]
pub(crate) fn eng_fill_nan(
    e: EngineExpr,
    fill: EngineExpr,
) -> (r: EngineExpr)
    ensures
        expr_model(r) == (crate::expr::Expr::FillNan {
            operand: Rc::new(expr_model(e)),
            fill: Rc::new(expr_model(fill)),
        }),
{
    EngineExpr { inner: e.inner.fill_nan(fill.inner) }
}

/// Relies on polars Expr::gather; an out-of-bounds index is an engine
/// error.
#[verifier::external_body]
pub(crate) fn eng_gather(
    e: EngineExpr,
    indices: EngineExpr,
) -> (r: EngineExpr)
    ensures
        expr_model(r) == (crate::expr::Expr::Take {
            operand: Rc::new(expr_model(e)),
            indices: Rc::new(expr_model(indices)),
        }),
{
    EngineExpr { inner: e.inner.gather(indices.inner, false) }
}

/// Relies on polars Expr::shift.
#[verifier::external_body]
pub(crate) fn eng_shift(e: EngineExpr, periods: i64) -> (r: EngineExpr)
    ensures
        expr_model(r) == (crate::expr::Expr::Shift {
            operand: Rc::new(expr_model(e)),
            periods,
        }),
{
    EngineExpr { inner: e.inner.shift(polars::prelude::lit(periods)) }
}

/// Relies on polars Expr::shift_and_fill.
#[verifier::external_body]
pub(crate) fn eng_shift_and_fill(
    e: EngineExpr,
    periods: i64,
    fill: EngineExpr,
) -> (r: EngineExpr)
    ensures
        expr_model(r) == (crate::expr::Expr::ShiftAndFill {
            operand: Rc::new(expr_model(e)),
            periods,
            fill: Rc::new(expr_model(fill)),
        }),
{
    EngineExpr { inner: e.inner.shift_and_fill(polars::prelude::lit(periods), fill.inner) }
}

/// Relies on polars Expr::head.
#[verifier::external_body]
pub(crate) fn eng_head(e: EngineExpr, n: Option<usize>) -> (r: EngineExpr)
    ensures
        expr_model(r) == (crate::expr::Expr::Head { operand: Rc::new(expr_model(e)), n }),
{
    EngineExpr { inner: e.inner.head(n) }
}

/// Relies on polars Expr::tail.
#[verifier::external_body]
pub(crate) fn eng_tail(e: EngineExpr, n: Option<usize>) -> (r: EngineExpr)
    ensures
        expr_model(r) == (crate::expr::Expr::Tail { operand: Rc::new(expr_model(e)), n }),
{
    EngineExpr { inner: e.inner.tail(n) }
}

/// Relies on polars Expr::slice.
#[verifier::external_body]
pub(crate) fn eng_slice(
    e: EngineExpr,
    offset: EngineExpr,
    length: EngineExpr,
) -> (r: EngineExpr)
    ensures
        expr_model(r) == (crate::expr::Expr::Slice {
            operand: Rc::new(expr_model(e)),
            offset: Rc::new(expr_model(offset)),
            length: Rc::new(expr_model(length)),
        }),
{
    EngineExpr { inner: e.inner.slice(offset.inner, length.inner) }
}

/// Relies on polars Expr::round, rounding halves away from zero.
#[verifier::external_body]
pub(crate) fn eng_round(e: EngineExpr, decimals: u32) -> (r: EngineExpr)
    ensures
        expr_model(r) == (crate::expr::Expr::Round {
            operand: Rc::new(expr_model(e)),
            decimals,
        }),
{
    EngineExpr { inner: e.inner.round(decimals, polars::prelude::RoundMode::HalfAwayFromZero) }
}

/// Relies on polars Expr::gather_every, starting at offset zero.
#[verifier::external_body]
pub(crate) fn eng_gather_every(e: EngineExpr, n: usize) -> (r: EngineExpr)
    ensures
        expr_model(r) == (crate::expr::Expr::TakeEvery {
            operand: Rc::new(expr_model(e)),
            n,
        }),
{
    EngineExpr { inner: e.inner.gather_every(n, 0) }
}

/// Relies on polars Expr::value_counts, under the output name `count`.
#[verifier::external_body]
pub(crate) fn eng_value_counts(
    e: EngineExpr,
    sort: bool,
    parallel: bool,
) -> (r: EngineExpr)
    ensures
        expr_model(r) == (crate::expr::Expr::ValueCounts {
            operand: Rc::new(expr_model(e)),
            multithreaded: parallel,
            sorted: sort,
        }),
{
    EngineExpr { inner: e.inner.value_counts(sort, parallel, "count", false) }
}

/// Relies on polars StringNameSpace::contains_literal.
#[verifier::external_body]
pub(crate) fn eng_str_contains_literal(e: EngineExpr, pat: String) -> (r: EngineExpr)
    ensures
        expr_model(r) == (crate::expr::Expr::StrOp {
            op: crate::expr::StrFn::ContainsLiteral { pat },
            operand: Rc::new(expr_model(e)),
        }),
{
    EngineExpr { inner: e.inner.str().contains_literal(polars::prelude::lit(pat)) }
}

/// Relies on polars StringNameSpace::contains; a malformed pattern is an
/// engine error.
#[verifier::external_body]
pub(crate) fn eng_str_contains(e: EngineExpr, pat: String) -> (r: EngineExpr)
    ensures
        expr_model(r) == (crate::expr::Expr::StrOp {
            op: crate::expr::StrFn::Contains { pat },
            operand: Rc::new(expr_model(e)),
        }),
{
    EngineExpr { inner: e.inner.str().contains(polars::prelude::lit(pat), true) }
}

/// Relies on polars StringNameSpace::ends_with.
#[verifier::external_body]
pub(crate) fn eng_str_ends_with(e: EngineExpr, sub: String) -> (r: EngineExpr)
    ensures
        expr_model(r) == (crate::expr::Expr::StrOp {
            op: crate::expr::StrFn::EndsWith { sub },
            operand: Rc::new(expr_model(e)),
        }),
{
    EngineExpr { inner: e.inner.str().ends_with(polars::prelude::lit(sub)) }
}

/// Relies on polars StringNameSpace::starts_with.
#[verifier::external_body]
pub(crate) fn eng_str_starts_with(e: EngineExpr, sub: String) -> (r: EngineExpr)
    ensures
        expr_model(r) == (crate::expr::Expr::StrOp {
            op: crate::expr::StrFn::StartsWith { sub },
            operand: Rc::new(expr_model(e)),
        }),
{
    EngineExpr { inner: e.inner.str().starts_with(polars::prelude::lit(sub)) }
}

/// Relies on polars StringNameSpace::extract.
#[verifier::external_body]
pub(crate) fn eng_str_extract(
    e: EngineExpr,
    pat: String,
    group_index: usize,
) -> (r: EngineExpr)
    ensures
        expr_model(r) == (crate::expr::Expr::StrOp {
            op: crate::expr::StrFn::Extract { pat, group_index },
            operand: Rc::new(expr_model(e)),
        }),
{
    EngineExpr { inner: e.inner.str().extract(polars::prelude::lit(pat), group_index) }
}

/// Relies on polars StringNameSpace::zfill.
#[verifier::external_body]
pub(crate) fn eng_str_zfill(e: EngineExpr, width: usize) -> (r: EngineExpr)
    ensures
        expr_model(r) == (crate::expr::Expr::StrOp {
            op: crate::expr::StrFn::Zfill { width },
            operand: Rc::new(expr_model(e)),
        }),
{
    EngineExpr { inner: e.inner.str().zfill(polars::prelude::lit(width as u64)) }
}

/// Relies on polars StringNameSpace::pad_end: padding on the right, as a
/// left-justification.
#[verifier::external_body]
pub(crate) fn eng_str_pad_end(
    e: EngineExpr,
    width: usize,
    fillchar: char,
) -> (r: EngineExpr)
    ensures
        expr_model(r) == (crate::expr::Expr::StrOp {
            op: crate::expr::StrFn::Ljust { width, fillchar },
            operand: Rc::new(expr_model(e)),
        }),
{
    EngineExpr { inner: e.inner.str().pad_end(polars::prelude::lit(width as u64), fillchar) }
}

/// Relies on polars StringNameSpace::pad_start: padding on the left, as a
/// right-justification.
#[verifier::external_body]
pub(crate) fn eng_str_pad_start(
    e: EngineExpr,
    width: usize,
    fillchar: char,
) -> (r: EngineExpr)
    ensures
        expr_model(r) == (crate::expr::Expr::StrOp {
            op: crate::expr::StrFn::Rjust { width, fillchar },
            operand: Rc::new(expr_model(e)),
        }),
{
    EngineExpr { inner: e.inner.str().pad_start(polars::prelude::lit(width as u64), fillchar) }
}

/// Relies on polars StringNameSpace::extract_all.
#[verifier::external_body]
pub(crate) fn eng_str_extract_all(
    e: EngineExpr,
    pat: EngineExpr,
) -> (r: EngineExpr)
    ensures
        expr_model(r) == (crate::expr::Expr::ExtractAll {
            operand: Rc::new(expr_model(e)),
            pat: Rc::new(expr_model(pat)),
        }),
{
    EngineExpr { inner: e.inner.str().extract_all(pat.inner) }
}

/// Relies on polars StringNameSpace::count_matches with a regular
/// expression pattern.
#[verifier::external_body]
pub(crate) fn eng_str_count_matches(e: EngineExpr, pat: String) -> (r: EngineExpr)
    ensures
        expr_model(r) == (crate::expr::Expr::StrOp {
            op: crate::expr::StrFn::CountMatch { pat },
            operand: Rc::new(expr_model(e)),
        }),
{
    EngineExpr { inner: e.inner.str().count_matches(polars::prelude::lit(pat), false) }
}

/// Relies on polars StringNameSpace::len_bytes.
#[verifier::external_body]
pub(crate) fn eng_str_len_bytes(e: EngineExpr) -> (r: EngineExpr)
    ensures
        expr_model(r) == (crate::expr::Expr::StrOp {
            op: crate::expr::StrFn::Lengths,
            operand: Rc::new(expr_model(e)),
        }),
{
    EngineExpr { inner: e.inner.str().len_bytes() }
}

/// Relies on polars StringNameSpace::len_chars.
#[verifier::external_body]
pub(crate) fn eng_str_len_chars(e: EngineExpr) -> (r: EngineExpr)
    ensures
        expr_model(r) == (crate::expr::Expr::StrOp {
            op: crate::expr::StrFn::NChars,
            operand: Rc::new(expr_model(e)),
        }),
{
    EngineExpr { inner: e.inner.str().len_chars() }
}

/// Relies on polars StringNameSpace::hex_encode.
#[verifier::external_body]
pub(crate) fn eng_str_hex_encode(e: EngineExpr) -> (r: EngineExpr)
    ensures
        expr_model(r) == (crate::expr::Expr::StrOp {
            op: crate::expr::StrFn::HexEncode,
            operand: Rc::new(expr_model(e)),
        }),
{
    EngineExpr { inner: e.inner.str().hex_encode() }
}

/// Relies on polars StringNameSpace::base64_encode.
#[verifier::external_body]
pub(crate) fn eng_str_base64_encode(e: EngineExpr) -> (r: EngineExpr)
    ensures
        expr_model(r) == (crate::expr::Expr::StrOp {
            op: crate::expr::StrFn::Base64Encode,
            operand: Rc::new(expr_model(e)),
        }),
{
    EngineExpr { inner: e.inner.str().base64_encode() }
}

/// Relies on DataFrame::clone and IntoLazy::lazy: a deferred plan reading
/// this table.
#[verifier::external_body]
pub(crate) fn eng_scan(table: &Table) -> (r: EngineLazy)
    ensures
        lazy_model(r) == (crate::plan::PlanModel::Scan { table: *table }),
{
    EngineLazy { inner: table.df.clone().lazy() }
}

/// Relies on polars LazyFrame::filter.
#[verifier::external_body]
pub(crate) fn eng_lf_filter(
    lf: EngineLazy,
    predicate: EngineExpr,
) -> (r: EngineLazy)
    ensures
        lazy_model(r) == (crate::plan::PlanModel::Filter {
            input: Box::new(lazy_model(lf)),
            predicate: expr_model(predicate),
        }),
{
    EngineLazy { inner: lf.inner.filter(predicate.inner) }
}

/// Relies on polars LazyFrame::select.
#[verifier::external_body]
pub(crate) fn eng_lf_select(
    lf: EngineLazy,
    exprs: Vec<EngineExpr>,
) -> (r: EngineLazy)
    ensures
        lazy_model(r) == (crate::plan::PlanModel::Select {
            input: Box::new(lazy_model(lf)),
            exprs: exprs_model(exprs@),
        }),
{
    EngineLazy { inner: lf.inner.select(exprs.into_iter().map(|x| x.inner).collect::<Vec<_>>()) }
}

/// Relies on polars LazyFrame::with_column.
#[verifier::external_body]
pub(crate) fn eng_lf_with_column(
    lf: EngineLazy,
    expr: EngineExpr,
) -> (r: EngineLazy)
    ensures
        lazy_model(r) == (crate::plan::PlanModel::WithColumn {
            input: Box::new(lazy_model(lf)),
            expr: expr_model(expr),
        }),
{
    EngineLazy { inner: lf.inner.with_column(expr.inner) }
}

/// Relies on polars LazyFrame::with_columns.
#[verifier::external_body]
pub(crate) fn eng_lf_with_columns(
    lf: EngineLazy,
    exprs: Vec<EngineExpr>,
) -> (r: EngineLazy)
    ensures
        lazy_model(r) == (crate::plan::PlanModel::WithColumns {
            input: Box::new(lazy_model(lf)),
            exprs: exprs_model(exprs@),
        }),
{
    EngineLazy { inner: lf.inner.with_columns(exprs.into_iter().map(|x| x.inner).collect::<Vec<_>>()) }
}

/// Relies on polars LazyFrame::sort on one named column.
#[verifier::external_body]
pub(crate) fn eng_lf_sort(
    lf: EngineLazy,
    by_column: String,
    descending: bool,
    nulls_last: bool,
) -> (r: EngineLazy)
    ensures
        lazy_model(r) == (crate::plan::PlanModel::Sort {
            input: Box::new(lazy_model(lf)),
            by_column,
            descending,
            nulls_last,
        }),
{
    EngineLazy { inner: lf.inner.sort(
        [by_column],
        polars::prelude::SortMultipleOptions {
            descending: vec![descending],
            nulls_last: vec![nulls_last],
            multithreaded: true,
            maintain_order: false,
            limit: None,
        },
    ) }
}

/// Relies on polars LazyFrame::sort_by_exprs, one descending flag per
/// expression.
#[verifier::external_body]
pub(crate) fn eng_lf_sort_by_exprs(
    lf: EngineLazy,
    by: Vec<EngineExpr>,
    descending: Vec<bool>,
    nulls_last: bool,
) -> (r: EngineLazy)
    ensures
        lazy_model(r) == (crate::plan::PlanModel::SortByExprs {
            input: Box::new(lazy_model(lf)),
            by: exprs_model(by@),
            descending: descending@,
            nulls_last,
        }),
{
    EngineLazy { inner: lf.inner.sort_by_exprs(
        by.into_iter().map(|x| x.inner).collect::<Vec<_>>(),
        polars::prelude::SortMultipleOptions {
            descending,
            nulls_last: vec![nulls_last],
            multithreaded: true,
            maintain_order: false,
            limit: None,
        },
    ) }
}

/// Relies on polars LazyFrame::join_builder and JoinBuilder: the join of
/// two plans on the given key lists, kind, suffix and parallelism hints.
#[verifier::external_body]
pub(crate) fn eng_lf_join(
    lf: EngineLazy,
    other: EngineLazy,
    left_on: Vec<EngineExpr>,
    right_on: Vec<EngineExpr>,
    how: polars::prelude::JoinType,
    suffix: String,
    allow_parallel: bool,
    force_parallel: bool,
) -> (r: EngineLazy)
    ensures
        lazy_model(r) == (crate::plan::PlanModel::Join {
            input_left: Box::new(lazy_model(lf)),
            input_right: Box::new(lazy_model(other)),
            left_on: exprs_model(left_on@),
            right_on: exprs_model(right_on@),
            how: join_kind_model(how),
            suffix,
            allow_parallel,
            force_parallel,
        }),
{
    EngineLazy { inner: lf.inner.join_builder()
        .with(other.inner)
        .left_on(left_on.into_iter().map(|x| x.inner).collect::<Vec<_>>())
        .right_on(right_on.into_iter().map(|x| x.inner).collect::<Vec<_>>())
        .allow_parallel(allow_parallel)
        .force_parallel(force_parallel)
        .how(how)
        .suffix(suffix)
        .finish() }
}

/// Relies on polars LazyFrame::cache.
#[verifier::external_body]
pub(crate) fn eng_lf_cache(lf: EngineLazy) -> (r: EngineLazy)
    ensures
        lazy_model(r) == (crate::plan::PlanModel::Cache { input: Box::new(lazy_model(lf)) }),
{
    EngineLazy { inner: lf.inner.cache() }
}

/// Relies on polars LazyFrame::drop_nulls without a subset: rows with a
/// missing value in any column are dropped.
#[verifier::external_body]
pub(crate) fn eng_lf_drop_nulls_any(lf: EngineLazy) -> (r: EngineLazy)
    ensures
        lazy_model(r) == (crate::plan::PlanModel::DropNulls {
            input: Box::new(lazy_model(lf)),
            subset: None,
        }),
{
    EngineLazy { inner: lf.inner.drop_nulls(None) }
}

/// Relies on polars LazyFrame::drop_nulls with a subset of columns by
/// name.
#[verifier::external_body]
pub(crate) fn eng_lf_drop_nulls_subset(
    lf: EngineLazy,
    names: Vec<String>,
) -> (r: EngineLazy)
    ensures
        lazy_model(r) == (crate::plan::PlanModel::DropNulls {
            input: Box::new(lazy_model(lf)),
            subset: Some(names@),
        }),
{
    EngineLazy { inner: lf.inner.drop_nulls(Some(polars::prelude::cols(names))) }
}

/// Relies on polars LazyFrame::collect: the engine optimizes and executes
/// the plan and materializes a table, or reports its error.
#[verifier::external_body]
pub(crate) fn eng_lf_collect(
    lf: EngineLazy,
) -> Result<Table, polars::prelude::PolarsError> {
    lf.inner.collect().map(|df| Table { df })
}

/// Relies on polars LazyFrame::collect_schema: the column names of the
/// plan's resolved schema, in order, or the engine's error.
#[verifier::external_body]
pub(crate) fn eng_lf_schema_names(
    lf: EngineLazy,
) -> Result<Vec<String>, polars::prelude::PolarsError> {
    let mut lf = lf.inner;
    Ok(lf.collect_schema()?.iter_names().map(|n| n.to_string()).collect())
}

/// Relies on polars LazyFrame::describe_plan: a human-readable dump of
/// the unoptimized plan.
#[verifier::external_body]
pub(crate) fn eng_lf_describe(
    lf: EngineLazy,
) -> Result<String, polars::prelude::PolarsError> {
    lf.inner.describe_plan()
}

/// Relies on polars LazyFrame::describe_optimized_plan: a human-readable
/// dump of the plan after the engine's optimizer ran, or its error.
#[verifier::external_body]
pub(crate) fn eng_lf_describe_optimized(
    lf: EngineLazy,
) -> Result<String, polars::prelude::PolarsError> {
    lf.inner.describe_optimized_plan()
}

/// Relies on DataFrame::clone: the copy holds the same columns and rows,
/// so it is the same abstract table.
#[verifier::external_body]
pub(crate) fn eng_df_clone(table: &Table) -> (r: Table)
    ensures
        r == *table,
{
    Table { df: table.df.clone() }
}

/// Relies on DataFrame::height: the number of rows.
#[verifier::external_body]
pub(crate) fn eng_df_height(table: &Table) -> usize {
    table.df.height()
}

/// Relies on DataFrame::get_column_names: the column names in order.
#[verifier::external_body]
pub(crate) fn eng_df_column_names(table: &Table) -> Vec<String> {
    table.df.get_column_names().iter().map(|n| n.to_string()).collect()
}

/// Relies on DataFrame::equals_missing: equality of shape, names and
/// values, counting missing values as equal.
#[verifier::external_body]
pub(crate) fn eng_df_equals(table: &Table, other: &Table) -> bool {
    table.df.equals_missing(&other.df)
}

/// Relies on DataFrame::column and Column::i64: the named column's values
/// as 64-bit integers, in row order.
#[verifier::external_body]
pub(crate) fn eng_df_column_i64(
    table: &Table,
    name: &str,
) -> Result<Vec<Option<i64>>, polars::prelude::PolarsError> {
    Ok(table.df.column(name)?.i64()?.iter().collect())
}

/// Relies on DataFrame::column and Column::str: the named column's values
/// as strings, in row order.
#[verifier::external_body]
pub(crate) fn eng_df_column_str(
    table: &Table,
    name: &str,
) -> Result<Vec<Option<String>>, polars::prelude::PolarsError> {
    Ok(table.df.column(name)?.str()?.iter().map(|v| v.map(|s| s.to_string())).collect())
}

/// Relies on the engine's delimited-text parser, reading the bytes as
/// strict UTF-8 with the given options; its verdict depends on the bytes
/// and options alone.
#[verifier::external_body]
pub(crate) fn eng_read_csv_utf8(
    buff: &[u8],
    o: &crate::io::CsvOptions,
) -> (r: Result<Table, polars::prelude::PolarsError>)
    ensures
        r is Ok <==> crate::io::csv_utf8_ok(buff@, *o),
{
    let parse = polars_io::prelude::CsvParseOptions::default().with_separator(b',').with_encoding(
        polars_io::prelude::CsvEncoding::Utf8,
    ).with_try_parse_dates(o.parse_dates);
    let opts = polars_io::prelude::CsvReadOptions::default().with_parse_options(parse)
        .with_infer_schema_length(o.infer_schema_length.map(|i| i as usize))
        .with_has_header(o.has_header).with_chunk_size(o.chunk_size as usize)
        .with_n_rows(o.n_rows.map(|i| i as usize)).with_skip_rows(o.skip_rows as usize)
        .with_ignore_errors(o.ignore_errors).with_rechunk(o.rechunk)
        .with_low_memory(o.low_memory).with_n_threads(o.n_threads.map(|i| i as usize))
        .with_skip_rows_after_header(o.skip_rows_after_header as usize);
    opts.into_reader_with_file_handle(std::io::Cursor::new(buff)).finish().map(|df| Table { df })
}

/// Relies on the engine's delimited-text parser, replacing invalid UTF-8
/// sequences instead of rejecting them, with the given options; its
/// verdict depends on the bytes and options alone.
#[verifier::external_body]
pub(crate) fn eng_read_csv_lossy(
    buff: &[u8],
    o: &crate::io::CsvOptions,
) -> (r: Result<Table, polars::prelude::PolarsError>)
    ensures
        r is Ok <==> crate::io::csv_lossy_ok(buff@, *o),
{
    let parse = polars_io::prelude::CsvParseOptions::default().with_separator(b',').with_encoding(
        polars_io::prelude::CsvEncoding::LossyUtf8,
    ).with_try_parse_dates(o.parse_dates);
    let opts = polars_io::prelude::CsvReadOptions::default().with_parse_options(parse)
        .with_infer_schema_length(o.infer_schema_length.map(|i| i as usize))
        .with_has_header(o.has_header).with_chunk_size(o.chunk_size as usize)
        .with_n_rows(o.n_rows.map(|i| i as usize)).with_skip_rows(o.skip_rows as usize)
        .with_ignore_errors(o.ignore_errors).with_rechunk(o.rechunk)
        .with_low_memory(o.low_memory).with_n_threads(o.n_threads.map(|i| i as usize))
        .with_skip_rows_after_header(o.skip_rows_after_header as usize);
    opts.into_reader_with_file_handle(std::io::Cursor::new(buff)).finish().map(|df| Table { df })
}

/// Relies on the Debug impl of the engine's expression tree: its
/// human-readable dump.
#[verifier::external_body]
pub(crate) fn eng_expr_format(e: EngineExpr) -> String {
    format!("{:?}", e.inner)
}

/// Relies on the Display impl of the engine's error: its description.
#[verifier::external_body]
pub(crate) fn eng_error_message(e: &polars::prelude::PolarsError) -> String {
    format!("{}", e)
}

/// The engine's failure, wrapped for the caller unchanged.
pub(crate) fn engine_error(e: &polars::prelude::PolarsError) -> (r: PlError)
    ensures
        r is Engine,
{
    PlError::Engine { message: eng_error_message(e) }
}

/// The engine's schema-resolution failure.
pub(crate) fn schema_error(e: &polars::prelude::PolarsError) -> (r: PlError)
    ensures
        r is Schema,
{
    PlError::Schema { message: eng_error_message(e) }
}

/// The engine's binary operator tag for an operator of this crate.
pub(crate) fn binop_to_engine(op: &crate::expr::BinOp) -> (r: polars::prelude::Operator)
    ensures
        op_model(r) == *op,
{
    match op {
        crate::expr::BinOp::Plus => op_plus(),
        crate::expr::BinOp::Minus => op_minus(),
        crate::expr::BinOp::Multiply => op_multiply(),
        crate::expr::BinOp::TrueDivide => op_true_divide(),
        crate::expr::BinOp::FloorDivide => op_floor_divide(),
        crate::expr::BinOp::Modulus => op_modulus(),
        crate::expr::BinOp::Eq => op_eq(),
        crate::expr::BinOp::NotEq => op_not_eq(),
        crate::expr::BinOp::Gt => op_gt(),
        crate::expr::BinOp::GtEq => op_gt_eq(),
        crate::expr::BinOp::Lt => op_lt(),
        crate::expr::BinOp::LtEq => op_lt_eq(),
    }
}

/// The engine's join kind tag for a join kind of this crate.
pub(crate) fn join_kind_to_engine(how: &crate::plan::JoinKind) -> (r: polars::prelude::JoinType)
    ensures
        join_kind_model(r) == *how,
{
    match how {
        crate::plan::JoinKind::Left => join_type_left(),
        crate::plan::JoinKind::Inner => join_type_inner(),
        crate::plan::JoinKind::Outer => join_type_outer(),
        crate::plan::JoinKind::Semi => join_type_semi(),
        crate::plan::JoinKind::Anti => join_type_anti(),
    }
}

/// The engine's node for a single-operand operation of this crate.
fn unop_to_engine(op: &crate::expr::UnOp, e: EngineExpr) -> (r: EngineExpr)
    ensures
        expr_model(r) == (crate::expr::Expr::UnaryOp {
            op: *op,
            operand: Rc::new(expr_model(e)),
        }),
{
    match op {
        crate::expr::UnOp::Not => eng_not(e),
        crate::expr::UnOp::IsNull => eng_is_null(e),
        crate::expr::UnOp::IsNotNull => eng_is_not_null(e),
        crate::expr::UnOp::IsFinite => eng_is_finite(e),
        crate::expr::UnOp::IsInfinite => eng_is_infinite(e),
        crate::expr::UnOp::IsNan => eng_is_nan(e),
        crate::expr::UnOp::IsNotNan => eng_is_not_nan(e),
        crate::expr::UnOp::IsUnique => eng_is_unique(e),
        crate::expr::UnOp::IsFirst => eng_is_first(e),
        crate::expr::UnOp::IsDuplicated => eng_is_duplicated(e),
        crate::expr::UnOp::Abs => eng_abs(e),
        crate::expr::UnOp::Floor => eng_floor(e),
        crate::expr::UnOp::Ceil => eng_ceil(e),
        crate::expr::UnOp::Reverse => eng_reverse(e),
        crate::expr::UnOp::Explode => eng_explode(e),
        crate::expr::UnOp::DropNulls => eng_drop_nulls(e),
        crate::expr::UnOp::DropNans => eng_drop_nans(e),
        crate::expr::UnOp::Unique => eng_unique(e),
        crate::expr::UnOp::UniqueStable => eng_unique_stable(e),
        crate::expr::UnOp::UniqueCounts => eng_unique_counts(e),
        crate::expr::UnOp::ArgUnique => eng_arg_unique(e),
        crate::expr::UnOp::ArgMax => eng_arg_max(e),
        crate::expr::UnOp::ArgMin => eng_arg_min(e),
        crate::expr::UnOp::BackwardFill => eng_backward_fill(e),
        crate::expr::UnOp::ForwardFill => eng_forward_fill(e),
        crate::expr::UnOp::AggGroups => eng_agg_groups(e),
    }
}

/// The engine's node for an aggregation of this crate.
fn agg_to_engine(op: &crate::expr::AggOp, e: EngineExpr) -> (r: EngineExpr)
    ensures
        expr_model(r) == (crate::expr::Expr::Agg { op: *op, operand: Rc::new(expr_model(e)) }),
{
    match op {
        crate::expr::AggOp::Min => eng_min(e),
        crate::expr::AggOp::Max => eng_max(e),
        crate::expr::AggOp::Mean => eng_mean(e),
        crate::expr::AggOp::Median => eng_median(e),
        crate::expr::AggOp::Sum => eng_sum(e),
        crate::expr::AggOp::Count => eng_count(e),
        crate::expr::AggOp::NUnique => eng_n_unique(e),
        crate::expr::AggOp::First => eng_first_value(e),
        crate::expr::AggOp::Last => eng_last_value(e),
        crate::expr::AggOp::List => eng_implode(e),
        crate::expr::AggOp::Std { ddof } => eng_std(e, *ddof),
        crate::expr::AggOp::Var { ddof } => eng_var(e, *ddof),
    }
}

/// The engine's node for a string-namespace operation of this crate.
fn strfn_to_engine(op: &crate::expr::StrFn, e: EngineExpr) -> (r: EngineExpr)
    ensures
        expr_model(r) == (crate::expr::Expr::StrOp {
            op: *op,
            operand: Rc::new(expr_model(e)),
        }),
{
    match op {
        crate::expr::StrFn::ContainsLiteral { pat } => eng_str_contains_literal(e, pat.clone()),
        crate::expr::StrFn::Contains { pat } => eng_str_contains(e, pat.clone()),
        crate::expr::StrFn::EndsWith { sub } => eng_str_ends_with(e, sub.clone()),
        crate::expr::StrFn::StartsWith { sub } => eng_str_starts_with(e, sub.clone()),
        crate::expr::StrFn::Extract { pat, group_index } => eng_str_extract(e, pat.clone(), *group_index),
        crate::expr::StrFn::Zfill { width } => eng_str_zfill(e, *width),
        crate::expr::StrFn::Ljust { width, fillchar } => eng_str_pad_end(e, *width, *fillchar),
        crate::expr::StrFn::Rjust { width, fillchar } => eng_str_pad_start(e, *width, *fillchar),
        crate::expr::StrFn::CountMatch { pat } => eng_str_count_matches(e, pat.clone()),
        crate::expr::StrFn::Lengths => eng_str_len_bytes(e),
        crate::expr::StrFn::NChars => eng_str_len_chars(e),
        crate::expr::StrFn::HexEncode => eng_str_hex_encode(e),
        crate::expr::StrFn::Base64Encode => eng_str_base64_encode(e),
    }
}

/// The engine's constant node for a literal of this crate.
fn lit_to_engine(value: &crate::expr::Lit) -> (r: EngineExpr)
    ensures
        expr_model(r) == (crate::expr::Expr::Literal { value: *value }),
{
    match value {
        crate::expr::Lit::Int { value } => eng_lit_i64(*value),
        crate::expr::Lit::Bool { value } => eng_lit_bool(*value),
        crate::expr::Lit::Str { value } => eng_lit_str(value.clone()),
        crate::expr::Lit::Null => eng_lit_null(),
    }
}

/// The engine's expression tree for an expression of this crate, built
/// node by node.
pub(crate) fn expr_to_engine(e: &crate::expr::Expr) -> (r: EngineExpr)
    ensures
        expr_model(r) == *e,
    decreases *e,
{
    match e {
        crate::expr::Expr::Column { name } => eng_col(name.clone()),
        crate::expr::Expr::Columns { names } => eng_cols(names),
        crate::expr::Expr::Literal { value } => lit_to_engine(value),
        crate::expr::Expr::BinaryOp { op, left, right } => eng_binary(
            expr_to_engine(left),
            binop_to_engine(op),
            expr_to_engine(right),
        ),
        crate::expr::Expr::UnaryOp { op, operand } => unop_to_engine(op, expr_to_engine(operand)),
        crate::expr::Expr::Agg { op, operand } => agg_to_engine(op, expr_to_engine(operand)),
        crate::expr::Expr::Alias { operand, name } => eng_alias(expr_to_engine(operand), name.clone()),
        crate::expr::Expr::Ternary { predicate, if_true, if_false } => eng_ternary(
            expr_to_engine(predicate),
            expr_to_engine(if_true),
            expr_to_engine(if_false),
        ),
        crate::expr::Expr::Sort { operand, descending, nulls_last } => eng_sort(
            expr_to_engine(operand),
            *descending,
            *nulls_last,
        ),
        crate::expr::Expr::ArgSort { operand, descending, nulls_last } => eng_arg_sort(
            expr_to_engine(operand),
            *descending,
            *nulls_last,
        ),
        crate::expr::Expr::Filter { operand, predicate } => eng_filter_expr(
            expr_to_engine(operand),
            expr_to_engine(predicate),
        ),
        crate::expr::Expr::FillNull { operand, fill } => eng_fill_null(
            expr_to_engine(operand),
            expr_to_engine(fill),
        ),
        crate::expr::Expr::FillNan { operand, fill } => eng_fill_nan(
            expr_to_engine(operand),
            expr_to_engine(fill),
        ),
        crate::expr::Expr::Take { operand, indices } => eng_gather(
            expr_to_engine(operand),
            expr_to_engine(indices),
        ),
        crate::expr::Expr::Shift { operand, periods } => eng_shift(expr_to_engine(operand), *periods),
        crate::expr::Expr::ShiftAndFill { operand, periods, fill } => eng_shift_and_fill(
            expr_to_engine(operand),
            *periods,
            expr_to_engine(fill),
        ),
        crate::expr::Expr::Head { operand, n } => eng_head(expr_to_engine(operand), *n),
        crate::expr::Expr::Tail { operand, n } => eng_tail(expr_to_engine(operand), *n),
        crate::expr::Expr::Slice { operand, offset, length } => eng_slice(
            expr_to_engine(operand),
            expr_to_engine(offset),
            expr_to_engine(length),
        ),
        crate::expr::Expr::Round { operand, decimals } => eng_round(expr_to_engine(operand), *decimals),
        crate::expr::Expr::TakeEvery { operand, n } => eng_gather_every(expr_to_engine(operand), *n),
        crate::expr::Expr::ValueCounts { operand, multithreaded, sorted } => eng_value_counts(
            expr_to_engine(operand),
            *sorted,
            *multithreaded,
        ),
        crate::expr::Expr::StrOp { op, operand } => strfn_to_engine(op, expr_to_engine(operand)),
        crate::expr::Expr::ExtractAll { operand, pat } => eng_str_extract_all(
            expr_to_engine(operand),
            expr_to_engine(pat),
        ),
        crate::expr::Expr::Len => eng_len(),
        crate::expr::Expr::FirstColumn => eng_first_column(),
        crate::expr::Expr::LastColumn => eng_last_column(),
    }
}

/// The engine's expression list for an expression list of this crate,
/// converted element by element in order.
pub(crate) fn exprs_to_engine(v: &Vec<crate::expr::Expr>) -> (r: Vec<EngineExpr>)
    ensures
        exprs_model(r@) == v@,
{
    let mut r: Vec<EngineExpr> = Vec::new();
    let mut i: usize = 0;
    while i < v.len()
        invariant
            i <= v@.len(),
            r@.len() == i,
            forall|j: int| 0 <= j < i ==> expr_model(#[trigger] r@[j]) == v@[j],
        decreases v@.len() - i,
    {
        r.push(expr_to_engine(&v[i]));
        i = i + 1;
    }
    proof {
        assert(exprs_model(r@) =~= v@);
    }
    r
}

/// The engine's deferred plan for a plan of this crate, built node by
/// node.
pub(crate) fn plan_to_engine(p: &crate::plan::Plan) -> (r: EngineLazy)
    ensures
        lazy_model(r) == p.model(),
    decreases *p,
{
    match p {
        crate::plan::Plan::Scan { table } => eng_scan(table),
        crate::plan::Plan::Filter { input, predicate } => eng_lf_filter(
            plan_to_engine(input),
            expr_to_engine(predicate),
        ),
        crate::plan::Plan::Select { input, exprs } => eng_lf_select(
            plan_to_engine(input),
            exprs_to_engine(exprs),
        ),
        crate::plan::Plan::WithColumn { input, expr } => eng_lf_with_column(
            plan_to_engine(input),
            expr_to_engine(expr),
        ),
        crate::plan::Plan::WithColumns { input, exprs } => eng_lf_with_columns(
            plan_to_engine(input),
            exprs_to_engine(exprs),
        ),
        crate::plan::Plan::Sort { input, by_column, descending, nulls_last } => eng_lf_sort(
            plan_to_engine(input),
            by_column.clone(),
            *descending,
            *nulls_last,
        ),
        crate::plan::Plan::SortByExprs { input, by, descending, nulls_last } => eng_lf_sort_by_exprs(
            plan_to_engine(input),
            exprs_to_engine(by),
            crate::clone_bools(descending),
            *nulls_last,
        ),
        crate::plan::Plan::Join {
            input_left,
            input_right,
            left_on,
            right_on,
            how,
            suffix,
            allow_parallel,
            force_parallel,
        } => eng_lf_join(
            plan_to_engine(input_left),
            plan_to_engine(input_right),
            exprs_to_engine(left_on),
            exprs_to_engine(right_on),
            join_kind_to_engine(how),
            suffix.clone(),
            *allow_parallel,
            *force_parallel,
        ),
        crate::plan::Plan::Cache { input } => eng_lf_cache(plan_to_engine(input)),
        crate::plan::Plan::DropNulls { input, subset } => match subset {
            crate::plan::NullSubset::AnyColumn => eng_lf_drop_nulls_any(plan_to_engine(input)),
            crate::plan::NullSubset::Single { name } => {
                let mut names: Vec<String> = Vec::new();
                names.push(name.clone());
                eng_lf_drop_nulls_subset(plan_to_engine(input), names)
            },
            crate::plan::NullSubset::Columns { names } => eng_lf_drop_nulls_subset(
                plan_to_engine(input),
                crate::clone_names(names),
            ),
        },
    }
}

impl Clone for Table {
    /// A copy holding the same columns and rows.
    fn clone(&self) -> (r: Table)
        ensures
            r == *self,
    {
        eng_df_clone(self)
    }
}

impl Table {
    /// The number of rows.
    pub fn height(&self) -> usize {
        eng_df_height(self)
    }

    /// The column names, in order.
    pub fn column_names(&self) -> Vec<String> {
        eng_df_column_names(self)
    }

    /// True when the other table has the same shape, names and values,
    /// counting missing values as equal.
    pub fn same_as(&self, other: &Table) -> bool {
        eng_df_equals(self, other)
    }

    /// The named column's values as 64-bit integers, in row order; the
    /// engine's error on an unknown or differently typed column.
    pub fn column_i64(&self, name: &str) -> (r: Result<Vec<Option<i64>>, PlError>)
        ensures
            r matches Err(e) ==> e is Engine,
    {
        match eng_df_column_i64(self, name) {
            Ok(v) => Ok(v),
            Err(e) => Err(engine_error(&e)),
        }
    }

    /// The named column's values as strings, in row order; the engine's
    /// error on an unknown or differently typed column.
    pub fn column_str(&self, name: &str) -> (r: Result<Vec<Option<String>>, PlError>)
        ensures
            r matches Err(e) ==> e is Engine,
    {
        match eng_df_column_str(self, name) {
            Ok(v) => Ok(v),
            Err(e) => Err(engine_error(&e)),
        }
    }
}

} // verus!
