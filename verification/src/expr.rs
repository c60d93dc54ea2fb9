//! The expression tree and its combinator algebra.
//!
//! An [`Expr`] is an immutable value describing one computation over columns
//! or constants. Every combinator builds a fresh root and never mutates its
//! receiver; subtrees are shared, so duplication is cheap. The contracts
//! below pin the exact tree each combinator returns.

use std::rc::Rc;
use vstd::prelude::*;

use crate::error::PlError;
use crate::rc_clone;

verus! {

/// A binary operator tag.
#[derive(Clone, Copy)]
pub enum BinOp {
    /// Addition.
    Plus,
    /// Subtraction.
    Minus,
    /// Multiplication.
    Multiply,
    /// True division: converts to floating point like Python's `/`.
    TrueDivide,
    /// Floor division, like Python's `//`; distinct from true division.
    FloorDivide,
    /// Remainder.
    Modulus,
    /// Equality comparison.
    Eq,
    /// Inequality comparison.
    NotEq,
    /// Strictly greater.
    Gt,
    /// Greater or equal.
    GtEq,
    /// Strictly less.
    Lt,
    /// Less or equal.
    LtEq,
}

/// A single-operand operator tag. The predicates evaluate to a boolean
/// column whatever the input type.
#[derive(Clone, Copy)]
pub enum UnOp {
    /// Boolean negation.
    Not,
    /// True where the value is missing.
    IsNull,
    /// True where the value is present.
    IsNotNull,
    /// True where the value is a finite number.
    IsFinite,
    /// True where the value is an infinity.
    IsInfinite,
    /// True where the value is not a number.
    IsNan,
    /// True where the value is a number.
    IsNotNan,
    /// True where the value occurs exactly once.
    IsUnique,
    /// True at the first occurrence of each value.
    IsFirst,
    /// True where the value occurs more than once.
    IsDuplicated,
    /// Absolute value.
    Abs,
    /// Round towards negative infinity.
    Floor,
    /// Round towards positive infinity.
    Ceil,
    /// Reverse the order of the values.
    Reverse,
    /// Expand each list element to its own row.
    Explode,
    /// Remove missing values.
    DropNulls,
    /// Remove values that are not a number.
    DropNans,
    /// Distinct values, in unspecified order.
    Unique,
    /// Distinct values, keeping the order of first appearance.
    UniqueStable,
    /// The count of each distinct value, in order of appearance.
    UniqueCounts,
    /// Index of the first occurrence of each distinct value.
    ArgUnique,
    /// Index of the maximal value.
    ArgMax,
    /// Index of the minimal value.
    ArgMin,
    /// Fill missing values with the next seen value.
    BackwardFill,
    /// Fill missing values with the latest seen value.
    ForwardFill,
    /// The row indexes of each group in a grouped context.
    AggGroups,
}

/// An aggregation tag. Aggregations reduce a column to a single value in a
/// grouped context and to a single-row column outside one.
#[derive(Clone, Copy)]
pub enum AggOp {
    /// Minimum.
    Min,
    /// Maximum.
    Max,
    /// Arithmetic mean.
    Mean,
    /// Median.
    Median,
    /// Sum.
    Sum,
    /// Count of values.
    Count,
    /// Count of distinct values.
    NUnique,
    /// First value.
    First,
    /// Last value.
    Last,
    /// Collect the values into one list value.
    List,
    /// Standard deviation with the given delta degrees of freedom.
    Std { ddof: u8 },
    /// Variance with the given delta degrees of freedom.
    Var { ddof: u8 },
}

/// A constant embedded in an expression.
pub enum Lit {
    /// A 64-bit integer.
    Int { value: i64 },
    /// A boolean.
    Bool { value: bool },
    /// A string.
    Str { value: String },
    /// The missing value.
    Null,
}

/// A string-namespace operation tag, with its scalar arguments.
pub enum StrFn {
    /// True where the value contains the literal pattern.
    ContainsLiteral { pat: String },
    /// True where the value matches the regular expression.
    Contains { pat: String },
    /// True where the value ends with the suffix.
    EndsWith { sub: String },
    /// True where the value starts with the prefix.
    StartsWith { sub: String },
    /// The given capture group of the first regular-expression match.
    Extract { pat: String, group_index: usize },
    /// Pad the start with zeroes to the given width.
    Zfill { width: usize },
    /// Pad the end with the fill character to the given width.
    Ljust { width: usize, fillchar: char },
    /// Pad the start with the fill character to the given width.
    Rjust { width: usize, fillchar: char },
    /// The count of regular-expression matches.
    CountMatch { pat: String },
    /// The length of each value in bytes.
    Lengths,
    /// The length of each value in characters.
    NChars,
    /// Hexadecimal encoding of each value.
    HexEncode,
    /// Base64 encoding of each value.
    Base64Encode,
}

/// An immutable expression tree over columns and constants.
///
/// Construction never mutates an existing node: every combinator returns a
/// new root that shares its children.
pub enum Expr {
    /// A reference to one column by name; the name `*` selects all columns
    /// and a `^...$` name selects by regular expression.
    Column { name: String },
    /// A reference to several columns by name.
    Columns { names: Rc<Vec<String>> },
    /// A constant.
    Literal { value: Lit },
    /// A binary operation over two subtrees.
    BinaryOp { op: BinOp, left: Rc<Expr>, right: Rc<Expr> },
    /// A single-operand operation.
    UnaryOp { op: UnOp, operand: Rc<Expr> },
    /// An aggregation.
    Agg { op: AggOp, operand: Rc<Expr> },
    /// Rename the output of the operand.
    Alias { operand: Rc<Expr>, name: String },
    /// A row-wise conditional: where the predicate holds, the value of
    /// `if_true`, elsewhere the value of `if_false`.
    Ternary { predicate: Rc<Expr>, if_true: Rc<Expr>, if_false: Rc<Expr> },
    /// Sort the operand's values.
    Sort { operand: Rc<Expr>, descending: bool, nulls_last: bool },
    /// The indexes that would sort the operand's values.
    ArgSort { operand: Rc<Expr>, descending: bool, nulls_last: bool },
    /// Keep only the values where the predicate holds.
    Filter { operand: Rc<Expr>, predicate: Rc<Expr> },
    /// Replace missing values by the fill expression's values.
    FillNull { operand: Rc<Expr>, fill: Rc<Expr> },
    /// Replace not-a-number values by the fill expression's values.
    FillNan { operand: Rc<Expr>, fill: Rc<Expr> },
    /// The values at the given indexes.
    Take { operand: Rc<Expr>, indices: Rc<Expr> },
    /// Shift the values by the given number of slots.
    Shift { operand: Rc<Expr>, periods: i64 },
    /// Shift the values and fill the vacated slots with the fill
    /// expression's value.
    ShiftAndFill { operand: Rc<Expr>, periods: i64, fill: Rc<Expr> },
    /// The first values, all of them when no count is given.
    Head { operand: Rc<Expr>, n: Option<usize> },
    /// The last values, all of them when no count is given.
    Tail { operand: Rc<Expr>, n: Option<usize> },
    /// A contiguous run of values, with expression-valued offset and length.
    Slice { operand: Rc<Expr>, offset: Rc<Expr>, length: Rc<Expr> },
    /// Round to the given number of decimals.
    Round { operand: Rc<Expr>, decimals: u32 },
    /// Every n-th value.
    TakeEvery { operand: Rc<Expr>, n: usize },
    /// Each distinct value with its number of occurrences.
    ValueCounts { operand: Rc<Expr>, multithreaded: bool, sorted: bool },
    /// A string-namespace operation with scalar arguments.
    StrOp { op: StrFn, operand: Rc<Expr> },
    /// All regular-expression matches, with an expression-valued pattern.
    ExtractAll { operand: Rc<Expr>, pat: Rc<Expr> },
    /// The number of rows.
    Len,
    /// The first column.
    FirstColumn,
    /// The last column.
    LastColumn,
}

impl Clone for Lit {
    /// An exact copy.
    fn clone(&self) -> (r: Lit)
        ensures
            r == *self,
    {
        match self {
            Lit::Int { value } => Lit::Int { value: *value },
            Lit::Bool { value } => Lit::Bool { value: *value },
            Lit::Str { value } => Lit::Str { value: value.clone() },
            Lit::Null => Lit::Null,
        }
    }
}

impl Clone for StrFn {
    /// An exact copy.
    fn clone(&self) -> (r: StrFn)
        ensures
            r == *self,
    {
        match self {
            StrFn::ContainsLiteral { pat } => StrFn::ContainsLiteral { pat: pat.clone() },
            StrFn::Contains { pat } => StrFn::Contains { pat: pat.clone() },
            StrFn::EndsWith { sub } => StrFn::EndsWith { sub: sub.clone() },
            StrFn::StartsWith { sub } => StrFn::StartsWith { sub: sub.clone() },
            StrFn::Extract { pat, group_index } => StrFn::Extract {
                pat: pat.clone(),
                group_index: *group_index,
            },
            StrFn::Zfill { width } => StrFn::Zfill { width: *width },
            StrFn::Ljust { width, fillchar } => StrFn::Ljust {
                width: *width,
                fillchar: *fillchar,
            },
            StrFn::Rjust { width, fillchar } => StrFn::Rjust {
                width: *width,
                fillchar: *fillchar,
            },
            StrFn::CountMatch { pat } => StrFn::CountMatch { pat: pat.clone() },
            StrFn::Lengths => StrFn::Lengths,
            StrFn::NChars => StrFn::NChars,
            StrFn::HexEncode => StrFn::HexEncode,
            StrFn::Base64Encode => StrFn::Base64Encode,
        }
    }
}

impl Clone for Expr {
    /// An exact copy that shares all children with the original.
    fn clone(&self) -> (r: Expr)
        ensures
            r == *self,
    {
        match self {
            Expr::Column { name } => Expr::Column { name: name.clone() },
            Expr::Columns { names } => Expr::Columns { names: rc_clone(names) },
            Expr::Literal { value } => Expr::Literal { value: value.clone() },
            Expr::BinaryOp { op, left, right } => Expr::BinaryOp {
                op: *op,
                left: rc_clone(left),
                right: rc_clone(right),
            },
            Expr::UnaryOp { op, operand } => Expr::UnaryOp {
                op: *op,
                operand: rc_clone(operand),
            },
            Expr::Agg { op, operand } => Expr::Agg { op: *op, operand: rc_clone(operand) },
            Expr::Alias { operand, name } => Expr::Alias {
                operand: rc_clone(operand),
                name: name.clone(),
            },
            Expr::Ternary { predicate, if_true, if_false } => Expr::Ternary {
                predicate: rc_clone(predicate),
                if_true: rc_clone(if_true),
                if_false: rc_clone(if_false),
            },
            Expr::Sort { operand, descending, nulls_last } => Expr::Sort {
                operand: rc_clone(operand),
                descending: *descending,
                nulls_last: *nulls_last,
            },
            Expr::ArgSort { operand, descending, nulls_last } => Expr::ArgSort {
                operand: rc_clone(operand),
                descending: *descending,
                nulls_last: *nulls_last,
            },
            Expr::Filter { operand, predicate } => Expr::Filter {
                operand: rc_clone(operand),
                predicate: rc_clone(predicate),
            },
            Expr::FillNull { operand, fill } => Expr::FillNull {
                operand: rc_clone(operand),
                fill: rc_clone(fill),
            },
            Expr::FillNan { operand, fill } => Expr::FillNan {
                operand: rc_clone(operand),
                fill: rc_clone(fill),
            },
            Expr::Take { operand, indices } => Expr::Take {
                operand: rc_clone(operand),
                indices: rc_clone(indices),
            },
            Expr::Shift { operand, periods } => Expr::Shift {
                operand: rc_clone(operand),
                periods: *periods,
            },
            Expr::ShiftAndFill { operand, periods, fill } => Expr::ShiftAndFill {
                operand: rc_clone(operand),
                periods: *periods,
                fill: rc_clone(fill),
            },
            Expr::Head { operand, n } => Expr::Head { operand: rc_clone(operand), n: *n },
            Expr::Tail { operand, n } => Expr::Tail { operand: rc_clone(operand), n: *n },
            Expr::Slice { operand, offset, length } => Expr::Slice {
                operand: rc_clone(operand),
                offset: rc_clone(offset),
                length: rc_clone(length),
            },
            Expr::Round { operand, decimals } => Expr::Round {
                operand: rc_clone(operand),
                decimals: *decimals,
            },
            Expr::TakeEvery { operand, n } => Expr::TakeEvery {
                operand: rc_clone(operand),
                n: *n,
            },
            Expr::ValueCounts { operand, multithreaded, sorted } => Expr::ValueCounts {
                operand: rc_clone(operand),
                multithreaded: *multithreaded,
                sorted: *sorted,
            },
            Expr::StrOp { op, operand } => Expr::StrOp {
                op: op.clone(),
                operand: rc_clone(operand),
            },
            Expr::ExtractAll { operand, pat } => Expr::ExtractAll {
                operand: rc_clone(operand),
                pat: rc_clone(pat),
            },
            Expr::Len => Expr::Len,
            Expr::FirstColumn => Expr::FirstColumn,
            Expr::LastColumn => Expr::LastColumn,
        }
    }
}

impl Expr {
    /// The binary node combining this tree with `rhs` under `op`.
    pub open spec fn spec_binary(self, op: BinOp, rhs: Expr) -> Expr {
        Expr::BinaryOp { op, left: Rc::new(self), right: Rc::new(rhs) }
    }

    /// The single-operand node applying `op` to this tree.
    pub open spec fn spec_unary(self, op: UnOp) -> Expr {
        Expr::UnaryOp { op, operand: Rc::new(self) }
    }

    /// The aggregation node applying `op` to this tree.
    pub open spec fn spec_agg(self, op: AggOp) -> Expr {
        Expr::Agg { op, operand: Rc::new(self) }
    }

    /// The string-namespace node applying `op` to this tree.
    pub open spec fn spec_str_op(self, op: StrFn) -> Expr {
        Expr::StrOp { op, operand: Rc::new(self) }
    }

    /// The conditional node choosing row-wise between `if_true` and
    /// `if_false` by this predicate.
    pub open spec fn spec_ternary(self, if_true: Expr, if_false: Expr) -> Expr {
        Expr::Ternary {
            predicate: Rc::new(self),
            if_true: Rc::new(if_true),
            if_false: Rc::new(if_false),
        }
    }
}

impl Expr {
    fn binary_node(&self, op: BinOp, rhs: &Expr) -> (r: Expr)
        ensures
            r == self.spec_binary(op, *rhs),
    {
        Expr::BinaryOp { op, left: Rc::new(self.clone()), right: Rc::new(rhs.clone()) }
    }

    fn unary_node(&self, op: UnOp) -> (r: Expr)
        ensures
            r == self.spec_unary(op),
    {
        Expr::UnaryOp { op, operand: Rc::new(self.clone()) }
    }

    fn agg_node(&self, op: AggOp) -> (r: Expr)
        ensures
            r == self.spec_agg(op),
    {
        Expr::Agg { op, operand: Rc::new(self.clone()) }
    }
}

impl Expr {
    /// The sum of this and the other expression.
    pub fn add(&self, rhs: &Expr) -> (r: Expr)
        ensures
            r == self.spec_binary(BinOp::Plus, *rhs),
    {
        self.binary_node(BinOp::Plus, rhs)
    }

    /// The difference of this and the other expression.
    pub fn sub(&self, rhs: &Expr) -> (r: Expr)
        ensures
            r == self.spec_binary(BinOp::Minus, *rhs),
    {
        self.binary_node(BinOp::Minus, rhs)
    }

    /// The product of this and the other expression.
    pub fn mul(&self, rhs: &Expr) -> (r: Expr)
        ensures
            r == self.spec_binary(BinOp::Multiply, *rhs),
    {
        self.binary_node(BinOp::Multiply, rhs)
    }

    /// True division of this by the other expression.
    pub fn truediv(&self, rhs: &Expr) -> (r: Expr)
        ensures
            r == self.spec_binary(BinOp::TrueDivide, *rhs),
    {
        self.binary_node(BinOp::TrueDivide, rhs)
    }

    /// The remainder of this divided by the other expression.
    pub fn modulus(&self, rhs: &Expr) -> (r: Expr)
        ensures
            r == self.spec_binary(BinOp::Modulus, *rhs),
    {
        self.binary_node(BinOp::Modulus, rhs)
    }

    /// Floor division of this by the other expression.
    pub fn floordiv(&self, rhs: &Expr) -> (r: Expr)
        ensures
            r == self.spec_binary(BinOp::FloorDivide, *rhs),
    {
        self.binary_node(BinOp::FloorDivide, rhs)
    }

    /// True where this equals the other expression.
    pub fn eq(&self, other: &Expr) -> (r: Expr)
        ensures
            r == self.spec_binary(BinOp::Eq, *other),
    {
        self.binary_node(BinOp::Eq, other)
    }

    /// True where this differs from the other expression.
    pub fn neq(&self, other: &Expr) -> (r: Expr)
        ensures
            r == self.spec_binary(BinOp::NotEq, *other),
    {
        self.binary_node(BinOp::NotEq, other)
    }

    /// True where this is strictly greater than the other expression.
    pub fn gt(&self, other: &Expr) -> (r: Expr)
        ensures
            r == self.spec_binary(BinOp::Gt, *other),
    {
        self.binary_node(BinOp::Gt, other)
    }

    /// True where this is at least the other expression.
    pub fn gt_eq(&self, other: &Expr) -> (r: Expr)
        ensures
            r == self.spec_binary(BinOp::GtEq, *other),
    {
        self.binary_node(BinOp::GtEq, other)
    }

    /// True where this is at most the other expression.
    pub fn lt_eq(&self, other: &Expr) -> (r: Expr)
        ensures
            r == self.spec_binary(BinOp::LtEq, *other),
    {
        self.binary_node(BinOp::LtEq, other)
    }

    /// True where this is strictly less than the other expression.
    pub fn lt(&self, other: &Expr) -> (r: Expr)
        ensures
            r == self.spec_binary(BinOp::Lt, *other),
    {
        self.binary_node(BinOp::Lt, other)
    }

    /// Boolean negation.
    pub fn is_not(&self) -> (r: Expr)
        ensures
            r == self.spec_unary(UnOp::Not),
    {
        self.unary_node(UnOp::Not)
    }

    /// True where the value is missing.
    pub fn is_null(&self) -> (r: Expr)
        ensures
            r == self.spec_unary(UnOp::IsNull),
    {
        self.unary_node(UnOp::IsNull)
    }

    /// True where the value is present.
    pub fn is_not_null(&self) -> (r: Expr)
        ensures
            r == self.spec_unary(UnOp::IsNotNull),
    {
        self.unary_node(UnOp::IsNotNull)
    }

    /// True where the value is an infinity.
    pub fn is_infinite(&self) -> (r: Expr)
        ensures
            r == self.spec_unary(UnOp::IsInfinite),
    {
        self.unary_node(UnOp::IsInfinite)
    }

    /// True where the value is a finite number.
    pub fn is_finite(&self) -> (r: Expr)
        ensures
            r == self.spec_unary(UnOp::IsFinite),
    {
        self.unary_node(UnOp::IsFinite)
    }

    /// True where the value is not a number.
    pub fn is_nan(&self) -> (r: Expr)
        ensures
            r == self.spec_unary(UnOp::IsNan),
    {
        self.unary_node(UnOp::IsNan)
    }

    /// True where the value is a number.
    pub fn is_not_nan(&self) -> (r: Expr)
        ensures
            r == self.spec_unary(UnOp::IsNotNan),
    {
        self.unary_node(UnOp::IsNotNan)
    }

    /// True where the value occurs exactly once.
    pub fn is_unique(&self) -> (r: Expr)
        ensures
            r == self.spec_unary(UnOp::IsUnique),
    {
        self.unary_node(UnOp::IsUnique)
    }

    /// True at the first occurrence of each value.
    pub fn is_first(&self) -> (r: Expr)
        ensures
            r == self.spec_unary(UnOp::IsFirst),
    {
        self.unary_node(UnOp::IsFirst)
    }

    /// True where the value occurs more than once.
    pub fn is_duplicated(&self) -> (r: Expr)
        ensures
            r == self.spec_unary(UnOp::IsDuplicated),
    {
        self.unary_node(UnOp::IsDuplicated)
    }

    /// Absolute values.
    pub fn abs(&self) -> (r: Expr)
        ensures
            r == self.spec_unary(UnOp::Abs),
    {
        self.unary_node(UnOp::Abs)
    }

    /// Round towards negative infinity.
    pub fn floor(&self) -> (r: Expr)
        ensures
            r == self.spec_unary(UnOp::Floor),
    {
        self.unary_node(UnOp::Floor)
    }

    /// Round towards positive infinity.
    pub fn ceil(&self) -> (r: Expr)
        ensures
            r == self.spec_unary(UnOp::Ceil),
    {
        self.unary_node(UnOp::Ceil)
    }

    /// Reverse the order of the values.
    pub fn reverse(&self) -> (r: Expr)
        ensures
            r == self.spec_unary(UnOp::Reverse),
    {
        self.unary_node(UnOp::Reverse)
    }

    /// Expand each list element to its own row.
    pub fn explode(&self) -> (r: Expr)
        ensures
            r == self.spec_unary(UnOp::Explode),
    {
        self.unary_node(UnOp::Explode)
    }

    /// Remove missing values.
    pub fn drop_nulls(&self) -> (r: Expr)
        ensures
            r == self.spec_unary(UnOp::DropNulls),
    {
        self.unary_node(UnOp::DropNulls)
    }

    /// Remove values that are not a number.
    pub fn drop_nans(&self) -> (r: Expr)
        ensures
            r == self.spec_unary(UnOp::DropNans),
    {
        self.unary_node(UnOp::DropNans)
    }

    /// Distinct values, in unspecified order.
    pub fn unique(&self) -> (r: Expr)
        ensures
            r == self.spec_unary(UnOp::Unique),
    {
        self.unary_node(UnOp::Unique)
    }

    /// Distinct values, keeping the order of first appearance.
    pub fn unique_stable(&self) -> (r: Expr)
        ensures
            r == self.spec_unary(UnOp::UniqueStable),
    {
        self.unary_node(UnOp::UniqueStable)
    }

    /// The count of each distinct value, in order of appearance.
    pub fn unique_counts(&self) -> (r: Expr)
        ensures
            r == self.spec_unary(UnOp::UniqueCounts),
    {
        self.unary_node(UnOp::UniqueCounts)
    }

    /// Index of the first occurrence of each distinct value.
    pub fn arg_unique(&self) -> (r: Expr)
        ensures
            r == self.spec_unary(UnOp::ArgUnique),
    {
        self.unary_node(UnOp::ArgUnique)
    }

    /// Index of the maximal value.
    pub fn arg_max(&self) -> (r: Expr)
        ensures
            r == self.spec_unary(UnOp::ArgMax),
    {
        self.unary_node(UnOp::ArgMax)
    }

    /// Index of the minimal value.
    pub fn arg_min(&self) -> (r: Expr)
        ensures
            r == self.spec_unary(UnOp::ArgMin),
    {
        self.unary_node(UnOp::ArgMin)
    }

    /// Fill missing values with the next seen value.
    pub fn backward_fill(&self) -> (r: Expr)
        ensures
            r == self.spec_unary(UnOp::BackwardFill),
    {
        self.unary_node(UnOp::BackwardFill)
    }

    /// Fill missing values with the latest seen value.
    pub fn forward_fill(&self) -> (r: Expr)
        ensures
            r == self.spec_unary(UnOp::ForwardFill),
    {
        self.unary_node(UnOp::ForwardFill)
    }

    /// The row indexes of each group in a grouped context.
    pub fn agg_groups(&self) -> (r: Expr)
        ensures
            r == self.spec_unary(UnOp::AggGroups),
    {
        self.unary_node(UnOp::AggGroups)
    }

    /// The minimal value.
    pub fn min(&self) -> (r: Expr)
        ensures
            r == self.spec_agg(AggOp::Min),
    {
        self.agg_node(AggOp::Min)
    }

    /// The maximal value.
    pub fn max(&self) -> (r: Expr)
        ensures
            r == self.spec_agg(AggOp::Max),
    {
        self.agg_node(AggOp::Max)
    }

    /// The arithmetic mean.
    pub fn mean(&self) -> (r: Expr)
        ensures
            r == self.spec_agg(AggOp::Mean),
    {
        self.agg_node(AggOp::Mean)
    }

    /// The median.
    pub fn median(&self) -> (r: Expr)
        ensures
            r == self.spec_agg(AggOp::Median),
    {
        self.agg_node(AggOp::Median)
    }

    /// The sum.
    pub fn sum(&self) -> (r: Expr)
        ensures
            r == self.spec_agg(AggOp::Sum),
    {
        self.agg_node(AggOp::Sum)
    }

    /// The number of values.
    pub fn count(&self) -> (r: Expr)
        ensures
            r == self.spec_agg(AggOp::Count),
    {
        self.agg_node(AggOp::Count)
    }

    /// The number of distinct values.
    pub fn n_unique(&self) -> (r: Expr)
        ensures
            r == self.spec_agg(AggOp::NUnique),
    {
        self.agg_node(AggOp::NUnique)
    }

    /// The first value.
    pub fn first(&self) -> (r: Expr)
        ensures
            r == self.spec_agg(AggOp::First),
    {
        self.agg_node(AggOp::First)
    }

    /// The last value.
    pub fn last(&self) -> (r: Expr)
        ensures
            r == self.spec_agg(AggOp::Last),
    {
        self.agg_node(AggOp::Last)
    }

    /// Collect the values into one list value.
    pub fn list(&self) -> (r: Expr)
        ensures
            r == self.spec_agg(AggOp::List),
    {
        self.agg_node(AggOp::List)
    }

    /// The standard deviation; the delta degrees of freedom default to 1.
    pub fn std_dev(&self, ddof: Option<u8>) -> (r: Expr)
        ensures
            ddof matches Some(d) ==> r == self.spec_agg(AggOp::Std { ddof: d }),
            ddof is None ==> r == self.spec_agg(AggOp::Std { ddof: 1u8 }),
    {
        let d: u8 = match ddof {
            Some(d) => d,
            None => 1,
        };
        self.agg_node(AggOp::Std { ddof: d })
    }

    /// The variance; the delta degrees of freedom default to 1.
    pub fn var(&self, ddof: Option<u8>) -> (r: Expr)
        ensures
            ddof matches Some(d) ==> r == self.spec_agg(AggOp::Var { ddof: d }),
            ddof is None ==> r == self.spec_agg(AggOp::Var { ddof: 1u8 }),
    {
        let d: u8 = match ddof {
            Some(d) => d,
            None => 1,
        };
        self.agg_node(AggOp::Var { ddof: d })
    }

    /// Rename the output of this expression.
    pub fn alias(&self, alias: String) -> (r: Expr)
        ensures
            r == (Expr::Alias { operand: Rc::new(*self), name: alias }),
    {
        Expr::Alias { operand: Rc::new(self.clone()), name: alias }
    }

    /// Sort the values.
    pub fn sort_with(&self, descending: bool, nulls_last: bool) -> (r: Expr)
        ensures
            r == (Expr::Sort { operand: Rc::new(*self), descending, nulls_last }),
    {
        Expr::Sort { operand: Rc::new(self.clone()), descending, nulls_last }
    }

    /// The index values that would sort the values; missing values are
    /// placed last.
    pub fn arg_sort(&self, reverse: bool) -> (r: Expr)
        ensures
            r == (Expr::ArgSort {
                operand: Rc::new(*self),
                descending: reverse,
                nulls_last: true,
            }),
    {
        Expr::ArgSort { operand: Rc::new(self.clone()), descending: reverse, nulls_last: true }
    }

    /// Keep only the values where the predicate holds; mostly useful in an
    /// aggregation context.
    pub fn filter(&self, predicate: &Expr) -> (r: Expr)
        ensures
            r == (Expr::Filter { operand: Rc::new(*self), predicate: Rc::new(*predicate) }),
    {
        Expr::Filter { operand: Rc::new(self.clone()), predicate: Rc::new(predicate.clone()) }
    }

    /// Replace missing values by the fill expression's values.
    pub fn fill_null(&self, expr: &Expr) -> (r: Expr)
        ensures
            r == (Expr::FillNull { operand: Rc::new(*self), fill: Rc::new(*expr) }),
    {
        Expr::FillNull { operand: Rc::new(self.clone()), fill: Rc::new(expr.clone()) }
    }

    /// Replace not-a-number values by the fill expression's values.
    pub fn fill_nan(&self, expr: &Expr) -> (r: Expr)
        ensures
            r == (Expr::FillNan { operand: Rc::new(*self), fill: Rc::new(*expr) }),
    {
        Expr::FillNan { operand: Rc::new(self.clone()), fill: Rc::new(expr.clone()) }
    }

    /// The values at the given indexes.
    pub fn take(&self, idx: &Expr) -> (r: Expr)
        ensures
            r == (Expr::Take { operand: Rc::new(*self), indices: Rc::new(*idx) }),
    {
        Expr::Take { operand: Rc::new(self.clone()), indices: Rc::new(idx.clone()) }
    }

    /// Shift the values by the given number of slots.
    pub fn shift(&self, periods: i64) -> (r: Expr)
        ensures
            r == (Expr::Shift { operand: Rc::new(*self), periods }),
    {
        Expr::Shift { operand: Rc::new(self.clone()), periods }
    }

    /// Shift the values and fill the vacated slots with the fill
    /// expression's value.
    pub fn shift_and_fill(&self, periods: i64, fill_value: &Expr) -> (r: Expr)
        ensures
            r == (Expr::ShiftAndFill {
                operand: Rc::new(*self),
                periods,
                fill: Rc::new(*fill_value),
            }),
    {
        Expr::ShiftAndFill {
            operand: Rc::new(self.clone()),
            periods,
            fill: Rc::new(fill_value.clone()),
        }
    }

    /// The first values, all of them when no count is given.
    pub fn head(&self, n: Option<usize>) -> (r: Expr)
        ensures
            r == (Expr::Head { operand: Rc::new(*self), n }),
    {
        Expr::Head { operand: Rc::new(self.clone()), n }
    }

    /// The last values, all of them when no count is given.
    pub fn tail(&self, n: Option<usize>) -> (r: Expr)
        ensures
            r == (Expr::Tail { operand: Rc::new(*self), n }),
    {
        Expr::Tail { operand: Rc::new(self.clone()), n }
    }

    /// A contiguous run of values, with expression-valued offset and length.
    pub fn slice(&self, offset: &Expr, length: &Expr) -> (r: Expr)
        ensures
            r == (Expr::Slice {
                operand: Rc::new(*self),
                offset: Rc::new(*offset),
                length: Rc::new(*length),
            }),
    {
        Expr::Slice {
            operand: Rc::new(self.clone()),
            offset: Rc::new(offset.clone()),
            length: Rc::new(length.clone()),
        }
    }

    /// Round to the given number of decimals.
    pub fn round(&self, decimals: u32) -> (r: Expr)
        ensures
            r == (Expr::Round { operand: Rc::new(*self), decimals }),
    {
        Expr::Round { operand: Rc::new(self.clone()), decimals }
    }

    /// Every n-th value.
    pub fn take_every(&self, n: usize) -> (r: Expr)
        ensures
            r == (Expr::TakeEvery { operand: Rc::new(*self), n }),
    {
        Expr::TakeEvery { operand: Rc::new(self.clone()), n }
    }

    /// Each distinct value with its number of occurrences.
    pub fn value_counts(&self, multithreaded: bool, sorted: bool) -> (r: Expr)
        ensures
            r == (Expr::ValueCounts { operand: Rc::new(*self), multithreaded, sorted }),
    {
        Expr::ValueCounts { operand: Rc::new(self.clone()), multithreaded, sorted }
    }

    /// A human-readable dump of the expression, as the engine prints it.
    pub fn to_string(&self) -> String {
        crate::engine::eng_expr_format(crate::engine::expr_to_engine(self))
    }

    /// The string-namespace view of this expression.
    pub fn str(&self) -> (r: StringNameSpace)
        ensures
            r.inner == *self,
    {
        StringNameSpace { inner: self.clone() }
    }
}

impl Expr {
    /// Casting between data types is deliberately unfinished and fails.
    pub fn cast() -> (r: Result<Expr, PlError>)
        ensures
            r matches Err(e) && e is NotImplemented,
    {
        Err(not_implemented("cast"))
    }

    /// Discrete differences are deliberately unfinished and fail.
    pub fn diff(&self) -> (r: Result<Expr, PlError>)
        ensures
            r matches Err(e) && e is NotImplemented,
    {
        Err(not_implemented("diff"))
    }

    /// The dot product is deliberately unfinished and fails.
    pub fn dot(&self, _other: &Expr) -> (r: Result<Expr, PlError>)
        ensures
            r matches Err(e) && e is NotImplemented,
    {
        Err(not_implemented("dot"))
    }

    /// Excluding columns from a wildcard selection is deliberately
    /// unfinished and fails.
    pub fn exclude(&self) -> (r: Result<Expr, PlError>)
        ensures
            r matches Err(e) && e is NotImplemented,
    {
        Err(not_implemented("exclude"))
    }

    /// Extending a column is deliberately unfinished and fails.
    pub fn extend(&self) -> (r: Result<Expr, PlError>)
        ensures
            r matches Err(e) && e is NotImplemented,
    {
        Err(not_implemented("extend"))
    }

    /// Extending with a constant is deliberately unfinished and fails.
    pub fn extend_constant(&self) -> (r: Result<Expr, PlError>)
        ensures
            r matches Err(e) && e is NotImplemented,
    {
        Err(not_implemented("extend_constant"))
    }

    /// Filling missing values by strategy is deliberately unfinished and
    /// fails; use the expression-valued fill instead.
    pub fn fill_null_with_strategy(&self) -> (r: Result<Expr, PlError>)
        ensures
            r matches Err(e) && e is NotImplemented,
    {
        Err(not_implemented("fill_null_with_strategy"))
    }

    /// Sorting by other expressions is deliberately unfinished and fails.
    pub fn sort_by() -> (r: Result<Expr, PlError>)
        ensures
            r matches Err(e) && e is NotImplemented,
    {
        Err(not_implemented("sort_by"))
    }

    /// Clipping is deliberately unfinished and fails.
    pub fn clip(&self) -> (r: Result<Expr, PlError>)
        ensures
            r matches Err(e) && e is NotImplemented,
    {
        Err(not_implemented("clip"))
    }

    /// Quantiles are deliberately unfinished and fail.
    pub fn quantile(&self, _quantile: &Expr) -> (r: Result<Expr, PlError>)
        ensures
            r matches Err(e) && e is NotImplemented,
    {
        Err(not_implemented("quantile"))
    }
}

/// A not-implemented failure naming the unfinished operation.
fn not_implemented(name: &str) -> (r: PlError)
    ensures
        r is NotImplemented,
{
    let mut message = name.to_owned();
    message.append(" is not implemented");
    PlError::NotImplemented { message }
}

/// A reference to one column by name; the name `*` selects all columns and
/// a `^...$` name selects by regular expression.
pub fn col(name: String) -> (r: Expr)
    ensures
        r == (Expr::Column { name }),
{
    Expr::Column { name }
}

/// A reference to several columns by name.
pub fn cols(names: Vec<String>) -> (r: Expr)
    ensures
        r == (Expr::Columns { names: Rc::new(names) }),
{
    Expr::Columns { names: Rc::new(names) }
}

/// The number of rows.
pub fn count() -> (r: Expr)
    ensures
        r == Expr::Len,
{
    Expr::Len
}

/// The first column.
pub fn first() -> (r: Expr)
    ensures
        r == Expr::FirstColumn,
{
    Expr::FirstColumn
}

/// The last column.
pub fn last() -> (r: Expr)
    ensures
        r == Expr::LastColumn,
{
    Expr::LastColumn
}

/// An integer constant.
pub fn lit_int(value: i64) -> (r: Expr)
    ensures
        r == (Expr::Literal { value: Lit::Int { value } }),
{
    Expr::Literal { value: Lit::Int { value } }
}

/// A boolean constant.
pub fn lit_bool(value: bool) -> (r: Expr)
    ensures
        r == (Expr::Literal { value: Lit::Bool { value } }),
{
    Expr::Literal { value: Lit::Bool { value } }
}

/// A string constant.
pub fn lit_str(value: String) -> (r: Expr)
    ensures
        r == (Expr::Literal { value: Lit::Str { value } }),
{
    Expr::Literal { value: Lit::Str { value } }
}

/// The missing-value constant.
pub fn lit_null() -> (r: Expr)
    ensures
        r == (Expr::Literal { value: Lit::Null }),
{
    Expr::Literal { value: Lit::Null }
}

/// A thin re-typing of an expression that exposes the string operations;
/// every method returns a root-level expression again.
pub struct StringNameSpace {
    /// The wrapped expression.
    pub inner: Expr,
}

impl StringNameSpace {
    /// True where the value contains the literal pattern.
    pub fn contains_literal(&self, literal: String) -> (r: Expr)
        ensures
            r == self.inner.spec_str_op(StrFn::ContainsLiteral { pat: literal }),
    {
        self.inner.str_node(StrFn::ContainsLiteral { pat: literal })
    }

    /// True where the value matches the regular expression.
    pub fn contains(&self, pat: String) -> (r: Expr)
        ensures
            r == self.inner.spec_str_op(StrFn::Contains { pat }),
    {
        self.inner.str_node(StrFn::Contains { pat })
    }

    /// True where the value ends with the suffix.
    pub fn ends_with(&self, sub: String) -> (r: Expr)
        ensures
            r == self.inner.spec_str_op(StrFn::EndsWith { sub }),
    {
        self.inner.str_node(StrFn::EndsWith { sub })
    }

    /// True where the value starts with the prefix.
    pub fn starts_with(&self, sub: String) -> (r: Expr)
        ensures
            r == self.inner.spec_str_op(StrFn::StartsWith { sub }),
    {
        self.inner.str_node(StrFn::StartsWith { sub })
    }

    /// The given capture group of the first regular-expression match.
    pub fn extract(&self, pat: String, group_index: usize) -> (r: Expr)
        ensures
            r == self.inner.spec_str_op(StrFn::Extract { pat, group_index }),
    {
        self.inner.str_node(StrFn::Extract { pat, group_index })
    }

    /// Pad the start with zeroes to the given width.
    pub fn zfill(&self, alignment: usize) -> (r: Expr)
        ensures
            r == self.inner.spec_str_op(StrFn::Zfill { width: alignment }),
    {
        self.inner.str_node(StrFn::Zfill { width: alignment })
    }

    /// Pad the end with the fill character to the given width.
    pub fn ljust(&self, width: usize, fillchar: char) -> (r: Expr)
        ensures
            r == self.inner.spec_str_op(StrFn::Ljust { width, fillchar }),
    {
        self.inner.str_node(StrFn::Ljust { width, fillchar })
    }

    /// Pad the start with the fill character to the given width.
    pub fn rjust(&self, width: usize, fillchar: char) -> (r: Expr)
        ensures
            r == self.inner.spec_str_op(StrFn::Rjust { width, fillchar }),
    {
        self.inner.str_node(StrFn::Rjust { width, fillchar })
    }

    /// All regular-expression matches, with an expression-valued pattern.
    pub fn extract_all(&self, pat: &Expr) -> (r: Expr)
        ensures
            r == (Expr::ExtractAll { operand: Rc::new(self.inner), pat: Rc::new(*pat) }),
    {
        Expr::ExtractAll { operand: Rc::new(self.inner.clone()), pat: Rc::new(pat.clone()) }
    }

    /// The count of regular-expression matches.
    pub fn count_match(&self, pat: String) -> (r: Expr)
        ensures
            r == self.inner.spec_str_op(StrFn::CountMatch { pat }),
    {
        self.inner.str_node(StrFn::CountMatch { pat })
    }

    /// The length of each value in bytes.
    pub fn lengths(&self) -> (r: Expr)
        ensures
            r == self.inner.spec_str_op(StrFn::Lengths),
    {
        self.inner.str_node(StrFn::Lengths)
    }

    /// The length of each value in characters.
    pub fn n_chars(&self) -> (r: Expr)
        ensures
            r == self.inner.spec_str_op(StrFn::NChars),
    {
        self.inner.str_node(StrFn::NChars)
    }

    /// Hexadecimal encoding of each value.
    fn hex_encode(&self) -> (r: Expr)
        ensures
            r == self.inner.spec_str_op(StrFn::HexEncode),
    {
        self.inner.str_node(StrFn::HexEncode)
    }

    /// Base64 encoding of each value.
    fn base64_encode(&self) -> (r: Expr)
        ensures
            r == self.inner.spec_str_op(StrFn::Base64Encode),
    {
        self.inner.str_node(StrFn::Base64Encode)
    }

    /// Encode each value under the named encoding; only `hex` and `base64`
    /// are supported, anything else is rejected at once.
    pub fn encode(&self, encoding: &str) -> (r: Result<Expr, PlError>)
        ensures
            encoding@ == "hex"@ ==> r == Ok::<Expr, PlError>(
                self.inner.spec_str_op(StrFn::HexEncode),
            ),
            encoding@ == "base64"@ ==> r == Ok::<Expr, PlError>(
                self.inner.spec_str_op(StrFn::Base64Encode),
            ),
            r is Err <==> (encoding@ != "hex"@ && encoding@ != "base64"@),
            r matches Err(e) ==> e is Construction,
    {
        proof {
            reveal_strlit("hex");
            reveal_strlit("base64");
            assert("hex"@ !~= "base64"@);
        }
        if crate::str_eq(encoding, "hex") {
            Ok(self.hex_encode())
        } else if crate::str_eq(encoding, "base64") {
            Ok(self.base64_encode())
        } else {
            let mut message = "encoding ".to_owned();
            message.append(encoding);
            message.append(" is not supported");
            Err(PlError::Construction { message })
        }
    }
}

impl Expr {
    fn str_node(&self, op: StrFn) -> (r: Expr)
        ensures
            r == self.spec_str_op(op),
    {
        Expr::StrOp { op, operand: Rc::new(self.clone()) }
    }
}

} // verus!
