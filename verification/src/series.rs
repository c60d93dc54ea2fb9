//! Typed columns built from untyped host values.
//!
//! A host hands over values with no static type; each is first tagged as a
//! [`DynValue`]. A type-specific constructor then coerces the tagged values
//! into one typed column. The constructors mirroring the host's untyped
//! array readers treat a non-coercible element as a missing value; the
//! strict constructors reject it with a type-mismatch error. Neither ever
//! guesses a value.

use vstd::prelude::*;

use crate::arena::{decodable, Arena};
use crate::error::PlError;

verus! {

/// An untyped host value, tagged.
pub enum DynValue {
    /// The explicit missing-value marker.
    Null,
    /// A boolean.
    Bool { value: bool },
    /// An integral number.
    Int { value: i64 },
    /// A string.
    Str { value: String },
}

/// The typed values of one column; a missing entry is `None`.
pub enum SeriesData {
    /// Signed 8-bit integers.
    Int8 { values: Vec<Option<i8>> },
    /// Booleans.
    Bool { values: Vec<Option<bool>> },
    /// Strings.
    Str { values: Vec<Option<String>> },
    /// A list column: each entry is itself a whole column.
    List { items: Vec<Series> },
}

/// A named, typed column.
pub struct Series {
    /// The column's name.
    pub name: String,
    /// The column's values.
    pub data: SeriesData,
}

/// An exact copy of a vector of optional booleans.
fn clone_opt_bools(v: &Vec<Option<bool>>) -> (r: Vec<Option<bool>>)
    ensures
        r@ == v@,
{
    let r = v.clone();
    proof {
        assert(r@ =~= v@);
    }
    r
}

/// An exact copy of a vector of optional strings.
fn clone_opt_strs(v: &Vec<Option<String>>) -> (r: Vec<Option<String>>)
    ensures
        r@ == v@,
{
    let r = v.clone();
    proof {
        assert(r@ =~= v@);
    }
    r
}

/// True when the two columns hold the same name and the same values.
pub open spec fn spec_same_series(a: Series, b: Series) -> bool
    decreases a,
{
    &&& a.name == b.name
    &&& match (a.data, b.data) {
        (SeriesData::Int8 { values: x }, SeriesData::Int8 { values: y }) => x@ == y@,
        (SeriesData::Bool { values: x }, SeriesData::Bool { values: y }) => x@ == y@,
        (SeriesData::Str { values: x }, SeriesData::Str { values: y }) => x@ == y@,
        (SeriesData::List { items: x }, SeriesData::List { items: y }) => x@.len() == y@.len()
            && (forall|i: int|
            0 <= i < x@.len() ==> spec_same_series(#[trigger] x@[i], y@[i])),
        _ => false,
    }
}

impl Clone for Series {
    /// A copy holding the same name and the same values.
    fn clone(&self) -> (r: Series)
        ensures
            spec_same_series(r, *self),
        decreases *self,
    {
        let data = match &self.data {
            SeriesData::Int8 { values } => SeriesData::Int8 {
                values: crate::series::clone_i8s(values),
            },
            SeriesData::Bool { values } => SeriesData::Bool { values: clone_opt_bools(values) },
            SeriesData::Str { values } => SeriesData::Str { values: clone_opt_strs(values) },
            SeriesData::List { items } => {
                let mut copy: Vec<Series> = Vec::new();
                let mut i: usize = 0;
                while i < items.len()
                    invariant
                        i <= items@.len(),
                        copy@.len() == i,
                        self.data matches SeriesData::List { items: orig } && orig == *items,
                        forall|j: int|
                            0 <= j < i ==> spec_same_series(#[trigger] copy@[j], items@[j]),
                    decreases items@.len() - i,
                {
                    proof {
                        broadcast use vstd::std_specs::vec::axiom_vec_index_decreases;
                    }
                    copy.push(items[i].clone());
                    i = i + 1;
                }
                SeriesData::List { items: copy }
            },
        };
        Series { name: self.name.clone(), data }
    }
}

/// The string a tagged value lends to a string column: strings keep their
/// characters, everything else is missing.
pub open spec fn spec_as_str(v: DynValue) -> Option<String> {
    match v {
        DynValue::Str { value } => Some(value),
        _ => None,
    }
}

/// The boolean a tagged value lends to a boolean column.
pub open spec fn spec_as_bool(v: DynValue) -> Option<bool> {
    match v {
        DynValue::Bool { value } => Some(value),
        _ => None,
    }
}

/// The signed 8-bit integer a tagged value lends to an integer column:
/// integral numbers within its range, everything else missing.
pub open spec fn spec_as_i8(v: DynValue) -> Option<i8> {
    match v {
        DynValue::Int { value } => if -128 <= value <= 127 {
            Some(value as i8)
        } else {
            None
        },
        _ => None,
    }
}

/// True when a strict string column accepts the value: a string or the
/// explicit missing-value marker.
pub open spec fn spec_str_coercible(v: DynValue) -> bool {
    v is Str || v is Null
}

/// True when a strict boolean column accepts the value.
pub open spec fn spec_bool_coercible(v: DynValue) -> bool {
    v is Bool || v is Null
}

impl Series {
    /// A string column: strings keep their characters and every other
    /// value, the missing marker included, becomes a missing entry.
    pub fn new_str(name: String, values: Vec<DynValue>) -> (r: Series)
        ensures
            r.name == name,
            r.data matches SeriesData::Str { values: vs } && vs@.len() == values@.len()
                && (forall|i: int|
                0 <= i < values@.len() ==> #[trigger] vs@[i] == spec_as_str(values@[i])),
    {
        let mut vs: Vec<Option<String>> = Vec::new();
        let mut i: usize = 0;
        while i < values.len()
            invariant
                i <= values@.len(),
                vs@.len() == i,
                forall|j: int| 0 <= j < i ==> #[trigger] vs@[j] == spec_as_str(values@[j]),
            decreases values@.len() - i,
        {
            let v = match &values[i] {
                DynValue::Str { value } => Some(value.clone()),
                _ => None,
            };
            vs.push(v);
            i = i + 1;
        }
        Series { name, data: SeriesData::Str { values: vs } }
    }

    /// A boolean column: booleans keep their value and every other value
    /// becomes a missing entry.
    pub fn new_bool(name: String, values: Vec<DynValue>) -> (r: Series)
        ensures
            r.name == name,
            r.data matches SeriesData::Bool { values: vs } && vs@.len() == values@.len()
                && (forall|i: int|
                0 <= i < values@.len() ==> #[trigger] vs@[i] == spec_as_bool(values@[i])),
    {
        let mut vs: Vec<Option<bool>> = Vec::new();
        let mut i: usize = 0;
        while i < values.len()
            invariant
                i <= values@.len(),
                vs@.len() == i,
                forall|j: int| 0 <= j < i ==> #[trigger] vs@[j] == spec_as_bool(values@[j]),
            decreases values@.len() - i,
        {
            let v = match &values[i] {
                DynValue::Bool { value } => Some(*value),
                _ => None,
            };
            vs.push(v);
            i = i + 1;
        }
        Series { name, data: SeriesData::Bool { values: vs } }
    }

    /// A signed 8-bit integer column: integral numbers within the type's
    /// range keep their value and every other value becomes a missing
    /// entry.
    pub fn new_i8(name: String, values: Vec<DynValue>) -> (r: Series)
        ensures
            r.name == name,
            r.data matches SeriesData::Int8 { values: vs } && vs@.len() == values@.len()
                && (forall|i: int|
                0 <= i < values@.len() ==> #[trigger] vs@[i] == spec_as_i8(values@[i])),
    {
        let mut vs: Vec<Option<i8>> = Vec::new();
        let mut i: usize = 0;
        while i < values.len()
            invariant
                i <= values@.len(),
                vs@.len() == i,
                forall|j: int| 0 <= j < i ==> #[trigger] vs@[j] == spec_as_i8(values@[j]),
            decreases values@.len() - i,
        {
            let v = match &values[i] {
                DynValue::Int { value } => {
                    let value = *value;
                    if -128 <= value && value <= 127 {
                        Some(value as i8)
                    } else {
                        None
                    }
                },
                _ => None,
            };
            vs.push(v);
            i = i + 1;
        }
        Series { name, data: SeriesData::Int8 { values: vs } }
    }

    /// A strict string column: the missing marker becomes a missing entry,
    /// strings keep their characters, and any other value is a contract
    /// violation of the caller, rejected with a type mismatch.
    pub fn new_opt_str_array(name: String, values: Vec<DynValue>) -> (r: Result<Series, PlError>)
        ensures
            (forall|i: int| 0 <= i < values@.len() ==> spec_str_coercible(#[trigger] values@[i]))
                <==> r is Ok,
            r matches Ok(s) ==> s.name == name && (s.data matches SeriesData::Str { values: vs }
                && vs@.len() == values@.len() && (forall|i: int|
                0 <= i < values@.len() ==> #[trigger] vs@[i] == spec_as_str(values@[i]))),
            r matches Err(e) ==> e is TypeMismatch,
    {
        let mut vs: Vec<Option<String>> = Vec::new();
        let mut i: usize = 0;
        while i < values.len()
            invariant
                i <= values@.len(),
                vs@.len() == i,
                forall|j: int| 0 <= j < i ==> spec_str_coercible(#[trigger] values@[j]),
                forall|j: int| 0 <= j < i ==> #[trigger] vs@[j] == spec_as_str(values@[j]),
            decreases values@.len() - i,
        {
            let v = match &values[i] {
                DynValue::Str { value } => Some(value.clone()),
                DynValue::Null => None,
                _ => {
                    proof {
                        assert(!spec_str_coercible(values@[i as int]));
                        assert(!(forall|j: int|
                            0 <= j < values@.len() ==> spec_str_coercible(
                                #[trigger] values@[j],
                            )));
                    }
                    return Err(
                        PlError::TypeMismatch {
                            message: "a string column takes only strings and missing values"
                                .to_owned(),
                        },
                    );
                },
            };
            vs.push(v);
            i = i + 1;
        }
        Ok(Series { name, data: SeriesData::Str { values: vs } })
    }

    /// A strict boolean column: the missing marker becomes a missing
    /// entry, booleans keep their value, and any other value is rejected
    /// with a type mismatch.
    pub fn new_opt_bool_array(name: String, values: Vec<DynValue>) -> (r: Result<Series, PlError>)
        ensures
            (forall|i: int| 0 <= i < values@.len() ==> spec_bool_coercible(#[trigger] values@[i]))
                <==> r is Ok,
            r matches Ok(s) ==> s.name == name && (s.data matches SeriesData::Bool {
                values: vs,
            } && vs@.len() == values@.len() && (forall|i: int|
                0 <= i < values@.len() ==> #[trigger] vs@[i] == spec_as_bool(values@[i]))),
            r matches Err(e) ==> e is TypeMismatch,
    {
        let mut vs: Vec<Option<bool>> = Vec::new();
        let mut i: usize = 0;
        while i < values.len()
            invariant
                i <= values@.len(),
                vs@.len() == i,
                forall|j: int| 0 <= j < i ==> spec_bool_coercible(#[trigger] values@[j]),
                forall|j: int| 0 <= j < i ==> #[trigger] vs@[j] == spec_as_bool(values@[j]),
            decreases values@.len() - i,
        {
            let v = match &values[i] {
                DynValue::Bool { value } => Some(*value),
                DynValue::Null => None,
                _ => {
                    proof {
                        assert(!spec_bool_coercible(values@[i as int]));
                        assert(!(forall|j: int|
                            0 <= j < values@.len() ==> spec_bool_coercible(
                                #[trigger] values@[j],
                            )));
                    }
                    return Err(
                        PlError::TypeMismatch {
                            message: "a boolean column takes only booleans and missing values"
                                .to_owned(),
                        },
                    );
                },
            };
            vs.push(v);
            i = i + 1;
        }
        Ok(Series { name, data: SeriesData::Bool { values: vs } })
    }

    /// A list column from an ordered collection of handles: each handle is
    /// decoded, in order, into the column it stands for, and is spent by
    /// the decoding.
    pub fn new_series_list(name: String, handles: &Vec<u32>, arena: &mut Arena<Series>) -> (r:
        Result<Series, PlError>)
        ensures
            decodable(old(arena)@, handles@) ==> (r matches Ok(s) && s.name == name && (s.data
                matches SeriesData::List { items } && items@.len() == handles@.len() && (forall|
                i: int,
            |
                0 <= i < handles@.len() ==> Some(#[trigger] items@[i]) == old(
                    arena,
                )@[handles@[i] as int]))),
            !decodable(old(arena)@, handles@) ==> (r matches Err(e) && e is Decode),
            final(arena)@.len() == old(arena)@.len(),
    {
        match arena.decode(handles) {
            Ok(items) => Ok(Series { name, data: SeriesData::List { items } }),
            Err(e) => Err(e),
        }
    }
}

/// The accepted fill-null strategies.
#[derive(Clone, Copy)]
pub enum FillNullStrategy {
    /// Fill with the column's minimal present value.
    Min,
    /// Fill with the column's maximal present value.
    Max,
    /// Fill with the column's mean, truncated toward zero as the engine
    /// casts it to the column type.
    Mean,
    /// Fill with zero.
    Zero,
    /// Fill with one.
    One,
}

/// The strategy named by the given characters, if it is an accepted name.
pub open spec fn spec_fill_strategy(s: Seq<char>) -> Option<FillNullStrategy> {
    if s == "min"@ {
        Some(FillNullStrategy::Min)
    } else if s == "max"@ {
        Some(FillNullStrategy::Max)
    } else if s == "mean"@ {
        Some(FillNullStrategy::Mean)
    } else if s == "zero"@ {
        Some(FillNullStrategy::Zero)
    } else if s == "one"@ {
        Some(FillNullStrategy::One)
    } else {
        None
    }
}

impl FillNullStrategy {
    /// The strategy named by the given string; any other name is rejected
    /// at once with a construction error.
    pub fn parse(strategy: &str) -> (r: Result<FillNullStrategy, PlError>)
        ensures
            match spec_fill_strategy(strategy@) {
                Some(k) => r == Ok::<FillNullStrategy, PlError>(k),
                None => r matches Err(e) && e is Construction,
            },
    {
        proof {
            reveal_strlit("min");
            reveal_strlit("max");
            reveal_strlit("mean");
            reveal_strlit("zero");
            reveal_strlit("one");
            assert("min"@[1] != "max"@[1]);
            assert("min"@ !~= "mean"@);
            assert("min"@ !~= "zero"@);
            assert("min"@[0] != "one"@[0]);
            assert("max"@ !~= "mean"@);
            assert("max"@ !~= "zero"@);
            assert("max"@ !~= "one"@);
            assert("mean"@[0] != "zero"@[0]);
            assert("mean"@ !~= "one"@);
            assert("zero"@ !~= "one"@);
        }
        if crate::str_eq(strategy, "min") {
            Ok(FillNullStrategy::Min)
        } else if crate::str_eq(strategy, "max") {
            Ok(FillNullStrategy::Max)
        } else if crate::str_eq(strategy, "mean") {
            Ok(FillNullStrategy::Mean)
        } else if crate::str_eq(strategy, "zero") {
            Ok(FillNullStrategy::Zero)
        } else if crate::str_eq(strategy, "one") {
            Ok(FillNullStrategy::One)
        } else {
            let mut message = "strategy ".to_owned();
            message.append(strategy);
            message.append(" is not supported");
            Err(PlError::Construction { message })
        }
    }
}

/// The values with every missing entry replaced by the fill value.
pub open spec fn spec_fill(values: Seq<Option<i8>>, fill: i8) -> Seq<Option<i8>> {
    Seq::new(values.len(), |i: int| if values[i] is None { Some(fill) } else { values[i] })
}

/// The least value present in the column, if any value is present.
pub open spec fn spec_min_present(values: Seq<Option<i8>>) -> Option<i8>
    decreases values.len(),
{
    if values.len() == 0 {
        None
    } else {
        match (values[0], spec_min_present(values.drop_first())) {
            (Some(a), Some(b)) => if a <= b { Some(a) } else { Some(b) },
            (Some(a), None) => Some(a),
            (None, rest) => rest,
        }
    }
}

/// The greatest value present in the column, if any value is present.
pub open spec fn spec_max_present(values: Seq<Option<i8>>) -> Option<i8>
    decreases values.len(),
{
    if values.len() == 0 {
        None
    } else {
        match (values[0], spec_max_present(values.drop_first())) {
            (Some(a), Some(b)) => if a >= b { Some(a) } else { Some(b) },
            (Some(a), None) => Some(a),
            (None, rest) => rest,
        }
    }
}

/// The sum of the present values.
pub open spec fn spec_sum_present(values: Seq<Option<i8>>) -> int
    decreases values.len(),
{
    if values.len() == 0 {
        0
    } else {
        spec_sum_present(values.drop_last()) + (match values.last() {
            Some(v) => v as int,
            None => 0int,
        })
    }
}

/// The count of the present values.
pub open spec fn spec_count_present(values: Seq<Option<i8>>) -> int
    decreases values.len(),
{
    if values.len() == 0 {
        0
    } else {
        spec_count_present(values.drop_last()) + (if values.last() is Some {
            1int
        } else {
            0int
        })
    }
}

/// The mean of the present values truncated toward zero — as the engine
/// casts its mean to the integer column type — when any value is present.
pub open spec fn spec_mean_present(values: Seq<Option<i8>>) -> Option<i8> {
    let s = spec_sum_present(values);
    let c = spec_count_present(values);
    if c == 0 {
        None
    } else if s >= 0 {
        Some((s / c) as i8)
    } else {
        Some((-((-s) / c)) as i8)
    }
}

/// The fill value a strategy picks for the given integer column, when any
/// value is present to pick it from.
pub open spec fn spec_strategy_fill(values: Seq<Option<i8>>, s: FillNullStrategy) -> Option<i8> {
    match s {
        FillNullStrategy::Min => spec_min_present(values),
        FillNullStrategy::Max => spec_max_present(values),
        FillNullStrategy::Mean => spec_mean_present(values),
        FillNullStrategy::Zero => Some(0i8),
        FillNullStrategy::One => Some(1i8),
    }
}

/// The least value among the present entries, computed left to right.
fn min_present(values: &Vec<Option<i8>>) -> (r: Option<i8>)
    ensures
        r == spec_min_present(values@),
{
    let mut r: Option<i8> = None;
    let mut i: usize = values.len();
    while i > 0
        invariant
            i <= values@.len(),
            r == spec_min_present(values@.subrange(i as int, values@.len() as int)),
        decreases i,
    {
        i = i - 1;
        let here = values[i];
        r = match (here, r) {
            (Some(a), Some(b)) => if a <= b {
                Some(a)
            } else {
                Some(b)
            },
            (Some(a), None) => Some(a),
            (None, rest) => rest,
        };
        proof {
            let n = values@.len() as int;
            assert(values@.subrange(i as int, n).drop_first() =~= values@.subrange(i + 1, n));
            assert(values@.subrange(i as int, n)[0] == values@[i as int]);
        }
    }
    proof {
        assert(values@.subrange(0, values@.len() as int) =~= values@);
    }
    r
}

/// The greatest value among the present entries, computed left to right.
fn max_present(values: &Vec<Option<i8>>) -> (r: Option<i8>)
    ensures
        r == spec_max_present(values@),
{
    let mut r: Option<i8> = None;
    let mut i: usize = values.len();
    while i > 0
        invariant
            i <= values@.len(),
            r == spec_max_present(values@.subrange(i as int, values@.len() as int)),
        decreases i,
    {
        i = i - 1;
        let here = values[i];
        r = match (here, r) {
            (Some(a), Some(b)) => if a >= b {
                Some(a)
            } else {
                Some(b)
            },
            (Some(a), None) => Some(a),
            (None, rest) => rest,
        };
        proof {
            let n = values@.len() as int;
            assert(values@.subrange(i as int, n).drop_first() =~= values@.subrange(i + 1, n));
            assert(values@.subrange(i as int, n)[0] == values@[i as int]);
        }
    }
    proof {
        assert(values@.subrange(0, values@.len() as int) =~= values@);
    }
    r
}

/// The mean of the present values truncated toward zero, from the sum and
/// count of the present entries.
fn mean_present(values: &Vec<Option<i8>>) -> (r: Option<i8>)
    ensures
        r == spec_mean_present(values@),
{
    let mut sum: i128 = 0;
    let mut count: usize = 0;
    let mut i: usize = 0;
    while i < values.len()
        invariant
            i <= values@.len(),
            count <= i,
            sum == spec_sum_present(values@.take(i as int)),
            count == spec_count_present(values@.take(i as int)),
            -128 * (count as int) <= sum <= 127 * (count as int),
        decreases values@.len() - i,
    {
        proof {
            assert(values@.take(i as int + 1).drop_last() =~= values@.take(i as int));
            assert(values@.take(i as int + 1).last() == values@[i as int]);
        }
        match values[i] {
            Some(v) => {
                sum = sum + (v as i128);
                count = count + 1;
            },
            None => {},
        }
        i = i + 1;
    }
    proof {
        assert(values@.take(values@.len() as int) =~= values@);
    }
    if count == 0 {
        return None;
    }
    let c = count as u128;
    if sum >= 0 {
        let q = (sum as u128) / c;
        proof {
            assert((sum as int) / (count as int) <= 127) by (nonlinear_arith)
                requires
                    0 <= sum as int <= 127 * (count as int),
                    count as int >= 1,
            ;
        }
        Some(q as i8)
    } else {
        let m = (-sum) as u128;
        let q = m / c;
        proof {
            assert((m as int) / (count as int) <= 128) by (nonlinear_arith)
                requires
                    0 <= m as int <= 128 * (count as int),
                    count as int >= 1,
            ;
        }
        let neg = -(q as i128);
        Some(neg as i8)
    }
}

/// The values with every missing entry replaced by the fill value.
fn fill_values(values: &Vec<Option<i8>>, fill: i8) -> (r: Vec<Option<i8>>)
    ensures
        r@ == spec_fill(values@, fill),
{
    let mut r: Vec<Option<i8>> = Vec::new();
    let mut i: usize = 0;
    while i < values.len()
        invariant
            i <= values@.len(),
            r@.len() == i,
            forall|j: int| 0 <= j < i ==> #[trigger] r@[j] == spec_fill(values@, fill)[j],
        decreases values@.len() - i,
    {
        let v = match values[i] {
            None => Some(fill),
            some => some,
        };
        r.push(v);
        i = i + 1;
    }
    proof {
        assert(r@ =~= spec_fill(values@, fill));
    }
    r
}

/// What filling by a named strategy returns, for every input: an unknown
/// name is a construction error; a non-integer column is a type mismatch;
/// otherwise the missing entries take the strategy's fill value, and a
/// column with no present value to pick a fill from is returned unchanged.
pub open spec fn spec_fill_null_result(
    pre: Series,
    strategy: Seq<char>,
    r: Result<Series, PlError>,
) -> bool {
    match spec_fill_strategy(strategy) {
        None => r matches Err(e) && e is Construction,
        Some(s) => match pre.data {
            SeriesData::Int8 { values } => match spec_strategy_fill(values@, s) {
                Some(f) => r matches Ok(out) && out.name == pre.name && (out.data matches
                SeriesData::Int8 { values: vs } && vs@ == spec_fill(values@, f)),
                None => r matches Ok(out) && out.name == pre.name && (out.data matches
                SeriesData::Int8 { values: vs } && vs@ == values@),
            },
            _ => r matches Err(e) && e is TypeMismatch,
        },
    }
}

impl Series {
    /// Fill the column's missing entries by the named strategy; see
    /// [`spec_fill_null_result`] for the exact outcome on every input.
    /// The mean fill is the mean of the present values truncated toward
    /// zero, as the engine casts its mean to the column type.
    pub fn fill_null(&self, strategy: &str) -> (r: Result<Series, PlError>)
        ensures
            spec_fill_null_result(*self, strategy@, r),
    {
        let s = match FillNullStrategy::parse(strategy) {
            Ok(s) => s,
            Err(e) => {
                return Err(e);
            },
        };
        let values = match &self.data {
            SeriesData::Int8 { values } => values,
            _ => {
                return Err(
                    PlError::TypeMismatch {
                        message: "only integer columns are filled here".to_owned(),
                    },
                );
            },
        };
        let fill: Option<i8> = match s {
            FillNullStrategy::Min => min_present(values),
            FillNullStrategy::Max => max_present(values),
            FillNullStrategy::Mean => mean_present(values),
            FillNullStrategy::Zero => Some(0),
            FillNullStrategy::One => Some(1),
        };
        match fill {
            Some(f) => Ok(
                Series {
                    name: self.name.clone(),
                    data: SeriesData::Int8 { values: fill_values(values, f) },
                },
            ),
            None => Ok(
                Series {
                    name: self.name.clone(),
                    data: SeriesData::Int8 { values: crate::series::clone_i8s(values) },
                },
            ),
        }
    }
}

/// An exact copy of a vector of optional integers.
pub(crate) fn clone_i8s(v: &Vec<Option<i8>>) -> (r: Vec<Option<i8>>)
    ensures
        r@ == v@,
{
    let r = v.clone();
    proof {
        assert(r@ =~= v@);
    }
    r
}

} // verus!
