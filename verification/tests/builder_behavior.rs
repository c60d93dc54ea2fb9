//! Behavior of the pure builders: handle decoding, typed-column coercion,
//! the fixed string-to-enum tables, and the deliberately unfinished
//! operations.

use lazy_query::{
    col, lit_int, Arena, CsvEncoding, DynValue, Expr, FillNullStrategy, JoinKind, PlError,
    Series, SeriesData,
};

fn num(v: i64) -> DynValue {
    DynValue::Int { value: v }
}

fn strv(s: &str) -> DynValue {
    DynValue::Str { value: s.to_string() }
}

#[test]
fn decode_preserves_order_and_spends() {
    let mut arena: Arena<String> = Arena::new();
    let h0 = arena.insert("first".to_string());
    let h1 = arena.insert("second".to_string());
    let h2 = arena.insert("third".to_string());
    let decoded = arena.decode(&vec![h2, h0, h1]).unwrap();
    assert_eq!(decoded, vec!["third".to_string(), "first".to_string(), "second".to_string()]);
    // Every handle was spent by the decoding.
    assert!(matches!(arena.take(h0), Err(PlError::Decode { .. })));
    assert!(matches!(arena.take(h1), Err(PlError::Decode { .. })));
    assert!(matches!(arena.take(h2), Err(PlError::Decode { .. })));
}

#[test]
fn decode_empty_collection_is_ok() {
    let mut arena: Arena<String> = Arena::new();
    arena.insert("unrelated".to_string());
    let decoded = arena.decode(&Vec::new()).unwrap();
    assert!(decoded.is_empty());
}

#[test]
fn decode_rejects_double_use() {
    let mut arena: Arena<String> = Arena::new();
    let h = arena.insert("once".to_string());
    assert!(matches!(arena.decode(&vec![h, h]), Err(PlError::Decode { .. })));
}

#[test]
fn decode_rejects_unknown_handle() {
    let mut arena: Arena<String> = Arena::new();
    let h = arena.insert("known".to_string());
    assert!(matches!(arena.decode(&vec![h + 7]), Err(PlError::Decode { .. })));
}

#[test]
fn take_returns_value_once() {
    let mut arena: Arena<i64> = Arena::new();
    let h = arena.insert(42);
    assert_eq!(arena.take(h).unwrap(), 42);
    assert!(matches!(arena.take(h), Err(PlError::Decode { .. })));
}

#[test]
fn new_series_list_decodes_in_order() {
    let mut arena: Arena<Series> = Arena::new();
    let ha = arena.insert(Series::new_i8("a".to_string(), vec![num(1)]));
    let hb = arena.insert(Series::new_i8("b".to_string(), vec![num(2)]));
    let s = Series::new_series_list("pair".to_string(), &vec![hb, ha], &mut arena).unwrap();
    assert_eq!(s.name, "pair");
    match s.data {
        SeriesData::List { items } => {
            assert_eq!(items.len(), 2);
            assert_eq!(items[0].name, "b");
            assert_eq!(items[1].name, "a");
        },
        _ => panic!("expected a list column"),
    }
}

#[test]
fn new_str_lenient_coercion() {
    let s = Series::new_str(
        "s".to_string(),
        vec![strv("x"), DynValue::Null, num(3), DynValue::Bool { value: true }],
    );
    match s.data {
        SeriesData::Str { values } => {
            assert_eq!(values, vec![Some("x".to_string()), None, None, None]);
        },
        _ => panic!("expected a string column"),
    }
}

#[test]
fn new_bool_lenient_coercion() {
    let s = Series::new_bool(
        "b".to_string(),
        vec![DynValue::Bool { value: true }, DynValue::Null, strv("t")],
    );
    match s.data {
        SeriesData::Bool { values } => {
            assert_eq!(values, vec![Some(true), None, None]);
        },
        _ => panic!("expected a boolean column"),
    }
}

#[test]
fn new_i8_range_coercion() {
    let s = Series::new_i8(
        "i".to_string(),
        vec![num(-5), num(127), num(128), num(-129), DynValue::Null, strv("9")],
    );
    match s.data {
        SeriesData::Int8 { values } => {
            assert_eq!(values, vec![Some(-5), Some(127), None, None, None, None]);
        },
        _ => panic!("expected an integer column"),
    }
}

#[test]
fn new_opt_str_array_rejects_non_string() {
    let r = Series::new_opt_str_array("s".to_string(), vec![strv("ok"), num(1)]);
    assert!(matches!(r, Err(PlError::TypeMismatch { .. })));
}

#[test]
fn new_opt_str_array_accepts_nulls() {
    let s = Series::new_opt_str_array(
        "s".to_string(),
        vec![DynValue::Null, strv("a"), DynValue::Null],
    )
    .unwrap();
    match s.data {
        SeriesData::Str { values } => {
            assert_eq!(values, vec![None, Some("a".to_string()), None]);
        },
        _ => panic!("expected a string column"),
    }
}

#[test]
fn new_opt_bool_array_rejects_non_bool() {
    let r = Series::new_opt_bool_array("b".to_string(), vec![DynValue::Bool { value: false }, strv("true")]);
    assert!(matches!(r, Err(PlError::TypeMismatch { .. })));
}

#[test]
fn fill_null_rejects_unknown_strategy() {
    let s = Series::new_i8("i".to_string(), vec![num(1), DynValue::Null]);
    assert!(matches!(s.fill_null("bogus"), Err(PlError::Construction { .. })));
}

#[test]
fn fill_null_zero_and_one() {
    let s = Series::new_i8("i".to_string(), vec![num(4), DynValue::Null, num(-2)]);
    let zero = s.fill_null("zero").unwrap();
    match zero.data {
        SeriesData::Int8 { values } => assert_eq!(values, vec![Some(4), Some(0), Some(-2)]),
        _ => panic!("expected an integer column"),
    }
    let one = s.fill_null("one").unwrap();
    match one.data {
        SeriesData::Int8 { values } => assert_eq!(values, vec![Some(4), Some(1), Some(-2)]),
        _ => panic!("expected an integer column"),
    }
}

#[test]
fn fill_null_min_max() {
    let s = Series::new_i8("i".to_string(), vec![num(4), DynValue::Null, num(-2), num(9)]);
    let lo = s.fill_null("min").unwrap();
    match lo.data {
        SeriesData::Int8 { values } => {
            assert_eq!(values, vec![Some(4), Some(-2), Some(-2), Some(9)]);
        },
        _ => panic!("expected an integer column"),
    }
    let hi = s.fill_null("max").unwrap();
    match hi.data {
        SeriesData::Int8 { values } => {
            assert_eq!(values, vec![Some(4), Some(9), Some(-2), Some(9)]);
        },
        _ => panic!("expected an integer column"),
    }
}

#[test]
fn fill_null_all_missing_stays_missing() {
    let s = Series::new_i8("i".to_string(), vec![DynValue::Null, DynValue::Null]);
    let lo = s.fill_null("min").unwrap();
    match lo.data {
        SeriesData::Int8 { values } => assert_eq!(values, vec![None, None]),
        _ => panic!("expected an integer column"),
    }
}

#[test]
fn fill_null_mean_truncates_toward_zero() {
    let s = Series::new_i8("i".to_string(), vec![num(4), DynValue::Null, num(-2), num(9)]);
    // The mean of 4, -2 and 9 is 11/3, truncated to 3.
    let filled = s.fill_null("mean").unwrap();
    match filled.data {
        SeriesData::Int8 { values } => {
            assert_eq!(values, vec![Some(4), Some(3), Some(-2), Some(9)]);
        },
        _ => panic!("expected an integer column"),
    }
}

#[test]
fn fill_null_mean_negative_values() {
    let s = Series::new_i8("i".to_string(), vec![num(-5), DynValue::Null, num(-2)]);
    // The mean of -5 and -2 is -7/2, truncated to -3.
    let filled = s.fill_null("mean").unwrap();
    match filled.data {
        SeriesData::Int8 { values } => {
            assert_eq!(values, vec![Some(-5), Some(-3), Some(-2)]);
        },
        _ => panic!("expected an integer column"),
    }
}

#[test]
fn fill_null_mean_all_missing_stays_missing() {
    let s = Series::new_i8("i".to_string(), vec![DynValue::Null]);
    let filled = s.fill_null("mean").unwrap();
    match filled.data {
        SeriesData::Int8 { values } => assert_eq!(values, vec![None]),
        _ => panic!("expected an integer column"),
    }
}

#[test]
fn fill_null_wrong_dtype() {
    let s = Series::new_str("s".to_string(), vec![strv("a")]);
    assert!(matches!(s.fill_null("zero"), Err(PlError::TypeMismatch { .. })));
}

#[test]
fn fill_strategy_parse_accepts_table() {
    assert!(matches!(FillNullStrategy::parse("min"), Ok(FillNullStrategy::Min)));
    assert!(matches!(FillNullStrategy::parse("max"), Ok(FillNullStrategy::Max)));
    assert!(matches!(FillNullStrategy::parse("mean"), Ok(FillNullStrategy::Mean)));
    assert!(matches!(FillNullStrategy::parse("zero"), Ok(FillNullStrategy::Zero)));
    assert!(matches!(FillNullStrategy::parse("one"), Ok(FillNullStrategy::One)));
}

#[test]
fn join_kind_parse_accepts_five() {
    assert!(matches!(JoinKind::parse("left"), Ok(JoinKind::Left)));
    assert!(matches!(JoinKind::parse("inner"), Ok(JoinKind::Inner)));
    assert!(matches!(JoinKind::parse("outer"), Ok(JoinKind::Outer)));
    assert!(matches!(JoinKind::parse("semi"), Ok(JoinKind::Semi)));
    assert!(matches!(JoinKind::parse("anti"), Ok(JoinKind::Anti)));
}

#[test]
fn join_kind_parse_rejects_bogus() {
    assert!(matches!(JoinKind::parse("bogus"), Err(PlError::Construction { .. })));
    assert!(matches!(JoinKind::parse("LEFT"), Err(PlError::Construction { .. })));
    assert!(matches!(JoinKind::parse(""), Err(PlError::Construction { .. })));
}

#[test]
fn csv_encoding_parse_table() {
    assert!(matches!(CsvEncoding::parse("utf8"), Ok(CsvEncoding::Utf8)));
    assert!(matches!(CsvEncoding::parse("utf8-lossy"), Ok(CsvEncoding::Utf8Lossy)));
    assert!(matches!(CsvEncoding::parse("latin1"), Err(PlError::Construction { .. })));
}

#[test]
fn encode_rejects_unknown_encoding() {
    let ns = col("s".to_string()).str();
    assert!(ns.encode("hex").is_ok());
    assert!(ns.encode("base64").is_ok());
    assert!(matches!(ns.encode("rot13"), Err(PlError::Construction { .. })));
}

#[test]
fn unfinished_expr_operations_fail() {
    let e = col("a".to_string());
    let other = lit_int(1);
    assert!(matches!(Expr::cast(), Err(PlError::NotImplemented { .. })));
    assert!(matches!(e.diff(), Err(PlError::NotImplemented { .. })));
    assert!(matches!(e.dot(&other), Err(PlError::NotImplemented { .. })));
    assert!(matches!(e.exclude(), Err(PlError::NotImplemented { .. })));
    assert!(matches!(e.extend(), Err(PlError::NotImplemented { .. })));
    assert!(matches!(e.extend_constant(), Err(PlError::NotImplemented { .. })));
    assert!(matches!(e.fill_null_with_strategy(), Err(PlError::NotImplemented { .. })));
    assert!(matches!(Expr::sort_by(), Err(PlError::NotImplemented { .. })));
    assert!(matches!(e.clip(), Err(PlError::NotImplemented { .. })));
    assert!(matches!(e.quantile(&other), Err(PlError::NotImplemented { .. })));
}

#[test]
fn error_message_is_descriptive() {
    let e = match JoinKind::parse("bogus") {
        Err(e) => e,
        Ok(_) => panic!("bogus join kind must be rejected"),
    };
    assert!(e.message().contains("bogus"));
}
