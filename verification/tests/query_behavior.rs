//! Behavior of plans run against the real execution engine: filtering,
//! conditionals, joins, null-dropping, sorting and the schema query.

use lazy_query::{
    col, lit_int, lit_str, read_csv, CsvOptions, LazyFrame, NullSubset, PlError, Table,
};

fn opts() -> CsvOptions {
    CsvOptions {
        infer_schema_length: Some(100),
        chunk_size: 8192,
        has_header: true,
        ignore_errors: false,
        n_rows: None,
        skip_rows: 0,
        rechunk: true,
        n_threads: None,
        low_memory: false,
        parse_dates: false,
        skip_rows_after_header: 0,
    }
}

fn table(csv: &str) -> Table {
    read_csv(csv.as_bytes(), &opts(), "utf8").unwrap()
}

fn ints(t: &Table, name: &str) -> Vec<Option<i64>> {
    t.column_i64(name).unwrap()
}

#[test]
fn read_csv_reads_table() {
    let t = table("a,b\n1,10\n2,20\n3,30\n");
    assert_eq!(t.height(), 3);
    assert_eq!(t.column_names(), vec!["a".to_string(), "b".to_string()]);
    assert_eq!(ints(&t, "a"), vec![Some(1), Some(2), Some(3)]);
}

#[test]
fn read_csv_rejects_bogus_encoding() {
    let r = read_csv(b"a\n1\n", &opts(), "bogus");
    assert!(matches!(r, Err(PlError::Construction { .. })));
}

#[test]
fn read_csv_lossy_reads_table() {
    let t = read_csv(b"a\n1\n2\n", &opts(), "utf8-lossy").unwrap();
    assert_eq!(t.height(), 2);
}

#[test]
fn filter_keeps_matching_rows() {
    let lf = LazyFrame::scan(table("a\n1\n2\n3\n"));
    let out = lf.filter(&col("a".to_string()).gt(&lit_int(1))).collect().unwrap();
    assert_eq!(ints(&out, "a"), vec![Some(2), Some(3)]);
}

#[test]
fn filter_twice_same_as_once() {
    let lf = LazyFrame::scan(table("a\n1\n2\n3\n4\n"));
    let p = col("a".to_string()).gt(&lit_int(2));
    let once = lf.filter(&p).collect().unwrap();
    let twice = lf.filter(&p).filter(&p).collect().unwrap();
    assert!(once.same_as(&twice));
    assert_eq!(ints(&twice, "a"), vec![Some(3), Some(4)]);
}

#[test]
fn expr_reuse_is_independent() {
    let e1 = col("a".to_string());
    let e2 = e1.add(&lit_int(1)).alias("p".to_string());
    let e3 = e1.add(&lit_int(2)).alias("q".to_string());
    let lf = LazyFrame::scan(table("a\n1\n2\n3\n"));
    let out = lf.select(vec![e1.alias("a0".to_string()), e2, e3]).collect().unwrap();
    assert_eq!(ints(&out, "a0"), vec![Some(1), Some(2), Some(3)]);
    assert_eq!(ints(&out, "p"), vec![Some(2), Some(3), Some(4)]);
    assert_eq!(ints(&out, "q"), vec![Some(3), Some(4), Some(5)]);
}

#[test]
fn frame_reuse_is_independent() {
    let lf = LazyFrame::scan(table("a\n1\n2\n3\n"));
    let d1 = lf.filter(&col("a".to_string()).gt(&lit_int(1)));
    let d2 = lf.filter(&col("a".to_string()).gt(&lit_int(2)));
    assert_eq!(lf.collect().unwrap().height(), 3);
    assert_eq!(d1.collect().unwrap().height(), 2);
    assert_eq!(d2.collect().unwrap().height(), 1);
    // The first derived frame is still what it was.
    assert_eq!(ints(&d1.collect().unwrap(), "a"), vec![Some(2), Some(3)]);
}

#[test]
fn conditional_two_branch_rows() {
    let lf = LazyFrame::scan(table("a\n-1\n0\n5\n"));
    let sealed = lazy_query::cond::when(&col("a".to_string()).gt(&lit_int(0)))
        .and_then(&lit_int(1))
        .otherwise(&lit_int(0));
    let out = lf.select(vec![sealed.alias("r".to_string())]).collect().unwrap();
    assert_eq!(ints(&out, "r"), vec![Some(0), Some(0), Some(1)]);
}

#[test]
fn multi_branch_first_match_wins() {
    let lf = LazyFrame::scan(table("a\n5\n2\n-1\n"));
    let p1 = col("a".to_string()).gt(&lit_int(1));
    let p2 = col("a".to_string()).gt(&lit_int(0));
    let sealed = lazy_query::cond::when(&p1)
        .and_then(&lit_int(10))
        .when(&p2)
        .and_then(&lit_int(20))
        .otherwise(&lit_int(30));
    let out = lf.select(vec![sealed.alias("r".to_string())]).collect().unwrap();
    // Both predicates hold on the first two rows; the first branch wins.
    assert_eq!(ints(&out, "r"), vec![Some(10), Some(10), Some(30)]);
}

#[test]
fn multi_branch_second_branch_reached() {
    let lf = LazyFrame::scan(table("a\n5\n1\n-1\n"));
    let p1 = col("a".to_string()).gt(&lit_int(1));
    let p2 = col("a".to_string()).gt(&lit_int(0));
    let sealed = lazy_query::cond::when(&p1)
        .and_then(&lit_int(10))
        .when(&p2)
        .and_then(&lit_int(20))
        .otherwise(&lit_int(30));
    let out = lf.select(vec![sealed.alias("r".to_string())]).collect().unwrap();
    assert_eq!(ints(&out, "r"), vec![Some(10), Some(20), Some(30)]);
}

#[test]
fn join_key_length_mismatch_fails_at_construction() {
    let left = LazyFrame::scan(table("k,v\n1,10\n"));
    let right = LazyFrame::scan(table("k,w\n1,100\n"));
    let r = left.join(
        &right,
        vec![col("k".to_string()), col("v".to_string())],
        vec![col("k".to_string())],
        "inner",
        "_right".to_string(),
        true,
        false,
    );
    assert!(matches!(r, Err(PlError::Construction { .. })));
}

#[test]
fn join_bogus_kind_rejected() {
    let left = LazyFrame::scan(table("k,v\n1,10\n"));
    let right = LazyFrame::scan(table("k,w\n1,100\n"));
    let r = left.join(
        &right,
        vec![col("k".to_string())],
        vec![col("k".to_string())],
        "bogus",
        "_right".to_string(),
        true,
        false,
    );
    assert!(matches!(r, Err(PlError::Construction { .. })));
}

#[test]
fn join_inner_collects() {
    let left = LazyFrame::scan(table("k,v\n1,10\n2,20\n3,30\n"));
    let right = LazyFrame::scan(table("k,w\n2,200\n3,300\n4,400\n"));
    let joined = left
        .join(
            &right,
            vec![col("k".to_string())],
            vec![col("k".to_string())],
            "inner",
            "_right".to_string(),
            true,
            false,
        )
        .unwrap();
    let out = joined.sort("k".to_string(), false, false).collect().unwrap();
    assert_eq!(ints(&out, "k"), vec![Some(2), Some(3)]);
    assert_eq!(ints(&out, "v"), vec![Some(20), Some(30)]);
    assert_eq!(ints(&out, "w"), vec![Some(200), Some(300)]);
}

#[test]
fn join_anti_collects() {
    let left = LazyFrame::scan(table("k,v\n1,10\n2,20\n3,30\n"));
    let right = LazyFrame::scan(table("k,w\n2,200\n"));
    let joined = left
        .join(
            &right,
            vec![col("k".to_string())],
            vec![col("k".to_string())],
            "anti",
            "_right".to_string(),
            true,
            false,
        )
        .unwrap();
    let out = joined.sort("k".to_string(), false, false).collect().unwrap();
    assert_eq!(ints(&out, "k"), vec![Some(1), Some(3)]);
}

#[test]
fn drop_nulls_any_column() {
    let lf = LazyFrame::scan(table("x,y,z\n1,,3\n,2,3\n4,5,\n7,8,9\n"));
    let out = lf.drop_nulls(NullSubset::AnyColumn).collect().unwrap();
    assert_eq!(ints(&out, "x"), vec![Some(7)]);
}

#[test]
fn drop_nulls_single_column() {
    let lf = LazyFrame::scan(table("x,y,z\n1,,3\n,2,3\n4,5,\n7,8,9\n"));
    let out = lf
        .drop_nulls(NullSubset::Single { name: "y".to_string() })
        .collect()
        .unwrap();
    // Only the row whose y is missing is dropped.
    assert_eq!(ints(&out, "y"), vec![Some(2), Some(5), Some(8)]);
    assert_eq!(ints(&out, "x"), vec![None, Some(4), Some(7)]);
}

#[test]
fn drop_nulls_column_list() {
    let lf = LazyFrame::scan(table("x,y,z\n1,,3\n,2,3\n4,5,\n7,8,9\n"));
    let out = lf
        .drop_nulls(
            NullSubset::Columns { names: vec!["x".to_string(), "z".to_string()] },
        )
        .collect()
        .unwrap();
    // Rows with a missing x or a missing z are dropped.
    assert_eq!(ints(&out, "x"), vec![Some(1), Some(7)]);
    assert_eq!(ints(&out, "y"), vec![None, Some(8)]);
}

#[test]
fn sort_by_exprs_length_mismatch_rejected() {
    let lf = LazyFrame::scan(table("a\n1\n"));
    let r = lf.sort_by_exprs(
        vec![col("a".to_string())],
        vec![false, true],
        false,
    );
    assert!(matches!(r, Err(PlError::Construction { .. })));
}

#[test]
fn sort_by_exprs_sorts() {
    let lf = LazyFrame::scan(table("a,b\n2,1\n1,2\n3,0\n"));
    let out = lf
        .sort_by_exprs(vec![col("a".to_string())], vec![true], false)
        .unwrap()
        .collect()
        .unwrap();
    assert_eq!(ints(&out, "a"), vec![Some(3), Some(2), Some(1)]);
}

#[test]
fn sort_single_column() {
    let lf = LazyFrame::scan(table("a\n3\n1\n2\n"));
    let out = lf.sort("a".to_string(), false, false).collect().unwrap();
    assert_eq!(ints(&out, "a"), vec![Some(1), Some(2), Some(3)]);
}

#[test]
fn with_column_adds_and_replaces() {
    let lf = LazyFrame::scan(table("a\n1\n2\n"));
    let out = lf
        .with_column(col("a".to_string()).mul(&lit_int(10)).alias("b".to_string()))
        .collect()
        .unwrap();
    assert_eq!(out.column_names(), vec!["a".to_string(), "b".to_string()]);
    assert_eq!(ints(&out, "b"), vec![Some(10), Some(20)]);
}

#[test]
fn with_columns_adds_several() {
    let lf = LazyFrame::scan(table("a\n1\n2\n"));
    let out = lf
        .with_columns(vec![
            col("a".to_string()).add(&lit_int(1)).alias("p".to_string()),
            col("a".to_string()).sub(&lit_int(1)).alias("m".to_string()),
        ])
        .collect()
        .unwrap();
    assert_eq!(ints(&out, "p"), vec![Some(2), Some(3)]);
    assert_eq!(ints(&out, "m"), vec![Some(0), Some(1)]);
}

#[test]
fn arithmetic_exact_values() {
    let lf = LazyFrame::scan(table("a\n7\n"));
    let a = || col("a".to_string());
    let out = lf
        .select(vec![
            a().floordiv(&lit_int(2)).alias("fd".to_string()),
            a().modulus(&lit_int(2)).alias("md".to_string()),
            a().mul(&lit_int(3)).alias("ml".to_string()),
            a().sub(&lit_int(9)).alias("sb".to_string()),
        ])
        .collect()
        .unwrap();
    assert_eq!(ints(&out, "fd"), vec![Some(3)]);
    assert_eq!(ints(&out, "md"), vec![Some(1)]);
    assert_eq!(ints(&out, "ml"), vec![Some(21)]);
    assert_eq!(ints(&out, "sb"), vec![Some(-2)]);
}

#[test]
fn aggregates_reduce_to_single_row() {
    let lf = LazyFrame::scan(table("a\n1\n2\n3\n4\n"));
    let a = || col("a".to_string());
    let out = lf
        .select(vec![
            a().sum().alias("s".to_string()),
            a().min().alias("lo".to_string()),
            a().max().alias("hi".to_string()),
            a().n_unique().alias("nu".to_string()),
        ])
        .collect()
        .unwrap();
    assert_eq!(ints(&out, "s"), vec![Some(10)]);
    assert_eq!(ints(&out, "lo"), vec![Some(1)]);
    assert_eq!(ints(&out, "hi"), vec![Some(4)]);
    assert_eq!(out.height(), 1);
}

#[test]
fn fill_null_expression_fills() {
    let lf = LazyFrame::scan(table("a\n1\n\n3\n"));
    let out = lf
        .select(vec![
            col("a".to_string()).fill_null(&lit_int(0)).alias("f".to_string()),
        ])
        .collect()
        .unwrap();
    assert_eq!(ints(&out, "f"), vec![Some(1), Some(0), Some(3)]);
}

#[test]
fn reverse_and_head() {
    let lf = LazyFrame::scan(table("a\n1\n2\n3\n"));
    let out = lf
        .select(vec![
            col("a".to_string()).reverse().head(Some(2)).alias("r".to_string()),
        ])
        .collect()
        .unwrap();
    assert_eq!(ints(&out, "r"), vec![Some(3), Some(2)]);
}

#[test]
fn str_namespace_through_engine() {
    let lf = LazyFrame::scan(table("s\nab\nc\n"));
    let zf = col("s".to_string()).str().zfill(3).alias("z".to_string());
    let hex = col("s".to_string()).str().encode("hex").unwrap().alias("h".to_string());
    let out = lf.select(vec![zf, hex]).collect().unwrap();
    assert_eq!(
        out.column_str("z").unwrap(),
        vec![Some("0ab".to_string()), Some("00c".to_string())]
    );
    assert_eq!(
        out.column_str("h").unwrap(),
        vec![Some("6162".to_string()), Some("63".to_string())]
    );
}

#[test]
fn str_contains_filters_rows() {
    let lf = LazyFrame::scan(table("s,n\nfoo,1\nbar,2\nfob,3\n"));
    let out = lf
        .filter(&col("s".to_string()).str().starts_with("fo".to_string()))
        .collect()
        .unwrap();
    assert_eq!(ints(&out, "n"), vec![Some(1), Some(3)]);
}

#[test]
fn literal_string_column() {
    let lf = LazyFrame::scan(table("a\n1\n2\n"));
    let out = lf
        .with_column(lit_str("x".to_string()).alias("c".to_string()))
        .collect()
        .unwrap();
    assert_eq!(
        out.column_str("c").unwrap(),
        vec![Some("x".to_string()), Some("x".to_string())]
    );
}

#[test]
fn columns_reports_schema() {
    let lf = LazyFrame::scan(table("a,b\n1,2\n"));
    assert_eq!(lf.columns().unwrap(), vec!["a".to_string(), "b".to_string()]);
}

#[test]
fn columns_unknown_reference_is_schema_error() {
    let lf = LazyFrame::scan(table("a\n1\n"));
    let bad = lf.select(vec![col("missing".to_string())]);
    assert!(matches!(bad.columns(), Err(PlError::Schema { .. })));
}

#[test]
fn collect_unknown_reference_is_engine_error() {
    let lf = LazyFrame::scan(table("a\n1\n"));
    let bad = lf.select(vec![col("missing".to_string())]);
    assert!(matches!(bad.collect(), Err(PlError::Engine { .. })));
}

#[test]
fn describe_plan_is_nonempty() {
    let lf = LazyFrame::scan(table("a\n1\n"));
    let text = lf.filter(&col("a".to_string()).gt(&lit_int(0))).describe_plan().unwrap();
    assert!(!text.is_empty());
    let optimized = lf.describe_optimized_plan().unwrap();
    assert!(!optimized.is_empty());
}

#[test]
fn cache_collects_the_same() {
    let lf = LazyFrame::scan(table("a\n1\n2\n"));
    let plain = lf.collect().unwrap();
    let cached = lf.cache().collect().unwrap();
    assert!(plain.same_as(&cached));
}

#[test]
fn clone_is_same_plan() {
    let lf = LazyFrame::scan(table("a\n1\n2\n"));
    let twin = lf.clone();
    assert!(lf.collect().unwrap().same_as(&twin.collect().unwrap()));
}

#[test]
fn unfinished_frame_operations_fail() {
    let lf = LazyFrame::scan(table("a\n1\n"));
    assert!(matches!(lf.drop(), Err(PlError::NotImplemented { .. })));
    assert!(matches!(lf.explode(), Err(PlError::NotImplemented { .. })));
}

#[test]
fn expr_dump_is_nonempty() {
    let text = col("a".to_string()).gt(&lit_int(0)).to_string();
    assert!(!text.is_empty());
}

#[test]
fn select_all_columns_by_wildcard() {
    let lf = LazyFrame::scan(table("a,b\n1,2\n"));
    let out = lf.select(vec![col("*".to_string())]).collect().unwrap();
    assert_eq!(out.column_names(), vec!["a".to_string(), "b".to_string()]);
}
