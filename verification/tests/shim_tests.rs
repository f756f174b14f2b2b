use am_workspace::indexer::{check_batch_units, check_dimensions, check_embedding_width, resolve_api_key, unit_target, Cli};
use am_workspace::code::fallback;
use am_workspace::ids::{class_id, function_id};
use am_workspace::shim::{Connection, FromSql, Row, ToSql};

#[test]
fn rows_read_columns() {
    let row = Row::new(
        vec!["name".to_string(), "count".to_string(), "flag".to_string(), "extra".to_string()],
        vec![Some("x".to_string()), Some("-42".to_string()), Some("t".to_string())],
    );
    assert_eq!(row.get::<String>(0).unwrap(), "x");
    assert_eq!(row.get::<i64>(1).unwrap(), -42);
    assert_eq!(row.get::<i32>(1).unwrap(), -42);
    assert!(row.get::<bool>(2).unwrap());
    assert_eq!(row.get::<String>(9).unwrap_err().message(), "column index 9 out of bounds");
    assert_eq!(row.get::<String>(3).unwrap_err().message(), "NULL value for String");
    assert_eq!(row.get_by_name::<String>("name").unwrap(), "x");
    assert_eq!(row.get_by_name::<i64>("name").unwrap_err().message(), "parse i64: invalid digit found in string");
}

#[test]
fn integer_text_errors_match_std() {
    assert_eq!(i64::from_sql(Some("")).unwrap_err().message(), "parse i64: cannot parse integer from empty string");
    assert_eq!(i64::from_sql(Some("+")).unwrap_err().message(), "parse i64: invalid digit found in string");
    assert_eq!(i32::from_sql(Some("2147483648")).unwrap_err().message(), "parse i32: number too large to fit in target type");
    assert_eq!(i32::from_sql(Some("-2147483649")).unwrap_err().message(), "parse i32: number too small to fit in target type");
    assert_eq!(i32::from_sql(Some("-2147483648")).unwrap(), i32::MIN);
    assert_eq!(i64::from_sql(Some("+9223372036854775807")).unwrap(), i64::MAX);
    assert_eq!(i64::from_sql(None).unwrap_err().message(), "NULL value for i64");
    assert_eq!(bool::from_sql(Some("yes")).unwrap_err().message(), "invalid boolean: Some(\"yes\")");
    assert_eq!(bool::from_sql(None).unwrap_err().message(), "invalid boolean: None");
    assert!(!bool::from_sql(Some("0")).unwrap());
}

#[test]
fn params_and_connection() {
    assert_eq!("abc".to_string().to_sql(), "abc");
    assert_eq!((-7i64).to_sql(), "-7");
    assert_eq!(12i32.to_sql(), "12");
    let err = Connection::open("/definitely/not/here.lbug").unwrap_err();
    assert_eq!(err.message(), "LadybugDB not found at: /definitely/not/here.lbug");
    let c = Connection::open("/").unwrap();
    assert_eq!(c.path(), "/");
    let mut st = c.prepare("MATCH (n) RETURN n").unwrap();
    let rows: Vec<String> = st.query_map(&[], |r: &Row| r.get::<String>(0)).unwrap();
    assert!(rows.is_empty());
}

#[test]
fn indexer_checks() {
    assert_eq!(resolve_api_key(&Some("  k ".to_string()), &None).unwrap(), "k");
    assert_eq!(resolve_api_key(&None, &Some("env".to_string())).unwrap(), "env");
    assert_eq!(
        resolve_api_key(&None, &None).unwrap_err(),
        "Missing Jina API credential: pass --jina-api-key or set JINA_API_KEY"
    );
    assert_eq!(check_dimensions(0).unwrap_err(), "--dimensions must be positive");
    assert_eq!(
        check_dimensions(4096).unwrap_err(),
        "--dimensions (4096) exceeds Jina v4 dense max 2048 for this ingest profile."
    );
    assert_eq!(check_dimensions(512), Ok(512));
    assert!(check_batch_units(0).is_err());
    assert_eq!(
        check_embedding_width(3, 4, "a.rs:f").unwrap_err(),
        "embedding width 3 differs from configured 4 for a.rs:f"
    );
    let u = &fallback("a.rs", "x")[0];
    assert_eq!(unit_target("r", u), (function_id("r", "a.rs:__file_fallback__"), "Function"));
    let cli = Cli::with_defaults("db.lbug".into(), "repo".into());
    assert_eq!(cli.dimensions, 2048);
    assert_eq!(cli.batch_units, 32);
    let _ = class_id("r", "s");
}

#[test]
fn repeated_column_names_read_by_position() {
    let row = Row::new(vec!["a".to_string(), "a".to_string()], vec![Some("1".to_string()), Some("2".to_string())]);
    assert_eq!(row.get::<i64>(0).unwrap(), 1);
    assert_eq!(row.get::<i64>(1).unwrap(), 2);
    assert_eq!(row.get::<i64>(2).unwrap_err().message(), "column index 2 out of bounds");
}

#[test]
fn open_follows_existence() {
    let c = Connection::open_if_exists("/db/x.lbug", true).unwrap();
    assert_eq!(c.path(), "/db/x.lbug");
    let e = Connection::open_if_exists("/db/x.lbug", false).unwrap_err();
    assert_eq!(e.message(), "LadybugDB not found at: /db/x.lbug");
}
