use sql_gateway::{
    cast_query_sql, classify_query, is_valid_identifier, nested_body, scratch_columns_sql,
    scratch_create_sql, scratch_drop_sql, scratch_table_name, RequestError,
};

#[test]
fn select_routes_to_rows_in_any_case() {
    assert!(classify_query("select 1").unwrap().returns_rows);
    assert!(classify_query("  \n\tSeLeCt 1").unwrap().returns_rows);
    assert!(classify_query("SELECT * FROM t;").unwrap().returns_rows);
}

#[test]
fn other_statements_route_to_rows_affected() {
    let q = classify_query("update t set x=1").unwrap();
    assert!(!q.returns_rows);
    assert_eq!(q.sql, "update t set x=1");
    assert!(!classify_query("with x as (select 1) select * from x").unwrap().returns_rows);
    assert!(!classify_query("selec").unwrap().returns_rows);
}

#[test]
fn raw_queries_are_trimmed_and_blank_ones_refused() {
    assert_eq!(classify_query("  select 1 \n").unwrap().sql, "select 1");
    let e = classify_query(" \t\n").err().unwrap();
    assert_eq!(e, RequestError::EmptyQuery);
    assert_eq!(e.message(), "SQL query cannot be empty");
    assert_eq!(classify_query("").err(), Some(RequestError::EmptyQuery));
}

#[test]
fn nested_body_drops_trailing_semicolons() {
    assert_eq!(nested_body("SELECT 1 ; ;\n"), "SELECT 1");
}

#[test]
fn scratch_tables() {
    let a = scratch_table_name();
    let b = scratch_table_name();
    assert_ne!(a, b);
    assert!(a.starts_with("temp_"));
    assert_eq!(a.len(), 37);
    assert!(is_valid_identifier(&a));
    assert_eq!(
        scratch_create_sql("temp_x", "SELECT 1"),
        "CREATE TEMPORARY TABLE `temp_x` SELECT * FROM (SELECT 1) AS sub LIMIT 0"
    );
    assert_eq!(scratch_columns_sql("temp_x"), "SHOW COLUMNS FROM `temp_x`");
    assert_eq!(scratch_drop_sql("temp_x"), "DROP TEMPORARY TABLE IF EXISTS `temp_x`");
}

#[test]
fn cast_query_over_probed_fields() {
    let fields = vec!["a".to_string(), "b".to_string()];
    assert_eq!(
        cast_query_sql("SELECT a, b FROM t;", "SELECT a, b FROM t", &fields),
        "SELECT CAST(`a` AS CHAR) AS `a`, CAST(`b` AS CHAR) AS `b` FROM (SELECT a, b FROM t) AS sub"
    );
    assert_eq!(cast_query_sql("SELECT 1;", "SELECT 1", &Vec::new()), "SELECT 1;");
}
