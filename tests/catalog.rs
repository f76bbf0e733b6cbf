use sql_gateway::{
    column_probe_sql, foreign_keys_sql, index_columns_sql, indexes_sql, list_tables_sql,
    primary_key_from_lookup, primary_key_from_table_info, primary_key_sql, probed_column_names,
    table_columns_sql, table_count_sql, version_sql, CellProbe, ColumnInfo, DbType,
    ForeignKeyInfo, IndexInfo, TableInfo,
};

fn s(x: &str) -> Option<String> {
    Some(x.to_string())
}

fn cell(text: Option<&str>, bytes: Option<&[u8]>) -> CellProbe {
    CellProbe {
        present: true,
        text: text.map(|t| t.to_string()),
        integer: None,
        float_bits: None,
        boolean: None,
        bytes: bytes.map(|b| b.to_vec()),
    }
}

#[test]
fn table_kinds_are_normalized() {
    assert_eq!(TableInfo::from_row(DbType::Mysql, s("a"), s("BASE TABLE"), Some(12)).table_type, "TABLE");
    assert_eq!(TableInfo::from_row(DbType::Sqlite, s("a"), s("table"), None).table_type, "TABLE");
    assert_eq!(TableInfo::from_row(DbType::Sqlite, s("a"), s("view"), None).table_type, "VIEW");
    assert_eq!(TableInfo::from_row(DbType::Postgres, s("a"), s("VIEW"), None).table_type, "VIEW");
    assert_eq!(TableInfo::from_row(DbType::Postgres, s("a"), s("FOREIGN"), None).table_type, "FOREIGN");
    assert_eq!(TableInfo::from_row(DbType::Postgres, None, None, None).name, "");
}

#[test]
fn row_estimates_only_on_mysql() {
    assert_eq!(TableInfo::from_row(DbType::Mysql, s("a"), s("BASE TABLE"), Some(12)).row_count_estimate, Some(12));
    assert_eq!(TableInfo::from_row(DbType::Postgres, s("a"), s("BASE TABLE"), Some(12)).row_count_estimate, None);
    assert_eq!(TableInfo::from_row(DbType::Sqlite, s("a"), s("table"), Some(3)).row_count_estimate, None);
}

#[test]
fn column_flags_are_normalized() {
    let c = ColumnInfo::from_row(s("id"), s("integer"), s("no"), None, None, Some(2));
    assert!(c.is_primary_key);
    assert!(!c.nullable);
    let c = ColumnInfo::from_row(s("x"), s("text"), s("Yes"), s("'d'"), Some(false), Some(1));
    assert!(!c.is_primary_key);
    assert!(c.nullable);
    assert_eq!(c.default_value, s("'d'"));
    let c = ColumnInfo::from_row(None, None, None, None, None, Some(0));
    assert!(!c.is_primary_key);
    assert!(!c.nullable);
    assert_eq!(c.name, "");
}

#[test]
fn index_column_lists() {
    let i = IndexInfo::from_mysql_row(s("PRIMARY"), Some(1), Some(1), s("a,b"));
    assert_eq!(i.column_names, vec!["a".to_string(), "b".to_string()]);
    assert!(i.is_unique && i.is_primary);
    let i = IndexInfo::from_mysql_row(s("idx"), Some(0), None, None);
    assert_eq!(i.column_names, vec!["".to_string()]);
    assert!(!i.is_unique && !i.is_primary);
    let i = IndexInfo::from_postgres_row(s("p"), Some(true), Some(false), s("[\"id\",\"x\"]"));
    assert_eq!(i.column_names, vec!["id".to_string(), "x".to_string()]);
    assert!(i.is_unique && !i.is_primary);
    let i = IndexInfo::from_postgres_row(s("p"), None, None, s("not json"));
    assert!(i.column_names.is_empty());
    let i = IndexInfo::from_sqlite_rows(s("sqlite_autoindex_t_1"), Some(1), s("pk"), vec![s("id"), None]);
    assert_eq!(i.column_names, vec!["id".to_string(), "".to_string()]);
    assert!(i.is_unique && i.is_primary);
    let i = IndexInfo::from_sqlite_rows(s("ix"), Some(0), s("c"), vec![]);
    assert!(!i.is_unique && !i.is_primary);
}

#[test]
fn sqlite_foreign_keys_get_synthetic_names() {
    let f = ForeignKeyInfo::from_sqlite_row(Some(3), s("a"), s("b"), s("c"));
    assert_eq!(f.constraint_name, "fk_3");
    assert_eq!(ForeignKeyInfo::from_sqlite_row(None, None, None, None).constraint_name, "fk_0");
    assert_eq!(ForeignKeyInfo::from_sqlite_row(Some(-12), None, None, None).constraint_name, "fk_-12");
    assert_eq!(ForeignKeyInfo::from_sqlite_row(Some(i64::MIN), None, None, None).constraint_name, "fk_-9223372036854775808");
    let f = ForeignKeyInfo::from_row(s("fk_x"), s("a"), None, s("c"));
    assert_eq!(f.constraint_name, "fk_x");
    assert_eq!(f.foreign_table, "");
}

#[test]
fn primary_key_fallback_is_id() {
    assert_eq!(primary_key_from_lookup(None), Ok("id".to_string()));
    assert_eq!(primary_key_from_lookup(Some(Ok("uid".to_string()))), Ok("uid".to_string()));
    assert_eq!(primary_key_from_lookup(Some(Err("bad".to_string()))), Err("bad".to_string()));
    let rows = vec![("a".to_string(), 0), ("b".to_string(), 2), ("c".to_string(), 1)];
    assert_eq!(primary_key_from_table_info(&rows), "b");
    assert_eq!(primary_key_from_table_info(&vec![("a".to_string(), 0)]), "id");
}

#[test]
fn catalog_statements_inline_names_as_literals() {
    let q = primary_key_sql(DbType::Sqlite, "main", "t");
    assert_eq!(q.sql, "PRAGMA table_info(\"t\")");
    assert!(q.bind.is_none());
    let q = primary_key_sql(DbType::Postgres, "db", "t");
    assert_eq!(q.bind, s("t"));
    assert!(q.sql.ends_with("tc.table_name = $1 LIMIT 1"));
    let q = primary_key_sql(DbType::Mysql, "o'db", "t");
    assert!(q.sql.contains("TABLE_SCHEMA = 'o''db' AND table_name = 't'"));
    assert_eq!(
        table_columns_sql(DbType::Sqlite, "", "it's").as_str(),
        "SELECT name AS column_name, type AS data_type, CASE WHEN \"notnull\" = 0 THEN 'YES' ELSE 'NO' END AS is_nullable, dflt_value AS column_default, pk AS is_primary FROM pragma_table_info('it''s')"
    );
    assert!(list_tables_sql(DbType::Mysql, "shop").contains("WHERE table_schema = 'shop' ORDER BY table_name"));
    assert!(list_tables_sql(DbType::Sqlite, "x").contains("FROM sqlite_schema"));
    assert_eq!(index_columns_sql("ix"), "SELECT name FROM pragma_index_info('ix')");
    assert_eq!(indexes_sql(DbType::Sqlite, "", "t").bind, s("t"));
    assert!(indexes_sql(DbType::Mysql, "d", "t").sql.contains("TABLE_SCHEMA = 'd' AND TABLE_NAME = 't'"));
    assert!(foreign_keys_sql(DbType::Mysql, "d", "t").sql.ends_with("AND TABLE_NAME = 't' AND REFERENCED_TABLE_NAME IS NOT NULL"));
    assert_eq!(foreign_keys_sql(DbType::Postgres, "d", "t").bind, s("t"));
    assert_eq!(version_sql(DbType::Sqlite), "SELECT sqlite_version()");
    assert_eq!(version_sql(DbType::Mysql), "SELECT version()");
    assert_eq!(
        table_count_sql(DbType::Mysql, "shop"),
        "SELECT COUNT(*) FROM information_schema.tables WHERE table_schema = 'shop'"
    );
}

#[test]
fn column_probe_only_on_server_dialects() {
    assert!(column_probe_sql(DbType::Sqlite, "d", "t").is_none());
    assert_eq!(
        column_probe_sql(DbType::Postgres, "d", "t").unwrap(),
        "SELECT column_name::text AS col_name FROM information_schema.columns WHERE table_schema = 'public' AND table_name = 't' ORDER BY ordinal_position"
    );
    assert_eq!(
        column_probe_sql(DbType::Mysql, "d", "t").unwrap(),
        "SELECT CAST(COLUMN_NAME AS CHAR) AS col_name FROM information_schema.columns WHERE table_schema = 'd' AND table_name = 't' ORDER BY ordinal_position"
    );
}

#[test]
fn probed_names_accept_bytes_on_mysql_only() {
    let rows = vec![cell(Some("id"), None), cell(None, Some(b"when")), cell(None, None)];
    assert_eq!(probed_column_names(&rows, DbType::Mysql), vec!["id".to_string(), "when".to_string()]);
    assert_eq!(probed_column_names(&rows, DbType::Postgres), vec!["id".to_string()]);
}

#[test]
fn bound_catalog_statements_use_the_dialect_placeholder() {
    assert!(indexes_sql(DbType::Postgres, "d", "t").sql.contains("t.relname = $1 GROUP BY"));
    assert_eq!(indexes_sql(DbType::Sqlite, "d", "t").sql, "SELECT name, `unique`, origin FROM pragma_index_list(?)");
    assert!(foreign_keys_sql(DbType::Postgres, "d", "t").sql.ends_with("tc.table_name = $1"));
    assert_eq!(
        foreign_keys_sql(DbType::Sqlite, "d", "t").sql,
        "SELECT id, `from`, `table`, `to` FROM pragma_foreign_key_list(?)"
    );
}
