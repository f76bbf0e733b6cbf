use std::time::Instant;

use sql_gateway::{
    create_table_sql, delete_row_sql, insert_row_sql, normalize_row, primary_key_from_table_info,
    primary_key_sql, select_page, update_row_sql, CellProbe, ColumnDefinition, ConnectRequest,
    CreateTableRequest, DbType, FieldValue, PaginationParams, Scalar, SessionRegistry,
};
use sqlx::any::{AnyPoolOptions, AnyRow};
use sqlx::{AnyPool, Column, Row};

fn probe(row: &AnyRow, i: usize) -> CellProbe {
    CellProbe {
        present: row.try_get_raw(i).is_ok(),
        text: row.try_get::<String, _>(i).ok(),
        integer: row.try_get::<i64, _>(i).ok(),
        float_bits: row.try_get::<f64, _>(i).ok().map(f64::to_bits),
        boolean: row.try_get::<bool, _>(i).ok(),
        bytes: row.try_get::<Vec<u8>, _>(i).ok(),
    }
}

async fn read_all(pool: &AnyPool) -> Vec<Vec<(String, Scalar)>> {
    let params = PaginationParams { page: Some(1), limit: Some(50), sort: None, order: None };
    let (sql, _) = select_page("t", DbType::Sqlite, &params, None).unwrap();
    let rows = sqlx::query(&sql).fetch_all(pool).await.unwrap();
    rows.iter()
        .map(|row| {
            let cells: Vec<(String, CellProbe)> = row
                .columns()
                .iter()
                .enumerate()
                .map(|(i, c)| (c.name().to_string(), probe(row, i)))
                .collect();
            normalize_row(&cells)
        })
        .collect()
}

async fn key_column(pool: &AnyPool) -> String {
    let q = primary_key_sql(DbType::Sqlite, ":memory:", "t");
    let rows = sqlx::query(&q.sql).fetch_all(pool).await.unwrap();
    let info: Vec<(String, i64)> = rows
        .iter()
        .map(|r| (r.try_get::<String, _>("name").unwrap(), r.try_get::<i64, _>("pk").unwrap()))
        .collect();
    primary_key_from_table_info(&info)
}

fn row(id: i64, name: &str) -> Vec<(String, Scalar)> {
    vec![("id".to_string(), Scalar::Integer(id)), ("name".to_string(), Scalar::Text(name.to_string()))]
}

#[test]
fn sqlite_create_insert_read_update_delete() {
    sqlx::any::install_default_drivers();
    let rt = tokio::runtime::Builder::new_current_thread().enable_all().build().unwrap();
    rt.block_on(async {
        let req = ConnectRequest {
            host: String::new(),
            port: 0,
            database: ":memory:".to_string(),
            username: String::new(),
            password: String::new(),
            db_type: DbType::Sqlite,
        };
        let url = req.connection_string(false);
        assert_eq!(url, "sqlite::memory:?mode=rwc");
        let pool = AnyPoolOptions::new().max_connections(1).connect(&url).await.unwrap();
        let mut registry = SessionRegistry::new();
        let resp = registry.open_session(pool, req.database.clone(), DbType::Sqlite, Instant::now());
        let session = registry.resolve(Some(&format!("Bearer {}", resp.token))).ok().unwrap();
        let pool = session.pool.clone();

        let id = ColumnDefinition {
            name: "id".to_string(),
            data_type: "INTEGER".to_string(),
            nullable: true,
            is_primary_key: true,
            unique: false,
            auto_increment: false,
            default_value: None,
        };
        let name = ColumnDefinition {
            name: "name".to_string(),
            data_type: "TEXT".to_string(),
            nullable: false,
            is_primary_key: false,
            unique: false,
            auto_increment: false,
            default_value: None,
        };
        let create = CreateTableRequest { name: "t".to_string(), columns: vec![id, name], foreign_keys: vec![] };
        sqlx::query(&create_table_sql(&create, DbType::Sqlite).unwrap()).execute(&pool).await.unwrap();

        let body = Some(vec![("name".to_string(), FieldValue::Text("a".to_string()))]);
        let done = sqlx::query(&insert_row_sql("t", &body, DbType::Sqlite).unwrap()).execute(&pool).await.unwrap();
        assert_eq!(done.rows_affected(), 1);
        assert_eq!(read_all(&pool).await, vec![row(1, "a")]);

        let pk = key_column(&pool).await;
        assert_eq!(pk, "id");
        let body = Some(vec![("name".to_string(), FieldValue::Text("b".to_string()))]);
        let done = sqlx::query(&update_row_sql("t", &pk, "1", &body, DbType::Sqlite).unwrap()).execute(&pool).await.unwrap();
        assert_eq!(done.rows_affected(), 1);
        assert_eq!(read_all(&pool).await, vec![row(1, "b")]);

        let done = sqlx::query(&delete_row_sql("t", &pk, "1", DbType::Sqlite).unwrap()).execute(&pool).await.unwrap();
        assert_eq!(done.rows_affected(), 1);
        assert!(read_all(&pool).await.is_empty());
    });
}
