use sql_gateway::{
    alter_table_sql, column_definition_sql, create_table_sql, default_on_delete, drop_table_sql,
    AlterTableRequest, AlterType, ColumnDefinition, CreateTableRequest, DbType,
    ForeignKeyDefinition, RequestError,
};

fn col(name: &str, data_type: &str) -> ColumnDefinition {
    ColumnDefinition {
        name: name.to_string(),
        data_type: data_type.to_string(),
        nullable: true,
        is_primary_key: false,
        unique: false,
        auto_increment: false,
        default_value: None,
    }
}

fn alter(alter_type: AlterType) -> AlterTableRequest {
    AlterTableRequest { alter_type, new_name: None, column_definition: None, column_name: None, old_column_name: None }
}

#[test]
fn create_simple_table() {
    let mut id = col("id", "INTEGER");
    id.is_primary_key = true;
    let mut name = col("name", "text");
    name.nullable = false;
    let req = CreateTableRequest { name: "t".to_string(), columns: vec![id, name], foreign_keys: vec![] };
    assert_eq!(
        create_table_sql(&req, DbType::Sqlite).unwrap(),
        "CREATE TABLE \"t\" (\"id\" INTEGER PRIMARY KEY, \"name\" TEXT NOT NULL)"
    );
}

#[test]
fn logical_types_map_per_dialect() {
    let cases = [
        ("bool", DbType::Postgres, "BOOLEAN"),
        ("Boolean", DbType::Mysql, "INTEGER"),
        ("datetime", DbType::Postgres, "TIMESTAMP"),
        ("DATETIME", DbType::Sqlite, "DATETIME"),
        ("float", DbType::Postgres, "DOUBLE PRECISION"),
        ("FLOAT", DbType::Mysql, "DOUBLE"),
        ("float", DbType::Sqlite, "REAL"),
        ("uuid", DbType::Postgres, "UUID"),
        ("UUID", DbType::Mysql, "CHAR(36)"),
        ("number", DbType::Mysql, "INTEGER"),
        ("string", DbType::Sqlite, "TEXT"),
        ("blob-ish", DbType::Postgres, "TEXT"),
    ];
    for (logical, db, native) in cases {
        let sql = column_definition_sql(&col("c", logical), db);
        let quoted = if db == DbType::Mysql { "`c`" } else { "\"c\"" };
        assert_eq!(sql, format!("{} {}", quoted, native));
    }
}

#[test]
fn constraints_in_fixed_order() {
    let mut c = col("code", "text");
    c.nullable = false;
    c.is_primary_key = true;
    c.unique = true;
    c.default_value = Some("n/a".to_string());
    assert_eq!(
        column_definition_sql(&c, DbType::Postgres),
        "\"code\" TEXT NOT NULL PRIMARY KEY UNIQUE DEFAULT 'n/a'"
    );
}

#[test]
fn auto_increment_types() {
    let mut c = col("id", "integer");
    c.auto_increment = true;
    assert_eq!(column_definition_sql(&c, DbType::Postgres), "\"id\" SERIAL");
    assert_eq!(column_definition_sql(&c, DbType::Mysql), "`id` INT AUTO_INCREMENT");
    assert_eq!(column_definition_sql(&c, DbType::Sqlite), "\"id\" INTEGER PRIMARY KEY");
}

#[test]
fn create_with_foreign_key() {
    let fk = ForeignKeyDefinition {
        source_column: "owner".to_string(),
        target_table: "users".to_string(),
        target_column: "id".to_string(),
        on_delete: "set null".to_string(),
    };
    let req = CreateTableRequest { name: "pets".to_string(), columns: vec![col("owner", "int")], foreign_keys: vec![fk] };
    assert_eq!(
        create_table_sql(&req, DbType::Mysql).unwrap(),
        "CREATE TABLE `pets` (`owner` INTEGER, FOREIGN KEY (`owner`) REFERENCES `users` (`id`) ON DELETE SET NULL)"
    );
    assert_eq!(default_on_delete(), "RESTRICT");
}

#[test]
fn create_refusals() {
    let req = CreateTableRequest { name: "bad name".to_string(), columns: vec![col("a", "text")], foreign_keys: vec![] };
    assert_eq!(create_table_sql(&req, DbType::Sqlite).unwrap_err(), RequestError::InvalidTableName);
    let req = CreateTableRequest { name: "t".to_string(), columns: vec![col("a", "text"), col("b-", "text"), col("1c", "text")], foreign_keys: vec![] };
    let e = create_table_sql(&req, DbType::Sqlite).unwrap_err();
    assert_eq!(e, RequestError::InvalidColumnName("1c".to_string()));
    let fk = ForeignKeyDefinition {
        source_column: "a".to_string(),
        target_table: "u".to_string(),
        target_column: "id".to_string(),
        on_delete: "explode".to_string(),
    };
    let req = CreateTableRequest { name: "t".to_string(), columns: vec![col("a", "text")], foreign_keys: vec![fk] };
    let e = create_table_sql(&req, DbType::Sqlite).unwrap_err();
    assert_eq!(e, RequestError::InvalidOnDelete("explode".to_string()));
    assert_eq!(e.message(), "Invalid ON DELETE action: explode");
}

#[test]
fn alterations() {
    let mut r = alter(AlterType::RenameTable);
    r.new_name = Some("t2".to_string());
    assert_eq!(alter_table_sql("t", &r, DbType::Postgres).unwrap(), "ALTER TABLE \"t\" RENAME TO \"t2\"");
    let mut r = alter(AlterType::AddColumn);
    let mut c = col("age", "int");
    c.nullable = false;
    r.column_definition = Some(c);
    assert_eq!(alter_table_sql("t", &r, DbType::Mysql).unwrap(), "ALTER TABLE `t` ADD COLUMN `age` INTEGER NOT NULL");
    let mut r = alter(AlterType::DropColumn);
    r.column_name = Some("age".to_string());
    assert_eq!(alter_table_sql("t", &r, DbType::Sqlite).unwrap(), "ALTER TABLE \"t\" DROP COLUMN \"age\"");
}

#[test]
fn alteration_refusals() {
    assert_eq!(alter_table_sql("t", &alter(AlterType::RenameTable), DbType::Sqlite).unwrap_err(), RequestError::MissingNewName);
    assert_eq!(alter_table_sql("t", &alter(AlterType::AddColumn), DbType::Sqlite).unwrap_err(), RequestError::MissingColumnDefinition);
    assert_eq!(alter_table_sql("t", &alter(AlterType::DropColumn), DbType::Sqlite).unwrap_err(), RequestError::MissingColumnName);
    assert_eq!(alter_table_sql("t", &alter(AlterType::ModifyColumn), DbType::Sqlite).unwrap_err(), RequestError::UnsupportedAlteration);
    assert_eq!(alter_table_sql("t", &alter(AlterType::RenameColumn), DbType::Sqlite).unwrap_err(), RequestError::UnsupportedAlteration);
    assert_eq!(alter_table_sql("t t", &alter(AlterType::DropColumn), DbType::Sqlite).unwrap_err(), RequestError::InvalidTableName);
    let mut r = alter(AlterType::RenameTable);
    r.new_name = Some("x;".to_string());
    assert_eq!(alter_table_sql("t", &r, DbType::Sqlite).unwrap_err(), RequestError::InvalidNewTableName);
    let mut r = alter(AlterType::DropColumn);
    r.column_name = Some("a b".to_string());
    assert_eq!(alter_table_sql("t", &r, DbType::Sqlite).unwrap_err(), RequestError::InvalidColumnName("a b".to_string()));
}

#[test]
fn drop_table() {
    assert_eq!(drop_table_sql("t", DbType::Mysql).unwrap(), "DROP TABLE `t`");
    assert_eq!(drop_table_sql("", DbType::Mysql).unwrap_err(), RequestError::InvalidTableName);
}

#[test]
fn foreign_key_parts_are_checked_in_order() {
    let fk = |src: &str, table: &str, col: &str| ForeignKeyDefinition {
        source_column: src.to_string(),
        target_table: table.to_string(),
        target_column: col.to_string(),
        on_delete: "CASCADE".to_string(),
    };
    let make = |f: ForeignKeyDefinition| CreateTableRequest { name: "t".to_string(), columns: vec![col("a", "text")], foreign_keys: vec![f] };
    let e = create_table_sql(&make(fk("a", "other table", "id")), DbType::Postgres).unwrap_err();
    assert_eq!(e, RequestError::InvalidReferencedTable("other table".to_string()));
    assert_eq!(e.message(), "Invalid referenced table: other table");
    let e = create_table_sql(&make(fk("a b", "u", "id")), DbType::Postgres).unwrap_err();
    assert_eq!(e, RequestError::InvalidColumnName("a b".to_string()));
    let e = create_table_sql(&make(fk("a", "u", "i d")), DbType::Postgres).unwrap_err();
    assert_eq!(e, RequestError::InvalidColumnName("i d".to_string()));
    let ok = create_table_sql(&make(fk("a", "u", "id")), DbType::Postgres).unwrap();
    assert_eq!(ok, "CREATE TABLE \"t\" (\"a\" TEXT, FOREIGN KEY (\"a\") REFERENCES \"u\" (\"id\") ON DELETE CASCADE)");
}
