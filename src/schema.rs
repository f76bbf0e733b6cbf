use vstd::prelude::*;
use crate::dialect::DbType;
use crate::error::RequestError;
use crate::ident::{is_valid_identifier, push_literal, push_quoted, quoted, string_literal, valid_identifier};
use crate::text::{eq_ascii_ci, eq_ignore_ascii_case, joined, push_joined, views};

verus! {

/// A column requested in a DDL statement.
#[derive(Debug, Clone)]
pub struct ColumnDefinition {
    pub name: String,
    /// A logical type: TEXT, INTEGER, BOOLEAN, DATETIME, FLOAT or UUID (a few aliases are
    /// accepted); anything else is stored as text.
    pub data_type: String,
    pub nullable: bool,
    pub is_primary_key: bool,
    pub unique: bool,
    pub auto_increment: bool,
    pub default_value: Option<String>,
}

/// A foreign key requested with a new table.
#[derive(Debug, Clone)]
pub struct ForeignKeyDefinition {
    pub source_column: String,
    pub target_table: String,
    pub target_column: String,
    /// RESTRICT, CASCADE, SET NULL or NO ACTION.
    pub on_delete: String,
}

/// The ON DELETE action used when a request names none.
pub fn default_on_delete() -> (r: String)
    ensures
        r@ == "RESTRICT"@,
{
    String::from_str("RESTRICT")
}

/// A request to create a table.
#[derive(Debug, Clone)]
pub struct CreateTableRequest {
    pub name: String,
    pub columns: Vec<ColumnDefinition>,
    pub foreign_keys: Vec<ForeignKeyDefinition>,
}

/// The kinds of table alteration a request may name; only the first three are carried out.
#[derive(Debug, Clone, Copy, PartialEq, Eq, Structural)]
pub enum AlterType {
    RenameTable,
    AddColumn,
    DropColumn,
    ModifyColumn,
    RenameColumn,
}

/// A request to alter a table.
#[derive(Debug, Clone)]
pub struct AlterTableRequest {
    pub alter_type: AlterType,
    pub new_name: Option<String>,
    pub column_definition: Option<ColumnDefinition>,
    pub column_name: Option<String>,
    pub old_column_name: Option<String>,
}

/// The engine's type name for a logical type, matched in any letter case; unknown types
/// become text.
pub open spec fn native_type(logical: Seq<char>, db: DbType) -> Seq<char> {
    if eq_ascii_ci(logical, "TEXT"@) || eq_ascii_ci(logical, "STRING"@) {
        "TEXT"@
    } else if eq_ascii_ci(logical, "INT"@) || eq_ascii_ci(logical, "INTEGER"@) || eq_ascii_ci(
        logical,
        "NUMBER"@,
    ) {
        "INTEGER"@
    } else if eq_ascii_ci(logical, "BOOL"@) || eq_ascii_ci(logical, "BOOLEAN"@) {
        if db == DbType::Postgres { "BOOLEAN"@ } else { "INTEGER"@ }
    } else if eq_ascii_ci(logical, "DATETIME"@) {
        if db == DbType::Postgres { "TIMESTAMP"@ } else { "DATETIME"@ }
    } else if eq_ascii_ci(logical, "FLOAT"@) {
        match db {
            DbType::Postgres => "DOUBLE PRECISION"@,
            DbType::Mysql => "DOUBLE"@,
            DbType::Sqlite => "REAL"@,
        }
    } else if eq_ascii_ci(logical, "UUID"@) {
        match db {
            DbType::Postgres => "UUID"@,
            DbType::Mysql => "CHAR(36)"@,
            DbType::Sqlite => "TEXT"@,
        }
    } else {
        "TEXT"@
    }
}

/// The engine's type for an auto-increment column; on SQLite it is paired with PRIMARY KEY.
pub open spec fn auto_increment_type(db: DbType) -> Seq<char> {
    match db {
        DbType::Postgres => "SERIAL"@,
        DbType::Mysql => "INT AUTO_INCREMENT"@,
        DbType::Sqlite => "INTEGER"@,
    }
}

/// The engine's type for a column definition.
pub open spec fn column_type(col: ColumnDefinition, db: DbType) -> Seq<char> {
    if col.auto_increment {
        auto_increment_type(db)
    } else {
        native_type(col.data_type@, db)
    }
}

/// Whether a column definition gets PRIMARY KEY.
pub open spec fn column_is_key(col: ColumnDefinition, db: DbType) -> bool {
    col.is_primary_key || (col.auto_increment && db == DbType::Sqlite)
}

/// A column definition in SQL: name, type, then the constraints in the fixed order not-null,
/// primary key, unique, default.
pub open spec fn column_sql(col: ColumnDefinition, db: DbType) -> Seq<char> {
    quoted(col.name@, db) + " "@ + column_type(col, db)
        + (if !col.nullable { " NOT NULL"@ } else { Seq::empty() })
        + (if column_is_key(col, db) { " PRIMARY KEY"@ } else { Seq::empty() })
        + (if col.unique { " UNIQUE"@ } else { Seq::empty() })
        + match col.default_value {
            Some(d) => " DEFAULT "@ + string_literal(d@),
            None => Seq::empty(),
        }
}

fn push_native_type(out: &mut String, col: &ColumnDefinition, db: DbType)
    ensures
        final(out)@ == old(out)@ + column_type(*col, db),
{
    if col.auto_increment {
        match db {
            DbType::Postgres => out.append("SERIAL"),
            DbType::Mysql => out.append("INT AUTO_INCREMENT"),
            DbType::Sqlite => out.append("INTEGER"),
        }
        return;
    }
    let t = col.data_type.as_str();
    if eq_ignore_ascii_case(t, "TEXT") || eq_ignore_ascii_case(t, "STRING") {
        out.append("TEXT");
    } else if eq_ignore_ascii_case(t, "INT") || eq_ignore_ascii_case(t, "INTEGER")
        || eq_ignore_ascii_case(t, "NUMBER") {
        out.append("INTEGER");
    } else if eq_ignore_ascii_case(t, "BOOL") || eq_ignore_ascii_case(t, "BOOLEAN") {
        match db {
            DbType::Postgres => out.append("BOOLEAN"),
            _ => out.append("INTEGER"),
        }
    } else if eq_ignore_ascii_case(t, "DATETIME") {
        match db {
            DbType::Postgres => out.append("TIMESTAMP"),
            _ => out.append("DATETIME"),
        }
    } else if eq_ignore_ascii_case(t, "FLOAT") {
        match db {
            DbType::Postgres => out.append("DOUBLE PRECISION"),
            DbType::Mysql => out.append("DOUBLE"),
            DbType::Sqlite => out.append("REAL"),
        }
    } else if eq_ignore_ascii_case(t, "UUID") {
        match db {
            DbType::Postgres => out.append("UUID"),
            DbType::Mysql => out.append("CHAR(36)"),
            DbType::Sqlite => out.append("TEXT"),
        }
    } else {
        out.append("TEXT");
    }
}

/// A column definition in SQL (its name is not checked here).
pub fn column_definition_sql(col: &ColumnDefinition, db: DbType) -> (r: String)
    ensures
        r@ == column_sql(*col, db),
{
    let mut s = String::new();
    push_quoted(&mut s, col.name.as_str(), db);
    s.append(" ");
    push_native_type(&mut s, col, db);
    let ghost a = s@;
    if !col.nullable {
        s.append(" NOT NULL");
    }
    let ghost b = s@;
    let key = col.is_primary_key || (col.auto_increment && db == DbType::Sqlite);
    if key {
        s.append(" PRIMARY KEY");
    }
    let ghost c = s@;
    if col.unique {
        s.append(" UNIQUE");
    }
    let ghost d = s@;
    match &col.default_value {
        Some(v) => {
            s.append(" DEFAULT ");
            push_literal(&mut s, v.as_str());
        },
        None => {},
    }
    assert(s@ =~= column_sql(*col, db));
    s
}

} // verus!

verus! {

/// The canonical ON DELETE action named by `a` in any letter case, if it is one.
pub open spec fn on_delete_action(a: Seq<char>) -> Option<Seq<char>> {
    if eq_ascii_ci(a, "RESTRICT"@) {
        Some("RESTRICT"@)
    } else if eq_ascii_ci(a, "CASCADE"@) {
        Some("CASCADE"@)
    } else if eq_ascii_ci(a, "SET NULL"@) {
        Some("SET NULL"@)
    } else if eq_ascii_ci(a, "NO ACTION"@) {
        Some("NO ACTION"@)
    } else {
        None
    }
}

/// Whether a foreign key request can be compiled.
pub open spec fn foreign_key_ok(fk: ForeignKeyDefinition) -> bool {
    &&& valid_identifier(fk.source_column@)
    &&& valid_identifier(fk.target_table@)
    &&& valid_identifier(fk.target_column@)
    &&& on_delete_action(fk.on_delete@) is Some
}

/// Whether `e` is the refusal owed to a foreign key request: its first invalid part.
pub open spec fn foreign_key_refusal(fk: ForeignKeyDefinition, e: RequestError) -> bool {
    if !valid_identifier(fk.source_column@) {
        e matches RequestError::InvalidColumnName(n) && n@ == fk.source_column@
    } else if !valid_identifier(fk.target_table@) {
        e matches RequestError::InvalidReferencedTable(n) && n@ == fk.target_table@
    } else if !valid_identifier(fk.target_column@) {
        e matches RequestError::InvalidColumnName(n) && n@ == fk.target_column@
    } else {
        e matches RequestError::InvalidOnDelete(n) && n@ == fk.on_delete@
    }
}

/// A table-level foreign key clause.
pub open spec fn foreign_key_sql(fk: ForeignKeyDefinition, db: DbType) -> Seq<char> {
    "FOREIGN KEY ("@ + quoted(fk.source_column@, db) + ") REFERENCES "@ + quoted(
        fk.target_table@,
        db,
    ) + " ("@ + quoted(fk.target_column@, db) + ") ON DELETE "@ + on_delete_action(
        fk.on_delete@,
    )->0
}

fn push_on_delete(out: &mut String, a: &str) -> (r: bool)
    ensures
        r == (on_delete_action(a@) is Some),
        r ==> final(out)@ == old(out)@ + on_delete_action(a@)->0,
        !r ==> final(out)@ == old(out)@,
{
    if eq_ignore_ascii_case(a, "RESTRICT") {
        out.append("RESTRICT");
    } else if eq_ignore_ascii_case(a, "CASCADE") {
        out.append("CASCADE");
    } else if eq_ignore_ascii_case(a, "SET NULL") {
        out.append("SET NULL");
    } else if eq_ignore_ascii_case(a, "NO ACTION") {
        out.append("NO ACTION");
    } else {
        return false;
    }
    true
}

/// The clause for one foreign key request, or the refusal owed to it.
pub fn foreign_key_clause(fk: &ForeignKeyDefinition, db: DbType) -> (r: Result<String, RequestError>)
    ensures
        match r {
            Ok(s) => foreign_key_ok(*fk) && s@ == foreign_key_sql(*fk, db),
            Err(e) => !foreign_key_ok(*fk) && foreign_key_refusal(*fk, e),
        },
{
    if !is_valid_identifier(fk.source_column.as_str()) {
        return Err(RequestError::InvalidColumnName(fk.source_column.clone()));
    }
    if !is_valid_identifier(fk.target_table.as_str()) {
        return Err(RequestError::InvalidReferencedTable(fk.target_table.clone()));
    }
    if !is_valid_identifier(fk.target_column.as_str()) {
        return Err(RequestError::InvalidColumnName(fk.target_column.clone()));
    }
    let mut s = String::from_str("FOREIGN KEY (");
    push_quoted(&mut s, fk.source_column.as_str(), db);
    s.append(") REFERENCES ");
    push_quoted(&mut s, fk.target_table.as_str(), db);
    s.append(" (");
    push_quoted(&mut s, fk.target_column.as_str(), db);
    s.append(") ON DELETE ");
    if !push_on_delete(&mut s, fk.on_delete.as_str()) {
        return Err(RequestError::InvalidOnDelete(fk.on_delete.clone()));
    }
    Ok(s)
}

/// The column names of a list of definitions.
pub open spec fn definition_names(cols: Seq<ColumnDefinition>) -> Seq<Seq<char>> {
    cols.map_values(|c: ColumnDefinition| c.name@)
}

/// The element list of a CREATE TABLE: the columns, then the foreign keys.
pub open spec fn table_elements(req: CreateTableRequest, db: DbType) -> Seq<Seq<char>> {
    req.columns@.map_values(|c: ColumnDefinition| column_sql(c, db)) + req.foreign_keys@.map_values(
        |f: ForeignKeyDefinition| foreign_key_sql(f, db),
    )
}

/// The CREATE TABLE statement for a request whose parts are all valid.
pub open spec fn create_table_statement(req: CreateTableRequest, db: DbType) -> Seq<char> {
    "CREATE TABLE "@ + quoted(req.name@, db) + " ("@ + joined(table_elements(req, db), ", "@) + ")"@
}

/// Whether every part of a create request is valid.
pub open spec fn create_ok(req: CreateTableRequest) -> bool {
    &&& valid_identifier(req.name@)
    &&& forall|i: int| 0 <= i < req.columns@.len() ==> valid_identifier(#[trigger] req.columns@[i].name@)
    &&& forall|i: int| 0 <= i < req.foreign_keys@.len() ==> foreign_key_ok(#[trigger] req.foreign_keys@[i])
}

/// Whether `e` is the refusal owed to a create request: the table name, else the first
/// invalid column name, else the first invalid foreign key.
pub open spec fn create_refusal(req: CreateTableRequest, e: RequestError) -> bool {
    if !valid_identifier(req.name@) {
        e == RequestError::InvalidTableName
    } else if exists|i: int| 0 <= i < req.columns@.len() && !valid_identifier(#[trigger] req.columns@[i].name@) {
        exists|i: int|
            0 <= i < req.columns@.len() && !valid_identifier(#[trigger] req.columns@[i].name@)
                && (forall|j: int| 0 <= j < i ==> valid_identifier(#[trigger] req.columns@[j].name@))
                && (e matches RequestError::InvalidColumnName(n) && n@ == req.columns@[i].name@)
    } else {
        exists|i: int|
            0 <= i < req.foreign_keys@.len() && !foreign_key_ok(#[trigger] req.foreign_keys@[i])
                && (forall|j: int| 0 <= j < i ==> foreign_key_ok(#[trigger] req.foreign_keys@[j]))
                && foreign_key_refusal(req.foreign_keys@[i], e)
    }
}

/// The CREATE TABLE statement for a request, or the refusal owed to it.
pub fn create_table_sql(req: &CreateTableRequest, db: DbType) -> (r: Result<String, RequestError>)
    ensures
        match r {
            Ok(sql) => create_ok(*req) && sql@ == create_table_statement(*req, db),
            Err(e) => !create_ok(*req) && create_refusal(*req, e),
        },
{
    if !is_valid_identifier(req.name.as_str()) {
        return Err(RequestError::InvalidTableName);
    }
    let ghost cols = req.columns@;
    let ghost fks = req.foreign_keys@;
    let ghost col_sqls = cols.map_values(|c: ColumnDefinition| column_sql(c, db));
    let ghost fk_sqls = fks.map_values(|f: ForeignKeyDefinition| foreign_key_sql(f, db));
    let mut parts: Vec<String> = Vec::new();
    let mut i: usize = 0;
    while i < req.columns.len()
        invariant
            cols == req.columns@,
            col_sqls == cols.map_values(|c: ColumnDefinition| column_sql(c, db)),
            valid_identifier(req.name@),
            i <= cols.len(),
            parts@.len() == i,
            views(parts@) =~= col_sqls.take(i as int),
            forall|j: int| 0 <= j < i ==> valid_identifier(#[trigger] cols[j].name@),
        decreases cols.len() - i,
    {
        let col = &req.columns[i];
        if !is_valid_identifier(col.name.as_str()) {
            assert(!create_ok(*req));
            return Err(RequestError::InvalidColumnName(col.name.clone()));
        }
        let ghost prev = parts@;
        parts.push(column_definition_sql(col, db));
        proof {
            let k = i as int;
            assert forall|j: int| 0 <= j < k + 1 implies views(parts@)[j] == col_sqls.take(k + 1)[j] by {
                if j < k {
                    assert(parts@[j] == prev[j]);
                    assert(views(prev)[j] == col_sqls.take(k)[j]);
                }
            }
            assert(views(parts@) =~= col_sqls.take(k + 1));
        }
        i = i + 1;
    }
    assert(col_sqls.take(cols.len() as int) =~= col_sqls);
    let mut k: usize = 0;
    while k < req.foreign_keys.len()
        invariant
            cols == req.columns@,
            fks == req.foreign_keys@,
            col_sqls == cols.map_values(|c: ColumnDefinition| column_sql(c, db)),
            fk_sqls == fks.map_values(|f: ForeignKeyDefinition| foreign_key_sql(f, db)),
            valid_identifier(req.name@),
            forall|j: int| 0 <= j < cols.len() ==> valid_identifier(#[trigger] cols[j].name@),
            k <= fks.len(),
            parts@.len() == cols.len() + k,
            views(parts@) =~= col_sqls + fk_sqls.take(k as int),
            forall|j: int| 0 <= j < k ==> foreign_key_ok(#[trigger] fks[j]),
        decreases fks.len() - k,
    {
        let clause = foreign_key_clause(&req.foreign_keys[k], db);
        match clause {
            Err(e) => {
                assert(!create_ok(*req));
                return Err(e);
            },
            Ok(s) => {
                let ghost prev = parts@;
                parts.push(s);
                proof {
                    let n = cols.len() as int;
                    let kk = k as int;
                    assert forall|j: int| 0 <= j < n + kk + 1 implies views(parts@)[j] == (col_sqls
                        + fk_sqls.take(kk + 1))[j] by {
                        if j < n + kk {
                            assert(parts@[j] == prev[j]);
                            assert(views(prev)[j] == (col_sqls + fk_sqls.take(kk))[j]);
                        }
                    }
                    assert(views(parts@) =~= col_sqls + fk_sqls.take(kk + 1));
                }
            },
        }
        k = k + 1;
    }
    assert(fk_sqls.take(fks.len() as int) =~= fk_sqls);
    let mut sql = String::from_str("CREATE TABLE ");
    push_quoted(&mut sql, req.name.as_str(), db);
    sql.append(" (");
    push_joined(&mut sql, &parts, ", ");
    sql.append(")");
    Ok(sql)
}

} // verus!

verus! {

/// The ALTER statement for a request on `table`, when it is valid.
pub open spec fn alter_statement(table: Seq<char>, req: AlterTableRequest, db: DbType) -> Seq<char> {
    "ALTER TABLE "@ + quoted(table, db) + match req.alter_type {
        AlterType::RenameTable => " RENAME TO "@ + quoted(req.new_name->0@, db),
        AlterType::AddColumn => " ADD COLUMN "@ + column_sql(req.column_definition->0, db),
        _ => " DROP COLUMN "@ + quoted(req.column_name->0@, db),
    }
}

/// Whether `e` is the refusal owed to an alter request on `table`. Each of the three
/// supported alterations needs its own field, itself checked; the other kinds are refused.
pub open spec fn alter_refusal(table: Seq<char>, req: AlterTableRequest, e: RequestError) -> bool {
    if !valid_identifier(table) {
        e == RequestError::InvalidTableName
    } else {
        match req.alter_type {
            AlterType::RenameTable => match req.new_name {
                None => e == RequestError::MissingNewName,
                Some(n) => !valid_identifier(n@) && e == RequestError::InvalidNewTableName,
            },
            AlterType::AddColumn => match req.column_definition {
                None => e == RequestError::MissingColumnDefinition,
                Some(c) => !valid_identifier(c.name@) && (e matches RequestError::InvalidColumnName(
                    n,
                ) && n@ == c.name@),
            },
            AlterType::DropColumn => match req.column_name {
                None => e == RequestError::MissingColumnName,
                Some(c) => !valid_identifier(c@) && (e matches RequestError::InvalidColumnName(n)
                    && n@ == c@),
            },
            _ => e == RequestError::UnsupportedAlteration,
        }
    }
}

/// Whether an alter request on `table` can be carried out.
pub open spec fn alter_ok(table: Seq<char>, req: AlterTableRequest) -> bool {
    &&& valid_identifier(table)
    &&& match req.alter_type {
        AlterType::RenameTable => req.new_name matches Some(n) && valid_identifier(n@),
        AlterType::AddColumn => req.column_definition matches Some(c) && valid_identifier(c.name@),
        AlterType::DropColumn => req.column_name matches Some(c) && valid_identifier(c@),
        _ => false,
    }
}

/// The ALTER TABLE statement for a request on `table`, or the refusal owed to it.
pub fn alter_table_sql(table: &str, req: &AlterTableRequest, db: DbType) -> (r: Result<String, RequestError>)
    ensures
        match r {
            Ok(sql) => alter_ok(table@, *req) && sql@ == alter_statement(table@, *req, db),
            Err(e) => !alter_ok(table@, *req) && alter_refusal(table@, *req, e),
        },
{
    if !is_valid_identifier(table) {
        return Err(RequestError::InvalidTableName);
    }
    let mut sql = String::from_str("ALTER TABLE ");
    push_quoted(&mut sql, table, db);
    let ghost head = sql@;
    match req.alter_type {
        AlterType::RenameTable => {
            let n = match &req.new_name {
                Some(n) => n,
                None => return Err(RequestError::MissingNewName),
            };
            if !is_valid_identifier(n.as_str()) {
                return Err(RequestError::InvalidNewTableName);
            }
            sql.append(" RENAME TO ");
            push_quoted(&mut sql, n.as_str(), db);
        },
        AlterType::AddColumn => {
            let c = match &req.column_definition {
                Some(c) => c,
                None => return Err(RequestError::MissingColumnDefinition),
            };
            if !is_valid_identifier(c.name.as_str()) {
                return Err(RequestError::InvalidColumnName(c.name.clone()));
            }
            sql.append(" ADD COLUMN ");
            let def = column_definition_sql(c, db);
            sql.append(def.as_str());
        },
        AlterType::DropColumn => {
            let c = match &req.column_name {
                Some(c) => c,
                None => return Err(RequestError::MissingColumnName),
            };
            if !is_valid_identifier(c.as_str()) {
                return Err(RequestError::InvalidColumnName(c.clone()));
            }
            sql.append(" DROP COLUMN ");
            push_quoted(&mut sql, c.as_str(), db);
        },
        _ => return Err(RequestError::UnsupportedAlteration),
    }
    assert(sql@ =~= alter_statement(table@, *req, db));
    Ok(sql)
}

/// The DROP TABLE statement.
pub open spec fn drop_statement(table: Seq<char>, db: DbType) -> Seq<char> {
    "DROP TABLE "@ + quoted(table, db)
}

/// The DROP TABLE statement for `table`, refused when the name is not a valid identifier.
pub fn drop_table_sql(table: &str, db: DbType) -> (r: Result<String, RequestError>)
    ensures
        match r {
            Ok(sql) => valid_identifier(table@) && sql@ == drop_statement(table@, db),
            Err(e) => !valid_identifier(table@) && e == RequestError::InvalidTableName,
        },
{
    if !is_valid_identifier(table) {
        return Err(RequestError::InvalidTableName);
    }
    let mut sql = String::from_str("DROP TABLE ");
    push_quoted(&mut sql, table, db);
    Ok(sql)
}

} // verus!
