use vstd::prelude::*;
use crate::dialect::{placeholder, DbType};
use crate::ident::{push_literal, push_quoted, quoted, string_literal};
use crate::normalize::{cell_text, read_text, CellProbe};
use crate::text::{
    comma_pieces, eq_ascii_ci, eq_ignore_ascii_case, push_signed_decimal, signed_decimal,
    split_commas, views,
};

verus! {

/// A catalog statement, with the table name bound to its one placeholder where it has one.
#[derive(Debug)]
pub struct CatalogQuery {
    pub sql: String,
    pub bind: Option<String>,
}

// ---- column probe before a read ----

pub const MYSQL_PROBE_HEAD: &'static str = "SELECT CAST(COLUMN_NAME AS CHAR) AS col_name FROM information_schema.columns WHERE table_schema = ";

pub const PG_PROBE_HEAD: &'static str = "SELECT column_name::text AS col_name FROM information_schema.columns WHERE table_schema = 'public' AND table_name = ";

pub const AND_TABLE_NAME: &'static str = " AND table_name = ";

pub const BY_POSITION: &'static str = " ORDER BY ordinal_position";

/// The catalog statement listing a table's columns before a read, on MySQL and Postgres;
/// SQLite reads without one.
pub open spec fn column_probe(db: DbType, database: Seq<char>, table: Seq<char>) -> Option<Seq<char>> {
    match db {
        DbType::Mysql => Some(
            MYSQL_PROBE_HEAD@ + string_literal(database) + AND_TABLE_NAME@ + string_literal(table)
                + BY_POSITION@,
        ),
        DbType::Postgres => Some(PG_PROBE_HEAD@ + string_literal(table) + BY_POSITION@),
        DbType::Sqlite => None,
    }
}

/// The catalog statement listing a table's columns before a read, where the dialect has one.
pub fn column_probe_sql(db: DbType, database: &str, table: &str) -> (r: Option<String>)
    ensures
        r matches Some(s) ==> column_probe(db, database@, table@) == Some(s@),
        r is None ==> column_probe(db, database@, table@) is None,
{
    match db {
        DbType::Mysql => {
            let mut s = String::from_str(MYSQL_PROBE_HEAD);
            push_literal(&mut s, database);
            s.append(AND_TABLE_NAME);
            push_literal(&mut s, table);
            s.append(BY_POSITION);
            Some(s)
        },
        DbType::Postgres => {
            let mut s = String::from_str(PG_PROBE_HEAD);
            push_literal(&mut s, table);
            s.append(BY_POSITION);
            Some(s)
        },
        DbType::Sqlite => None,
    }
}

/// The names that a column probe gave, in order: rows whose name cannot be read are
/// skipped; MySQL names may arrive as bytes.
pub open spec fn probed_names(rows: Seq<CellProbe>, db: DbType) -> Seq<Seq<char>>
    decreases rows.len(),
{
    if rows.len() == 0 {
        Seq::empty()
    } else {
        let prev = probed_names(rows.drop_last(), db);
        match cell_text(rows.last(), db == DbType::Mysql) {
            Some(t) => prev.push(t),
            None => prev,
        }
    }
}

/// The column names read from the rows of a column probe.
pub fn probed_column_names(rows: &Vec<CellProbe>, db: DbType) -> (r: Vec<String>)
    ensures
        views(r@) == probed_names(rows@, db),
{
    let mut r: Vec<String> = Vec::new();
    let mut i: usize = 0;
    while i < rows.len()
        invariant
            i <= rows.len(),
            views(r@) == probed_names(rows@.take(i as int), db),
        decreases rows.len() - i,
    {
        let ghost prev = r@;
        let accept_bytes = match db {
            DbType::Mysql => true,
            _ => false,
        };
        match read_text(&rows[i], accept_bytes) {
            Some(t) => {
                r.push(t);
            },
            None => {},
        }
        proof {
            assert(rows@.take(i + 1).drop_last() =~= rows@.take(i as int));
            assert(views(r@) =~= probed_names(rows@.take(i + 1), db));
        }
        i = i + 1;
    }
    assert(rows@.take(rows.len() as int) =~= rows@);
    r
}

} // verus!

verus! {

// ---- table listing ----

pub const PG_TABLES: &'static str = "SELECT table_name AS name, table_type AS table_type, NULL AS row_count_estimate FROM information_schema.tables WHERE table_schema = 'public' ORDER BY table_name";

pub const MYSQL_TABLES_HEAD: &'static str = "SELECT table_name AS name, table_type AS table_type, table_rows AS row_count_estimate FROM information_schema.tables WHERE table_schema = ";

pub const MYSQL_TABLES_TAIL: &'static str = " ORDER BY table_name";

pub const SQLITE_TABLES: &'static str = "SELECT name, type AS table_type, NULL AS row_count_estimate FROM sqlite_schema WHERE type IN ('table', 'view') AND name NOT LIKE 'sqlite_%' ORDER BY name";

/// A table or view of the connected database.
#[derive(Debug, Clone, PartialEq, Eq)]
pub struct TableInfo {
    pub name: String,
    pub table_type: String,
    pub row_count_estimate: Option<i64>,
}

/// The catalog statement listing tables and views.
pub open spec fn tables_query(db: DbType, database: Seq<char>) -> Seq<char> {
    match db {
        DbType::Postgres => PG_TABLES@,
        DbType::Mysql => MYSQL_TABLES_HEAD@ + string_literal(database) + MYSQL_TABLES_TAIL@,
        DbType::Sqlite => SQLITE_TABLES@,
    }
}

/// The catalog statement listing tables and views.
pub fn list_tables_sql(db: DbType, database: &str) -> (r: String)
    ensures
        r@ == tables_query(db, database@),
{
    match db {
        DbType::Postgres => String::from_str(PG_TABLES),
        DbType::Mysql => {
            let mut s = String::from_str(MYSQL_TABLES_HEAD);
            push_literal(&mut s, database);
            s.append(MYSQL_TABLES_TAIL);
            s
        },
        DbType::Sqlite => String::from_str(SQLITE_TABLES),
    }
}

/// The normalized kind of a catalog entry: `TABLE` for "base table" or "table", `VIEW` for
/// "view", in any letter case; anything else is kept as given.
pub open spec fn table_kind(raw: Seq<char>) -> Seq<char> {
    if eq_ascii_ci(raw, "base table"@) || eq_ascii_ci(raw, "table"@) {
        "TABLE"@
    } else if eq_ascii_ci(raw, "view"@) {
        "VIEW"@
    } else {
        raw
    }
}

/// The text of an optional cell, empty when absent.
pub open spec fn or_empty(s: Option<String>) -> Seq<char> {
    match s {
        Some(t) => t@,
        None => Seq::empty(),
    }
}

fn take_or_empty(s: Option<String>) -> (r: String)
    ensures
        r@ == or_empty(s),
{
    match s {
        Some(t) => t,
        None => String::new(),
    }
}

impl TableInfo {
    /// Builds the entry from one row of the table listing. Only MySQL has a cheap row
    /// count estimate; elsewhere it is absent.
    pub fn from_row(
        db: DbType,
        name: Option<String>,
        raw_type: Option<String>,
        row_count_estimate: Option<i64>,
    ) -> (r: TableInfo)
        ensures
            r.name@ == or_empty(name),
            r.table_type@ == table_kind(or_empty(raw_type)),
            r.row_count_estimate == (if db == DbType::Mysql { row_count_estimate } else { None }),
    {
        let raw = take_or_empty(raw_type);
        let table_type = if eq_ignore_ascii_case(raw.as_str(), "base table")
            || eq_ignore_ascii_case(raw.as_str(), "table") {
            String::from_str("TABLE")
        } else if eq_ignore_ascii_case(raw.as_str(), "view") {
            String::from_str("VIEW")
        } else {
            raw
        };
        let estimate = match db {
            DbType::Mysql => row_count_estimate,
            _ => None,
        };
        TableInfo { name: take_or_empty(name), table_type, row_count_estimate: estimate }
    }
}

// ---- column listing ----

pub const PG_COLUMNS_HEAD: &'static str = "SELECT c.column_name, c.data_type, c.is_nullable, c.column_default, CASE WHEN pk.constraint_type = 'PRIMARY KEY' THEN true ELSE false END AS is_primary FROM information_schema.columns c LEFT JOIN (SELECT ku.table_schema, ku.table_name, ku.column_name, tc.constraint_type FROM information_schema.key_column_usage ku JOIN information_schema.table_constraints tc ON ku.constraint_name = tc.constraint_name WHERE tc.constraint_type = 'PRIMARY KEY') pk ON c.table_schema = pk.table_schema AND c.table_name = pk.table_name AND c.column_name = pk.column_name WHERE c.table_schema = 'public' AND c.table_name = ";

pub const PG_COLUMNS_TAIL: &'static str = " ORDER BY c.ordinal_position";

pub const MYSQL_COLUMNS_HEAD: &'static str = "SELECT column_name AS column_name, data_type AS data_type, is_nullable AS is_nullable, column_default AS column_default, CASE WHEN column_key = 'PRI' THEN true ELSE false END AS is_primary FROM information_schema.columns WHERE table_schema = ";

pub const SQLITE_COLUMNS_HEAD: &'static str = "SELECT name AS column_name, type AS data_type, CASE WHEN \"notnull\" = 0 THEN 'YES' ELSE 'NO' END AS is_nullable, dflt_value AS column_default, pk AS is_primary FROM pragma_table_info(";

pub const CLOSE: &'static str = ")";

/// A column of a table.
#[derive(Debug, Clone, PartialEq, Eq)]
pub struct ColumnInfo {
    pub name: String,
    pub data_type: String,
    pub nullable: bool,
    pub is_primary_key: bool,
    pub default_value: Option<String>,
}

/// The catalog statement listing the columns of a table.
pub open spec fn columns_query(db: DbType, database: Seq<char>, table: Seq<char>) -> Seq<char> {
    match db {
        DbType::Postgres => PG_COLUMNS_HEAD@ + string_literal(table) + PG_COLUMNS_TAIL@,
        DbType::Mysql => MYSQL_COLUMNS_HEAD@ + string_literal(database) + AND_TABLE_NAME@
            + string_literal(table) + BY_POSITION@,
        DbType::Sqlite => SQLITE_COLUMNS_HEAD@ + string_literal(table) + CLOSE@,
    }
}

/// The catalog statement listing the columns of a table.
pub fn table_columns_sql(db: DbType, database: &str, table: &str) -> (r: String)
    ensures
        r@ == columns_query(db, database@, table@),
{
    match db {
        DbType::Postgres => {
            let mut s = String::from_str(PG_COLUMNS_HEAD);
            push_literal(&mut s, table);
            s.append(PG_COLUMNS_TAIL);
            s
        },
        DbType::Mysql => {
            let mut s = String::from_str(MYSQL_COLUMNS_HEAD);
            push_literal(&mut s, database);
            s.append(AND_TABLE_NAME);
            push_literal(&mut s, table);
            s.append(BY_POSITION);
            s
        },
        DbType::Sqlite => {
            let mut s = String::from_str(SQLITE_COLUMNS_HEAD);
            push_literal(&mut s, table);
            s.append(CLOSE);
            s
        },
    }
}

/// Whether a column is part of the primary key: a boolean flag where the engine gives
/// one, else an integer rank, any value above zero meaning yes.
pub open spec fn primary_flag(flag: Option<bool>, rank: Option<i64>) -> bool {
    match flag {
        Some(b) => b,
        None => match rank {
            Some(n) => n > 0,
            None => false,
        },
    }
}

impl ColumnInfo {
    /// Builds the entry from one row of the column listing. Nullability is `YES` in any
    /// letter case.
    pub fn from_row(
        name: Option<String>,
        data_type: Option<String>,
        is_nullable: Option<String>,
        default_value: Option<String>,
        primary: Option<bool>,
        primary_rank: Option<i64>,
    ) -> (r: ColumnInfo)
        ensures
            r.name@ == or_empty(name),
            r.data_type@ == or_empty(data_type),
            r.nullable == eq_ascii_ci(or_empty(is_nullable), "YES"@),
            r.is_primary_key == primary_flag(primary, primary_rank),
            r.default_value == default_value,
    {
        let nullable_text = take_or_empty(is_nullable);
        let nullable = eq_ignore_ascii_case(nullable_text.as_str(), "YES");
        let is_primary_key = match primary {
            Some(b) => b,
            None => match primary_rank {
                Some(n) => n > 0,
                None => false,
            },
        };
        ColumnInfo {
            name: take_or_empty(name),
            data_type: take_or_empty(data_type),
            nullable,
            is_primary_key,
            default_value,
        }
    }
}

} // verus!

verus! {

// ---- index listing ----

pub const PG_INDEXES: &'static str = "SELECT i.relname AS name, ix.indisunique AS is_unique, ix.indisprimary AS is_primary, array_to_json(array_agg(a.attname))::text AS column_names FROM pg_class t, pg_class i, pg_index ix, pg_attribute a WHERE t.oid = ix.indrelid AND i.oid = ix.indexrelid AND a.attrelid = t.oid AND a.attnum = ANY(ix.indkey) AND t.relkind = 'r' AND t.relname = ";

pub const PG_INDEXES_TAIL: &'static str = " GROUP BY i.relname, ix.indisunique, ix.indisprimary";

pub const MYSQL_INDEXES_HEAD: &'static str = "SELECT INDEX_NAME AS name, NON_UNIQUE = 0 AS is_unique, INDEX_NAME = 'PRIMARY' AS is_primary, GROUP_CONCAT(COLUMN_NAME ORDER BY SEQ_IN_INDEX) AS column_names FROM INFORMATION_SCHEMA.STATISTICS WHERE TABLE_SCHEMA = ";

pub const MYSQL_INDEXES_MID: &'static str = " AND TABLE_NAME = ";

pub const MYSQL_INDEXES_TAIL: &'static str = " GROUP BY INDEX_NAME, NON_UNIQUE";

pub const SQLITE_INDEXES: &'static str = "SELECT name, `unique`, origin FROM pragma_index_list(";

pub const SQLITE_INDEX_COLUMNS_HEAD: &'static str = "SELECT name FROM pragma_index_info(";

/// An index of a table.
#[derive(Debug, Clone, PartialEq, Eq)]
pub struct IndexInfo {
    pub name: String,
    pub column_names: Vec<String>,
    pub is_unique: bool,
    pub is_primary: bool,
}

/// The catalog statement listing the indexes of a table, with its binding.
pub open spec fn indexes_query(db: DbType, database: Seq<char>, table: Seq<char>) -> (Seq<char>, Option<Seq<char>>) {
    match db {
        DbType::Postgres => (PG_INDEXES@ + placeholder(db, 1) + PG_INDEXES_TAIL@, Some(table)),
        DbType::Mysql => (
            MYSQL_INDEXES_HEAD@ + string_literal(database) + MYSQL_INDEXES_MID@
                + string_literal(table) + MYSQL_INDEXES_TAIL@,
            None,
        ),
        DbType::Sqlite => (SQLITE_INDEXES@ + placeholder(db, 1) + CLOSE@, Some(table)),
    }
}

/// Whether `q` is the catalog statement `(sql, binding)`.
pub open spec fn is_query(q: CatalogQuery, expected: (Seq<char>, Option<Seq<char>>)) -> bool {
    &&& q.sql@ == expected.0
    &&& match q.bind {
        Some(b) => expected.1 == Some(b@),
        None => expected.1 is None,
    }
}

fn bound(s: &str) -> (r: Option<String>)
    ensures
        r matches Some(b) && b@ == s@,
{
    Some(String::from_str(s))
}

/// The catalog statement listing the indexes of a table.
pub fn indexes_sql(db: DbType, database: &str, table: &str) -> (r: CatalogQuery)
    ensures
        is_query(r, indexes_query(db, database@, table@)),
{
    match db {
        DbType::Postgres => {
            let mut s = String::from_str(PG_INDEXES);
            db.push_placeholder(&mut s, 1);
            s.append(PG_INDEXES_TAIL);
            CatalogQuery { sql: s, bind: bound(table) }
        },
        DbType::Mysql => {
            let mut s = String::from_str(MYSQL_INDEXES_HEAD);
            push_literal(&mut s, database);
            s.append(MYSQL_INDEXES_MID);
            push_literal(&mut s, table);
            s.append(MYSQL_INDEXES_TAIL);
            CatalogQuery { sql: s, bind: None }
        },
        DbType::Sqlite => {
            let mut s = String::from_str(SQLITE_INDEXES);
            db.push_placeholder(&mut s, 1);
            s.append(CLOSE);
            CatalogQuery { sql: s, bind: bound(table) }
        },
    }
}

/// The SQLite statement listing the columns of one index.
pub open spec fn index_columns_query(index: Seq<char>) -> Seq<char> {
    SQLITE_INDEX_COLUMNS_HEAD@ + string_literal(index) + CLOSE@
}

/// The SQLite statement listing the columns of one index, issued once per index.
pub fn index_columns_sql(index: &str) -> (r: String)
    ensures
        r@ == index_columns_query(index@),
{
    let mut s = String::from_str(SQLITE_INDEX_COLUMNS_HEAD);
    push_literal(&mut s, index);
    s.append(CLOSE);
    s
}

/// The list of strings that `serde_json::from_str` reads from a JSON text, if it is one.
pub uninterp spec fn json_string_list(s: Seq<char>) -> Option<Seq<Seq<char>>>;

/// Relies on `serde_json::from_str::<Vec<String>>`: it reads a JSON array of strings, and
/// fails on any other text.
#[verifier::external_body]
fn parse_json_strings(s: &str) -> (r: Option<Vec<String>>)
    ensures
        r matches Some(v) ==> json_string_list(s@) == Some(views(v@)),
        r is None ==> json_string_list(s@) is None,
{
    serde_json::from_str::<Vec<String>>(s).ok()
}

/// The column list of a Postgres index row: its JSON array of names, or none where the
/// text is missing or not such an array.
pub open spec fn json_columns(text: Option<String>) -> Seq<Seq<char>> {
    match text {
        Some(t) => match json_string_list(t@) {
            Some(v) => v,
            None => Seq::empty(),
        },
        None => Seq::empty(),
    }
}

/// The column list of a MySQL index row: its comma-separated names.
pub open spec fn concat_columns(text: Option<String>) -> Seq<Seq<char>> {
    comma_pieces(or_empty(text))
}

/// An integer flag read as a boolean: one means yes.
pub open spec fn flag_one(n: Option<i64>) -> bool {
    n == Some(1i64)
}

/// The names of an SQLite index's columns, empty where a row gave none.
pub open spec fn names_or_empty(names: Seq<Option<String>>) -> Seq<Seq<char>> {
    names.map_values(|n: Option<String>| or_empty(n))
}

impl IndexInfo {
    /// Builds the entry from one Postgres index row; the column list arrives as JSON.
    pub fn from_postgres_row(
        name: Option<String>,
        is_unique: Option<bool>,
        is_primary: Option<bool>,
        column_names: Option<String>,
    ) -> (r: IndexInfo)
        ensures
            r.name@ == or_empty(name),
            views(r.column_names@) == json_columns(column_names),
            r.is_unique == (is_unique == Some(true)),
            r.is_primary == (is_primary == Some(true)),
    {
        let cols = match &column_names {
            Some(t) => match parse_json_strings(t.as_str()) {
                Some(v) => v,
                None => Vec::new(),
            },
            None => Vec::new(),
        };
        proof {
            if cols@.len() == 0 {
                assert(views(cols@) =~= Seq::<Seq<char>>::empty());
            }
        }
        IndexInfo {
            name: take_or_empty(name),
            column_names: cols,
            is_unique: is_unique == Some(true),
            is_primary: is_primary == Some(true),
        }
    }

    /// Builds the entry from one MySQL index row; the column list arrives comma-separated.
    pub fn from_mysql_row(
        name: Option<String>,
        is_unique: Option<i64>,
        is_primary: Option<i64>,
        column_names: Option<String>,
    ) -> (r: IndexInfo)
        ensures
            r.name@ == or_empty(name),
            views(r.column_names@) == concat_columns(column_names),
            r.is_unique == flag_one(is_unique),
            r.is_primary == flag_one(is_primary),
    {
        let text = take_or_empty(column_names);
        IndexInfo {
            name: take_or_empty(name),
            column_names: split_commas(text.as_str()),
            is_unique: is_unique == Some(1i64),
            is_primary: is_primary == Some(1i64),
        }
    }

    /// Builds the entry from one SQLite index row and the rows of its column query; an index
    /// whose origin is `pk` backs the primary key.
    pub fn from_sqlite_rows(
        name: Option<String>,
        unique: Option<i64>,
        origin: Option<String>,
        column_names: Vec<Option<String>>,
    ) -> (r: IndexInfo)
        ensures
            r.name@ == or_empty(name),
            views(r.column_names@) == names_or_empty(column_names@),
            r.is_unique == flag_one(unique),
            r.is_primary == (or_empty(origin) == "pk"@),
    {
        let origin_text = take_or_empty(origin);
        let is_primary = origin_text == String::from_str("pk");
        let mut cols: Vec<String> = Vec::new();
        let mut i: usize = 0;
        while i < column_names.len()
            invariant
                i <= column_names.len(),
                cols@.len() == i,
                views(cols@) =~= names_or_empty(column_names@.take(i as int)),
            decreases column_names.len() - i,
        {
            let ghost prev = cols@;
            let n = match &column_names[i] {
                Some(t) => t.clone(),
                None => String::new(),
            };
            cols.push(n);
            proof {
                let k = i as int;
                assert forall|j: int| 0 <= j < k + 1 implies views(cols@)[j] == names_or_empty(
                    column_names@.take(k + 1),
                )[j] by {
                    if j < k {
                        assert(cols@[j] == prev[j]);
                        assert(views(prev)[j] == names_or_empty(column_names@.take(k))[j]);
                    }
                }
                assert(views(cols@) =~= names_or_empty(column_names@.take(k + 1)));
            }
            i = i + 1;
        }
        assert(column_names@.take(column_names.len() as int) =~= column_names@);
        IndexInfo {
            name: take_or_empty(name),
            column_names: cols,
            is_unique: unique == Some(1i64),
            is_primary,
        }
    }
}

} // verus!

verus! {

// ---- foreign keys ----

pub const PG_FOREIGN_KEYS: &'static str = "SELECT tc.constraint_name AS constraint_name, kcu.column_name AS column_name, ccu.table_name AS foreign_table, ccu.column_name AS foreign_column FROM information_schema.table_constraints AS tc JOIN information_schema.key_column_usage AS kcu ON tc.constraint_name = kcu.constraint_name AND tc.table_schema = kcu.table_schema JOIN information_schema.constraint_column_usage AS ccu ON ccu.constraint_name = tc.constraint_name AND ccu.table_schema = tc.table_schema WHERE tc.constraint_type = 'FOREIGN KEY' AND tc.table_name = ";

pub const MYSQL_FOREIGN_KEYS_HEAD: &'static str = "SELECT CONSTRAINT_NAME AS constraint_name, COLUMN_NAME AS column_name, REFERENCED_TABLE_NAME AS foreign_table, REFERENCED_COLUMN_NAME AS foreign_column FROM INFORMATION_SCHEMA.KEY_COLUMN_USAGE WHERE TABLE_SCHEMA = ";

pub const MYSQL_FOREIGN_KEYS_TAIL: &'static str = " AND REFERENCED_TABLE_NAME IS NOT NULL";

pub const SQLITE_FOREIGN_KEYS: &'static str = "SELECT id, `from`, `table`, `to` FROM pragma_foreign_key_list(";

pub const SQLITE_FOREIGN_KEY_PREFIX: &'static str = "fk_";

/// A foreign key of a table.
#[derive(Debug, Clone, PartialEq, Eq)]
pub struct ForeignKeyInfo {
    pub constraint_name: String,
    pub column_name: String,
    pub foreign_table: String,
    pub foreign_column: String,
}

/// The catalog statement listing the foreign keys of a table, with its binding.
pub open spec fn foreign_keys_query(db: DbType, database: Seq<char>, table: Seq<char>) -> (Seq<char>, Option<Seq<char>>) {
    match db {
        DbType::Postgres => (PG_FOREIGN_KEYS@ + placeholder(db, 1), Some(table)),
        DbType::Mysql => (
            MYSQL_FOREIGN_KEYS_HEAD@ + string_literal(database) + MYSQL_INDEXES_MID@
                + string_literal(table) + MYSQL_FOREIGN_KEYS_TAIL@,
            None,
        ),
        DbType::Sqlite => (SQLITE_FOREIGN_KEYS@ + placeholder(db, 1) + CLOSE@, Some(table)),
    }
}

/// The catalog statement listing the foreign keys of a table.
pub fn foreign_keys_sql(db: DbType, database: &str, table: &str) -> (r: CatalogQuery)
    ensures
        is_query(r, foreign_keys_query(db, database@, table@)),
{
    match db {
        DbType::Postgres => {
            let mut s = String::from_str(PG_FOREIGN_KEYS);
            db.push_placeholder(&mut s, 1);
            CatalogQuery { sql: s, bind: bound(table) }
        },
        DbType::Mysql => {
            let mut s = String::from_str(MYSQL_FOREIGN_KEYS_HEAD);
            push_literal(&mut s, database);
            s.append(MYSQL_INDEXES_MID);
            push_literal(&mut s, table);
            s.append(MYSQL_FOREIGN_KEYS_TAIL);
            CatalogQuery { sql: s, bind: None }
        },
        DbType::Sqlite => {
            let mut s = String::from_str(SQLITE_FOREIGN_KEYS);
            db.push_placeholder(&mut s, 1);
            s.append(CLOSE);
            CatalogQuery { sql: s, bind: bound(table) }
        },
    }
}

/// The name given to an SQLite foreign key, which has no stable constraint name: `fk_`
/// followed by the row id of the pragma (zero when unreadable).
pub open spec fn synthetic_fk_name(id: Option<i64>) -> Seq<char> {
    SQLITE_FOREIGN_KEY_PREFIX@ + signed_decimal(
        match id {
            Some(n) => n as int,
            None => 0,
        },
    )
}

impl ForeignKeyInfo {
    /// Builds the entry from one Postgres or MySQL row.
    pub fn from_row(
        constraint_name: Option<String>,
        column_name: Option<String>,
        foreign_table: Option<String>,
        foreign_column: Option<String>,
    ) -> (r: ForeignKeyInfo)
        ensures
            r.constraint_name@ == or_empty(constraint_name),
            r.column_name@ == or_empty(column_name),
            r.foreign_table@ == or_empty(foreign_table),
            r.foreign_column@ == or_empty(foreign_column),
    {
        ForeignKeyInfo {
            constraint_name: take_or_empty(constraint_name),
            column_name: take_or_empty(column_name),
            foreign_table: take_or_empty(foreign_table),
            foreign_column: take_or_empty(foreign_column),
        }
    }

    /// Builds the entry from one SQLite pragma row, naming it after the row id.
    pub fn from_sqlite_row(
        id: Option<i64>,
        column_name: Option<String>,
        foreign_table: Option<String>,
        foreign_column: Option<String>,
    ) -> (r: ForeignKeyInfo)
        ensures
            r.constraint_name@ == synthetic_fk_name(id),
            r.column_name@ == or_empty(column_name),
            r.foreign_table@ == or_empty(foreign_table),
            r.foreign_column@ == or_empty(foreign_column),
    {
        let mut name = String::from_str(SQLITE_FOREIGN_KEY_PREFIX);
        let n: i64 = match id {
            Some(n) => n,
            None => 0,
        };
        push_signed_decimal(&mut name, n);
        ForeignKeyInfo {
            constraint_name: name,
            column_name: take_or_empty(column_name),
            foreign_table: take_or_empty(foreign_table),
            foreign_column: take_or_empty(foreign_column),
        }
    }
}

// ---- primary key ----

pub const PG_PRIMARY_KEY: &'static str = "SELECT ku.column_name::text AS column_name FROM information_schema.key_column_usage ku JOIN information_schema.table_constraints tc ON ku.constraint_name = tc.constraint_name AND ku.table_schema = tc.table_schema WHERE tc.constraint_type = 'PRIMARY KEY' AND tc.table_schema = 'public' AND tc.table_name = ";

pub const LIMIT_ONE: &'static str = " LIMIT 1";

pub const MYSQL_PRIMARY_KEY_HEAD: &'static str = "SELECT COLUMN_NAME AS column_name FROM information_schema.COLUMNS WHERE TABLE_SCHEMA = ";

pub const MYSQL_PRIMARY_KEY_TAIL: &'static str = " AND COLUMN_KEY = 'PRI' LIMIT 1";

pub const SQLITE_TABLE_INFO_HEAD: &'static str = "PRAGMA table_info(";

/// The column assumed to be the key of a table that declares none.
pub const FALLBACK_KEY: &'static str = "id";

/// The catalog statement that finds the primary-key column of a table.
pub open spec fn primary_key_query(db: DbType, database: Seq<char>, table: Seq<char>) -> (Seq<char>, Option<Seq<char>>) {
    match db {
        DbType::Postgres => (PG_PRIMARY_KEY@ + placeholder(db, 1) + LIMIT_ONE@, Some(table)),
        DbType::Mysql => (
            MYSQL_PRIMARY_KEY_HEAD@ + string_literal(database) + AND_TABLE_NAME@
                + string_literal(table) + MYSQL_PRIMARY_KEY_TAIL@,
            None,
        ),
        DbType::Sqlite => (SQLITE_TABLE_INFO_HEAD@ + quoted(table, db) + CLOSE@, None),
    }
}

/// The catalog statement that finds the primary-key column of a table. On Postgres and
/// MySQL it yields at most one row with the column's name; on SQLite one row per column.
pub fn primary_key_sql(db: DbType, database: &str, table: &str) -> (r: CatalogQuery)
    ensures
        is_query(r, primary_key_query(db, database@, table@)),
{
    match db {
        DbType::Postgres => {
            let mut s = String::from_str(PG_PRIMARY_KEY);
            db.push_placeholder(&mut s, 1);
            s.append(LIMIT_ONE);
            CatalogQuery { sql: s, bind: bound(table) }
        },
        DbType::Mysql => {
            let mut s = String::from_str(MYSQL_PRIMARY_KEY_HEAD);
            push_literal(&mut s, database);
            s.append(AND_TABLE_NAME);
            push_literal(&mut s, table);
            s.append(MYSQL_PRIMARY_KEY_TAIL);
            CatalogQuery { sql: s, bind: None }
        },
        DbType::Sqlite => {
            let mut s = String::from_str(SQLITE_TABLE_INFO_HEAD);
            push_quoted(&mut s, table, db);
            s.append(CLOSE);
            CatalogQuery { sql: s, bind: None }
        },
    }
}

/// The key column from a Postgres or MySQL lookup: the name in the row found, the fallback
/// `id` when no row was found, or the driver's message when the name could not be read.
pub fn primary_key_from_lookup(row: Option<Result<String, String>>) -> (r: Result<String, String>)
    ensures
        match row {
            Some(found) => r == found,
            None => r matches Ok(k) && k@ == FALLBACK_KEY@,
        },
{
    match row {
        Some(found) => found,
        None => Ok(String::from_str(FALLBACK_KEY)),
    }
}

/// The key column from the SQLite table-info rows `(name, pk rank)`: the first column with a
/// rank above zero, else the fallback `id`.
pub open spec fn key_from_table_info(rows: Seq<(String, i64)>) -> Seq<char>
    decreases rows.len(),
{
    if rows.len() == 0 {
        FALLBACK_KEY@
    } else if rows[0].1 > 0 {
        rows[0].0@
    } else {
        key_from_table_info(rows.drop_first())
    }
}

/// The key column from the SQLite table-info rows `(name, pk rank)`.
pub fn primary_key_from_table_info(rows: &Vec<(String, i64)>) -> (r: String)
    ensures
        r@ == key_from_table_info(rows@),
{
    let mut i: usize = 0;
    assert(rows@.skip(0) =~= rows@);
    while i < rows.len()
        invariant
            i <= rows.len(),
            key_from_table_info(rows@) == key_from_table_info(rows@.skip(i as int)),
        decreases rows.len() - i,
    {
        assert(rows@.skip(i as int)[0] == rows@[i as int]);
        if rows[i].1 > 0 {
            return rows[i].0.clone();
        }
        assert(rows@.skip(i as int).drop_first() =~= rows@.skip(i + 1));
        i = i + 1;
    }
    String::from_str(FALLBACK_KEY)
}

// ---- database summary ----

pub const SERVER_VERSION: &'static str = "SELECT version()";

pub const SQLITE_VERSION: &'static str = "SELECT sqlite_version()";

pub const PG_TABLE_COUNT: &'static str = "SELECT COUNT(*) FROM information_schema.tables WHERE table_schema = 'public'";

pub const MYSQL_TABLE_COUNT_HEAD: &'static str = "SELECT COUNT(*) FROM information_schema.tables WHERE table_schema = ";

pub const SQLITE_TABLE_COUNT: &'static str = "SELECT COUNT(*) FROM sqlite_schema WHERE type = 'table' AND name NOT LIKE 'sqlite_%'";

/// The statement reading the engine's version.
pub open spec fn version_query(db: DbType) -> Seq<char> {
    match db {
        DbType::Sqlite => SQLITE_VERSION@,
        _ => SERVER_VERSION@,
    }
}

/// The statement reading the engine's version.
pub fn version_sql(db: DbType) -> (r: String)
    ensures
        r@ == version_query(db),
{
    match db {
        DbType::Sqlite => String::from_str(SQLITE_VERSION),
        _ => String::from_str(SERVER_VERSION),
    }
}

/// The statement counting the tables of the connected database.
pub open spec fn table_count_query(db: DbType, database: Seq<char>) -> Seq<char> {
    match db {
        DbType::Postgres => PG_TABLE_COUNT@,
        DbType::Mysql => MYSQL_TABLE_COUNT_HEAD@ + string_literal(database),
        DbType::Sqlite => SQLITE_TABLE_COUNT@,
    }
}

/// The statement counting the tables of the connected database.
pub fn table_count_sql(db: DbType, database: &str) -> (r: String)
    ensures
        r@ == table_count_query(db, database@),
{
    match db {
        DbType::Postgres => String::from_str(PG_TABLE_COUNT),
        DbType::Mysql => {
            let mut s = String::from_str(MYSQL_TABLE_COUNT_HEAD);
            push_literal(&mut s, database);
            s
        },
        DbType::Sqlite => String::from_str(SQLITE_TABLE_COUNT),
    }
}

} // verus!
