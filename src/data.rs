use vstd::prelude::*;
use crate::dialect::DbType;
use crate::error::RequestError;
use crate::ident::{is_valid_identifier, push_literal, push_quoted, quoted, string_literal, valid_identifier};
use crate::text::{decimal, eq_ascii_ci, eq_ignore_ascii_case, joined, push_decimal, push_joined, views};

verus! {

/// Query parameters of a paginated table read.
pub struct PaginationParams {
    pub page: Option<u32>,
    pub limit: Option<u32>,
    pub sort: Option<String>,
    pub order: Option<String>,
}

/// The page actually served: page at least one, limit at most one hundred.
#[derive(Debug, Clone, Copy, PartialEq, Eq, Structural)]
pub struct Page {
    pub page: u32,
    pub limit: u32,
    pub offset: u64,
}

/// The page requested when none is given.
pub const DEFAULT_PAGE: u32 = 1;

/// The row limit used when none is given.
pub const DEFAULT_LIMIT: u32 = 50;

/// The largest row limit served.
pub const MAX_LIMIT: u32 = 100;

/// The page number served for a request.
pub open spec fn served_page(requested: Option<u32>) -> u32 {
    match requested {
        Some(p) => if p < 1 { 1 } else { p },
        None => DEFAULT_PAGE,
    }
}

/// The row limit served for a request.
pub open spec fn served_limit(requested: Option<u32>) -> u32 {
    match requested {
        Some(l) => if l > MAX_LIMIT { MAX_LIMIT } else { l },
        None => DEFAULT_LIMIT,
    }
}

/// The sort direction keyword: `DESC` when asked for in any letter case, else `ASC`.
pub open spec fn sort_direction(order: Option<String>) -> Seq<char> {
    match order {
        Some(o) => if eq_ascii_ci(o@, "DESC"@) { "DESC"@ } else { "ASC"@ },
        None => "ASC"@,
    }
}

/// The ORDER BY clause: present only for a sort column that is a valid identifier.
pub open spec fn order_clause(sort: Option<String>, order: Option<String>, db: DbType) -> Seq<char> {
    match sort {
        Some(col) => if valid_identifier(col@) {
            "ORDER BY "@ + quoted(col@, db) + " "@ + sort_direction(order)
        } else {
            Seq::empty()
        },
        None => Seq::empty(),
    }
}

impl PaginationParams {
    /// Clamps the request: page at least one (default one), limit at most one hundred
    /// (default fifty), and the offset of the first row served.
    pub fn page(&self) -> (r: Page)
        ensures
            r.page == served_page(self.page),
            r.limit == served_limit(self.limit),
            r.page >= 1,
            r.limit <= MAX_LIMIT,
            r.offset == (r.page - 1) * r.limit,
    {
        let page = match self.page {
            Some(p) => if p < 1 { 1 } else { p },
            None => DEFAULT_PAGE,
        };
        let limit = match self.limit {
            Some(l) => if l > MAX_LIMIT { MAX_LIMIT } else { l },
            None => DEFAULT_LIMIT,
        };
        assert((page - 1) as u64 * limit as u64 <= u32::MAX as u64 * 100) by (nonlinear_arith)
            requires
                page >= 1,
                limit <= 100,
        ;
        let offset: u64 = (page - 1) as u64 * limit as u64;
        Page { page, limit, offset }
    }

    /// Appends the ORDER BY clause (possibly empty) for `db` to `out`.
    pub fn push_order_clause(&self, out: &mut String, db: DbType)
        ensures
            final(out)@ == old(out)@ + order_clause(self.sort, self.order, db),
    {
        match &self.sort {
            Some(col) => {
                if is_valid_identifier(col.as_str()) {
                    out.append("ORDER BY ");
                    push_quoted(out, col.as_str(), db);
                    out.append(" ");
                    let desc = match &self.order {
                        Some(o) => eq_ignore_ascii_case(o.as_str(), "DESC"),
                        None => false,
                    };
                    if desc {
                        out.append("DESC");
                    } else {
                        out.append("ASC");
                    }
                    assert(out@ =~= old(out)@ + order_clause(self.sort, self.order, db));
                } else {
                    assert(out@ =~= old(out)@ + order_clause(self.sort, self.order, db));
                }
            },
            None => {
                assert(out@ =~= old(out)@ + order_clause(self.sort, self.order, db));
            },
        }
    }
}

/// What a read selects: every column, or each listed column cast to text.
pub open spec fn projection(casts: Seq<Seq<char>>) -> Seq<char> {
    if casts.len() == 0 {
        "*"@
    } else {
        joined(casts, ", "@)
    }
}

/// The paginated read statement.
pub open spec fn select_page_sql(
    table: Seq<char>,
    db: DbType,
    casts: Seq<Seq<char>>,
    order: Seq<char>,
    page: Page,
) -> Seq<char> {
    "SELECT "@ + projection(casts) + " FROM "@ + quoted(table, db) + " "@ + order + " LIMIT "@
        + decimal(page.limit as nat) + " OFFSET "@ + decimal(page.offset as nat)
}

/// The text cast of one column in a read: `CAST(c AS CHAR)` on MySQL, `c::text` elsewhere,
/// named after the column.
pub open spec fn column_cast(col: Seq<char>, db: DbType) -> Seq<char> {
    match db {
        DbType::Mysql => "CAST("@ + quoted(col, db) + " AS CHAR) AS "@ + quoted(col, db),
        _ => quoted(col, db) + "::text AS "@ + quoted(col, db),
    }
}

/// The casts for a list of column names.
pub open spec fn column_casts(cols: Seq<Seq<char>>, db: DbType) -> Seq<Seq<char>> {
    cols.map_values(|c: Seq<char>| column_cast(c, db))
}

/// The text cast of one column, named after it.
pub fn cast_column(col: &str, db: DbType) -> (r: String)
    ensures
        r@ == column_cast(col@, db),
{
    let mut out = String::new();
    match db {
        DbType::Mysql => {
            out.append("CAST(");
            push_quoted(&mut out, col, db);
            out.append(" AS CHAR) AS ");
            push_quoted(&mut out, col, db);
        },
        _ => {
            push_quoted(&mut out, col, db);
            out.append("::text AS ");
            push_quoted(&mut out, col, db);
        },
    }
    assert(out@ =~= column_cast(col@, db));
    out
}

/// The casts for each listed column, in order.
pub fn cast_columns(cols: &Vec<String>, db: DbType) -> (r: Vec<String>)
    ensures
        views(r@) == column_casts(views(cols@), db),
{
    let mut r: Vec<String> = Vec::new();
    let mut i: usize = 0;
    while i < cols.len()
        invariant
            i <= cols.len(),
            r@.len() == i,
            views(r@) =~= column_casts(views(cols@.take(i as int)), db),
        decreases cols.len() - i,
    {
        let ghost prev = r@;
        r.push(cast_column(cols[i].as_str(), db));
        proof {
            let k = i as int;
            assert forall|j: int| 0 <= j < k + 1 implies views(r@)[j] == column_casts(
                views(cols@.take(k + 1)),
                db,
            )[j] by {
                if j < k {
                    assert(r@[j] == prev[j]);
                    assert(views(prev)[j] == column_casts(views(cols@.take(k)), db)[j]);
                }
            }
            assert(views(r@) =~= column_casts(views(cols@.take(k + 1)), db));
        }
        i = i + 1;
    }
    assert(cols@.take(cols.len() as int) =~= cols@);
    r
}

/// The paginated read of `table`. With column names from the catalog each column is cast to
/// text; with none (no probe, or a failed or empty one) every column is selected as is.
pub fn select_page(
    table: &str,
    db: DbType,
    params: &PaginationParams,
    columns: Option<&Vec<String>>,
) -> (r: Result<(String, Page), RequestError>)
    ensures
        match r {
            Ok((sql, page)) => {
                &&& valid_identifier(table@)
                &&& page.page == served_page(params.page)
                &&& page.limit == served_limit(params.limit)
                &&& page.offset == (page.page - 1) * page.limit
                &&& sql@ == select_page_sql(
                    table@,
                    db,
                    match columns {
                        Some(c) => column_casts(views(c@), db),
                        None => Seq::empty(),
                    },
                    order_clause(params.sort, params.order, db),
                    page,
                )
            },
            Err(e) => !valid_identifier(table@) && e == RequestError::InvalidTableName,
        },
{
    if !is_valid_identifier(table) {
        return Err(RequestError::InvalidTableName);
    }
    let page = params.page();
    let casts = match columns {
        Some(c) => cast_columns(c, db),
        None => Vec::new(),
    };
    let ghost cs = views(casts@);
    let mut sql = String::from_str("SELECT ");
    if casts.len() == 0 {
        sql.append("*");
    } else {
        push_joined(&mut sql, &casts, ", ");
    }
    assert(sql@ =~= "SELECT "@ + projection(cs));
    sql.append(" FROM ");
    push_quoted(&mut sql, table, db);
    sql.append(" ");
    params.push_order_clause(&mut sql, db);
    sql.append(" LIMIT ");
    push_decimal(&mut sql, page.limit as u64);
    sql.append(" OFFSET ");
    push_decimal(&mut sql, page.offset);
    Ok((sql, page))
}

} // verus!

verus! {

/// One value of a row body, as the caller's JSON gave it.
#[derive(Debug, Clone, PartialEq, Eq)]
pub enum FieldValue {
    Null,
    Bool(bool),
    /// A number, in its JSON notation.
    Number(String),
    Text(String),
    /// An array or object, in its JSON notation; it is stored as text.
    Nested(String),
}

/// A row body: column names with their values, in the order given.
pub type RowBody = Vec<(String, FieldValue)>;

/// The SQL literal written for a value.
pub open spec fn value_sql(v: FieldValue) -> Seq<char> {
    match v {
        FieldValue::Null => "NULL"@,
        FieldValue::Bool(b) => if b { "TRUE"@ } else { "FALSE"@ },
        FieldValue::Number(n) => n@,
        FieldValue::Text(s) => string_literal(s@),
        FieldValue::Nested(j) => string_literal(j@),
    }
}

/// Appends the SQL literal of `v` to `out`.
pub fn push_value(out: &mut String, v: &FieldValue)
    ensures
        final(out)@ == old(out)@ + value_sql(*v),
{
    match v {
        FieldValue::Null => out.append("NULL"),
        FieldValue::Bool(b) => if *b {
            out.append("TRUE")
        } else {
            out.append("FALSE")
        },
        FieldValue::Number(n) => out.append(n.as_str()),
        FieldValue::Text(s) => push_literal(out, s.as_str()),
        FieldValue::Nested(j) => push_literal(out, j.as_str()),
    }
}

/// The column names of a body.
pub open spec fn body_columns(body: Seq<(String, FieldValue)>) -> Seq<Seq<char>> {
    body.map_values(|f: (String, FieldValue)| f.0@)
}

/// The first name that is not a valid identifier.
pub open spec fn first_invalid(names: Seq<Seq<char>>) -> Option<Seq<char>>
    decreases names.len(),
{
    if names.len() == 0 {
        None
    } else if !valid_identifier(names[0]) {
        Some(names[0])
    } else {
        first_invalid(names.drop_first())
    }
}

proof fn lemma_first_invalid_skip(names: Seq<Seq<char>>, i: int)
    requires
        0 <= i <= names.len(),
        forall|j: int| 0 <= j < i ==> valid_identifier(#[trigger] names[j]),
    ensures
        first_invalid(names) == first_invalid(names.skip(i)),
    decreases i,
{
    if i > 0 {
        assert(valid_identifier(names[0]));
        lemma_first_invalid_skip(names.drop_first(), i - 1);
        assert(names.drop_first().skip(i - 1) =~= names.skip(i));
    } else {
        assert(names.skip(0) =~= names);
    }
}

/// Whether a row body can be written: an object with at least one column, every column name
/// a valid identifier.
pub open spec fn body_accepted(body: Option<RowBody>) -> bool {
    match body {
        None => false,
        Some(b) => b@.len() > 0 && first_invalid(body_columns(b@)) is None,
    }
}

/// Whether `e` is the refusal owed to a row body: not an object, empty, or naming the first
/// column that is not a valid identifier.
pub open spec fn body_refusal(body: Option<RowBody>, e: RequestError) -> bool {
    match body {
        None => e == RequestError::NotAnObject,
        Some(b) => if b@.len() == 0 {
            e == RequestError::NoData
        } else {
            match first_invalid(body_columns(b@)) {
                Some(c) => e matches RequestError::InvalidColumnName(n) && n@ == c,
                None => false,
            }
        },
    }
}

/// Checks a row body; on success every column name is a valid identifier.
pub fn check_body(body: &Option<RowBody>) -> (r: Result<(), RequestError>)
    ensures
        match r {
            Ok(_) => body_accepted(*body),
            Err(e) => body_refusal(*body, e),
        },
{
    let b = match body.as_ref() {
        None => return Err(RequestError::NotAnObject),
        Some(b) => b,
    };
    if b.len() == 0 {
        return Err(RequestError::NoData);
    }
    let ghost names = body_columns(b@);
    let mut i: usize = 0;
    while i < b.len()
        invariant
            i <= b.len(),
            *body == Some(*b),
            b@.len() > 0,
            names == body_columns(b@),
            forall|j: int| 0 <= j < i ==> valid_identifier(#[trigger] names[j]),
        decreases b.len() - i,
    {
        if !is_valid_identifier(b[i].0.as_str()) {
            proof {
                lemma_first_invalid_skip(names, i as int);
                assert(names[i as int] == b@[i as int].0@);
                assert(names.skip(i as int)[0] == names[i as int]);
            }
            let name = b[i].0.clone();
            return Err(RequestError::InvalidColumnName(name));
        }
        i = i + 1;
    }
    proof {
        lemma_first_invalid_skip(names, b@.len() as int);
    }
    Ok(())
}

} // verus!

verus! {

/// The quoted column names of a body.
pub open spec fn quoted_columns(body: Seq<(String, FieldValue)>, db: DbType) -> Seq<Seq<char>> {
    body.map_values(|f: (String, FieldValue)| quoted(f.0@, db))
}

/// The value literals of a body.
pub open spec fn value_list(body: Seq<(String, FieldValue)>) -> Seq<Seq<char>> {
    body.map_values(|f: (String, FieldValue)| value_sql(f.1))
}

/// The `column = value` assignments of a body.
pub open spec fn assignments(body: Seq<(String, FieldValue)>, db: DbType) -> Seq<Seq<char>> {
    body.map_values(|f: (String, FieldValue)| quoted(f.0@, db) + " = "@ + value_sql(f.1))
}

/// The statement that inserts one row.
pub open spec fn insert_sql(table: Seq<char>, body: Seq<(String, FieldValue)>, db: DbType) -> Seq<char> {
    "INSERT INTO "@ + quoted(table, db) + " ("@ + joined(quoted_columns(body, db), ", "@)
        + ") VALUES ("@ + joined(value_list(body), ", "@) + ")"@
}

/// The condition selecting a row by key; the key value is always a string literal, left to
/// the engine's implicit cast.
pub open spec fn key_condition(pk: Seq<char>, id: Seq<char>, db: DbType) -> Seq<char> {
    " WHERE "@ + quoted(pk, db) + " = "@ + string_literal(id)
}

/// The statement that updates the row whose key column `pk` equals `id`.
pub open spec fn update_sql(
    table: Seq<char>,
    pk: Seq<char>,
    id: Seq<char>,
    body: Seq<(String, FieldValue)>,
    db: DbType,
) -> Seq<char> {
    "UPDATE "@ + quoted(table, db) + " SET "@ + joined(assignments(body, db), ", "@)
        + key_condition(pk, id, db)
}

/// The statement that deletes the row whose key column `pk` equals `id`.
pub open spec fn delete_sql(table: Seq<char>, pk: Seq<char>, id: Seq<char>, db: DbType) -> Seq<char> {
    "DELETE FROM "@ + quoted(table, db) + key_condition(pk, id, db)
}

/// The refusal owed to a write on `table` with `body`.
pub open spec fn write_refusal(table: Seq<char>, body: Option<RowBody>, e: RequestError) -> bool {
    if !valid_identifier(table) {
        e == RequestError::InvalidTableName
    } else {
        body_refusal(body, e)
    }
}

fn quote_body_columns(body: &RowBody, db: DbType) -> (r: Vec<String>)
    ensures
        views(r@) == quoted_columns(body@, db),
{
    let mut r: Vec<String> = Vec::new();
    let mut i: usize = 0;
    while i < body.len()
        invariant
            i <= body.len(),
            r@.len() == i,
            views(r@) =~= quoted_columns(body@.take(i as int), db),
        decreases body.len() - i,
    {
        let ghost prev = r@;
        let mut s = String::new();
        push_quoted(&mut s, body[i].0.as_str(), db);
        r.push(s);
        proof {
            let k = i as int;
            assert forall|j: int| 0 <= j < k + 1 implies views(r@)[j] == quoted_columns(
                body@.take(k + 1),
                db,
            )[j] by {
                if j < k {
                    assert(r@[j] == prev[j]);
                    assert(views(prev)[j] == quoted_columns(body@.take(k), db)[j]);
                }
            }
            assert(views(r@) =~= quoted_columns(body@.take(k + 1), db));
        }
        i = i + 1;
    }
    assert(body@.take(body.len() as int) =~= body@);
    r
}

fn render_values(body: &RowBody) -> (r: Vec<String>)
    ensures
        views(r@) == value_list(body@),
{
    let mut r: Vec<String> = Vec::new();
    let mut i: usize = 0;
    while i < body.len()
        invariant
            i <= body.len(),
            r@.len() == i,
            views(r@) =~= value_list(body@.take(i as int)),
        decreases body.len() - i,
    {
        let ghost prev = r@;
        let mut s = String::new();
        push_value(&mut s, &body[i].1);
        r.push(s);
        proof {
            let k = i as int;
            assert forall|j: int| 0 <= j < k + 1 implies views(r@)[j] == value_list(
                body@.take(k + 1),
            )[j] by {
                if j < k {
                    assert(r@[j] == prev[j]);
                    assert(views(prev)[j] == value_list(body@.take(k))[j]);
                }
            }
            assert(views(r@) =~= value_list(body@.take(k + 1)));
        }
        i = i + 1;
    }
    assert(body@.take(body.len() as int) =~= body@);
    r
}

fn render_assignments(body: &RowBody, db: DbType) -> (r: Vec<String>)
    ensures
        views(r@) == assignments(body@, db),
{
    let mut r: Vec<String> = Vec::new();
    let mut i: usize = 0;
    while i < body.len()
        invariant
            i <= body.len(),
            r@.len() == i,
            views(r@) =~= assignments(body@.take(i as int), db),
        decreases body.len() - i,
    {
        let ghost prev = r@;
        let mut s = String::new();
        push_quoted(&mut s, body[i].0.as_str(), db);
        s.append(" = ");
        push_value(&mut s, &body[i].1);
        r.push(s);
        proof {
            let k = i as int;
            assert forall|j: int| 0 <= j < k + 1 implies views(r@)[j] == assignments(
                body@.take(k + 1),
                db,
            )[j] by {
                if j < k {
                    assert(r@[j] == prev[j]);
                    assert(views(prev)[j] == assignments(body@.take(k), db)[j]);
                }
            }
            assert(views(r@) =~= assignments(body@.take(k + 1), db));
        }
        i = i + 1;
    }
    assert(body@.take(body.len() as int) =~= body@);
    r
}

/// The statement inserting `body` as a new row of `table`, or the refusal owed to the request.
pub fn insert_row_sql(table: &str, body: &Option<RowBody>, db: DbType) -> (r: Result<String, RequestError>)
    ensures
        match r {
            Ok(sql) => {
                &&& valid_identifier(table@)
                &&& body_accepted(*body)
                &&& sql@ == insert_sql(table@, body->0@, db)
            },
            Err(e) => write_refusal(table@, *body, e),
        },
{
    if !is_valid_identifier(table) {
        return Err(RequestError::InvalidTableName);
    }
    match check_body(body) {
        Err(e) => return Err(e),
        Ok(_) => {},
    }
    let b = body.as_ref().unwrap();
    let cols = quote_body_columns(b, db);
    let vals = render_values(b);
    let mut sql = String::from_str("INSERT INTO ");
    push_quoted(&mut sql, table, db);
    sql.append(" (");
    push_joined(&mut sql, &cols, ", ");
    sql.append(") VALUES (");
    push_joined(&mut sql, &vals, ", ");
    sql.append(")");
    Ok(sql)
}

/// The statement setting the columns of `body` on the row of `table` whose key column `pk`
/// equals `id`, or the refusal owed to the request.
pub fn update_row_sql(
    table: &str,
    pk: &str,
    id: &str,
    body: &Option<RowBody>,
    db: DbType,
) -> (r: Result<String, RequestError>)
    ensures
        match r {
            Ok(sql) => {
                &&& valid_identifier(table@)
                &&& body_accepted(*body)
                &&& sql@ == update_sql(table@, pk@, id@, body->0@, db)
            },
            Err(e) => write_refusal(table@, *body, e),
        },
{
    if !is_valid_identifier(table) {
        return Err(RequestError::InvalidTableName);
    }
    match check_body(body) {
        Err(e) => return Err(e),
        Ok(_) => {},
    }
    let b = body.as_ref().unwrap();
    let sets = render_assignments(b, db);
    let mut sql = String::from_str("UPDATE ");
    push_quoted(&mut sql, table, db);
    sql.append(" SET ");
    push_joined(&mut sql, &sets, ", ");
    sql.append(" WHERE ");
    push_quoted(&mut sql, pk, db);
    sql.append(" = ");
    push_literal(&mut sql, id);
    assert(sql@ =~= update_sql(table@, pk@, id@, b@, db));
    Ok(sql)
}

/// The statement deleting the row of `table` whose key column `pk` equals `id`.
pub fn delete_row_sql(table: &str, pk: &str, id: &str, db: DbType) -> (r: Result<String, RequestError>)
    ensures
        match r {
            Ok(sql) => valid_identifier(table@) && sql@ == delete_sql(table@, pk@, id@, db),
            Err(e) => !valid_identifier(table@) && e == RequestError::InvalidTableName,
        },
{
    if !is_valid_identifier(table) {
        return Err(RequestError::InvalidTableName);
    }
    let mut sql = String::from_str("DELETE FROM ");
    push_quoted(&mut sql, table, db);
    sql.append(" WHERE ");
    push_quoted(&mut sql, pk, db);
    sql.append(" = ");
    push_literal(&mut sql, id);
    assert(sql@ =~= delete_sql(table@, pk@, id@, db));
    Ok(sql)
}

} // verus!
