use vstd::prelude::*;
use crate::data::{cast_columns, column_casts};
use crate::dialect::DbType;
use crate::error::RequestError;
use crate::ident::{identifier_char, push_quoted, quoted, valid_identifier};
use crate::text::{
    ascii_upper, eq_ascii_ci, joined, push_joined, starts_with_ignore_ascii_case, trim, trim_end,
    trim_start, trimmable, trimmed, views, whitespace,
};

verus! {

/// The keyword that marks a row-returning statement.
pub const SELECT_KEYWORD: &'static str = "SELECT";

/// A raw statement ready to run, with the path it takes.
#[derive(Debug)]
pub struct RawQuery {
    /// The statement without surrounding whitespace.
    pub sql: String,
    /// Whether it begins with SELECT and so returns rows; other statements report the
    /// number of rows affected.
    pub returns_rows: bool,
}

/// Whether a statement takes the row-returning path: after surrounding whitespace is
/// dropped, it begins with SELECT in any letter case.
pub open spec fn returns_rows(sql: Seq<char>) -> bool {
    let t = trimmed(sql, false);
    SELECT_KEYWORD@.len() <= t.len() && eq_ascii_ci(t.take(SELECT_KEYWORD@.len() as int), SELECT_KEYWORD@)
}

/// Routes a raw statement: refused when it is blank, else trimmed and marked with its path.
pub fn classify_query(sql: &str) -> (r: Result<RawQuery, RequestError>)
    ensures
        match r {
            Ok(q) => {
                &&& trimmed(sql@, false).len() > 0
                &&& q.sql@ == trimmed(sql@, false)
                &&& q.returns_rows == returns_rows(sql@)
            },
            Err(e) => trimmed(sql@, false).len() == 0 && e == RequestError::EmptyQuery,
        },
{
    let t = trim(sql, false);
    if t.as_str().unicode_len() == 0 {
        return Err(RequestError::EmptyQuery);
    }
    let returns_rows = starts_with_ignore_ascii_case(t.as_str(), SELECT_KEYWORD);
    Ok(RawQuery { sql: t, returns_rows })
}

/// Whether `s` is 32 lowercase hexadecimal digits.
pub open spec fn simple_hex(s: Seq<char>) -> bool {
    s.len() == 32 && forall|i: int| 0 <= i < 32 ==> ('0' <= #[trigger] s[i] <= '9' || 'a' <= s[i] <= 'f')
}

/// Relies on `uuid::Uuid::new_v4` and the `Display` of `Uuid::simple`: a random UUID
/// written as 32 lowercase hexadecimal digits.
#[verifier::external_body]
fn random_simple_uuid() -> (r: String)
    ensures
        simple_hex(r@),
{
    uuid::Uuid::new_v4().simple().to_string()
}

/// The prefix of the scratch tables used to learn a statement's columns on MySQL.
pub const SCRATCH_PREFIX: &'static str = "temp_";

/// A fresh name for a MySQL scratch table: `temp_` and 32 random hexadecimal digits. It is
/// always a valid identifier.
pub fn scratch_table_name() -> (r: String)
    ensures
        r@.len() == SCRATCH_PREFIX@.len() + 32,
        r@.take(SCRATCH_PREFIX@.len() as int) == SCRATCH_PREFIX@,
        simple_hex(r@.skip(SCRATCH_PREFIX@.len() as int)),
        valid_identifier(r@),
{
    let hex = random_simple_uuid();
    let mut name = String::from_str(SCRATCH_PREFIX);
    name.append(hex.as_str());
    proof {
        reveal_strlit("temp_");
        let s = name@;
        assert(s.take(5) =~= SCRATCH_PREFIX@);
        assert(s.skip(5) =~= hex@);
        assert(s[0] == 't');
        assert forall|i: int| 0 <= i < s.len() implies identifier_char(#[trigger] s[i]) by {
            let c = s[i];
            if i >= 5 {
                assert(c == hex@[i - 5]);
            }
            assert(('0' <= c <= '9') || ('a' <= c <= 'z') || c == '_');
        }
    }
    name
}

} // verus!

verus! {

/// The statement body used inside a MySQL probe: trimmed of whitespace and semicolons.
pub open spec fn probe_body(sql: Seq<char>) -> Seq<char> {
    trimmed(sql, true)
}

/// Statement body of a raw query, ready to nest inside another statement.
pub fn nested_body(sql: &str) -> (r: String)
    ensures
        r@ == probe_body(sql@),
{
    trim(sql, true)
}

/// The statement that materializes the (empty) result shape of `body` as a scratch table.
pub open spec fn scratch_create(scratch: Seq<char>, body: Seq<char>) -> Seq<char> {
    "CREATE TEMPORARY TABLE "@ + quoted(scratch, DbType::Mysql) + " SELECT * FROM ("@ + body
        + ") AS sub LIMIT 0"@
}

/// The statement that materializes the result shape of `body` as a scratch table.
pub fn scratch_create_sql(scratch: &str, body: &str) -> (r: String)
    ensures
        r@ == scratch_create(scratch@, body@),
{
    let mut s = String::from_str("CREATE TEMPORARY TABLE ");
    push_quoted(&mut s, scratch, DbType::Mysql);
    s.append(" SELECT * FROM (");
    s.append(body);
    s.append(") AS sub LIMIT 0");
    s
}

/// The statement listing the columns of a scratch table.
pub open spec fn scratch_columns(scratch: Seq<char>) -> Seq<char> {
    "SHOW COLUMNS FROM "@ + quoted(scratch, DbType::Mysql)
}

/// The statement listing the columns of a scratch table.
pub fn scratch_columns_sql(scratch: &str) -> (r: String)
    ensures
        r@ == scratch_columns(scratch@),
{
    let mut s = String::from_str("SHOW COLUMNS FROM ");
    push_quoted(&mut s, scratch, DbType::Mysql);
    s
}

/// The statement removing a scratch table.
pub open spec fn scratch_drop(scratch: Seq<char>) -> Seq<char> {
    "DROP TEMPORARY TABLE IF EXISTS "@ + quoted(scratch, DbType::Mysql)
}

/// The statement removing a scratch table.
pub fn scratch_drop_sql(scratch: &str) -> (r: String)
    ensures
        r@ == scratch_drop(scratch@),
{
    let mut s = String::from_str("DROP TEMPORARY TABLE IF EXISTS ");
    push_quoted(&mut s, scratch, DbType::Mysql);
    s
}

/// The MySQL raw read: every field of `body` cast to text when the probe found fields,
/// else the statement as given.
pub open spec fn cast_query(sql: Seq<char>, body: Seq<char>, fields: Seq<Seq<char>>) -> Seq<char> {
    if fields.len() == 0 {
        sql
    } else {
        "SELECT "@ + joined(column_casts(fields, DbType::Mysql), ", "@) + " FROM ("@ + body
            + ") AS sub"@
    }
}

/// The MySQL raw read over the fields a probe found.
pub fn cast_query_sql(sql: &str, body: &str, fields: &Vec<String>) -> (r: String)
    ensures
        r@ == cast_query(sql@, body@, views(fields@)),
{
    if fields.len() == 0 {
        return String::from_str(sql);
    }
    let casts = cast_columns(fields, DbType::Mysql);
    let mut s = String::from_str("SELECT ");
    push_joined(&mut s, &casts, ", ");
    s.append(" FROM (");
    s.append(body);
    s.append(") AS sub");
    s
}

} // verus!

verus! {

proof fn lemma_trimmable_same_case(a: char, b: char, semicolons: bool)
    requires
        ascii_upper(a) == ascii_upper(b),
    ensures
        trimmable(a, semicolons) == trimmable(b, semicolons),
{
}

proof fn lemma_trim_start_same_case(s: Seq<char>, t: Seq<char>)
    requires
        eq_ascii_ci(s, t),
    ensures
        eq_ascii_ci(trim_start(s, false), trim_start(t, false)),
    decreases s.len(),
{
    if s.len() > 0 {
        lemma_trimmable_same_case(s[0], t[0], false);
        if trimmable(s[0], false) {
            assert(eq_ascii_ci(s.drop_first(), t.drop_first())) by {
                assert forall|i: int| 0 <= i < s.len() - 1 implies ascii_upper(
                    s.drop_first()[i],
                ) == ascii_upper(t.drop_first()[i]) by {
                    assert(s.drop_first()[i] == s[i + 1]);
                    assert(t.drop_first()[i] == t[i + 1]);
                }
            }
            lemma_trim_start_same_case(s.drop_first(), t.drop_first());
        }
    }
}

proof fn lemma_trim_end_same_case(s: Seq<char>, t: Seq<char>)
    requires
        eq_ascii_ci(s, t),
    ensures
        eq_ascii_ci(trim_end(s, false), trim_end(t, false)),
    decreases s.len(),
{
    if s.len() > 0 {
        lemma_trimmable_same_case(s.last(), t.last(), false);
        if trimmable(s.last(), false) {
            assert(eq_ascii_ci(s.drop_last(), t.drop_last())) by {
                assert forall|i: int| 0 <= i < s.len() - 1 implies ascii_upper(
                    s.drop_last()[i],
                ) == ascii_upper(t.drop_last()[i]) by {
                    assert(s.drop_last()[i] == s[i]);
                    assert(t.drop_last()[i] == t[i]);
                }
            }
            lemma_trim_end_same_case(s.drop_last(), t.drop_last());
        }
    }
}

proof fn lemma_trim_start_past_whitespace(w: Seq<char>, s: Seq<char>)
    requires
        forall|i: int| 0 <= i < w.len() ==> whitespace(#[trigger] w[i]),
    ensures
        trim_start(w + s, false) == trim_start(s, false),
    decreases w.len(),
{
    if w.len() > 0 {
        assert((w + s)[0] == w[0]);
        assert((w + s).drop_first() =~= w.drop_first() + s);
        lemma_trim_start_past_whitespace(w.drop_first(), s);
    } else {
        assert(w + s =~= s);
    }
}

/// Routing a raw statement ignores leading whitespace and the letter case of ASCII letters:
/// with `w` all whitespace and `s`, `t` equal up to ASCII case, `w + s` takes the same path
/// as `t`.
pub proof fn routing_ignores_case_and_leading_whitespace(w: Seq<char>, s: Seq<char>, t: Seq<char>)
    requires
        forall|i: int| 0 <= i < w.len() ==> whitespace(#[trigger] w[i]),
        eq_ascii_ci(s, t),
    ensures
        returns_rows(w + s) == returns_rows(t),
{
    lemma_trim_start_past_whitespace(w, s);
    lemma_trim_start_same_case(s, t);
    lemma_trim_end_same_case(trim_start(s, false), trim_start(t, false));
    let a = trimmed(w + s, false);
    let b = trimmed(t, false);
    let k = SELECT_KEYWORD@.len() as int;
    if k <= a.len() {
        assert forall|i: int| 0 <= i < k implies ascii_upper(a.take(k)[i])
            == ascii_upper(b.take(k)[i]) by {
            assert(a.take(k)[i] == a[i]);
            assert(b.take(k)[i] == b[i]);
        }
        if eq_ascii_ci(a.take(k), SELECT_KEYWORD@) {
            assert(eq_ascii_ci(b.take(k), SELECT_KEYWORD@)) by {
                assert forall|i: int| 0 <= i < k implies ascii_upper(b.take(k)[i])
                    == ascii_upper(SELECT_KEYWORD@[i]) by {
                    assert(ascii_upper(a.take(k)[i]) == ascii_upper(
                        SELECT_KEYWORD@[i],
                    ));
                }
            }
        }
        if eq_ascii_ci(b.take(k), SELECT_KEYWORD@) {
            assert(eq_ascii_ci(a.take(k), SELECT_KEYWORD@)) by {
                assert forall|i: int| 0 <= i < k implies ascii_upper(a.take(k)[i])
                    == ascii_upper(SELECT_KEYWORD@[i]) by {
                    assert(ascii_upper(b.take(k)[i]) == ascii_upper(
                        SELECT_KEYWORD@[i],
                    ));
                }
            }
        }
    }
}

} // verus!
