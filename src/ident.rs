use vstd::prelude::*;
use crate::dialect::DbType;
use crate::text::{doubled, push_doubled};

verus! {

/// The result of `char::is_alphanumeric` (Unicode `Alphabetic` or `Numeric`).
pub uninterp spec fn alphanumeric(c: char) -> bool;

/// The result of `char::is_numeric` (Unicode general category `Nd`, `Nl` or `No`).
pub uninterp spec fn numeric(c: char) -> bool;

/// Whether `c` is an ASCII letter or digit.
pub open spec fn ascii_alphanumeric(c: char) -> bool {
    ('a' <= c <= 'z') || ('A' <= c <= 'Z') || ('0' <= c <= '9')
}

/// Relies on `char::is_alphanumeric`: on ASCII input it holds exactly of letters and digits.
#[verifier::external_body]
fn is_alphanumeric(c: char) -> (r: bool)
    ensures
        r == alphanumeric(c),
        (c as u32) < 128 ==> (r <==> ascii_alphanumeric(c)),
{
    c.is_alphanumeric()
}

/// Relies on `char::is_numeric`: on ASCII input it holds exactly of the digits.
#[verifier::external_body]
fn is_numeric(c: char) -> (r: bool)
    ensures
        r == numeric(c),
        (c as u32) < 128 ==> (r <==> '0' <= c <= '9'),
{
    c.is_numeric()
}

/// The longest identifier accepted, in characters.
pub const MAX_IDENTIFIER_LEN: usize = 64;

/// A letter or digit: exactly the ASCII ones below 128, and above it whatever
/// `char::is_alphanumeric` accepts.
pub open spec fn letter_or_digit(c: char) -> bool {
    if (c as u32) < 128 {
        ascii_alphanumeric(c)
    } else {
        alphanumeric(c)
    }
}

/// A numeric character: the ASCII digits below 128, and above it whatever
/// `char::is_numeric` accepts.
pub open spec fn numeric_char(c: char) -> bool {
    if (c as u32) < 128 {
        '0' <= c <= '9'
    } else {
        numeric(c)
    }
}

/// A character allowed anywhere in an identifier.
pub open spec fn identifier_char(c: char) -> bool {
    letter_or_digit(c) || c == '_' || c == '-'
}

/// An identifier that may be interpolated into SQL text: one to 64 characters, each a
/// letter, digit, `_` or `-`, and not starting with a digit.
pub open spec fn valid_identifier(s: Seq<char>) -> bool {
    &&& 0 < s.len() <= MAX_IDENTIFIER_LEN
    &&& forall|i: int| 0 <= i < s.len() ==> identifier_char(#[trigger] s[i])
    &&& !numeric_char(s[0])
}

/// The only gate before a table or column name is placed in SQL text.
pub fn is_valid_identifier(name: &str) -> (r: bool)
    ensures
        r == valid_identifier(name@),
{
    let n = name.unicode_len();
    if n == 0 || n > MAX_IDENTIFIER_LEN {
        return false;
    }
    let mut i: usize = 0;
    while i < n
        invariant
            n == name@.len(),
            i <= n,
            forall|j: int| 0 <= j < i ==> identifier_char(#[trigger] name@[j]),
        decreases n - i,
    {
        let c = name.get_char(i);
        if !(is_alphanumeric(c) || c == '_' || c == '-') {
            return false;
        }
        i = i + 1;
    }
    !is_numeric(name.get_char(0))
}

/// The character that delimits identifiers in `db`.
pub open spec fn quote_char(db: DbType) -> char {
    match db {
        DbType::Mysql => '`',
        _ => '"',
    }
}

/// `name` delimited for `db`, with the delimiter doubled inside.
pub open spec fn quoted(name: Seq<char>, db: DbType) -> Seq<char> {
    seq![quote_char(db)] + doubled(name, quote_char(db)) + seq![quote_char(db)]
}

/// `value` as a single-quoted SQL string literal, with `'` doubled inside.
pub open spec fn string_literal(value: Seq<char>) -> Seq<char> {
    seq!['\''] + doubled(value, '\'') + seq!['\'']
}

/// Appends `name` quoted for `db` to `out`.
pub fn push_quoted(out: &mut String, name: &str, db: DbType)
    ensures
        final(out)@ == old(out)@ + quoted(name@, db),
{
    let q = match db {
        DbType::Mysql => '`',
        _ => '"',
    };
    out.push(q);
    push_doubled(out, name, q);
    out.push(q);
    assert(out@ =~= old(out)@ + quoted(name@, db));
}

/// Appends `value` as a string literal to `out`.
pub fn push_literal(out: &mut String, value: &str)
    ensures
        final(out)@ == old(out)@ + string_literal(value@),
{
    out.push('\'');
    push_doubled(out, value, '\'');
    out.push('\'');
    assert(out@ =~= old(out)@ + string_literal(value@));
}

/// Quotes a validated identifier: `"name"` for Postgres and SQLite, `` `name` `` for MySQL,
/// with the delimiter doubled inside.
pub fn quote_identifier(name: &str, db_type: &DbType) -> (r: String)
    ensures
        r@ == quoted(name@, *db_type),
{
    let mut out = String::new();
    push_quoted(&mut out, name, *db_type);
    assert(out@ =~= quoted(name@, *db_type));
    out
}

/// A string literal for inlining: single quotes around the value, with `'` doubled.
/// All three dialects agree on this form.
pub fn escape_string_literal(value: &str, db_type: &DbType) -> (r: String)
    ensures
        r@ == string_literal(value@),
{
    let mut out = String::new();
    push_literal(&mut out, value);
    assert(out@ =~= string_literal(value@));
    out
}

} // verus!

verus! {

proof fn lemma_doubled_len(s: Seq<char>, q: char)
    ensures
        doubled(s, q).len() >= s.len(),
    decreases s.len(),
{
    if s.len() > 0 {
        lemma_doubled_len(s.drop_last(), q);
    }
}

/// Postgres and SQLite share the double-quote delimiter, so they quote every name alike.
pub proof fn double_quote_dialects_agree(name: Seq<char>)
    ensures
        quoted(name, DbType::Postgres) == quoted(name, DbType::Sqlite),
        quote_char(DbType::Postgres) == '"',
        quote_char(DbType::Mysql) == '`',
{
}

/// Escaping is not idempotent: escaping an escaped literal always yields a different, longer
/// text.
pub proof fn escaping_not_idempotent(value: Seq<char>)
    ensures
        string_literal(string_literal(value)) != string_literal(value),
        string_literal(string_literal(value)).len() > string_literal(value).len(),
{
    lemma_doubled_len(string_literal(value), '\'');
}

} // verus!
