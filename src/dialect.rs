use vstd::prelude::*;
use crate::text::{decimal, push_decimal};

verus! {

/// The relational engine family a session talks to.
#[derive(Debug, Clone, Copy, PartialEq, Eq, Structural)]
pub enum DbType {
    Postgres,
    Mysql,
    Sqlite,
}

} // verus!

verus! {

impl DbType {
    /// The engine's product name.
    pub fn display_name(&self) -> (r: &'static str)
        ensures
            r@ == match *self {
                DbType::Postgres => "PostgreSQL"@,
                DbType::Mysql => "MySQL"@,
                DbType::Sqlite => "SQLite"@,
            },
    {
        match self {
            DbType::Postgres => "PostgreSQL",
            DbType::Mysql => "MySQL",
            DbType::Sqlite => "SQLite",
        }
    }
}

} // verus!

verus! {

/// The `n`-th positional parameter marker: `$n` on Postgres, `?` elsewhere.
pub open spec fn placeholder(db: DbType, n: nat) -> Seq<char> {
    match db {
        DbType::Postgres => seq!['$'] + decimal(n),
        _ => seq!['?'],
    }
}

impl DbType {
    /// Appends the `n`-th positional parameter marker to `out`.
    pub fn push_placeholder(&self, out: &mut String, n: u64)
        ensures
            final(out)@ == old(out)@ + placeholder(*self, n as nat),
    {
        match self {
            DbType::Postgres => {
                out.push('$');
                push_decimal(out, n);
                assert(out@ =~= old(out)@ + placeholder(*self, n as nat));
            },
            _ => {
                out.push('?');
                assert(out@ =~= old(out)@ + placeholder(*self, n as nat));
            },
        }
    }
}

} // verus!
