//! The SQL text of a query, built by diesel's query builders.

use vstd::prelude::*;

verus! {

/// The database systems whose quoting rules are known.
#[derive(Clone, Copy, Debug, PartialEq, Eq, Structural)]
pub enum Backend {
    Pg,
    Sqlite,
    Mysql,
}

/// The character that a backend puts around an identifier.
pub open spec fn quote_char(backend: Backend) -> char {
    match backend {
        Backend::Pg => '"',
        Backend::Sqlite => '`',
        Backend::Mysql => '`',
    }
}

/// `text` with every occurrence of `quote` written twice.
pub open spec fn escape_quotes(quote: char, text: Seq<char>) -> Seq<char>
    decreases text.len(),
{
    if text.len() == 0 {
        Seq::empty()
    } else if text.last() == quote {
        escape_quotes(quote, text.drop_last()).push(quote).push(quote)
    } else {
        escape_quotes(quote, text.drop_last()).push(text.last())
    }
}

/// An identifier as it stands in SQL text: between two quote characters, with
/// the quote characters inside it doubled.
pub open spec fn quoted_identifier(backend: Backend, identifier: Seq<char>) -> Seq<char> {
    seq![quote_char(backend)] + escape_quotes(quote_char(backend), identifier) + seq![
        quote_char(backend),
    ]
}

/// A name that holds no quote character stands between the quotes as it is.
pub proof fn lemma_escape_without_quotes(quote: char, text: Seq<char>)
    requires
        !text.contains(quote),
    ensures
        escape_quotes(quote, text) == text,
    decreases text.len(),
{
    if text.len() > 0 {
        let front = text.drop_last();
        assert(!front.contains(quote)) by {
            if front.contains(quote) {
                let i = choose|i: int| 0 <= i < front.len() && front[i] == quote;
                assert(text[i] == quote);
            }
        }
        lemma_escape_without_quotes(quote, front);
    }
}

/// Every `quote` in `text` stands in a pair with another: read from the end,
/// the text is made of pairs of quotes and of other characters.
pub open spec fn quotes_are_paired(quote: char, text: Seq<char>) -> bool
    decreases text.len(),
{
    if text.len() == 0 {
        true
    } else if text.last() != quote {
        quotes_are_paired(quote, text.drop_last())
    } else {
        text.len() >= 2 && text[text.len() - 2] == quote && quotes_are_paired(
            quote,
            text.drop_last().drop_last(),
        )
    }
}

/// No name ends its own quoting: between the outer quotes every quote
/// character stands in a pair.
pub proof fn lemma_escaped_quotes_are_paired(quote: char, text: Seq<char>)
    ensures
        quotes_are_paired(quote, escape_quotes(quote, text)),
    decreases text.len(),
{
    if text.len() > 0 {
        let front = escape_quotes(quote, text.drop_last());
        lemma_escaped_quotes_are_paired(quote, text.drop_last());
        if text.last() == quote {
            let escaped = front.push(quote).push(quote);
            assert(escaped.drop_last().drop_last() =~= front);
        } else {
            assert(front.push(text.last()).drop_last() =~= front);
        }
    }
}

/// Nothing of a name is lost between the quotes: two names that are written
/// alike on a backend are the same name.
pub proof fn lemma_quoting_keeps_the_name(backend: Backend, first: Seq<char>, second: Seq<char>)
    requires
        quoted_identifier(backend, first) == quoted_identifier(backend, second),
    ensures
        first == second,
{
    let quote = quote_char(backend);
    let a = escape_quotes(quote, first);
    let b = escape_quotes(quote, second);
    let left = quoted_identifier(backend, first);
    let right = quoted_identifier(backend, second);
    assert(left.subrange(1, left.len() - 1) =~= a);
    assert(right.subrange(1, right.len() - 1) =~= b);
    lemma_escape_keeps_the_name(quote, first, second);
}

/// Two texts with the same doubled quotes are the same text.
proof fn lemma_escape_keeps_the_name(quote: char, first: Seq<char>, second: Seq<char>)
    requires
        escape_quotes(quote, first) == escape_quotes(quote, second),
    ensures
        first == second,
    decreases first.len(),
{
    let a = escape_quotes(quote, first);
    let b = escape_quotes(quote, second);
    if first.len() == 0 {
        if second.len() > 0 {
            assert(b.len() > 0);
        }
    } else if second.len() > 0 {
        let front = escape_quotes(quote, first.drop_last());
        let other = escape_quotes(quote, second.drop_last());
        if first.last() == quote {
            assert(a.last() == quote);
            assert(a.drop_last().drop_last() =~= front);
            assert(b.drop_last().drop_last() =~= other);
        } else {
            assert(a.last() == first.last());
            assert(a.drop_last() =~= front);
            assert(b.drop_last() =~= other);
        }
        lemma_escape_keeps_the_name(quote, first.drop_last(), second.drop_last());
        assert(second.drop_last().push(second.last()) =~= second);
    }
}

/// diesel's error type, as `QueryBuilder::push_identifier` returns it. Nothing
/// is known of a value of it.
#[verifier::external_type_specification]
#[verifier::external_body]
pub struct ExDieselError(diesel::result::Error);

/// diesel's query builder for PostgreSQL. What it holds is known through the
/// contracts of the calls below, and through nothing else.
#[verifier::external_type_specification]
#[verifier::external_body]
pub struct ExPgQueryBuilder(diesel::pg::PgQueryBuilder);

/// The SQL text that a PostgreSQL query builder holds.
pub uninterp spec fn pg_sql(builder: diesel::pg::PgQueryBuilder) -> Seq<char>;

/// `PgQueryBuilder::new`: a builder that holds no text.
#[verifier::external_body]
fn pg_new() -> (builder: diesel::pg::PgQueryBuilder)
    ensures
        pg_sql(builder) == Seq::<char>::empty(),
{
    diesel::pg::PgQueryBuilder::new()
}

/// `QueryBuilder::push_sql` of `PgQueryBuilder`: the text is put at the end
/// of what the builder holds.
#[verifier::external_body]
fn pg_push_sql(builder: &mut diesel::pg::PgQueryBuilder, sql: &str)
    ensures
        pg_sql(*final(builder)) == pg_sql(*old(builder)) + sql@,
{
    diesel::query_builder::QueryBuilder::push_sql(builder, sql)
}

/// `QueryBuilder::push_identifier` of `PgQueryBuilder`: the identifier is put
/// at the end between two double quotes, each double quote inside it doubled,
/// and the call does not fail.
#[verifier::external_body]
fn pg_push_identifier(
    builder: &mut diesel::pg::PgQueryBuilder,
    identifier: &str,
) -> (pushed: Result<(), diesel::result::Error>)
    ensures
        pushed is Ok,
        pg_sql(*final(builder)) == pg_sql(*old(builder)) + quoted_identifier(
            Backend::Pg,
            identifier@,
        ),
{
    diesel::query_builder::QueryBuilder::push_identifier(builder, identifier)
}

/// `QueryBuilder::finish` of `PgQueryBuilder`: the text that the builder holds.
#[verifier::external_body]
fn pg_finish(builder: diesel::pg::PgQueryBuilder) -> (sql: String)
    ensures
        sql@ == pg_sql(builder),
{
    diesel::query_builder::QueryBuilder::finish(builder)
}

/// diesel's query builder for SQLite. What it holds is known through the
/// contracts of the calls below, and through nothing else.
#[verifier::external_type_specification]
#[verifier::external_body]
pub struct ExSqliteQueryBuilder(diesel::sqlite::SqliteQueryBuilder);

/// The SQL text that a SQLite query builder holds.
pub uninterp spec fn sqlite_sql(builder: diesel::sqlite::SqliteQueryBuilder) -> Seq<char>;

/// `SqliteQueryBuilder::new`: a builder that holds no text.
#[verifier::external_body]
fn sqlite_new() -> (builder: diesel::sqlite::SqliteQueryBuilder)
    ensures
        sqlite_sql(builder) == Seq::<char>::empty(),
{
    diesel::sqlite::SqliteQueryBuilder::new()
}

/// `QueryBuilder::push_sql` of `SqliteQueryBuilder`: the text is put at the
/// end of what the builder holds.
#[verifier::external_body]
fn sqlite_push_sql(builder: &mut diesel::sqlite::SqliteQueryBuilder, sql: &str)
    ensures
        sqlite_sql(*final(builder)) == sqlite_sql(*old(builder)) + sql@,
{
    diesel::query_builder::QueryBuilder::push_sql(builder, sql)
}

/// `QueryBuilder::push_identifier` of `SqliteQueryBuilder`: the identifier is
/// put at the end between two backticks, each backtick inside it doubled, and
/// the call does not fail.
#[verifier::external_body]
fn sqlite_push_identifier(
    builder: &mut diesel::sqlite::SqliteQueryBuilder,
    identifier: &str,
) -> (pushed: Result<(), diesel::result::Error>)
    ensures
        pushed is Ok,
        sqlite_sql(*final(builder)) == sqlite_sql(*old(builder)) + quoted_identifier(
            Backend::Sqlite,
            identifier@,
        ),
{
    diesel::query_builder::QueryBuilder::push_identifier(builder, identifier)
}

/// `QueryBuilder::finish` of `SqliteQueryBuilder`: the text that the builder holds.
#[verifier::external_body]
fn sqlite_finish(builder: diesel::sqlite::SqliteQueryBuilder) -> (sql: String)
    ensures
        sql@ == sqlite_sql(builder),
{
    diesel::query_builder::QueryBuilder::finish(builder)
}

/// diesel's query builder for MySQL. What it holds is known through the
/// contracts of the calls below, and through nothing else.
#[verifier::external_type_specification]
#[verifier::external_body]
pub struct ExMysqlQueryBuilder(diesel::mysql::MysqlQueryBuilder);

/// The SQL text that a MySQL query builder holds.
pub uninterp spec fn mysql_sql(builder: diesel::mysql::MysqlQueryBuilder) -> Seq<char>;

/// `MysqlQueryBuilder::new`: a builder that holds no text.
#[verifier::external_body]
fn mysql_new() -> (builder: diesel::mysql::MysqlQueryBuilder)
    ensures
        mysql_sql(builder) == Seq::<char>::empty(),
{
    diesel::mysql::MysqlQueryBuilder::new()
}

/// `QueryBuilder::push_sql` of `MysqlQueryBuilder`: the text is put at the
/// end of what the builder holds.
#[verifier::external_body]
fn mysql_push_sql(builder: &mut diesel::mysql::MysqlQueryBuilder, sql: &str)
    ensures
        mysql_sql(*final(builder)) == mysql_sql(*old(builder)) + sql@,
{
    diesel::query_builder::QueryBuilder::push_sql(builder, sql)
}

/// `QueryBuilder::push_identifier` of `MysqlQueryBuilder`: the identifier is
/// put at the end between two backticks, each backtick inside it doubled, and
/// the call does not fail.
#[verifier::external_body]
fn mysql_push_identifier(
    builder: &mut diesel::mysql::MysqlQueryBuilder,
    identifier: &str,
) -> (pushed: Result<(), diesel::result::Error>)
    ensures
        pushed is Ok,
        mysql_sql(*final(builder)) == mysql_sql(*old(builder)) + quoted_identifier(
            Backend::Mysql,
            identifier@,
        ),
{
    diesel::query_builder::QueryBuilder::push_identifier(builder, identifier)
}

/// `QueryBuilder::finish` of `MysqlQueryBuilder`: the text that the builder holds.
#[verifier::external_body]
fn mysql_finish(builder: diesel::mysql::MysqlQueryBuilder) -> (sql: String)
    ensures
        sql@ == mysql_sql(builder),
{
    diesel::query_builder::QueryBuilder::finish(builder)
}

/// A query builder of diesel for one of the backends.
pub struct SqlBuilder {
    inner: BackendBuilder,
}

enum BackendBuilder {
    Pg(diesel::pg::PgQueryBuilder),
    Sqlite(diesel::sqlite::SqliteQueryBuilder),
    Mysql(diesel::mysql::MysqlQueryBuilder),
}

impl SqlBuilder {
    /// The backend whose rules the builder follows.
    pub closed spec fn backend(&self) -> Backend {
        match self.inner {
            BackendBuilder::Pg(_) => Backend::Pg,
            BackendBuilder::Sqlite(_) => Backend::Sqlite,
            BackendBuilder::Mysql(_) => Backend::Mysql,
        }
    }

    /// The SQL text built so far.
    pub closed spec fn sql(&self) -> Seq<char> {
        match self.inner {
            BackendBuilder::Pg(builder) => pg_sql(builder),
            BackendBuilder::Sqlite(builder) => sqlite_sql(builder),
            BackendBuilder::Mysql(builder) => mysql_sql(builder),
        }
    }

    /// A builder for `backend` that holds no text.
    pub fn new(backend: Backend) -> (builder: Self)
        ensures
            builder.backend() == backend,
            builder.sql() == Seq::<char>::empty(),
    {
        let inner = match backend {
            Backend::Pg => BackendBuilder::Pg(pg_new()),
            Backend::Sqlite => BackendBuilder::Sqlite(sqlite_new()),
            Backend::Mysql => BackendBuilder::Mysql(mysql_new()),
        };
        SqlBuilder { inner }
    }

    /// Puts `sql` at the end of the text, as it is.
    pub fn push_sql(&mut self, sql: &str)
        ensures
            final(self).backend() == old(self).backend(),
            final(self).sql() == old(self).sql() + sql@,
    {
        match &mut self.inner {
            BackendBuilder::Pg(builder) => pg_push_sql(builder, sql),
            BackendBuilder::Sqlite(builder) => sqlite_push_sql(builder, sql),
            BackendBuilder::Mysql(builder) => mysql_push_sql(builder, sql),
        }
    }

    /// Puts `identifier` at the end of the text, quoted as the backend asks.
    pub fn push_identifier(&mut self, identifier: &str)
        ensures
            final(self).backend() == old(self).backend(),
            final(self).sql() == old(self).sql() + quoted_identifier(
                old(self).backend(),
                identifier@,
            ),
    {
        match &mut self.inner {
            BackendBuilder::Pg(builder) => {
                let _ = pg_push_identifier(builder, identifier);
            },
            BackendBuilder::Sqlite(builder) => {
                let _ = sqlite_push_identifier(builder, identifier);
            },
            BackendBuilder::Mysql(builder) => {
                let _ = mysql_push_identifier(builder, identifier);
            },
        }
    }

    /// The text that was built.
    pub fn finish(self) -> (sql: String)
        ensures
            sql@ == self.sql(),
    {
        match self.inner {
            BackendBuilder::Pg(builder) => pg_finish(builder),
            BackendBuilder::Sqlite(builder) => sqlite_finish(builder),
            BackendBuilder::Mysql(builder) => mysql_finish(builder),
        }
    }
}

} // verus!
