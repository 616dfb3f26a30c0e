//! What a query fragment writes when it is walked: raw SQL and identifiers, in
//! order, and whether the statement may be kept in a prepared-statement cache.

use crate::query_builder::{quoted_identifier, Backend, SqlBuilder};
use vstd::prelude::*;

verus! {

/// One piece of a statement.
#[derive(Debug)]
pub enum SqlPart {
    /// SQL text that is written as it stands.
    Sql(String),
    /// A name that is written quoted, by the rule of the backend.
    Identifier(String),
}

/// A piece of a statement, as the contracts see it.
pub enum SqlPartView {
    Sql(Seq<char>),
    Identifier(Seq<char>),
}

impl View for SqlPart {
    type V = SqlPartView;

    open spec fn view(&self) -> SqlPartView {
        match self {
            SqlPart::Sql(sql) => SqlPartView::Sql(sql@),
            SqlPart::Identifier(identifier) => SqlPartView::Identifier(identifier@),
        }
    }
}

/// The SQL text of one piece on `backend`.
pub open spec fn part_sql(backend: Backend, part: SqlPartView) -> Seq<char> {
    match part {
        SqlPartView::Sql(sql) => sql,
        SqlPartView::Identifier(identifier) => quoted_identifier(backend, identifier),
    }
}

/// The SQL text of the pieces on `backend`: the texts of the pieces, one after
/// the other.
pub open spec fn parts_sql(backend: Backend, parts: Seq<SqlPartView>) -> Seq<char>
    decreases parts.len(),
{
    if parts.len() == 0 {
        Seq::empty()
    } else {
        parts_sql(backend, parts.drop_last()) + part_sql(backend, parts.last())
    }
}

/// The views of the pieces of `parts`, in order.
pub open spec fn parts_view(parts: Seq<SqlPart>) -> Seq<SqlPartView> {
    Seq::new(parts.len(), |i: int| parts[i]@)
}

/// The text of pieces and one more is the text of the pieces followed by the
/// text of the one.
pub proof fn lemma_parts_sql_push(backend: Backend, parts: Seq<SqlPartView>, part: SqlPartView)
    ensures
        parts_sql(backend, parts.push(part)) == parts_sql(backend, parts) + part_sql(
            backend,
            part,
        ),
{
    assert(parts.push(part).drop_last() =~= parts);
}

/// The text of two runs of pieces, one after the other, is the text of the
/// first followed by the text of the second.
pub proof fn lemma_parts_sql_concat(
    backend: Backend,
    first: Seq<SqlPartView>,
    second: Seq<SqlPartView>,
)
    ensures
        parts_sql(backend, first + second) == parts_sql(backend, first) + parts_sql(
            backend,
            second,
        ),
    decreases second.len(),
{
    if second.len() > 0 {
        lemma_parts_sql_concat(backend, first, second.drop_last());
        assert((first + second).drop_last() =~= first + second.drop_last());
        assert(parts_sql(backend, first) + (parts_sql(backend, second.drop_last()) + part_sql(
            backend,
            second.last(),
        )) =~= (parts_sql(backend, first) + parts_sql(backend, second.drop_last())) + part_sql(
            backend,
            second.last(),
        ));
    }
}

/// The pieces that the fragments of a statement have written so far.
#[derive(Debug)]
pub struct AstPass {
    parts: Vec<SqlPart>,
    safe_to_cache_prepared: bool,
}

/// An `AstPass` as the contracts see it.
pub struct AstPassView {
    /// The pieces written, in the order in which they were written.
    pub parts: Seq<SqlPartView>,
    /// Whether no fragment has yet marked the statement as unsafe to cache.
    pub safe_to_cache_prepared: bool,
}

impl View for AstPass {
    type V = AstPassView;

    closed spec fn view(&self) -> AstPassView {
        AstPassView {
            parts: parts_view(self.parts@),
            safe_to_cache_prepared: self.safe_to_cache_prepared,
        }
    }
}

impl AstPass {
    /// A pass in which nothing has been written.
    pub fn new() -> (pass: AstPass)
        ensures
            pass@.parts == Seq::<SqlPartView>::empty(),
            pass@.safe_to_cache_prepared,
    {
        AstPass { parts: Vec::new(), safe_to_cache_prepared: true }
    }

    /// Marks the statement as one that must not be kept in a
    /// prepared-statement cache. Nothing undoes the mark.
    pub fn unsafe_to_cache_prepared(&mut self)
        ensures
            final(self)@.parts == old(self)@.parts,
            !final(self)@.safe_to_cache_prepared,
    {
        self.safe_to_cache_prepared = false;
    }

    /// Writes `sql` as it stands.
    pub fn push_sql(&mut self, sql: &str)
        ensures
            final(self)@.parts == old(self)@.parts.push(SqlPartView::Sql(sql@)),
            final(self)@.safe_to_cache_prepared == old(self)@.safe_to_cache_prepared,
    {
        self.parts.push(SqlPart::Sql(sql.to_owned()));
    }

    /// Writes `identifier`, to be quoted by the rule of the backend that the
    /// statement is rendered for.
    pub fn push_identifier(&mut self, identifier: &str)
        ensures
            final(self)@.parts == old(self)@.parts.push(SqlPartView::Identifier(identifier@)),
            final(self)@.safe_to_cache_prepared == old(self)@.safe_to_cache_prepared,
    {
        self.parts.push(SqlPart::Identifier(identifier.to_owned()));
    }

    /// Whether no fragment has marked the statement as unsafe to cache.
    pub fn is_safe_to_cache_prepared(&self) -> (safe: bool)
        ensures
            safe == self@.safe_to_cache_prepared,
    {
        self.safe_to_cache_prepared
    }

    /// The pieces written, in the order in which they were written.
    pub fn parts(&self) -> (parts: &Vec<SqlPart>)
        ensures
            parts_view(parts@) == self@.parts,
    {
        &self.parts
    }

    /// The SQL text of the statement on `backend`, built by diesel's query
    /// builder for that backend.
    pub fn to_sql(&self, backend: Backend) -> (sql: String)
        ensures
            sql@ == parts_sql(backend, self@.parts),
    {
        let mut builder = SqlBuilder::new(backend);
        let mut i: usize = 0;
        while i < self.parts.len()
            invariant
                i <= self.parts.len(),
                builder.backend() == backend,
                builder.sql() == parts_sql(backend, self@.parts.take(i as int)),
            decreases self.parts.len() - i,
        {
            match &self.parts[i] {
                SqlPart::Sql(sql) => builder.push_sql(sql.as_str()),
                SqlPart::Identifier(identifier) => builder.push_identifier(identifier.as_str()),
            }
            assert(self@.parts.take(i + 1).drop_last() =~= self@.parts.take(i as int));
            i += 1;
        }
        assert(self@.parts.take(i as int) =~= self@.parts);
        builder.finish()
    }
}

/// Something that writes SQL when a statement is walked.
pub trait QueryFragment {
    /// The pieces that the fragment writes, in order.
    spec fn parts(&self) -> Seq<SqlPartView>;

    /// Whether a statement that holds the fragment may be kept in a
    /// prepared-statement cache, as far as the fragment is concerned.
    spec fn cacheable(&self) -> bool;

    /// Writes the fragment at the end of `out`, and marks `out` as unsafe to
    /// cache where the fragment is not cacheable.
    fn walk_ast(&self, out: &mut AstPass)
        ensures
            final(out)@.parts == old(out)@.parts + self.parts(),
            final(out)@.safe_to_cache_prepared == (old(out)@.safe_to_cache_prepared
                && self.cacheable()),
    ;
}

/// What was written in a pass can be written again, at the end of another.
impl QueryFragment for AstPass {
    open spec fn parts(&self) -> Seq<SqlPartView> {
        self@.parts
    }

    open spec fn cacheable(&self) -> bool {
        self@.safe_to_cache_prepared
    }

    fn walk_ast(&self, out: &mut AstPass) {
        if !self.safe_to_cache_prepared {
            out.unsafe_to_cache_prepared();
        }
        let mut i: usize = 0;
        while i < self.parts.len()
            invariant
                i <= self.parts.len(),
                out@.parts == old(out)@.parts + self@.parts.take(i as int),
                out@.safe_to_cache_prepared == (old(out)@.safe_to_cache_prepared
                    && self@.safe_to_cache_prepared),
            decreases self.parts.len() - i,
        {
            match &self.parts[i] {
                SqlPart::Sql(sql) => out.push_sql(sql.as_str()),
                SqlPart::Identifier(identifier) => out.push_identifier(identifier.as_str()),
            }
            assert(self@.parts.take(i + 1) =~= self@.parts.take(i as int).push(
                self.parts[i as int]@,
            ));
            i += 1;
        }
    }
}

/// The SQL text of a fragment on `backend`.
pub open spec fn fragment_sql<F: QueryFragment>(fragment: &F, backend: Backend) -> Seq<char> {
    parts_sql(backend, fragment.parts())
}

/// The SQL text of `fragment` on `backend`, as diesel's query builder for that
/// backend writes it.
pub fn to_sql<F: QueryFragment>(fragment: &F, backend: Backend) -> (sql: String)
    ensures
        sql@ == fragment_sql(fragment, backend),
{
    let mut pass = AstPass::new();
    fragment.walk_ast(&mut pass);
    pass.to_sql(backend)
}

/// Whether a statement made of `fragment` alone may be kept in a
/// prepared-statement cache.
pub fn is_safe_to_cache_prepared<F: QueryFragment>(fragment: &F) -> (safe: bool)
    ensures
        safe == fragment.cacheable(),
{
    let mut pass = AstPass::new();
    fragment.walk_ast(&mut pass);
    pass.is_safe_to_cache_prepared()
}

} // verus!
