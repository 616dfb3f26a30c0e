//! A column of a table, by name.

use crate::ast_pass::{fragment_sql, lemma_parts_sql_push, AstPass, QueryFragment, SqlPartView};
use crate::expression::{Expression, SelectableExpression};
use crate::identifier::Identifier;
use crate::query_builder::{quoted_identifier, Backend};
use std::marker::PhantomData;
use vstd::prelude::*;

verus! {

/// A column named at run time. `ST` is the SQL type that the caller declares
/// for it; nothing holds the declaration against a database.
#[derive(Debug)]
pub struct Column<T, U, ST> {
    table: T,
    name: U,
    _sql_type: PhantomData<ST>,
}

impl<T, U, ST> Column<T, U, ST> {
    /// The table that the column was made from.
    pub closed spec fn spec_table(&self) -> &T {
        &self.table
    }

    /// The column's name.
    pub closed spec fn spec_name(&self) -> &U {
        &self.name
    }

    /// The column `name` of `table`.
    pub fn new(table: T, name: U) -> (column: Self)
        ensures
            *column.spec_table() == table,
            *column.spec_name() == name,
    {
        Column { table, name, _sql_type: PhantomData }
    }

    /// The table that the column was made from.
    #[verifier::when_used_as_spec(spec_table)]
    pub fn table(&self) -> (table: &T)
        ensures
            table == self.spec_table(),
    {
        &self.table
    }

    /// The column's name, as it was given.
    #[verifier::when_used_as_spec(spec_name)]
    pub fn name(&self) -> (name: &U)
        ensures
            name == self.spec_name(),
    {
        &self.name
    }
}

impl<T: Clone, U: Clone, ST> Clone for Column<T, U, ST> {
    fn clone(&self) -> (copy: Self)
        ensures
            cloned(*self.spec_table(), *copy.spec_table()),
            cloned(*self.spec_name(), *copy.spec_name()),
    {
        Column { table: self.table.clone(), name: self.name.clone(), _sql_type: PhantomData }
    }
}

impl<T: Copy, U: Copy, ST> Copy for Column<T, U, ST> {
}

/// A column is written as its quoted name, without its table. Its name is
/// data of the run, so a statement that holds one is unsafe to cache.
impl<T, U: Identifier, ST> QueryFragment for Column<T, U, ST> {
    open spec fn parts(&self) -> Seq<SqlPartView> {
        seq![SqlPartView::Identifier(self.name().text())]
    }

    open spec fn cacheable(&self) -> bool {
        false
    }

    fn walk_ast(&self, out: &mut AstPass) {
        out.unsafe_to_cache_prepared();
        out.push_identifier(self.name.as_identifier());
    }
}

impl<T, U, ST> Expression for Column<T, U, ST> {
    type SqlType = ST;
}

impl<T, U, ST, QS> SelectableExpression<QS> for Column<T, U, ST> {
}

/// On every backend the text of a column is its quoted name, and nothing of
/// its table.
pub proof fn lemma_column_sql<T, U: Identifier, ST>(column: &Column<T, U, ST>, backend: Backend)
    ensures
        fragment_sql(column, backend) == quoted_identifier(backend, column.name().text()),
{
    let name = SqlPartView::Identifier(column.name().text());
    lemma_parts_sql_push(backend, Seq::empty(), name);
}

} // verus!
