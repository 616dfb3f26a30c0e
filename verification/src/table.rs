//! A table, by name.

use crate::ast_pass::{fragment_sql, lemma_parts_sql_push, AstPass, QueryFragment, SqlPartView};
use crate::column::Column;
use crate::dummy_expression::DummyExpression;
use crate::identifier::Identifier;
use crate::query_builder::{quoted_identifier, Backend};
use vstd::prelude::*;

verus! {

/// A table named at run time, in a schema or in none. `table` and
/// `Schema::table` make one; nothing changes it afterwards.
#[derive(Debug)]
pub struct Table<T, U = T> {
    name: T,
    schema: Option<U>,
}

/// The names of a table, as text.
pub struct TableView {
    /// The table's name.
    pub name: Seq<char>,
    /// The name of the table's schema, where it has one.
    pub schema: Option<Seq<char>>,
}

/// The SQL text of a table on `backend`: the quoted name, after the quoted
/// schema and a dot where the table has a schema.
pub open spec fn table_sql(backend: Backend, table: TableView) -> Seq<char> {
    match table.schema {
        Some(schema) => quoted_identifier(backend, schema) + seq!['.'] + quoted_identifier(
            backend,
            table.name,
        ),
        None => quoted_identifier(backend, table.name),
    }
}

impl<T, U> Table<T, U> {
    /// The table's name.
    pub closed spec fn spec_name(&self) -> &T {
        &self.name
    }

    /// The name of the table's schema, where it has one.
    pub closed spec fn spec_schema(&self) -> Option<U> {
        self.schema
    }

    /// The table `name`, in no schema.
    pub fn new(name: T) -> (table: Self)
        ensures
            *table.spec_name() == name,
            table.spec_schema() is None,
    {
        Table { name, schema: None }
    }

    /// The table's name, as it was given.
    #[verifier::when_used_as_spec(spec_name)]
    pub fn name(&self) -> (name: &T)
        ensures
            name == self.spec_name(),
    {
        &self.name
    }

    /// The table `name` in the schema `schema`.
    pub fn with_schema(schema: U, name: T) -> (table: Self)
        ensures
            *table.spec_name() == name,
            table.spec_schema() == Some(schema),
    {
        Table { name, schema: Some(schema) }
    }

    /// Each name of `self` is a clone of the same name of `source`, and
    /// `self` has a schema exactly if `source` has one.
    pub open spec fn is_clone_of(&self, source: &Self) -> bool where T: Clone, U: Clone {
        &&& cloned(*source.spec_name(), *self.spec_name())
        &&& match (source.spec_schema(), self.spec_schema()) {
            (Some(from), Some(to)) => cloned(from, to),
            (None, None) => true,
            _ => false,
        }
    }

    /// The column `name` of this table, of the SQL type `ST`. The column holds
    /// a clone of the table.
    pub fn column<ST, V>(&self, name: V) -> (column: Column<Self, V, ST>) where T: Clone, U: Clone
        ensures
            column.table().is_clone_of(self),
            *column.name() == name,
    {
        Column::new(self.clone(), name)
    }

    /// The table as the source of a query: a clone of it.
    pub fn from_clause(&self) -> (source: Self) where T: Clone, U: Clone
        ensures
            source.is_clone_of(self),
    {
        self.clone()
    }

    /// What a query on the table selects when it names nothing: the columns
    /// are not known, so a placeholder.
    pub fn default_selection(&self) -> (selection: DummyExpression)
        ensures
            selection == DummyExpression,
    {
        DummyExpression::new()
    }

    /// The table's primary key: not known, so a placeholder.
    pub fn primary_key(&self) -> (key: DummyExpression)
        ensures
            key == DummyExpression,
    {
        DummyExpression::new()
    }

    /// All columns of the table: not known, so a placeholder.
    pub fn all_columns() -> (columns: DummyExpression)
        ensures
            columns == DummyExpression,
    {
        DummyExpression::new()
    }
}

impl<T: Clone, U: Clone> Clone for Table<T, U> {
    fn clone(&self) -> (copy: Self)
        ensures
            copy.is_clone_of(self),
    {
        Table { name: self.name.clone(), schema: self.schema.clone() }
    }
}

impl<T: Copy, U: Copy> Copy for Table<T, U> {
}

impl<T: Identifier, U: Identifier> View for Table<T, U> {
    type V = TableView;

    open spec fn view(&self) -> TableView {
        TableView {
            name: self.name().text(),
            schema: match self.spec_schema() {
                Some(schema) => Some(schema.text()),
                None => None,
            },
        }
    }
}

/// A table is written as its quoted name, after its quoted schema and a dot
/// where it has one. The names are data of the run, so a statement that holds
/// a table is unsafe to cache.
impl<T: Identifier, U: Identifier> QueryFragment for Table<T, U> {
    open spec fn parts(&self) -> Seq<SqlPartView> {
        match self@.schema {
            Some(schema) => seq![
                SqlPartView::Identifier(schema),
                SqlPartView::Sql(seq!['.']),
                SqlPartView::Identifier(self@.name),
            ],
            None => seq![SqlPartView::Identifier(self@.name)],
        }
    }

    open spec fn cacheable(&self) -> bool {
        false
    }

    fn walk_ast(&self, out: &mut AstPass) {
        out.unsafe_to_cache_prepared();
        if let Some(schema) = &self.schema {
            out.push_identifier(schema.as_identifier());
            out.push_sql(".");
            proof {
                reveal_strlit(".");
                assert("."@ =~= seq!['.']);
            }
        }
        out.push_identifier(self.name.as_identifier());
    }
}

/// A clone of a table has the names of the table, and so is written alike.
pub proof fn lemma_clone_has_same_names<T: Identifier, U: Identifier>(
    table: &Table<T, U>,
    copy: &Table<T, U>,
)
    requires
        copy.is_clone_of(table),
    ensures
        copy@ == table@,
        copy.parts() == table.parts(),
{
    table.name().lemma_clone_keeps_text(copy.name());
    match (table.spec_schema(), copy.spec_schema()) {
        (Some(from), Some(to)) => {
            from.lemma_clone_keeps_text(&to);
        },
        _ => {},
    }
}

/// The text of a table depends on its names and on the backend, and on nothing
/// else: tables of the same names are written alike, and so is one table
/// written twice.
pub proof fn lemma_table_sql_is_stable<T: Identifier, U: Identifier, V: Identifier, W: Identifier>(
    first: &Table<T, U>,
    second: &Table<V, W>,
    backend: Backend,
)
    requires
        first@ == second@,
    ensures
        fragment_sql(first, backend) == fragment_sql(second, backend),
{
}

/// On every backend the text of a table is its quoted name, after its quoted
/// schema and a dot where it has a schema.
pub proof fn lemma_table_sql<T: Identifier, U: Identifier>(table: &Table<T, U>, backend: Backend)
    ensures
        fragment_sql(table, backend) == table_sql(backend, table@),
{
    let name = SqlPartView::Identifier(table@.name);
    let none = Seq::<SqlPartView>::empty();
    match table@.schema {
        Some(schema) => {
            let schema = SqlPartView::Identifier(schema);
            let dot = SqlPartView::Sql(seq!['.']);
            lemma_parts_sql_push(backend, none, schema);
            lemma_parts_sql_push(backend, none.push(schema), dot);
            lemma_parts_sql_push(backend, none.push(schema).push(dot), name);
            assert(table.parts() =~= none.push(schema).push(dot).push(name));
        },
        None => {
            lemma_parts_sql_push(backend, none, name);
        },
    }
}

} // verus!
